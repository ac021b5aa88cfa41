use puzi_contracts::error::ERROR_CODE_OFFSET;
use puzi_contracts::ErrorCode;

fn all_reasons() -> Vec<ErrorCode> {
    vec![
        ErrorCode::ListingNotActive,
        ErrorCode::Unauthorized,
        ErrorCode::InvalidAmount,
        ErrorCode::InvalidPrice,
        ErrorCode::InsufficientStock,
        ErrorCode::Overflow,
        ErrorCode::InvalidMint,
        ErrorCode::InvalidOwner,
        ErrorCode::InvalidSeller,
        ErrorCode::TransferFailed,
    ]
}

#[test]
fn codes_start_at_the_offset_of_custom_errors() {
    assert_eq!(ERROR_CODE_OFFSET, anchor_lang::error::ERROR_CODE_OFFSET);
    assert_eq!(ErrorCode::ListingNotActive.code(), 6000);
}

#[test]
fn codes_follow_declaration_order() {
    let reasons = all_reasons();
    for (i, reason) in reasons.iter().enumerate() {
        assert_eq!(reason.code(), 6000 + i as u32);
    }
    assert_eq!(ErrorCode::InsufficientStock.code(), 6004);
    assert_eq!(ErrorCode::InvalidSeller.code(), 6008);
    assert_eq!(ErrorCode::TransferFailed.code(), 6009);
}

#[test]
fn messages_are_the_letter_e_and_a_position() {
    let reasons = all_reasons();
    for (i, reason) in reasons.iter().enumerate() {
        assert_eq!(reason.message(), format!("E{}", i + 1));
    }
    assert_eq!(ErrorCode::ListingNotActive.message(), "E1");
    assert_eq!(ErrorCode::Overflow.message(), "E6");
}
