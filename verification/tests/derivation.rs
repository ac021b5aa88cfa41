use anchor_lang::prelude::Pubkey;
use puzi_contracts::{find_listing_address, listing_signer_address, program_id, Address, PROGRAM_ID};

#[test]
fn program_id_is_the_deployed_identity() {
    let expected: Pubkey = "3Ehs9eoZmV3vYKApXs9mJkFTRev3u8B7hMeaa1nWxX6A".parse().unwrap();
    assert_eq!(PROGRAM_ID, expected.to_bytes());
    assert_eq!(program_id().bytes, expected.to_bytes());
}

#[test]
fn listing_address_matches_the_ledger_derivation() {
    let seller = Address::new([7u8; 32]);
    let listing_id: u64 = 42;
    let program = Pubkey::new_from_array(PROGRAM_ID);
    let (expected, expected_bump) = Pubkey::find_program_address(
        &[b"listing", &seller.bytes, &listing_id.to_le_bytes()],
        &program,
    );
    let (address, bump) = find_listing_address(&seller, listing_id).unwrap();
    assert_eq!(address.bytes, expected.to_bytes());
    assert_eq!(bump, expected_bump);
    assert_ne!(address, seller);
}

#[test]
fn signer_address_reproduces_the_listing_address() {
    let seller = Address::new([3u8; 32]);
    let (address, bump) = find_listing_address(&seller, 1).unwrap();
    assert_eq!(listing_signer_address(&seller, 1, bump), Some(address));
}

#[test]
fn listing_address_depends_on_seller_and_id() {
    let a = Address::new([1u8; 32]);
    let b = Address::new([2u8; 32]);
    let first = find_listing_address(&a, 1).unwrap();
    assert_eq!(find_listing_address(&a, 1).unwrap(), first);
    assert_ne!(find_listing_address(&a, 2).unwrap().0, first.0);
    assert_ne!(find_listing_address(&b, 1).unwrap().0, first.0);
}
