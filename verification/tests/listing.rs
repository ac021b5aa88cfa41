use anchor_lang::solana_program::hash::hash;
use puzi_contracts::{state_of, Address, ErrorCode, Listing, ListingState, LISTING_TAG};

fn sample() -> Listing {
    Listing {
        seller: Address::new([1u8; 32]),
        sell_mint: Address::new([2u8; 32]),
        buy_mint: Address::new([3u8; 32]),
        price_per_token: 100,
        amount: 500,
        listing_id: 0x0102_0304_0506_0708,
        bump: 254,
    }
}

#[test]
fn open_populates_every_field() {
    let expected = sample();
    let opened = Listing::open(
        expected.seller,
        expected.sell_mint,
        expected.buy_mint,
        100,
        500,
        0x0102_0304_0506_0708,
        254,
    );
    assert_eq!(opened, Ok(expected));
}

#[test]
fn open_refuses_a_zero_amount() {
    let s = sample();
    let opened = Listing::open(s.seller, s.sell_mint, s.buy_mint, 10, 0, 1, 255);
    assert_eq!(opened, Err(ErrorCode::InvalidAmount));
}

#[test]
fn open_refuses_a_zero_price() {
    let s = sample();
    let opened = Listing::open(s.seller, s.sell_mint, s.buy_mint, 0, 10, 1, 255);
    assert_eq!(opened, Err(ErrorCode::InvalidPrice));
}

#[test]
fn open_names_the_amount_first_when_both_are_zero() {
    let s = sample();
    let opened = Listing::open(s.seller, s.sell_mint, s.buy_mint, 0, 0, 1, 255);
    assert_eq!(opened, Err(ErrorCode::InvalidAmount));
}

#[test]
fn decrement_takes_from_what_is_left() {
    let mut listing = sample();
    assert_eq!(listing.decrement(200), Ok(()));
    assert_eq!(listing, Listing { amount: 300, ..sample() });
    assert_eq!(listing.decrement(300), Ok(()));
    assert_eq!(listing.amount, 0);
}

#[test]
fn decrement_below_zero_fails_and_does_not_clamp() {
    let mut listing = sample();
    assert_eq!(listing.decrement(501), Err(ErrorCode::Overflow));
    assert_eq!(listing, sample());
    let mut empty = Listing { amount: 0, ..sample() };
    assert_eq!(empty.decrement(1), Err(ErrorCode::Overflow));
    assert_eq!(empty.amount, 0);
}

#[test]
fn state_follows_record_and_amount() {
    assert_eq!(state_of(&Some(sample())), ListingState::Active);
    assert_eq!(state_of(&Some(Listing { amount: 1, ..sample() })), ListingState::Active);
    assert_eq!(state_of(&Some(Listing { amount: 0, ..sample() })), ListingState::Depleted);
    assert_eq!(state_of(&None), ListingState::Closed);
    assert!(sample().is_active());
    assert!(!Listing { amount: 0, ..sample() }.is_active());
}

#[test]
fn tag_is_the_head_of_the_hash_of_the_record_name() {
    let digest = hash(b"account:Listing").to_bytes();
    assert_eq!(&digest[..8], &LISTING_TAG[..]);
}

#[test]
fn record_is_129_bytes_of_which_121_are_fields() {
    assert_eq!(Listing::SIZE, 129);
    assert_eq!(Listing::BODY_SIZE, 121);
    assert_eq!(Listing::SIZE, LISTING_TAG.len() + Listing::BODY_SIZE);
    assert_eq!(sample().encode().len(), 129);
}

#[test]
fn encode_lays_the_fields_out_in_order() {
    let bytes = sample().encode();
    assert_eq!(&bytes[0..8], &LISTING_TAG[..]);
    assert_eq!(&bytes[8..40], &[1u8; 32][..]);
    assert_eq!(&bytes[40..72], &[2u8; 32][..]);
    assert_eq!(&bytes[72..104], &[3u8; 32][..]);
    assert_eq!(&bytes[104..112], &[100u8, 0, 0, 0, 0, 0, 0, 0][..]);
    assert_eq!(&bytes[112..120], &[0xf4u8, 0x01, 0, 0, 0, 0, 0, 0][..]);
    assert_eq!(&bytes[120..128], &[8u8, 7, 6, 5, 4, 3, 2, 1][..]);
    assert_eq!(bytes[128], 254);
}

#[test]
fn decode_reads_back_what_encode_wrote() {
    let listing = sample();
    assert_eq!(Listing::decode(&listing.encode()), Some(listing));
    let extreme = Listing {
        price_per_token: u64::MAX,
        amount: 0,
        listing_id: u64::MAX,
        bump: 0,
        ..sample()
    };
    assert_eq!(Listing::decode(&extreme.encode()), Some(extreme));
}

#[test]
fn encode_writes_back_what_decode_read() {
    let mut bytes = vec![0u8; 129];
    bytes[..8].copy_from_slice(&LISTING_TAG);
    for (i, b) in bytes.iter_mut().enumerate().skip(8) {
        *b = (i * 7 % 251) as u8;
    }
    let listing = Listing::decode(&bytes).unwrap();
    assert_eq!(listing.encode(), bytes);
}

#[test]
fn decode_refuses_a_wrong_length() {
    let bytes = sample().encode();
    assert_eq!(Listing::decode(&bytes[..128]), None);
    let mut longer = bytes.clone();
    longer.push(0);
    assert_eq!(Listing::decode(&longer), None);
    assert_eq!(Listing::decode(&[]), None);
}

#[test]
fn decode_refuses_a_wrong_tag() {
    let mut bytes = sample().encode();
    bytes[7] ^= 1;
    assert_eq!(Listing::decode(&bytes), None);
}

#[test]
fn decode_refuses_a_record_without_a_price() {
    let free = Listing { price_per_token: 0, ..sample() };
    assert_eq!(Listing::decode(&free.encode()), None);
}
