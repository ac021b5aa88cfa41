use puzi_contracts::{close_account, transfer, Address, ErrorCode, TokenAccount};

fn holding(mint: u8, owner: u8, amount: u64) -> TokenAccount {
    TokenAccount { mint: Address::new([mint; 32]), owner: Address::new([owner; 32]), amount }
}

#[test]
fn empty_balance_holds_nothing() {
    let mint = Address::new([4u8; 32]);
    let owner = Address::new([5u8; 32]);
    assert_eq!(TokenAccount::empty(mint, owner), TokenAccount { mint, owner, amount: 0 });
}

#[test]
fn transfer_debits_and_credits_the_same_amount() {
    let mut from = holding(1, 2, 500);
    let mut to = holding(1, 3, 20);
    assert_eq!(transfer(&mut from, &mut to, 180), Ok(()));
    assert_eq!(from, holding(1, 2, 320));
    assert_eq!(to, holding(1, 3, 200));
}

#[test]
fn transfer_of_the_whole_balance_and_of_nothing() {
    let mut from = holding(1, 2, 500);
    let mut to = holding(1, 3, 0);
    assert_eq!(transfer(&mut from, &mut to, 0), Ok(()));
    assert_eq!((from.amount, to.amount), (500, 0));
    assert_eq!(transfer(&mut from, &mut to, 500), Ok(()));
    assert_eq!((from.amount, to.amount), (0, 500));
}

#[test]
fn transfer_beyond_the_balance_is_refused() {
    let mut from = holding(1, 2, 500);
    let mut to = holding(1, 3, 20);
    assert_eq!(transfer(&mut from, &mut to, 501), Err(ErrorCode::TransferFailed));
    assert_eq!(from, holding(1, 2, 500));
    assert_eq!(to, holding(1, 3, 20));
}

#[test]
fn transfer_that_overflows_the_destination_is_refused() {
    let mut from = holding(1, 2, 500);
    let mut to = holding(1, 3, u64::MAX - 99);
    assert_eq!(transfer(&mut from, &mut to, 100), Err(ErrorCode::TransferFailed));
    assert_eq!(from.amount, 500);
    assert_eq!(to.amount, u64::MAX - 99);
    assert_eq!(transfer(&mut from, &mut to, 99), Ok(()));
    assert_eq!(to.amount, u64::MAX);
}

#[test]
fn transfer_between_assets_is_refused() {
    let mut from = holding(1, 2, 500);
    let mut to = holding(9, 3, 20);
    assert_eq!(transfer(&mut from, &mut to, 1), Err(ErrorCode::TransferFailed));
    assert_eq!(from, holding(1, 2, 500));
    assert_eq!(to, holding(9, 3, 20));
}

#[test]
fn close_removes_an_empty_balance() {
    let mut account = Some(holding(1, 2, 0));
    assert_eq!(close_account(&mut account), Ok(()));
    assert_eq!(account, None);
}

#[test]
fn close_refuses_a_balance_that_holds_something() {
    let mut account = Some(holding(1, 2, 1));
    assert_eq!(close_account(&mut account), Err(ErrorCode::TransferFailed));
    assert_eq!(account, Some(holding(1, 2, 1)));
}

#[test]
fn close_refuses_a_missing_balance() {
    let mut account: Option<TokenAccount> = None;
    assert_eq!(close_account(&mut account), Err(ErrorCode::TransferFailed));
    assert_eq!(account, None);
}
