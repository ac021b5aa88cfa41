//! Assets and the balances held in them.
//!
//! The marketplace moves value only by asking for a transfer between two
//! balances of one asset, or for an empty balance to be closed. This module
//! states what such a request does to the balances it names.

use crate::address::Address;
use crate::error::ErrorCode;
use vstd::prelude::*;

verus! {

/// An asset: its identity and how many decimal places its smallest unit sits
/// below one whole unit.
#[derive(Clone, Copy, Debug, PartialEq, Eq)]
pub struct Mint {
    pub key: Address,
    pub decimals: u8,
}

/// A balance: `amount` smallest units of asset `mint`, held for `owner`.
#[derive(Clone, Copy, Debug, PartialEq, Eq)]
pub struct TokenAccount {
    pub mint: Address,
    pub owner: Address,
    pub amount: u64,
}

impl TokenAccount {
    /// The same balance holding `amount` instead.
    pub open spec fn with_amount(self, amount: int) -> TokenAccount {
        TokenAccount { mint: self.mint, owner: self.owner, amount: amount as u64 }
    }

    /// A fresh, empty balance of asset `mint` held for `owner`.
    pub fn empty(mint: Address, owner: Address) -> (r: TokenAccount)
        ensures
            r == (TokenAccount { mint, owner, amount: 0 }),
    {
        TokenAccount { mint, owner, amount: 0 }
    }
}

/// Whether `amount` can move from `from` to `to`: both hold the same asset,
/// `from` holds at least `amount`, and `to` has room for it.
pub open spec fn transferable(from: TokenAccount, to: TokenAccount, amount: u64) -> bool {
    &&& from.mint == to.mint
    &&& from.amount >= amount
    &&& to.amount + amount <= u64::MAX
}

/// Moves `amount` from `from` to `to`, or refuses and moves nothing.
pub fn transfer(from: &mut TokenAccount, to: &mut TokenAccount, amount: u64) -> (r: Result<
    (),
    ErrorCode,
>)
    ensures
        match r {
            Ok(()) => {
                &&& transferable(*old(from), *old(to), amount)
                &&& *final(from) == old(from).with_amount(old(from).amount - amount)
                &&& *final(to) == old(to).with_amount(old(to).amount + amount)
            },
            Err(e) => {
                &&& !transferable(*old(from), *old(to), amount)
                &&& e == ErrorCode::TransferFailed
                &&& *final(from) == *old(from)
                &&& *final(to) == *old(to)
            },
        },
{
    if from.mint != to.mint {
        return Err(ErrorCode::TransferFailed);
    }
    let debited = match from.amount.checked_sub(amount) {
        Some(debited) => debited,
        None => {
            return Err(ErrorCode::TransferFailed);
        },
    };
    let credited = match to.amount.checked_add(amount) {
        Some(credited) => credited,
        None => {
            return Err(ErrorCode::TransferFailed);
        },
    };
    from.amount = debited;
    to.amount = credited;
    Ok(())
}

/// Closes a balance: an empty one is removed; a missing one, or one that still
/// holds something, is refused and left as it is.
pub fn close_account(account: &mut Option<TokenAccount>) -> (r: Result<(), ErrorCode>)
    ensures
        match r {
            Ok(()) => {
                &&& *old(account) matches Some(balance)
                &&& balance.amount == 0
                &&& *final(account) is None
            },
            Err(e) => {
                &&& !(*old(account) matches Some(balance) && balance.amount == 0)
                &&& e == ErrorCode::TransferFailed
                &&& *final(account) == *old(account)
            },
        },
{
    match account {
        Some(balance) => {
            if balance.amount != 0 {
                return Err(ErrorCode::TransferFailed);
            }
        },
        None => {
            return Err(ErrorCode::TransferFailed);
        },
    }
    *account = None;
    Ok(())
}

} // verus!
