//! The closed set of reasons for which an operation is refused.

use vstd::prelude::*;

verus! {

/// The number that the first failure reason is reported under; the others
/// follow in declaration order.
pub const ERROR_CODE_OFFSET: u32 = 6000;

/// Why an operation was refused. A refused operation changes nothing.
#[derive(Clone, Copy, Debug, PartialEq, Eq, Structural)]
pub enum ErrorCode {
    /// The listing is absent, closed or sold out.
    ListingNotActive,
    /// The listing address is not the one derived from seller and listing id.
    Unauthorized,
    /// A quantity of zero was asked for.
    InvalidAmount,
    /// A price of zero was asked for.
    InvalidPrice,
    /// The fill exceeds what the listing has left.
    InsufficientStock,
    /// The price computation, or a decrement of the remaining amount, leaves
    /// the 64-bit domain.
    Overflow,
    /// A balance or a record names another asset than the one expected.
    InvalidMint,
    /// A balance belongs to another identity than the one expected.
    InvalidOwner,
    /// The seller handed in is not the seller that the listing records.
    InvalidSeller,
    /// The asset-transfer service refused: a debit exceeds the balance it is
    /// drawn from, a credit overflows the balance it goes to, or a balance to
    /// be closed is not empty.
    TransferFailed,
}

impl ErrorCode {
    /// Position of the reason in declaration order, from zero.
    pub open spec fn ordinal(self) -> nat {
        match self {
            ErrorCode::ListingNotActive => 0,
            ErrorCode::Unauthorized => 1,
            ErrorCode::InvalidAmount => 2,
            ErrorCode::InvalidPrice => 3,
            ErrorCode::InsufficientStock => 4,
            ErrorCode::Overflow => 5,
            ErrorCode::InvalidMint => 6,
            ErrorCode::InvalidOwner => 7,
            ErrorCode::InvalidSeller => 8,
            ErrorCode::TransferFailed => 9,
        }
    }

    /// The integer under which the reason is reported to the caller.
    pub fn code(&self) -> (r: u32)
        ensures
            r == ERROR_CODE_OFFSET + self.ordinal(),
    {
        match self {
            ErrorCode::ListingNotActive => 6000,
            ErrorCode::Unauthorized => 6001,
            ErrorCode::InvalidAmount => 6002,
            ErrorCode::InvalidPrice => 6003,
            ErrorCode::InsufficientStock => 6004,
            ErrorCode::Overflow => 6005,
            ErrorCode::InvalidMint => 6006,
            ErrorCode::InvalidOwner => 6007,
            ErrorCode::InvalidSeller => 6008,
            ErrorCode::TransferFailed => 6009,
        }
    }

    /// The short text under which the reason is shown: the letter `E` and the
    /// position of the reason, counted from one.
    pub open spec fn spec_message(self) -> Seq<char> {
        match self {
            ErrorCode::ListingNotActive => "E1"@,
            ErrorCode::Unauthorized => "E2"@,
            ErrorCode::InvalidAmount => "E3"@,
            ErrorCode::InvalidPrice => "E4"@,
            ErrorCode::InsufficientStock => "E5"@,
            ErrorCode::Overflow => "E6"@,
            ErrorCode::InvalidMint => "E7"@,
            ErrorCode::InvalidOwner => "E8"@,
            ErrorCode::InvalidSeller => "E9"@,
            ErrorCode::TransferFailed => "E10"@,
        }
    }

    /// The short text under which the reason is shown.
    pub fn message(&self) -> (r: &'static str)
        ensures
            r@ == self.spec_message(),
    {
        match self {
            ErrorCode::ListingNotActive => "E1",
            ErrorCode::Unauthorized => "E2",
            ErrorCode::InvalidAmount => "E3",
            ErrorCode::InvalidPrice => "E4",
            ErrorCode::InsufficientStock => "E5",
            ErrorCode::Overflow => "E6",
            ErrorCode::InvalidMint => "E7",
            ErrorCode::InvalidOwner => "E8",
            ErrorCode::InvalidSeller => "E9",
            ErrorCode::TransferFailed => "E10",
        }
    }
}

} // verus!
