//! What a fill costs.
//!
//! A price is quoted per whole unit of the asset on sale, while quantities are
//! counted in its smallest units. The cost of a fill is therefore
//! `floor(price * quantity / 10^decimals)`, computed in 128 bits and refused
//! wherever a step or the result leaves its domain.

use crate::error::ErrorCode;
use vstd::arithmetic::power::{lemma_pow_increases, pow};
use vstd::prelude::*;

verus! {

/// The number of smallest units that make one whole unit: `10^decimals`.
pub open spec fn unit_scale(decimals: u8) -> int {
    pow(10, decimals as nat)
}

/// The cost of `buy_amount` smallest units at `price_per_token` per whole
/// unit, rounded down, as a mathematical integer.
pub open spec fn quote(price_per_token: u64, buy_amount: u64, decimals: u8) -> int {
    (price_per_token as int * buy_amount as int) / unit_scale(decimals)
}

/// Whether the cost can be computed: the scale fits 128 bits and the cost
/// itself fits the 64-bit payment domain.
pub open spec fn quotable(price_per_token: u64, buy_amount: u64, decimals: u8) -> bool {
    &&& unit_scale(decimals) <= u128::MAX
    &&& quote(price_per_token, buy_amount, decimals) <= u64::MAX
}

proof fn lemma_scale_step(e: nat)
    ensures
        pow(10, e + 1) == 10 * pow(10, e),
        pow(10, e) >= 1,
{
    reveal(pow);
    vstd::arithmetic::power::lemma_pow_positive(10, e);
}

proof fn lemma_product_fits(a: u64, b: u64)
    ensures
        0 <= a as int * b as int <= u128::MAX,
{
    assert(0 <= a as int * b as int <= 0xffff_ffff_ffff_ffff * 0xffff_ffff_ffff_ffff)
        by (nonlinear_arith)
        requires
            0 <= a as int <= 0xffff_ffff_ffff_ffff,
            0 <= b as int <= 0xffff_ffff_ffff_ffff,
    ;
}

/// A cost is never negative and never more than price times quantity.
pub proof fn quote_is_bounded(price_per_token: u64, buy_amount: u64, decimals: u8)
    ensures
        0 <= quote(price_per_token, buy_amount, decimals) <= price_per_token * buy_amount,
{
    lemma_product_fits(price_per_token, buy_amount);
    vstd::arithmetic::power::lemma_pow_positive(10, decimals as nat);
    vstd::arithmetic::div_mod::lemma_div_pos_is_pos(
        price_per_token as int * buy_amount as int,
        unit_scale(decimals),
    );
    vstd::arithmetic::div_mod::lemma_div_nonincreasing(
        price_per_token as int * buy_amount as int,
        unit_scale(decimals),
    );
}

/// `10^decimals` in 128 bits, or `None` where it does not fit.
pub fn checked_unit_scale(decimals: u8) -> (r: Option<u128>)
    ensures
        match r {
            Some(scale) => scale == unit_scale(decimals) && scale >= 1,
            None => unit_scale(decimals) > u128::MAX,
        },
{
    let mut scale: u128 = 1;
    let mut i: u8 = 0;
    proof {
        reveal(pow);
    }
    while i < decimals
        invariant
            i <= decimals,
            scale == pow(10, i as nat),
            scale >= 1,
        decreases decimals - i,
    {
        proof {
            lemma_scale_step(i as nat);
        }
        match scale.checked_mul(10) {
            Some(next) => {
                scale = next;
            },
            None => {
                proof {
                    lemma_pow_increases(10, (i + 1) as nat, decimals as nat);
                }
                return None;
            },
        }
        i += 1;
    }
    Some(scale)
}

/// The cost of a fill of `buy_amount` smallest units, `quote`, or the
/// arithmetic error where it cannot be computed.
pub fn total_cost(price_per_token: u64, buy_amount: u64, decimals: u8) -> (r: Result<
    u64,
    ErrorCode,
>)
    ensures
        match r {
            Ok(cost) => {
                &&& quotable(price_per_token, buy_amount, decimals)
                &&& cost == quote(price_per_token, buy_amount, decimals)
            },
            Err(e) => {
                &&& !quotable(price_per_token, buy_amount, decimals)
                &&& e == ErrorCode::Overflow
            },
        },
{
    let scale = match checked_unit_scale(decimals) {
        Some(scale) => scale,
        None => {
            return Err(ErrorCode::Overflow);
        },
    };
    proof {
        lemma_product_fits(price_per_token, buy_amount);
    }
    let product = match (price_per_token as u128).checked_mul(buy_amount as u128) {
        Some(product) => product,
        None => {
            return Err(ErrorCode::Overflow);
        },
    };
    let wide = match product.checked_div(scale) {
        Some(wide) => wide,
        None => {
            return Err(ErrorCode::Overflow);
        },
    };
    if wide > u64::MAX as u128 {
        return Err(ErrorCode::Overflow);
    }
    Ok(wide as u64)
}

} // verus!
