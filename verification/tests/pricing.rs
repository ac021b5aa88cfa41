use puzi_contracts::pricing::checked_unit_scale;
use puzi_contracts::{total_cost, ErrorCode};

#[test]
fn cost_without_decimals_is_price_times_quantity() {
    assert_eq!(total_cost(100, 200, 0), Ok(20_000));
    assert_eq!(total_cost(7, 1, 0), Ok(7));
}

#[test]
fn cost_is_scaled_down_by_the_decimals_of_the_asset_on_sale() {
    assert_eq!(total_cost(100, 200, 2), Ok(200));
    assert_eq!(total_cost(1_500_000, 2_500_000_000, 9), Ok(3_750_000));
    assert_eq!(total_cost(3, 1_000_000, 6), Ok(3));
}

#[test]
fn cost_rounds_down() {
    assert_eq!(total_cost(100, 200, 6), Ok(0));
    assert_eq!(total_cost(1, 999, 3), Ok(0));
    assert_eq!(total_cost(1, 1_000, 3), Ok(1));
    assert_eq!(total_cost(3, 1_999, 3), Ok(5));
    assert_eq!(total_cost(7, 10, 1), Ok(7));
    assert_eq!(total_cost(7, 15, 1), Ok(10));
}

#[test]
fn cost_of_nothing_and_at_no_price_is_nothing() {
    assert_eq!(total_cost(0, 500, 4), Ok(0));
    assert_eq!(total_cost(500, 0, 4), Ok(0));
}

#[test]
fn cost_beyond_64_bits_is_an_arithmetic_error() {
    assert_eq!(total_cost(u64::MAX, 2, 0), Err(ErrorCode::Overflow));
    assert_eq!(total_cost(u64::MAX, u64::MAX, 0), Err(ErrorCode::Overflow));
    assert_eq!(total_cost(1 << 32, 1 << 32, 0), Err(ErrorCode::Overflow));
}

#[test]
fn cost_at_the_edge_of_64_bits() {
    assert_eq!(total_cost(u64::MAX, 1, 0), Ok(u64::MAX));
    assert_eq!(total_cost(u64::MAX, 10, 1), Ok(u64::MAX));
    assert_eq!(total_cost(u64::MAX, 11, 1), Err(ErrorCode::Overflow));
    assert_eq!(total_cost((1 << 32) - 1, (1 << 32) + 1, 0), Ok(u64::MAX));
}

#[test]
fn wide_product_is_not_truncated() {
    // (2^64 - 1)^2 / 10^19 = 34028236692093846342
    assert_eq!(total_cost(u64::MAX, u64::MAX, 19), Err(ErrorCode::Overflow));
    // (2^64 - 1)^2 / 10^20 = 3402823669209384634
    assert_eq!(total_cost(u64::MAX, u64::MAX, 20), Ok(3_402_823_669_209_384_634));
    assert_eq!(total_cost(u64::MAX, u64::MAX, 38), Ok(3));
}

#[test]
fn scale_beyond_128_bits_is_an_arithmetic_error() {
    assert_eq!(total_cost(100, 200, 38), Ok(0));
    assert_eq!(total_cost(100, 200, 39), Err(ErrorCode::Overflow));
    assert_eq!(total_cost(0, 0, 39), Err(ErrorCode::Overflow));
    assert_eq!(total_cost(1, 1, 255), Err(ErrorCode::Overflow));
}

#[test]
fn unit_scale_is_a_power_of_ten_up_to_38_decimals() {
    assert_eq!(checked_unit_scale(0), Some(1));
    assert_eq!(checked_unit_scale(1), Some(10));
    assert_eq!(checked_unit_scale(9), Some(1_000_000_000));
    assert_eq!(
        checked_unit_scale(38),
        Some(100_000_000_000_000_000_000_000_000_000_000_000_000)
    );
    assert_eq!(checked_unit_scale(39), None);
    assert_eq!(checked_unit_scale(255), None);
}
