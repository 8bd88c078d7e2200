use flash_compute::error::CompError;
use flash_compute::math::{
    checked_add_u128, checked_add_u64, checked_as_u64, checked_ceil_div_u128, checked_decimal_ceil_mul,
    checked_decimal_div, checked_decimal_mul, checked_div_u64, checked_mul_u128, checked_pow10_u128,
    checked_pow10_u64, checked_sub_i32, checked_sub_u64,
};

#[test]
fn add_and_sub_fail_at_the_edges() {
    assert_eq!(checked_add_u64(u64::MAX - 1, 1), Ok(u64::MAX));
    assert_eq!(checked_add_u64(u64::MAX, 1), Err(CompError::MathOverflow));
    assert_eq!(checked_sub_u64(5, 6), Err(CompError::MathOverflow));
    assert_eq!(checked_sub_u64(6, 5), Ok(1));
    assert_eq!(checked_add_u128(u128::MAX, 1), Err(CompError::MathOverflow));
    assert_eq!(checked_mul_u128(u128::MAX, 2), Err(CompError::MathOverflow));
    assert_eq!(checked_sub_i32(i32::MIN, 1), Err(CompError::MathOverflow));
    assert_eq!(checked_sub_i32(-3, 4), Ok(-7));
}

#[test]
fn division_by_zero_fails() {
    assert_eq!(checked_div_u64(7, 0), Err(CompError::MathOverflow));
    assert_eq!(checked_div_u64(7, 2), Ok(3));
    assert_eq!(checked_ceil_div_u128(7, 0), Err(CompError::MathOverflow));
}

#[test]
fn ceil_div_rounds_up() {
    assert_eq!(checked_ceil_div_u128(7, 2), Ok(4));
    assert_eq!(checked_ceil_div_u128(6, 3), Ok(2));
    assert_eq!(checked_ceil_div_u128(5, 5), Ok(1));
    assert_eq!(checked_ceil_div_u128(0, 5), Ok(0));
    assert_eq!(checked_ceil_div_u128(u128::MAX, 1), Ok(u128::MAX));
}

#[test]
fn powers_of_ten_stop_at_the_type_width() {
    assert_eq!(checked_pow10_u64(0), Ok(1));
    assert_eq!(checked_pow10_u64(19), Ok(10_000_000_000_000_000_000));
    assert_eq!(checked_pow10_u64(20), Err(CompError::MathOverflow));
    assert_eq!(checked_pow10_u128(38), Ok(100_000_000_000_000_000_000_000_000_000_000_000_000));
    assert_eq!(checked_pow10_u128(39), Err(CompError::MathOverflow));
}

#[test]
fn narrowing_fails_rather_than_truncating() {
    assert_eq!(checked_as_u64(u64::MAX as u128), Ok(u64::MAX));
    assert_eq!(checked_as_u64(u64::MAX as u128 + 1), Err(CompError::MathOverflow));
}

#[test]
fn decimal_mul_rescales_to_the_target() {
    // 1.50 * 3 = 4.50
    assert_eq!(checked_decimal_mul(150, -2, 3, 0, -2), Ok(450));
    // 1.50 * 3 = 4 at exponent 0, truncated
    assert_eq!(checked_decimal_mul(150, -2, 3, 0, 0), Ok(4));
    // 12 * 10^1 * 5 = 600, as 6000 at exponent -1
    assert_eq!(checked_decimal_mul(12, 1, 5, 0, -1), Ok(6000));
    assert_eq!(checked_decimal_mul(0, i32::MAX, 5, i32::MAX, 0), Ok(0));
    assert_eq!(checked_decimal_mul(u64::MAX, 0, 2, 0, 0), Err(CompError::MathOverflow));
    assert_eq!(checked_decimal_mul(1, i32::MAX, 1, 1, 0), Err(CompError::MathOverflow));
    // dividing by 10^39 does not fit 128 bits
    assert_eq!(checked_decimal_mul(1, -39, 1, 0, 0), Err(CompError::MathOverflow));
    assert_eq!(checked_decimal_mul(1, -38, 1, 0, 0), Ok(0));
}

#[test]
fn ceil_mul_never_undercounts() {
    // 10 * 0.15 = 1.5
    assert_eq!(checked_decimal_mul(10, 0, 15, -2, 0), Ok(1));
    assert_eq!(checked_decimal_ceil_mul(10, 0, 15, -2, 0), Ok(2));
    // exact products agree
    assert_eq!(checked_decimal_mul(10, 0, 20, -2, 0), Ok(2));
    assert_eq!(checked_decimal_ceil_mul(10, 0, 20, -2, 0), Ok(2));
    for (c1, c2) in [(1u64, 1u64), (7, 13), (999_999, 3), (123_456_789, 987)] {
        let floor = checked_decimal_mul(c1, -3, c2, -4, -5).unwrap();
        let ceil = checked_decimal_ceil_mul(c1, -3, c2, -4, -5).unwrap();
        assert!(ceil >= floor);
        assert!(ceil <= floor + 1);
    }
}

#[test]
fn decimal_div_truncates_the_ratio() {
    // 1 / 3 = 0.333333
    assert_eq!(checked_decimal_div(1_000_000, -6, 3_000_000, -6, -6), Ok(333_333));
    // 6 / 2 = 3 with 6 decimals, from a price with 9 decimals
    assert_eq!(checked_decimal_div(6_000_000, -6, 2_000_000_000, -9, -6), Ok(3_000_000));
    // a negative scale divides the integer quotient: 700 / 3 = 233, at 10^2 is 2
    assert_eq!(checked_decimal_div(700, 0, 3, 0, 2), Ok(2));
    assert_eq!(checked_decimal_div(5, 0, 0, 0, 0), Err(CompError::MathOverflow));
    assert_eq!(checked_decimal_div(0, 0, 7, 0, 0), Ok(0));
    assert_eq!(checked_decimal_div(u64::MAX, 0, 1, 0, -1), Err(CompError::MathOverflow));
}
