use std::cmp::Ordering;

use flash_compute::error::CompError;
use flash_compute::price::OraclePrice;

#[test]
fn scale_to_smaller_exponent_multiplies() {
    let p = OraclePrice::new(12345, -2);
    assert_eq!(p.scale_to_exponent(-4), Ok(OraclePrice::new(1_234_500, -4)));
    assert_eq!(p.scale_to_exponent(-2), Ok(p));
}

#[test]
fn scale_to_larger_exponent_truncates() {
    let p = OraclePrice::new(12345, -2);
    assert_eq!(p.scale_to_exponent(0), Ok(OraclePrice::new(123, 0)));
    assert_eq!(p.scale_to_exponent(30), Err(CompError::MathOverflow));
}

#[test]
fn scale_fails_on_overflow() {
    assert_eq!(OraclePrice::new(u64::MAX, 0).scale_to_exponent(-1), Err(CompError::MathOverflow));
    assert_eq!(OraclePrice::new(1, 0).scale_to_exponent(-20), Err(CompError::MathOverflow));
    assert_eq!(OraclePrice::new(1, i32::MAX).scale_to_exponent(-2), Err(CompError::MathOverflow));
}

#[test]
fn rescale_round_trip_restores_the_price() {
    for (price, exponent, widened) in [(12345u64, -2i32, -5i32), (1, 0, -19), (987_654_321, 3, -6), (0, -6, -9)] {
        let p = OraclePrice::new(price, exponent);
        let q = p.scale_to_exponent(widened).unwrap();
        assert_eq!(q.scale_to_exponent(exponent), Ok(p));
    }
}

#[test]
fn comparison_is_exponent_invariant() {
    let one = OraclePrice::new(1, 0);
    let one_again = OraclePrice::new(100, -2);
    let one_more = OraclePrice::new(1_000_000_000, -9);
    assert_eq!(one.partial_cmp(&one_again), Some(Ordering::Equal));
    assert_eq!(one_again.partial_cmp(&one_more), Some(Ordering::Equal));
    assert_eq!(one_more.partial_cmp(&one), Some(Ordering::Equal));
    let more = OraclePrice::new(150, -2);
    assert_eq!(more.partial_cmp(&one), Some(Ordering::Greater));
    assert_eq!(more.partial_cmp(&one_more), Some(Ordering::Greater));
    assert!(one_again < more);
    assert!(more > one_more);
}

#[test]
fn comparison_undefined_when_rescale_fails() {
    let big = OraclePrice::new(u64::MAX, 0);
    let small = OraclePrice::new(1, -1);
    assert_eq!(big.partial_cmp(&small), None);
    assert!(!(big > small));
    assert!(!(big < small));
}

#[test]
fn normalize_caps_the_mantissa() {
    let p = OraclePrice::new(1_000_000_000, -9);
    let n = p.normalize().unwrap();
    assert_eq!(n, OraclePrice::new(100_000_000, -8));
    assert!(n.price <= (1 << 28) - 1);
    assert_eq!(n.normalize(), Ok(n));
    let max = OraclePrice::new(u64::MAX, 0).normalize().unwrap();
    assert!(max.price <= (1 << 28) - 1);
    assert_eq!(max.normalize(), Ok(max));
    assert_eq!(OraclePrice::new(268_435_455, 4).normalize(), Ok(OraclePrice::new(268_435_455, 4)));
    assert_eq!(OraclePrice::new(268_435_456, i32::MAX).normalize(), Err(CompError::MathOverflow));
}

#[test]
fn subtraction_requires_equal_exponents() {
    let a = OraclePrice::new(500, -2);
    let b = OraclePrice::new(2, 0);
    assert_eq!(a.checked_sub(&b), Err(CompError::ExponentMismatch));
    assert_eq!(a.checked_sub(&OraclePrice::new(200, -2)), Ok(OraclePrice::new(300, -2)));
    assert_eq!(OraclePrice::new(1, -2).checked_sub(&a), Err(CompError::MathOverflow));
}

#[test]
fn division_gives_a_ratio() {
    let a = OraclePrice::new(5_000_000, -8);
    let b = OraclePrice::new(100_000_000, -8);
    assert_eq!(a.checked_div(&b), Ok(OraclePrice::new(50_000_000, -9)));
    assert_eq!(a.checked_div(&OraclePrice::new(0, -8)), Err(CompError::MathOverflow));
    // both operands are normalized first
    let c = OraclePrice::new(1_000_000_000, -9);
    assert_eq!(c.checked_div(&c), Ok(OraclePrice::new(1_000_000_000, -9)));
}

#[test]
fn asset_amount_to_usd() {
    let two_dollars = OraclePrice::new(2_000_000_000, -9);
    assert_eq!(two_dollars.get_asset_amount_usd(3_000_000, 6), Ok(6_000_000));
    assert_eq!(two_dollars.get_asset_amount_usd(0, 6), Ok(0));
    assert_eq!(OraclePrice::new(0, i32::MAX).get_asset_amount_usd(3, 6), Ok(0));
    assert_eq!(OraclePrice::new(u64::MAX, 10).get_asset_amount_usd(u64::MAX, 0), Err(CompError::MathOverflow));
}

#[test]
fn usd_to_token_amount() {
    let two_dollars = OraclePrice::new(2_000_000_000, -9);
    assert_eq!(two_dollars.get_token_amount(6_000_000, 6), Ok(3_000_000));
    assert_eq!(two_dollars.get_token_amount(0, 6), Ok(0));
    assert_eq!(OraclePrice::new(0, -9).get_token_amount(6_000_000, 6), Ok(0));
}
