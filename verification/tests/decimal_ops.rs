//! Tests for the fixed-point decimal and rate types.

use lending_core::decimal::{Decimal, WAD};
use lending_core::error::LendingError;
use lending_core::rate::Rate;

#[test]
fn decimal_round_trip_small() {
    for n in [0u64, 1, 2, 999, 1_000_000_007] {
        assert_eq!(Decimal::from_u64(n).try_floor_u64(), Ok(n));
    }
}

#[test]
fn decimal_round_trip_max() {
    assert_eq!(Decimal::from_u64(u64::MAX).try_floor_u64(), Ok(u64::MAX));
}

#[test]
fn decimal_add_overflow_fails() {
    let max = Decimal::from_u64(u64::MAX);
    let one = Decimal::from_u64(1);
    assert_eq!(max.try_add(one), Err(LendingError::MathOverflow));
}

#[test]
fn decimal_add_and_sub_exact() {
    let a = Decimal::from_u64(700);
    let b = Decimal::from_u64(42);
    let sum = a.try_add(b).unwrap();
    assert_eq!(sum, Decimal::from_u64(742));
    assert_eq!(sum.try_sub(b).unwrap(), a);
}

#[test]
fn decimal_sub_underflow_fails() {
    let a = Decimal::from_u64(1);
    let b = Decimal::from_u64(2);
    assert_eq!(a.try_sub(b), Err(LendingError::MathOverflow));
}

#[test]
fn decimal_mul_rounds_down() {
    // 1/3 * 3 = 0.999999999999999999 with 18-digit precision
    let third = Decimal::from_u64(1).try_div(Decimal::from_u64(3)).unwrap();
    assert_eq!(third.to_scaled_val(), 333_333_333_333_333_333);
    let product = third.try_mul_u64(3).unwrap();
    assert_eq!(product.to_scaled_val(), 999_999_999_999_999_999);
    assert_eq!(product.try_floor_u64(), Ok(0));
    assert_eq!(product.try_ceil_u64(), Ok(1));
    assert_eq!(product.try_round_u64(), Ok(1));
}

#[test]
fn decimal_div_by_zero_fails() {
    let a = Decimal::from_u64(5);
    assert_eq!(a.try_div(Decimal::zero()), Err(LendingError::MathOverflow));
    assert_eq!(a.try_div_u64(0), Err(LendingError::MathOverflow));
}

#[test]
fn decimal_mul_wide_operands() {
    // Values with both whole and fractional parts multiply exactly:
    // 2.5 * 4.2 = 10.5
    let a = Decimal::from_scaled_val(2_500_000_000_000_000_000);
    let b = Decimal::from_scaled_val(4_200_000_000_000_000_000);
    let p = a.try_mul(b).unwrap();
    assert_eq!(p.to_scaled_val(), 10_500_000_000_000_000_000);
}

#[test]
fn decimal_rounding_modes() {
    let d = Decimal::from_scaled_val(12_345_678_900_000_000_000_000); // 12345.6789
    assert_eq!(d.try_floor_u64(), Ok(12345));
    assert_eq!(d.try_ceil_u64(), Ok(12346));
    assert_eq!(d.try_round_u64(), Ok(12346));
    let half = Decimal::from_scaled_val(500_000_000_000_000_000); // 0.5
    assert_eq!(half.try_round_u64(), Ok(1));
    assert_eq!(half.try_floor_u64(), Ok(0));
}

#[test]
fn decimal_ordering() {
    let a = Decimal::from_u64(1);
    let b = Decimal::from_u64(2);
    assert!(a < b);
    assert!(b > a);
    assert!(a <= a);
    assert_eq!(a.min(b), a);
}

#[test]
fn rate_from_percent_scaling() {
    assert_eq!(Rate::from_percent(100).to_scaled_val(), WAD as u128);
    assert_eq!(Rate::from_percent(1).to_scaled_val(), 10_000_000_000_000_000);
    assert_eq!(Rate::zero().to_scaled_val(), 0);
    assert_eq!(Rate::one().to_scaled_val(), WAD as u128);
}

#[test]
fn rate_pow_small_cases() {
    let two = Rate::from_scaled_val(2 * WAD);
    assert_eq!(two.try_pow(0).unwrap(), Rate::one());
    assert_eq!(two.try_pow(1).unwrap(), two);
    assert_eq!(two.try_pow(10).unwrap().to_scaled_val(), 1024 * WAD as u128);
}

#[test]
fn rate_narrowing_from_decimal() {
    let small = Decimal::from_u64(3);
    let r = Rate::try_from_decimal(small).unwrap();
    assert_eq!(r.to_scaled_val(), 3 * WAD as u128);
    assert_eq!(r.to_decimal(), small);
}
