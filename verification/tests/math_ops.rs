//! Tests for the math program's integer helpers.

use lending_core::math::{u64_divide, u64_multiply};

#[test]
fn test_u64_multiply() {
    assert_eq!(2 * 2, u64_multiply(2, 2));
    assert_eq!(4 * 3, u64_multiply(4, 3));
}

#[test]
fn test_u64_divide() {
    assert_eq!(1, u64_divide(2, 2));
    assert_eq!(2, u64_divide(2, 1));
}
