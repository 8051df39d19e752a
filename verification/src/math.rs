//! Plain integer helpers exercised by the math program's instruction
//! processor.

use vstd::prelude::*;

verus! {

/// Product of two whole numbers; the caller keeps it within range.
pub fn u64_multiply(multiplicand: u64, multiplier: u64) -> (r: u64)
    requires
        multiplicand * multiplier <= u64::MAX,
    ensures
        r == multiplicand * multiplier,
{
    multiplicand * multiplier
}

/// Quotient of two whole numbers; the caller keeps the divisor nonzero.
pub fn u64_divide(dividend: u64, divisor: u64) -> (r: u64)
    requires
        divisor > 0,
    ensures
        r == dividend / divisor,
{
    dividend / divisor
}

} // verus!
