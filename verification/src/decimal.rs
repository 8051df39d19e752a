//! Unsigned fixed-point numbers scaled by `10^18` ("wads").
//!
//! A [`Decimal`] models a non-negative quantity `raw / 10^18`, where `raw`
//! is the scaled value held in a `u128`.  The integer part of every
//! `Decimal` fits in a `u64` (`raw < 2^64 * 10^18`); arithmetic returns an
//! error instead of wrapping whenever a result would leave that range.
//! All contracts are stated over the scaled value, via the spec functions
//! [`mul_wad`], [`div_wad`], [`floor_wad`], [`ceil_wad`] and [`round_wad`].

use vstd::prelude::*;
use vstd::arithmetic::div_mod::{
    lemma_div_by_multiple, lemma_div_is_ordered, lemma_div_nonincreasing,
    lemma_fundamental_div_mod, lemma_fundamental_div_mod_converse, lemma_hoist_over_denominator,
    lemma_multiply_divide_lt,
};
use vstd::arithmetic::mul::{lemma_mul_inequality, lemma_mul_is_commutative};
use crate::error::LendingError;

verus! {

/// Scale of a fixed-point value: `1.0` is represented by `WAD`.
pub const WAD: u64 = 1_000_000_000_000_000_000;

/// Half of [`WAD`], used for rounding to the nearest integer.
pub const HALF_WAD: u64 = 500_000_000_000_000_000;

/// Scale of a percentage: `1%` is represented by `PERCENT_SCALER`.
pub const PERCENT_SCALER: u64 = 10_000_000_000_000_000;

/// `2^64`: upper bound (exclusive) on the integer part of a `Decimal`.
pub const TWO_POW_64: u128 = 18_446_744_073_709_551_616;

/// Upper bound (exclusive) on the raw scaled value of a `Decimal`.
pub const DECIMAL_RAW_CAP: u128 = 18_446_744_073_709_551_616 * 1_000_000_000_000_000_000;

/// Scaled product: the raw value of the product of two fixed-point values.
pub open spec fn mul_wad(a: nat, b: nat) -> nat {
    (a * b) / (WAD as nat)
}

/// Scaled quotient: the raw value of the quotient of two fixed-point values.
pub open spec fn div_wad(a: nat, b: nat) -> nat
    recommends
        b > 0,
{
    (a * (WAD as nat)) / b
}

/// Integer part of a raw fixed-point value.
pub open spec fn floor_wad(a: nat) -> nat {
    a / (WAD as nat)
}

/// Raw fixed-point value rounded up to an integer.
pub open spec fn ceil_wad(a: nat) -> nat {
    ((a + WAD - 1) / (WAD as int)) as nat
}

/// Raw fixed-point value rounded to the nearest integer (half away from zero).
pub open spec fn round_wad(a: nat) -> nat {
    ((a + HALF_WAD) / (WAD as int)) as nat
}

/// The smaller of two naturals.
pub open spec fn min_nat(a: nat, b: nat) -> nat {
    if a <= b {
        a
    } else {
        b
    }
}

/// The larger of two naturals.
pub open spec fn max_nat(a: nat, b: nat) -> nat {
    if a >= b {
        a
    } else {
        b
    }
}

/// Unsigned fixed-point number with 18 decimal places of precision.
#[derive(Clone, Copy, Debug)]
pub struct Decimal {
    raw: u128,
}

impl PartialEq for Decimal {
    fn eq(&self, other: &Self) -> (r: bool) {
        self.raw == other.raw
    }
}

impl Eq for Decimal {

}

impl vstd::std_specs::cmp::PartialEqSpecImpl for Decimal {
    open spec fn obeys_eq_spec() -> bool {
        true
    }

    open spec fn eq_spec(&self, other: &Self) -> bool {
        self@ == other@
    }
}

impl View for Decimal {
    type V = nat;

    /// The raw scaled value: the represented quantity is `self@ / 10^18`.
    closed spec fn view(&self) -> nat {
        self.raw as nat
    }
}

impl Decimal {
    /// The integer part of every `Decimal` fits in a `u64`.
    #[verifier::type_invariant]
    pub open spec fn inv(self) -> bool {
        self@ < DECIMAL_RAW_CAP
    }

    /// The value `0`.
    pub fn zero() -> (r: Self)
        ensures
            r@ == 0,
    {
        Decimal { raw: 0 }
    }

    /// The value `1.0`.
    pub fn one() -> (r: Self)
        ensures
            r@ == WAD,
    {
        Decimal { raw: WAD as u128 }
    }

    /// The whole number `v`.
    pub fn from_u64(v: u64) -> (r: Self)
        ensures
            r@ == v * WAD,
    {
        proof {
            lemma_mul_inequality(v as int, u64::MAX as int, WAD as int);
        }
        Decimal { raw: (v as u128) * (WAD as u128) }
    }

    /// The value `v / 10^18`, from an already-scaled raw value.
    pub fn from_scaled_val(v: u128) -> (r: Self)
        requires
            v < DECIMAL_RAW_CAP,
        ensures
            r@ == v,
    {
        Decimal { raw: v }
    }

    /// The raw scaled value.
    pub fn to_scaled_val(self) -> (r: u128)
        ensures
            r == self@,
    {
        self.raw
    }

    /// Checked addition; fails instead of wrapping when the sum leaves the range.
    pub fn try_add(self, rhs: Self) -> (r: Result<Self, LendingError>)
        ensures
            self@ + rhs@ < DECIMAL_RAW_CAP ==> (r matches Ok(c) && c@ == self@ + rhs@),
            self@ + rhs@ >= DECIMAL_RAW_CAP ==> r == Err::<Self, LendingError>(
                LendingError::MathOverflow,
            ),
    {
        proof {
            use_type_invariant(self);
            use_type_invariant(rhs);
        }
        let sum = self.raw + rhs.raw;
        if sum < DECIMAL_RAW_CAP {
            Ok(Decimal { raw: sum })
        } else {
            Err(LendingError::MathOverflow)
        }
    }

    /// Checked subtraction; fails when the subtrahend exceeds the minuend.
    pub fn try_sub(self, rhs: Self) -> (r: Result<Self, LendingError>)
        ensures
            rhs@ <= self@ ==> (r matches Ok(c) && c@ == self@ - rhs@),
            rhs@ > self@ ==> r == Err::<Self, LendingError>(LendingError::MathOverflow),
    {
        proof {
            use_type_invariant(self);
        }
        if rhs.raw <= self.raw {
            Ok(Decimal { raw: self.raw - rhs.raw })
        } else {
            Err(LendingError::MathOverflow)
        }
    }

    /// Checked fixed-point multiplication, rounding the product down.
    pub fn try_mul(self, rhs: Self) -> (r: Result<Self, LendingError>)
        ensures
            mul_wad(self@, rhs@) < DECIMAL_RAW_CAP ==> (r matches Ok(c) && c@ == mul_wad(
                self@,
                rhs@,
            )),
            mul_wad(self@, rhs@) >= DECIMAL_RAW_CAP ==> r == Err::<Self, LendingError>(
                LendingError::MathOverflow,
            ),
    {
        proof {
            use_type_invariant(self);
            use_type_invariant(rhs);
        }
        let w: u128 = WAD as u128;
        let ah = self.raw / w;
        let al = self.raw % w;
        let bh = rhs.raw / w;
        let bl = rhs.raw % w;
        proof {
            lemma_mul_wad_parts(self@, rhs@);
            lemma_multiply_divide_lt(self.raw as int, WAD as int, TWO_POW_64 as int);
            lemma_multiply_divide_lt(rhs.raw as int, WAD as int, TWO_POW_64 as int);
            lemma_mul_inequality(ah as int, TWO_POW_64 - 1, bh as int);
            lemma_mul_inequality(ah as int, TWO_POW_64 - 1, bl as int);
            lemma_mul_inequality(al as int, WAD - 1, bh as int);
            lemma_mul_inequality(al as int, WAD - 1, bl as int);
        }
        let hh = ah * bh;
        if hh >= TWO_POW_64 {
            proof {
                lemma_mul_inequality(TWO_POW_64 as int, (ah * bh) as int, WAD as int);
            }
            return Err(LendingError::MathOverflow);
        }
        let low = (al * bl) / w;
        let t = hh * w + ah * bl + al * bh + low;
        if t < DECIMAL_RAW_CAP {
            Ok(Decimal { raw: t })
        } else {
            Err(LendingError::MathOverflow)
        }
    }

    /// Checked fixed-point division, rounding the quotient down.
    /// Dividing by zero is an overflow error.
    pub fn try_div(self, rhs: Self) -> (r: Result<Self, LendingError>)
        ensures
            rhs@ == 0 ==> r == Err::<Self, LendingError>(LendingError::MathOverflow),
            rhs@ > 0 && div_wad(self@, rhs@) < DECIMAL_RAW_CAP ==> (r matches Ok(c) && c@
                == div_wad(self@, rhs@)),
            rhs@ > 0 && div_wad(self@, rhs@) >= DECIMAL_RAW_CAP ==> r == Err::<
                Self,
                LendingError,
            >(LendingError::MathOverflow),
    {
        proof {
            use_type_invariant(self);
            use_type_invariant(rhs);
        }
        if rhs.raw == 0 {
            return Err(LendingError::MathOverflow);
        }
        let b = rhs.raw;
        let mut q: u128 = self.raw / b;
        let mut r: u128 = self.raw % b;
        let mut k: u64 = 0;
        proof {
            lemma_fundamental_div_mod(self.raw as int, b as int);
            assert(pow10(0) == 1);
            assert(self@ * pow10(0) == self@);
        }
        while k < 18
            invariant
                0 < b == rhs@ < DECIMAL_RAW_CAP,
                self@ < DECIMAL_RAW_CAP,
                k <= 18,
                q == (self@ * pow10(k as nat)) / (b as nat),
                r == (self@ * pow10(k as nat)) % (b as nat),
            decreases 18 - k,
        {
            if q >= DECIMAL_RAW_CAP {
                proof {
                    lemma_pow10_le(k as nat, 18);
                    lemma_mul_inequality(pow10(k as nat) as int, pow10(18) as int, self@ as int);
                    lemma_mul_is_commutative(self@ as int, pow10(k as nat) as int);
                    lemma_mul_is_commutative(self@ as int, pow10(18) as int);
                    lemma_div_is_ordered(
                        (self@ * pow10(k as nat)) as int,
                        (self@ * pow10(18)) as int,
                        b as int,
                    );
                    lemma_pow10_18();
                }
                return Err(LendingError::MathOverflow);
            }
            let t = r * 10;
            let d = t / b;
            proof {
                lemma_multiply_divide_lt(t as int, b as int, 10);
                lemma_div_digit_step(self@, b as nat, k as nat, q as nat, r as nat);
            }
            q = q * 10 + d;
            r = t % b;
            k = k + 1;
        }
        proof {
            lemma_pow10_18();
        }
        if q < DECIMAL_RAW_CAP {
            Ok(Decimal { raw: q })
        } else {
            Err(LendingError::MathOverflow)
        }
    }

    /// The integer part.  Always succeeds, since the integer part of a
    /// `Decimal` fits in a `u64`; the fallible signature is kept so that
    /// truncation reads the same as the other conversions.
    pub fn try_floor_u64(self) -> (r: Result<u64, LendingError>)
        ensures
            r matches Ok(v) && v == floor_wad(self@),
    {
        proof {
            use_type_invariant(self);
            lemma_multiply_divide_lt(self.raw as int, WAD as int, TWO_POW_64 as int);
        }
        Ok((self.raw / (WAD as u128)) as u64)
    }

    /// The value rounded up to an integer; fails when the result exceeds `u64::MAX`.
    pub fn try_ceil_u64(self) -> (r: Result<u64, LendingError>)
        ensures
            ceil_wad(self@) <= u64::MAX ==> (r matches Ok(v) && v == ceil_wad(self@)),
            ceil_wad(self@) > u64::MAX ==> r == Err::<u64, LendingError>(
                LendingError::MathOverflow,
            ),
    {
        proof {
            use_type_invariant(self);
        }
        let c = (self.raw + (WAD as u128 - 1)) / (WAD as u128);
        if c <= u64::MAX as u128 {
            Ok(c as u64)
        } else {
            Err(LendingError::MathOverflow)
        }
    }

    /// The value rounded to the nearest integer; fails when the result
    /// exceeds `u64::MAX`.
    pub fn try_round_u64(self) -> (r: Result<u64, LendingError>)
        ensures
            round_wad(self@) <= u64::MAX ==> (r matches Ok(v) && v == round_wad(self@)),
            round_wad(self@) > u64::MAX ==> r == Err::<u64, LendingError>(
                LendingError::MathOverflow,
            ),
    {
        proof {
            use_type_invariant(self);
        }
        let c = (self.raw + (HALF_WAD as u128)) / (WAD as u128);
        if c <= u64::MAX as u128 {
            Ok(c as u64)
        } else {
            Err(LendingError::MathOverflow)
        }
    }

    /// Checked multiplication by a whole number; the scale is unchanged.
    pub fn try_mul_u64(self, rhs: u64) -> (r: Result<Self, LendingError>)
        ensures
            self@ * rhs < DECIMAL_RAW_CAP ==> (r matches Ok(c) && c@ == self@ * rhs),
            self@ * rhs >= DECIMAL_RAW_CAP ==> r == Err::<Self, LendingError>(
                LendingError::MathOverflow,
            ),
    {
        proof {
            use_type_invariant(self);
        }
        match self.raw.checked_mul(rhs as u128) {
            Some(p) => {
                if p < DECIMAL_RAW_CAP {
                    Ok(Decimal { raw: p })
                } else {
                    Err(LendingError::MathOverflow)
                }
            },
            None => Err(LendingError::MathOverflow),
        }
    }

    /// Checked division by a whole number, rounding down.
    /// Dividing by zero is an overflow error.
    pub fn try_div_u64(self, rhs: u64) -> (r: Result<Self, LendingError>)
        ensures
            rhs == 0 ==> r == Err::<Self, LendingError>(LendingError::MathOverflow),
            rhs > 0 ==> (r matches Ok(c) && c@ == self@ / rhs as nat),
    {
        proof {
            use_type_invariant(self);
        }
        if rhs == 0 {
            return Err(LendingError::MathOverflow);
        }
        proof {
            lemma_div_nonincreasing(self.raw as int, rhs as int);
        }
        Ok(Decimal { raw: self.raw / (rhs as u128) })
    }

    /// The smaller of two values.
    pub fn min(self, other: Self) -> (r: Self)
        ensures
            r@ == min_nat(self@, other@),
    {
        if self.raw <= other.raw {
            self
        } else {
            other
        }
    }
}

impl PartialOrd for Decimal {
    fn partial_cmp(&self, other: &Self) -> (r: Option<core::cmp::Ordering>) {
        if self.raw < other.raw {
            Some(core::cmp::Ordering::Less)
        } else if self.raw == other.raw {
            Some(core::cmp::Ordering::Equal)
        } else {
            Some(core::cmp::Ordering::Greater)
        }
    }
}

impl vstd::std_specs::cmp::PartialOrdSpecImpl for Decimal {
    open spec fn obeys_partial_cmp_spec() -> bool {
        true
    }

    open spec fn partial_cmp_spec(&self, other: &Self) -> Option<core::cmp::Ordering> {
        if self@ < other@ {
            Some(core::cmp::Ordering::Less)
        } else if self@ == other@ {
            Some(core::cmp::Ordering::Equal)
        } else {
            Some(core::cmp::Ordering::Greater)
        }
    }
}

/// Powers of ten, used to state the digit-by-digit division algorithm.
pub open spec fn pow10(k: nat) -> nat
    decreases k,
{
    if k == 0 {
        1
    } else {
        10 * pow10((k - 1) as nat)
    }
}

/// `10^k` is positive.
pub proof fn lemma_pow10_pos(k: nat)
    ensures
        pow10(k) >= 1,
    decreases k,
{
    if k > 0 {
        lemma_pow10_pos((k - 1) as nat);
    }
}

/// `10^k` grows with `k`.
pub proof fn lemma_pow10_le(j: nat, k: nat)
    requires
        j <= k,
    ensures
        pow10(j) <= pow10(k),
        pow10(j) >= 1,
    decreases k,
{
    lemma_pow10_pos(j);
    if j < k {
        lemma_pow10_le(j, (k - 1) as nat);
    }
}

/// `10^18` is the wad scale.
proof fn lemma_pow10_18()
    ensures
        pow10(18) == WAD,
{
    reveal_with_fuel(pow10, 19);
}

/// Splitting both operands at the wad boundary computes the scaled product:
/// with `ah, al` and `bh, bl` the integer and fractional raw parts,
/// `(a * b) / W == ah * bh * W + ah * bl + al * bh + (al * bl) / W`.
proof fn lemma_mul_wad_parts(a: nat, b: nat)
    ensures
        mul_wad(a, b) == (a / (WAD as nat)) * (b / (WAD as nat)) * (WAD as nat) + (a / (
        WAD as nat)) * (b % (WAD as nat)) + (a % (WAD as nat)) * (b / (WAD as nat)) + ((a % (
        WAD as nat)) * (b % (WAD as nat))) / (WAD as nat),
{
    let w = WAD as nat;
    let ah = a / w;
    let al = a % w;
    let bh = b / w;
    let bl = b % w;
    lemma_fundamental_div_mod(a as int, w as int);
    lemma_fundamental_div_mod(b as int, w as int);
    let q = ah * bh * w + ah * bl + al * bh;
    assert(a * b == q * w + al * bl) by (nonlinear_arith)
        requires
            w > 0,
            a == w * ah + al,
            b == w * bh + bl,
            q == ah * bh * w + ah * bl + al * bh,
    ;
    lemma_hoist_over_denominator((al * bl) as int, q as int, w);
    assert((a * b) / w == q + (al * bl) / w);
}

/// One step of long division by `b` in base ten: appending the next digit
/// of the dividend advances quotient and remainder together.
proof fn lemma_div_digit_step(a: nat, b: nat, k: nat, q: nat, r: nat)
    requires
        b > 0,
        q == (a * pow10(k)) / b,
        r == (a * pow10(k)) % b,
    ensures
        10 * q + (r * 10) / b == (a * pow10((k + 1) as nat)) / b,
        (r * 10) % b == (a * pow10((k + 1) as nat)) % b,
{
    let d = (r * 10) / b;
    let r2 = (r * 10) % b;
    lemma_fundamental_div_mod((a * pow10(k)) as int, b as int);
    lemma_fundamental_div_mod((r * 10) as int, b as int);
    assert(pow10((k + 1) as nat) == 10 * pow10(k));
    assert(a * pow10((k + 1) as nat) == (10 * q + d) * b + r2) by (nonlinear_arith)
        requires
            pow10((k + 1) as nat) == 10 * pow10(k),
            a * pow10(k) == b * q + r,
            r * 10 == b * d + r2,
    ;
    lemma_fundamental_div_mod_converse(
        (a * pow10((k + 1) as nat)) as int,
        b as int,
        (10 * q + d) as int,
        r2 as int,
    );
}

/// Multiplying by a ratio of at most one does not increase a value.
pub proof fn lemma_mul_wad_le_one(a: nat, c: nat)
    requires
        c <= WAD,
    ensures
        mul_wad(a, c) <= a,
{
    lemma_mul_inequality(c as int, WAD as int, a as int);
    lemma_mul_is_commutative(a as int, c as int);
    lemma_mul_is_commutative(a as int, WAD as int);
    lemma_div_is_ordered((a * c) as int, (a * (WAD as nat)) as int, WAD as int);
    lemma_div_by_multiple(a as int, WAD as int);
}

/// The ratio of a part to a whole is at most one.
pub proof fn lemma_div_wad_le_one(a: nat, b: nat)
    requires
        a <= b,
        b > 0,
    ensures
        div_wad(a, b) <= WAD,
{
    lemma_mul_inequality(a as int, b as int, WAD as int);
    lemma_div_is_ordered((a * (WAD as nat)) as int, (b * (WAD as nat)) as int, b as int);
    lemma_mul_is_commutative(b as int, WAD as int);
    lemma_div_by_multiple(WAD as int, b as int);
}

/// The scaled product does not depend on the order of its factors.
pub proof fn lemma_mul_wad_comm(a: nat, b: nat)
    ensures
        mul_wad(a, b) == mul_wad(b, a),
{
    lemma_mul_is_commutative(a as int, b as int);
}

/// Multiplying by the ratio one returns the value unchanged.
pub proof fn lemma_mul_wad_one(a: nat)
    ensures
        mul_wad(a, WAD as nat) == a,
        mul_wad(WAD as nat, a) == a,
{
    lemma_mul_is_commutative(a as int, WAD as int);
    lemma_div_by_multiple(a as int, WAD as int);
}

/// The ratio of a positive value to itself is one.
pub proof fn lemma_div_wad_self(a: nat)
    requires
        a > 0,
    ensures
        div_wad(a, a) == WAD,
{
    lemma_mul_is_commutative(a as int, WAD as int);
    lemma_div_by_multiple(WAD as int, a as int);
}

/// The ratio of zero to anything positive is zero.
pub proof fn lemma_div_wad_zero(b: nat)
    requires
        b > 0,
    ensures
        div_wad(0, b) == 0,
{
    vstd::arithmetic::div_mod::lemma_div_of0(b as int);
}



/// Multiplying by a ratio of at least one does not decrease a value.
pub proof fn lemma_mul_wad_ge_one(a: nat, b: nat)
    requires
        b >= WAD,
    ensures
        mul_wad(a, b) >= a,
{
    lemma_mul_inequality(WAD as int, b as int, a as int);
    lemma_mul_is_commutative(a as int, b as int);
    lemma_mul_is_commutative(a as int, WAD as int);
    lemma_div_is_ordered((a * (WAD as nat)) as int, (a * b) as int, WAD as int);
    lemma_div_by_multiple(a as int, WAD as int);
}

/// A raw value of at most `d` whole tokens rounds up to at most `d`.
pub proof fn lemma_ceil_wad_le(w: nat, d: nat)
    requires
        w <= d * WAD,
    ensures
        ceil_wad(w) <= d,
{
    lemma_div_is_ordered((w + WAD - 1) as int, (d * WAD + WAD - 1) as int, WAD as int);
    lemma_hoist_over_denominator((WAD - 1) as int, d as int, WAD as nat);
    vstd::arithmetic::div_mod::lemma_basic_div((WAD - 1) as int, WAD as int);
}

/// Rounding up is monotone.
pub proof fn lemma_ceil_wad_ordered(a: nat, b: nat)
    requires
        a <= b,
    ensures
        ceil_wad(a) <= ceil_wad(b),
{
    lemma_div_is_ordered((a + WAD - 1) as int, (b + WAD - 1) as int, WAD as int);
}

/// A whole number whose image stays below a raw value is at most its floor.
pub proof fn lemma_floor_wad_ge(f: nat, a: nat)
    requires
        f * WAD <= a,
    ensures
        f <= floor_wad(a),
{
    lemma_div_is_ordered((f * WAD) as int, a as int, WAD as int);
    lemma_div_by_multiple(f as int, WAD as int);
}

/// Round-trip law: flooring the fixed-point image of a whole number
/// returns that number.  Together with the contracts of
/// [`Decimal::from_u64`] and [`Decimal::try_floor_u64`], this states that
/// `from_u64(n).try_floor_u64() == Ok(n)` for every `n`.
pub proof fn lemma_floor_of_whole(n: u64)
    ensures
        floor_wad((n as nat) * (WAD as nat)) == n,
{
    lemma_div_by_multiple(n as int, WAD as int);
}

} // verus!
