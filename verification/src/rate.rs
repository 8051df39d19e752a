//! Interest-rate ratios: small fixed-point numbers scaled by `10^18`.
//!
//! A [`Rate`] has the same scale as a [`Decimal`] but a much smaller
//! range: its raw scaled value stays below `10^36`, so a rate never
//! exceeds `10^18`.  A `Decimal` narrows into a `Rate` only when it fits
//! ([`Rate::try_from_decimal`]); the other direction is exact.
//! Arithmetic rounds down and fails instead of wrapping, like `Decimal`.

use vstd::prelude::*;
use crate::decimal::{mul_wad, div_wad, round_wad, Decimal, DECIMAL_RAW_CAP, PERCENT_SCALER, WAD};
use crate::error::LendingError;

verus! {

/// Upper bound (exclusive) on the raw scaled value of a `Rate`.
pub const RATE_RAW_CAP: u128 = 1_000_000_000_000_000_000 * 1_000_000_000_000_000_000;

/// One step of exponentiation by squaring over fixed-point values, as a
/// state machine on (accumulator, base, exponent): `None` marks an
/// overflow of an intermediate product.
pub open spec fn pow_iter(acc: nat, base: nat, e: nat) -> Option<nat>
    decreases e,
{
    if e <= 1 {
        Some(acc)
    } else {
        let b2 = mul_wad(base, base);
        if b2 >= RATE_RAW_CAP {
            None
        } else if (e / 2) % 2 == 1 {
            let a2 = mul_wad(acc, b2);
            if a2 >= RATE_RAW_CAP {
                None
            } else {
                pow_iter(a2, b2, e / 2)
            }
        } else {
            pow_iter(acc, b2, e / 2)
        }
    }
}

/// Fixed-point exponentiation by squaring, rounding down at every
/// multiplication; `None` marks an overflow of an intermediate product.
pub open spec fn pow_wad(base: nat, e: nat) -> Option<nat> {
    if e % 2 == 1 {
        pow_iter(base, base, e)
    } else {
        pow_iter(WAD as nat, base, e)
    }
}

/// A run of squarings and multiplications that starts at one or above
/// stays at one or above.
proof fn lemma_pow_iter_ge_one(acc: nat, base: nat, e: nat)
    requires
        acc >= WAD,
        base >= WAD,
    ensures
        pow_iter(acc, base, e) matches Some(v) ==> v >= WAD,
    decreases e,
{
    if e > 1 {
        let b2 = mul_wad(base, base);
        if b2 < RATE_RAW_CAP {
            crate::decimal::lemma_mul_wad_ge_one(base, base);
            if (e / 2) % 2 == 1 {
                let a2 = mul_wad(acc, b2);
                if a2 < RATE_RAW_CAP {
                    crate::decimal::lemma_mul_wad_ge_one(acc, b2);
                    lemma_pow_iter_ge_one(a2, b2, e / 2);
                }
            } else {
                lemma_pow_iter_ge_one(acc, b2, e / 2);
            }
        }
    }
}

/// A base of at least one raised to any power stays at least one.
pub proof fn lemma_pow_wad_ge_one(base: nat, e: nat)
    requires
        base >= WAD,
    ensures
        pow_wad(base, e) matches Some(v) ==> v >= WAD,
{
    if e % 2 == 1 {
        lemma_pow_iter_ge_one(base, base, e);
    } else {
        lemma_pow_iter_ge_one(WAD as nat, base, e);
    }
}

/// A ratio in `[0, 10^18)` with 18 decimal places of precision.
#[derive(Clone, Copy, Debug)]
pub struct Rate {
    raw: u128,
}

impl PartialEq for Rate {
    fn eq(&self, other: &Self) -> (r: bool) {
        self.raw == other.raw
    }
}

impl Eq for Rate {

}

impl vstd::std_specs::cmp::PartialEqSpecImpl for Rate {
    open spec fn obeys_eq_spec() -> bool {
        true
    }

    open spec fn eq_spec(&self, other: &Self) -> bool {
        self@ == other@
    }
}

impl View for Rate {
    type V = nat;

    /// The raw scaled value: the represented ratio is `self@ / 10^18`.
    closed spec fn view(&self) -> nat {
        self.raw as nat
    }
}

impl Rate {
    /// A rate stays below `10^18`.
    #[verifier::type_invariant]
    pub open spec fn inv(self) -> bool {
        self@ < RATE_RAW_CAP
    }

    /// The ratio `0`.
    pub fn zero() -> (r: Self)
        ensures
            r@ == 0,
    {
        Rate { raw: 0 }
    }

    /// The ratio `1.0`.
    pub fn one() -> (r: Self)
        ensures
            r@ == WAD,
    {
        Rate { raw: WAD as u128 }
    }

    /// The ratio `percent / 100`.
    pub fn from_percent(percent: u8) -> (r: Self)
        ensures
            r@ == percent * PERCENT_SCALER,
    {
        proof {
            vstd::arithmetic::mul::lemma_mul_inequality(
                percent as int,
                u8::MAX as int,
                PERCENT_SCALER as int,
            );
        }
        Rate { raw: (percent as u128) * (PERCENT_SCALER as u128) }
    }

    /// The ratio `v / 10^18`, from an already-scaled raw value.
    pub fn from_scaled_val(v: u64) -> (r: Self)
        ensures
            r@ == v,
    {
        Rate { raw: v as u128 }
    }

    /// The raw scaled value.
    pub fn to_scaled_val(self) -> (r: u128)
        ensures
            r == self@,
    {
        self.raw
    }

    /// The same value as a `Decimal`; always exact.
    pub fn to_decimal(self) -> (r: Decimal)
        ensures
            r@ == self@,
    {
        proof {
            use_type_invariant(self);
        }
        Decimal::from_scaled_val(self.raw)
    }

    /// Narrow a `Decimal` into a `Rate`; fails when the value is too
    /// large to represent as a rate.
    pub fn try_from_decimal(d: Decimal) -> (r: Result<Self, LendingError>)
        ensures
            d@ < RATE_RAW_CAP ==> (r matches Ok(c) && c@ == d@),
            d@ >= RATE_RAW_CAP ==> r == Err::<Self, LendingError>(LendingError::MathOverflow),
    {
        let raw = d.to_scaled_val();
        if raw < RATE_RAW_CAP {
            Ok(Rate { raw })
        } else {
            Err(LendingError::MathOverflow)
        }
    }

    /// Checked addition; fails instead of wrapping when the sum leaves the range.
    pub fn try_add(self, rhs: Self) -> (r: Result<Self, LendingError>)
        ensures
            self@ + rhs@ < RATE_RAW_CAP ==> (r matches Ok(c) && c@ == self@ + rhs@),
            self@ + rhs@ >= RATE_RAW_CAP ==> r == Err::<Self, LendingError>(
                LendingError::MathOverflow,
            ),
    {
        proof {
            use_type_invariant(self);
            use_type_invariant(rhs);
        }
        let sum = self.raw + rhs.raw;
        if sum < RATE_RAW_CAP {
            Ok(Rate { raw: sum })
        } else {
            Err(LendingError::MathOverflow)
        }
    }

    /// Checked subtraction; fails when the subtrahend exceeds the minuend.
    pub fn try_sub(self, rhs: Self) -> (r: Result<Self, LendingError>)
        ensures
            rhs@ <= self@ ==> (r matches Ok(c) && c@ == self@ - rhs@),
            rhs@ > self@ ==> r == Err::<Self, LendingError>(LendingError::MathOverflow),
    {
        proof {
            use_type_invariant(self);
        }
        if rhs.raw <= self.raw {
            Ok(Rate { raw: self.raw - rhs.raw })
        } else {
            Err(LendingError::MathOverflow)
        }
    }

    /// Checked fixed-point multiplication, rounding the product down.
    pub fn try_mul(self, rhs: Self) -> (r: Result<Self, LendingError>)
        ensures
            mul_wad(self@, rhs@) < RATE_RAW_CAP ==> (r matches Ok(c) && c@ == mul_wad(
                self@,
                rhs@,
            )),
            mul_wad(self@, rhs@) >= RATE_RAW_CAP ==> r == Err::<Self, LendingError>(
                LendingError::MathOverflow,
            ),
    {
        proof {
            use_type_invariant(self);
            use_type_invariant(rhs);
        }
        let a = Decimal::from_scaled_val(self.raw);
        let b = Decimal::from_scaled_val(rhs.raw);
        match a.try_mul(b) {
            Ok(c) => Rate::try_from_decimal(c),
            Err(e) => Err(e),
        }
    }

    /// Checked fixed-point division, rounding the quotient down.
    /// Dividing by zero is an overflow error.
    pub fn try_div(self, rhs: Self) -> (r: Result<Self, LendingError>)
        ensures
            rhs@ == 0 ==> r == Err::<Self, LendingError>(LendingError::MathOverflow),
            rhs@ > 0 && div_wad(self@, rhs@) < RATE_RAW_CAP ==> (r matches Ok(c) && c@ == div_wad(
                self@,
                rhs@,
            )),
            rhs@ > 0 && div_wad(self@, rhs@) >= RATE_RAW_CAP ==> r == Err::<Self, LendingError>(
                LendingError::MathOverflow,
            ),
    {
        proof {
            use_type_invariant(self);
            use_type_invariant(rhs);
        }
        let a = Decimal::from_scaled_val(self.raw);
        let b = Decimal::from_scaled_val(rhs.raw);
        match a.try_div(b) {
            Ok(c) => Rate::try_from_decimal(c),
            Err(e) => Err(e),
        }
    }

    /// Checked multiplication by a whole number; the scale is unchanged.
    pub fn try_mul_u64(self, rhs: u64) -> (r: Result<Self, LendingError>)
        ensures
            self@ * rhs < RATE_RAW_CAP ==> (r matches Ok(c) && c@ == self@ * rhs),
            self@ * rhs >= RATE_RAW_CAP ==> r == Err::<Self, LendingError>(
                LendingError::MathOverflow,
            ),
    {
        proof {
            use_type_invariant(self);
        }
        match self.raw.checked_mul(rhs as u128) {
            Some(p) => {
                if p < RATE_RAW_CAP {
                    Ok(Rate { raw: p })
                } else {
                    Err(LendingError::MathOverflow)
                }
            },
            None => Err(LendingError::MathOverflow),
        }
    }

    /// Checked division by a whole number, rounding down.
    /// Dividing by zero is an overflow error.
    pub fn try_div_u64(self, rhs: u64) -> (r: Result<Self, LendingError>)
        ensures
            rhs == 0 ==> r == Err::<Self, LendingError>(LendingError::MathOverflow),
            rhs > 0 ==> (r matches Ok(c) && c@ == self@ / rhs as nat),
    {
        proof {
            use_type_invariant(self);
        }
        if rhs == 0 {
            return Err(LendingError::MathOverflow);
        }
        Ok(Rate { raw: self.raw / (rhs as u128) })
    }

    /// Checked exponentiation by squaring, rounding down at every step;
    /// fails when an intermediate product overflows.
    pub fn try_pow(self, exp: u64) -> (r: Result<Self, LendingError>)
        ensures
            pow_wad(self@, exp as nat) matches Some(v) ==> (r matches Ok(c) && c@ == v),
            pow_wad(self@, exp as nat) is None ==> r == Err::<Self, LendingError>(
                LendingError::MathOverflow,
            ),
    {
        let mut e = exp;
        let mut base = self;
        let mut ret = if e % 2 == 1 {
            self
        } else {
            Rate::one()
        };
        while e > 1
            invariant
                pow_iter(ret@, base@, e as nat) == pow_wad(self@, exp as nat),
            decreases e,
        {
            let ghost e0 = e as nat;
            let ghost ret0 = ret@;
            let ghost base0 = base@;
            e = e / 2;
            base = match base.try_mul(base) {
                Ok(v) => v,
                Err(err) => {
                    proof {
                        assert(pow_iter(ret0, base0, e0) is None);
                    }
                    return Err(err);
                },
            };
            if e % 2 == 1 {
                ret = match ret.try_mul(base) {
                    Ok(v) => v,
                    Err(err) => {
                        proof {
                            assert(pow_iter(ret0, base0, e0) is None);
                        }
                        return Err(err);
                    },
                };
            }
            proof {
                assert(pow_iter(ret@, base@, e as nat) == pow_iter(ret0, base0, e0));
            }
        }
        Ok(ret)
    }

    /// The ratio rounded to the nearest integer.  Always succeeds, since
    /// a rate is below `10^18`; the fallible signature is kept so that
    /// the conversion reads the same as `Decimal`'s.
    pub fn try_round_u64(self) -> (r: Result<u64, LendingError>)
        ensures
            r matches Ok(v) && v == round_wad(self@),
    {
        proof {
            use_type_invariant(self);
            vstd::arithmetic::div_mod::lemma_div_is_ordered(
                self.raw + crate::decimal::HALF_WAD as int,
                RATE_RAW_CAP - 1 + crate::decimal::HALF_WAD as int,
                WAD as int,
            );
        }
        let c = (self.raw + (crate::decimal::HALF_WAD as u128)) / (WAD as u128);
        Ok(c as u64)
    }

    /// The smaller of two rates.
    pub fn min(self, other: Self) -> (r: Self)
        ensures
            r@ == crate::decimal::min_nat(self@, other@),
    {
        if self.raw <= other.raw {
            self
        } else {
            other
        }
    }
}

impl PartialOrd for Rate {
    fn partial_cmp(&self, other: &Self) -> (r: Option<core::cmp::Ordering>) {
        if self.raw < other.raw {
            Some(core::cmp::Ordering::Less)
        } else if self.raw == other.raw {
            Some(core::cmp::Ordering::Equal)
        } else {
            Some(core::cmp::Ordering::Greater)
        }
    }
}

impl vstd::std_specs::cmp::PartialOrdSpecImpl for Rate {
    open spec fn obeys_partial_cmp_spec() -> bool {
        true
    }

    open spec fn partial_cmp_spec(&self, other: &Self) -> Option<core::cmp::Ordering> {
        if self@ < other@ {
            Some(core::cmp::Ordering::Less)
        } else if self@ == other@ {
            Some(core::cmp::Ordering::Equal)
        } else {
            Some(core::cmp::Ordering::Greater)
        }
    }
}

} // verus!
