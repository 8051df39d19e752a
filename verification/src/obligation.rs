//! Borrower positions consumed by the obligation health engine.
//!
//! An obligation aggregates a borrower's deposited collateral and
//! borrowed liquidity across reserves.  The liquidation engine reads the
//! refreshed market values recorded here; refreshing them, and rejecting
//! stale ones, is the caller's concern.

use vstd::prelude::*;
use crate::decimal::{
    div_wad, lemma_div_wad_le_one, lemma_mul_wad_le_one, min_nat, mul_wad, Decimal,
    PERCENT_SCALER,
};
use crate::error::LendingError;
use crate::pubkey::Pubkey;
use crate::rate::Rate;
use crate::reserve::LIQUIDATION_CLOSE_FACTOR;

verus! {

/// Collateral a borrower deposited from one reserve.
#[derive(Clone, Debug, PartialEq, Eq)]
pub struct ObligationCollateral {
    /// Reserve the collateral was deposited into.
    pub deposit_reserve: Pubkey,
    /// Amount of collateral tokens deposited.
    pub deposited_amount: u64,
    /// Market value of the deposit in the quote currency, as refreshed
    /// by the caller.
    pub market_value: Decimal,
}

/// Liquidity a borrower borrowed from one reserve.
#[derive(Clone, Debug, PartialEq, Eq)]
pub struct ObligationLiquidity {
    /// Reserve the liquidity was borrowed from.
    pub borrow_reserve: Pubkey,
    /// Snapshot of the reserve's cumulative borrow rate at the last
    /// interest accrual applied to this position.
    pub cumulative_borrow_rate_wads: Decimal,
    /// Amount borrowed plus accrued interest.
    pub borrowed_amount_wads: Decimal,
    /// Market value of the debt in the quote currency, as refreshed by
    /// the caller.
    pub market_value: Decimal,
}

/// A borrower's aggregate position, with the refreshed totals the health
/// engine consumes.
#[derive(Clone, Debug, PartialEq, Eq)]
pub struct Obligation {
    /// Market value of all deposited collateral in the quote currency.
    pub deposited_value: Decimal,
    /// Market value of all borrowed liquidity in the quote currency.
    pub borrowed_value: Decimal,
}

/// The most debt one liquidation call may settle against one borrowed
/// position: the close factor's share of the whole obligation's value,
/// capped at this position's value, taken as a share of this position's
/// debt (all raw scaled values).
pub open spec fn spec_max_liquidation_amount(
    borrowed_value: nat,
    position_borrowed: nat,
    position_market_value: nat,
) -> nat
    recommends
        position_market_value > 0,
{
    mul_wad(
        position_borrowed,
        div_wad(
            min_nat(
                mul_wad(borrowed_value, (LIQUIDATION_CLOSE_FACTOR * PERCENT_SCALER) as nat),
                position_market_value,
            ),
            position_market_value,
        ),
    )
}

impl Obligation {
    /// The most debt one liquidation call may settle against the given
    /// borrowed position; fails when the position's market value was
    /// never refreshed above zero.
    pub fn max_liquidation_amount(&self, liquidity: &ObligationLiquidity) -> (r: Result<
        Decimal,
        LendingError,
    >)
        ensures
            liquidity.market_value@ == 0 ==> r == Err::<Decimal, LendingError>(
                LendingError::MathOverflow,
            ),
            liquidity.market_value@ > 0 ==> (r matches Ok(c) && c@ == spec_max_liquidation_amount(
                self.borrowed_value@,
                liquidity.borrowed_amount_wads@,
                liquidity.market_value@,
            )),
    {
        proof {
            use_type_invariant(self.borrowed_value);
            use_type_invariant(liquidity.borrowed_amount_wads);
            use_type_invariant(liquidity.market_value);
        }
        let close_factor = Rate::from_percent(LIQUIDATION_CLOSE_FACTOR);
        proof {
            lemma_mul_wad_le_one(self.borrowed_value@, close_factor@);
        }
        let capped_value = match self.borrowed_value.try_mul(close_factor.to_decimal()) {
            Ok(v) => v,
            Err(e) => {
                return Err(e);
            },
        };
        let max_liquidation_value = capped_value.min(liquidity.market_value);
        proof {
            if liquidity.market_value@ > 0 {
                lemma_div_wad_le_one(max_liquidation_value@, liquidity.market_value@);
            }
        }
        let max_liquidation_pct = match max_liquidation_value.try_div(liquidity.market_value) {
            Ok(v) => v,
            Err(e) => {
                return Err(e);
            },
        };
        proof {
            lemma_mul_wad_le_one(liquidity.borrowed_amount_wads@, max_liquidation_pct@);
        }
        liquidity.borrowed_amount_wads.try_mul(max_liquidation_pct)
    }
}

} // verus!
