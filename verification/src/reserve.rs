//! Lending market reserve state: liquidity and collateral accounting,
//! the kinked borrow-rate curve, fee computation, interest accrual, and
//! the borrow / repay / liquidate arithmetic.
//!
//! Every fallible function states exactly on which inputs it succeeds,
//! which error each failing input produces, and — for `&mut` methods —
//! how far the state advanced before the failure.

use vstd::prelude::*;
use crate::decimal::{
    ceil_wad, div_wad, floor_wad, lemma_div_wad_le_one, lemma_div_wad_self, lemma_mul_wad_le_one,
    max_nat, min_nat, mul_wad, round_wad, Decimal, DECIMAL_RAW_CAP, PERCENT_SCALER, WAD,
};
use crate::error::LendingError;
use crate::last_update::LastUpdate;
use crate::obligation::{
    spec_max_liquidation_amount, Obligation, ObligationCollateral, ObligationLiquidity,
};
use crate::pubkey::Pubkey;
use crate::rate::{pow_wad, Rate, RATE_RAW_CAP};

verus! {

/// Current version of the reserve account layout.
pub const PROGRAM_VERSION: u8 = 1;

/// Version tag of an account that was never initialized.
pub const UNINITIALIZED_VERSION: u8 = 0;

/// Number of slots per year, the unit in which borrow rates are quoted.
pub const SLOTS_PER_YEAR: u64 = 63_072_000;

/// Collateral tokens minted per liquidity token by the first depositor.
pub const INITIAL_COLLATERAL_RATIO: u64 = 5;

/// Raw scaled value of the bootstrap collateral exchange rate.
pub const INITIAL_COLLATERAL_RATE: u64 = INITIAL_COLLATERAL_RATIO * WAD;

/// Percentage of an obligation that can be repaid during each liquidation call.
pub const LIQUIDATION_CLOSE_FACTOR: u8 = 50;

/// Obligation borrow amount that is small enough to close out whole.
pub const LIQUIDATION_CLOSE_AMOUNT: u64 = 2;

/// Additional fee information on a reserve.
///
/// These exist separately from interest accrual fees, and are paid to the
/// program owner and, optionally, to the frontend host that submitted the
/// borrow.
#[derive(Clone, Copy, Debug, PartialEq, Eq, Structural)]
pub struct ReserveFees {
    /// Fee assessed on borrows, as a wad: `10^18` means 100%,
    /// `10_000_000_000_000_000` means 1%.
    pub borrow_fee_wad: u64,
    /// Share of the borrow fee that goes to the host, as a percentage.
    pub host_fee_percentage: u8,
}

/// Whether a fee comes out of the stated amount or is added on top of it.
#[derive(Clone, Copy, Debug, PartialEq, Eq, Structural)]
pub enum FeeCalculation {
    /// Fee added to amount: `fee = rate * amount`.
    Exclusive,
    /// Fee included in amount: `fee = (rate / (1 + rate)) * amount`.
    Inclusive,
}

/// Reserve configuration values.
#[derive(Clone, Copy, Debug, PartialEq, Eq, Structural)]
pub struct ReserveConfig {
    /// Optimal utilization rate, as a percentage.
    pub optimal_utilization_rate: u8,
    /// Min borrow APY, as a percentage.
    pub min_borrow_rate: u8,
    /// Borrow APY at the optimal utilization rate, as a percentage.
    pub optimal_borrow_rate: u8,
    /// Max borrow APY, as a percentage.
    pub max_borrow_rate: u8,
    /// Target ratio of the value of borrows to deposits, as a percentage;
    /// 0 if use as collateral is disabled.
    pub loan_to_value_ratio: u8,
    /// Loan to value ratio at which an obligation can be liquidated, as a
    /// percentage.
    pub liquidation_threshold: u8,
    /// Bonus a liquidator gets when repaying part of an unhealthy
    /// obligation, as a percentage.
    pub liquidation_bonus: u8,
    /// Program owner fees, separate from gains due to interest accrual.
    pub fees: ReserveFees,
}

/// The borrow-fee rate adjusted for fee-inclusive amounts:
/// `rate / (1 + rate)`, so that the fee taken out of an amount matches
/// the fee that would have been added on top of the remainder.
pub open spec fn spec_borrow_fee_adjusted_rate(fees: ReserveFees) -> nat {
    div_wad(fees.borrow_fee_wad as nat, (fees.borrow_fee_wad + WAD) as nat)
}

/// Raw scaled fee charged on a borrow, before the minimum-fee floor.
pub open spec fn spec_borrow_fee_amount(
    fees: ReserveFees,
    amount: nat,
    fee_calculation: FeeCalculation,
) -> nat {
    match fee_calculation {
        FeeCalculation::Exclusive => mul_wad(amount, fees.borrow_fee_wad as nat),
        FeeCalculation::Inclusive => mul_wad(amount, spec_borrow_fee_adjusted_rate(fees)),
    }
}

/// Owner and host fees on a borrow of `amount` (a raw scaled value):
/// zero when no fee is configured or nothing is borrowed; otherwise the
/// rounded fee with a floor of one token per recipient, failing when the
/// fee arithmetic overflows or the fee would swallow the whole amount.
pub open spec fn spec_calculate_borrow_fees(
    fees: ReserveFees,
    amount: nat,
    fee_calculation: FeeCalculation,
) -> Result<(nat, nat), LendingError> {
    if fees.borrow_fee_wad == 0 || amount == 0 {
        Ok((0 as nat, 0 as nat))
    } else {
        let minimum_fee: nat = if fees.host_fee_percentage > 0 {
            2
        } else {
            1
        };
        let fee_amount = spec_borrow_fee_amount(fees, amount, fee_calculation);
        if fee_amount >= DECIMAL_RAW_CAP {
            Err(LendingError::MathOverflow)
        } else if round_wad(fee_amount) > u64::MAX {
            Err(LendingError::MathOverflow)
        } else {
            let borrow_fee = max_nat(round_wad(fee_amount), minimum_fee);
            let host_rate = (fees.host_fee_percentage * PERCENT_SCALER) as nat;
            if fees.host_fee_percentage > 0 && host_rate * borrow_fee >= RATE_RAW_CAP {
                Err(LendingError::MathOverflow)
            } else {
                let host_fee: nat = if fees.host_fee_percentage > 0 {
                    max_nat(round_wad(host_rate * borrow_fee), 1)
                } else {
                    0
                };
                if borrow_fee * WAD >= amount {
                    Err(LendingError::BorrowTooSmall)
                } else {
                    Ok((borrow_fee, host_fee))
                }
            }
        }
    }
}

impl ReserveFees {
    /// Calculate the owner and host fees on borrow.
    pub fn calculate_borrow_fees(
        &self,
        borrow_amount: Decimal,
        fee_calculation: FeeCalculation,
    ) -> (r: Result<(u64, u64), LendingError>)
        ensures
            match spec_calculate_borrow_fees(*self, borrow_amount@, fee_calculation) {
                Ok(fh) => r matches Ok(p) && p.0 == fh.0 && p.1 == fh.1,
                Err(e) => r matches Err(e2) && e2 == e,
            },
    {
        proof {
            use_type_invariant(borrow_amount);
        }
        let borrow_fee_rate = Rate::from_scaled_val(self.borrow_fee_wad);
        let host_fee_rate = Rate::from_percent(self.host_fee_percentage);
        let zero_rate = Rate::zero();
        let zero_amount = Decimal::zero();
        if borrow_fee_rate > zero_rate && borrow_amount > zero_amount {
            proof {
                if self.host_fee_percentage > 0 {
                    vstd::arithmetic::mul::lemma_mul_strictly_positive(
                        self.host_fee_percentage as int,
                        PERCENT_SCALER as int,
                    );
                }
            }
            let need_to_assess_host_fee = host_fee_rate > zero_rate;
            let minimum_fee: u64 = if need_to_assess_host_fee {
                2
            } else {
                1
            };
            let borrow_fee_amount = match fee_calculation {
                FeeCalculation::Exclusive => {
                    match borrow_amount.try_mul(borrow_fee_rate.to_decimal()) {
                        Ok(v) => v,
                        Err(e) => {
                            return Err(e);
                        },
                    }
                },
                FeeCalculation::Inclusive => {
                    let denom = match borrow_fee_rate.try_add(Rate::one()) {
                        Ok(v) => v,
                        Err(e) => {
                            return Err(e);
                        },
                    };
                    proof {
                        lemma_div_wad_le_one(self.borrow_fee_wad as nat, denom@);
                    }
                    let adjusted = match borrow_fee_rate.try_div(denom) {
                        Ok(v) => v,
                        Err(e) => {
                            return Err(e);
                        },
                    };
                    proof {
                        lemma_mul_wad_le_one(borrow_amount@, adjusted@);
                    }
                    match borrow_amount.try_mul(adjusted.to_decimal()) {
                        Ok(v) => v,
                        Err(e) => {
                            return Err(e);
                        },
                    }
                },
            };
            let rounded = match borrow_fee_amount.try_round_u64() {
                Ok(v) => v,
                Err(e) => {
                    return Err(e);
                },
            };
            let borrow_fee = if rounded < minimum_fee {
                minimum_fee
            } else {
                rounded
            };
            let host_fee: u64 = if need_to_assess_host_fee {
                let h = match host_fee_rate.try_mul_u64(borrow_fee) {
                    Ok(v) => v,
                    Err(e) => {
                        return Err(e);
                    },
                };
                let hr = match h.try_round_u64() {
                    Ok(v) => v,
                    Err(e) => {
                        return Err(e);
                    },
                };
                if hr < 1 {
                    1
                } else {
                    hr
                }
            } else {
                0
            };
            if Decimal::from_u64(borrow_fee) >= borrow_amount {
                Err(LendingError::BorrowTooSmall)
            } else {
                Ok((borrow_fee, host_fee))
            }
        } else {
            Ok((0, 0))
        }
    }
}

/// Raw scaled collateral exchange rate for the given collateral mint
/// supply and total liquidity: their ratio, or the fixed bootstrap rate
/// when either side is zero.
pub open spec fn spec_exchange_rate(collateral_supply: nat, total_liquidity: nat) -> nat {
    if collateral_supply == 0 || total_liquidity == 0 {
        INITIAL_COLLATERAL_RATE as nat
    } else {
        div_wad((collateral_supply * WAD) as nat, total_liquidity)
    }
}

/// Whether the collateral exchange rate is representable as a rate.
pub open spec fn spec_exchange_rate_fits(collateral_supply: nat, total_liquidity: nat) -> bool {
    spec_exchange_rate(collateral_supply, total_liquidity) < RATE_RAW_CAP
}

/// Collateral exchange rate: collateral tokens per liquidity token.
#[derive(Clone, Copy, Debug)]
pub struct CollateralExchangeRate(Rate);

impl View for CollateralExchangeRate {
    type V = nat;

    /// The raw scaled value of the rate.
    closed spec fn view(&self) -> nat {
        self.0@
    }
}

impl CollateralExchangeRate {
    /// Convert reserve collateral to the liquidity it can redeem,
    /// rounding to the nearest token.  Fails when the rate is zero or the
    /// result does not fit in a `u64`.
    pub fn collateral_to_liquidity(&self, collateral_amount: u64) -> (r: Result<
        u64,
        LendingError,
    >)
        ensures
            self@ == 0 ==> r == Err::<u64, LendingError>(LendingError::MathOverflow),
            self@ > 0 && div_wad((collateral_amount * WAD) as nat, self@) >= DECIMAL_RAW_CAP ==> r
                == Err::<u64, LendingError>(LendingError::MathOverflow),
            self@ > 0 && div_wad((collateral_amount * WAD) as nat, self@) < DECIMAL_RAW_CAP
                && round_wad(div_wad((collateral_amount * WAD) as nat, self@)) > u64::MAX ==> r
                == Err::<u64, LendingError>(LendingError::MathOverflow),
            self@ > 0 && div_wad((collateral_amount * WAD) as nat, self@) < DECIMAL_RAW_CAP
                && round_wad(div_wad((collateral_amount * WAD) as nat, self@)) <= u64::MAX ==> (
            r matches Ok(v) && v == round_wad(div_wad((collateral_amount * WAD) as nat, self@))),
    {
        let d = match Decimal::from_u64(collateral_amount).try_div(self.0.to_decimal()) {
            Ok(v) => v,
            Err(e) => {
                return Err(e);
            },
        };
        d.try_round_u64()
    }

    /// Convert reserve collateral to liquidity without rounding.
    pub fn decimal_collateral_to_liquidity(&self, collateral_amount: Decimal) -> (r: Result<
        Decimal,
        LendingError,
    >)
        ensures
            self@ == 0 ==> r == Err::<Decimal, LendingError>(LendingError::MathOverflow),
            self@ > 0 && div_wad(collateral_amount@, self@) >= DECIMAL_RAW_CAP ==> r == Err::<
                Decimal,
                LendingError,
            >(LendingError::MathOverflow),
            self@ > 0 && div_wad(collateral_amount@, self@) < DECIMAL_RAW_CAP ==> (r matches Ok(c)
                && c@ == div_wad(collateral_amount@, self@)),
    {
        collateral_amount.try_div(self.0.to_decimal())
    }

    /// Convert reserve liquidity to the collateral it mints, rounding to
    /// the nearest token.  Fails when the scaled product overflows.
    pub fn liquidity_to_collateral(&self, liquidity_amount: u64) -> (r: Result<u64, LendingError>)
        ensures
            self@ * liquidity_amount < RATE_RAW_CAP ==> (r matches Ok(v) && v == round_wad(
                (self@ * liquidity_amount) as nat,
            )),
            self@ * liquidity_amount >= RATE_RAW_CAP ==> r == Err::<u64, LendingError>(
                LendingError::MathOverflow,
            ),
    {
        let p = match self.0.try_mul_u64(liquidity_amount) {
            Ok(v) => v,
            Err(e) => {
                return Err(e);
            },
        };
        p.try_round_u64()
    }

    /// Convert reserve liquidity to collateral without rounding.
    pub fn decimal_liquidity_to_collateral(&self, liquidity_amount: Decimal) -> (r: Result<
        Decimal,
        LendingError,
    >)
        ensures
            mul_wad(liquidity_amount@, self@) < DECIMAL_RAW_CAP ==> (r matches Ok(c) && c@
                == mul_wad(liquidity_amount@, self@)),
            mul_wad(liquidity_amount@, self@) >= DECIMAL_RAW_CAP ==> r == Err::<
                Decimal,
                LendingError,
            >(LendingError::MathOverflow),
    {
        liquidity_amount.try_mul(self.0.to_decimal())
    }
}

/// Reserve collateral: the derivative token minted against deposited
/// liquidity.
#[derive(Clone, Debug, PartialEq, Eq)]
pub struct ReserveCollateral {
    /// Reserve collateral mint address.
    pub mint_pubkey: Pubkey,
    /// Reserve collateral mint supply, used for the exchange rate.
    pub mint_total_supply: u64,
    /// Reserve collateral supply address.
    pub supply_pubkey: Pubkey,
}

/// Parameters for a new reserve collateral.
pub struct NewReserveCollateralParams {
    /// Reserve collateral mint address.
    pub mint_pubkey: Pubkey,
    /// Reserve collateral supply address.
    pub supply_pubkey: Pubkey,
}

impl ReserveCollateral {
    /// A fresh collateral record with nothing minted yet.
    pub fn new(params: NewReserveCollateralParams) -> (r: Self)
        ensures
            r.mint_pubkey == params.mint_pubkey,
            r.supply_pubkey == params.supply_pubkey,
            r.mint_total_supply == 0,
    {
        ReserveCollateral {
            mint_pubkey: params.mint_pubkey,
            mint_total_supply: 0,
            supply_pubkey: params.supply_pubkey,
        }
    }

    /// Add collateral to the total supply.
    pub fn mint(&mut self, collateral_amount: u64) -> (r: Result<(), LendingError>)
        ensures
            old(self).mint_total_supply + collateral_amount <= u64::MAX ==> (r matches Ok(())
                && *final(self) == (ReserveCollateral {
                mint_total_supply: (old(self).mint_total_supply + collateral_amount) as u64,
                ..*old(self)
            })),
            old(self).mint_total_supply + collateral_amount > u64::MAX ==> (r == Err::<
                (),
                LendingError,
            >(LendingError::MathOverflow) && *final(self) == *old(self)),
    {
        match self.mint_total_supply.checked_add(collateral_amount) {
            Some(v) => {
                self.mint_total_supply = v;
                Ok(())
            },
            None => Err(LendingError::MathOverflow),
        }
    }

    /// Remove collateral from the total supply.
    pub fn burn(&mut self, collateral_amount: u64) -> (r: Result<(), LendingError>)
        ensures
            collateral_amount <= old(self).mint_total_supply ==> (r matches Ok(()) && *final(self)
                == (ReserveCollateral {
                mint_total_supply: (old(self).mint_total_supply - collateral_amount) as u64,
                ..*old(self)
            })),
            collateral_amount > old(self).mint_total_supply ==> (r == Err::<(), LendingError>(
                LendingError::MathOverflow,
            ) && *final(self) == *old(self)),
    {
        match self.mint_total_supply.checked_sub(collateral_amount) {
            Some(v) => {
                self.mint_total_supply = v;
                Ok(())
            },
            None => Err(LendingError::MathOverflow),
        }
    }

    /// The current collateral exchange rate against the given total
    /// liquidity.
    fn exchange_rate(&self, total_liquidity: Decimal) -> (r: Result<
        CollateralExchangeRate,
        LendingError,
    >)
        ensures
            spec_exchange_rate_fits(self.mint_total_supply as nat, total_liquidity@) ==> (
            r matches Ok(c) && c@ == spec_exchange_rate(
                self.mint_total_supply as nat,
                total_liquidity@,
            )),
            !spec_exchange_rate_fits(self.mint_total_supply as nat, total_liquidity@) ==> r
                == Err::<CollateralExchangeRate, LendingError>(LendingError::MathOverflow),
    {
        let zero = Decimal::zero();
        if self.mint_total_supply == 0 || total_liquidity == zero {
            Ok(CollateralExchangeRate(Rate::from_scaled_val(INITIAL_COLLATERAL_RATE)))
        } else {
            let collateral_supply = Decimal::from_u64(self.mint_total_supply);
            let rate = match collateral_supply.try_div(total_liquidity) {
                Ok(v) => v,
                Err(e) => {
                    return Err(e);
                },
            };
            match Rate::try_from_decimal(rate) {
                Ok(v) => Ok(CollateralExchangeRate(v)),
                Err(e) => Err(e),
            }
        }
    }
}

/// Total claims on a liquidity pool: what is on hand plus what is owed,
/// as a raw scaled value.
pub open spec fn spec_total_supply(l: ReserveLiquidity) -> nat {
    (l.available_amount * WAD + l.borrowed_amount_wads@) as nat
}

/// Whether the total supply is representable.
pub open spec fn spec_total_supply_fits(l: ReserveLiquidity) -> bool {
    spec_total_supply(l) < DECIMAL_RAW_CAP
}

/// Share of the pool that is lent out: borrowed over total, zero for an
/// empty pool.
pub open spec fn spec_utilization_rate(l: ReserveLiquidity) -> nat {
    if spec_total_supply(l) == 0 {
        0
    } else {
        div_wad(l.borrowed_amount_wads@, spec_total_supply(l))
    }
}

/// Reserve liquidity: one token's pooled state.
#[derive(Clone, Debug, PartialEq, Eq)]
pub struct ReserveLiquidity {
    /// Reserve liquidity mint address.
    pub mint_pubkey: Pubkey,
    /// Reserve liquidity mint decimals.
    pub mint_decimals: u8,
    /// Reserve liquidity supply address.
    pub supply_pubkey: Pubkey,
    /// Reserve liquidity fee receiver address.
    pub fee_receiver: Pubkey,
    /// Optional external price-aggregator account.
    pub aggregator: Option<Pubkey>,
    /// Cumulative borrow rate: the compounded growth factor applied to
    /// all debt since the reserve was created; starts at `1.0` and never
    /// decreases.
    pub cumulative_borrow_rate_wads: Decimal,
    /// Median price of the liquidity token in the quote currency.
    pub median_price: u64,
    /// Liquidity on hand, not lent out.
    pub available_amount: u64,
    /// Principal plus accrued interest owed across all borrowers.
    pub borrowed_amount_wads: Decimal,
}

/// Parameters for a new reserve liquidity.
pub struct NewReserveLiquidityParams {
    /// Reserve liquidity mint address.
    pub mint_pubkey: Pubkey,
    /// Reserve liquidity mint decimals.
    pub mint_decimals: u8,
    /// Reserve liquidity supply address.
    pub supply_pubkey: Pubkey,
    /// Reserve liquidity fee receiver address.
    pub fee_receiver: Pubkey,
    /// Optional external price-aggregator account.
    pub aggregator: Option<Pubkey>,
    /// Median price of the liquidity token in the quote currency.
    pub median_price: u64,
}

impl ReserveLiquidity {
    /// A fresh liquidity record: nothing deposited, nothing borrowed, the
    /// cumulative borrow rate at `1.0`.
    pub fn new(params: NewReserveLiquidityParams) -> (r: Self)
        ensures
            r.mint_pubkey == params.mint_pubkey,
            r.mint_decimals == params.mint_decimals,
            r.supply_pubkey == params.supply_pubkey,
            r.fee_receiver == params.fee_receiver,
            r.aggregator == params.aggregator,
            r.cumulative_borrow_rate_wads@ == WAD,
            r.median_price == params.median_price,
            r.available_amount == 0,
            r.borrowed_amount_wads@ == 0,
    {
        ReserveLiquidity {
            mint_pubkey: params.mint_pubkey,
            mint_decimals: params.mint_decimals,
            supply_pubkey: params.supply_pubkey,
            fee_receiver: params.fee_receiver,
            aggregator: params.aggregator,
            cumulative_borrow_rate_wads: Decimal::one(),
            median_price: params.median_price,
            available_amount: 0,
            borrowed_amount_wads: Decimal::zero(),
        }
    }

    /// The total reserve supply including active loans.
    pub fn total_supply(&self) -> (r: Result<Decimal, LendingError>)
        ensures
            spec_total_supply_fits(*self) ==> (r matches Ok(c) && c@ == spec_total_supply(*self)),
            !spec_total_supply_fits(*self) ==> r == Err::<Decimal, LendingError>(
                LendingError::MathOverflow,
            ),
    {
        Decimal::from_u64(self.available_amount).try_add(self.borrowed_amount_wads)
    }

    /// Add liquidity to the available amount.
    pub fn deposit(&mut self, liquidity_amount: u64) -> (r: Result<(), LendingError>)
        ensures
            old(self).available_amount + liquidity_amount <= u64::MAX ==> (r matches Ok(())
                && *final(self) == (ReserveLiquidity {
                available_amount: (old(self).available_amount + liquidity_amount) as u64,
                ..*old(self)
            })),
            old(self).available_amount + liquidity_amount > u64::MAX ==> (r == Err::<
                (),
                LendingError,
            >(LendingError::MathOverflow) && *final(self) == *old(self)),
    {
        match self.available_amount.checked_add(liquidity_amount) {
            Some(v) => {
                self.available_amount = v;
                Ok(())
            },
            None => Err(LendingError::MathOverflow),
        }
    }

    /// Remove liquidity from the available amount; fails when more is
    /// asked for than is on hand.
    pub fn withdraw(&mut self, liquidity_amount: u64) -> (r: Result<(), LendingError>)
        ensures
            liquidity_amount <= old(self).available_amount ==> (r matches Ok(()) && *final(self)
                == (ReserveLiquidity {
                available_amount: (old(self).available_amount - liquidity_amount) as u64,
                ..*old(self)
            })),
            liquidity_amount > old(self).available_amount ==> (r == Err::<(), LendingError>(
                LendingError::InsufficientLiquidity,
            ) && *final(self) == *old(self)),
    {
        if liquidity_amount > self.available_amount {
            return Err(LendingError::InsufficientLiquidity);
        }
        self.available_amount = self.available_amount - liquidity_amount;
        Ok(())
    }

    /// Move the whole-token part of `borrow_amount` from available to
    /// borrowed, recording the full fee-inclusive amount as debt.  When
    /// the debt update overflows, the available amount has already been
    /// reduced; the caller discards the state on any error.
    pub fn borrow(&mut self, borrow_amount: Decimal) -> (r: Result<(), LendingError>)
        ensures
            floor_wad(borrow_amount@) > old(self).available_amount ==> (r == Err::<
                (),
                LendingError,
            >(LendingError::InsufficientLiquidity) && *final(self) == *old(self)),
            floor_wad(borrow_amount@) <= old(self).available_amount && old(self).borrowed_amount_wads@ + borrow_amount@ < DECIMAL_RAW_CAP ==> (r matches Ok(())
                && *final(self) == (ReserveLiquidity {
                available_amount: (old(self).available_amount - floor_wad(borrow_amount@)) as u64,
                borrowed_amount_wads: final(self).borrowed_amount_wads,
                ..*old(self)
            }) && final(self).borrowed_amount_wads@ == old(self).borrowed_amount_wads@
                + borrow_amount@),
            floor_wad(borrow_amount@) <= old(self).available_amount && old(self).borrowed_amount_wads@ + borrow_amount@ >= DECIMAL_RAW_CAP ==> (r == Err::<
                (),
                LendingError,
            >(LendingError::MathOverflow) && *final(self) == (ReserveLiquidity {
                available_amount: (old(self).available_amount - floor_wad(borrow_amount@)) as u64,
                ..*old(self)
            })),
    {
        let receive_amount = match borrow_amount.try_floor_u64() {
            Ok(v) => v,
            Err(e) => {
                return Err(e);
            },
        };
        if receive_amount > self.available_amount {
            return Err(LendingError::InsufficientLiquidity);
        }
        self.available_amount = self.available_amount - receive_amount;
        match self.borrowed_amount_wads.try_add(borrow_amount) {
            Ok(v) => {
                self.borrowed_amount_wads = v;
                Ok(())
            },
            Err(e) => Err(e),
        }
    }

    /// Return `repay_amount` tokens to the pool and settle
    /// `settle_amount` of debt.  When the debt settlement fails, the
    /// available amount has already been increased; the caller discards
    /// the state on any error.
    pub fn repay(&mut self, repay_amount: u64, settle_amount: Decimal) -> (r: Result<
        (),
        LendingError,
    >)
        ensures
            old(self).available_amount + repay_amount > u64::MAX ==> (r == Err::<(), LendingError>(
                LendingError::MathOverflow,
            ) && *final(self) == *old(self)),
            old(self).available_amount + repay_amount <= u64::MAX && settle_amount@ <= old(self).borrowed_amount_wads@ ==> (r matches Ok(()) && *final(self) == (ReserveLiquidity {
                available_amount: (old(self).available_amount + repay_amount) as u64,
                borrowed_amount_wads: final(self).borrowed_amount_wads,
                ..*old(self)
            }) && final(self).borrowed_amount_wads@ == old(self).borrowed_amount_wads@
                - settle_amount@),
            old(self).available_amount + repay_amount <= u64::MAX && settle_amount@ > old(self).borrowed_amount_wads@ ==> (r == Err::<(), LendingError>(LendingError::MathOverflow)
                && *final(self) == (ReserveLiquidity {
                available_amount: (old(self).available_amount + repay_amount) as u64,
                ..*old(self)
            })),
    {
        match self.available_amount.checked_add(repay_amount) {
            Some(v) => {
                self.available_amount = v;
            },
            None => {
                return Err(LendingError::MathOverflow);
            },
        }
        match self.borrowed_amount_wads.try_sub(settle_amount) {
            Ok(v) => {
                self.borrowed_amount_wads = v;
                Ok(())
            },
            Err(e) => Err(e),
        }
    }

    /// The liquidity utilization rate of the reserve: borrowed over
    /// total, zero for an empty pool.
    pub fn utilization_rate(&self) -> (r: Result<Rate, LendingError>)
        ensures
            spec_total_supply_fits(*self) ==> (r matches Ok(rate) && rate@
                == spec_utilization_rate(*self)),
            !spec_total_supply_fits(*self) ==> r == Err::<Rate, LendingError>(
                LendingError::MathOverflow,
            ),
    {
        let total_supply = match self.total_supply() {
            Ok(v) => v,
            Err(e) => {
                return Err(e);
            },
        };
        if total_supply == Decimal::zero() {
            return Ok(Rate::zero());
        }
        proof {
            lemma_div_wad_le_one(self.borrowed_amount_wads@, total_supply@);
        }
        let ratio = match self.borrowed_amount_wads.try_div(total_supply) {
            Ok(v) => v,
            Err(e) => {
                return Err(e);
            },
        };
        Rate::try_from_decimal(ratio)
    }

    /// Compound the current borrow rate over the elapsed slots, growing
    /// both the cumulative borrow rate and the debt by the same factor.
    /// When the debt update overflows, the cumulative rate has already
    /// been advanced; the caller discards the state on any error.
    fn compound_interest(&mut self, current_borrow_rate: Rate, slots_elapsed: u64) -> (r: Result<
        (),
        LendingError,
    >)
        ensures
            spec_compounded_rate(current_borrow_rate@, slots_elapsed as nat) is None ==> (r
                == Err::<(), LendingError>(LendingError::MathOverflow) && *final(self) == *old(self)),
            spec_compounded_rate(current_borrow_rate@, slots_elapsed as nat) matches Some(c) ==> {
                &&& (mul_wad(old(self).cumulative_borrow_rate_wads@, c) >= DECIMAL_RAW_CAP ==> (r
                    == Err::<(), LendingError>(LendingError::MathOverflow) && *final(self) == *old(self)))
                &&& (mul_wad(old(self).cumulative_borrow_rate_wads@, c) < DECIMAL_RAW_CAP
                    && mul_wad(old(self).borrowed_amount_wads@, c) >= DECIMAL_RAW_CAP ==> (r
                    == Err::<(), LendingError>(LendingError::MathOverflow) && *final(self)
                    == (ReserveLiquidity {
                    cumulative_borrow_rate_wads: final(self).cumulative_borrow_rate_wads,
                    ..*old(self)
                }) && final(self).cumulative_borrow_rate_wads@ == mul_wad(
                    old(self).cumulative_borrow_rate_wads@,
                    c,
                )))
                &&& (mul_wad(old(self).cumulative_borrow_rate_wads@, c) < DECIMAL_RAW_CAP
                    && mul_wad(old(self).borrowed_amount_wads@, c) < DECIMAL_RAW_CAP ==> (
                r matches Ok(()) && *final(self) == (ReserveLiquidity {
                    cumulative_borrow_rate_wads: final(self).cumulative_borrow_rate_wads,
                    borrowed_amount_wads: final(self).borrowed_amount_wads,
                    ..*old(self)
                }) && final(self).cumulative_borrow_rate_wads@ == mul_wad(
                    old(self).cumulative_borrow_rate_wads@,
                    c,
                ) && final(self).borrowed_amount_wads@ == mul_wad(
                    old(self).borrowed_amount_wads@,
                    c,
                )))
            },
    {
        proof {
            use_type_invariant(current_borrow_rate);
            vstd::arithmetic::div_mod::lemma_div_is_ordered(
                current_borrow_rate@ as int,
                RATE_RAW_CAP as int,
                SLOTS_PER_YEAR as int,
            );
        }
        let slot_interest_rate = match current_borrow_rate.try_div_u64(SLOTS_PER_YEAR) {
            Ok(v) => v,
            Err(e) => {
                return Err(e);
            },
        };
        let base = match Rate::one().try_add(slot_interest_rate) {
            Ok(v) => v,
            Err(e) => {
                return Err(e);
            },
        };
        let compounded_interest_rate = match base.try_pow(slots_elapsed) {
            Ok(v) => v,
            Err(e) => {
                return Err(e);
            },
        };
        let new_cumulative = match self.cumulative_borrow_rate_wads.try_mul(
            compounded_interest_rate.to_decimal(),
        ) {
            Ok(v) => v,
            Err(e) => {
                return Err(e);
            },
        };
        self.cumulative_borrow_rate_wads = new_cumulative;
        let new_borrowed = match self.borrowed_amount_wads.try_mul(
            compounded_interest_rate.to_decimal(),
        ) {
            Ok(v) => v,
            Err(e) => {
                return Err(e);
            },
        };
        self.borrowed_amount_wads = new_borrowed;
        Ok(())
    }
}

/// The compounded growth factor for one accrual: the per-slot rate on
/// top of one, raised to the number of elapsed slots; `None` when an
/// intermediate product overflows.
pub open spec fn spec_compounded_rate(rate: nat, slots_elapsed: nat) -> Option<nat> {
    pow_wad((WAD + rate / (SLOTS_PER_YEAR as nat)) as nat, slots_elapsed)
}

/// Interest accrual never shrinks a balance: the compounded growth
/// factor is at least one, so under the contract of
/// [`Reserve::accrue_interest`] both the cumulative borrow rate and the
/// debt are monotonically non-decreasing.
pub proof fn lemma_accrual_monotone(amount: nat, rate: nat, slots_elapsed: nat)
    ensures
        spec_compounded_rate(rate, slots_elapsed) matches Some(c) ==> mul_wad(amount, c)
            >= amount,
{
    if spec_compounded_rate(rate, slots_elapsed) is Some {
        let c = spec_compounded_rate(rate, slots_elapsed)->Some_0;
        crate::rate::lemma_pow_wad_ge_one(
            (WAD + rate / (SLOTS_PER_YEAR as nat)) as nat,
            slots_elapsed,
        );
        crate::decimal::lemma_mul_wad_ge_one(amount, c);
    }
}

/// The utilization rate is a genuine ratio: it never exceeds one.
pub proof fn lemma_utilization_le_one(l: ReserveLiquidity)
    ensures
        spec_utilization_rate(l) <= WAD,
{
    vstd::arithmetic::mul::lemma_mul_nonnegative(l.available_amount as int, WAD as int);
    if spec_total_supply(l) != 0 {
        lemma_div_wad_le_one(l.borrowed_amount_wads@, spec_total_supply(l));
    }
}

/// Optimal utilization as a raw scaled rate.
pub open spec fn spec_optimal_utilization_raw(config: ReserveConfig) -> nat {
    (config.optimal_utilization_rate * PERCENT_SCALER) as nat
}

/// Whether the borrow rate is read off the segment below the kink.
pub open spec fn spec_low_utilization(config: ReserveConfig, util: nat) -> bool {
    util < spec_optimal_utilization_raw(config) || config.optimal_utilization_rate == 100
}

/// The borrow rate below the kink: interpolate between the minimum and
/// optimal rates by how far utilization has come toward the optimum.
pub open spec fn spec_borrow_rate_low(config: ReserveConfig, util: nat) -> nat
    recommends
        config.min_borrow_rate <= config.optimal_borrow_rate,
        util <= spec_optimal_utilization_raw(config),
        spec_optimal_utilization_raw(config) > 0,
{
    (mul_wad(
        div_wad(util, spec_optimal_utilization_raw(config)),
        ((config.optimal_borrow_rate - config.min_borrow_rate) * PERCENT_SCALER) as nat,
    ) + config.min_borrow_rate * PERCENT_SCALER) as nat
}

/// The borrow rate above the kink: interpolate between the optimal and
/// maximum rates by how far utilization has come past the optimum.
pub open spec fn spec_borrow_rate_high(config: ReserveConfig, util: nat) -> nat
    recommends
        config.optimal_borrow_rate <= config.max_borrow_rate,
        config.optimal_utilization_rate < 100,
        spec_optimal_utilization_raw(config) <= util <= WAD,
{
    (mul_wad(
        div_wad(
            (util - spec_optimal_utilization_raw(config)) as nat,
            ((100 - config.optimal_utilization_rate) * PERCENT_SCALER) as nat,
        ),
        ((config.max_borrow_rate - config.optimal_borrow_rate) * PERCENT_SCALER) as nat,
    ) + config.optimal_borrow_rate * PERCENT_SCALER) as nat
}

/// The kinked borrow-rate curve at the given utilization.
pub open spec fn spec_borrow_rate(config: ReserveConfig, util: nat) -> nat {
    if spec_low_utilization(config, util) {
        spec_borrow_rate_low(config, util)
    } else {
        spec_borrow_rate_high(config, util)
    }
}

/// The borrow rate of a reserve, with the exact conditions under which
/// computing it fails: an unrepresentable total supply, or risk
/// parameters whose required orderings do not hold.
pub open spec fn spec_borrow_rate_result(r: Reserve) -> Result<nat, LendingError> {
    if !spec_total_supply_fits(r.liquidity) {
        Err(LendingError::MathOverflow)
    } else {
        let util = spec_utilization_rate(r.liquidity);
        if spec_low_utilization(r.config, util) {
            if r.config.optimal_borrow_rate < r.config.min_borrow_rate {
                Err(LendingError::MathOverflow)
            } else {
                Ok(spec_borrow_rate_low(r.config, util))
            }
        } else {
            if r.config.optimal_utilization_rate > 100 {
                Err(LendingError::MathOverflow)
            } else if r.config.max_borrow_rate < r.config.optimal_borrow_rate {
                Err(LendingError::MathOverflow)
            } else {
                Ok(spec_borrow_rate_high(r.config, util))
            }
        }
    }
}

/// Continuity at the kink: evaluated exactly at the optimal utilization,
/// both segments of the borrow-rate curve give the optimal borrow rate.
pub proof fn lemma_borrow_rate_continuous_at_kink(config: ReserveConfig)
    requires
        0 < config.optimal_utilization_rate <= 100,
        config.min_borrow_rate <= config.optimal_borrow_rate,
        config.optimal_borrow_rate <= config.max_borrow_rate,
    ensures
        spec_borrow_rate_low(config, spec_optimal_utilization_raw(config))
            == config.optimal_borrow_rate * PERCENT_SCALER,
        config.optimal_utilization_rate < 100 ==> spec_borrow_rate_high(
            config,
            spec_optimal_utilization_raw(config),
        ) == config.optimal_borrow_rate * PERCENT_SCALER,
{
    let opt = spec_optimal_utilization_raw(config);
    assert(opt > 0) by (nonlinear_arith)
        requires
            config.optimal_utilization_rate > 0,
            opt == config.optimal_utilization_rate * PERCENT_SCALER,
            PERCENT_SCALER > 0,
    ;
    lemma_div_wad_self(opt);
    let range_low = ((config.optimal_borrow_rate - config.min_borrow_rate)
        * PERCENT_SCALER) as nat;
    crate::decimal::lemma_mul_wad_one(range_low);
    crate::decimal::lemma_mul_wad_comm(WAD as nat, range_low);
    assert(range_low + config.min_borrow_rate * PERCENT_SCALER == config.optimal_borrow_rate
        * PERCENT_SCALER) by (nonlinear_arith)
        requires
            config.min_borrow_rate <= config.optimal_borrow_rate,
            range_low == (config.optimal_borrow_rate - config.min_borrow_rate) * PERCENT_SCALER,
    ;
    if config.optimal_utilization_rate < 100 {
        let denom = ((100 - config.optimal_utilization_rate) * PERCENT_SCALER) as nat;
        assert(denom > 0) by (nonlinear_arith)
            requires
                config.optimal_utilization_rate < 100,
                denom == (100 - config.optimal_utilization_rate) * PERCENT_SCALER,
                PERCENT_SCALER > 0,
        ;
        crate::decimal::lemma_div_wad_zero(denom);
        let range_high = ((config.max_borrow_rate - config.optimal_borrow_rate)
            * PERCENT_SCALER) as nat;
        assert(mul_wad(0, range_high) == 0) by {
            vstd::arithmetic::mul::lemma_mul_basics_1(range_high as int);
            vstd::arithmetic::div_mod::lemma_div_of0(WAD as int);
        }
    }
}

/// Lending market reserve state.
#[derive(Clone, Debug, PartialEq, Eq)]
pub struct Reserve {
    /// Version of the account layout.
    pub version: u8,
    /// Last slot when supply and rates were updated.
    pub last_update: LastUpdate,
    /// Lending market address.
    pub lending_market: Pubkey,
    /// Reserve liquidity.
    pub liquidity: ReserveLiquidity,
    /// Reserve collateral.
    pub collateral: ReserveCollateral,
    /// Reserve configuration values.
    pub config: ReserveConfig,
}

/// Parameters to initialize a reserve.
pub struct InitReserveParams {
    /// Last slot when supply and rates were updated.
    pub current_slot: u64,
    /// Lending market address.
    pub lending_market: Pubkey,
    /// Reserve liquidity.
    pub liquidity: ReserveLiquidity,
    /// Reserve collateral.
    pub collateral: ReserveCollateral,
    /// Reserve configuration values.
    pub config: ReserveConfig,
}

/// Whether a reserve's collateral exchange rate can be computed.
pub open spec fn spec_reserve_rate_fits(r: Reserve) -> bool {
    spec_total_supply_fits(r.liquidity) && spec_exchange_rate_fits(
        r.collateral.mint_total_supply as nat,
        spec_total_supply(r.liquidity),
    )
}

/// A reserve's collateral exchange rate, as a raw scaled value.
pub open spec fn spec_reserve_exchange_rate(r: Reserve) -> nat {
    spec_exchange_rate(r.collateral.mint_total_supply as nat, spec_total_supply(r.liquidity))
}

impl Reserve {
    /// Create a new reserve.
    pub fn new(params: InitReserveParams) -> (r: Self)
        ensures
            r.version == PROGRAM_VERSION,
            r.last_update.slot == params.current_slot,
            r.last_update.stale == true,
            r.lending_market == params.lending_market,
            r.liquidity == params.liquidity,
            r.collateral == params.collateral,
            r.config == params.config,
    {
        Reserve {
            version: PROGRAM_VERSION,
            last_update: LastUpdate::new(params.current_slot),
            lending_market: params.lending_market,
            liquidity: params.liquidity,
            collateral: params.collateral,
            config: params.config,
        }
    }

    /// Initialize a reserve in place.
    pub fn init(&mut self, params: InitReserveParams)
        ensures
            final(self).version == PROGRAM_VERSION,
            final(self).last_update.slot == params.current_slot,
            final(self).last_update.stale == true,
            final(self).lending_market == params.lending_market,
            final(self).liquidity == params.liquidity,
            final(self).collateral == params.collateral,
            final(self).config == params.config,
    {
        self.version = PROGRAM_VERSION;
        self.last_update = LastUpdate::new(params.current_slot);
        self.lending_market = params.lending_market;
        self.liquidity = params.liquidity;
        self.collateral = params.collateral;
        self.config = params.config;
    }

    /// Whether the reserve account was initialized.
    pub fn is_initialized(&self) -> (r: bool)
        ensures
            r == (self.version != UNINITIALIZED_VERSION),
    {
        self.version != UNINITIALIZED_VERSION
    }

    /// The current collateral exchange rate.
    pub fn collateral_exchange_rate(&self) -> (r: Result<CollateralExchangeRate, LendingError>)
        ensures
            spec_reserve_rate_fits(*self) ==> (r matches Ok(c) && c@ == spec_reserve_exchange_rate(
                *self,
            )),
            !spec_reserve_rate_fits(*self) ==> r == Err::<CollateralExchangeRate, LendingError>(
                LendingError::MathOverflow,
            ),
    {
        let total_liquidity = match self.liquidity.total_supply() {
            Ok(v) => v,
            Err(e) => {
                return Err(e);
            },
        };
        self.collateral.exchange_rate(total_liquidity)
    }

    /// Record deposited liquidity and return the amount of collateral
    /// tokens to mint for it.  When minting overflows, the liquidity has
    /// already been recorded; the caller discards the state on any error.
    pub fn deposit_liquidity(&mut self, liquidity_amount: u64) -> (r: Result<u64, LendingError>)
        ensures
            !spec_reserve_rate_fits(*old(self)) ==> (r == Err::<u64, LendingError>(
                LendingError::MathOverflow,
            ) && *final(self) == *old(self)),
            ({
                let rate = spec_reserve_exchange_rate(*old(self));
                let ca = round_wad((rate * liquidity_amount) as nat);
                &&& (spec_reserve_rate_fits(*old(self)) && rate * liquidity_amount >= RATE_RAW_CAP
                    ==> (r == Err::<u64, LendingError>(LendingError::MathOverflow) && *final(self)
                    == *old(self)))
                &&& (spec_reserve_rate_fits(*old(self)) && rate * liquidity_amount < RATE_RAW_CAP
                    && old(self).liquidity.available_amount + liquidity_amount > u64::MAX ==> (r
                    == Err::<u64, LendingError>(LendingError::MathOverflow) && *final(self)
                    == *old(self)))
                &&& (spec_reserve_rate_fits(*old(self)) && rate * liquidity_amount < RATE_RAW_CAP
                    && old(self).liquidity.available_amount + liquidity_amount <= u64::MAX && old(self).collateral.mint_total_supply + ca > u64::MAX ==> (r == Err::<u64, LendingError>(
                    LendingError::MathOverflow,
                ) && *final(self) == (Reserve {
                    liquidity: (ReserveLiquidity {
                        available_amount: (old(self).liquidity.available_amount
                            + liquidity_amount) as u64,
                        ..old(self).liquidity
                    }),
                    ..*old(self)
                })))
                &&& (spec_reserve_rate_fits(*old(self)) && rate * liquidity_amount < RATE_RAW_CAP
                    && old(self).liquidity.available_amount + liquidity_amount <= u64::MAX && old(self).collateral.mint_total_supply + ca <= u64::MAX ==> (r matches Ok(v) && v == ca
                    && *final(self) == (Reserve {
                    liquidity: (ReserveLiquidity {
                        available_amount: (old(self).liquidity.available_amount
                            + liquidity_amount) as u64,
                        ..old(self).liquidity
                    }),
                    collateral: (ReserveCollateral {
                        mint_total_supply: (old(self).collateral.mint_total_supply + ca) as u64,
                        ..old(self).collateral
                    }),
                    ..*old(self)
                })))
            }),
    {
        let exchange_rate = match self.collateral_exchange_rate() {
            Ok(v) => v,
            Err(e) => {
                return Err(e);
            },
        };
        let collateral_amount = match exchange_rate.liquidity_to_collateral(liquidity_amount) {
            Ok(v) => v,
            Err(e) => {
                return Err(e);
            },
        };
        match self.liquidity.deposit(liquidity_amount) {
            Ok(()) => (),
            Err(e) => {
                return Err(e);
            },
        }
        match self.collateral.mint(collateral_amount) {
            Ok(()) => (),
            Err(e) => {
                return Err(e);
            },
        }
        Ok(collateral_amount)
    }

    /// Record redeemed collateral and return the amount of liquidity to
    /// withdraw for it.  When the withdrawal fails, the collateral has
    /// already been burned; the caller discards the state on any error.
    pub fn redeem_collateral(&mut self, collateral_amount: u64) -> (r: Result<u64, LendingError>)
        ensures
            !spec_reserve_rate_fits(*old(self)) ==> (r == Err::<u64, LendingError>(
                LendingError::MathOverflow,
            ) && *final(self) == *old(self)),
            ({
                let rate = spec_reserve_exchange_rate(*old(self));
                let converted = div_wad((collateral_amount * WAD) as nat, rate);
                let la = round_wad(converted);
                &&& (spec_reserve_rate_fits(*old(self)) && rate == 0 ==> (r == Err::<
                    u64,
                    LendingError,
                >(LendingError::MathOverflow) && *final(self) == *old(self)))
                &&& (spec_reserve_rate_fits(*old(self)) && rate > 0 && converted
                    >= DECIMAL_RAW_CAP ==> (r == Err::<u64, LendingError>(
                    LendingError::MathOverflow,
                ) && *final(self) == *old(self)))
                &&& (spec_reserve_rate_fits(*old(self)) && rate > 0 && converted < DECIMAL_RAW_CAP
                    && la > u64::MAX ==> (r == Err::<u64, LendingError>(LendingError::MathOverflow)
                    && *final(self) == *old(self)))
                &&& (spec_reserve_rate_fits(*old(self)) && rate > 0 && converted < DECIMAL_RAW_CAP
                    && la <= u64::MAX && collateral_amount > old(self).collateral.mint_total_supply ==> (r == Err::<u64, LendingError>(
                    LendingError::MathOverflow,
                ) && *final(self) == *old(self)))
                &&& (spec_reserve_rate_fits(*old(self)) && rate > 0 && converted < DECIMAL_RAW_CAP
                    && la <= u64::MAX && collateral_amount <= old(self).collateral.mint_total_supply && la > old(self).liquidity.available_amount ==> (r
                    == Err::<u64, LendingError>(LendingError::InsufficientLiquidity) && *final(self) == (Reserve {
                    collateral: (ReserveCollateral {
                        mint_total_supply: (old(self).collateral.mint_total_supply
                            - collateral_amount) as u64,
                        ..old(self).collateral
                    }),
                    ..*old(self)
                })))
                &&& (spec_reserve_rate_fits(*old(self)) && rate > 0 && converted < DECIMAL_RAW_CAP
                    && la <= u64::MAX && collateral_amount <= old(self).collateral.mint_total_supply && la <= old(self).liquidity.available_amount ==> (
                r matches Ok(v) && v == la && *final(self) == (Reserve {
                    liquidity: (ReserveLiquidity {
                        available_amount: (old(self).liquidity.available_amount - la) as u64,
                        ..old(self).liquidity
                    }),
                    collateral: (ReserveCollateral {
                        mint_total_supply: (old(self).collateral.mint_total_supply
                            - collateral_amount) as u64,
                        ..old(self).collateral
                    }),
                    ..*old(self)
                })))
            }),
    {
        let exchange_rate = match self.collateral_exchange_rate() {
            Ok(v) => v,
            Err(e) => {
                return Err(e);
            },
        };
        let liquidity_amount = match exchange_rate.collateral_to_liquidity(collateral_amount) {
            Ok(v) => v,
            Err(e) => {
                return Err(e);
            },
        };
        match self.collateral.burn(collateral_amount) {
            Ok(()) => (),
            Err(e) => {
                return Err(e);
            },
        }
        match self.liquidity.withdraw(liquidity_amount) {
            Ok(()) => (),
            Err(e) => {
                return Err(e);
            },
        }
        Ok(liquidity_amount)
    }

    /// Calculate the current borrow rate from the kinked curve.
    pub fn current_borrow_rate(&self) -> (r: Result<Rate, LendingError>)
        ensures
            match spec_borrow_rate_result(*self) {
                Ok(v) => r matches Ok(rate) && rate@ == v,
                Err(e) => r matches Err(e2) && e2 == e,
            },
    {
        let utilization_rate = match self.liquidity.utilization_rate() {
            Ok(v) => v,
            Err(e) => {
                return Err(e);
            },
        };
        proof {
            lemma_utilization_le_one(self.liquidity);
        }
        let optimal_utilization_rate = Rate::from_percent(self.config.optimal_utilization_rate);
        let low_utilization = utilization_rate < optimal_utilization_rate;
        if low_utilization || self.config.optimal_utilization_rate == 100 {
            proof {
                if self.config.optimal_utilization_rate == 100 {
                    assert(optimal_utilization_rate@ == 100 * PERCENT_SCALER);
                }
                lemma_div_wad_le_one(utilization_rate@, optimal_utilization_rate@);
            }
            let normalized_rate = match utilization_rate.try_div(optimal_utilization_rate) {
                Ok(v) => v,
                Err(e) => {
                    return Err(e);
                },
            };
            let min_rate = Rate::from_percent(self.config.min_borrow_rate);
            let rate_spread = match self.config.optimal_borrow_rate.checked_sub(
                self.config.min_borrow_rate,
            ) {
                Some(v) => v,
                None => {
                    return Err(LendingError::MathOverflow);
                },
            };
            let rate_range = Rate::from_percent(rate_spread);
            proof {
                crate::decimal::lemma_mul_wad_comm(normalized_rate@, rate_range@);
                lemma_mul_wad_le_one(rate_range@, normalized_rate@);
            }
            let scaled = match normalized_rate.try_mul(rate_range) {
                Ok(v) => v,
                Err(e) => {
                    return Err(e);
                },
            };
            match scaled.try_add(min_rate) {
                Ok(v) => Ok(v),
                Err(e) => Err(e),
            }
        } else {
            let over = match utilization_rate.try_sub(optimal_utilization_rate) {
                Ok(v) => v,
                Err(e) => {
                    return Err(e);
                },
            };
            let spread_pct = match 100u8.checked_sub(self.config.optimal_utilization_rate) {
                Some(v) => v,
                None => {
                    return Err(LendingError::MathOverflow);
                },
            };
            let denom = Rate::from_percent(spread_pct);
            proof {
                assert(denom@ == (100 - self.config.optimal_utilization_rate) * PERCENT_SCALER);
                assert(over@ <= denom@) by (nonlinear_arith)
                    requires
                        over@ == utilization_rate@ - optimal_utilization_rate@,
                        utilization_rate@ <= WAD,
                        denom@ == (100 - self.config.optimal_utilization_rate) * PERCENT_SCALER,
                        optimal_utilization_rate@ == self.config.optimal_utilization_rate
                            * PERCENT_SCALER,
                        WAD == 100 * PERCENT_SCALER,
                        self.config.optimal_utilization_rate <= 100,
                ;
                lemma_div_wad_le_one(over@, denom@);
            }
            let normalized_rate = match over.try_div(denom) {
                Ok(v) => v,
                Err(e) => {
                    return Err(e);
                },
            };
            let min_rate = Rate::from_percent(self.config.optimal_borrow_rate);
            let rate_spread = match self.config.max_borrow_rate.checked_sub(
                self.config.optimal_borrow_rate,
            ) {
                Some(v) => v,
                None => {
                    return Err(LendingError::MathOverflow);
                },
            };
            let rate_range = Rate::from_percent(rate_spread);
            proof {
                crate::decimal::lemma_mul_wad_comm(normalized_rate@, rate_range@);
                lemma_mul_wad_le_one(rate_range@, normalized_rate@);
            }
            let scaled = match normalized_rate.try_mul(rate_range) {
                Ok(v) => v,
                Err(e) => {
                    return Err(e);
                },
            };
            match scaled.try_add(min_rate) {
                Ok(v) => Ok(v),
                Err(e) => Err(e),
            }
        }
    }

    /// Accrue interest since the last update: grow the cumulative borrow
    /// rate and the debt by the compounded borrow rate over the elapsed
    /// slots.  The staleness bookkeeping is the caller's concern.  When
    /// the debt update overflows, the cumulative rate has already been
    /// advanced; the caller discards the state on any error.
    pub fn accrue_interest(&mut self, current_slot: u64) -> (r: Result<(), LendingError>)
        ensures
            current_slot < old(self).last_update.slot ==> (r == Err::<(), LendingError>(
                LendingError::MathOverflow,
            ) && *final(self) == *old(self)),
            current_slot >= old(self).last_update.slot && current_slot == old(self).last_update.slot ==> (r matches Ok(()) && *final(self) == *old(self)),
            current_slot > old(self).last_update.slot ==> match spec_borrow_rate_result(
                *old(self),
            ) {
                Err(e) => r matches Err(e2) && e2 == e && *final(self) == *old(self),
                Ok(rate) => {
                    let elapsed = (current_slot - old(self).last_update.slot) as nat;
                    match spec_compounded_rate(rate, elapsed) {
                        None => r == Err::<(), LendingError>(LendingError::MathOverflow) && *final(self) == *old(self),
                        Some(c) => {
                            let oldl = old(self).liquidity;
                            &&& (mul_wad(oldl.cumulative_borrow_rate_wads@, c) >= DECIMAL_RAW_CAP
                                ==> (r == Err::<(), LendingError>(LendingError::MathOverflow)
                                && *final(self) == *old(self)))
                            &&& (mul_wad(oldl.cumulative_borrow_rate_wads@, c) < DECIMAL_RAW_CAP
                                && mul_wad(oldl.borrowed_amount_wads@, c) >= DECIMAL_RAW_CAP ==> (r
                                == Err::<(), LendingError>(LendingError::MathOverflow) && *final(self) == (Reserve {
                                liquidity: final(self).liquidity,
                                ..*old(self)
                            }) && final(self).liquidity == (ReserveLiquidity {
                                cumulative_borrow_rate_wads:
                                    final(self).liquidity.cumulative_borrow_rate_wads,
                                ..oldl
                            }) && final(self).liquidity.cumulative_borrow_rate_wads@ == mul_wad(
                                oldl.cumulative_borrow_rate_wads@,
                                c,
                            )))
                            &&& (mul_wad(oldl.cumulative_borrow_rate_wads@, c) < DECIMAL_RAW_CAP
                                && mul_wad(oldl.borrowed_amount_wads@, c) < DECIMAL_RAW_CAP ==> (
                            r matches Ok(()) && *final(self) == (Reserve {
                                liquidity: final(self).liquidity,
                                ..*old(self)
                            }) && final(self).liquidity == (ReserveLiquidity {
                                cumulative_borrow_rate_wads:
                                    final(self).liquidity.cumulative_borrow_rate_wads,
                                borrowed_amount_wads: final(self).liquidity.borrowed_amount_wads,
                                ..oldl
                            }) && final(self).liquidity.cumulative_borrow_rate_wads@ == mul_wad(
                                oldl.cumulative_borrow_rate_wads@,
                                c,
                            ) && final(self).liquidity.borrowed_amount_wads@ == mul_wad(
                                oldl.borrowed_amount_wads@,
                                c,
                            )))
                        },
                    }
                },
            },
    {
        let slots_elapsed = match self.last_update.slots_elapsed(current_slot) {
            Ok(v) => v,
            Err(e) => {
                return Err(e);
            },
        };
        if slots_elapsed > 0 {
            let current_borrow_rate = match self.current_borrow_rate() {
                Ok(v) => v,
                Err(e) => {
                    return Err(e);
                },
            };
            match self.liquidity.compound_interest(current_borrow_rate, slots_elapsed) {
                Ok(()) => (),
                Err(e) => {
                    return Err(e);
                },
            }
        }
        Ok(())
    }
}

/// Result of a borrow computation.
#[derive(Clone, Copy, Debug, PartialEq, Eq)]
pub struct BorrowLiquidityResult {
    /// Total amount of the borrow, including fees.
    pub borrow_amount: Decimal,
    /// Portion of the total that the borrower receives.
    pub receive_amount: u64,
    /// Loan origination fee.
    pub borrow_fee: u64,
    /// Host fee portion of the origination fee.
    pub host_fee: u64,
}

/// Result of a repay computation.
#[derive(Clone, Copy, Debug, PartialEq, Eq)]
pub struct RepayLiquidityResult {
    /// Amount of debt settled against the obligation.
    pub settle_amount: Decimal,
    /// Amount of tokens the borrower transfers in.
    pub repay_amount: u64,
}

/// Result of a liquidation computation.
#[derive(Clone, Copy, Debug, PartialEq, Eq)]
pub struct LiquidateObligationResult {
    /// Amount of debt settled against the obligation; includes the
    /// defaulted remainder when the collateral is depleted.
    pub settle_amount: Decimal,
    /// Amount of tokens the liquidator repays.
    pub repay_amount: u64,
    /// Amount of collateral withdrawn in exchange for the repayment.
    pub withdraw_amount: u64,
}

/// A borrow in max-borrow mode: the requested value is converted to
/// tokens at the reserve's price, clamped to the available liquidity,
/// and charged a fee-inclusive origination fee.  The result is the total
/// debt (raw scaled), the tokens the borrower receives, the origination
/// fee and the host fee.
pub open spec fn spec_borrow_liquidity_max(r: Reserve, max_borrow_value: nat) -> Result<
    (nat, nat, nat, nat),
    LendingError,
> {
    let decimals = crate::decimal::pow10(r.liquidity.mint_decimals as nat);
    if max_borrow_value * decimals >= DECIMAL_RAW_CAP {
        Err(LendingError::MathOverflow)
    } else if r.liquidity.median_price == 0 {
        Err(LendingError::MathOverflow)
    } else {
        let ba = min_nat(
            (max_borrow_value * decimals) / (r.liquidity.median_price as nat),
            (r.liquidity.available_amount * WAD) as nat,
        );
        match spec_calculate_borrow_fees(r.config.fees, ba, FeeCalculation::Inclusive) {
            Err(e) => Err(e),
            Ok(fh) => Ok((ba, (floor_wad(ba) - fh.0) as nat, fh.0, fh.1)),
        }
    }
}

/// A borrow in exact mode: the requested amount is what the borrower
/// receives, the origination fee is added on top, and the resulting
/// total value must stay within the allowance.  The result is the total
/// debt (raw scaled), the tokens received, the origination fee and the
/// host fee.
pub open spec fn spec_borrow_liquidity_exact(
    r: Reserve,
    liquidity_amount: nat,
    max_borrow_value: nat,
) -> Result<(nat, nat, nat, nat), LendingError> {
    let decimals = crate::decimal::pow10(r.liquidity.mint_decimals as nat);
    match spec_calculate_borrow_fees(
        r.config.fees,
        (liquidity_amount * WAD) as nat,
        FeeCalculation::Exclusive,
    ) {
        Err(e) => Err(e),
        Ok(fh) => {
            let ba = (liquidity_amount * WAD + fh.0 * WAD) as nat;
            if ba >= DECIMAL_RAW_CAP {
                Err(LendingError::MathOverflow)
            } else if ba * r.liquidity.median_price >= DECIMAL_RAW_CAP {
                Err(LendingError::MathOverflow)
            } else {
                let bv = ((ba * r.liquidity.median_price) as nat) / decimals;
                if bv > max_borrow_value {
                    Err(LendingError::BorrowTooLarge)
                } else {
                    Ok((ba, liquidity_amount, fh.0, fh.1))
                }
            }
        },
    }
}

/// The bonus-inflated growth factor applied to liquidated value:
/// one plus the liquidation bonus.
pub open spec fn spec_bonus_rate(config: ReserveConfig) -> nat {
    (config.liquidation_bonus * PERCENT_SCALER + WAD) as nat
}

/// The debt a liquidation call aims to settle: everything owed for the
/// `u64::MAX` sentinel, otherwise the requested amount capped at the
/// debt (raw scaled values).
pub open spec fn spec_liquidate_target(liquidity_amount: nat, borrowed: nat) -> nat {
    if liquidity_amount == u64::MAX {
        borrowed
    } else {
        min_nat((liquidity_amount * WAD) as nat, borrowed)
    }
}

/// Close-out of a dust position: the whole debt is settled in one shot.
/// The bonus-inflated value of the debt is compared against the value of
/// the collateral; whichever side is short is paid out in full and the
/// other side is scaled down proportionally.  The result is
/// `(settle, repay, withdraw)`.
pub open spec fn spec_liquidate_dust(
    r: Reserve,
    target: nat,
    liquidity: ObligationLiquidity,
    collateral: ObligationCollateral,
) -> Result<(nat, nat, nat), LendingError> {
    let settle = liquidity.borrowed_amount_wads@;
    if mul_wad(liquidity.market_value@, spec_bonus_rate(r.config)) >= DECIMAL_RAW_CAP {
        Err(LendingError::MathOverflow)
    } else {
        let lv = mul_wad(liquidity.market_value@, spec_bonus_rate(r.config));
        if lv > collateral.market_value@ {
            let repay_pct = div_wad(collateral.market_value@, lv);
            let scaled = mul_wad(target, repay_pct);
            if ceil_wad(scaled) > u64::MAX {
                Err(LendingError::MathOverflow)
            } else {
                Ok((settle, ceil_wad(scaled), collateral.deposited_amount as nat))
            }
        } else if lv == collateral.market_value@ {
            if ceil_wad(target) > u64::MAX {
                Err(LendingError::MathOverflow)
            } else {
                Ok((settle, ceil_wad(target), collateral.deposited_amount as nat))
            }
        } else {
            let withdraw_pct = div_wad(lv, collateral.market_value@);
            let withdraw = ceil_wad(mul_wad((collateral.deposited_amount * WAD) as nat,
            withdraw_pct));
            if ceil_wad(target) > u64::MAX {
                Err(LendingError::MathOverflow)
            } else {
                Ok((settle, ceil_wad(target), withdraw))
            }
        }
    }
}

/// Liquidation of a position above the dust threshold: the amount to
/// liquidate is capped by the obligation-wide close factor, its
/// bonus-inflated value is compared against the collateral's value, and
/// the short side is paid in full while the other is scaled down.  The
/// result is `(settle, repay, withdraw)`.
pub open spec fn spec_liquidate_normal(
    r: Reserve,
    target: nat,
    obligation: Obligation,
    liquidity: ObligationLiquidity,
    collateral: ObligationCollateral,
) -> Result<(nat, nat, nat), LendingError> {
    if liquidity.market_value@ == 0 {
        Err(LendingError::MathOverflow)
    } else {
        let liquidation_amount = min_nat(
            spec_max_liquidation_amount(
                obligation.borrowed_value@,
                liquidity.borrowed_amount_wads@,
                liquidity.market_value@,
            ),
            target,
        );
        let liquidation_pct = div_wad(liquidation_amount, liquidity.borrowed_amount_wads@);
        let lv1 = mul_wad(liquidity.market_value@, liquidation_pct);
        if mul_wad(lv1, spec_bonus_rate(r.config)) >= DECIMAL_RAW_CAP {
            Err(LendingError::MathOverflow)
        } else {
            let lv = mul_wad(lv1, spec_bonus_rate(r.config));
            if lv > collateral.market_value@ {
                let repay_pct = div_wad(collateral.market_value@, lv);
                let settle = mul_wad(liquidation_amount, repay_pct);
                if ceil_wad(settle) > u64::MAX {
                    Err(LendingError::MathOverflow)
                } else {
                    Ok((settle, ceil_wad(settle), collateral.deposited_amount as nat))
                }
            } else if lv == collateral.market_value@ {
                if ceil_wad(liquidation_amount) > u64::MAX {
                    Err(LendingError::MathOverflow)
                } else {
                    Ok((
                        liquidation_amount,
                        ceil_wad(liquidation_amount),
                        collateral.deposited_amount as nat,
                    ))
                }
            } else {
                let withdraw_pct = div_wad(lv, collateral.market_value@);
                let withdraw = ceil_wad(mul_wad((collateral.deposited_amount * WAD) as nat,
                withdraw_pct));
                if ceil_wad(liquidation_amount) > u64::MAX {
                    Err(LendingError::MathOverflow)
                } else {
                    Ok((liquidation_amount, ceil_wad(liquidation_amount), withdraw))
                }
            }
        }
    }
}

/// The full liquidation computation: the dust close-out below the
/// close-out threshold, the close-factor-capped path above it.
pub open spec fn spec_liquidate_obligation(
    r: Reserve,
    liquidity_amount: nat,
    obligation: Obligation,
    liquidity: ObligationLiquidity,
    collateral: ObligationCollateral,
) -> Result<(nat, nat, nat), LendingError> {
    let target = spec_liquidate_target(liquidity_amount, liquidity.borrowed_amount_wads@);
    if liquidity.borrowed_amount_wads@ < LIQUIDATION_CLOSE_AMOUNT * WAD {
        spec_liquidate_dust(r, target, liquidity, collateral)
    } else {
        spec_liquidate_normal(r, target, obligation, liquidity, collateral)
    }
}

impl Reserve {
    /// Borrow liquidity up to a maximum market value.  The `u64::MAX`
    /// sentinel means "borrow as much as the allowance permits", with
    /// the fee taken out of the borrowed amount; any other amount is
    /// exactly what the borrower receives, with the fee added on top.
    pub fn borrow_liquidity(&self, liquidity_amount: u64, max_borrow_value: Decimal) -> (r: Result<
        BorrowLiquidityResult,
        LendingError,
    >)
        ensures
            crate::decimal::pow10(self.liquidity.mint_decimals as nat) > u64::MAX ==> r == Err::<
                BorrowLiquidityResult,
                LendingError,
            >(LendingError::MathOverflow),
            crate::decimal::pow10(self.liquidity.mint_decimals as nat) <= u64::MAX ==> ({
                let s = if liquidity_amount == u64::MAX {
                    spec_borrow_liquidity_max(*self, max_borrow_value@)
                } else {
                    spec_borrow_liquidity_exact(*self, liquidity_amount as nat, max_borrow_value@)
                };
                match s {
                    Ok(t) => r matches Ok(res) && res.borrow_amount@ == t.0 && res.receive_amount
                        == t.1 && res.borrow_fee == t.2 && res.host_fee == t.3,
                    Err(e) => r matches Err(e2) && e2 == e,
                }
            }),
    {
        proof {
            use_type_invariant(max_borrow_value);
        }
        let mut decimals: u64 = 1;
        let mut i: u8 = 0;
        while i < self.liquidity.mint_decimals
            invariant
                i <= self.liquidity.mint_decimals,
                decimals == crate::decimal::pow10(i as nat),
            decreases self.liquidity.mint_decimals - i,
        {
            let ghost i0 = i as nat;
            match decimals.checked_mul(10) {
                Some(d) => {
                    decimals = d;
                },
                None => {
                    proof {
                        crate::decimal::lemma_pow10_le(
                            (i0 + 1) as nat,
                            self.liquidity.mint_decimals as nat,
                        );
                    }
                    return Err(LendingError::MathOverflow);
                },
            }
            i = i + 1;
        }
        if liquidity_amount == u64::MAX {
            let valued = match max_borrow_value.try_mul_u64(decimals) {
                Ok(v) => v,
                Err(e) => {
                    return Err(e);
                },
            };
            let priced = match valued.try_div_u64(self.liquidity.median_price) {
                Ok(v) => v,
                Err(e) => {
                    return Err(e);
                },
            };
            let borrow_amount = priced.min(Decimal::from_u64(self.liquidity.available_amount));
            let (origination_fee, host_fee) = match self.config.fees.calculate_borrow_fees(
                borrow_amount,
                FeeCalculation::Inclusive,
            ) {
                Ok(v) => v,
                Err(e) => {
                    return Err(e);
                },
            };
            let floored = match borrow_amount.try_floor_u64() {
                Ok(v) => v,
                Err(e) => {
                    return Err(e);
                },
            };
            proof {
                if origination_fee > 0 {
                    crate::decimal::lemma_floor_wad_ge(origination_fee as nat, borrow_amount@);
                }
            }
            let receive_amount = match floored.checked_sub(origination_fee) {
                Some(v) => v,
                None => {
                    return Err(LendingError::MathOverflow);
                },
            };
            Ok(BorrowLiquidityResult {
                borrow_amount,
                receive_amount,
                borrow_fee: origination_fee,
                host_fee,
            })
        } else {
            let receive_amount = liquidity_amount;
            let borrow_amount = Decimal::from_u64(receive_amount);
            let (borrow_fee, host_fee) = match self.config.fees.calculate_borrow_fees(
                borrow_amount,
                FeeCalculation::Exclusive,
            ) {
                Ok(v) => v,
                Err(e) => {
                    return Err(e);
                },
            };
            let borrow_amount = match borrow_amount.try_add(Decimal::from_u64(borrow_fee)) {
                Ok(v) => v,
                Err(e) => {
                    return Err(e);
                },
            };
            let valued = match borrow_amount.try_mul_u64(self.liquidity.median_price) {
                Ok(v) => v,
                Err(e) => {
                    return Err(e);
                },
            };
            proof {
                crate::decimal::lemma_pow10_pos(self.liquidity.mint_decimals as nat);
            }
            let borrow_value = match valued.try_div_u64(decimals) {
                Ok(v) => v,
                Err(e) => {
                    return Err(e);
                },
            };
            if borrow_value > max_borrow_value {
                return Err(LendingError::BorrowTooLarge);
            }
            Ok(BorrowLiquidityResult { borrow_amount, receive_amount, borrow_fee, host_fee })
        }
    }

    /// Repay liquidity up to the borrowed amount.  The `u64::MAX`
    /// sentinel means "repay everything owed".  A full payoff rounds the
    /// transfer up so the debt reaches exactly zero; a partial repayment
    /// rounds down so the borrower is never overcharged.
    pub fn repay_liquidity(&self, liquidity_amount: u64, borrow_amount: Decimal) -> (r: Result<
        RepayLiquidityResult,
        LendingError,
    >)
        ensures
            ({
                let settle = spec_liquidate_target(liquidity_amount as nat, borrow_amount@);
                &&& (settle == borrow_amount@ && ceil_wad(settle) > u64::MAX ==> r == Err::<
                    RepayLiquidityResult,
                    LendingError,
                >(LendingError::MathOverflow))
                &&& (settle == borrow_amount@ && ceil_wad(settle) <= u64::MAX ==> (r matches Ok(
                    res,
                ) && res.settle_amount@ == settle && res.repay_amount == ceil_wad(settle)))
                &&& (settle != borrow_amount@ ==> (r matches Ok(res) && res.settle_amount@
                    == settle && res.repay_amount == floor_wad(settle)))
            }),
    {
        let settle_amount = if liquidity_amount == u64::MAX {
            borrow_amount
        } else {
            Decimal::from_u64(liquidity_amount).min(borrow_amount)
        };
        let repay_amount = if settle_amount == borrow_amount {
            match settle_amount.try_ceil_u64() {
                Ok(v) => v,
                Err(e) => {
                    return Err(e);
                },
            }
        } else {
            match settle_amount.try_floor_u64() {
                Ok(v) => v,
                Err(e) => {
                    return Err(e);
                },
            }
        };
        Ok(RepayLiquidityResult { settle_amount, repay_amount })
    }

    /// Liquidate some or all of an unhealthy obligation.  Whether the
    /// position is checked as unhealthy is the caller's concern.  The
    /// collateral withdrawn never exceeds what was deposited, and the
    /// repayment never exceeds the debt rounded up.
    pub fn liquidate_obligation(
        &self,
        liquidity_amount: u64,
        obligation: &Obligation,
        liquidity: &ObligationLiquidity,
        collateral: &ObligationCollateral,
    ) -> (r: Result<LiquidateObligationResult, LendingError>)
        ensures
            match spec_liquidate_obligation(
                *self,
                liquidity_amount as nat,
                *obligation,
                *liquidity,
                *collateral,
            ) {
                Ok(t) => r matches Ok(res) && res.settle_amount@ == t.0 && res.repay_amount == t.1
                    && res.withdraw_amount == t.2 && res.withdraw_amount
                    <= collateral.deposited_amount && res.repay_amount <= ceil_wad(
                    liquidity.borrowed_amount_wads@,
                ),
                Err(e) => r matches Err(e2) && e2 == e,
            },
    {
        proof {
            use_type_invariant(liquidity.borrowed_amount_wads);
            vstd::arithmetic::mul::lemma_mul_inequality(
                self.config.liquidation_bonus as int,
                u8::MAX as int,
                PERCENT_SCALER as int,
            );
        }
        let bonus_rate = match Rate::from_percent(self.config.liquidation_bonus).try_add(
            Rate::one(),
        ) {
            Ok(v) => v,
            Err(e) => {
                return Err(e);
            },
        };
        let target_amount = if liquidity_amount == u64::MAX {
            liquidity.borrowed_amount_wads
        } else {
            Decimal::from_u64(liquidity_amount).min(liquidity.borrowed_amount_wads)
        };
        let (settle_amount, repay_amount, withdraw_amount) = if liquidity.borrowed_amount_wads
            < Decimal::from_u64(LIQUIDATION_CLOSE_AMOUNT) {
            match self.liquidate_dust(target_amount, bonus_rate, liquidity, collateral) {
                Ok(v) => v,
                Err(e) => {
                    return Err(e);
                },
            }
        } else {
            match self.liquidate_normal(target_amount, bonus_rate, obligation, liquidity,
            collateral) {
                Ok(v) => v,
                Err(e) => {
                    return Err(e);
                },
            }
        };
        Ok(LiquidateObligationResult { settle_amount, repay_amount, withdraw_amount })
    }

    /// Close out an obligation that is too small to liquidate normally:
    /// the whole debt is settled in one shot.
    fn liquidate_dust(
        &self,
        target_amount: Decimal,
        bonus_rate: Rate,
        liquidity: &ObligationLiquidity,
        collateral: &ObligationCollateral,
    ) -> (r: Result<(Decimal, u64, u64), LendingError>)
        requires
            bonus_rate@ == spec_bonus_rate(self.config),
            target_amount@ <= liquidity.borrowed_amount_wads@,
        ensures
            match spec_liquidate_dust(*self, target_amount@, *liquidity, *collateral) {
                Ok(t) => r matches Ok(res) && res.0@ == t.0 && res.1 == t.1 && res.2 == t.2
                    && res.2 <= collateral.deposited_amount && res.1 <= ceil_wad(
                    liquidity.borrowed_amount_wads@,
                ),
                Err(e) => r matches Err(e2) && e2 == e,
            },
    {
        proof {
            use_type_invariant(liquidity.borrowed_amount_wads);
            use_type_invariant(liquidity.market_value);
            use_type_invariant(collateral.market_value);
        }
        {
            let settle_amount = liquidity.borrowed_amount_wads;
            let liquidation_value = match liquidity.market_value.try_mul(bonus_rate.to_decimal()) {
                Ok(v) => v,
                Err(e) => {
                    return Err(e);
                },
            };
            if liquidation_value > collateral.market_value {
                proof {
                    lemma_div_wad_le_one(collateral.market_value@, liquidation_value@);
                }
                let repay_pct = match collateral.market_value.try_div(liquidation_value) {
                    Ok(v) => v,
                    Err(e) => {
                        return Err(e);
                    },
                };
                proof {
                    lemma_mul_wad_le_one(target_amount@, repay_pct@);
                }
                let scaled = match target_amount.try_mul(repay_pct) {
                    Ok(v) => v,
                    Err(e) => {
                        return Err(e);
                    },
                };
                let repay_amount = match scaled.try_ceil_u64() {
                    Ok(v) => v,
                    Err(e) => {
                        return Err(e);
                    },
                };
                proof {
                    crate::decimal::lemma_ceil_wad_ordered(scaled@, target_amount@);
                    crate::decimal::lemma_ceil_wad_ordered(
                        target_amount@,
                        liquidity.borrowed_amount_wads@,
                    );
                }
                Ok((settle_amount, repay_amount, collateral.deposited_amount))
            } else if liquidation_value == collateral.market_value {
                let repay_amount = match target_amount.try_ceil_u64() {
                    Ok(v) => v,
                    Err(e) => {
                        return Err(e);
                    },
                };
                proof {
                    crate::decimal::lemma_ceil_wad_ordered(
                        target_amount@,
                        liquidity.borrowed_amount_wads@,
                    );
                }
                Ok((settle_amount, repay_amount, collateral.deposited_amount))
            } else {
                proof {
                    lemma_div_wad_le_one(liquidation_value@, collateral.market_value@);
                }
                let withdraw_pct = match liquidation_value.try_div(collateral.market_value) {
                    Ok(v) => v,
                    Err(e) => {
                        return Err(e);
                    },
                };
                let repay_amount = match target_amount.try_ceil_u64() {
                    Ok(v) => v,
                    Err(e) => {
                        return Err(e);
                    },
                };
                proof {
                    crate::decimal::lemma_ceil_wad_ordered(
                        target_amount@,
                        liquidity.borrowed_amount_wads@,
                    );
                    vstd::arithmetic::mul::lemma_mul_inequality(
                        collateral.deposited_amount as int,
                        u64::MAX as int,
                        WAD as int,
                    );
                    lemma_mul_wad_le_one(
                        (collateral.deposited_amount * WAD) as nat,
                        withdraw_pct@,
                    );
                    crate::decimal::lemma_ceil_wad_le(
                        mul_wad((collateral.deposited_amount * WAD) as nat, withdraw_pct@),
                        collateral.deposited_amount as nat,
                    );
                }
                let scaled = match Decimal::from_u64(collateral.deposited_amount).try_mul(
                    withdraw_pct,
                ) {
                    Ok(v) => v,
                    Err(e) => {
                        return Err(e);
                    },
                };
                let withdraw_amount = match scaled.try_ceil_u64() {
                    Ok(v) => v,
                    Err(e) => {
                        return Err(e);
                    },
                };
                Ok((settle_amount, repay_amount, withdraw_amount))
            }
        }
    }

    /// Liquidate a position above the dust threshold: the amount is
    /// capped by the obligation-wide close factor before the
    /// bonus-inflated value is weighed against the collateral.
    fn liquidate_normal(
        &self,
        target_amount: Decimal,
        bonus_rate: Rate,
        obligation: &Obligation,
        liquidity: &ObligationLiquidity,
        collateral: &ObligationCollateral,
    ) -> (r: Result<(Decimal, u64, u64), LendingError>)
        requires
            bonus_rate@ == spec_bonus_rate(self.config),
            target_amount@ <= liquidity.borrowed_amount_wads@,
            liquidity.borrowed_amount_wads@ >= LIQUIDATION_CLOSE_AMOUNT * WAD,
        ensures
            match spec_liquidate_normal(
                *self,
                target_amount@,
                *obligation,
                *liquidity,
                *collateral,
            ) {
                Ok(t) => r matches Ok(res) && res.0@ == t.0 && res.1 == t.1 && res.2 == t.2
                    && res.2 <= collateral.deposited_amount && res.1 <= ceil_wad(
                    liquidity.borrowed_amount_wads@,
                ),
                Err(e) => r matches Err(e2) && e2 == e,
            },
    {
        proof {
            use_type_invariant(liquidity.borrowed_amount_wads);
            use_type_invariant(liquidity.market_value);
            use_type_invariant(collateral.market_value);
            use_type_invariant(obligation.borrowed_value);
        }
        {
            let max_amount = match obligation.max_liquidation_amount(liquidity) {
                Ok(v) => v,
                Err(e) => {
                    return Err(e);
                },
            };
            let liquidation_amount = max_amount.min(target_amount);
            proof {
                lemma_div_wad_le_one(liquidation_amount@, liquidity.borrowed_amount_wads@);
            }
            let liquidation_pct = match liquidation_amount.try_div(
                liquidity.borrowed_amount_wads,
            ) {
                Ok(v) => v,
                Err(e) => {
                    return Err(e);
                },
            };
            proof {
                lemma_mul_wad_le_one(liquidity.market_value@, liquidation_pct@);
            }
            let value_share = match liquidity.market_value.try_mul(liquidation_pct) {
                Ok(v) => v,
                Err(e) => {
                    return Err(e);
                },
            };
            let liquidation_value = match value_share.try_mul(bonus_rate.to_decimal()) {
                Ok(v) => v,
                Err(e) => {
                    return Err(e);
                },
            };
            let (settle_amount, withdraw_amount) = if liquidation_value > collateral.market_value {
                proof {
                    lemma_div_wad_le_one(collateral.market_value@, liquidation_value@);
                }
                let repay_pct = match collateral.market_value.try_div(liquidation_value) {
                    Ok(v) => v,
                    Err(e) => {
                        return Err(e);
                    },
                };
                proof {
                    lemma_mul_wad_le_one(liquidation_amount@, repay_pct@);
                }
                let settle_amount = match liquidation_amount.try_mul(repay_pct) {
                    Ok(v) => v,
                    Err(e) => {
                        return Err(e);
                    },
                };
                (settle_amount, collateral.deposited_amount)
            } else if liquidation_value == collateral.market_value {
                (liquidation_amount, collateral.deposited_amount)
            } else {
                proof {
                    lemma_div_wad_le_one(liquidation_value@, collateral.market_value@);
                }
                let withdraw_pct = match liquidation_value.try_div(collateral.market_value) {
                    Ok(v) => v,
                    Err(e) => {
                        return Err(e);
                    },
                };
                proof {
                    vstd::arithmetic::mul::lemma_mul_inequality(
                        collateral.deposited_amount as int,
                        u64::MAX as int,
                        WAD as int,
                    );
                    lemma_mul_wad_le_one(
                        (collateral.deposited_amount * WAD) as nat,
                        withdraw_pct@,
                    );
                    crate::decimal::lemma_ceil_wad_le(
                        mul_wad((collateral.deposited_amount * WAD) as nat, withdraw_pct@),
                        collateral.deposited_amount as nat,
                    );
                }
                let scaled = match Decimal::from_u64(collateral.deposited_amount).try_mul(
                    withdraw_pct,
                ) {
                    Ok(v) => v,
                    Err(e) => {
                        return Err(e);
                    },
                };
                let withdraw_amount = match scaled.try_ceil_u64() {
                    Ok(v) => v,
                    Err(e) => {
                        return Err(e);
                    },
                };
                (liquidation_amount, withdraw_amount)
            };
            let repay_amount = match settle_amount.try_ceil_u64() {
                Ok(v) => v,
                Err(e) => {
                    return Err(e);
                },
            };
            proof {
                crate::decimal::lemma_ceil_wad_ordered(settle_amount@, liquidation_amount@);
                crate::decimal::lemma_ceil_wad_ordered(
                    liquidation_amount@,
                    liquidity.borrowed_amount_wads@,
                );
            }
            Ok((settle_amount, repay_amount, withdraw_amount))
        }
    }
}

} // verus!
