//! Tests for reserve accounting: exchange rate, utilization, the
//! borrow-rate curve, interest accrual, and fees.

use lending_core::decimal::{Decimal, WAD};
use lending_core::error::LendingError;
use lending_core::pubkey::Pubkey;
use lending_core::rate::Rate;
use lending_core::reserve::{
    FeeCalculation, InitReserveParams, NewReserveCollateralParams, NewReserveLiquidityParams,
    Reserve, ReserveCollateral, ReserveConfig, ReserveFees, ReserveLiquidity, INITIAL_COLLATERAL_RATE,
    PROGRAM_VERSION,
};

fn key(tag: u8) -> Pubkey {
    Pubkey::new_from_array([tag; 32])
}

fn test_config() -> ReserveConfig {
    ReserveConfig {
        optimal_utilization_rate: 80,
        min_borrow_rate: 2,
        optimal_borrow_rate: 8,
        max_borrow_rate: 30,
        loan_to_value_ratio: 50,
        liquidation_threshold: 55,
        liquidation_bonus: 5,
        fees: ReserveFees { borrow_fee_wad: 10_000_000_000_000_000, host_fee_percentage: 0 },
    }
}

fn test_liquidity(available: u64, borrowed: Decimal) -> ReserveLiquidity {
    let mut liquidity = ReserveLiquidity::new(NewReserveLiquidityParams {
        mint_pubkey: key(1),
        mint_decimals: 0,
        supply_pubkey: key(2),
        fee_receiver: key(3),
        aggregator: None,
        median_price: 1,
    });
    liquidity.available_amount = available;
    liquidity.borrowed_amount_wads = borrowed;
    liquidity
}

fn test_reserve(liquidity: ReserveLiquidity, config: ReserveConfig) -> Reserve {
    Reserve::new(InitReserveParams {
        current_slot: 0,
        lending_market: key(4),
        liquidity,
        collateral: ReserveCollateral::new(NewReserveCollateralParams {
            mint_pubkey: key(5),
            supply_pubkey: key(6),
        }),
        config,
    })
}

#[test]
fn new_reserve_starts_versioned_and_stale() {
    let reserve = test_reserve(test_liquidity(0, Decimal::zero()), test_config());
    assert_eq!(reserve.version, PROGRAM_VERSION);
    assert!(reserve.last_update.stale);
    assert_eq!(reserve.liquidity.cumulative_borrow_rate_wads, Decimal::one());
}

#[test]
fn exchange_rate_bootstrap() {
    // Zero collateral supply and zero liquidity: the fixed initial rate.
    let reserve = test_reserve(test_liquidity(0, Decimal::zero()), test_config());
    let rate = reserve.collateral_exchange_rate().unwrap();
    // 5 collateral tokens per liquidity token at bootstrap.
    assert_eq!(rate.liquidity_to_collateral(1000), Ok(5000));
    assert_eq!(INITIAL_COLLATERAL_RATE, 5 * WAD);
}

#[test]
fn exchange_rate_round_trips_within_one_unit() {
    let mut reserve = test_reserve(test_liquidity(0, Decimal::zero()), test_config());
    let minted = reserve.deposit_liquidity(1_000_000).unwrap();
    assert_eq!(minted, 5_000_000);
    let rate = reserve.collateral_exchange_rate().unwrap();
    let back = rate.collateral_to_liquidity(minted).unwrap();
    assert!(back >= 1_000_000 - 1 && back <= 1_000_000 + 1);
}

#[test]
fn utilization_of_empty_pool_is_zero() {
    let liquidity = test_liquidity(0, Decimal::zero());
    assert_eq!(liquidity.utilization_rate(), Ok(Rate::zero()));
}

#[test]
fn utilization_half_borrowed() {
    let liquidity = test_liquidity(50, Decimal::from_u64(50));
    assert_eq!(liquidity.utilization_rate(), Ok(Rate::from_percent(50)));
}

#[test]
fn borrow_rate_at_kink_uses_optimal_rate() {
    // Utilization exactly at the 80% optimum: the above-kink branch is
    // taken, and continuity gives exactly the optimal borrow rate.
    let reserve = test_reserve(test_liquidity(20, Decimal::from_u64(80)), test_config());
    assert_eq!(reserve.current_borrow_rate(), Ok(Rate::from_percent(8)));
}

#[test]
fn borrow_rate_at_full_utilization_with_optimal_hundred() {
    // With the optimum at 100%, only the below-kink branch exists; at
    // utilization 100% it evaluates to the optimal rate as well.
    let mut config = test_config();
    config.optimal_utilization_rate = 100;
    let reserve = test_reserve(test_liquidity(0, Decimal::from_u64(100)), config);
    assert_eq!(reserve.current_borrow_rate(), Ok(Rate::from_percent(8)));
}

#[test]
fn borrow_rate_below_kink_interpolates() {
    // Utilization 40%, optimum 80%: halfway along the lower segment,
    // rate = 2% + (40/80) * (8% - 2%) = 5%.
    let reserve = test_reserve(test_liquidity(60, Decimal::from_u64(40)), test_config());
    assert_eq!(reserve.current_borrow_rate(), Ok(Rate::from_percent(5)));
}

#[test]
fn borrow_rate_above_kink_interpolates() {
    // Utilization 90%, optimum 80%: halfway along the upper segment,
    // rate = 8% + ((90-80)/(100-80)) * (30% - 8%) = 19%.
    let reserve = test_reserve(test_liquidity(10, Decimal::from_u64(90)), test_config());
    assert_eq!(reserve.current_borrow_rate(), Ok(Rate::from_percent(19)));
}

#[test]
fn accrue_interest_compounds_per_slot() {
    // 10% annual rate over a tenth of a year: close to 1% growth, a bit
    // more because of per-slot compounding, never exactly 1%.
    let mut config = test_config();
    config.optimal_utilization_rate = 100;
    config.min_borrow_rate = 10;
    config.optimal_borrow_rate = 10;
    config.max_borrow_rate = 10;
    let mut reserve = test_reserve(test_liquidity(0, Decimal::from_u64(1_000_000)), config);
    reserve.accrue_interest(6_307_200).unwrap();
    let owed = reserve.liquidity.borrowed_amount_wads.try_floor_u64().unwrap();
    assert!(owed > 1_010_000, "per-slot compounding beats simple interest: {owed}");
    assert!(owed < 1_010_100, "growth stays near one percent: {owed}");
    let cumulative = reserve.liquidity.cumulative_borrow_rate_wads.to_scaled_val();
    assert!(cumulative > WAD as u128);
}

#[test]
fn accrue_interest_same_slot_is_noop() {
    let mut reserve = test_reserve(test_liquidity(40, Decimal::from_u64(60)), test_config());
    let before = reserve.liquidity.borrowed_amount_wads;
    reserve.accrue_interest(0).unwrap();
    assert_eq!(reserve.liquidity.borrowed_amount_wads, before);
}

#[test]
fn fees_exclusive_one_percent() {
    let fees = ReserveFees { borrow_fee_wad: 10_000_000_000_000_000, host_fee_percentage: 0 };
    let (fee, host) =
        fees.calculate_borrow_fees(Decimal::from_u64(10_000), FeeCalculation::Exclusive).unwrap();
    assert_eq!(fee, 100);
    assert_eq!(host, 0);
}

#[test]
fn fees_host_share() {
    let fees = ReserveFees { borrow_fee_wad: 10_000_000_000_000_000, host_fee_percentage: 20 };
    let (fee, host) =
        fees.calculate_borrow_fees(Decimal::from_u64(10_000), FeeCalculation::Exclusive).unwrap();
    assert_eq!(fee, 100);
    assert_eq!(host, 20);
}

#[test]
fn fees_minimum_floor_applies() {
    // A tiny borrow with a nonzero fee rate still pays one token.
    let fees = ReserveFees { borrow_fee_wad: 10_000_000_000_000_000, host_fee_percentage: 0 };
    let (fee, host) =
        fees.calculate_borrow_fees(Decimal::from_u64(10), FeeCalculation::Exclusive).unwrap();
    assert_eq!(fee, 1);
    assert_eq!(host, 0);
}

#[test]
fn fees_that_swallow_the_borrow_fail() {
    let fees = ReserveFees { borrow_fee_wad: WAD, host_fee_percentage: 0 };
    assert_eq!(
        fees.calculate_borrow_fees(Decimal::from_u64(1), FeeCalculation::Exclusive),
        Err(LendingError::BorrowTooSmall)
    );
}

#[test]
fn fees_zero_rate_charges_nothing() {
    let fees = ReserveFees { borrow_fee_wad: 0, host_fee_percentage: 10 };
    assert_eq!(
        fees.calculate_borrow_fees(Decimal::from_u64(10_000), FeeCalculation::Exclusive),
        Ok((0, 0))
    );
}

#[test]
fn borrow_exact_mode_adds_fee_on_top() {
    let mut liquidity = test_liquidity(1_000_000, Decimal::zero());
    liquidity.median_price = 1;
    let reserve = test_reserve(liquidity, test_config());
    let result = reserve.borrow_liquidity(10_000, Decimal::from_u64(20_000)).unwrap();
    assert_eq!(result.receive_amount, 10_000);
    assert_eq!(result.borrow_fee, 100);
    assert_eq!(result.borrow_amount, Decimal::from_u64(10_100));
}

#[test]
fn borrow_max_mode_takes_fee_from_amount() {
    let mut liquidity = test_liquidity(1_000_000, Decimal::zero());
    liquidity.median_price = 1;
    let reserve = test_reserve(liquidity, test_config());
    let result = reserve.borrow_liquidity(u64::MAX, Decimal::from_u64(10_100)).unwrap();
    assert_eq!(result.borrow_amount, Decimal::from_u64(10_100));
    assert_eq!(result.borrow_fee, 100);
    assert_eq!(result.receive_amount, 10_000);
}

#[test]
fn borrow_too_large_is_rejected() {
    let mut liquidity = test_liquidity(1_000_000, Decimal::zero());
    liquidity.median_price = 1;
    let reserve = test_reserve(liquidity, test_config());
    assert_eq!(
        reserve.borrow_liquidity(10_000, Decimal::from_u64(5_000)),
        Err(LendingError::BorrowTooLarge)
    );
}

#[test]
fn withdraw_more_than_available_fails() {
    let mut liquidity = test_liquidity(10, Decimal::zero());
    assert_eq!(liquidity.withdraw(11), Err(LendingError::InsufficientLiquidity));
    assert_eq!(liquidity.available_amount, 10);
    assert_eq!(liquidity.withdraw(10), Ok(()));
    assert_eq!(liquidity.available_amount, 0);
}

#[test]
fn borrow_more_than_available_fails() {
    let mut liquidity = test_liquidity(10, Decimal::zero());
    assert_eq!(
        liquidity.borrow(Decimal::from_u64(11)),
        Err(LendingError::InsufficientLiquidity)
    );
}

#[test]
fn deposit_overflow_fails() {
    let mut liquidity = test_liquidity(u64::MAX, Decimal::zero());
    assert_eq!(liquidity.deposit(1), Err(LendingError::MathOverflow));
    assert_eq!(liquidity.available_amount, u64::MAX);
}

#[test]
fn redeem_returns_deposited_liquidity() {
    let mut reserve = test_reserve(test_liquidity(0, Decimal::zero()), test_config());
    let minted = reserve.deposit_liquidity(1_000).unwrap();
    assert_eq!(minted, 5_000);
    let withdrawn = reserve.redeem_collateral(minted).unwrap();
    assert_eq!(withdrawn, 1_000);
    assert_eq!(reserve.liquidity.available_amount, 0);
    assert_eq!(reserve.collateral.mint_total_supply, 0);
}
