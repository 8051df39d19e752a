//! Tests for repayment settlement and the liquidation engine.

use lending_core::decimal::Decimal;
use lending_core::error::LendingError;
use lending_core::obligation::{Obligation, ObligationCollateral, ObligationLiquidity};
use lending_core::pubkey::Pubkey;
use lending_core::reserve::{
    InitReserveParams, NewReserveCollateralParams, NewReserveLiquidityParams, Reserve,
    ReserveCollateral, ReserveConfig, ReserveFees, ReserveLiquidity,
};

fn key(tag: u8) -> Pubkey {
    Pubkey::new_from_array([tag; 32])
}

fn reserve_with_bonus(liquidation_bonus: u8) -> Reserve {
    Reserve::new(InitReserveParams {
        current_slot: 0,
        lending_market: key(4),
        liquidity: ReserveLiquidity::new(NewReserveLiquidityParams {
            mint_pubkey: key(1),
            mint_decimals: 0,
            supply_pubkey: key(2),
            fee_receiver: key(3),
            aggregator: None,
            median_price: 1,
        }),
        collateral: ReserveCollateral::new(NewReserveCollateralParams {
            mint_pubkey: key(5),
            supply_pubkey: key(6),
        }),
        config: ReserveConfig {
            optimal_utilization_rate: 80,
            min_borrow_rate: 2,
            optimal_borrow_rate: 8,
            max_borrow_rate: 30,
            loan_to_value_ratio: 50,
            liquidation_threshold: 55,
            liquidation_bonus,
            fees: ReserveFees { borrow_fee_wad: 0, host_fee_percentage: 0 },
        },
    })
}

fn borrowed_position(borrowed: Decimal, market_value: Decimal) -> ObligationLiquidity {
    ObligationLiquidity {
        borrow_reserve: key(7),
        cumulative_borrow_rate_wads: Decimal::one(),
        borrowed_amount_wads: borrowed,
        market_value,
    }
}

fn collateral_position(deposited: u64, market_value: Decimal) -> ObligationCollateral {
    ObligationCollateral { deposit_reserve: key(8), deposited_amount: deposited, market_value }
}

#[test]
fn repay_full_with_sentinel_rounds_up_and_clears_debt() {
    let reserve = reserve_with_bonus(5);
    // 12345.6789 owed
    let owed = Decimal::from_scaled_val(12_345_678_900_000_000_000_000);
    let result = reserve.repay_liquidity(u64::MAX, owed).unwrap();
    assert_eq!(result.repay_amount, 12_346);
    assert_eq!(result.settle_amount, owed);

    let mut liquidity = reserve.liquidity.clone();
    liquidity.borrowed_amount_wads = owed;
    liquidity.repay(result.repay_amount, result.settle_amount).unwrap();
    assert_eq!(liquidity.borrowed_amount_wads, Decimal::zero());
}

#[test]
fn repay_partial_rounds_down() {
    let reserve = reserve_with_bonus(5);
    let owed = Decimal::from_scaled_val(100_500_000_000_000_000_000); // 100.5
    let result = reserve.repay_liquidity(40, owed).unwrap();
    assert_eq!(result.settle_amount, Decimal::from_u64(40));
    assert_eq!(result.repay_amount, 40);
}

#[test]
fn liquidation_payout_respects_bounds() {
    // Normal branch, bonus-inflated value above the collateral's value:
    // the liquidator gets every deposited token, and the repayment is
    // scaled down to what the collateral is worth.
    let reserve = reserve_with_bonus(5);
    let obligation =
        Obligation { deposited_value: Decimal::from_u64(50), borrowed_value: Decimal::from_u64(100) };
    let liquidity = borrowed_position(Decimal::from_u64(100), Decimal::from_u64(100));
    let collateral = collateral_position(1000, Decimal::from_u64(50));
    let result =
        reserve.liquidate_obligation(u64::MAX, &obligation, &liquidity, &collateral).unwrap();
    assert_eq!(result.withdraw_amount, 1000);
    assert!(result.withdraw_amount <= collateral.deposited_amount);
    assert_eq!(result.repay_amount, 48);
    assert!(Decimal::from_u64(result.repay_amount) <= Decimal::from_u64(100).try_add(Decimal::from_u64(1)).unwrap());
    assert_eq!(result.settle_amount, Decimal::from_scaled_val(47_619_047_619_047_619_000));
}

#[test]
fn liquidation_seizes_proportional_collateral_when_overcollateralized() {
    // Normal branch, collateral worth more than the bonus-inflated debt
    // share: repay in full, seize only the matching share.
    let reserve = reserve_with_bonus(0);
    let obligation =
        Obligation { deposited_value: Decimal::from_u64(400), borrowed_value: Decimal::from_u64(100) };
    let liquidity = borrowed_position(Decimal::from_u64(100), Decimal::from_u64(100));
    let collateral = collateral_position(1000, Decimal::from_u64(200));
    let result =
        reserve.liquidate_obligation(u64::MAX, &obligation, &liquidity, &collateral).unwrap();
    // Close factor caps the settlement at half the obligation's debt.
    assert_eq!(result.settle_amount, Decimal::from_u64(50));
    assert_eq!(result.repay_amount, 50);
    // 50 of 200 in value: a quarter of the 1000 deposited tokens.
    assert_eq!(result.withdraw_amount, 250);
}

#[test]
fn dust_liquidation_closes_out_whole_position() {
    // Debt below the close-out threshold and collateral worth less than
    // the bonus-inflated debt: all collateral is seized and the
    // repayment is reduced proportionally.
    let reserve = reserve_with_bonus(10);
    let obligation =
        Obligation { deposited_value: Decimal::from_u64(1), borrowed_value: Decimal::from_u64(2) };
    let owed = Decimal::from_scaled_val(1_500_000_000_000_000_000); // 1.5 < close amount
    let liquidity = borrowed_position(owed, Decimal::from_u64(2));
    let collateral = collateral_position(500, Decimal::from_u64(1));
    let result =
        reserve.liquidate_obligation(u64::MAX, &obligation, &liquidity, &collateral).unwrap();
    // The whole debt is settled, every deposited token is seized.
    assert_eq!(result.settle_amount, owed);
    assert_eq!(result.withdraw_amount, 500);
    // Bonus-inflated value 2.2 against collateral worth 1: the repay
    // amount is scaled by 1/2.2 and rounded up.
    assert_eq!(result.repay_amount, 1);
}

#[test]
fn max_liquidation_amount_needs_refreshed_value() {
    let obligation =
        Obligation { deposited_value: Decimal::from_u64(1), borrowed_value: Decimal::from_u64(10) };
    let liquidity = borrowed_position(Decimal::from_u64(10), Decimal::zero());
    assert_eq!(
        obligation.max_liquidation_amount(&liquidity),
        Err(LendingError::MathOverflow)
    );
}

#[test]
fn liquidation_close_factor_halves_large_positions() {
    let obligation =
        Obligation { deposited_value: Decimal::from_u64(100), borrowed_value: Decimal::from_u64(100) };
    let liquidity = borrowed_position(Decimal::from_u64(100), Decimal::from_u64(100));
    let max = obligation.max_liquidation_amount(&liquidity).unwrap();
    assert_eq!(max, Decimal::from_u64(50));
}
