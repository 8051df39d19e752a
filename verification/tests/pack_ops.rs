//! Tests for the fixed byte layout of a reserve account.

use lending_core::decimal::Decimal;
use lending_core::error::LendingError;
use lending_core::last_update::LastUpdate;
use lending_core::pubkey::Pubkey;
use lending_core::reserve::{
    Reserve, ReserveCollateral, ReserveConfig, ReserveFees, ReserveLiquidity,
};
use lending_core::reserve_pack::RESERVE_LEN;

fn key(tag: u8) -> Pubkey {
    Pubkey::new_from_array([tag; 32])
}

fn sample_reserve() -> Reserve {
    Reserve {
        version: 1,
        last_update: LastUpdate { slot: 123_456_789, stale: true },
        lending_market: key(9),
        liquidity: ReserveLiquidity {
            mint_pubkey: key(1),
            mint_decimals: 6,
            supply_pubkey: key(2),
            fee_receiver: key(3),
            aggregator: Some(key(4)),
            cumulative_borrow_rate_wads: Decimal::from_scaled_val(1_020_304_050_607_080_900),
            median_price: 42,
            available_amount: 314_159,
            borrowed_amount_wads: Decimal::from_scaled_val(2_718_281_828_459_045_235),
            },
        collateral: ReserveCollateral {
            mint_pubkey: key(5),
            mint_total_supply: 1_570_796,
            supply_pubkey: key(6),
        },
        config: ReserveConfig {
            optimal_utilization_rate: 80,
            min_borrow_rate: 2,
            optimal_borrow_rate: 8,
            max_borrow_rate: 30,
            loan_to_value_ratio: 50,
            liquidation_threshold: 55,
            liquidation_bonus: 5,
            fees: ReserveFees { borrow_fee_wad: 10_000_000_000_000_000, host_fee_percentage: 20 },
        },
    }
}

#[test]
fn pack_has_fixed_length() {
    let packed = sample_reserve().pack();
    assert_eq!(packed.len(), RESERVE_LEN);
    assert_eq!(RESERVE_LEN, 567);
}

#[test]
fn pack_then_unpack_round_trips() {
    let reserve = sample_reserve();
    let packed = reserve.pack();
    let unpacked = Reserve::unpack(packed.as_slice()).unwrap();
    assert_eq!(unpacked, reserve);
}

#[test]
fn pack_round_trips_without_aggregator() {
    let mut reserve = sample_reserve();
    reserve.liquidity.aggregator = None;
    reserve.last_update.stale = false;
    let packed = reserve.pack();
    let unpacked = Reserve::unpack(packed.as_slice()).unwrap();
    assert_eq!(unpacked, reserve);
}

#[test]
fn pack_uses_little_endian_offsets() {
    let reserve = sample_reserve();
    let packed = reserve.pack();
    assert_eq!(packed[0], 1); // version
    assert_eq!(&packed[1..9], 123_456_789u64.to_le_bytes().as_slice());
    assert_eq!(packed[9], 1); // stale
    assert_eq!(&packed[10..42], [9u8; 32].as_slice()); // lending market
    assert_eq!(packed[74], 6); // mint decimals
    assert_eq!(&packed[139..143], 1u32.to_le_bytes().as_slice()); // aggregator tag
    assert_eq!(&packed[191..199], 42u64.to_le_bytes().as_slice()); // median price
    assert_eq!(&packed[302..310], 10_000_000_000_000_000u64.to_le_bytes().as_slice());
    assert_eq!(packed[310], 20); // host fee percentage
    assert!(packed[311..].iter().all(|b| *b == 0)); // padding
}

#[test]
fn unpack_rejects_wrong_length() {
    let short = [0u8; 100];
    assert_eq!(
        Reserve::unpack(short.as_slice()),
        Err(LendingError::InvalidAccountInput)
    );
}

#[test]
fn unpack_rejects_malformed_bool() {
    let mut packed = sample_reserve().pack();
    packed[9] = 7;
    assert_eq!(
        Reserve::unpack(packed.as_slice()),
        Err(LendingError::InvalidAccountInput)
    );
}

#[test]
fn unpack_rejects_malformed_option_tag() {
    let mut packed = sample_reserve().pack();
    packed[139] = 9;
    assert_eq!(
        Reserve::unpack(packed.as_slice()),
        Err(LendingError::InvalidAccountInput)
    );
}

#[test]
fn unpack_rejects_unrepresentable_debt() {
    let mut packed = sample_reserve().pack();
    for i in 207..223 {
        packed[i] = 0xff;
    }
    assert_eq!(
        Reserve::unpack(packed.as_slice()),
        Err(LendingError::InvalidAccountInput)
    );
}
