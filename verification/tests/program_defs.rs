//! Tests for the smaller sibling-program definitions.

use lending_core::betting_pool::{BettingPoolInstruction, InitializeBettingPoolArgs, TradeArgs};
use lending_core::instruction::AmountType;
use lending_core::last_update::LastUpdate;
use lending_core::proof_extraction::TokenProofExtractionError;
use lending_core::record::RecordError;
use lending_core::stake_pool::{Fee, InitArgs, StakePoolError, StakePoolInstruction};
use lending_core::timelock::TimelockError;
use lending_core::token_instruction::{is_valid_signer_index, AuthorityType};
use lending_core::token_swap::{self, Invariant};

#[test]
fn signer_index_bounds() {
    assert!(!is_valid_signer_index(0));
    assert!(is_valid_signer_index(1));
    assert!(is_valid_signer_index(11));
    assert!(!is_valid_signer_index(12));
}

#[test]
fn authority_types_are_distinct() {
    assert_ne!(AuthorityType::Owner, AuthorityType::Freezer);
}

#[test]
fn stake_pool_instruction_carries_init_args() {
    let init = StakePoolInstruction::Initialize(InitArgs {
        fee: Fee { denominator: 100, numerator: 3 },
    });
    match init {
        StakePoolInstruction::Initialize(args) => {
            assert_eq!(args.fee.denominator, 100);
            assert_eq!(args.fee.numerator, 3);
        },
        _ => panic!("expected an initialize instruction"),
    }
    assert_ne!(StakePoolInstruction::Deposit, StakePoolInstruction::Claim);
    assert_eq!(StakePoolInstruction::Withdraw(7), StakePoolInstruction::Withdraw(7));
}

#[test]
fn stake_pool_errors_compare() {
    assert_ne!(StakePoolError::AlreadyInUse, StakePoolError::FeeTooHigh);
    assert_eq!(StakePoolError::WrongPoolMint, StakePoolError::WrongPoolMint);
}

#[test]
fn betting_pool_trade_args() {
    let trade = BettingPoolInstruction::Trade(TradeArgs {
        size: 10,
        buy_price: 60,
        sell_price: 40,
    });
    match trade {
        BettingPoolInstruction::Trade(args) => {
            assert_eq!(args.size, 10);
            assert_eq!(args.buy_price + args.sell_price, 100);
        },
        _ => panic!("expected a trade instruction"),
    }
    let init = BettingPoolInstruction::InitializeBettingPool(InitializeBettingPoolArgs {
        decimals: 6,
    });
    match init {
        BettingPoolInstruction::InitializeBettingPool(args) => assert_eq!(args.decimals, 6),
        _ => panic!("expected an initialize instruction"),
    }
}

#[test]
fn token_swap_definitions() {
    assert_eq!(token_swap::Instruction::Swap(5), token_swap::Instruction::Swap(5));
    assert_ne!(token_swap::Instruction::Deposit(1), token_swap::Instruction::Withdraw(1));
    assert_ne!(token_swap::Error::InvalidInput, token_swap::Error::InvalidOutput);
}

#[test]
fn invariant_swap_keeps_product() {
    let mut pool = Invariant { token_a: 100, token_b: 100, pool: None, fee: (100, 1) };
    // 10 in: the product 10000 over the new balance 110 leaves 90, so 10
    // tokens leave the pool; the 1% fee on 10 rounds down to zero.
    assert_eq!(pool.swap(10), Some(10));
    assert_eq!(pool.token_a, 110);
    assert_eq!(pool.token_b, 90);
}

#[test]
fn invariant_swap_retains_fee() {
    let mut pool = Invariant { token_a: 100, token_b: 100, pool: None, fee: (2, 1) };
    // Half of the 10 removed tokens stay in the pool as the fee.
    assert_eq!(pool.swap(10), Some(5));
    assert_eq!(pool.token_a, 110);
    assert_eq!(pool.token_b, 95);
}

#[test]
fn invariant_swap_zero_fee_denominator_fails() {
    let mut pool = Invariant { token_a: 100, token_b: 100, pool: None, fee: (0, 1) };
    assert_eq!(pool.swap(10), None);
    assert_eq!(pool.token_a, 100);
}

#[test]
fn invariant_exchange_rate_scales() {
    let pool = Invariant { token_a: 100, token_b: 300, pool: Some(50), fee: (100, 1) };
    assert_eq!(pool.exchange_rate(10), Some(30));
}

#[test]
fn invariant_redeem_splits_both_sides() {
    let pool = Invariant { token_a: 100, token_b: 200, pool: Some(50), fee: (100, 1) };
    assert_eq!(pool.redeem(5), Some((10, 20)));
    let uninitialized = Invariant { token_a: 100, token_b: 200, pool: None, fee: (100, 1) };
    assert_eq!(uninitialized.redeem(5), None);
}

#[test]
fn error_enums_compare() {
    assert_eq!(RecordError::Overflow, RecordError::Overflow);
    assert_ne!(RecordError::Overflow, RecordError::IncorrectAuthority);
    assert_ne!(TimelockError::Uninitialized, TimelockError::AlreadyInitialized);
    assert_ne!(
        TokenProofExtractionError::CurveArithmetic,
        TokenProofExtractionError::ElGamalPubkeyMismatch
    );
}

#[test]
fn amount_type_variants() {
    assert_ne!(AmountType::ExactAmount, AmountType::PercentAmount);
}

#[test]
fn last_update_staleness() {
    let mut update = LastUpdate::new(100);
    assert!(update.stale);
    assert_eq!(update.slots_elapsed(150), Ok(50));
    assert_eq!(update.slots_elapsed(99).unwrap_err(), lending_core::error::LendingError::MathOverflow);
    update.update_slot(150);
    assert!(!update.stale);
    assert_eq!(update.is_stale(150), Ok(false));
    assert_eq!(update.is_stale(151), Ok(true));
    update.mark_stale();
    assert_eq!(update.is_stale(150), Ok(true));
}
