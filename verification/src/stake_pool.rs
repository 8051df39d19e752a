//! State and instruction definitions of the stake pool program.

use vstd::prelude::*;

verus! {

/// Errors that may be returned by the stake pool program.
#[derive(Clone, Copy, Debug, PartialEq, Eq, Structural)]
pub enum StakePoolError {
    /// The account cannot be initialized because it is already being used.
    AlreadyInUse,
    /// The program address provided doesn't match the value generated by the program.
    InvalidProgramAddress,
    /// The stake pool state is invalid.
    InvalidState,
    /// The calculation failed.
    CalculationFailure,
    /// Stake pool fee > 1.
    FeeTooHigh,
    /// Token account is associated with the wrong mint.
    WrongAccountMint,
    /// Account balance should be zero.
    NonZeroBalance,
    /// Wrong pool owner account.
    WrongOwner,
    /// Required signature is missing.
    SignatureMissing,
    /// Invalid validator stake list account.
    InvalidValidatorStakeList,
    /// Invalid owner fee account.
    InvalidFeeAccount,
    /// Specified pool mint account is wrong.
    WrongPoolMint,
    /// Stake account is not in the state expected by the program.
    WrongStakeState,
    /// Stake account voting for this validator already exists in the pool.
    ValidatorAlreadyAdded,
    /// Stake account for this validator not found in the pool.
    ValidatorNotFound,
    /// Stake account address not properly derived from the validator address.
    InvalidStakeAccountAddress,
    /// Identify validator stake accounts with old balances and update them.
    UpdateStakeList,
    /// First update old validator stake account balances and then the pool stake balance.
    UpdateStakeListAndPool,
    /// Validator stake account is not found in the list storage.
    UnknownValidatorStakeAccount,
}

/// Fee rate as a ratio; the fee is minted on deposit.
#[derive(Clone, Copy, Debug, PartialEq, Eq, Structural)]
pub struct Fee {
    /// Denominator of the fee ratio.
    pub denominator: u64,
    /// Numerator of the fee ratio.
    pub numerator: u64,
}

/// Initial values for the stake pool.
#[derive(Clone, Copy, Debug, PartialEq, Eq, Structural)]
pub struct InitArgs {
    /// Fee paid to the owner in pool tokens.
    pub fee: Fee,
}

/// Instructions supported by the stake pool program.
#[derive(Clone, Copy, Debug, PartialEq, Eq, Structural)]
pub enum StakePoolInstruction {
    /// Initializes a new stake pool.
    Initialize(InitArgs),
    /// Creates a new program account for accumulating stakes for a
    /// particular validator.
    CreateValidatorStakeAccount,
    /// Adds a validator stake account to the pool.
    AddValidatorStakeAccount,
    /// Removes a validator stake account from the pool.
    RemoveValidatorStakeAccount,
    /// Deposits some stake into the pool in exchange for pool tokens.
    Deposit,
    /// Withdraws the given amount from the pool at the current ratio.
    Withdraw(u64),
    /// Claims ownership of a whole stake account.
    Claim,
    /// Updates the staking pubkey for a stake.
    SetStakingAuthority,
    /// Updates the owner.
    SetOwner,
}

} // verus!
