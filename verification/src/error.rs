//! Error kinds returned by the lending program's core.

use vstd::prelude::*;

verus! {

/// Errors that may be returned by the lending program.
///
/// Every failure of the core is local, deterministic and non-retryable:
/// the caller aborts the whole instruction on any of these.
#[derive(Clone, Copy, Debug, PartialEq, Eq, Structural)]
pub enum LendingError {
    /// Invalid instruction data passed in.
    InstructionUnpackError,
    /// The account cannot be initialized because it is already in use.
    AlreadyInitialized,
    /// Lamport balance below rent-exempt threshold.
    NotRentExempt,
    /// The program address provided doesn't match the value generated by the program.
    InvalidMarketAuthority,
    /// Expected a different market owner.
    InvalidMarketOwner,
    /// The owner of the input isn't set to the program address generated by the program.
    InvalidAccountOwner,
    /// The owner of the account input isn't set to the correct token program id.
    InvalidTokenOwner,
    /// Expected a token mint account.
    InvalidTokenMint,
    /// Expected a different token program.
    InvalidTokenProgram,
    /// Invalid amount, must be greater than zero.
    InvalidAmount,
    /// Invalid config value.
    InvalidConfig,
    /// Input account must be a signer.
    InvalidSigner,
    /// Invalid account input.
    InvalidAccountInput,
    /// Math operation overflow.
    MathOverflow,
    /// Negative interest rate.
    NegativeInterestRate,
    /// Token initialize mint failed.
    TokenInitializeMintFailed,
    /// Token initialize account failed.
    TokenInitializeAccountFailed,
    /// Token transfer failed.
    TokenTransferFailed,
    /// Token mint to failed.
    TokenMintToFailed,
    /// Token burn failed.
    TokenBurnFailed,
    /// Input reserves cannot be the same.
    DuplicateReserve,
    /// Input reserves cannot use the same liquidity mint.
    DuplicateReserveMint,
    /// Insufficient liquidity available.
    InsufficientLiquidity,
    /// This reserve's collateral cannot be used for borrows.
    ReserveCollateralDisabled,
    /// Reserve state needs to be refreshed.
    ReserveStale,
    /// Withdraw amount too small.
    WithdrawTooSmall,
    /// Withdraw amount too large.
    WithdrawTooLarge,
    /// Borrow amount too small to receive liquidity after fees.
    BorrowTooSmall,
    /// Borrow amount too large for deposited collateral.
    BorrowTooLarge,
    /// Repay amount too small to transfer liquidity.
    RepayTooSmall,
    /// Liquidation amount too small to receive collateral.
    LiquidationTooSmall,
    /// Cannot liquidate healthy obligations.
    ObligationHealthy,
    /// Obligation state needs to be refreshed.
    ObligationStale,
    /// Obligation reserve limit exceeded.
    ObligationReserveLimit,
    /// Obligation loan to value limit exceeded.
    ObligationLoanToValueLimit,
    /// Expected a different obligation owner.
    InvalidObligationOwner,
    /// Invalid obligation collateral.
    InvalidObligationCollateral,
    /// Invalid obligation liquidity.
    InvalidObligationLiquidity,
    /// Obligation collateral is empty.
    ObligationCollateralEmpty,
    /// Obligation liquidity is empty.
    ObligationLiquidityEmpty,
}

} // verus!
