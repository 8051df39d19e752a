//! Error definitions of the timelock program.

use vstd::prelude::*;

verus! {

/// Errors that may be returned by the timelock program.
#[derive(Clone, Copy, Debug, PartialEq, Eq, Structural)]
pub enum TimelockError {
    /// Invalid instruction data passed in.
    InstructionUnpackError,
    /// Using a timelock program account from a different version than this program version.
    InvalidTimelockVersionError,
    /// Using a timelock set from a different version than this program version.
    InvalidTimelockSetVersionError,
    /// The account cannot be initialized because it is already in use.
    AlreadyInitialized,
    /// Too high a position given in the transaction array.
    TooHighPositionInTxnArrayError,
    /// The wrong signatory mint was given for this timelock set.
    InvalidSignatoryMintError,
    /// The timelock set is in the wrong state for this operation.
    InvalidTimelockSetStateError,
    /// The account is uninitialized when it should have already been initialized.
    Uninitialized,
    /// Lamport balance below rent-exempt threshold.
    NotRentExempt,
    /// Input token program account is not valid.
    InvalidTokenProgram,
    /// Input token mint account is not valid.
    InvalidTokenMint,
    /// Token initialize mint failed.
    TokenInitializeMintFailed,
    /// Token initialize account failed.
    TokenInitializeAccountFailed,
    /// Token transfer failed.
    TokenTransferFailed,
    /// Token mint to failed.
    TokenMintToFailed,
    /// Token burn failed.
    TokenBurnFailed,
}

} // verus!
