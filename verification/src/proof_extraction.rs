//! Error definitions of the confidential transfer proof extraction.

use vstd::prelude::*;

verus! {

/// Errors raised while extracting values from zero-knowledge proofs.
#[derive(Clone, Copy, Debug, PartialEq, Eq, Structural)]
pub enum TokenProofExtractionError {
    /// ElGamal pubkey mismatch.
    ElGamalPubkeyMismatch,
    /// Pedersen commitment mismatch.
    PedersenCommitmentMismatch,
    /// Range proof length mismatch.
    RangeProofLengthMismatch,
    /// Fee parameters mismatch.
    FeeParametersMismatch,
    /// Curve arithmetic failed.
    CurveArithmetic,
}

} // verus!
