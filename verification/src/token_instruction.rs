//! Shared pieces of the token program's instruction set.

use vstd::prelude::*;

verus! {

/// Minimum number of multisignature signers.
pub const MIN_SIGNERS: usize = 1;

/// Maximum number of multisignature signers.
pub const MAX_SIGNERS: usize = 11;

/// Specifies the authority type for set-authority instructions.
#[derive(Clone, Copy, Debug, PartialEq, Eq, Structural)]
pub enum AuthorityType {
    /// General authority, valid for Account and Mint.
    Owner,
    /// Freeze authority, only valid for Mint.
    Freezer,
}

/// Whether a signer index lies between [`MIN_SIGNERS`] and
/// [`MAX_SIGNERS`].
pub fn is_valid_signer_index(index: usize) -> (r: bool)
    ensures
        r == (MIN_SIGNERS <= index && index <= MAX_SIGNERS),
{
    !(index < MIN_SIGNERS || index > MAX_SIGNERS)
}

} // verus!
