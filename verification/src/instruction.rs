//! Shared pieces of the lending program's instruction set.

use vstd::prelude::*;

verus! {

/// Describes how an input amount should be treated.
#[derive(Clone, Copy, Debug, PartialEq, Eq, Structural)]
pub enum AmountType {
    /// Treat the amount as an exact amount of tokens.
    ExactAmount,
    /// Treat the amount as a percentage of available tokens.
    PercentAmount,
}

} // verus!
