//! Error definitions of the record program.

use vstd::prelude::*;

verus! {

/// Errors that may be returned by the record program.
#[derive(Clone, Copy, Debug, PartialEq, Eq, Structural)]
pub enum RecordError {
    /// Incorrect authority provided on update or delete.
    IncorrectAuthority,
    /// Calculation overflow.
    Overflow,
}

} // verus!
