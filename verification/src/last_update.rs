//! Freshness tracking for account state.
//!
//! State that depends on a price or interest snapshot carries the slot of
//! its last refresh and a staleness flag; a computation that needs fresh
//! values is expected to reject stale state before calling into the core.

use vstd::prelude::*;
use crate::error::LendingError;

verus! {

/// Number of slots after which refreshed state is considered stale again.
pub const STALE_AFTER_SLOTS_ELAPSED: u64 = 1;

/// Last slot when state was updated, with an explicit staleness mark.
#[derive(Clone, Copy, Debug, PartialEq, Eq, Structural)]
pub struct LastUpdate {
    /// Slot of the last refresh.
    pub slot: u64,
    /// Whether the state must be refreshed before it is trusted.
    pub stale: bool,
}

impl LastUpdate {
    /// A freshly created account starts stale.
    pub fn new(slot: u64) -> (r: Self)
        ensures
            r.slot == slot,
            r.stale == true,
    {
        LastUpdate { slot, stale: true }
    }

    /// Number of slots since the last update; fails when the clock would
    /// have to run backwards.
    pub fn slots_elapsed(&self, slot: u64) -> (r: Result<u64, LendingError>)
        ensures
            slot >= self.slot ==> (r matches Ok(n) && n == slot - self.slot),
            slot < self.slot ==> r == Err::<u64, LendingError>(LendingError::MathOverflow),
    {
        if slot >= self.slot {
            Ok(slot - self.slot)
        } else {
            Err(LendingError::MathOverflow)
        }
    }

    /// Record a refresh at the given slot.
    pub fn update_slot(&mut self, slot: u64)
        ensures
            final(self).slot == slot,
            final(self).stale == false,
    {
        self.slot = slot;
        self.stale = false;
    }

    /// Mark the state as needing a refresh.
    pub fn mark_stale(&mut self)
        ensures
            final(self).slot == old(self).slot,
            final(self).stale == true,
    {
        self.stale = true;
    }

    /// Whether the state is stale at the given slot: marked stale, or
    /// refreshed too many slots ago.  Fails when the clock would have to
    /// run backwards.
    pub fn is_stale(&self, slot: u64) -> (r: Result<bool, LendingError>)
        ensures
            slot >= self.slot ==> (r matches Ok(b) && b == (self.stale || slot - self.slot
                >= STALE_AFTER_SLOTS_ELAPSED)),
            slot < self.slot ==> r == Err::<bool, LendingError>(LendingError::MathOverflow),
    {
        match self.slots_elapsed(slot) {
            Ok(elapsed) => Ok(self.stale || elapsed >= STALE_AFTER_SLOTS_ELAPSED),
            Err(e) => Err(e),
        }
    }
}

} // verus!
