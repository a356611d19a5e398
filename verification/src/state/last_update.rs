//! When a reserve or an obligation was last brought up to date.

use crate::error::LendingError;
use vstd::prelude::*;

verus! {

/// The slot of the last refresh, and whether the state has changed since.
#[derive(Clone, Copy, Debug, PartialEq, Eq, Structural)]
pub struct LastUpdate {
    /// Slot of the last refresh.
    pub slot: u64,
    /// True once the state was changed after that refresh.
    pub stale: bool,
}

impl LastUpdate {
    /// Slots from the last refresh to `slot`.
    pub open spec fn slots_elapsed_spec(self, slot: u64) -> Result<u64, LendingError> {
        if slot >= self.slot {
            Ok((slot - self.slot) as u64)
        } else {
            Err(LendingError::MathOverflow)
        }
    }

    /// Stale at `slot`: changed since the refresh, or refreshed more than
    /// `slack` slots before `slot`.
    pub open spec fn is_stale_spec(self, slot: u64, slack: u64) -> Result<bool, LendingError> {
        if slot >= self.slot {
            Ok(self.stale || slot - self.slot > slack)
        } else {
            Err(LendingError::MathOverflow)
        }
    }

    /// A marker at `slot` that counts as stale until the first refresh.
    pub fn new(slot: u64) -> (r: Self)
        ensures
            r == (LastUpdate { slot, stale: true }),
    {
        LastUpdate { slot, stale: true }
    }

    /// Slots from the last refresh to `slot`; `MathOverflow` where `slot`
    /// lies before it.
    pub fn slots_elapsed(&self, slot: u64) -> (r: Result<u64, LendingError>)
        ensures
            r == self.slots_elapsed_spec(slot),
    {
        if slot >= self.slot {
            Ok(slot - self.slot)
        } else {
            Err(LendingError::MathOverflow)
        }
    }

    /// Records a refresh at `slot`.
    pub fn update_slot(&mut self, slot: u64)
        ensures
            *final(self) == (LastUpdate { slot, stale: false }),
    {
        self.slot = slot;
        self.stale = false;
    }

    /// Records a change of the state.
    pub fn mark_stale(&mut self)
        ensures
            *final(self) == (LastUpdate { slot: old(self).slot, stale: true }),
    {
        self.stale = true;
    }

    /// Whether the state is stale at `slot`, allowing `slack` slots since the
    /// refresh; `MathOverflow` where `slot` lies before the refresh.
    pub fn is_stale(&self, slot: u64, slack: u64) -> (r: Result<bool, LendingError>)
        ensures
            r == self.is_stale_spec(slot, slack),
    {
        if slot >= self.slot {
            Ok(self.stale || slot - self.slot > slack)
        } else {
            Err(LendingError::MathOverflow)
        }
    }
}

} // verus!
