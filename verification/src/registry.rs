//! The registry: a singleton counter of lottery identifiers ever created.
//!
//! Its `last_id` is strictly non-decreasing and advances by exactly one per
//! successful creation, so the ids handed out by a run of creations are
//! exactly `1, ..., N`, with no gap and no repeat.

use vstd::prelude::*;

use crate::errors::LotteryError;

verus! {

/// Singleton counter of lottery identifiers ever created.
#[derive(Clone, Copy, PartialEq, Eq, Structural, Debug)]
pub struct Registry {
    /// The identifier handed out by the most recent successful creation;
    /// `0` while no lottery exists yet.
    pub last_id: u32,
}

/// What `initialize_registry` returns: the singleton is created exactly once,
/// with `last_id = 0`, and re-creation is rejected.
pub open spec fn initialize_spec(existing: Option<Registry>) -> Result<Registry, LotteryError> {
    match existing {
        Some(_) => Err(LotteryError::AlreadyInitialized),
        None => Ok(Registry { last_id: 0 }),
    }
}

/// Creates the singleton registry with `last_id = 0`.
///
/// `existing` is the record at the registry's derived address, if the host
/// store already holds one; re-initialisation is rejected.
pub fn initialize_registry(existing: &Option<Registry>) -> (r: Result<Registry, LotteryError>)
    ensures
        r == initialize_spec(*existing),
        existing is Some ==> r == Err::<Registry, LotteryError>(LotteryError::AlreadyInitialized),
        existing is None ==> (r matches Ok(reg) && reg.last_id == 0),
{
    match existing {
        Some(_) => Err(LotteryError::AlreadyInitialized),
        None => Ok(Registry { last_id: 0 }),
    }
}

impl Registry {
    /// Pure read: the identifier the next successful creation will be given.
    pub fn next_id(&self) -> (r: u32)
        requires
            self.last_id < u32::MAX,
        ensures
            r == self.last_id + 1,
    {
        self.last_id + 1
    }

    /// Records a successful creation. The caller must supply `id == last_id + 1`;
    /// any other id is rejected as `OutOfOrderId` and the registry is unchanged.
    pub fn record_creation(&mut self, id: u32) -> (r: Result<(), LotteryError>)
        ensures
            id == old(self).last_id + 1 ==> (r matches Ok(u) && final(self).last_id == id),
            id != old(self).last_id + 1 ==> (r == Err::<(), LotteryError>(LotteryError::OutOfOrderId)
                && *final(self) == *old(self)),
    {
        if self.last_id < u32::MAX && id == self.last_id + 1 {
            self.last_id = id;
            Ok(())
        } else {
            Err(LotteryError::OutOfOrderId)
        }
    }
}

} // verus!
