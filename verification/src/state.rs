//! The supervisor's single slot for the running helper.

use vstd::prelude::*;

verus! {

/// The one place where the handle of the running sync helper is kept.
///
/// `H` is whatever the launcher hands out for a spawned process; the
/// supervisor only keeps it and gives it back to be killed. The application
/// guards the state with a lock, and every method here is one critical
/// section: none of them spawns, probes or kills.
#[derive(Debug, Clone, PartialEq, Eq)]
pub struct SyncState<H> {
    /// The handle of the helper, while one is running.
    pub child: Option<H>,
}

impl<H> SyncState<H> {
    /// A state with no helper running.
    pub fn new() -> (state: Self)
        ensures
            state.child is None,
    {
        SyncState { child: None }
    }

    /// Tells whether a helper is held.
    pub fn is_running(&self) -> (running: bool)
        ensures
            running == self.child is Some,
    {
        self.child.is_some()
    }

    /// Puts `handle` into the slot, in place of whatever was there.
    pub fn store(&mut self, handle: H)
        ensures
            final(self).child == Some(handle),
    {
        self.child = Some(handle);
    }

    /// Empties the slot and hands out what it held.
    pub fn take(&mut self) -> (handle: Option<H>)
        ensures
            handle == old(self).child,
            final(self).child is None,
    {
        self.child.take()
    }
}

} // verus!
