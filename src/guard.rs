use vstd::prelude::*;

use crate::batch::{GILPool, released};
use crate::handle::Handle;
use crate::local::{LocalState, gil_is_acquired};
use crate::token::Python;

verus! {

/// What the runtime's re-entrant acquire returned, to be handed back to its
/// release: whether the lock was already held before the acquire.
#[derive(Clone, Copy, Debug, PartialEq, Eq, Structural)]
pub enum GilState {
    Locked,
    Unlocked,
}

/// A held exclusive lock. It owns a batch unless the thread already held the
/// lock when it was acquired, in which case a batch is already open there.
///
/// Dropping it is three steps: `take_owned` hands back the batch's handles for
/// release, `close` ends the batch and returns the runtime's state, and the
/// caller then releases the runtime's lock with that state.
pub struct GILGuard {
    gstate: GilState,
    pool: Option<GILPool>,
}

impl GILGuard {
    pub closed spec fn spec_gstate(&self) -> GilState {
        self.gstate
    }

    pub closed spec fn spec_pool(&self) -> Option<GILPool> {
        self.pool
    }

    /// Builds the guard once the runtime's lock is held, with the state its
    /// acquire returned. A batch is opened only if the thread did not already
    /// consider the lock held; the caller then drains the deferred reference
    /// changes and calls `place`.
    pub fn acquire(state: &mut LocalState, gstate: GilState) -> (r: GILGuard)
        ensures
            r.spec_gstate() == gstate,
            !old(state)@.held() ==> {
                &&& final(state)@ == old(state)@.incremented()
                &&& r.spec_pool() matches Some(p)
                &&& p.spec_start() == None::<usize>
            },
            old(state)@.held() ==> final(state)@ == old(state)@ && r.spec_pool().is_none(),
    {
        let pool = if !gil_is_acquired(state) {
            Some(GILPool::new(state))
        } else {
            None
        };
        GILGuard { gstate, pool }
    }

    /// Begins the guard's batch, if it has one, at the current end of the
    /// thread's pending-release list.
    pub fn place(&mut self, state: &LocalState)
        ensures
            final(self).spec_gstate() == old(self).spec_gstate(),
            old(self).spec_pool().is_none() ==> final(self).spec_pool().is_none(),
            old(self).spec_pool().is_some() ==> (final(self).spec_pool() matches Some(p)
                && p.spec_start() == Some(state@.owned.len() as usize)),
    {
        match &mut self.pool {
            Some(p) => p.place(state),
            None => {},
        }
    }

    /// Whether this guard opened a batch of its own.
    pub fn opened_pool(&self) -> (r: bool)
        ensures
            r == self.spec_pool().is_some(),
    {
        self.pool.is_some()
    }

    /// The token that shows the lock is held while the guard lives.
    pub fn python(&self) -> (r: Python) {
        Python::held()
    }

    /// Removes and returns the handles of the guard's batch, if it has one.
    pub fn take_owned(&self, state: &mut LocalState) -> (r: Vec<Handle>)
        ensures
            self.spec_pool() matches Some(p) ==> r@ == released(old(state)@.owned, p.spec_start())
                && final(state)@ == old(state)@.taken(p.spec_start()),
            self.spec_pool().is_none() ==> r@ == Seq::<Handle>::empty() && final(state)@ == old(
                state,
            )@,
    {
        match &self.pool {
            Some(p) => p.take_owned(state),
            None => Vec::new(),
        }
    }

    /// Ends the guard's batch, if it has one, and returns the state to release
    /// the runtime's lock with.
    pub fn close(self, state: &mut LocalState) -> (r: GilState)
        ensures
            r == self.spec_gstate(),
            self.spec_pool().is_some() ==> final(state)@ == old(state)@.decremented(),
            self.spec_pool().is_none() ==> final(state)@ == old(state)@,
    {
        match self.pool {
            Some(p) => p.close(state),
            None => {},
        }
        self.gstate
    }
}

/// The lock as a caller needs it: a guard of its own only where the thread did
/// not hold the lock already.
pub struct EnsureGIL(pub Option<GILGuard>);

/// Makes sure the lock is held. If the thread already holds it nothing is
/// acquired; otherwise `lock` acquires the runtime's lock and the guard built
/// on it opens a batch, which the caller places after the drain.
pub fn ensure_gil<F: FnOnce() -> GilState>(state: &mut LocalState, lock: F) -> (r: EnsureGIL)
    requires
        lock.requires(()),
    ensures
        old(state)@.held() ==> r.0.is_none() && final(state)@ == old(state)@,
        !old(state)@.held() ==> {
            &&& final(state)@ == old(state)@.incremented()
            &&& r.0 matches Some(g)
            &&& lock.ensures((), g.spec_gstate())
            &&& g.spec_pool() matches Some(p)
            &&& p.spec_start() == None::<usize>
        },
{
    if gil_is_acquired(state) {
        EnsureGIL(None)
    } else {
        let gstate = lock();
        EnsureGIL(Some(GILGuard::acquire(state, gstate)))
    }
}

impl EnsureGIL {
    /// The token that shows the lock is held.
    pub fn python(&self) -> (r: Python) {
        match &self.0 {
            Some(gil) => gil.python(),
            None => Python::held(),
        }
    }
}

} // verus!
