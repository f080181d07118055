use vstd::prelude::*;

use crate::handle::Handle;

verus! {

/// What one thread knows of the exclusive lock: how many nested scopes
/// consider it held, and the handles recorded for release by open batches.
pub ghost struct LocalModel {
    pub gil_count: nat,
    pub owned: Seq<Handle>,
}

/// The count after one more scope opens; it stays put at the top of `u32`.
pub open spec fn count_incremented(c: nat) -> nat {
    if c < u32::MAX {
        c + 1
    } else {
        c
    }
}

/// The count after one scope closes; it never goes below zero.
pub open spec fn count_decremented(c: nat) -> nat {
    if c > 0 {
        (c - 1) as nat
    } else {
        0
    }
}

impl LocalModel {
    /// The thread considers the lock held.
    pub open spec fn held(self) -> bool {
        self.gil_count > 0
    }

    pub open spec fn incremented(self) -> LocalModel {
        LocalModel { gil_count: count_incremented(self.gil_count), ..self }
    }

    pub open spec fn decremented(self) -> LocalModel {
        LocalModel { gil_count: count_decremented(self.gil_count), ..self }
    }

    pub open spec fn recorded(self, h: Handle) -> LocalModel {
        LocalModel { owned: self.owned.push(h), ..self }
    }

    /// The state after each of `hs` is recorded, in order.
    pub open spec fn recorded_all(self, hs: Seq<Handle>) -> LocalModel {
        LocalModel { owned: self.owned + hs, ..self }
    }
}

/// The per-thread state: the exclusive-access count and the list of handles
/// awaiting release by the batches open on this thread.
pub struct LocalState {
    gil_count: u32,
    owned_objects: Vec<Handle>,
}

impl View for LocalState {
    type V = LocalModel;

    closed spec fn view(&self) -> LocalModel {
        LocalModel { gil_count: self.gil_count as nat, owned: self.owned_objects@ }
    }
}

impl LocalState {
    /// A thread that holds no scope and has recorded nothing.
    pub fn new() -> (r: LocalState)
        ensures
            r@.gil_count == 0,
            r@.owned == Seq::<Handle>::empty(),
    {
        LocalState { gil_count: 0, owned_objects: Vec::new() }
    }

    /// The exclusive-access count.
    pub fn gil_count(&self) -> (r: u32)
        ensures
            r as nat == self@.gil_count,
    {
        self.gil_count
    }

    /// How many handles await release on this thread.
    pub fn owned_object_count(&self) -> (r: usize)
        ensures
            r == self@.owned.len(),
    {
        self.owned_objects.len()
    }

    /// The handles that await release, oldest first.
    pub fn owned_objects(&self) -> (r: &Vec<Handle>)
        ensures
            r@ == self@.owned,
    {
        &self.owned_objects
    }

    pub(crate) fn push_owned(&mut self, h: Handle)
        ensures
            final(self)@ == old(self)@.recorded(h),
    {
        self.owned_objects.push(h);
    }

    /// Removes and returns the handles recorded at `start` and after, in the
    /// order they were recorded; nothing when `start` is not below the length.
    pub(crate) fn split_owned(&mut self, start: usize) -> (r: Vec<Handle>)
        ensures
            start < old(self)@.owned.len() ==> {
                &&& r@ == old(self)@.owned.skip(start as int)
                &&& final(self)@ == (LocalModel {
                    owned: old(self)@.owned.take(start as int),
                    ..old(self)@
                })
            },
            start >= old(self)@.owned.len() ==> r@ == Seq::<Handle>::empty()
                && final(self)@ == old(self)@,
    {
        if start < self.owned_objects.len() {
            self.owned_objects.split_off(start)
        } else {
            Vec::new()
        }
    }
}

/// Whether this thread considers the exclusive lock held.
pub fn gil_is_acquired(state: &LocalState) -> (r: bool)
    ensures
        r == state@.held(),
{
    state.gil_count > 0
}

/// Counts one more scope that holds the lock on this thread.
pub fn increment_gil_count(state: &mut LocalState)
    ensures
        final(state)@ == old(state)@.incremented(),
{
    if state.gil_count < u32::MAX {
        state.gil_count = state.gil_count + 1;
    }
}

/// Counts one scope fewer; a count already at zero stays there.
pub fn decrement_gil_count(state: &mut LocalState)
    ensures
        final(state)@ == old(state)@.decremented(),
{
    if state.gil_count > 0 {
        state.gil_count = state.gil_count - 1;
    }
}

} // verus!
