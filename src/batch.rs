use vstd::prelude::*;

use crate::handle::Handle;
use crate::local::{LocalModel, LocalState, increment_gil_count, decrement_gil_count};
use crate::token::Python;

verus! {

/// What remains of the pending-release list after a batch that began at
/// `start` closes: the handles before `start`.
pub open spec fn kept(owned: Seq<Handle>, start: Option<usize>) -> Seq<Handle> {
    match start {
        Some(s) => if s < owned.len() {
            owned.take(s as int)
        } else {
            owned
        },
        None => owned,
    }
}

/// What a batch that began at `start` releases when it closes: the handles
/// recorded at `start` and after, in recording order.
pub open spec fn released(owned: Seq<Handle>, start: Option<usize>) -> Seq<Handle> {
    match start {
        Some(s) => if s < owned.len() {
            owned.skip(s as int)
        } else {
            Seq::empty()
        },
        None => Seq::empty(),
    }
}

impl LocalModel {
    /// The state once a batch that began at `start` has taken its handles out.
    pub open spec fn taken(self, start: Option<usize>) -> LocalModel {
        LocalModel { owned: kept(self.owned, start), ..self }
    }
}

/// A scoped batch of owned handles: it remembers how long the thread's
/// pending-release list was when it opened, and on close releases everything
/// recorded after that point.
///
/// Opening is two steps, `new` and `place`, with the drain of deferred
/// reference changes between them. Closing is two steps, so that the list is never borrowed while a handle is
/// released: `take_owned` removes the batch's handles and hands them back for
/// release, and `close`, once they are released, ends the batch's hold on the
/// lock count.
pub struct GILPool {
    start: Option<usize>,
}

impl GILPool {
    /// Where the batch begins in the pending-release list; `None` for a batch
    /// that tracks nothing.
    pub closed spec fn spec_start(&self) -> Option<usize> {
        self.start
    }

    /// Opens a batch on a thread that holds the lock: the count goes up by one.
    /// The batch has no start yet: the caller drains the deferred reference
    /// changes and then calls `place`, so that the batch begins after anything
    /// the drain recorded.
    pub fn new(state: &mut LocalState) -> (r: GILPool)
        ensures
            final(state)@ == old(state)@.incremented(),
            r.spec_start() == None::<usize>,
    {
        increment_gil_count(state);
        GILPool { start: None }
    }

    /// Begins the batch at the current end of the thread's pending-release
    /// list.
    pub fn place(&mut self, state: &LocalState)
        ensures
            final(self).spec_start() == Some(state@.owned.len() as usize),
    {
        self.start = Some(state.owned_object_count());
    }

    /// A batch opened where the thread's own storage could not be reached: it
    /// records no start and releases nothing.
    pub fn untracked() -> (r: GILPool)
        ensures
            r.spec_start() == None::<usize>,
    {
        GILPool { start: None }
    }

    /// Where the batch begins in the pending-release list.
    pub fn start(&self) -> (r: Option<usize>)
        ensures
            r == self.spec_start(),
    {
        self.start
    }

    /// The token that shows the lock is held while the batch is open.
    pub fn python(&self) -> (r: Python) {
        Python::held()
    }

    /// Removes from the pending-release list every handle recorded since the
    /// batch opened and returns them, in recording order, for release.
    pub fn take_owned(&self, state: &mut LocalState) -> (r: Vec<Handle>)
        ensures
            r@ == released(old(state)@.owned, self.spec_start()),
            final(state)@ == old(state)@.taken(self.spec_start()),
    {
        match self.start {
            Some(s) => state.split_owned(s),
            None => Vec::new(),
        }
    }

    /// Ends the batch once its handles are released: the count goes down by one.
    pub fn close(self, state: &mut LocalState)
        ensures
            final(state)@ == old(state)@.decremented(),
    {
        decrement_gil_count(state);
    }
}

/// Records a handle created under the lock, so that the innermost open batch
/// releases it when it closes.
pub fn register_owned(_py: Python, state: &mut LocalState, obj: Handle)
    ensures
        final(state)@ == old(state)@.recorded(obj),
{
    state.push_owned(obj);
}

} // verus!
