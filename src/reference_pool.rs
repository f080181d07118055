use vstd::prelude::*;

use crate::handle::Handle;
use crate::local::{LocalState, gil_is_acquired};

verus! {

/// One change to a handle's reference count, for the runtime to apply.
#[derive(Clone, Copy, Debug, PartialEq, Eq, Structural)]
pub enum RefOp {
    Incref(Handle),
    Decref(Handle),
}

/// What a change adds to the count of `h`.
pub open spec fn delta(op: RefOp, h: Handle) -> int {
    match op {
        RefOp::Incref(x) => if x == h {
            1int
        } else {
            0int
        },
        RefOp::Decref(x) => if x == h {
            -1int
        } else {
            0int
        },
    }
}

/// What a sequence of changes adds, in all, to the count of `h`.
pub open spec fn net_delta(ops: Seq<RefOp>, h: Handle) -> int
    decreases ops.len(),
{
    if ops.len() == 0 {
        0
    } else {
        net_delta(ops.drop_last(), h) + delta(ops.last(), h)
    }
}

/// How often `h` occurs in `s`.
pub open spec fn occurrences(s: Seq<Handle>, h: Handle) -> nat
    decreases s.len(),
{
    if s.len() == 0 {
        0
    } else {
        occurrences(s.drop_last(), h) + if s.last() == h {
            1nat
        } else {
            0nat
        }
    }
}

/// Every increment comes before every decrement.
pub open spec fn increfs_first(ops: Seq<RefOp>) -> bool {
    forall|i: int, j: int|
        0 <= i < j < ops.len() && (#[trigger] ops[i]) is Decref ==> (#[trigger] ops[j]) is Decref
}

/// The changes queued by threads that did not hold the lock.
pub ghost struct PendingModel {
    pub increfs: Seq<Handle>,
    pub decrefs: Seq<Handle>,
}

impl PendingModel {
    pub open spec fn empty() -> PendingModel {
        PendingModel { increfs: Seq::empty(), decrefs: Seq::empty() }
    }

    /// The queues once `op` is appended to the one of its direction.
    pub open spec fn queued(self, op: RefOp) -> PendingModel {
        match op {
            RefOp::Incref(h) => PendingModel { increfs: self.increfs.push(h), ..self },
            RefOp::Decref(h) => PendingModel { decrefs: self.decrefs.push(h), ..self },
        }
    }

    /// The queues once each of `ops` is queued, in order.
    pub open spec fn queued_all(self, ops: Seq<RefOp>) -> PendingModel
        decreases ops.len(),
    {
        if ops.len() == 0 {
            self
        } else {
            self.queued_all(ops.drop_last()).queued(ops.last())
        }
    }

    /// The changes a drain applies: every queued increment, in queue order,
    /// then every queued decrement, in queue order.
    pub open spec fn drained(self) -> Seq<RefOp> {
        self.increfs.map_values(|h: Handle| RefOp::Incref(h)) + self.decrefs.map_values(
            |h: Handle| RefOp::Decref(h),
        )
    }
}

/// Reference changes requested while the lock was not held, waiting for the
/// next thread that holds it.
pub struct ReferencePool {
    pointers_to_incref: Vec<Handle>,
    pointers_to_decref: Vec<Handle>,
}

impl View for ReferencePool {
    type V = PendingModel;

    closed spec fn view(&self) -> PendingModel {
        PendingModel { increfs: self.pointers_to_incref@, decrefs: self.pointers_to_decref@ }
    }
}

/// Empties `v` and returns what it held.
fn take_all(v: &mut Vec<Handle>) -> (r: Vec<Handle>)
    ensures
        r@ == old(v)@,
        final(v)@ == Seq::<Handle>::empty(),
{
    let mut out: Vec<Handle> = Vec::new();
    if !v.is_empty() {
        std::mem::swap(&mut out, v);
    }
    out
}

impl ReferencePool {
    /// Both queues empty.
    pub fn new() -> (r: ReferencePool)
        ensures
            r@ == PendingModel::empty(),
    {
        ReferencePool { pointers_to_incref: Vec::new(), pointers_to_decref: Vec::new() }
    }

    /// The queued increments, oldest first.
    pub fn pending_increfs(&self) -> (r: &Vec<Handle>)
        ensures
            r@ == self@.increfs,
    {
        &self.pointers_to_incref
    }

    /// The queued decrements, oldest first.
    pub fn pending_decrefs(&self) -> (r: &Vec<Handle>)
        ensures
            r@ == self@.decrefs,
    {
        &self.pointers_to_decref
    }

    /// Queues an increment of `obj`.
    pub fn register_incref(&mut self, obj: Handle)
        ensures
            final(self)@ == old(self)@.queued(RefOp::Incref(obj)),
    {
        self.pointers_to_incref.push(obj);
    }

    /// Queues a decrement of `obj`.
    pub fn register_decref(&mut self, obj: Handle)
        ensures
            final(self)@ == old(self)@.queued(RefOp::Decref(obj)),
    {
        self.pointers_to_decref.push(obj);
    }

    /// Takes every queued change out, leaving both queues empty, and returns
    /// them in the order to apply: increments first, so that no object is
    /// freed while an increment for it is still pending.
    pub fn update_counts(&mut self) -> (r: Vec<RefOp>)
        ensures
            r@ == old(self)@.drained(),
            final(self)@ == PendingModel::empty(),
    {
        let increfs = take_all(&mut self.pointers_to_incref);
        let decrefs = take_all(&mut self.pointers_to_decref);
        let mut ops: Vec<RefOp> = Vec::new();
        let mut i: usize = 0;
        while i < increfs.len()
            invariant
                i <= increfs@.len(),
                ops@ == increfs@.take(i as int).map_values(|h: Handle| RefOp::Incref(h)),
            decreases increfs@.len() - i,
        {
            ops.push(RefOp::Incref(increfs[i]));
            i = i + 1;
            assert(increfs@.take(i as int) == increfs@.take(i - 1).push(increfs@[i - 1]));
        }
        assert(increfs@.take(i as int) == increfs@);
        let ghost incs = ops@;
        let mut j: usize = 0;
        while j < decrefs.len()
            invariant
                j <= decrefs@.len(),
                incs == increfs@.map_values(|h: Handle| RefOp::Incref(h)),
                ops@ == incs + decrefs@.take(j as int).map_values(|h: Handle| RefOp::Decref(h)),
            decreases decrefs@.len() - j,
        {
            ops.push(RefOp::Decref(decrefs[j]));
            j = j + 1;
            assert(decrefs@.take(j as int) == decrefs@.take(j - 1).push(decrefs@[j - 1]));
            assert(decrefs@.take(j as int).map_values(|h: Handle| RefOp::Decref(h))
                == decrefs@.take(j - 1).map_values(|h: Handle| RefOp::Decref(h)).push(RefOp::Decref(decrefs@[j - 1])));
            assert(ops@ == incs + decrefs@.take(j as int).map_values(|h: Handle| RefOp::Decref(h)));
        }
        assert(decrefs@.take(j as int) == decrefs@);
        ops
    }
}

/// Requests an increment of `obj`. On a thread that holds the lock the change
/// is returned, to apply now; otherwise it is queued and nothing is returned.
pub fn register_incref(
    state: &LocalState,
    pool: &mut ReferencePool,
    obj: Handle,
) -> (r: Option<RefOp>)
    ensures
        state@.held() ==> r == Some(RefOp::Incref(obj)) && final(pool)@ == old(pool)@,
        !state@.held() ==> r == None::<RefOp>
            && final(pool)@ == old(pool)@.queued(RefOp::Incref(obj)),
{
    if gil_is_acquired(state) {
        Some(RefOp::Incref(obj))
    } else {
        pool.register_incref(obj);
        None
    }
}

/// Requests a decrement of `obj`. On a thread that holds the lock the change
/// is returned, to apply now; otherwise it is queued and nothing is returned.
pub fn register_decref(
    state: &LocalState,
    pool: &mut ReferencePool,
    obj: Handle,
) -> (r: Option<RefOp>)
    ensures
        state@.held() ==> r == Some(RefOp::Decref(obj)) && final(pool)@ == old(pool)@,
        !state@.held() ==> r == None::<RefOp>
            && final(pool)@ == old(pool)@.queued(RefOp::Decref(obj)),
{
    if gil_is_acquired(state) {
        Some(RefOp::Decref(obj))
    } else {
        pool.register_decref(obj);
        None
    }
}

} // verus!
