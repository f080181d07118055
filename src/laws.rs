use vstd::prelude::*;

use crate::batch::{kept, released};
use crate::bootstrap::{BootStep, RuntimeStatus, boot_outcome};
use crate::handle::Handle;
use crate::local::LocalModel;
use crate::reference_pool::{PendingModel, RefOp, delta, increfs_first, net_delta};

verus! {

proof fn lemma_net_delta_append(a: Seq<RefOp>, b: Seq<RefOp>, h: Handle)
    ensures
        net_delta(a + b, h) == net_delta(a, h) + net_delta(b, h),
    decreases b.len(),
{
    if b.len() == 0 {
        assert(a + b =~= a);
    } else {
        assert((a + b).drop_last() =~= a + b.drop_last());
        lemma_net_delta_append(a, b.drop_last(), h);
    }
}

proof fn lemma_drained_after_queued(p: PendingModel, op: RefOp, h: Handle)
    ensures
        net_delta(p.queued(op).drained(), h) == net_delta(p.drained(), h) + delta(op, h),
{
    let inc = |x: Handle| RefOp::Incref(x);
    let dec = |x: Handle| RefOp::Decref(x);
    match op {
        RefOp::Incref(x) => {
            let q = p.queued(op);
            assert(q.increfs.map_values(inc) =~= p.increfs.map_values(inc).push(op));
            lemma_net_delta_append(q.increfs.map_values(inc), p.decrefs.map_values(dec), h);
            lemma_net_delta_append(p.increfs.map_values(inc), p.decrefs.map_values(dec), h);
            assert(p.increfs.map_values(inc).push(op).drop_last() =~= p.increfs.map_values(inc));
        },
        RefOp::Decref(x) => {
            let q = p.queued(op);
            assert(q.drained() =~= p.drained().push(op));
            assert(p.drained().push(op).drop_last() =~= p.drained());
        },
    }
}

proof fn lemma_net_delta_queued_all(p: PendingModel, ops: Seq<RefOp>, h: Handle)
    ensures
        net_delta(p.queued_all(ops).drained(), h) == net_delta(p.drained(), h) + net_delta(ops, h),
    decreases ops.len(),
{
    if ops.len() > 0 {
        lemma_net_delta_queued_all(p, ops.drop_last(), h);
        lemma_drained_after_queued(p.queued_all(ops.drop_last()), ops.last(), h);
    }
}

proof fn lemma_drained_increfs_first(p: PendingModel)
    ensures
        increfs_first(p.drained()),
        forall|i: int|
            0 <= i < p.increfs.len() ==> (#[trigger] p.drained()[i]) is Incref,
        forall|i: int|
            p.increfs.len() <= i < p.drained().len() ==> (#[trigger] p.drained()[i]) is Decref,
{
}

proof fn lemma_increfs_only_nonnegative(ops: Seq<RefOp>, h: Handle)
    requires
        forall|i: int| 0 <= i < ops.len() ==> (#[trigger] ops[i]) is Incref,
    ensures
        net_delta(ops, h) >= 0,
    decreases ops.len(),
{
    if ops.len() > 0 {
        lemma_increfs_only_nonnegative(ops.drop_last(), h);
    }
}

proof fn lemma_decrefs_only_nonpositive(ops: Seq<RefOp>, h: Handle)
    requires
        forall|i: int| 0 <= i < ops.len() ==> (#[trigger] ops[i]) is Decref,
    ensures
        net_delta(ops, h) <= 0,
    decreases ops.len(),
{
    if ops.len() > 0 {
        lemma_decrefs_only_nonpositive(ops.drop_last(), h);
    }
}

/// Reference changes registered by threads that do not hold the lock, in any
/// order, and then drained by the next holder, change each handle's count by
/// exactly the sum of what was registered for it, and the drain applies every
/// increment before any decrement.
pub proof fn lemma_drain_applies_registered_sum(ops: Seq<RefOp>, h: Handle)
    ensures
        net_delta(PendingModel::empty().queued_all(ops).drained(), h) == net_delta(ops, h),
        increfs_first(PendingModel::empty().queued_all(ops).drained()),
{
    lemma_net_delta_queued_all(PendingModel::empty(), ops, h);
    assert(PendingModel::empty().drained() =~= Seq::<RefOp>::empty());
    lemma_drained_increfs_first(PendingModel::empty().queued_all(ops));
}

/// While a drain is applied, no handle's count falls below both where it
/// started and where it ends: increments come first, so an object that a
/// pending increment still keeps alive is never freed on the way.
pub proof fn lemma_drain_never_dips(p: PendingModel, k: int, h: Handle)
    requires
        0 <= k <= p.drained().len(),
    ensures
        net_delta(p.drained().take(k), h) >= 0 || net_delta(p.drained().take(k), h) >= net_delta(
            p.drained(),
            h,
        ),
{
    let d = p.drained();
    let n = p.increfs.len() as int;
    lemma_drained_increfs_first(p);
    if k <= n {
        lemma_increfs_only_nonnegative(d.take(k), h);
    } else {
        assert(d =~= d.take(k) + d.skip(k));
        lemma_net_delta_append(d.take(k), d.skip(k), h);
        lemma_decrefs_only_nonpositive(d.skip(k), h);
    }
}

/// Recording handles one at a time, as `register_owned` does, is recording
/// them all at once.
pub proof fn lemma_record_one_more(s: LocalModel, hs: Seq<Handle>, h: Handle)
    ensures
        s.recorded_all(hs).recorded(h) == s.recorded_all(hs.push(h)),
        s.recorded_all(Seq::empty()) == s,
{
    assert(s.owned + hs.push(h) =~= (s.owned + hs).push(h));
    assert(s.owned + Seq::<Handle>::empty() =~= s.owned);
}

/// Opening a batch and closing it with nothing recorded leaves the
/// pending-release list as it was and releases nothing; below the top of the
/// count, the whole thread state is as it was.
pub proof fn lemma_empty_batch_is_noop(s: LocalModel)
    requires
        s.owned.len() <= usize::MAX,
    ensures
        ({
            let start = Some(s.owned.len() as usize);
            let opened = s.incremented();
            &&& released(opened.owned, start) == Seq::<Handle>::empty()
            &&& opened.taken(start).owned == s.owned
            &&& s.gil_count < u32::MAX ==> opened.taken(start).decremented() == s
        }),
{
}

/// A batch that records `hs` releases exactly `hs`, in recording order, and
/// leaves every handle recorded before it opened in place.
pub proof fn lemma_batch_releases_its_records(s: LocalModel, hs: Seq<Handle>)
    requires
        s.owned.len() + hs.len() <= usize::MAX,
    ensures
        ({
            let start = Some(s.owned.len() as usize);
            let filled = s.incremented().recorded_all(hs);
            &&& released(filled.owned, start) == hs
            &&& kept(filled.owned, start) == s.owned
        }),
{
    let start = Some(s.owned.len() as usize);
    let filled = s.incremented().recorded_all(hs);
    if hs.len() > 0 {
        assert(filled.owned.skip(s.owned.len() as int) =~= hs);
        assert(filled.owned.take(s.owned.len() as int) =~= s.owned);
    } else {
        assert(filled.owned =~= s.owned);
    }
}

/// With batch B2 opened inside batch B1, closing B2 releases only what was
/// recorded under B2, and closing B1 then releases only what was recorded
/// directly under B1.
pub proof fn lemma_nested_batches(s: LocalModel, xs: Seq<Handle>, ys: Seq<Handle>)
    requires
        s.owned.len() + xs.len() + ys.len() <= usize::MAX,
    ensures
        ({
            let start1 = Some(s.owned.len() as usize);
            let in_b1 = s.incremented().recorded_all(xs);
            let start2 = Some(in_b1.owned.len() as usize);
            let in_b2 = in_b1.incremented().recorded_all(ys);
            let after_b2 = in_b2.taken(start2).decremented();
            &&& released(in_b2.owned, start2) == ys
            &&& after_b2.owned == s.owned + xs
            &&& released(after_b2.owned, start1) == xs
            &&& after_b2.taken(start1).owned == s.owned
        }),
{
    let in_b1 = s.incremented().recorded_all(xs);
    lemma_batch_releases_its_records(s, xs);
    lemma_batch_releases_its_records(in_b1.incremented(), ys);
    assert(in_b1.incremented().recorded_all(ys).owned =~= s.incremented().recorded_all(
        xs + ys,
    ).owned);
}

/// A batch whose close releases handles that in turn open, fill and close a
/// batch of their own: the inner batch releases only its own handles, the
/// outer batch's released handles are not touched, no handle is released
/// twice, and the pending-release list ends where it began.
pub proof fn lemma_reentrant_close(s: LocalModel, outer: Seq<Handle>, inner: Seq<Handle>)
    requires
        s.owned.len() + outer.len() <= usize::MAX,
        s.owned.len() + inner.len() <= usize::MAX,
    ensures
        ({
            let start = Some(s.owned.len() as usize);
            let filled = s.incremented().recorded_all(outer);
            let taken = filled.taken(start);
            let start2 = Some(taken.owned.len() as usize);
            let refilled = taken.incremented().recorded_all(inner);
            let after_inner = refilled.taken(start2).decremented();
            let done = after_inner.decremented();
            &&& released(filled.owned, start) == outer
            &&& taken.owned == s.owned
            &&& start2 == start
            &&& released(refilled.owned, start2) == inner
            &&& done.owned == s.owned
            &&& s.gil_count + 1 < u32::MAX ==> done.gil_count == s.gil_count
        }),
{
    lemma_batch_releases_its_records(s, outer);
    let start = Some(s.owned.len() as usize);
    let taken = s.incremented().recorded_all(outer).taken(start);
    lemma_batch_releases_its_records(taken, inner);
}

/// The "is held" predicate is false on a thread with no open scope, true
/// while any scope is open there, and false again once it closes. It reads the
/// thread's own count only.
pub proof fn lemma_held_only_inside_scopes(s: LocalModel)
    ensures
        s.gil_count == 0 ==> !s.held(),
        s.incremented().held(),
        s.gil_count == 0 ==> !s.incremented().decremented().held(),
        s.held() ==> s.incremented().decremented().held(),
{
}

/// Bootstrap runs its work once: after a call that succeeded, every later
/// call returns at once with nothing to do and the latch unchanged.
pub proof fn lemma_bootstrap_runs_once(done: bool, first: RuntimeStatus, second: RuntimeStatus)
    requires
        boot_outcome(done, first).1 is Ok,
    ensures
        boot_outcome(done, first).0,
        boot_outcome(boot_outcome(done, first).0, second) == (
            true,
            Ok::<Seq<BootStep>, crate::bootstrap::BootstrapError>(Seq::empty()),
        ),
{
}

} // verus!
