use gil::batch::{register_owned, GILPool};
use gil::bootstrap::{prepare_freethreaded_python, BootStep, BootstrapError, RuntimeStatus, StartOnce};
use gil::guard::{ensure_gil, GILGuard, GilState};
use gil::handle::Handle;
use gil::local::{decrement_gil_count, gil_is_acquired, increment_gil_count, LocalState};
use gil::reference_pool::{register_decref, register_incref, RefOp, ReferencePool};

fn open(state: &mut LocalState) -> GILPool {
    let mut pool = GILPool::new(state);
    assert_eq!(pool.start(), None);
    pool.place(state);
    pool
}

fn handle(addr: usize) -> Handle {
    Handle::new(addr).unwrap()
}

#[test]
fn null_address_is_no_handle() {
    assert!(Handle::new(0).is_none());
    assert_eq!(handle(8).addr(), 8);
}

#[test]
fn drain_puts_increments_before_decrements() {
    let state = LocalState::new();
    let mut pool = ReferencePool::new();
    let a = handle(8);
    let b = handle(16);
    assert_eq!(register_decref(&state, &mut pool, a), None);
    assert_eq!(register_incref(&state, &mut pool, b), None);
    assert_eq!(register_decref(&state, &mut pool, b), None);
    assert_eq!(register_incref(&state, &mut pool, a), None);
    let ops = pool.update_counts();
    assert_eq!(
        ops,
        vec![RefOp::Incref(b), RefOp::Incref(a), RefOp::Decref(a), RefOp::Decref(b)]
    );
    assert!(pool.pending_increfs().is_empty());
    assert!(pool.pending_decrefs().is_empty());
    assert_eq!(pool.update_counts(), vec![]);
}

#[test]
fn drain_net_effect_is_sum_of_registrations() {
    let state = LocalState::new();
    let mut pool = ReferencePool::new();
    let a = handle(8);
    for _ in 0..3 {
        register_incref(&state, &mut pool, a);
    }
    for _ in 0..5 {
        register_decref(&state, &mut pool, a);
    }
    let mut count: i64 = 10;
    let mut lowest = count;
    for op in pool.update_counts() {
        match op {
            RefOp::Incref(_) => count += 1,
            RefOp::Decref(_) => count -= 1,
        }
        lowest = lowest.min(count);
    }
    assert_eq!(count, 8);
    assert_eq!(lowest, 8);
}

#[test]
fn registration_under_lock_applies_now() {
    let mut state = LocalState::new();
    let mut pool = ReferencePool::new();
    increment_gil_count(&mut state);
    let a = handle(8);
    assert_eq!(register_incref(&state, &mut pool, a), Some(RefOp::Incref(a)));
    assert_eq!(register_decref(&state, &mut pool, a), Some(RefOp::Decref(a)));
    assert!(pool.pending_increfs().is_empty());
    assert!(pool.pending_decrefs().is_empty());
}

#[test]
fn empty_batch_leaves_list_alone() {
    let mut state = LocalState::new();
    let outer = open(&mut state);
    register_owned(outer.python(), &mut state, handle(8));
    let pool = open(&mut state);
    assert_eq!(pool.start(), Some(1));
    assert_eq!(pool.take_owned(&mut state), vec![]);
    pool.close(&mut state);
    assert_eq!(state.owned_object_count(), 1);
    assert_eq!(state.gil_count(), 1);
}

#[test]
fn batch_releases_its_records_in_order() {
    let mut state = LocalState::new();
    let outer = open(&mut state);
    register_owned(outer.python(), &mut state, handle(8));
    let pool = open(&mut state);
    for addr in [16usize, 24, 32] {
        register_owned(pool.python(), &mut state, handle(addr));
    }
    assert_eq!(pool.take_owned(&mut state), vec![handle(16), handle(24), handle(32)]);
    pool.close(&mut state);
    assert_eq!(state.owned_objects(), &vec![handle(8)]);
    assert_eq!(outer.take_owned(&mut state), vec![handle(8)]);
    outer.close(&mut state);
    assert_eq!(state.gil_count(), 0);
}

#[test]
fn nested_batch_releases_only_its_own() {
    let mut state = LocalState::new();
    let b1 = open(&mut state);
    register_owned(b1.python(), &mut state, handle(8));
    let b2 = open(&mut state);
    register_owned(b2.python(), &mut state, handle(16));
    assert_eq!(b2.take_owned(&mut state), vec![handle(16)]);
    b2.close(&mut state);
    register_owned(b1.python(), &mut state, handle(24));
    assert_eq!(b1.take_owned(&mut state), vec![handle(8), handle(24)]);
    b1.close(&mut state);
    assert_eq!(state.owned_object_count(), 0);
}

#[test]
fn reentrant_close_keeps_outer_release() {
    let mut state = LocalState::new();
    let outer = open(&mut state);
    register_owned(outer.python(), &mut state, handle(8));
    register_owned(outer.python(), &mut state, handle(16));
    let released = outer.take_owned(&mut state);
    // Releasing the first handle runs code that opens its own batch.
    let inner = open(&mut state);
    register_owned(inner.python(), &mut state, handle(24));
    assert_eq!(inner.take_owned(&mut state), vec![handle(24)]);
    inner.close(&mut state);
    assert_eq!(released, vec![handle(8), handle(16)]);
    outer.close(&mut state);
    assert_eq!(state.owned_object_count(), 0);
    assert_eq!(state.gil_count(), 0);
}

#[test]
fn untracked_batch_releases_nothing() {
    let mut state = LocalState::new();
    let b = open(&mut state);
    register_owned(b.python(), &mut state, handle(8));
    let lost = GILPool::untracked();
    assert_eq!(lost.start(), None);
    assert_eq!(lost.take_owned(&mut state), vec![]);
    assert_eq!(state.owned_object_count(), 1);
}

#[test]
fn held_only_inside_scopes() {
    let mut state = LocalState::new();
    let other = LocalState::new();
    assert!(!gil_is_acquired(&state));
    let guard = GILGuard::acquire(&mut state, GilState::Unlocked);
    assert!(guard.opened_pool());
    assert!(gil_is_acquired(&state));
    assert!(!gil_is_acquired(&other));
    let again = GILGuard::acquire(&mut state, GilState::Locked);
    assert!(!again.opened_pool());
    assert_eq!(again.close(&mut state), GilState::Locked);
    assert!(gil_is_acquired(&state));
    assert_eq!(guard.take_owned(&mut state), vec![]);
    assert_eq!(guard.close(&mut state), GilState::Unlocked);
    assert!(!gil_is_acquired(&state));
}

#[test]
fn count_never_goes_below_zero() {
    let mut state = LocalState::new();
    decrement_gil_count(&mut state);
    assert_eq!(state.gil_count(), 0);
    increment_gil_count(&mut state);
    increment_gil_count(&mut state);
    assert_eq!(state.gil_count(), 2);
    decrement_gil_count(&mut state);
    assert_eq!(state.gil_count(), 1);
}

#[test]
fn ensure_gil_acquires_only_when_not_held() {
    let mut state = LocalState::new();
    let mut calls = 0;
    let e = ensure_gil(&mut state, || {
        calls += 1;
        GilState::Unlocked
    });
    assert_eq!(calls, 1);
    assert!(gil_is_acquired(&state));
    let _py = e.python();
    let inner = ensure_gil(&mut state, || GilState::Locked);
    assert!(inner.0.is_none());
    assert_eq!(state.gil_count(), 1);
    let guard = e.0.unwrap();
    assert!(guard.opened_pool());
    assert_eq!(guard.close(&mut state), GilState::Unlocked);
    assert!(!gil_is_acquired(&state));
}

#[test]
fn bootstrap_initializes_once() {
    let mut once = StartOnce::new();
    let fresh = RuntimeStatus { initialized: false, threads_initialized: false };
    assert_eq!(
        prepare_freethreaded_python(&mut once, fresh),
        Ok(vec![
            BootStep::InitializeWithoutSignals,
            BootStep::RegisterExitHook,
            BootStep::InitThreads,
            BootStep::ReleaseLock,
        ])
    );
    assert!(once.is_done());
    let up = RuntimeStatus { initialized: true, threads_initialized: true };
    assert_eq!(prepare_freethreaded_python(&mut once, up), Ok(vec![]));
    assert!(once.is_done());
}

#[test]
fn bootstrap_of_running_runtime_does_nothing() {
    let mut once = StartOnce::new();
    let up = RuntimeStatus { initialized: true, threads_initialized: true };
    assert_eq!(prepare_freethreaded_python(&mut once, up), Ok(vec![]));
    assert!(once.is_done());
}

#[test]
fn bootstrap_without_threads_fails() {
    let mut once = StartOnce::new();
    let broken = RuntimeStatus { initialized: true, threads_initialized: false };
    assert_eq!(
        prepare_freethreaded_python(&mut once, broken),
        Err(BootstrapError::ThreadsNotInitialized)
    );
    assert!(!once.is_done());
}
