use vstd::prelude::*;

verus! {

/// One piece of work that bringing the runtime up takes, in the order given.
#[derive(Clone, Copy, Debug, PartialEq, Eq, Structural)]
pub enum BootStep {
    /// Initialize the runtime with its signal handling switched off.
    InitializeWithoutSignals,
    /// Register the process-exit hook that finalizes the runtime if it is
    /// still initialized.
    RegisterExitHook,
    /// Initialize the runtime's threading.
    InitThreads,
    /// Release the lock that initialization left held.
    ReleaseLock,
}

/// What the runtime reports of itself before bootstrap.
#[derive(Clone, Copy, Debug, PartialEq, Eq, Structural)]
pub struct RuntimeStatus {
    pub initialized: bool,
    pub threads_initialized: bool,
}

/// The runtime is initialized but its threading is not: no other thread can
/// then take the lock safely, and nothing here can repair that.
#[derive(Clone, Copy, Debug, PartialEq, Eq, Structural)]
pub enum BootstrapError {
    ThreadsNotInitialized,
}

/// The work that brings up a runtime found in `status`.
pub open spec fn boot_steps(status: RuntimeStatus) -> Result<Seq<BootStep>, BootstrapError> {
    if status.initialized {
        if status.threads_initialized {
            Ok(Seq::empty())
        } else {
            Err(BootstrapError::ThreadsNotInitialized)
        }
    } else {
        Ok(
            seq![
                BootStep::InitializeWithoutSignals,
                BootStep::RegisterExitHook,
                BootStep::InitThreads,
                BootStep::ReleaseLock,
            ],
        )
    }
}

/// The run-once latch of bootstrap: set once a first run has succeeded.
pub struct StartOnce {
    done: bool,
}

impl StartOnce {
    pub closed spec fn spec_done(&self) -> bool {
        self.done
    }

    /// A latch that has not run.
    pub fn new() -> (r: StartOnce)
        ensures
            !r.spec_done(),
    {
        StartOnce { done: false }
    }

    /// Whether a run has succeeded.
    pub fn is_done(&self) -> (r: bool)
        ensures
            r == self.spec_done(),
    {
        self.done
    }
}

/// What a call of bootstrap returns, and whether the latch is set after it.
pub open spec fn boot_outcome(done: bool, status: RuntimeStatus) -> (
    bool,
    Result<Seq<BootStep>, BootstrapError>,
) {
    if done {
        (true, Ok(Seq::empty()))
    } else {
        (boot_steps(status) is Ok, boot_steps(status))
    }
}

/// Decides the work that prepares the runtime for use from any thread. Once
/// the latch is set nothing is left to do. Otherwise an initialized runtime
/// needs nothing, unless its threading is not initialized, which is an error;
/// an uninitialized one is initialized without signal handling, given an exit
/// hook, has its threading initialized, and the lock that this leaves held is
/// released. The latch is set when the result is `Ok`.
///
/// The caller holds a lock around the call and the work it returns, so that
/// racing first callers wait for the first to finish.
pub fn prepare_freethreaded_python(once: &mut StartOnce, status: RuntimeStatus) -> (r: Result<
    Vec<BootStep>,
    BootstrapError,
>)
    ensures
        final(once).spec_done() == boot_outcome(old(once).spec_done(), status).0,
        r matches Ok(v) ==> boot_outcome(old(once).spec_done(), status).1 == Ok::<
            Seq<BootStep>,
            BootstrapError,
        >(v@),
        r matches Err(e) ==> boot_outcome(old(once).spec_done(), status).1 == Err::<
            Seq<BootStep>,
            BootstrapError,
        >(e),
{
    if once.done {
        return Ok(Vec::new());
    }
    if status.initialized {
        if status.threads_initialized {
            once.done = true;
            Ok(Vec::new())
        } else {
            Err(BootstrapError::ThreadsNotInitialized)
        }
    } else {
        let steps = vec![
            BootStep::InitializeWithoutSignals,
            BootStep::RegisterExitHook,
            BootStep::InitThreads,
            BootStep::ReleaseLock,
        ];
        once.done = true;
        proof {
            assert(steps@ =~= seq![
                BootStep::InitializeWithoutSignals,
                BootStep::RegisterExitHook,
                BootStep::InitThreads,
                BootStep::ReleaseLock,
            ]);
        }
        Ok(steps)
    }
}

} // verus!
