// Coordination of reference-counted handles around one process-wide exclusive
// lock: a per-thread count of the scopes that hold the lock, batches that
// release the handles recorded under them, and a queue of reference changes
// requested by threads that do not hold the lock.

pub mod handle;
pub mod local;
pub mod token;
pub mod batch;
pub mod reference_pool;
pub mod guard;
pub mod bootstrap;
pub mod laws;
