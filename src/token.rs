use vstd::prelude::*;

verus! {

/// A marker handed out by the scopes that hold the exclusive lock. It carries
/// no data: holding one stands for "the lock is held on this thread".
pub struct Python {
    no_fields: (),
}

impl Python {
    pub(crate) fn held() -> (r: Python) {
        Python { no_fields: () }
    }
}

} // verus!
