use vstd::prelude::*;

verus! {

/// An opaque, non-null reference to an object whose reference count is
/// managed by the runtime. The library never looks behind it: it only
/// records, queues and hands back handles.
#[derive(Clone, Copy, Debug, PartialEq, Eq, Structural)]
pub struct Handle {
    addr: usize,
}

impl Handle {
    #[verifier::type_invariant]
    spec fn non_null(self) -> bool {
        self.addr != 0
    }

    /// The address that identifies the object.
    pub closed spec fn spec_addr(self) -> usize {
        self.addr
    }

    /// Wraps a non-null address; the null address gives `None`.
    pub fn new(addr: usize) -> (r: Option<Handle>)
        ensures
            addr == 0 <==> r.is_none(),
            r matches Some(h) ==> h.spec_addr() == addr,
    {
        if addr == 0 {
            None
        } else {
            Some(Handle { addr })
        }
    }

    /// The address that identifies the object.
    pub fn addr(&self) -> (r: usize)
        ensures
            r == self.spec_addr(),
            r != 0,
    {
        proof {
            use_type_invariant(self);
        }
        self.addr
    }
}

} // verus!
