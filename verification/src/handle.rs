//! Handles to native toolkit objects.
//!
//! A native call that constructs or looks up an object returns its address,
//! and signals failure — allocation failed, nothing at that index, nothing
//! selected — by returning the null address. A binding never hands such an
//! address on as it is: it turns it into an `Option`, absent exactly when
//! the address was null, so that a held handle is always a live object's.
//! The handle stores the address as a plain integer; the unverified layer
//! that makes the native calls casts it back to a pointer.

use vstd::prelude::*;

verus! {

/// The address of a native object, known to be non-null.
#[derive(Clone, Copy, Debug, PartialEq, Eq, Structural)]
pub struct Handle {
    addr: usize,
}

impl Handle {
    /// The address the handle routes calls to.
    pub closed spec fn addr(self) -> usize {
        self.addr
    }

    /// A handle is well formed when it points at something: the null
    /// address never becomes a handle.
    pub open spec fn wf(self) -> bool {
        self.addr() != 0
    }

    /// Wrap the address a native call returned: a handle exactly when the
    /// address is non-null, and that handle carries the address unchanged.
    pub fn wrap(addr: usize) -> (h: Option<Handle>)
        ensures
            addr == 0 ==> h is None,
            addr != 0 ==> (h matches Some(hh) && hh.wf() && hh.addr() == addr),
    {
        if addr == 0 {
            None
        } else {
            Some(Handle { addr })
        }
    }

    /// The address to pass back into a native call.
    pub fn as_raw(&self) -> (addr: usize)
        ensures
            addr == self.addr(),
            self.wf() ==> addr != 0,
    {
        self.addr
    }
}

} // verus!
