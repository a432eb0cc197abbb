//! The execution token: proof that the caller may touch the host runtime's
//! records.

use crate::err::PyResult;
use crate::ffi::object::{Host, NULL};
use crate::handle::{adopt, adopt_nonnull, adoptable, adopted, borrow, Borrowed, Owned};
use core::marker::PhantomData;
use vstd::prelude::*;

verus! {

/// The execution token. It holds nothing; a value of it stands for exclusive
/// access to the host runtime during the scope `'py`. Every operation on a
/// handle takes one.
#[derive(Clone, Copy)]
pub struct Python<'py> {
    scope: PhantomData<&'py ()>,
}

impl<'py> Python<'py> {
    /// A token for a caller that already holds exclusive access. The caller
    /// answers for that; nothing is acquired here.
    pub fn assume_gil_acquired() -> (py: Python<'py>) {
        Python { scope: PhantomData }
    }

    /// Runs `f` with a token. Exclusive access to a table is what a
    /// mutable borrow of it gives; the token marks the scope in which the
    /// handles that `f` makes may be used.
    pub fn with_gil<F, R>(f: F) -> (r: R) where F: for <'p>FnOnce(Python<'p>) -> R
        requires
            forall|py: Python<'_>| call_requires(f, (py,)),
        ensures
            exists|py: Python<'_>| call_ensures(f, (py,), r),
    {
        f(Python { scope: PhantomData })
    }

    /// An owned handle to the record at `ptr`, which a call into the
    /// runtime returned with a new reference; the pending error where `ptr`
    /// is null.
    pub fn from_owned_ptr_or_err(self, host: &mut Host, ptr: usize) -> (r: PyResult<Owned>)
        requires
            old(host).wf(),
            adoptable(old(host), ptr),
        ensures
            final(host).wf(),
            adopted(final(host), old(host), ptr, r),
    {
        adopt(self, host, ptr)
    }

    /// An owned handle to the record at `ptr`, which a call into the
    /// runtime returned with a new reference and which is known not to be
    /// null.
    pub fn from_owned_ptr(self, host: &mut Host, ptr: usize) -> (h: Owned)
        requires
            old(host).wf(),
            ptr != NULL,
            adoptable(old(host), ptr),
        ensures
            final(host).wf(),
            adopted(final(host), old(host), ptr, Ok::<Owned, crate::err::PyErr>(h)),
    {
        adopt_nonnull(self, host, ptr)
    }

    /// A borrowed handle to the record at `ptr`, whose reference is owned
    /// elsewhere.
    pub fn from_borrowed_ptr(self, host: &Host, ptr: usize) -> (h: Borrowed<'py>)
        requires
            host.is_live(ptr),
        ensures
            h.addr() == ptr,
            h.wf(host),
    {
        borrow(self, host, ptr)
    }
}

} // verus!
