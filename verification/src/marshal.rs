//! The host runtime's binary interchange format, passed through.
//!
//! The format itself is the runtime's business. What stands here is what
//! becomes of the address that the runtime returned.

use crate::err::PyResult;
use crate::ffi::foreign::ForeignCall;
use crate::ffi::object::Host;
use crate::handle::{adopt, adoptable, adopted, Owned};
use crate::python::Python;
use crate::types::any::PyAny;
use vstd::prelude::*;

verus! {

/// The current version of the format.
pub const VERSION: i32 = 4;

/// The call that writes `object` in the format of `version`.
pub fn ask_dumps(object: &PyAny<'_>, version: i32) -> (call: ForeignCall)
    ensures
        call == (ForeignCall::PyMarshal_WriteObjectToString { x: object.addr(), version }),
{
    ForeignCall::PyMarshal_WriteObjectToString { x: object.as_ptr(), version }
}

/// The call that reads a record from `data`: the bytes are handed over
/// together with their number.
pub fn ask_loads(data: &[u8]) -> (call: ForeignCall)
    requires
        data@.len() <= isize::MAX,
    ensures
        call == (ForeignCall::PyMarshal_ReadObjectFromString { len: data@.len() as isize }),
{
    ForeignCall::PyMarshal_ReadObjectFromString { len: data.len() as isize }
}

/// The outcome of writing a record, given the address `bytes` of the byte
/// string that the runtime returned for `ask_dumps`: an owned handle to it,
/// or the pending error where it is null.
pub fn dumps(py: Python<'_>, host: &mut Host, bytes: usize) -> (r: PyResult<Owned>)
    requires
        old(host).wf(),
        adoptable(old(host), bytes),
    ensures
        final(host).wf(),
        adopted(final(host), old(host), bytes, r),
{
    adopt(py, host, bytes)
}

/// The outcome of reading a record, given the address `object` of the
/// record that the runtime returned for `ask_loads`: an owned handle to it,
/// or the pending error where it is null.
pub fn loads(py: Python<'_>, host: &mut Host, object: usize) -> (r: PyResult<Owned>)
    requires
        old(host).wf(),
        adoptable(old(host), object),
    ensures
        final(host).wf(),
        adopted(final(host), old(host), object, r),
{
    adopt(py, host, object)
}

} // verus!
