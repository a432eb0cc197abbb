//! The error bridge: failures that the host runtime signals by a reserved
//! return value become structured errors.

use crate::ffi::object::{Host, PyErrState, NULL, SYSTEM_ERROR_TYPE, TYPE_ERROR_TYPE};
use crate::ffi::pyerrors::PyErr_Fetch;
use crate::python::Python;
use vstd::prelude::*;

verus! {

/// How a failure was noticed.
#[derive(Clone, Copy, Debug, PartialEq, Eq, Structural)]
pub enum PyErrKind {
    /// A call that returns a record returned the null address.
    NullHandle,
    /// A call that returns a status returned -1.
    SentinelFailure,
    /// A capability table could not be found or did not fit.
    CapabilityImportFailure,
    /// A value had the wrong type; raised on this side of the boundary.
    TypeError,
}

/// A structured error: how the failure was noticed, and the host runtime's
/// own error, from which its report can be rebuilt.
#[derive(Clone, Copy, Debug, PartialEq, Eq, Structural)]
pub struct PyErr {
    pub kind: PyErrKind,
    pub state: PyErrState,
}

/// The result of an operation that the host runtime may fail.
pub type PyResult<T> = Result<T, PyErr>;

/// A failed conversion of a handle: the address of the type that the record
/// has, and the address of the type that was asked for.
#[derive(Clone, Copy, Debug, PartialEq, Eq, Structural)]
pub struct PyDowncastError {
    pub found: usize,
    pub expected: usize,
}

/// The error that stands for a failure signalled while no error was pending.
pub open spec fn no_error_set() -> PyErrState {
    PyErrState { ptype: SYSTEM_ERROR_TYPE, pvalue: NULL, ptraceback: NULL }
}

/// The error that is taken from an indicator that holds `pending`.
pub open spec fn fetched(pending: Option<PyErrState>) -> PyErrState {
    match pending {
        Some(e) => e,
        None => no_error_set(),
    }
}

/// The error that a failed conversion becomes.
pub open spec fn downcast_error() -> PyErr {
    PyErr {
        kind: PyErrKind::TypeError,
        state: PyErrState { ptype: TYPE_ERROR_TYPE, pvalue: NULL, ptraceback: NULL },
    }
}

impl PyErr {
    /// Takes the pending error out of the host runtime's indicator and wraps
    /// it with `kind`. Where nothing is pending, the error is one of the type
    /// reserved for broken internal rules.
    pub fn fetch(py: Python<'_>, host: &mut Host, kind: PyErrKind) -> (e: PyErr)
        requires
            old(host).wf(),
        ensures
            final(host).wf(),
            final(host).same_records(old(host)),
            final(host).pending() is None,
            e == (PyErr { kind, state: fetched(old(host).pending()) }),
    {
        let state = match PyErr_Fetch(host) {
            Some(e) => e,
            None => PyErrState { ptype: SYSTEM_ERROR_TYPE, pvalue: NULL, ptraceback: NULL },
        };
        PyErr { kind, state }
    }

    /// An error of the wrong-type kind, raised on this side of the boundary.
    pub fn new_type_error() -> (e: PyErr)
        ensures
            e == downcast_error(),
    {
        PyErr {
            kind: PyErrKind::TypeError,
            state: PyErrState { ptype: TYPE_ERROR_TYPE, pvalue: NULL, ptraceback: NULL },
        }
    }

    /// The error that a failed conversion becomes.
    pub fn from_downcast(err: PyDowncastError) -> (e: PyErr)
        ensures
            e == downcast_error(),
    {
        PyErr::new_type_error()
    }
}

/// Turns the status that a call returned into a result: -1 is a failure,
/// whose pending error is taken; any other status is a success, and the
/// indicator is not touched.
pub fn error_on_minusone(py: Python<'_>, host: &mut Host, result: i32) -> (r: PyResult<()>)
    requires
        old(host).wf(),
    ensures
        final(host).wf(),
        result != -1 ==> r == Ok::<(), PyErr>(()) && *final(host) == *old(host),
        result == -1 ==> {
            &&& r == Err::<(), PyErr>(
                PyErr { kind: PyErrKind::SentinelFailure, state: fetched(old(host).pending()) },
            )
            &&& final(host).same_records(old(host))
            &&& final(host).pending() is None
        },
{
    if result != -1 {
        Ok(())
    } else {
        Err(PyErr::fetch(py, host, PyErrKind::SentinelFailure))
    }
}

} // verus!
