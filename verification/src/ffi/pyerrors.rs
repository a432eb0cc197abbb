//! The host runtime's error indicator: the error that a failed call leaves
//! pending.

use crate::ffi::object::{Host, PyErrState, NULL};
use vstd::prelude::*;

verus! {

/// The address of the type of the pending error, or null where none is
/// pending.
pub fn PyErr_Occurred(host: &Host) -> (t: usize)
    ensures
        t == match host.pending() {
            Some(e) => e.ptype,
            None => NULL,
        },
{
    match host.get_pending() {
        Some(e) => e.ptype,
        None => NULL,
    }
}

/// Takes the pending error out of the indicator, which is clear afterwards.
pub fn PyErr_Fetch(host: &mut Host) -> (e: Option<PyErrState>)
    requires
        old(host).wf(),
    ensures
        final(host).wf(),
        final(host).same_records(old(host)),
        final(host).pending() is None,
        e == old(host).pending(),
{
    let e = host.get_pending();
    host.set_pending(None);
    e
}

/// Makes `state` the pending error, in place of any other.
pub fn PyErr_Restore(host: &mut Host, state: PyErrState)
    requires
        old(host).wf(),
    ensures
        final(host).wf(),
        final(host).same_records(old(host)),
        final(host).pending() == Some(state),
{
    host.set_pending(Some(state));
}

/// Makes an error of the type at `ptype`, without a value, the pending
/// error.
pub fn PyErr_SetNone(host: &mut Host, ptype: usize)
    requires
        old(host).wf(),
    ensures
        final(host).wf(),
        final(host).same_records(old(host)),
        final(host).pending() == Some(PyErrState { ptype, pvalue: NULL, ptraceback: NULL }),
{
    host.set_pending(Some(PyErrState { ptype, pvalue: NULL, ptraceback: NULL }));
}

/// Clears the indicator.
pub fn PyErr_Clear(host: &mut Host)
    requires
        old(host).wf(),
    ensures
        final(host).wf(),
        final(host).same_records(old(host)),
        final(host).pending() is None,
{
    host.set_pending(None);
}

} // verus!
