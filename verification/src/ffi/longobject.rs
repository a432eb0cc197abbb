//! Integer records.

use crate::ffi::object::{Body, Host, PyObject, LONG_TYPE};
use vstd::prelude::*;

verus! {

/// 1 where the record at `op` holds an integer, else 0.
pub fn PyLong_Check(host: &Host, op: usize) -> (r: i32)
    requires
        host.wf(),
        host.valid(op),
    ensures
        r == if host.body(op) is Long { 1i32 } else { 0i32 },
{
    match host.get_body(op) {
        Body::Long { .. } => 1,
        _ => 0,
    }
}

/// The integer that the record at `obj` holds.
pub fn PyLong_AsLong(host: &Host, obj: usize) -> (v: i64)
    requires
        host.wf(),
        host.valid(obj),
        host.body(obj) is Long,
    ensures
        v == host.body(obj)->ob_ival,
{
    match host.get_body(obj) {
        Body::Long { ob_ival } => *ob_ival,
        _ => 0,
    }
}

/// Creates a record that holds the integer `v`, and returns its address with
/// one reference, which no handle owns.
pub fn PyLong_FromLong(host: &mut Host, v: i64) -> (a: usize)
    requires
        old(host).wf(),
    ensures
        final(host).wf(),
        final(host).count() == old(host).count() + 1,
        a == final(host).count(),
        final(host).grows_from(old(host)),
        final(host).header(a) == (PyObject { ob_refcnt: 1, ob_type: LONG_TYPE }),
        final(host).held(a) == 0,
        final(host).body(a) == (Body::Long { ob_ival: v }),
{
    host.new_record(LONG_TYPE, Body::Long { ob_ival: v })
}

} // verus!
