//! List records read by their layout: a dense array of element addresses,
//! the number of elements, and the number of slots that are allocated.

use crate::ffi::object::{Body, Host, PyObject, LIST_TYPE, NULL};
use vstd::prelude::*;

verus! {

/// The header of a record of variable size: the common header and the
/// number of elements.
#[derive(Clone, Copy, Debug, PartialEq, Eq, Structural)]
pub struct PyVarObject {
    pub ob_base: PyObject,
    pub ob_size: isize,
}

/// The layout of a list record.
pub struct PyListObject {
    pub ob_base: PyVarObject,
    pub ob_item: Vec<usize>,
    pub allocated: isize,
}

/// The elements of the list at `op`, as addresses.
pub open spec fn items(host: &Host, op: usize) -> Seq<usize> {
    host.body(op)->ob_item@
}

/// Whether the record at `op` is a list whose elements fit in what is
/// allocated.
pub open spec fn is_list(host: &Host, op: usize) -> bool {
    &&& host.valid(op)
    &&& host.body(op) is List
    &&& items(host, op).len() <= host.body(op)->allocated
}

/// Creates a list of `len` empty slots, and returns its address with one
/// reference, which no handle owns.
pub fn PyList_New(host: &mut Host, len: isize) -> (op: usize)
    requires
        old(host).wf(),
        0 <= len,
    ensures
        final(host).wf(),
        final(host).count() == old(host).count() + 1,
        op == final(host).count(),
        final(host).grows_from(old(host)),
        final(host).header(op) == (PyObject { ob_refcnt: 1, ob_type: LIST_TYPE }),
        final(host).held(op) == 0,
        is_list(final(host), op),
        items(final(host), op) == Seq::new(len as nat, |i: int| NULL),
        final(host).body(op)->allocated == len,
{
    let mut ob_item: Vec<usize> = Vec::new();
    let mut i: isize = 0;
    while i < len
        invariant
            0 <= i <= len,
            ob_item@ == Seq::new(i as nat, |k: int| NULL),
        decreases len - i,
    {
        ob_item.push(NULL);
        i = i + 1;
    }
    host.new_record(LIST_TYPE, Body::List { ob_item, allocated: len })
}

/// The address of the element `i` of the list at `op`. The reference is
/// borrowed: no count changes.
pub fn PyList_GET_ITEM(host: &Host, op: usize, i: isize) -> (r: usize)
    requires
        host.wf(),
        is_list(host, op),
        0 <= i < items(host, op).len(),
    ensures
        r == items(host, op)[i as int],
{
    match host.get_body(op) {
        Body::List { ob_item, .. } => ob_item[i as usize],
        _ => NULL,
    }
}

/// Stores the address `v` as the element `i` of the list at `op`. It is
/// meant for filling a list that was just made: what the slot held is not
/// released.
pub fn PyList_SET_ITEM(host: &mut Host, op: usize, i: isize, v: usize)
    requires
        old(host).wf(),
        is_list(old(host), op),
        0 <= i < items(old(host), op).len(),
    ensures
        final(host).wf(),
        final(host).same_but_body(old(host), op),
        is_list(final(host), op),
        items(final(host), op) == items(old(host), op).update(i as int, v),
        final(host).body(op)->allocated == old(host).body(op)->allocated,
{
    host.set_list_item(op, i as usize, v);
}

/// The number of elements of the list at `op`.
pub fn PyList_GET_SIZE(host: &Host, op: usize) -> (n: isize)
    requires
        host.wf(),
        is_list(host, op),
    ensures
        n == items(host, op).len(),
{
    match host.get_body(op) {
        Body::List { ob_item, .. } => ob_item.len() as isize,
        _ => 0,
    }
}

/// The layout of the list at `op`, copied out.
pub fn PyList_CAST(host: &Host, op: usize) -> (list: PyListObject)
    requires
        host.wf(),
        is_list(host, op),
    ensures
        list.ob_base.ob_base == host.header(op),
        list.ob_base.ob_size == items(host, op).len(),
        list.ob_item@ == items(host, op),
        list.allocated == host.body(op)->allocated,
{
    let ob_base = host.get_header(op);
    match host.get_body(op) {
        Body::List { ob_item, allocated } => PyListObject {
            ob_base: PyVarObject { ob_base, ob_size: ob_item.len() as isize },
            ob_item: ob_item.clone(),
            allocated: *allocated,
        },
        _ => PyListObject {
            ob_base: PyVarObject { ob_base, ob_size: 0 },
            ob_item: Vec::new(),
            allocated: 0,
        },
    }
}

} // verus!
