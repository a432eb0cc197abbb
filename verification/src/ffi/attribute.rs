//! Attributes of records, looked up by name.
//!
//! The references that the table itself keeps to the values of attributes
//! are not counted: a reference count speaks of the references that were
//! handed across the boundary.

use crate::ffi::object::{
    Host, PyErrState, ATTRIBUTE_ERROR_TYPE, BUILTIN_TYPES, NULL, TYPE_ERROR_TYPE,
};
use crate::ffi::pyerrors::PyErr_SetNone;
use crate::ffi::refcount::Py_INCREF;
use vstd::prelude::*;

verus! {

/// The error that a missing attribute leaves pending.
pub open spec fn attribute_error() -> PyErrState {
    PyErrState { ptype: ATTRIBUTE_ERROR_TYPE, pvalue: NULL, ptraceback: NULL }
}

/// The error that a write to a built-in type leaves pending.
pub open spec fn type_error() -> PyErrState {
    PyErrState { ptype: TYPE_ERROR_TYPE, pvalue: NULL, ptraceback: NULL }
}

/// 1 where the record at `o` has the attribute `attr_name`, else 0.
pub fn PyObject_HasAttrString(host: &Host, o: usize, attr_name: &str) -> (r: i32)
    requires
        host.wf(),
        host.valid(o),
    ensures
        r == if host.attr(o, attr_name@) != NULL { 1i32 } else { 0i32 },
{
    let key = attr_name.to_owned();
    if host.find(o, &key) != NULL {
        1
    } else {
        0
    }
}

/// The value of the attribute `attr_name` of the record at `o`, with a new
/// reference to it that no handle owns. Where the record has no such
/// attribute, the result is null and an error is left pending.
pub fn PyObject_GetAttrString(host: &mut Host, o: usize, attr_name: &str) -> (r: usize)
    requires
        old(host).wf(),
        old(host).valid(o),
        old(host).attr(o, attr_name@) != NULL ==> old(host).refcnt(old(host).attr(o, attr_name@))
            < isize::MAX,
    ensures
        final(host).wf(),
        r == old(host).attr(o, attr_name@),
        r != NULL ==> {
            &&& final(host).valid(r)
            &&& final(host).same_but_counts(old(host), r)
            &&& final(host).refcnt(r) == old(host).refcnt(r) + 1
            &&& final(host).held(r) == old(host).held(r)
        },
        r == NULL ==> {
            &&& final(host).same_records(old(host))
            &&& final(host).pending() == Some(attribute_error())
        },
{
    let key = attr_name.to_owned();
    let v = host.find(o, &key);
    if v != NULL {
        Py_INCREF(host, v);
    } else {
        PyErr_SetNone(host, ATTRIBUTE_ERROR_TYPE);
    }
    v
}

/// Binds the attribute `attr_name` of the record at `o` to the record at
/// `v` and returns 0. The built-in types take no attributes: for one of them
/// the result is -1, nothing is bound and an error is left pending.
pub fn PyObject_SetAttrString(host: &mut Host, o: usize, attr_name: &str, v: usize) -> (r: i32)
    requires
        old(host).wf(),
        old(host).valid(o),
        old(host).valid(v),
    ensures
        final(host).wf(),
        final(host).same_contents(old(host)),
        o > BUILTIN_TYPES ==> {
            &&& r == 0
            &&& final(host).pending() == old(host).pending()
            &&& final(host).bindings() == old(host).bindings().push((o, attr_name@, v))
            &&& final(host).attr(o, attr_name@) == v
        },
        o <= BUILTIN_TYPES ==> {
            &&& r == -1
            &&& final(host).bindings() == old(host).bindings()
            &&& final(host).pending() == Some(type_error())
        },
{
    if o > BUILTIN_TYPES {
        host.bind(o, attr_name.to_owned(), v);
        0
    } else {
        PyErr_SetNone(host, TYPE_ERROR_TYPE);
        -1
    }
}

/// Removes the attribute `attr_name` of the record at `o` and returns 0.
/// Where the record has no such attribute, the result is -1, nothing changes
/// but the indicator, and an error is left pending.
pub fn PyObject_DelAttrString(host: &mut Host, o: usize, attr_name: &str) -> (r: i32)
    requires
        old(host).wf(),
        old(host).valid(o),
    ensures
        final(host).wf(),
        final(host).same_contents(old(host)),
        old(host).attr(o, attr_name@) != NULL ==> {
            &&& r == 0
            &&& final(host).pending() == old(host).pending()
            &&& final(host).bindings() == old(host).bindings().push((o, attr_name@, NULL))
            &&& final(host).attr(o, attr_name@) == NULL
        },
        old(host).attr(o, attr_name@) == NULL ==> {
            &&& r == -1
            &&& final(host).bindings() == old(host).bindings()
            &&& final(host).pending() == Some(attribute_error())
        },
{
    let key = attr_name.to_owned();
    if host.find(o, &key) != NULL {
        host.bind(o, key, NULL);
        0
    } else {
        PyErr_SetNone(host, ATTRIBUTE_ERROR_TYPE);
        -1
    }
}

/// A binding of one attribute leaves every other attribute as it was.
pub proof fn lemma_bind_keeps_others(
    bindings: Seq<(usize, Seq<char>, usize)>,
    o: usize,
    name: Seq<char>,
    v: usize,
    o2: usize,
    name2: Seq<char>,
)
    requires
        o2 != o || name2 != name,
    ensures
        crate::ffi::object::lookup(bindings.push((o, name, v)), o2, name2)
            == crate::ffi::object::lookup(bindings, o2, name2),
{
    assert(bindings.push((o, name, v)).drop_last() =~= bindings);
}

} // verus!
