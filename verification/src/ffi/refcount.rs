//! Reference counts and types of records, as the host runtime's interface
//! offers them.

use crate::ffi::object::{Body, Host, NULL, PY_NONE};
use crate::handle::{counts, step, Op};
use vstd::prelude::*;

verus! {

/// The reference count of the record at `ob`.
pub fn Py_REFCNT(host: &Host, ob: usize) -> (n: isize)
    requires
        host.valid(ob),
    ensures
        n == host.refcnt(ob),
{
    host.get_header(ob).ob_refcnt
}

/// The address of the type of the record at `ob`.
pub fn Py_TYPE(host: &Host, ob: usize) -> (t: usize)
    requires
        host.valid(ob),
    ensures
        t == host.type_of(ob),
{
    host.get_header(ob).ob_type
}

/// Adds one reference to the record at `op`. No handle owns the new
/// reference.
pub fn Py_INCREF(host: &mut Host, op: usize)
    requires
        old(host).wf(),
        old(host).valid(op),
        old(host).refcnt(op) < isize::MAX,
    ensures
        final(host).wf(),
        final(host).same_but_counts(old(host), op),
        final(host).refcnt(op) == old(host).refcnt(op) + 1,
        final(host).held(op) == old(host).held(op),
        counts(final(host), op) == step(Op::Produce, counts(old(host), op)),
{
    assert(old(host).record_wf(op));
    let n = host.get_header(op).ob_refcnt;
    let h = host.owned_references(op);
    host.set_counts(op, n + 1, h);
}

/// Drops one reference to the record at `op` that no handle owns.
pub fn Py_DECREF(host: &mut Host, op: usize)
    requires
        old(host).wf(),
        old(host).valid(op),
        old(host).unclaimed(op) > 0,
    ensures
        final(host).wf(),
        final(host).same_but_counts(old(host), op),
        final(host).refcnt(op) == old(host).refcnt(op) - 1,
        final(host).held(op) == old(host).held(op),
{
    assert(old(host).record_wf(op));
    let n = host.get_header(op).ob_refcnt;
    let h = host.owned_references(op);
    host.set_counts(op, n - 1, h);
}

/// Drops one reference to the record at `op` that no handle owns; does
/// nothing where `op` is null.
pub fn Py_XDECREF(host: &mut Host, op: usize)
    requires
        old(host).wf(),
        op != NULL ==> old(host).valid(op) && old(host).unclaimed(op) > 0,
    ensures
        final(host).wf(),
        op == NULL ==> *final(host) == *old(host),
        op != NULL ==> {
            &&& final(host).same_but_counts(old(host), op)
            &&& final(host).refcnt(op) == old(host).refcnt(op) - 1
            &&& final(host).held(op) == old(host).held(op)
        },
{
    if op != NULL {
        Py_DECREF(host, op);
    }
}

/// Drops one reference to the record at `o` that no handle owns; does
/// nothing where `o` is null.
pub fn Py_DecRef(host: &mut Host, o: usize)
    requires
        old(host).wf(),
        o != NULL ==> old(host).valid(o) && old(host).unclaimed(o) > 0,
    ensures
        final(host).wf(),
        o == NULL ==> *final(host) == *old(host),
        o != NULL ==> {
            &&& final(host).same_but_counts(old(host), o)
            &&& final(host).refcnt(o) == old(host).refcnt(o) - 1
            &&& final(host).held(o) == old(host).held(o)
        },
{
    Py_XDECREF(host, o)
}

/// The address of the value that stands for no value. The reference is
/// borrowed.
pub fn Py_None() -> (r: usize)
    ensures
        r == PY_NONE,
{
    PY_NONE
}

/// 1 where the record at `o` is a type, else 0.
pub fn PyType_Check(host: &Host, o: usize) -> (r: i32)
    requires
        host.wf(),
        host.valid(o),
    ensures
        r == if host.is_type(o) { 1i32 } else { 0i32 },
{
    match host.get_body(o) {
        Body::Type { .. } => 1,
        _ => 0,
    }
}

/// 1 where the type at `a` is the type at `b` or descends from it, else 0.
pub fn PyType_IsSubtype(host: &Host, a: usize, b: usize) -> (r: i32)
    requires
        host.wf(),
        host.valid(a),
    ensures
        r == if host.subtype(a, b) { 1i32 } else { 0i32 },
{
    let mut t: usize = a;
    while t != NULL
        invariant
            host.wf(),
            t == NULL || host.valid(t),
            host.subtype(a, b) == host.subtype(t, b),
        decreases t,
    {
        if t == b {
            return 1;
        }
        match host.get_body(t) {
            Body::Type { tp_base } => {
                if *tp_base < t {
                    t = *tp_base;
                } else {
                    return 0;
                }
            },
            _ => {
                return 0;
            },
        }
    }
    0
}

/// 1 where the record at `ob` is of the type at `tp` or of a type that
/// descends from it, else 0.
pub fn PyObject_TypeCheck(host: &Host, ob: usize, tp: usize) -> (r: i32)
    requires
        host.wf(),
        host.valid(ob),
    ensures
        r == if host.subtype(host.type_of(ob), tp) { 1i32 } else { 0i32 },
{
    assert(host.record_wf(ob));
    let t = Py_TYPE(host, ob);
    if t == tp {
        1
    } else {
        PyType_IsSubtype(host, t, tp)
    }
}

} // verus!
