//! The view of any record: what can be asked of every record of the host
//! runtime.
//!
//! What a record answers is decided inside the host runtime. A method here
//! that stands for such a question takes the answer that the runtime gave,
//! and says what becomes of it: which handle is made, which error is
//! returned, and which references are dropped.

use crate::conversion::{FromPyObject, PyTryFrom, PyTypeObject};
use crate::err::{error_on_minusone, fetched, PyDowncastError, PyErr, PyErrKind, PyResult};
use crate::ffi::foreign::ForeignCall;
use crate::ffi::attribute::{
    attribute_error, type_error, PyObject_DelAttrString, PyObject_GetAttrString,
    PyObject_HasAttrString, PyObject_SetAttrString,
};
use crate::ffi::object::{
    lemma_descends_from_object, Host, BUILTIN_TYPES, NULL, OBJECT_TYPE, PY_NONE,
};
use crate::ffi::refcount::{Py_None, Py_REFCNT, Py_TYPE};
use crate::handle::{
    adopt, adopt_nonnull, adoptable, adopted, borrow, downcast, type_matches, Borrowed, Owned, Typed,
};
use crate::python::Python;
use vstd::prelude::*;

verus! {

/// The view of any record, through a borrowed handle.
#[derive(Clone, Copy)]
pub struct PyAny<'py> {
    handle: Borrowed<'py>,
}

/// The check for the view of any record, which every record passes: 1,
/// as the type of every record descends from the root type.
pub fn PyObject_Check(host: &Host, op: usize) -> (r: i32)
    requires
        host.wf(),
        host.valid(op),
    ensures
        r == 1,
        type_matches(host, op, OBJECT_TYPE, false),
{
    proof {
        assert(host.record_wf(op));
        lemma_descends_from_object(host, host.type_of(op));
    }
    1
}

impl<'py> PyAny<'py> {
    /// The address of the record.
    pub closed spec fn addr(&self) -> usize {
        self.handle.addr()
    }

    /// Whether the view shows a record of `host` that is referenced.
    pub open spec fn wf(&self, host: &Host) -> bool {
        host.is_live(self.addr())
    }

    /// The view of the record of `handle`.
    pub fn from_borrowed(handle: Borrowed<'py>) -> (any: Self)
        ensures
            any.addr() == handle.addr(),
    {
        PyAny { handle }
    }

    /// The borrowed handle behind the view.
    pub fn as_borrowed(&self) -> (h: Borrowed<'py>)
        ensures
            h.addr() == self.addr(),
    {
        self.handle
    }

    /// The address of the record.
    pub fn as_ptr(&self) -> (a: usize)
        ensures
            a == self.addr(),
    {
        self.handle.as_ptr()
    }

    /// The execution token, which whoever holds a view holds too.
    pub fn py(&self) -> (py: Python<'py>) {
        Python::assume_gil_acquired()
    }

    /// Converts the view to the view of records of the type of `T`, where
    /// the record is of that type or of one that descends from it.
    /// Otherwise reports the type that was found.
    pub fn downcast<T: PyTryFrom<'py>>(&self, host: &Host) -> (r: Result<T, PyDowncastError>)
        requires
            host.wf(),
            host.valid(self.addr()),
        ensures
            type_matches(host, self.addr(), T::type_address(), false) ==> {
                &&& r is Ok
                &&& r->Ok_0.view_addr() == self.addr()
            },
            !type_matches(host, self.addr(), T::type_address(), false) ==> r == Err::<
                T,
                PyDowncastError,
            >(PyDowncastError { found: host.type_of(self.addr()), expected: T::type_address() }),
    {
        let py = self.py();
        match downcast(py, host, self.handle, T::type_object(py)) {
            Ok(typed) => Ok(T::from_typed(typed)),
            Err(e) => Err(e),
        }
    }

    /// Converts the view to the view of records of the type of `D`, as
    /// `downcast` does.
    pub fn cast_as<D: PyTryFrom<'py>>(&self, host: &Host) -> (r: Result<D, PyDowncastError>)
        requires
            host.wf(),
            host.valid(self.addr()),
        ensures
            type_matches(host, self.addr(), D::type_address(), false) ==> {
                &&& r is Ok
                &&& r->Ok_0.view_addr() == self.addr()
            },
            !type_matches(host, self.addr(), D::type_address(), false) ==> r == Err::<
                D,
                PyDowncastError,
            >(PyDowncastError { found: host.type_of(self.addr()), expected: D::type_address() }),
    {
        self.downcast::<D>(host)
    }

    /// Reads a plain value out of the record.
    pub fn extract<D: FromPyObject>(&self, host: &Host) -> (r: PyResult<D>)
        requires
            host.wf(),
            host.valid(self.addr()),
        ensures
            r == D::extracted(host, self.addr()),
    {
        D::extract(host, self)
    }

    /// Whether the record is of the type of `T` or of one that descends
    /// from it. The check never fails.
    pub fn is_instance<T: PyTypeObject>(&self, host: &Host) -> (r: PyResult<bool>)
        requires
            host.wf(),
            host.valid(self.addr()),
        ensures
            r == Ok::<bool, PyErr>(
                type_matches(host, self.addr(), T::type_address(), false),
            ),
    {
        let py = self.py();
        Ok(crate::handle::type_check(py, host, self.handle, T::type_object(py), false))
    }
}

/// What becomes of a status that a call into the runtime returned: -1
/// is a failure with the pending error; any other status is a success.
pub open spec fn status_outcome(pending: Option<crate::ffi::object::PyErrState>, status: int)
    -> PyResult<()> {
    if status == -1 {
        Err(PyErr { kind: PyErrKind::SentinelFailure, state: fetched(pending) })
    } else {
        Ok(())
    }
}

/// What holds of the runtime once a status was judged: a failure took the
/// pending error, a success touched nothing.
pub open spec fn status_judged(new: &Host, old: &Host, status: int) -> bool {
    &&& new.same_records(old)
    &&& new.pending() == if status == -1 {
        None
    } else {
        old.pending()
    }
}

impl<'py> PyAny<'py> {
    /// Whether the record has the attribute `attr_name`. The check never
    /// fails.
    pub fn hasattr(&self, host: &Host, attr_name: &str) -> (r: PyResult<bool>)
        requires
            host.wf(),
            host.valid(self.addr()),
        ensures
            r == Ok::<bool, PyErr>(host.attr(self.addr(), attr_name@) != NULL),
    {
        Ok(PyObject_HasAttrString(host, self.as_ptr(), attr_name) != 0)
    }

    /// The value of the attribute `attr_name`, as an owned handle. Where
    /// the record has no such attribute, the error that the lookup left
    /// pending is returned.
    pub fn getattr(&self, host: &mut Host, attr_name: &str) -> (r: PyResult<Owned>)
        requires
            old(host).wf(),
            old(host).valid(self.addr()),
            old(host).attr(self.addr(), attr_name@) != NULL ==> old(host).refcnt(
                old(host).attr(self.addr(), attr_name@),
            ) < isize::MAX,
        ensures
            final(host).wf(),
            old(host).attr(self.addr(), attr_name@) == NULL ==> {
                &&& r == Err::<Owned, PyErr>(
                    PyErr { kind: PyErrKind::NullHandle, state: attribute_error() },
                )
                &&& final(host).same_records(old(host))
                &&& final(host).pending() is None
            },
            old(host).attr(self.addr(), attr_name@) != NULL ==> {
                &&& r is Ok
                &&& r->Ok_0.addr() == old(host).attr(self.addr(), attr_name@)
                &&& r->Ok_0.wf(final(host))
                &&& final(host).same_but_counts(old(host), r->Ok_0.addr())
                &&& final(host).refcnt(r->Ok_0.addr()) == old(host).refcnt(r->Ok_0.addr()) + 1
                &&& final(host).held(r->Ok_0.addr()) == old(host).held(r->Ok_0.addr()) + 1
            },
    {
        let py = self.py();
        let ptr = PyObject_GetAttrString(host, self.as_ptr(), attr_name);
        proof {
            if ptr != NULL {
                assert(old(host).record_wf(ptr));
            }
        }
        let r = adopt(py, host, ptr);
        r
    }

    /// Binds the attribute `attr_name` to the record of `value`. The
    /// built-in types take no attributes: for one of them the error that
    /// the runtime left pending is returned.
    pub fn setattr(&self, host: &mut Host, attr_name: &str, value: &PyAny<'_>) -> (r: PyResult<()>)
        requires
            old(host).wf(),
            old(host).valid(self.addr()),
            old(host).valid(value.addr()),
        ensures
            final(host).wf(),
            final(host).same_contents(old(host)),
            self.addr() > BUILTIN_TYPES ==> {
                &&& r == Ok::<(), PyErr>(())
                &&& final(host).pending() == old(host).pending()
                &&& final(host).attr(self.addr(), attr_name@) == value.addr()
                &&& final(host).bindings() == old(host).bindings().push(
                    (self.addr(), attr_name@, value.addr()),
                )
            },
            self.addr() <= BUILTIN_TYPES ==> {
                &&& r == Err::<(), PyErr>(
                    PyErr { kind: PyErrKind::SentinelFailure, state: type_error() },
                )
                &&& final(host).pending() is None
                &&& final(host).bindings() == old(host).bindings()
            },
    {
        let py = self.py();
        let status = PyObject_SetAttrString(host, self.as_ptr(), attr_name, value.as_ptr());
        let r = error_on_minusone(py, host, status);
        r
    }

    /// Removes the attribute `attr_name`. Where the record has no such
    /// attribute, the error that the runtime left pending is returned.
    pub fn delattr(&self, host: &mut Host, attr_name: &str) -> (r: PyResult<()>)
        requires
            old(host).wf(),
            old(host).valid(self.addr()),
        ensures
            final(host).wf(),
            final(host).same_contents(old(host)),
            old(host).attr(self.addr(), attr_name@) != NULL ==> {
                &&& r == Ok::<(), PyErr>(())
                &&& final(host).pending() == old(host).pending()
                &&& final(host).attr(self.addr(), attr_name@) == NULL
            },
            old(host).attr(self.addr(), attr_name@) == NULL ==> {
                &&& r == Err::<(), PyErr>(
                    PyErr { kind: PyErrKind::SentinelFailure, state: attribute_error() },
                )
                &&& final(host).pending() is None
                &&& final(host).bindings() == old(host).bindings()
            },
    {
        let py = self.py();
        let status = PyObject_DelAttrString(host, self.as_ptr(), attr_name);
        let r = error_on_minusone(py, host, status);
        r
    }

    /// Whether the record may be called, given what the runtime returned
    /// for `ask_is_callable`.
    pub fn is_callable(&self, check: i32) -> (b: bool)
        ensures
            b == (check != 0),
    {
        check != 0
    }

    /// Whether the record counts as true, given the status `v` that the
    /// runtime returned for `ask_is_true`: -1 is a failure, whose pending
    /// error is returned; 0 is false; any other status is true.
    pub fn is_true(&self, host: &mut Host, v: i32) -> (r: PyResult<bool>)
        requires
            old(host).wf(),
        ensures
            final(host).wf(),
            status_judged(final(host), old(host), v as int),
            r == match status_outcome(old(host).pending(), v as int) {
                Ok(_) => Ok::<bool, PyErr>(v != 0),
                Err(e) => Err(e),
            },
    {
        match error_on_minusone(self.py(), host, v) {
            Ok(_) => Ok(v != 0),
            Err(e) => Err(e),
        }
    }

    /// Whether the record is the value that stands for no value.
    pub fn is_none(&self) -> (b: bool)
        ensures
            b == (self.addr() == PY_NONE),
    {
        Py_None() == self.as_ptr()
    }

    /// The hash code of the record, given the code `v` that the runtime
    /// returned for `ask_hash`: -1 is a failure, whose pending error is
    /// returned.
    pub fn hash(&self, host: &mut Host, v: isize) -> (r: PyResult<isize>)
        requires
            old(host).wf(),
        ensures
            final(host).wf(),
            status_judged(final(host), old(host), v as int),
            r == match status_outcome(old(host).pending(), v as int) {
                Ok(_) => Ok::<isize, PyErr>(v),
                Err(e) => Err(e),
            },
    {
        if v == -1 {
            Err(PyErr::fetch(self.py(), host, PyErrKind::SentinelFailure))
        } else {
            Ok(v)
        }
    }

    /// The length of the record, given the size `v` that the runtime
    /// returned for `ask_len`: -1 is a failure, whose pending error is
    /// returned.
    pub fn len(&self, host: &mut Host, v: isize) -> (r: PyResult<usize>)
        requires
            old(host).wf(),
        ensures
            final(host).wf(),
            status_judged(final(host), old(host), v as int),
            r == match status_outcome(old(host).pending(), v as int) {
                Ok(_) => Ok::<usize, PyErr>(v as usize),
                Err(e) => Err(e),
            },
    {
        if v == -1 {
            Err(PyErr::fetch(self.py(), host, PyErrKind::SentinelFailure))
        } else {
            Ok(
                #[verifier::truncate]
                (v as usize),
            )
        }
    }

    /// Whether the record has length 0, given the size `v` that the runtime
    /// returned for `ask_len`: -1 is a failure, whose pending error is
    /// returned.
    pub fn is_empty(&self, host: &mut Host, v: isize) -> (r: PyResult<bool>)
        requires
            old(host).wf(),
        ensures
            final(host).wf(),
            status_judged(final(host), old(host), v as int),
            r == match status_outcome(old(host).pending(), v as int) {
                Ok(_) => Ok::<bool, PyErr>(v as usize == 0),
                Err(e) => Err(e),
            },
    {
        match self.len(host, v) {
            Ok(l) => Ok(l == 0),
            Err(e) => Err(e),
        }
    }

    /// The reference count of the record.
    pub fn get_refcnt(&self, host: &Host) -> (n: isize)
        requires
            host.valid(self.addr()),
        ensures
            n == host.refcnt(self.addr()),
    {
        Py_REFCNT(host, self.as_ptr())
    }

    /// The address of the type of the record.
    pub fn get_type_ptr(&self, host: &Host) -> (t: usize)
        requires
            host.valid(self.addr()),
        ensures
            t == host.type_of(self.addr()),
    {
        Py_TYPE(host, self.as_ptr())
    }

    /// The type of the record, as a borrowed view: the record keeps the
    /// reference to its type.
    pub fn get_type(&self, host: &Host) -> (t: PyAny<'py>)
        requires
            host.wf(),
            host.valid(self.addr()),
            host.refcnt(host.type_of(self.addr())) > 0,
        ensures
            t.addr() == host.type_of(self.addr()),
            t.wf(host),
    {
        assert(host.record_wf(self.addr()));
        PyAny { handle: borrow(self.py(), host, Py_TYPE(host, self.as_ptr())) }
    }
}

impl<'py> PyAny<'py> {
    /// The outcome of a comparison of the record with another, given the
    /// address `result` that the runtime returned for `ask_rich_compare`: an
    /// owned handle to it, or the pending error where it is null.
    pub fn rich_compare(&self, host: &mut Host, result: usize) -> (r: PyResult<Owned>)
        requires
            old(host).wf(),
            adoptable(old(host), result),
        ensures
            final(host).wf(),
            adopted(final(host), old(host), result, r),
    {
        adopt(self.py(), host, result)
    }

    /// The outcome of calling the record without arguments, given the
    /// address `result` that the runtime returned for `ask_call0`: an owned
    /// handle to it, or the pending error where it is null.
    pub fn call0(&self, host: &mut Host, result: usize) -> (r: PyResult<Owned>)
        requires
            old(host).wf(),
            adoptable(old(host), result),
        ensures
            final(host).wf(),
            adopted(final(host), old(host), result, r),
    {
        adopt(self.py(), host, result)
    }

    /// An item of the record, given the address `result` that the runtime
    /// returned for `ask_get_item`: an owned handle to it, or the pending
    /// error where it is null.
    pub fn get_item(&self, host: &mut Host, result: usize) -> (r: PyResult<Owned>)
        requires
            old(host).wf(),
            adoptable(old(host), result),
        ensures
            final(host).wf(),
            adopted(final(host), old(host), result, r),
    {
        adopt(self.py(), host, result)
    }

    /// The outcome of storing an item in the record, given the status that
    /// the runtime returned for `ask_set_item`: -1 is a failure, whose
    /// pending error is returned.
    pub fn set_item(&self, host: &mut Host, status: i32) -> (r: PyResult<()>)
        requires
            old(host).wf(),
        ensures
            final(host).wf(),
            status_judged(final(host), old(host), status as int),
            r == status_outcome(old(host).pending(), status as int),
    {
        error_on_minusone(self.py(), host, status)
    }

    /// The outcome of removing an item of the record, given the status
    /// that the runtime returned for `ask_del_item`: -1 is a failure, whose
    /// pending error is returned.
    pub fn del_item(&self, host: &mut Host, status: i32) -> (r: PyResult<()>)
        requires
            old(host).wf(),
        ensures
            final(host).wf(),
            status_judged(final(host), old(host), status as int),
            r == status_outcome(old(host).pending(), status as int),
    {
        error_on_minusone(self.py(), host, status)
    }

    /// An iterator over the record, given the address `result` that the
    /// runtime returned for `ask_iter`: an owned handle to it, or the
    /// pending error where it is null.
    pub fn iter(&self, host: &mut Host, result: usize) -> (r: PyResult<Owned>)
        requires
            old(host).wf(),
            adoptable(old(host), result),
        ensures
            final(host).wf(),
            adopted(final(host), old(host), result, r),
    {
        adopt(self.py(), host, result)
    }

    /// The printable form of the record, given the address `result` that
    /// the runtime returned for `ask_repr`: an owned handle to it, or the
    /// pending error where it is null.
    pub fn repr(&self, host: &mut Host, result: usize) -> (r: PyResult<Owned>)
        requires
            old(host).wf(),
            adoptable(old(host), result),
        ensures
            final(host).wf(),
            adopted(final(host), old(host), result, r),
    {
        adopt(self.py(), host, result)
    }

    /// The text form of the record, given the address `result` that the
    /// runtime returned for `ask_str`: an owned handle to it, or the pending
    /// error where it is null.
    pub fn str(&self, host: &mut Host, result: usize) -> (r: PyResult<Owned>)
        requires
            old(host).wf(),
            adoptable(old(host), result),
        ensures
            final(host).wf(),
            adopted(final(host), old(host), result, r),
    {
        adopt(self.py(), host, result)
    }

    /// The list of the names of the record's attributes, given the address
    /// `result` that the runtime returned for `ask_dir`, which is never
    /// null: an owned handle to it.
    pub fn dir(&self, host: &mut Host, result: usize) -> (list: Owned)
        requires
            old(host).wf(),
            result != NULL,
            adoptable(old(host), result),
        ensures
            final(host).wf(),
            adopted(final(host), old(host), result, Ok::<Owned, PyErr>(list)),
    {
        adopt_nonnull(self.py(), host, result)
    }
}

/// The comparisons that can be asked of two records.
#[derive(Clone, Copy, Debug, PartialEq, Eq, Structural)]
pub enum CompareOp {
    Lt,
    Le,
    Eq,
    Ne,
    Gt,
    Ge,
}

impl CompareOp {
    /// The number by which the runtime knows the comparison.
    pub fn to_int(self) -> (n: i32)
        ensures
            n == op_code(self),
    {
        match self {
            CompareOp::Lt => 0,
            CompareOp::Le => 1,
            CompareOp::Eq => 2,
            CompareOp::Ne => 3,
            CompareOp::Gt => 4,
            CompareOp::Ge => 5,
        }
    }
}

/// The number by which the runtime knows the comparison `op`.
pub open spec fn op_code(op: CompareOp) -> i32 {
    match op {
        CompareOp::Lt => 0i32,
        CompareOp::Le => 1i32,
        CompareOp::Eq => 2i32,
        CompareOp::Ne => 3i32,
        CompareOp::Gt => 4i32,
        CompareOp::Ge => 5i32,
    }
}

impl<'py> PyAny<'py> {
    /// The call that compares the record with `other` by `compare_op`.
    pub fn ask_rich_compare(&self, other: &PyAny<'_>, compare_op: CompareOp) -> (call: ForeignCall)
        ensures
            call == (ForeignCall::PyObject_RichCompare {
                o1: self.addr(),
                o2: other.addr(),
                opid: op_code(compare_op),
            }),
    {
        ForeignCall::PyObject_RichCompare {
            o1: self.as_ptr(),
            o2: other.as_ptr(),
            opid: compare_op.to_int(),
        }
    }

    /// The call that tests whether the record may be called.
    pub fn ask_is_callable(&self) -> (call: ForeignCall)
        ensures
            call == (ForeignCall::PyCallable_Check { o: self.addr() }),
    {
        ForeignCall::PyCallable_Check { o: self.as_ptr() }
    }

    /// The call that tests the truth of the record.
    pub fn ask_is_true(&self) -> (call: ForeignCall)
        ensures
            call == (ForeignCall::PyObject_IsTrue { o: self.addr() }),
    {
        ForeignCall::PyObject_IsTrue { o: self.as_ptr() }
    }

    /// The call that computes the hash code of the record.
    pub fn ask_hash(&self) -> (call: ForeignCall)
        ensures
            call == (ForeignCall::PyObject_Hash { o: self.addr() }),
    {
        ForeignCall::PyObject_Hash { o: self.as_ptr() }
    }

    /// The call that computes the length of the record.
    pub fn ask_len(&self) -> (call: ForeignCall)
        ensures
            call == (ForeignCall::PyObject_Size { o: self.addr() }),
    {
        ForeignCall::PyObject_Size { o: self.as_ptr() }
    }

    /// The call that calls the record without arguments.
    pub fn ask_call0(&self) -> (call: ForeignCall)
        ensures
            call == (ForeignCall::PyObject_CallNoArgs { func: self.addr() }),
    {
        ForeignCall::PyObject_CallNoArgs { func: self.as_ptr() }
    }

    /// The call that looks up the item of the record under `key`.
    pub fn ask_get_item(&self, key: &PyAny<'_>) -> (call: ForeignCall)
        ensures
            call == (ForeignCall::PyObject_GetItem { o: self.addr(), key: key.addr() }),
    {
        ForeignCall::PyObject_GetItem { o: self.as_ptr(), key: key.as_ptr() }
    }

    /// The call that stores `value` in the record under `key`.
    pub fn ask_set_item(&self, key: &PyAny<'_>, value: &PyAny<'_>) -> (call: ForeignCall)
        ensures
            call == (ForeignCall::PyObject_SetItem { o: self.addr(), key: key.addr(), v: value.addr() }),
    {
        ForeignCall::PyObject_SetItem { o: self.as_ptr(), key: key.as_ptr(), v: value.as_ptr() }
    }

    /// The call that removes the item of the record under `key`.
    pub fn ask_del_item(&self, key: &PyAny<'_>) -> (call: ForeignCall)
        ensures
            call == (ForeignCall::PyObject_DelItem { o: self.addr(), key: key.addr() }),
    {
        ForeignCall::PyObject_DelItem { o: self.as_ptr(), key: key.as_ptr() }
    }

    /// The call that makes an iterator over the record.
    pub fn ask_iter(&self) -> (call: ForeignCall)
        ensures
            call == (ForeignCall::PyObject_GetIter { o: self.addr() }),
    {
        ForeignCall::PyObject_GetIter { o: self.as_ptr() }
    }

    /// The call that makes the printable form of the record.
    pub fn ask_repr(&self) -> (call: ForeignCall)
        ensures
            call == (ForeignCall::PyObject_Repr { o: self.addr() }),
    {
        ForeignCall::PyObject_Repr { o: self.as_ptr() }
    }

    /// The call that makes the text form of the record.
    pub fn ask_str(&self) -> (call: ForeignCall)
        ensures
            call == (ForeignCall::PyObject_Str { o: self.addr() }),
    {
        ForeignCall::PyObject_Str { o: self.as_ptr() }
    }

    /// The call that lists the names of the attributes of the record.
    pub fn ask_dir(&self) -> (call: ForeignCall)
        ensures
            call == (ForeignCall::PyObject_Dir { o: self.addr() }),
    {
        ForeignCall::PyObject_Dir { o: self.as_ptr() }
    }
}

impl<'py> PyTypeObject for PyAny<'py> {
    open spec fn type_address() -> usize {
        OBJECT_TYPE
    }

    fn type_object(py: Python<'_>) -> (t: usize) {
        OBJECT_TYPE
    }
}

impl<'py> PyTryFrom<'py> for PyAny<'py> {
    open spec fn view_addr(&self) -> usize {
        self.addr()
    }

    fn from_typed(handle: Typed<'py>) -> (v: Self) {
        PyAny { handle: handle.as_borrowed() }
    }
}

} // verus!
