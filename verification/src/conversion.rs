//! Conversions between handles and typed views, and from records to plain
//! values.

use crate::err::{downcast_error, PyErr, PyResult};
use crate::ffi::longobject::{PyLong_AsLong, PyLong_Check};
use crate::ffi::object::{Body, Host};
use crate::handle::Typed;
use crate::python::Python;
use crate::types::any::PyAny;
use vstd::prelude::*;

verus! {

/// A view of records of one type of the host runtime.
pub trait PyTypeObject {
    /// The address of the type.
    spec fn type_address() -> usize;

    /// The address of the type.
    fn type_object(py: Python<'_>) -> (t: usize)
        ensures
            t == Self::type_address(),
    ;
}

/// A view that can be made from a handle whose type was checked.
pub trait PyTryFrom<'py>: Sized + PyTypeObject {
    /// The address of the record that the view shows.
    spec fn view_addr(&self) -> usize;

    /// The view of the record of `handle`.
    fn from_typed(handle: Typed<'py>) -> (v: Self)
        requires
            handle.expected() == Self::type_address(),
        ensures
            v.view_addr() == handle.addr(),
    ;
}

/// A plain value that can be read out of a record.
pub trait FromPyObject: Sized {
    /// What reading the record at `ob` gives.
    spec fn extracted(host: &Host, ob: usize) -> PyResult<Self>;

    /// Reads the record of `ob`.
    fn extract(host: &Host, ob: &PyAny<'_>) -> (r: PyResult<Self>)
        requires
            host.wf(),
            host.valid(ob.addr()),
        ensures
            r == Self::extracted(host, ob.addr()),
    ;
}

impl FromPyObject for i64 {
    /// An integer record gives its value; any other record is of the wrong
    /// type.
    open spec fn extracted(host: &Host, ob: usize) -> PyResult<i64> {
        match host.body(ob) {
            Body::Long { ob_ival } => Ok(ob_ival),
            _ => Err(downcast_error()),
        }
    }

    fn extract(host: &Host, ob: &PyAny<'_>) -> (r: PyResult<i64>) {
        if PyLong_Check(host, ob.as_ptr()) == 1 {
            Ok(PyLong_AsLong(host, ob.as_ptr()))
        } else {
            Err(PyErr::new_type_error())
        }
    }
}

impl FromPyObject for i32 {
    /// An integer record whose value fits gives its value; any other record
    /// is refused.
    open spec fn extracted(host: &Host, ob: usize) -> PyResult<i32> {
        match host.body(ob) {
            Body::Long { ob_ival } => if i32::MIN <= ob_ival <= i32::MAX {
                Ok(ob_ival as i32)
            } else {
                Err(downcast_error())
            },
            _ => Err(downcast_error()),
        }
    }

    fn extract(host: &Host, ob: &PyAny<'_>) -> (r: PyResult<i32>) {
        if PyLong_Check(host, ob.as_ptr()) == 1 {
            let v = PyLong_AsLong(host, ob.as_ptr());
            if -0x8000_0000 <= v && v <= 0x7fff_ffff {
                Ok(v as i32)
            } else {
                Err(PyErr::new_type_error())
            }
        } else {
            Err(PyErr::new_type_error())
        }
    }
}

impl FromPyObject for u32 {
    /// An integer record whose value fits gives its value; any other record
    /// is refused.
    open spec fn extracted(host: &Host, ob: usize) -> PyResult<u32> {
        match host.body(ob) {
            Body::Long { ob_ival } => if 0 <= ob_ival <= u32::MAX {
                Ok(ob_ival as u32)
            } else {
                Err(downcast_error())
            },
            _ => Err(downcast_error()),
        }
    }

    fn extract(host: &Host, ob: &PyAny<'_>) -> (r: PyResult<u32>) {
        if PyLong_Check(host, ob.as_ptr()) == 1 {
            let v = PyLong_AsLong(host, ob.as_ptr());
            if 0 <= v && v <= 0xffff_ffff {
                Ok(v as u32)
            } else {
                Err(PyErr::new_type_error())
            }
        } else {
            Err(PyErr::new_type_error())
        }
    }
}

} // verus!
