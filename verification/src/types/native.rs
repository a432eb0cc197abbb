//! Views of records of the built-in types.

use crate::conversion::{PyTryFrom, PyTypeObject};
use crate::err::{downcast_error, PyErr, PyResult};
use crate::ffi::object::{Body, Host, BYTES_TYPE, LIST_TYPE, LONG_TYPE, TYPE_TYPE, UNICODE_TYPE};
use crate::handle::Typed;
use crate::python::Python;
use crate::types::any::PyAny;
use vstd::prelude::*;

verus! {

/// The view of a record that was checked to be a integer.
#[derive(Clone, Copy)]
pub struct PyLong<'py> {
    handle: Typed<'py>,
}

impl<'py> PyLong<'py> {
    /// The address of the record.
    pub closed spec fn addr(&self) -> usize {
        self.handle.addr()
    }

    /// The address of the record.
    pub fn as_ptr(&self) -> (a: usize)
        ensures
            a == self.addr(),
    {
        self.handle.as_ptr()
    }

    /// The same record, seen as any record.
    pub fn as_any(&self) -> (any: PyAny<'py>)
        ensures
            any.addr() == self.addr(),
    {
        PyAny::from_borrowed(self.handle.as_borrowed())
    }
}

impl<'py> PyTypeObject for PyLong<'py> {
    open spec fn type_address() -> usize {
        LONG_TYPE
    }

    fn type_object(py: Python<'_>) -> (t: usize) {
        LONG_TYPE
    }
}

impl<'py> PyTryFrom<'py> for PyLong<'py> {
    open spec fn view_addr(&self) -> usize {
        self.addr()
    }

    fn from_typed(handle: Typed<'py>) -> (v: Self) {
        PyLong { handle }
    }
}

/// The view of a record that was checked to be a list.
#[derive(Clone, Copy)]
pub struct PyList<'py> {
    handle: Typed<'py>,
}

impl<'py> PyList<'py> {
    /// The address of the record.
    pub closed spec fn addr(&self) -> usize {
        self.handle.addr()
    }

    /// The address of the record.
    pub fn as_ptr(&self) -> (a: usize)
        ensures
            a == self.addr(),
    {
        self.handle.as_ptr()
    }

    /// The same record, seen as any record.
    pub fn as_any(&self) -> (any: PyAny<'py>)
        ensures
            any.addr() == self.addr(),
    {
        PyAny::from_borrowed(self.handle.as_borrowed())
    }
}

impl<'py> PyTypeObject for PyList<'py> {
    open spec fn type_address() -> usize {
        LIST_TYPE
    }

    fn type_object(py: Python<'_>) -> (t: usize) {
        LIST_TYPE
    }
}

impl<'py> PyTryFrom<'py> for PyList<'py> {
    open spec fn view_addr(&self) -> usize {
        self.addr()
    }

    fn from_typed(handle: Typed<'py>) -> (v: Self) {
        PyList { handle }
    }
}

/// The view of a record that was checked to be a byte string.
#[derive(Clone, Copy)]
pub struct PyBytes<'py> {
    handle: Typed<'py>,
}

impl<'py> PyBytes<'py> {
    /// The address of the record.
    pub closed spec fn addr(&self) -> usize {
        self.handle.addr()
    }

    /// The address of the record.
    pub fn as_ptr(&self) -> (a: usize)
        ensures
            a == self.addr(),
    {
        self.handle.as_ptr()
    }

    /// The same record, seen as any record.
    pub fn as_any(&self) -> (any: PyAny<'py>)
        ensures
            any.addr() == self.addr(),
    {
        PyAny::from_borrowed(self.handle.as_borrowed())
    }
}

impl<'py> PyTypeObject for PyBytes<'py> {
    open spec fn type_address() -> usize {
        BYTES_TYPE
    }

    fn type_object(py: Python<'_>) -> (t: usize) {
        BYTES_TYPE
    }
}

impl<'py> PyTryFrom<'py> for PyBytes<'py> {
    open spec fn view_addr(&self) -> usize {
        self.addr()
    }

    fn from_typed(handle: Typed<'py>) -> (v: Self) {
        PyBytes { handle }
    }
}

/// The view of a record that was checked to be a text string.
#[derive(Clone, Copy)]
pub struct PyString<'py> {
    handle: Typed<'py>,
}

impl<'py> PyString<'py> {
    /// The address of the record.
    pub closed spec fn addr(&self) -> usize {
        self.handle.addr()
    }

    /// The address of the record.
    pub fn as_ptr(&self) -> (a: usize)
        ensures
            a == self.addr(),
    {
        self.handle.as_ptr()
    }

    /// The same record, seen as any record.
    pub fn as_any(&self) -> (any: PyAny<'py>)
        ensures
            any.addr() == self.addr(),
    {
        PyAny::from_borrowed(self.handle.as_borrowed())
    }
}

impl<'py> PyTypeObject for PyString<'py> {
    open spec fn type_address() -> usize {
        UNICODE_TYPE
    }

    fn type_object(py: Python<'_>) -> (t: usize) {
        UNICODE_TYPE
    }
}

impl<'py> PyTryFrom<'py> for PyString<'py> {
    open spec fn view_addr(&self) -> usize {
        self.addr()
    }

    fn from_typed(handle: Typed<'py>) -> (v: Self) {
        PyString { handle }
    }
}

/// The view of a record that was checked to be a type.
#[derive(Clone, Copy)]
pub struct PyType<'py> {
    handle: Typed<'py>,
}

impl<'py> PyType<'py> {
    /// The address of the record.
    pub closed spec fn addr(&self) -> usize {
        self.handle.addr()
    }

    /// The address of the record.
    pub fn as_ptr(&self) -> (a: usize)
        ensures
            a == self.addr(),
    {
        self.handle.as_ptr()
    }

    /// The same record, seen as any record.
    pub fn as_any(&self) -> (any: PyAny<'py>)
        ensures
            any.addr() == self.addr(),
    {
        PyAny::from_borrowed(self.handle.as_borrowed())
    }
}

impl<'py> PyTypeObject for PyType<'py> {
    open spec fn type_address() -> usize {
        TYPE_TYPE
    }

    fn type_object(py: Python<'_>) -> (t: usize) {
        TYPE_TYPE
    }
}

impl<'py> PyTryFrom<'py> for PyType<'py> {
    open spec fn view_addr(&self) -> usize {
        self.addr()
    }

    fn from_typed(handle: Typed<'py>) -> (v: Self) {
        PyType { handle }
    }
}

impl<'py> PyString<'py> {
    /// The text of the record. A record that holds no text is of the wrong
    /// type.
    pub fn to_str<'a>(&self, host: &'a Host) -> (r: PyResult<&'a str>)
        requires
            host.wf(),
            host.valid(self.addr()),
        ensures
            match host.body(self.addr()) {
                Body::Unicode { text } => r is Ok && r->Ok_0@ == text@,
                _ => r == Err::<&'a str, PyErr>(downcast_error()),
            },
    {
        match host.get_body(self.handle.as_ptr()) {
            Body::Unicode { text } => Ok(text.as_str()),
            _ => Err(PyErr::new_type_error()),
        }
    }
}

impl<'py> PyBytes<'py> {
    /// The bytes of the record; none for a record that holds no bytes.
    pub fn as_bytes<'a>(&self, host: &'a Host) -> (b: &'a [u8])
        requires
            host.wf(),
            host.valid(self.addr()),
        ensures
            b@ == match host.body(self.addr()) {
                Body::Bytes { ob_sval } => ob_sval@,
                _ => Seq::<u8>::empty(),
            },
    {
        match host.get_body(self.handle.as_ptr()) {
            Body::Bytes { ob_sval } => ob_sval.as_slice(),
            _ => {
                let empty: &'a [u8] = &[];
                empty
            },
        }
    }
}

} // verus!
