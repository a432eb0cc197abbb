//! Calls into the host runtime, as values.
//!
//! Whoever holds the live runtime makes the call and hands back what it
//! returned. What is asked, and in which order, is decided here.

use vstd::prelude::*;

verus! {

/// A call into the host runtime: the entry and its arguments, which are
/// addresses of records unless said otherwise.
#[derive(Clone, Copy, Debug, PartialEq, Eq)]
pub enum ForeignCall {
    /// Compares `o1` with `o2` by the comparison numbered `opid`; returns a
    /// new reference or null.
    PyObject_RichCompare { o1: usize, o2: usize, opid: i32 },
    /// Tests the truth of `o`; returns 1, 0 or -1.
    PyObject_IsTrue { o: usize },
    /// Tests whether `o` may be called; returns 1 or 0.
    PyCallable_Check { o: usize },
    /// Calls `callable` with the positional arguments `args` and the
    /// keyword arguments `kwargs` (null for none); returns a new reference
    /// or null.
    PyObject_Call { callable: usize, args: usize, kwargs: usize },
    /// Calls `func` without arguments; returns a new reference or null.
    PyObject_CallNoArgs { func: usize },
    /// The size of `o`; returns it or -1.
    PyObject_Size { o: usize },
    /// The hash code of `o`; returns it or -1.
    PyObject_Hash { o: usize },
    /// The item of `o` under `key`; returns a new reference or null.
    PyObject_GetItem { o: usize, key: usize },
    /// Stores `v` in `o` under `key`; returns 0 or -1.
    PyObject_SetItem { o: usize, key: usize, v: usize },
    /// Removes the item of `o` under `key`; returns 0 or -1.
    PyObject_DelItem { o: usize, key: usize },
    /// An iterator over `o`; returns a new reference or null.
    PyObject_GetIter { o: usize },
    /// The printable form of `o`; returns a new reference or null.
    PyObject_Repr { o: usize },
    /// The text form of `o`; returns a new reference or null.
    PyObject_Str { o: usize },
    /// The list of the names of the attributes of `o`; returns a new
    /// reference.
    PyObject_Dir { o: usize },
    /// Writes `x` in the interchange format of `version`; returns a new
    /// reference to a byte string, or null.
    PyMarshal_WriteObjectToString { x: usize, version: i32 },
    /// Reads a record from `len` bytes in the interchange format; returns a
    /// new reference or null.
    PyMarshal_ReadObjectFromString { len: isize },
    /// Imports the module `name`; returns a new reference or null.
    PyImport_Import { name: &'static str },
    /// Looks up the capability table `name`; returns its address or null.
    PyCapsule_Import { name: &'static str, no_block: i32 },
    /// Prints the traceback `v` into the stream `f`; returns 0 or -1.
    PyTraceBack_Print { v: usize, f: usize },
}

} // verus!
