use pyo3::err::{error_on_minusone, PyDowncastError, PyErr, PyErrKind};
use pyo3::ffi::attribute::{
    PyObject_DelAttrString, PyObject_GetAttrString, PyObject_HasAttrString, PyObject_SetAttrString,
};
use pyo3::ffi::longobject::{PyLong_AsLong, PyLong_Check, PyLong_FromLong};
use pyo3::ffi::object::{
    Body, Host, PyErrState, ATTRIBUTE_ERROR_TYPE, LONG_TYPE, OBJECT_TYPE, SYSTEM_ERROR_TYPE,
    TYPE_ERROR_TYPE,
};
use pyo3::ffi::pyerrors::{PyErr_Clear, PyErr_Fetch, PyErr_Occurred, PyErr_Restore, PyErr_SetNone};
use pyo3::ffi::refcount::Py_REFCNT;
use pyo3::handle::{borrow, release};
use pyo3::python::Python;
use pyo3::types::any::{CompareOp, PyAny};

fn raised(ptype: usize) -> PyErrState {
    PyErrState { ptype, pvalue: 0, ptraceback: 0 }
}

#[test]
fn minus_one_is_a_sentinel_failure() {
    let py = Python::assume_gil_acquired();
    let mut host = Host::new();
    let marker = host.new_type(OBJECT_TYPE);
    PyErr_SetNone(&mut host, marker);
    assert_eq!(
        error_on_minusone(py, &mut host, -1),
        Err(PyErr { kind: PyErrKind::SentinelFailure, state: raised(marker) })
    );
    assert_eq!(host.get_pending(), None);
    assert_eq!(
        error_on_minusone(py, &mut host, -1),
        Err(PyErr { kind: PyErrKind::SentinelFailure, state: raised(SYSTEM_ERROR_TYPE) })
    );
}

#[test]
fn other_statuses_succeed_and_leave_the_indicator() {
    let py = Python::assume_gil_acquired();
    let mut host = Host::new();
    let marker = host.new_type(OBJECT_TYPE);
    PyErr_SetNone(&mut host, marker);
    for status in [0, 1, 2, 42, i32::MAX, -2, i32::MIN] {
        assert_eq!(error_on_minusone(py, &mut host, status), Ok(()));
        assert_eq!(host.get_pending(), Some(raised(marker)));
    }
}

#[test]
fn indicator_holds_one_error() {
    let mut host = Host::new();
    assert_eq!(PyErr_Occurred(&host), 0);
    assert_eq!(PyErr_Fetch(&mut host), None);
    let state = PyErrState { ptype: TYPE_ERROR_TYPE, pvalue: 3, ptraceback: 4 };
    PyErr_Restore(&mut host, state);
    PyErr_SetNone(&mut host, ATTRIBUTE_ERROR_TYPE);
    assert_eq!(PyErr_Occurred(&host), ATTRIBUTE_ERROR_TYPE);
    PyErr_Restore(&mut host, state);
    assert_eq!(PyErr_Fetch(&mut host), Some(state));
    assert_eq!(PyErr_Fetch(&mut host), None);
    PyErr_Restore(&mut host, state);
    PyErr_Clear(&mut host);
    assert_eq!(PyErr_Occurred(&host), 0);
}

#[test]
fn downcast_error_becomes_a_type_error() {
    let e = PyErr::from_downcast(PyDowncastError { found: LONG_TYPE, expected: OBJECT_TYPE });
    assert_eq!(e, PyErr { kind: PyErrKind::TypeError, state: raised(TYPE_ERROR_TYPE) });
    assert_eq!(e, PyErr::new_type_error());
}

#[test]
fn statuses_of_the_runtime_are_bridged() {
    let py = Python::assume_gil_acquired();
    let mut host = Host::new();
    let o = host.new_record(OBJECT_TYPE, Body::Object);
    let any = PyAny::from_borrowed(borrow(py, &host, o));
    let marker = host.new_type(OBJECT_TYPE);
    let failure = Err(PyErr { kind: PyErrKind::SentinelFailure, state: raised(marker) });

    assert_eq!(any.is_true(&mut host, 1), Ok(true));
    assert_eq!(any.is_true(&mut host, 0), Ok(false));
    assert_eq!(any.len(&mut host, 0), Ok(0));
    assert_eq!(any.len(&mut host, 17), Ok(17));
    assert_eq!(any.is_empty(&mut host, 0), Ok(true));
    assert_eq!(any.is_empty(&mut host, 3), Ok(false));
    assert_eq!(any.hash(&mut host, -2), Ok(-2));
    assert_eq!(any.hash(&mut host, 12345), Ok(12345));
    assert_eq!(any.set_item(&mut host, 0), Ok(()));
    assert_eq!(any.del_item(&mut host, 0), Ok(()));
    assert!(any.is_callable(1));
    assert!(!any.is_callable(0));

    PyErr_SetNone(&mut host, marker);
    assert_eq!(any.is_true(&mut host, -1), failure.map(|_: ()| true));
    PyErr_SetNone(&mut host, marker);
    assert_eq!(any.len(&mut host, -1), failure.map(|_: ()| 0));
    PyErr_SetNone(&mut host, marker);
    assert_eq!(any.is_empty(&mut host, -1), failure.map(|_: ()| true));
    PyErr_SetNone(&mut host, marker);
    assert_eq!(any.hash(&mut host, -1), failure.map(|_: ()| 0));
    PyErr_SetNone(&mut host, marker);
    assert_eq!(any.set_item(&mut host, -1), failure);
    PyErr_SetNone(&mut host, marker);
    assert_eq!(any.del_item(&mut host, -1), failure);
    assert_eq!(host.get_pending(), None);
}

#[test]
fn returned_addresses_are_adopted() {
    let py = Python::assume_gil_acquired();
    let mut host = Host::new();
    let o = host.new_record(OBJECT_TYPE, Body::Object);
    let any = PyAny::from_borrowed(borrow(py, &host, o));
    let marker = host.new_type(OBJECT_TYPE);
    let failure = Err(PyErr { kind: PyErrKind::NullHandle, state: raised(marker) });

    let item = PyLong_FromLong(&mut host, 9);
    let h = any.get_item(&mut host, item).unwrap();
    assert_eq!((h.as_ptr(), Py_REFCNT(&host, item), host.owned_references(item)), (item, 1, 1));
    release(py, &mut host, h);
    assert_eq!((Py_REFCNT(&host, item), host.owned_references(item)), (0, 0));

    for which in 0..6 {
        let produced = PyLong_FromLong(&mut host, which);
        let h = match which {
            0 => any.rich_compare(&mut host, produced),
            1 => any.iter(&mut host, produced),
            2 => any.repr(&mut host, produced),
            3 => any.str(&mut host, produced),
            4 => any.call0(&mut host, produced),
            _ => Ok(any.dir(&mut host, produced)),
        }
        .unwrap();
        assert_eq!(h.as_ptr(), produced);
        release(py, &mut host, h);
        assert_eq!(Py_REFCNT(&host, produced), 0);
    }
    for which in 0..5 {
        PyErr_SetNone(&mut host, marker);
        let r = match which {
            0 => any.rich_compare(&mut host, 0),
            1 => any.iter(&mut host, 0),
            2 => any.repr(&mut host, 0),
            3 => any.str(&mut host, 0),
            _ => any.get_item(&mut host, 0),
        };
        assert_eq!(r.map(|h| h.as_ptr()), failure);
        assert_eq!(host.get_pending(), None);
    }
    assert_eq!(
        [CompareOp::Lt, CompareOp::Le, CompareOp::Eq, CompareOp::Ne, CompareOp::Gt, CompareOp::Ge]
            .map(|op| op.to_int()),
        [0, 1, 2, 3, 4, 5]
    );
}

#[test]
fn attributes_are_kept_by_name() {
    let py = Python::assume_gil_acquired();
    let mut host = Host::new();
    let o = host.new_record(OBJECT_TYPE, Body::Object);
    let other = host.new_record(OBJECT_TYPE, Body::Object);
    let any = PyAny::from_borrowed(borrow(py, &host, o));
    let one = PyLong_FromLong(&mut host, 1);
    let two = PyLong_FromLong(&mut host, 2);
    let one_v = PyAny::from_borrowed(borrow(py, &host, one));
    let two_v = PyAny::from_borrowed(borrow(py, &host, two));

    assert_eq!(any.hasattr(&host, "x"), Ok(false));
    assert_eq!(any.setattr(&mut host, "x", &one_v), Ok(()));
    assert_eq!(any.setattr(&mut host, "y", &two_v), Ok(()));
    assert_eq!(PyObject_SetAttrString(&mut host, other, "x", two), 0);
    assert_eq!(any.hasattr(&host, "x"), Ok(true));
    assert_eq!(PyObject_HasAttrString(&host, other, "y"), 0);
    let x = any.getattr(&mut host, "x").unwrap();
    assert_eq!((x.as_ptr(), Py_REFCNT(&host, one), host.owned_references(one)), (one, 2, 1));
    release(py, &mut host, x);
    assert_eq!(any.setattr(&mut host, "x", &two_v), Ok(()));
    assert_eq!(PyObject_GetAttrString(&mut host, o, "x"), two);
    assert_eq!(Py_REFCNT(&host, two), 2);

    assert_eq!(any.delattr(&mut host, "x"), Ok(()));
    assert_eq!(any.hasattr(&host, "x"), Ok(false));
    assert_eq!(any.hasattr(&host, "y"), Ok(true));
    assert_eq!(PyObject_HasAttrString(&host, other, "x"), 1);
    let missing = PyErr { kind: PyErrKind::NullHandle, state: raised(ATTRIBUTE_ERROR_TYPE) };
    assert_eq!(any.getattr(&mut host, "x").map(|h| h.as_ptr()), Err(missing));
    assert_eq!(
        any.delattr(&mut host, "x"),
        Err(PyErr { kind: PyErrKind::SentinelFailure, state: raised(ATTRIBUTE_ERROR_TYPE) })
    );
    assert_eq!(PyObject_DelAttrString(&mut host, o, "never"), -1);
    assert_eq!(PyErr_Occurred(&host), ATTRIBUTE_ERROR_TYPE);
}

#[test]
fn built_in_types_take_no_attributes() {
    let py = Python::assume_gil_acquired();
    let mut host = Host::new();
    let int_type = PyAny::from_borrowed(borrow(py, &host, LONG_TYPE));
    let v = PyLong_FromLong(&mut host, 1);
    let v = PyAny::from_borrowed(borrow(py, &host, v));
    assert_eq!(
        int_type.setattr(&mut host, "x", &v),
        Err(PyErr { kind: PyErrKind::SentinelFailure, state: raised(TYPE_ERROR_TYPE) })
    );
    assert_eq!(int_type.hasattr(&host, "x"), Ok(false));
}

#[test]
fn integers_are_read_back() {
    let py = Python::assume_gil_acquired();
    let mut host = Host::new();
    let type_error = Err(PyErr { kind: PyErrKind::TypeError, state: raised(TYPE_ERROR_TYPE) });
    for v in [0i64, 1, -1, 42, i64::MAX, i64::MIN, 0xffff_ffff, 0x7fff_ffff, -0x8000_0000] {
        let o = PyLong_FromLong(&mut host, v);
        assert_eq!(PyLong_Check(&host, o), 1);
        assert_eq!(PyLong_AsLong(&host, o), v);
        let any = PyAny::from_borrowed(borrow(py, &host, o));
        assert_eq!(any.extract::<i64>(&host), Ok(v));
        assert_eq!(
            any.extract::<i32>(&host),
            i32::try_from(v).map_err(|_| type_error.unwrap_err())
        );
        assert_eq!(
            any.extract::<u32>(&host),
            u32::try_from(v).map_err(|_| type_error.unwrap_err())
        );
    }
    let plain = host.new_record(OBJECT_TYPE, Body::Object);
    assert_eq!(PyLong_Check(&host, plain), 0);
    let plain = PyAny::from_borrowed(borrow(py, &host, plain));
    assert_eq!(plain.extract::<i64>(&host), type_error.map(|_: ()| 0));
    assert_eq!(plain.extract::<i32>(&host), type_error.map(|_: ()| 0));
    assert_eq!(plain.extract::<u32>(&host), type_error.map(|_: ()| 0));
}
