use pyo3::err::PyDowncastError;
use pyo3::ffi::datetime::{
    date_view, datetime_view, delta_view, pack_date, pack_datetime, pack_time, time_view,
    _PyDateTime_GET_HOUR, _PyDateTime_GET_MINUTE, _PyDateTime_GET_SECOND, _PyDateTime_GET_YEAR,
};
use pyo3::ffi::datetime_api::new_datetime_module;
use pyo3::ffi::longobject::PyLong_FromLong;
use pyo3::ffi::object::{Body, Host, LIST_TYPE, LONG_TYPE, OBJECT_TYPE, UNICODE_TYPE};
use pyo3::handle::borrow;
use pyo3::once_cell::GILOnceCell;
use pyo3::python::Python;
use pyo3::types::any::{PyAny, PyObject_Check};
use pyo3::types::native::{PyBytes, PyList, PyLong, PyString, PyType};
use pyo3::types::traceback::PyTraceback;

#[test]
fn layouts_are_copied_out() {
    let mut host = Host::new();
    let module = new_datetime_module(&mut host);
    let date = host.new_record(
        module.DateType,
        Body::Date { hashcode: 11, hastzinfo: 0, data: pack_date(2001, 9, 9) },
    );
    let moment = host.new_record(
        module.DateTimeType,
        Body::DateTime {
            hashcode: 12,
            hastzinfo: 1,
            data: pack_datetime(2001, 9, 9, 1, 46, 40, 7),
            fold: 1,
            tzinfo: module.TimeZone_UTC,
        },
    );
    let time = host.new_record(
        module.TimeType,
        Body::Time { hashcode: 13, hastzinfo: 0, data: pack_time(1, 46, 40, 7), fold: 0, tzinfo: 0 },
    );
    let delta = host.new_record(
        module.DeltaType,
        Body::Delta { hashcode: 14, days: 1, seconds: 2, microseconds: 3 },
    );

    let d = date_view(&host, date);
    assert_eq!((d.ob_base.ob_refcnt, d.ob_base.ob_type), (1, module.DateType));
    assert_eq!((d.hashcode, d.hastzinfo, d.data), (11, 0, [0x07, 0xD1, 9, 9]));
    // A date and time starts with a date.
    let d = date_view(&host, moment);
    assert_eq!((d.hashcode, d.hastzinfo, d.data), (12, 1, [0x07, 0xD1, 9, 9]));
    assert_eq!(_PyDateTime_GET_YEAR(&d.data), 2001);

    let m = datetime_view(&host, moment);
    assert_eq!(m.ob_base.ob_type, module.DateTimeType);
    assert_eq!(m.data, [0x07, 0xD1, 9, 9, 1, 46, 40, 0, 0, 7]);
    assert_eq!((m.fold, m.tzinfo), (1, module.TimeZone_UTC));
    assert_eq!(_PyDateTime_GET_HOUR(&m.data, 4), 1);
    assert_eq!(_PyDateTime_GET_MINUTE(&m.data, 4), 46);
    assert_eq!(_PyDateTime_GET_SECOND(&m.data, 4), 40);

    let t = time_view(&host, time);
    assert_eq!((t.hashcode, t.data, t.fold, t.tzinfo), (13, [1, 46, 40, 0, 0, 7], 0, 0));
    let l = delta_view(&host, delta);
    assert_eq!((l.hashcode, l.days, l.seconds, l.microseconds), (14, 1, 2, 3));
}

#[test]
fn views_follow_the_type() {
    let py = Python::assume_gil_acquired();
    let mut host = Host::new();
    let number = PyLong_FromLong(&mut host, 8);
    let words = host.new_record(UNICODE_TYPE, Body::Unicode { text: "eight".to_string() });
    let bytes = host.new_record(pyo3::ffi::object::BYTES_TYPE, Body::Bytes { ob_sval: vec![8] });
    let kind = host.new_type(LIST_TYPE);
    let items = host.new_record(kind, Body::List { ob_item: vec![number], allocated: 1 });
    let any = |host: &Host, a: usize| PyAny::from_borrowed(borrow(py, host, a));

    for a in 1..=host.len() {
        assert_eq!(PyObject_Check(&host, a), 1);
        assert_eq!(any(&host, a).downcast::<PyAny>(&host).ok().unwrap().as_ptr(), a);
    }
    assert_eq!(any(&host, number).cast_as::<PyLong>(&host).ok().unwrap().as_ptr(), number);
    assert_eq!(any(&host, number).downcast::<PyLong>(&host).ok().unwrap().as_any().as_ptr(), number);
    assert_eq!(any(&host, items).downcast::<PyList>(&host).ok().unwrap().as_ptr(), items);
    assert_eq!(any(&host, kind).downcast::<PyType>(&host).ok().unwrap().as_ptr(), kind);
    let s = any(&host, words).downcast::<PyString>(&host).ok().unwrap();
    assert_eq!(s.to_str(&host), Ok("eight"));
    let b = any(&host, bytes).downcast::<PyBytes>(&host).ok().unwrap();
    assert_eq!(b.as_bytes(&host), &[8]);
    assert_eq!(
        any(&host, number).downcast::<PyString>(&host).err(),
        Some(PyDowncastError { found: LONG_TYPE, expected: UNICODE_TYPE })
    );
    assert_eq!(
        any(&host, words).cast_as::<PyTraceback>(&host).err(),
        Some(PyDowncastError { found: UNICODE_TYPE, expected: pyo3::ffi::object::TRACEBACK_TYPE })
    );
    assert_eq!(
        any(&host, items).downcast::<PyLong>(&host).err(),
        Some(PyDowncastError { found: kind, expected: LONG_TYPE })
    );
    assert_eq!(any(&host, OBJECT_TYPE).get_type_ptr(&host), pyo3::ffi::object::TYPE_TYPE);
}

#[test]
fn cell_knows_who_imports() {
    let py = Python::assume_gil_acquired();
    let mut cell: GILOnceCell<u8> = GILOnceCell::new();
    assert!(!cell.is_importing(py, 3));
    let _ = cell.access(py, 3);
    assert!(cell.is_importing(py, 3));
    assert!(!cell.is_importing(py, 4));
    let _ = cell.complete(py, 3, Ok(1));
    assert!(!cell.is_importing(py, 3));
}
