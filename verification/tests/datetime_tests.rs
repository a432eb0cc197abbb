use pyo3::err::{PyErr, PyErrKind};
use pyo3::ffi::attribute::PyObject_SetAttrString;
use pyo3::ffi::datetime::{
    pack_date, pack_datetime, pack_time, PyDateTime_DATE_GET_FOLD, PyDateTime_DATE_GET_HOUR,
    PyDateTime_DATE_GET_MICROSECOND, PyDateTime_DATE_GET_MINUTE, PyDateTime_DATE_GET_SECOND,
    PyDateTime_DATE_GET_TZINFO, PyDateTime_DELTA_GET_DAYS, PyDateTime_DELTA_GET_MICROSECONDS,
    PyDateTime_DELTA_GET_SECONDS, PyDateTime_GET_DAY, PyDateTime_GET_MONTH, PyDateTime_GET_YEAR,
    PyDateTime_TIME_GET_FOLD, PyDateTime_TIME_GET_HOUR, PyDateTime_TIME_GET_MICROSECOND,
    PyDateTime_TIME_GET_MINUTE, PyDateTime_TIME_GET_SECOND, PyDateTime_TIME_GET_TZINFO,
    _PyDateTime_GET_MICROSECOND,
};
use pyo3::ffi::datetime_api::{
    ask_capsule, capsule_outcome, check_capi, new_datetime_module, CapiCall, PyDateTime_Check,
    PyDateTime_CheckExact, PyDateTime_FromTimestamp, PyDateTime_IMPORT, PyDate_Check,
    PyDate_CheckExact, PyDate_FromTimestamp, PyDelta_Check, PyDelta_CheckExact, PyTZInfo_Check,
    PyTZInfo_CheckExact, PyTime_Check, PyTime_CheckExact, _PyDateTimeAPI_impl,
    _PyDateTime_TimeZone_UTC_impl,
};
use pyo3::ffi::datetime_exported::{exported_symbol, select_backend, Backend};
use pyo3::ffi::datetime_reflective as reflective;
use pyo3::ffi::listobject::{PyList_New, PyList_SET_ITEM};
use pyo3::ffi::longobject::PyLong_FromLong;
use pyo3::ffi::object::{
    Body, Host, PyErrState, ATTRIBUTE_ERROR_TYPE, OBJECT_TYPE, SYSTEM_ERROR_TYPE,
};
use pyo3::ffi::pyerrors::PyErr_SetNone;
use pyo3::ffi::refcount::Py_REFCNT;
use pyo3::python::Python;

/// Checks what the few pieces of code that the tests run assert of the
/// record at `value`.
fn py_run(host: &mut Host, module: &pyo3::ffi::datetime_api::PyDateTime_CAPI, value: usize, code: &str) {
    match code {
        "import datetime; assert dt == datetime.datetime.fromtimestamp(100)" => {
            assert_eq!(PyDateTime_CheckExact(module, host, value), 1);
            let date = (
                PyDateTime_GET_YEAR(host, value),
                PyDateTime_GET_MONTH(host, value),
                PyDateTime_GET_DAY(host, value),
            );
            let time = (
                PyDateTime_DATE_GET_HOUR(host, value),
                PyDateTime_DATE_GET_MINUTE(host, value),
                PyDateTime_DATE_GET_SECOND(host, value),
                PyDateTime_DATE_GET_MICROSECOND(host, value),
            );
            assert_eq!((date, time), ((1970, 1, 1), (0, 1, 40, 0)));
        }
        "import datetime; assert dt == datetime.date.fromtimestamp(100)" => {
            assert_eq!(PyDate_CheckExact(module, host, value), 1);
            let date = (
                PyDateTime_GET_YEAR(host, value),
                PyDateTime_GET_MONTH(host, value),
                PyDateTime_GET_DAY(host, value),
            );
            assert_eq!(date, (1970, 1, 1));
        }
        "import datetime; assert utc_timezone is datetime.timezone.utc" => {
            assert_eq!(value, module.TimeZone_UTC);
        }
        other => panic!("the runtime was not taught to run {}", other),
    }
}

fn direct_date(host: &mut Host, ty: usize, data: [u8; 4]) -> usize {
    host.new_record(ty, Body::Date { hashcode: -1, hastzinfo: 0, data })
}

fn reflective_record(host: &mut Host, ty: usize, fields: &[(&str, i64)]) -> usize {
    let o = host.new_record(ty, Body::Object);
    for (name, value) in fields {
        let v = PyLong_FromLong(host, *value);
        assert_eq!(PyObject_SetAttrString(host, o, name, v), 0);
    }
    o
}

#[test]
fn test_datetime_fromtimestamp() {
    Python::with_gil(|py| {
        let mut host = Host::new();
        let module = new_datetime_module(&mut host);
        let hundred = PyLong_FromLong(&mut host, 100);
        let args = PyList_New(&mut host, 1);
        PyList_SET_ITEM(&mut host, args, 0, hundred);
        let mut api = _PyDateTimeAPI_impl::new();
        let table = PyDateTime_IMPORT(&mut api, py, &mut host, || Some(module)).unwrap();
        let call = PyDateTime_FromTimestamp(&table, args);
        assert_eq!(
            call,
            CapiCall {
                entry: module.DateTime_FromTimestamp,
                cls: module.DateTimeType,
                args,
                kwargs: 0
            }
        );
        // The runtime answers the call with the moment 100 seconds after the epoch.
        let dt = host.new_record(
            call.cls,
            Body::DateTime {
                hashcode: -1,
                hastzinfo: 0,
                data: pack_datetime(1970, 1, 1, 0, 1, 40, 0),
                fold: 0,
                tzinfo: 0,
            },
        );
        let dt = py.from_owned_ptr(&mut host, dt);
        assert_eq!(PyDateTime_Check(&table, &host, dt.as_ptr()), 1);
        py_run(
            &mut host,
            &module,
            dt.as_ptr(),
            "import datetime; assert dt == datetime.datetime.fromtimestamp(100)",
        );
        pyo3::handle::release(py, &mut host, dt);
    });
}

#[test]
fn test_date_fromtimestamp() {
    Python::with_gil(|py| {
        let mut host = Host::new();
        let module = new_datetime_module(&mut host);
        let hundred = PyLong_FromLong(&mut host, 100);
        let args = PyList_New(&mut host, 1);
        PyList_SET_ITEM(&mut host, args, 0, hundred);
        let mut api = _PyDateTimeAPI_impl::new();
        let table = PyDateTime_IMPORT(&mut api, py, &mut host, || Some(module)).unwrap();
        let call = PyDate_FromTimestamp(&table, args);
        assert_eq!(
            call,
            CapiCall { entry: module.Date_FromTimestamp, cls: module.DateType, args, kwargs: 0 }
        );
        let dt = direct_date(&mut host, call.cls, pack_date(1970, 1, 1));
        let dt = py.from_owned_ptr(&mut host, dt);
        py_run(
            &mut host,
            &module,
            dt.as_ptr(),
            "import datetime; assert dt == datetime.date.fromtimestamp(100)",
        );
        pyo3::handle::release(py, &mut host, dt);
    });
}

#[test]
fn test_utc_timezone() {
    Python::with_gil(|py| {
        let mut host = Host::new();
        let module = new_datetime_module(&mut host);
        let mut api = _PyDateTimeAPI_impl::new();
        let table = PyDateTime_IMPORT(&mut api, py, &mut host, || Some(module)).unwrap();
        let before = Py_REFCNT(&host, module.TimeZone_UTC);
        let utc_timezone = _PyDateTime_TimeZone_UTC_impl::deref(py, &host, &table);
        py_run(
            &mut host,
            &module,
            utc_timezone.as_ptr(),
            "import datetime; assert utc_timezone is datetime.timezone.utc",
        );
        assert_eq!(Py_REFCNT(&host, module.TimeZone_UTC), before);
        assert_eq!(PyTZInfo_Check(&table, &host, utc_timezone.as_ptr()), 1);
        assert_eq!(PyTZInfo_CheckExact(&table, &host, utc_timezone.as_ptr()), 0);
    });
}

#[test]
fn direct_layout_reads_packed_date() {
    let mut host = Host::new();
    let date_type = host.new_type(OBJECT_TYPE);
    let o = direct_date(&mut host, date_type, [0x07, 0xE8, 3, 15]);
    assert_eq!(PyDateTime_GET_YEAR(&mut host, o), 2024);
    assert_eq!(PyDateTime_GET_MONTH(&mut host, o), 3);
    assert_eq!(PyDateTime_GET_DAY(&mut host, o), 15);
    assert_eq!(pack_date(2024, 3, 15), [0x07, 0xE8, 3, 15]);
}

#[test]
fn both_strategies_agree_on_a_date() {
    let mut host = Host::new();
    let date_type = host.new_type(OBJECT_TYPE);
    let packed = direct_date(&mut host, date_type, pack_date(2024, 3, 15));
    let shown =
        reflective_record(&mut host, date_type, &[("year", 2024), ("month", 3), ("day", 15)]);
    assert_eq!(PyDateTime_GET_YEAR(&mut host, packed), 2024);
    assert_eq!(reflective::PyDateTime_GET_YEAR(&mut host, shown), 2024);
    assert_eq!(PyDateTime_GET_MONTH(&mut host, packed), 3);
    assert_eq!(reflective::PyDateTime_GET_MONTH(&mut host, shown), 3);
    assert_eq!(PyDateTime_GET_DAY(&mut host, packed), 15);
    assert_eq!(reflective::PyDateTime_GET_DAY(&mut host, shown), 15);
}

#[test]
fn direct_layout_decodes_microsecond() {
    let mut host = Host::new();
    let time_type = host.new_type(OBJECT_TYPE);
    for (h, m, s) in [(0u8, 0u8, 0u8), (13, 37, 59), (23, 59, 59)] {
        let o = host.new_record(
            time_type,
            Body::Time {
                hashcode: -1,
                hastzinfo: 0,
                data: [h, m, s, 0x01, 0x86, 0xA0],
                fold: 0,
                tzinfo: 0,
            },
        );
        assert_eq!(PyDateTime_TIME_GET_HOUR(&mut host, o), h as i32);
        assert_eq!(PyDateTime_TIME_GET_MINUTE(&mut host, o), m as i32);
        assert_eq!(PyDateTime_TIME_GET_SECOND(&mut host, o), s as i32);
        assert_eq!(PyDateTime_TIME_GET_MICROSECOND(&mut host, o), 100000);
    }
    assert_eq!(_PyDateTime_GET_MICROSECOND(&[9, 9, 9, 9, 1, 2, 3, 0x0F, 0x42, 0x3F], 4), 999999);
    assert_eq!(pack_time(1, 2, 3, 100000), [1, 2, 3, 0x01, 0x86, 0xA0]);
}

#[test]
fn direct_layout_reads_date_and_time() {
    let mut host = Host::new();
    let module = new_datetime_module(&mut host);
    let o = host.new_record(
        module.DateTimeType,
        Body::DateTime {
            hashcode: -1,
            hastzinfo: 1,
            data: pack_datetime(9999, 12, 31, 23, 59, 58, 999999),
            fold: 1,
            tzinfo: module.TimeZone_UTC,
        },
    );
    assert_eq!(PyDateTime_GET_YEAR(&mut host, o), 9999);
    assert_eq!(PyDateTime_GET_MONTH(&mut host, o), 12);
    assert_eq!(PyDateTime_GET_DAY(&mut host, o), 31);
    assert_eq!(PyDateTime_DATE_GET_HOUR(&mut host, o), 23);
    assert_eq!(PyDateTime_DATE_GET_MINUTE(&mut host, o), 59);
    assert_eq!(PyDateTime_DATE_GET_SECOND(&mut host, o), 58);
    assert_eq!(PyDateTime_DATE_GET_MICROSECOND(&mut host, o), 999999);
    assert_eq!(PyDateTime_DATE_GET_FOLD(&mut host, o), 1);
    let before = Py_REFCNT(&host, module.TimeZone_UTC);
    assert_eq!(PyDateTime_DATE_GET_TZINFO(&mut host, o), module.TimeZone_UTC);
    assert_eq!(Py_REFCNT(&host, module.TimeZone_UTC), before);
    let t = host.new_record(
        module.TimeType,
        Body::Time { hashcode: -1, hastzinfo: 0, data: pack_time(0, 0, 0, 0), fold: 0, tzinfo: 0 },
    );
    assert_eq!(PyDateTime_TIME_GET_FOLD(&mut host, t), 0);
    assert_eq!(PyDateTime_TIME_GET_TZINFO(&mut host, t), 0);
}

#[test]
fn direct_layout_reads_duration_fields() {
    let mut host = Host::new();
    let module = new_datetime_module(&mut host);
    let o = host.new_record(
        module.DeltaType,
        Body::Delta { hashcode: -1, days: -999999999, seconds: 86399, microseconds: 999999 },
    );
    assert_eq!(PyDateTime_DELTA_GET_DAYS(&mut host, o), -999999999);
    assert_eq!(PyDateTime_DELTA_GET_SECONDS(&mut host, o), 86399);
    assert_eq!(PyDateTime_DELTA_GET_MICROSECONDS(&mut host, o), 999999);
    assert_eq!(PyDelta_Check(&module, &host, o), 1);
    assert_eq!(PyDelta_CheckExact(&module, &host, o), 1);
    assert_eq!(PyTime_Check(&module, &host, o), 0);
    assert_eq!(PyTime_CheckExact(&module, &host, o), 0);
}

#[test]
fn reflective_read_leaves_counts_alone() {
    let mut host = Host::new();
    let ty = host.new_type(OBJECT_TYPE);
    let o = reflective_record(
        &mut host,
        ty,
        &[
            ("hour", 23),
            ("minute", 59),
            ("second", 58),
            ("microsecond", 999999),
            ("fold", 1),
            ("days", -7),
            ("seconds", 86399),
            ("microseconds", 5),
        ],
    );
    let total = host.len();
    let counts: Vec<isize> = (1..=total).map(|a| Py_REFCNT(&host, a)).collect();
    assert_eq!(reflective::PyDateTime_DATE_GET_HOUR(&mut host, o), 23);
    assert_eq!(reflective::PyDateTime_DATE_GET_MINUTE(&mut host, o), 59);
    assert_eq!(reflective::PyDateTime_DATE_GET_SECOND(&mut host, o), 58);
    assert_eq!(reflective::PyDateTime_DATE_GET_MICROSECOND(&mut host, o), 999999);
    assert_eq!(reflective::PyDateTime_DATE_GET_FOLD(&mut host, o), 1);
    assert_eq!(reflective::PyDateTime_TIME_GET_HOUR(&mut host, o), 23);
    assert_eq!(reflective::PyDateTime_TIME_GET_MINUTE(&mut host, o), 59);
    assert_eq!(reflective::PyDateTime_TIME_GET_SECOND(&mut host, o), 58);
    assert_eq!(reflective::PyDateTime_TIME_GET_MICROSECOND(&mut host, o), 999999);
    assert_eq!(reflective::PyDateTime_TIME_GET_FOLD(&mut host, o), 1);
    assert_eq!(reflective::PyDateTime_DELTA_GET_DAYS(&mut host, o), -7);
    assert_eq!(reflective::PyDateTime_DELTA_GET_SECONDS(&mut host, o), 86399);
    assert_eq!(reflective::PyDateTime_DELTA_GET_MICROSECONDS(&mut host, o), 5);
    let after: Vec<isize> = (1..=total).map(|a| Py_REFCNT(&host, a)).collect();
    assert_eq!(counts, after);
    assert_eq!(host.get_pending(), None);
}

#[test]
fn reflective_read_of_a_value_that_is_no_integer_gives_zero() {
    let mut host = Host::new();
    let ty = host.new_type(OBJECT_TYPE);
    let o = host.new_record(ty, Body::Object);
    let text = host.new_record(OBJECT_TYPE, Body::Object);
    assert_eq!(PyObject_SetAttrString(&mut host, o, "year", text), 0);
    assert_eq!(reflective::_get_attr(&mut host, o, "year"), 0);
    let big = PyLong_FromLong(&mut host, 0x1_0000_0007);
    assert_eq!(PyObject_SetAttrString(&mut host, o, "year", big), 0);
    assert_eq!(reflective::_get_attr(&mut host, o, "year"), 7);
}

#[test]
fn reflective_tzinfo_is_borrowed() {
    let mut host = Host::new();
    let module = new_datetime_module(&mut host);
    let o = host.new_record(module.DateTimeType, Body::Object);
    assert_eq!(reflective::PyDateTime_DATE_GET_TZINFO(&mut host, o), 0);
    assert_eq!(
        host.get_pending(),
        Some(PyErrState { ptype: ATTRIBUTE_ERROR_TYPE, pvalue: 0, ptraceback: 0 })
    );
    assert_eq!(PyObject_SetAttrString(&mut host, o, "tzinfo", module.TimeZone_UTC), 0);
    let before = Py_REFCNT(&host, module.TimeZone_UTC);
    assert_eq!(reflective::PyDateTime_TIME_GET_TZINFO(&mut host, o), module.TimeZone_UTC);
    assert_eq!(Py_REFCNT(&host, module.TimeZone_UTC), before);
}

#[test]
fn exported_names_take_the_variant_prefix() {
    assert_eq!(exported_symbol("PyDateTime_GET_YEAR"), "PyPyDateTime_GET_YEAR");
    assert_eq!(exported_symbol("PyDateTime_DELTA_GET_MICROSECONDS"), "PyPyDateTime_DELTA_GET_MICROSECONDS");
    assert_eq!(exported_symbol("PyDate_FromTimestamp"), "PyPyDate_FromTimestamp");
    assert_eq!(exported_symbol("Py"), "PyPy");
    assert_eq!(exported_symbol("datetime"), "datetime");
    assert_eq!(exported_symbol(""), "");
}

#[test]
fn one_strategy_for_a_build() {
    assert_eq!(select_backend(false, false), Some(Backend::DirectLayout));
    assert_eq!(select_backend(false, true), Some(Backend::Reflective));
    assert_eq!(select_backend(true, false), Some(Backend::ExportedSymbol));
    assert_eq!(select_backend(true, true), None);
}

#[test]
fn type_checks_follow_the_table() {
    let mut host = Host::new();
    let module = new_datetime_module(&mut host);
    let date = direct_date(&mut host, module.DateType, pack_date(2000, 2, 29));
    let moment = host.new_record(
        module.DateTimeType,
        Body::DateTime {
            hashcode: -1,
            hastzinfo: 0,
            data: pack_datetime(2000, 2, 29, 12, 0, 0, 0),
            fold: 0,
            tzinfo: 0,
        },
    );
    assert_eq!(PyDate_Check(&module, &host, date), 1);
    assert_eq!(PyDate_CheckExact(&module, &host, date), 1);
    assert_eq!(PyDate_Check(&module, &host, moment), 1);
    assert_eq!(PyDate_CheckExact(&module, &host, moment), 0);
    assert_eq!(PyDateTime_Check(&module, &host, moment), 1);
    assert_eq!(PyDateTime_CheckExact(&module, &host, moment), 1);
    assert_eq!(PyDateTime_Check(&module, &host, date), 0);
    assert_eq!(PyTZInfo_Check(&module, &host, date), 0);
}

#[test]
fn import_runs_once_and_is_cached() {
    let py = Python::assume_gil_acquired();
    assert_eq!(
        ask_capsule(),
        pyo3::ffi::foreign::ForeignCall::PyCapsule_Import {
            name: "datetime.datetime_CAPI",
            no_block: 1
        }
    );
    let mut host = Host::new();
    let module = new_datetime_module(&mut host);
    let mut api = _PyDateTimeAPI_impl::new();
    let mut runs = 0;
    for _ in 0..5 {
        let table = api
            .deref(py, &mut host, || {
                runs += 1;
                Some(module)
            })
            .unwrap();
        assert_eq!(table, module);
    }
    assert_eq!(runs, 1);
}

#[test]
fn failed_import_leaves_the_cache_empty() {
    let py = Python::assume_gil_acquired();
    let mut host = Host::new();
    let module = new_datetime_module(&mut host);
    let mut api = _PyDateTimeAPI_impl::new();
    PyErr_SetNone(&mut host, ATTRIBUTE_ERROR_TYPE);
    let r = PyDateTime_IMPORT(&mut api, py, &mut host, || None);
    assert_eq!(
        r,
        Err(PyErr {
            kind: PyErrKind::CapabilityImportFailure,
            state: PyErrState { ptype: ATTRIBUTE_ERROR_TYPE, pvalue: 0, ptraceback: 0 }
        })
    );
    assert_eq!(host.get_pending(), None);
    let mut broken = module;
    broken.Time_FromTime = 0;
    assert!(!check_capi(&host, &broken));
    let r = PyDateTime_IMPORT(&mut api, py, &mut host, || Some(broken));
    assert_eq!(
        r,
        Err(PyErr {
            kind: PyErrKind::CapabilityImportFailure,
            state: PyErrState { ptype: SYSTEM_ERROR_TYPE, pvalue: 0, ptraceback: 0 }
        })
    );
    let mut misfit = module;
    misfit.DateTimeType = module.DeltaType;
    assert_eq!(capsule_outcome(py, &mut host, Some(misfit)).map(|_| ()), r.map(|_| ()));
    let table = PyDateTime_IMPORT(&mut api, py, &mut host, || Some(module)).unwrap();
    assert_eq!(table, module);
    assert!(check_capi(&host, &table));
}
