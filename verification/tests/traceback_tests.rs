use pyo3::err::{PyErr, PyErrKind};
use pyo3::ffi::attribute::PyObject_SetAttrString;
use pyo3::ffi::foreign::ForeignCall;
use pyo3::ffi::longobject::PyLong_FromLong;
use pyo3::ffi::object::{
    Body, Host, PyErrState, ATTRIBUTE_ERROR_TYPE, OBJECT_TYPE, TRACEBACK_TYPE, TYPE_ERROR_TYPE,
    UNICODE_TYPE,
};
use pyo3::ffi::pyerrors::PyErr_SetNone;
use pyo3::ffi::refcount::{Py_REFCNT, Py_TYPE};
use pyo3::handle::borrow;
use pyo3::python::Python;
use pyo3::types::any::PyAny;
use pyo3::types::traceback::{FormatAnswers, PyTraceback};

struct Scene {
    host: Host,
    traceback: usize,
    answers: FormatAnswers,
}

fn scene(printed: &str) -> Scene {
    let mut host = Host::new();
    let traceback = host.new_record(TRACEBACK_TYPE, Body::Object);
    let io = host.new_record(OBJECT_TYPE, Body::Object);
    let class = host.new_type(OBJECT_TYPE);
    assert_eq!(PyObject_SetAttrString(&mut host, io, "StringIO", class), 0);
    let string_io = host.new_record(class, Body::Object);
    let getvalue = host.new_record(OBJECT_TYPE, Body::Object);
    assert_eq!(PyObject_SetAttrString(&mut host, string_io, "getvalue", getvalue), 0);
    let value = host.new_record(UNICODE_TYPE, Body::Unicode { text: printed.to_string() });
    Scene { host, traceback, answers: FormatAnswers { io, string_io, print_status: 0, value } }
}

fn counts(host: &Host) -> Vec<isize> {
    (1..=host.len()).map(|a| Py_REFCNT(host, a)).collect()
}

fn format(s: &mut Scene) -> Result<String, PyErr> {
    let py = Python::assume_gil_acquired();
    let tb = PyAny::from_borrowed(borrow(py, &s.host, s.traceback))
        .downcast::<PyTraceback>(&s.host)
        .unwrap();
    tb.format(&mut s.host, s.answers)
}

/// What the runtime leaves behind when it runs the one piece of code that
/// the tests run: an error, whose traceback prints as two lines.
fn run(code: &str) -> Result<(), Scene> {
    match code {
        "raise Exception('banana')" => Err(scene(
            "Traceback (most recent call last):\n  File \"<string>\", line 1, in <module>\n",
        )),
        other => panic!("the runtime was not taught to run {}", other),
    }
}

#[test]
fn format_traceback() {
    let mut s = match run("raise Exception('banana')") {
        Err(s) => s,
        Ok(()) => panic!("raising should have given us an error"),
    };
    let before = counts(&s.host);
    assert_eq!(
        format(&mut s).unwrap(),
        "Traceback (most recent call last):\n  File \"<string>\", line 1, in <module>\n"
    );
    let after = counts(&s.host);
    for a in 1..=s.host.len() {
        let dropped =
            (a == s.answers.io || a == s.answers.string_io || a == s.answers.value) as isize;
        assert_eq!(after[a - 1], before[a - 1] - dropped);
        assert_eq!(s.host.owned_references(a), 0);
    }
}

fn raised(ptype: usize) -> PyErrState {
    PyErrState { ptype, pvalue: 0, ptraceback: 0 }
}

#[test]
fn format_ends_at_the_first_failure() {
    let null = |ptype| PyErr { kind: PyErrKind::NullHandle, state: raised(ptype) };

    let mut s = scene("x");
    let marker = s.host.new_type(OBJECT_TYPE);
    PyErr_SetNone(&mut s.host, marker);
    s.answers.io = 0;
    assert_eq!(format(&mut s), Err(null(marker)));
    assert_eq!(s.host.get_pending(), None);

    let mut s = scene("x");
    let bare = s.host.new_record(OBJECT_TYPE, Body::Object);
    s.answers.io = bare;
    assert_eq!(format(&mut s), Err(null(ATTRIBUTE_ERROR_TYPE)));
    assert_eq!(Py_REFCNT(&s.host, bare), 0);
    assert_eq!(Py_REFCNT(&s.host, s.answers.string_io), 1);

    let mut s = scene("x");
    let marker = s.host.new_type(OBJECT_TYPE);
    PyErr_SetNone(&mut s.host, marker);
    s.answers.string_io = 0;
    assert_eq!(format(&mut s), Err(null(marker)));

    let mut s = scene("x");
    let marker = s.host.new_type(OBJECT_TYPE);
    PyErr_SetNone(&mut s.host, marker);
    s.answers.print_status = -1;
    assert_eq!(
        format(&mut s),
        Err(PyErr { kind: PyErrKind::SentinelFailure, state: raised(marker) })
    );
    assert_eq!(Py_REFCNT(&s.host, s.answers.string_io), 0);
    assert_eq!(Py_REFCNT(&s.host, s.answers.value), 1);

    let mut s = scene("x");
    let bare = s.host.new_record(OBJECT_TYPE, Body::Object);
    s.answers.string_io = bare;
    assert_eq!(format(&mut s), Err(null(ATTRIBUTE_ERROR_TYPE)));
    assert_eq!(Py_REFCNT(&s.host, bare), 0);

    let mut s = scene("x");
    s.answers.value = 0;
    assert_eq!(format(&mut s).unwrap_err().kind, PyErrKind::NullHandle);

    let mut s = scene("x");
    let number = PyLong_FromLong(&mut s.host, 3);
    s.answers.value = number;
    assert_eq!(
        format(&mut s),
        Err(PyErr { kind: PyErrKind::TypeError, state: raised(TYPE_ERROR_TYPE) })
    );
    assert_eq!(Py_REFCNT(&s.host, number), 0);
    for a in 1..=s.host.len() {
        assert_eq!(s.host.owned_references(a), 0);
    }
}

#[test]
fn format_asks_step_by_step() {
    let py = Python::assume_gil_acquired();
    let s = scene("x");
    let tb = PyAny::from_borrowed(borrow(py, &s.host, s.traceback))
        .downcast::<PyTraceback>(&s.host)
        .unwrap();
    let a = s.answers;
    let class = Py_TYPE(&s.host, a.string_io);
    assert_eq!(
        tb.next_call(&s.host, None, None, None, None),
        Some(ForeignCall::PyImport_Import { name: "io" })
    );
    assert_eq!(
        tb.next_call(&s.host, Some(a.io), None, None, None),
        Some(ForeignCall::PyObject_CallNoArgs { func: class })
    );
    assert_eq!(
        tb.next_call(&s.host, Some(a.io), Some(a.string_io), None, None),
        Some(ForeignCall::PyTraceBack_Print { v: s.traceback, f: a.string_io })
    );
    let asked = tb.next_call(&s.host, Some(a.io), Some(a.string_io), Some(0), None);
    assert!(matches!(asked, Some(ForeignCall::PyObject_CallNoArgs { func }) if func != class));
    assert_eq!(tb.next_call(&s.host, Some(a.io), Some(a.string_io), Some(0), Some(a.value)), None);
    // A failed step ends the formatting.
    assert_eq!(tb.next_call(&s.host, Some(0), None, None, None), None);
    assert_eq!(tb.next_call(&s.host, Some(a.value), None, None, None), None);
    assert_eq!(tb.next_call(&s.host, Some(a.io), Some(0), None, None), None);
    assert_eq!(tb.next_call(&s.host, Some(a.io), Some(a.string_io), Some(-1), None), None);
    assert_eq!(tb.next_call(&s.host, Some(a.io), Some(a.value), Some(0), None), None);
}
