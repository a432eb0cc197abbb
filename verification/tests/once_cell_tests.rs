use pyo3::err::{PyErr, PyErrKind, PyResult};
use pyo3::ffi::object::{PyErrState, SYSTEM_ERROR_TYPE};
use pyo3::once_cell::{Access, GILOnceCell};
use pyo3::python::Python;

fn failure() -> PyErr {
    PyErr {
        kind: PyErrKind::CapabilityImportFailure,
        state: PyErrState { ptype: SYSTEM_ERROR_TYPE, pvalue: 0, ptraceback: 0 },
    }
}

fn told(a: Access<u32>) -> &'static str {
    match a {
        Access::Import => "import",
        Access::Wait => "wait",
        Access::Ready(_) => "ready",
    }
}

#[test]
fn first_use_by_many_contexts_imports_once() {
    let py = Python::assume_gil_acquired();
    let mut cell: GILOnceCell<u32> = GILOnceCell::new();
    assert_eq!(cell.get(py), None);
    let mut imports = 0;
    let mut waiting = Vec::new();
    for ctx in 0..8u64 {
        match cell.access(py, ctx) {
            Access::Import => imports += 1,
            Access::Wait => waiting.push(ctx),
            Access::Ready(_) => panic!("nothing was stored yet"),
        }
    }
    assert_eq!(imports, 1);
    assert_eq!(waiting, vec![1, 2, 3, 4, 5, 6, 7]);
    assert_eq!(cell.get(py), None);
    assert_eq!(cell.complete(py, 0, Ok(77)), Ok(77));
    for ctx in waiting {
        match cell.access(py, ctx) {
            Access::Ready(v) => assert_eq!(v, 77),
            other => panic!("context {} was told to {}", ctx, told(other)),
        }
    }
    assert_eq!(cell.get(py), Some(77));
}

#[test]
fn failed_import_can_be_tried_again() {
    let py = Python::assume_gil_acquired();
    let mut cell: GILOnceCell<u32> = GILOnceCell::new();
    assert_eq!(told(cell.access(py, 1)), "import");
    assert_eq!(told(cell.access(py, 2)), "wait");
    assert_eq!(cell.complete(py, 1, Err(failure())), Err(failure()));
    assert_eq!(cell.get(py), None);
    assert_eq!(told(cell.access(py, 2)), "import");
    assert_eq!(told(cell.access(py, 1)), "wait");
    assert_eq!(cell.complete(py, 2, Ok(5)), Ok(5));
    assert_eq!(told(cell.access(py, 1)), "ready");
    assert_eq!(cell.get(py), Some(5));
}

#[test]
fn get_or_init_runs_the_import_once() {
    let py = Python::assume_gil_acquired();
    let mut cell: GILOnceCell<u32> = GILOnceCell::new();
    let mut runs = 0;
    for _ in 0..4 {
        let v = cell.get_or_init(py, || {
            runs += 1;
            10 + runs
        });
        assert_eq!(v, 11);
    }
    assert_eq!(runs, 1);
    let r: PyResult<u32> = cell.get_or_try_init(py, || Err(failure()));
    assert_eq!(r, Ok(11));
}

#[test]
fn get_or_try_init_keeps_the_cell_empty_on_failure() {
    let py = Python::assume_gil_acquired();
    let mut cell: GILOnceCell<u32> = GILOnceCell::new();
    assert_eq!(cell.get_or_try_init(py, || Err(failure())), Err(failure()));
    assert_eq!(cell.get(py), None);
    assert_eq!(cell.get_or_try_init(py, || Ok(3)), Ok(3));
    assert_eq!(cell.get_or_try_init(py, || Ok(4)), Ok(3));
    assert_eq!(cell.get(py), Some(3));
}
