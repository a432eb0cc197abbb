//! The capability table of the date and time types: what it holds, how it
//! is imported once and cached, and the type checks that are made against
//! it.

use crate::err::{fetched, no_error_set, PyErr, PyErrKind, PyResult};
use crate::ffi::object::{
    lemma_extends_transitive, Body, Host, PyErrState, NULL, OBJECT_TYPE, SYSTEM_ERROR_TYPE,
};
use crate::ffi::refcount::{PyObject_TypeCheck, PyType_Check, PyType_IsSubtype, Py_TYPE};
use crate::handle::{borrow, Borrowed};
use crate::once_cell::{after_complete, Access, CellState, GILOnceCell};
use crate::python::Python;
use vstd::prelude::*;

verus! {

/// The capability table of the date and time types: the addresses of the
/// types, of the shared UTC time zone, and of the constructors.
#[derive(Debug, Copy, Clone, PartialEq, Eq, Structural)]
pub struct PyDateTime_CAPI {
    pub DateType: usize,
    pub DateTimeType: usize,
    pub TimeType: usize,
    pub DeltaType: usize,
    pub TZInfoType: usize,
    pub TimeZone_UTC: usize,
    pub Date_FromDate: usize,
    pub DateTime_FromDateAndTime: usize,
    pub Time_FromTime: usize,
    pub Delta_FromDelta: usize,
    pub TimeZone_FromTimeZone: usize,
    pub DateTime_FromTimestamp: usize,
    pub Date_FromTimestamp: usize,
    pub DateTime_FromDateAndTimeAndFold: usize,
    pub Time_FromTimeAndFold: usize,
}

/// A call of one of the table's constructors, for the caller to make: the
/// address of the constructor, the type to construct, and the arguments.
#[derive(Debug, Copy, Clone, PartialEq, Eq, Structural)]
pub struct CapiCall {
    pub entry: usize,
    pub cls: usize,
    pub args: usize,
    pub kwargs: usize,
}

/// Whether the record at `t` is a type of `host`.
pub open spec fn names_type(host: &Host, t: usize) -> bool {
    host.valid(t) && host.is_type(t)
}

/// Whether every constructor of `api` is there.
pub open spec fn constructors_present(api: PyDateTime_CAPI) -> bool {
    &&& api.Date_FromDate != NULL
    &&& api.DateTime_FromDateAndTime != NULL
    &&& api.Time_FromTime != NULL
    &&& api.Delta_FromDelta != NULL
    &&& api.TimeZone_FromTimeZone != NULL
    &&& api.DateTime_FromTimestamp != NULL
    &&& api.Date_FromTimestamp != NULL
    &&& api.DateTime_FromDateAndTimeAndFold != NULL
    &&& api.Time_FromTimeAndFold != NULL
}

/// Whether `api` is fully populated and fits `host`: every type it names is
/// a type of `host`, the date and time type descends from the date type, the
/// UTC time zone is a record, and every constructor is there.
pub open spec fn capi_wf(host: &Host, api: PyDateTime_CAPI) -> bool {
    &&& names_type(host, api.DateType)
    &&& names_type(host, api.DateTimeType)
    &&& names_type(host, api.TimeType)
    &&& names_type(host, api.DeltaType)
    &&& names_type(host, api.TZInfoType)
    &&& host.subtype(api.DateTimeType, api.DateType)
    &&& host.valid(api.TimeZone_UTC)
    &&& constructors_present(api)
}

/// Whether the record at `t` is a type of `host`.
fn check_type(host: &Host, t: usize) -> (b: bool)
    requires
        host.wf(),
    ensures
        b == names_type(host, t),
{
    host.is_valid(t) && PyType_Check(host, t) == 1
}

/// Whether `api` is fully populated and fits `host`.
pub fn check_capi(host: &Host, api: &PyDateTime_CAPI) -> (b: bool)
    requires
        host.wf(),
    ensures
        b == capi_wf(host, *api),
{
    check_type(host, api.DateType) && check_type(host, api.DateTimeType) && check_type(
        host,
        api.TimeType,
    ) && check_type(host, api.DeltaType) && check_type(host, api.TZInfoType) && PyType_IsSubtype(
        host,
        api.DateTimeType,
        api.DateType,
    ) == 1 && host.is_valid(api.TimeZone_UTC) && api.Date_FromDate != NULL
        && api.DateTime_FromDateAndTime != NULL && api.Time_FromTime != NULL && api.Delta_FromDelta
        != NULL && api.TimeZone_FromTimeZone != NULL && api.DateTime_FromTimestamp != NULL
        && api.Date_FromTimestamp != NULL && api.DateTime_FromDateAndTimeAndFold != NULL
        && api.Time_FromTimeAndFold != NULL
}

/// The error for a table that was found but does not fit.
pub open spec fn incompatible_table() -> PyErr {
    PyErr { kind: PyErrKind::CapabilityImportFailure, state: no_error_set() }
}

/// What an import gives, where the lookup of the table by its name gave
/// `raw`. No table means that the name is absent: the pending error is taken
/// and returned. A table that is not fully populated or does not fit the
/// runtime is refused. Otherwise the table is the result.
pub open spec fn import_outcome(host: &Host, raw: Option<PyDateTime_CAPI>) -> PyResult<
    PyDateTime_CAPI,
> {
    match raw {
        None => Err(
            PyErr { kind: PyErrKind::CapabilityImportFailure, state: fetched(host.pending()) },
        ),
        Some(api) => if capi_wf(host, api) {
            Ok(api)
        } else {
            Err(incompatible_table())
        },
    }
}

/// The pending error after an import, where the lookup of the table gave
/// `raw`: taken where there was no table, else as it was.
pub open spec fn pending_after(host: &Host, raw: Option<PyDateTime_CAPI>) -> Option<PyErrState> {
    if raw is None {
        None
    } else {
        host.pending()
    }
}

/// Judges what the lookup of the table by its name gave.
pub fn capsule_outcome(py: Python<'_>, host: &mut Host, raw: Option<PyDateTime_CAPI>) -> (r:
    PyResult<PyDateTime_CAPI>)
    requires
        old(host).wf(),
    ensures
        final(host).wf(),
        final(host).same_records(old(host)),
        r == import_outcome(old(host), raw),
        final(host).pending() == pending_after(old(host), raw),
{
    match raw {
        None => Err(PyErr::fetch(py, host, PyErrKind::CapabilityImportFailure)),
        Some(api) => {
            if check_capi(host, &api) {
                Ok(api)
            } else {
                Err(
                    PyErr {
                        kind: PyErrKind::CapabilityImportFailure,
                        state: PyErrState {
                            ptype: SYSTEM_ERROR_TYPE,
                            pvalue: NULL,
                            ptraceback: NULL,
                        },
                    },
                )
            }
        },
    }
}

/// Makes the date and time types and the shared UTC time zone in `host`, as
/// loading the runtime's date and time module does, and returns the
/// capability table that names them. Each new record has one reference,
/// which no handle owns.
pub fn new_datetime_module(host: &mut Host) -> (api: PyDateTime_CAPI)
    requires
        old(host).wf(),
    ensures
        final(host).wf(),
        final(host).grows_from(old(host)),
        final(host).count() == old(host).count() + 7,
        capi_wf(final(host), api),
        api.DateType == old(host).count() + 1,
        api.DateTimeType == old(host).count() + 2,
        api.TimeType == old(host).count() + 3,
        api.DeltaType == old(host).count() + 4,
        api.TZInfoType == old(host).count() + 5,
        api.TimeZone_UTC == old(host).count() + 7,
        final(host).base_of(api.DateType) == OBJECT_TYPE,
        final(host).base_of(api.DateTimeType) == api.DateType,
        final(host).base_of(api.TimeType) == OBJECT_TYPE,
        final(host).base_of(api.DeltaType) == OBJECT_TYPE,
        final(host).base_of(api.TZInfoType) == OBJECT_TYPE,
        final(host).subtype(final(host).type_of(api.TimeZone_UTC), api.TZInfoType),
        final(host).refcnt(api.TimeZone_UTC) == 1,
        final(host).held(api.TimeZone_UTC) == 0,
{
    let date = host.new_type(OBJECT_TYPE);
    let ghost h1 = *host;
    let datetime = host.new_type(date);
    let ghost h2 = *host;
    let time = host.new_type(OBJECT_TYPE);
    let ghost h3 = *host;
    let delta = host.new_type(OBJECT_TYPE);
    let ghost h4 = *host;
    let tzinfo = host.new_type(OBJECT_TYPE);
    let ghost h5 = *host;
    let timezone = host.new_type(tzinfo);
    let ghost h6 = *host;
    let utc = host.new_record(timezone, Body::Object);
    proof {
        lemma_extends_transitive(old(host), &h2, &h3);
        lemma_extends_transitive(old(host), &h4, &h5);
        lemma_extends_transitive(old(host), &h6, host);
        lemma_extends_transitive(&h1, &h3, &h4);
        lemma_extends_transitive(&h1, &h5, &h6);
        lemma_extends_transitive(&h2, &h3, &h4);
        lemma_extends_transitive(&h2, &h5, &h6);
        lemma_extends_transitive(&h3, &h4, &h5);
        lemma_extends_transitive(&h3, &h6, host);
        lemma_extends_transitive(&h4, &h6, host);
        assert(host.subtype(date, date));
        assert(host.subtype(tzinfo, tzinfo));
    }
    PyDateTime_CAPI {
        DateType: date,
        DateTimeType: datetime,
        TimeType: time,
        DeltaType: delta,
        TZInfoType: tzinfo,
        TimeZone_UTC: utc,
        Date_FromDate: 1,
        DateTime_FromDateAndTime: 2,
        Time_FromTime: 3,
        Delta_FromDelta: 4,
        TimeZone_FromTimeZone: 5,
        DateTime_FromTimestamp: 6,
        Date_FromTimestamp: 7,
        DateTime_FromDateAndTimeAndFold: 8,
        Time_FromTimeAndFold: 9,
    }
}

/// The cache of the capability table of the date and time types.
pub struct _PyDateTimeAPI_impl {
    inner: GILOnceCell<PyDateTime_CAPI>,
}

impl View for _PyDateTimeAPI_impl {
    type V = CellState<PyDateTime_CAPI>;

    closed spec fn view(&self) -> CellState<PyDateTime_CAPI> {
        self.inner@
    }
}

/// The name under which the capability table is looked up.
pub const PyDateTime_CAPSULE_NAME: &'static str = "datetime.datetime_CAPI";

/// The call that looks the capability table up by its name.
pub fn ask_capsule() -> (call: crate::ffi::foreign::ForeignCall)
    ensures
        call == (crate::ffi::foreign::ForeignCall::PyCapsule_Import {
            name: PyDateTime_CAPSULE_NAME,
            no_block: 1,
        }),
{
    crate::ffi::foreign::ForeignCall::PyCapsule_Import { name: PyDateTime_CAPSULE_NAME, no_block: 1 }
}

/// Populates the cache of the capability table, and returns the table.
///
/// A cache that is ready is returned as it is: `import` is not run and
/// nothing changes. For an empty cache `import` is run once; it makes the
/// call of `ask_capsule`. A table that is fully populated and fits the
/// runtime is stored for good. Otherwise the failure is returned and the
/// cache stays empty, so that a later call tries again.
pub fn PyDateTime_IMPORT<F: FnOnce() -> Option<PyDateTime_CAPI>>(
    api: &mut _PyDateTimeAPI_impl,
    py: Python<'_>,
    host: &mut Host,
    import: F,
) -> (r: PyResult<PyDateTime_CAPI>)
    requires
        old(host).wf(),
        !(old(api)@ is Initializing),
        old(api)@ is Uninitialized ==> call_requires(import, ()),
    ensures
        final(host).wf(),
        final(host).same_records(old(host)),
        old(api)@ is Ready ==> {
            &&& r == Ok::<PyDateTime_CAPI, PyErr>(old(api)@->value)
            &&& final(api)@ == old(api)@
            &&& final(host).pending() == old(host).pending()
        },
        old(api)@ is Uninitialized ==> {
            &&& exists|raw: Option<PyDateTime_CAPI>| #[trigger]
                call_ensures(import, (), raw) && r == import_outcome(old(host), raw)
                    && final(host).pending() == pending_after(old(host), raw)
            &&& final(api)@ == after_complete(r)
        },
{
    match api.inner.access(py, 0) {
        Access::Ready(table) => Ok(table),
        _ => {
            let raw = import();
            let result = capsule_outcome(py, host, raw);
            api.inner.complete(py, 0, result)
        },
    }
}

impl _PyDateTimeAPI_impl {
    /// An empty cache.
    pub fn new() -> (api: Self)
        ensures
            api@ is Uninitialized,
    {
        _PyDateTimeAPI_impl { inner: GILOnceCell::new() }
    }

    /// The capability table, imported on first use.
    pub fn deref<F: FnOnce() -> Option<PyDateTime_CAPI>>(
        &mut self,
        py: Python<'_>,
        host: &mut Host,
        import: F,
    ) -> (r: PyResult<PyDateTime_CAPI>)
        requires
            old(host).wf(),
            !(old(self)@ is Initializing),
            old(self)@ is Uninitialized ==> call_requires(import, ()),
        ensures
            final(host).wf(),
            final(host).same_records(old(host)),
            old(self)@ is Ready ==> {
                &&& r == Ok::<PyDateTime_CAPI, PyErr>(old(self)@->value)
                &&& final(self)@ == old(self)@
                &&& final(host).pending() == old(host).pending()
            },
            old(self)@ is Uninitialized ==> {
                &&& exists|raw: Option<PyDateTime_CAPI>| #[trigger]
                    call_ensures(import, (), raw) && r == import_outcome(old(host), raw)
                        && final(host).pending() == pending_after(old(host), raw)
                &&& final(self)@ == after_complete(r)
            },
    {
        PyDateTime_IMPORT(self, py, host, import)
    }
}

/// The shared UTC time zone of the capability table.
pub struct _PyDateTime_TimeZone_UTC_impl {}

impl _PyDateTime_TimeZone_UTC_impl {
    /// A borrowed handle to the UTC time zone that `api` names. The table
    /// keeps the reference; none changes hands.
    pub fn deref<'py>(py: Python<'py>, host: &Host, api: &PyDateTime_CAPI) -> (utc: Borrowed<'py>)
        requires
            host.wf(),
            capi_wf(host, *api),
            host.refcnt(api.TimeZone_UTC) > 0,
        ensures
            utc.addr() == api.TimeZone_UTC,
            utc.wf(host),
    {
        borrow(py, host, api.TimeZone_UTC)
    }
}

/// The call that makes a date and time from a timestamp: the constructor of
/// `api` for it, on the date and time type, with `args` and no keywords.
pub fn PyDateTime_FromTimestamp(api: &PyDateTime_CAPI, args: usize) -> (call: CapiCall)
    ensures
        call == (CapiCall {
            entry: api.DateTime_FromTimestamp,
            cls: api.DateTimeType,
            args,
            kwargs: NULL,
        }),
{
    CapiCall { entry: api.DateTime_FromTimestamp, cls: api.DateTimeType, args, kwargs: NULL }
}

/// The call that makes a date from a timestamp: the constructor of `api` for
/// it, on the date type, with `args`.
pub fn PyDate_FromTimestamp(api: &PyDateTime_CAPI, args: usize) -> (call: CapiCall)
    ensures
        call == (CapiCall {
            entry: api.Date_FromTimestamp,
            cls: api.DateType,
            args,
            kwargs: NULL,
        }),
{
    CapiCall { entry: api.Date_FromTimestamp, cls: api.DateType, args, kwargs: NULL }
}

/// 1 where the record at `op` is a date or of a type that descends from
/// it, else 0.
pub fn PyDate_Check(api: &PyDateTime_CAPI, host: &Host, op: usize) -> (r: i32)
    requires
        host.wf(),
        host.valid(op),
    ensures
        r == if host.subtype(host.type_of(op), api.DateType) { 1i32 } else { 0i32 },
{
    PyObject_TypeCheck(host, op, api.DateType)
}

/// 1 where the type of the record at `op` is exactly the date type,
/// else 0.
pub fn PyDate_CheckExact(api: &PyDateTime_CAPI, host: &Host, op: usize) -> (r: i32)
    requires
        host.valid(op),
    ensures
        r == if host.type_of(op) == api.DateType { 1i32 } else { 0i32 },
{
    if Py_TYPE(host, op) == api.DateType {
        1
    } else {
        0
    }
}

/// 1 where the record at `op` is a date and time or of a type that descends from
/// it, else 0.
pub fn PyDateTime_Check(api: &PyDateTime_CAPI, host: &Host, op: usize) -> (r: i32)
    requires
        host.wf(),
        host.valid(op),
    ensures
        r == if host.subtype(host.type_of(op), api.DateTimeType) { 1i32 } else { 0i32 },
{
    PyObject_TypeCheck(host, op, api.DateTimeType)
}

/// 1 where the type of the record at `op` is exactly the date and time type,
/// else 0.
pub fn PyDateTime_CheckExact(api: &PyDateTime_CAPI, host: &Host, op: usize) -> (r: i32)
    requires
        host.valid(op),
    ensures
        r == if host.type_of(op) == api.DateTimeType { 1i32 } else { 0i32 },
{
    if Py_TYPE(host, op) == api.DateTimeType {
        1
    } else {
        0
    }
}

/// 1 where the record at `op` is a time or of a type that descends from
/// it, else 0.
pub fn PyTime_Check(api: &PyDateTime_CAPI, host: &Host, op: usize) -> (r: i32)
    requires
        host.wf(),
        host.valid(op),
    ensures
        r == if host.subtype(host.type_of(op), api.TimeType) { 1i32 } else { 0i32 },
{
    PyObject_TypeCheck(host, op, api.TimeType)
}

/// 1 where the type of the record at `op` is exactly the time type,
/// else 0.
pub fn PyTime_CheckExact(api: &PyDateTime_CAPI, host: &Host, op: usize) -> (r: i32)
    requires
        host.valid(op),
    ensures
        r == if host.type_of(op) == api.TimeType { 1i32 } else { 0i32 },
{
    if Py_TYPE(host, op) == api.TimeType {
        1
    } else {
        0
    }
}

/// 1 where the record at `op` is a duration or of a type that descends from
/// it, else 0.
pub fn PyDelta_Check(api: &PyDateTime_CAPI, host: &Host, op: usize) -> (r: i32)
    requires
        host.wf(),
        host.valid(op),
    ensures
        r == if host.subtype(host.type_of(op), api.DeltaType) { 1i32 } else { 0i32 },
{
    PyObject_TypeCheck(host, op, api.DeltaType)
}

/// 1 where the type of the record at `op` is exactly the duration type,
/// else 0.
pub fn PyDelta_CheckExact(api: &PyDateTime_CAPI, host: &Host, op: usize) -> (r: i32)
    requires
        host.valid(op),
    ensures
        r == if host.type_of(op) == api.DeltaType { 1i32 } else { 0i32 },
{
    if Py_TYPE(host, op) == api.DeltaType {
        1
    } else {
        0
    }
}

/// 1 where the record at `op` is a time zone or of a type that descends from
/// it, else 0.
pub fn PyTZInfo_Check(api: &PyDateTime_CAPI, host: &Host, op: usize) -> (r: i32)
    requires
        host.wf(),
        host.valid(op),
    ensures
        r == if host.subtype(host.type_of(op), api.TZInfoType) { 1i32 } else { 0i32 },
{
    PyObject_TypeCheck(host, op, api.TZInfoType)
}

/// 1 where the type of the record at `op` is exactly the time zone type,
/// else 0.
pub fn PyTZInfo_CheckExact(api: &PyDateTime_CAPI, host: &Host, op: usize) -> (r: i32)
    requires
        host.valid(op),
    ensures
        r == if host.type_of(op) == api.TZInfoType { 1i32 } else { 0i32 },
{
    if Py_TYPE(host, op) == api.TZInfoType {
        1
    } else {
        0
    }
}

} // verus!
