//! Date and time records read through their attributes: the reflective
//! strategy.
//!
//! A field is looked up by its name; the value found is read as an integer,
//! and the reference that the lookup handed out is dropped at once, so that
//! reading a field leaves every reference count as it was.

use crate::ffi::attribute::PyObject_GetAttrString;
use crate::ffi::datetime::{be16, date_in_range, encoded_date, packed};
use crate::ffi::longobject::{PyLong_AsLong, PyLong_Check};
use crate::ffi::object::{Body, Host, NULL};
use crate::ffi::refcount::Py_DecRef;
use vstd::prelude::*;

verus! {

/// Whether the record at `obj` has the attribute `field`, and the reference
/// count of its value can still grow.
pub open spec fn has_field(host: &Host, obj: usize, field: Seq<char>) -> bool {
    &&& host.attr(obj, field) != NULL
    &&& host.refcnt(host.attr(obj, field)) < isize::MAX
}

/// What reading the attribute `field` of the record at `obj` gives: the
/// integer that its value holds, cut to 32 bits, or 0 where the value is no
/// integer.
pub open spec fn reflected(host: &Host, obj: usize, field: Seq<char>) -> i32 {
    match host.body(host.attr(obj, field)) {
        Body::Long { ob_ival } => ob_ival as i32,
        _ => 0i32,
    }
}

/// Looks up the attribute `field` of the record at `obj` and reads its value
/// as an integer. The reference that the lookup hands out is dropped before
/// the value is read, so no count differs afterwards.
pub fn _get_attr(host: &mut Host, obj: usize, field: &str) -> (r: i32)
    requires
        old(host).wf(),
        old(host).valid(obj),
        has_field(old(host), obj, field@),
    ensures
        final(host).wf(),
        final(host).same_state(old(host)),
        r == reflected(old(host), obj, field@),
{
    let result = PyObject_GetAttrString(host, obj, field);
    assert(old(host).record_wf(result));
    Py_DecRef(host, result);
    if PyLong_Check(host, result) == 1 {
        #[verifier::truncate]
        (PyLong_AsLong(host, result) as i32)
    } else {
        0
    }
}

/// The address of the value of the attribute `tzinfo` of the record at `o`,
/// or null where it has none. The reference is borrowed: the one that the
/// lookup hands out is dropped at once.
fn get_tzinfo(host: &mut Host, o: usize) -> (r: usize)
    requires
        old(host).wf(),
        old(host).valid(o),
        old(host).attr(o, "tzinfo"@) != NULL ==> has_field(old(host), o, "tzinfo"@),
    ensures
        final(host).wf(),
        final(host).same_records(old(host)),
        r == old(host).attr(o, "tzinfo"@),
        r != NULL ==> final(host).pending() == old(host).pending(),
{
    let res = PyObject_GetAttrString(host, o, "tzinfo");
    if res != NULL {
        assert(old(host).record_wf(res));
    }
    Py_DecRef(host, res);
    res
}

/// The address of the time zone of the date and time at `o`, or null.
pub fn PyDateTime_DATE_GET_TZINFO(host: &mut Host, o: usize) -> (r: usize)
    requires
        old(host).wf(),
        old(host).valid(o),
        old(host).attr(o, "tzinfo"@) != NULL ==> has_field(old(host), o, "tzinfo"@),
    ensures
        final(host).wf(),
        final(host).same_records(old(host)),
        r == old(host).attr(o, "tzinfo"@),
        r != NULL ==> final(host).pending() == old(host).pending(),
{
    get_tzinfo(host, o)
}

/// The address of the time zone of the time at `o`, or null.
pub fn PyDateTime_TIME_GET_TZINFO(host: &mut Host, o: usize) -> (r: usize)
    requires
        old(host).wf(),
        old(host).valid(o),
        old(host).attr(o, "tzinfo"@) != NULL ==> has_field(old(host), o, "tzinfo"@),
    ensures
        final(host).wf(),
        final(host).same_records(old(host)),
        r == old(host).attr(o, "tzinfo"@),
        r != NULL ==> final(host).pending() == old(host).pending(),
{
    get_tzinfo(host, o)
}

/// The year of the date or date and time at `o`.
pub fn PyDateTime_GET_YEAR(host: &mut Host, o: usize) -> (r: i32)
    requires
        old(host).wf(),
        old(host).valid(o),
        has_field(old(host), o, "year"@),
    ensures
        final(host).wf(),
        final(host).same_state(old(host)),
        r == reflected(old(host), o, "year"@),
{
    _get_attr(host, o, "year")
}

/// The month of the date or date and time at `o`.
pub fn PyDateTime_GET_MONTH(host: &mut Host, o: usize) -> (r: i32)
    requires
        old(host).wf(),
        old(host).valid(o),
        has_field(old(host), o, "month"@),
    ensures
        final(host).wf(),
        final(host).same_state(old(host)),
        r == reflected(old(host), o, "month"@),
{
    _get_attr(host, o, "month")
}

/// The day of the date or date and time at `o`.
pub fn PyDateTime_GET_DAY(host: &mut Host, o: usize) -> (r: i32)
    requires
        old(host).wf(),
        old(host).valid(o),
        has_field(old(host), o, "day"@),
    ensures
        final(host).wf(),
        final(host).same_state(old(host)),
        r == reflected(old(host), o, "day"@),
{
    _get_attr(host, o, "day")
}

/// The hour of the date and time at `o`.
pub fn PyDateTime_DATE_GET_HOUR(host: &mut Host, o: usize) -> (r: i32)
    requires
        old(host).wf(),
        old(host).valid(o),
        has_field(old(host), o, "hour"@),
    ensures
        final(host).wf(),
        final(host).same_state(old(host)),
        r == reflected(old(host), o, "hour"@),
{
    _get_attr(host, o, "hour")
}

/// The minute of the date and time at `o`.
pub fn PyDateTime_DATE_GET_MINUTE(host: &mut Host, o: usize) -> (r: i32)
    requires
        old(host).wf(),
        old(host).valid(o),
        has_field(old(host), o, "minute"@),
    ensures
        final(host).wf(),
        final(host).same_state(old(host)),
        r == reflected(old(host), o, "minute"@),
{
    _get_attr(host, o, "minute")
}

/// The second of the date and time at `o`.
pub fn PyDateTime_DATE_GET_SECOND(host: &mut Host, o: usize) -> (r: i32)
    requires
        old(host).wf(),
        old(host).valid(o),
        has_field(old(host), o, "second"@),
    ensures
        final(host).wf(),
        final(host).same_state(old(host)),
        r == reflected(old(host), o, "second"@),
{
    _get_attr(host, o, "second")
}

/// The microsecond of the date and time at `o`.
pub fn PyDateTime_DATE_GET_MICROSECOND(host: &mut Host, o: usize) -> (r: i32)
    requires
        old(host).wf(),
        old(host).valid(o),
        has_field(old(host), o, "microsecond"@),
    ensures
        final(host).wf(),
        final(host).same_state(old(host)),
        r == reflected(old(host), o, "microsecond"@),
{
    _get_attr(host, o, "microsecond")
}

/// The fold flag of the date and time at `o`.
pub fn PyDateTime_DATE_GET_FOLD(host: &mut Host, o: usize) -> (r: i32)
    requires
        old(host).wf(),
        old(host).valid(o),
        has_field(old(host), o, "fold"@),
    ensures
        final(host).wf(),
        final(host).same_state(old(host)),
        r == reflected(old(host), o, "fold"@),
{
    _get_attr(host, o, "fold")
}

/// The hour of the time at `o`.
pub fn PyDateTime_TIME_GET_HOUR(host: &mut Host, o: usize) -> (r: i32)
    requires
        old(host).wf(),
        old(host).valid(o),
        has_field(old(host), o, "hour"@),
    ensures
        final(host).wf(),
        final(host).same_state(old(host)),
        r == reflected(old(host), o, "hour"@),
{
    _get_attr(host, o, "hour")
}

/// The minute of the time at `o`.
pub fn PyDateTime_TIME_GET_MINUTE(host: &mut Host, o: usize) -> (r: i32)
    requires
        old(host).wf(),
        old(host).valid(o),
        has_field(old(host), o, "minute"@),
    ensures
        final(host).wf(),
        final(host).same_state(old(host)),
        r == reflected(old(host), o, "minute"@),
{
    _get_attr(host, o, "minute")
}

/// The second of the time at `o`.
pub fn PyDateTime_TIME_GET_SECOND(host: &mut Host, o: usize) -> (r: i32)
    requires
        old(host).wf(),
        old(host).valid(o),
        has_field(old(host), o, "second"@),
    ensures
        final(host).wf(),
        final(host).same_state(old(host)),
        r == reflected(old(host), o, "second"@),
{
    _get_attr(host, o, "second")
}

/// The microsecond of the time at `o`.
pub fn PyDateTime_TIME_GET_MICROSECOND(host: &mut Host, o: usize) -> (r: i32)
    requires
        old(host).wf(),
        old(host).valid(o),
        has_field(old(host), o, "microsecond"@),
    ensures
        final(host).wf(),
        final(host).same_state(old(host)),
        r == reflected(old(host), o, "microsecond"@),
{
    _get_attr(host, o, "microsecond")
}

/// The fold flag of the time at `o`.
pub fn PyDateTime_TIME_GET_FOLD(host: &mut Host, o: usize) -> (r: i32)
    requires
        old(host).wf(),
        old(host).valid(o),
        has_field(old(host), o, "fold"@),
    ensures
        final(host).wf(),
        final(host).same_state(old(host)),
        r == reflected(old(host), o, "fold"@),
{
    _get_attr(host, o, "fold")
}

/// The days field of the duration at `o`.
pub fn PyDateTime_DELTA_GET_DAYS(host: &mut Host, o: usize) -> (r: i32)
    requires
        old(host).wf(),
        old(host).valid(o),
        has_field(old(host), o, "days"@),
    ensures
        final(host).wf(),
        final(host).same_state(old(host)),
        r == reflected(old(host), o, "days"@),
{
    _get_attr(host, o, "days")
}

/// The seconds field of the duration at `o`.
pub fn PyDateTime_DELTA_GET_SECONDS(host: &mut Host, o: usize) -> (r: i32)
    requires
        old(host).wf(),
        old(host).valid(o),
        has_field(old(host), o, "seconds"@),
    ensures
        final(host).wf(),
        final(host).same_state(old(host)),
        r == reflected(old(host), o, "seconds"@),
{
    _get_attr(host, o, "seconds")
}

/// The microseconds field of the duration at `o`.
pub fn PyDateTime_DELTA_GET_MICROSECONDS(host: &mut Host, o: usize) -> (r: i32)
    requires
        old(host).wf(),
        old(host).valid(o),
        has_field(old(host), o, "microseconds"@),
    ensures
        final(host).wf(),
        final(host).same_state(old(host)),
        r == reflected(old(host), o, "microseconds"@),
{
    _get_attr(host, o, "microseconds")
}

/// Whether the attribute `field` of the record at `o` is an integer record
/// that holds `value`.
pub open spec fn field_is(host: &Host, o: usize, field: Seq<char>, value: int) -> bool {
    &&& host.attr(o, field) != NULL
    &&& host.body(host.attr(o, field)) == (Body::Long { ob_ival: value as i64 })
}

/// Whether the record at `o` shows the date `year`, `month`, `day` through
/// its attributes.
pub open spec fn reflects_date(host: &Host, o: usize, year: int, month: int, day: int) -> bool {
    &&& field_is(host, o, "year"@, year)
    &&& field_is(host, o, "month"@, month)
    &&& field_is(host, o, "day"@, day)
}

/// An integer that fits in 32 bits is read back as it is.
pub proof fn lemma_reflected_value(host: &Host, o: usize, field: Seq<char>, value: int)
    requires
        field_is(host, o, field, value),
        -0x8000_0000 <= value < 0x8000_0000,
    ensures
        reflected(host, o, field) == value,
{
    let v: i64 = value as i64;
    assert(v as i32 == v) by (bit_vector)
        requires
            -0x8000_0000 <= v < 0x8000_0000,
    ;
}

/// Backend equivalence. A record that packs a date in its bytes and a
/// record that shows the same date through its attributes give the same
/// year, month and day, each through its own strategy: the date itself.
pub proof fn lemma_backend_equivalence(
    host: &Host,
    direct: usize,
    reflective: usize,
    year: int,
    month: int,
    day: int,
)
    requires
        date_in_range(year, month, day),
        packed(host, direct) == encoded_date(year, month, day),
        reflects_date(host, reflective, year, month, day),
    ensures
        be16(packed(host, direct)[0], packed(host, direct)[1]) == year,
        reflected(host, reflective, "year"@) == year,
        packed(host, direct)[2] == month,
        reflected(host, reflective, "month"@) == month,
        packed(host, direct)[3] == day,
        reflected(host, reflective, "day"@) == day,
{
    lemma_reflected_value(host, reflective, "year"@, year);
    lemma_reflected_value(host, reflective, "month"@, month);
    lemma_reflected_value(host, reflective, "day"@, day);
}

} // verus!
