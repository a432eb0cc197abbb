//! Date and time records read by their fixed byte layout: the direct
//! strategy.
//!
//! A date packs its year in two bytes, most significant first, then its
//! month and its day. A time packs hour, minute and second in a byte each
//! and its microsecond in three bytes, most significant first. A date and
//! time packs a date and then a time.

use crate::ffi::object::{Body, Host, PyObject};
use vstd::prelude::*;

verus! {

/// Number of packed bytes in a date record.
pub const _PyDateTime_DATE_DATASIZE: usize = 4;

/// Number of packed bytes in a time record.
pub const _PyDateTime_TIME_DATASIZE: usize = 6;

/// Number of packed bytes in a combined date and time record.
pub const _PyDateTime_DATETIME_DATASIZE: usize = 10;

/// The layout of a duration record.
#[derive(Debug, Copy, Clone)]
pub struct PyDateTime_Delta {
    pub ob_base: PyObject,
    pub hashcode: isize,
    pub days: i32,
    pub seconds: i32,
    pub microseconds: i32,
}

/// The layout of a time record.
#[derive(Debug, Copy, Clone)]
pub struct PyDateTime_Time {
    pub ob_base: PyObject,
    pub hashcode: isize,
    pub hastzinfo: i8,
    pub data: [u8; 6],
    pub fold: u8,
    pub tzinfo: usize,
}

/// The layout of a date record.
#[derive(Debug, Copy, Clone)]
pub struct PyDateTime_Date {
    pub ob_base: PyObject,
    pub hashcode: isize,
    pub hastzinfo: i8,
    pub data: [u8; 4],
}

/// The layout of a combined date and time record.
#[derive(Debug, Copy, Clone)]
pub struct PyDateTime_DateTime {
    pub ob_base: PyObject,
    pub hashcode: isize,
    pub hastzinfo: i8,
    pub data: [u8; 10],
    pub fold: u8,
    pub tzinfo: usize,
}

/// The value of two bytes read as one number, most significant first.
pub open spec fn be16(hi: u8, lo: u8) -> int {
    hi as int * 256 + lo as int
}

/// The value of three bytes read as one number, most significant first.
pub open spec fn be24(b0: u8, b1: u8, b2: u8) -> int {
    b0 as int * 65536 + b1 as int * 256 + b2 as int
}

/// The packed bytes of the record at `o`; none for a record of another
/// layout.
pub open spec fn packed(host: &Host, o: usize) -> Seq<u8> {
    match host.body(o) {
        Body::Date { data, .. } => data@,
        Body::DateTime { data, .. } => data@,
        Body::Time { data, .. } => data@,
        _ => Seq::empty(),
    }
}

/// Whether the record at `o` starts with a packed date.
pub open spec fn has_date_layout(host: &Host, o: usize) -> bool {
    host.body(o) is Date || host.body(o) is DateTime
}

/// The fold flag of the record at `o`.
pub open spec fn fold_of(host: &Host, o: usize) -> u8 {
    match host.body(o) {
        Body::DateTime { fold, .. } => fold,
        Body::Time { fold, .. } => fold,
        _ => 0,
    }
}

/// The address of the time zone of the record at `o`.
pub open spec fn tzinfo_of(host: &Host, o: usize) -> usize {
    match host.body(o) {
        Body::DateTime { tzinfo, .. } => tzinfo,
        Body::Time { tzinfo, .. } => tzinfo,
        _ => 0,
    }
}

/// The record at `o`, read as a date: its header and the date that its
/// bytes start with.
pub fn date_view(host: &Host, o: usize) -> (d: PyDateTime_Date)
    requires
        host.wf(),
        host.valid(o),
        has_date_layout(host, o),
    ensures
        d.ob_base == host.header(o),
        d.data@ == packed(host, o).subrange(0, 4),
        d.hashcode == match host.body(o) {
            Body::Date { hashcode, .. } => hashcode,
            Body::DateTime { hashcode, .. } => hashcode,
            _ => 0,
        },
        d.hastzinfo == match host.body(o) {
            Body::Date { hastzinfo, .. } => hastzinfo,
            Body::DateTime { hastzinfo, .. } => hastzinfo,
            _ => 0,
        },
{
    let ob_base = host.get_header(o);
    match host.get_body(o) {
        Body::Date { hashcode, hastzinfo, data } => {
            PyDateTime_Date { ob_base, hashcode: *hashcode, hastzinfo: *hastzinfo, data: *data }
        },
        Body::DateTime { hashcode, hastzinfo, data, .. } => {
            let head: [u8; 4] = [data[0], data[1], data[2], data[3]];
            PyDateTime_Date { ob_base, hashcode: *hashcode, hastzinfo: *hastzinfo, data: head }
        },
        _ => PyDateTime_Date { ob_base, hashcode: 0, hastzinfo: 0, data: [0, 0, 0, 0] },
    }
}

/// The record at `o`, read as a date and time.
pub fn datetime_view(host: &Host, o: usize) -> (d: PyDateTime_DateTime)
    requires
        host.wf(),
        host.valid(o),
        host.body(o) is DateTime,
    ensures
        host.body(o) == (Body::DateTime {
            hashcode: d.hashcode,
            hastzinfo: d.hastzinfo,
            data: d.data,
            fold: d.fold,
            tzinfo: d.tzinfo,
        }),
        d.ob_base == host.header(o),
{
    let ob_base = host.get_header(o);
    match host.get_body(o) {
        Body::DateTime { hashcode, hastzinfo, data, fold, tzinfo } => PyDateTime_DateTime {
            ob_base,
            hashcode: *hashcode,
            hastzinfo: *hastzinfo,
            data: *data,
            fold: *fold,
            tzinfo: *tzinfo,
        },
        _ => PyDateTime_DateTime {
            ob_base,
            hashcode: 0,
            hastzinfo: 0,
            data: [0, 0, 0, 0, 0, 0, 0, 0, 0, 0],
            fold: 0,
            tzinfo: 0,
        },
    }
}

/// The record at `o`, read as a time.
pub fn time_view(host: &Host, o: usize) -> (t: PyDateTime_Time)
    requires
        host.wf(),
        host.valid(o),
        host.body(o) is Time,
    ensures
        host.body(o) == (Body::Time {
            hashcode: t.hashcode,
            hastzinfo: t.hastzinfo,
            data: t.data,
            fold: t.fold,
            tzinfo: t.tzinfo,
        }),
        t.ob_base == host.header(o),
{
    let ob_base = host.get_header(o);
    match host.get_body(o) {
        Body::Time { hashcode, hastzinfo, data, fold, tzinfo } => PyDateTime_Time {
            ob_base,
            hashcode: *hashcode,
            hastzinfo: *hastzinfo,
            data: *data,
            fold: *fold,
            tzinfo: *tzinfo,
        },
        _ => PyDateTime_Time {
            ob_base,
            hashcode: 0,
            hastzinfo: 0,
            data: [0, 0, 0, 0, 0, 0],
            fold: 0,
            tzinfo: 0,
        },
    }
}

/// The record at `o`, read as a duration.
pub fn delta_view(host: &Host, o: usize) -> (d: PyDateTime_Delta)
    requires
        host.wf(),
        host.valid(o),
        host.body(o) is Delta,
    ensures
        host.body(o) == (Body::Delta {
            hashcode: d.hashcode,
            days: d.days,
            seconds: d.seconds,
            microseconds: d.microseconds,
        }),
        d.ob_base == host.header(o),
{
    let ob_base = host.get_header(o);
    match host.get_body(o) {
        Body::Delta { hashcode, days, seconds, microseconds } => PyDateTime_Delta {
            ob_base,
            hashcode: *hashcode,
            days: *days,
            seconds: *seconds,
            microseconds: *microseconds,
        },
        _ => PyDateTime_Delta { ob_base, hashcode: 0, days: 0, seconds: 0, microseconds: 0 },
    }
}

/// The hour of a time packed in `data` from `offset` on.
pub fn _PyDateTime_GET_HOUR(data: &[u8], offset: usize) -> (r: i32)
    requires
        offset + 6 <= data@.len(),
    ensures
        r == data@[offset + 0],
{
    let _n: usize = data.len();
    data[offset + 0] as i32
}

/// The minute of a time packed in `data` from `offset` on.
pub fn _PyDateTime_GET_MINUTE(data: &[u8], offset: usize) -> (r: i32)
    requires
        offset + 6 <= data@.len(),
    ensures
        r == data@[offset + 1],
{
    let _n: usize = data.len();
    data[offset + 1] as i32
}

/// The second of a time packed in `data` from `offset` on.
pub fn _PyDateTime_GET_SECOND(data: &[u8], offset: usize) -> (r: i32)
    requires
        offset + 6 <= data@.len(),
    ensures
        r == data@[offset + 2],
{
    let _n: usize = data.len();
    data[offset + 2] as i32
}

/// The microsecond of a time packed in `data` from `offset` on.
pub fn _PyDateTime_GET_MICROSECOND(data: &[u8], offset: usize) -> (r: i32)
    requires
        offset + 6 <= data@.len(),
    ensures
        r == be24(data@[offset + 3], data@[offset + 4], data@[offset + 5]),
{
    let _n: usize = data.len();
    let b0: i32 = data[offset + 3] as i32;
    let b1: i32 = data[offset + 4] as i32;
    let b2: i32 = data[offset + 5] as i32;
    assert((b0 << 16) | (b1 << 8) | b2 == b0 * 65536 + b1 * 256 + b2) by (bit_vector)
        requires
            0 <= b0 < 256,
            0 <= b1 < 256,
            0 <= b2 < 256,
    ;
    (b0 << 16) | (b1 << 8) | b2
}

/// The year of a date packed at the start of `data`.
pub fn _PyDateTime_GET_YEAR(data: &[u8]) -> (r: i32)
    requires
        4 <= data@.len(),
    ensures
        r == be16(data@[0], data@[1]),
{
    let hi: i32 = data[0] as i32;
    let lo: i32 = data[1] as i32;
    assert((hi << 8) | lo == hi * 256 + lo) by (bit_vector)
        requires
            0 <= hi < 256,
            0 <= lo < 256,
    ;
    (hi << 8) | lo
}

/// The year of the date or date and time at `o`.
pub fn PyDateTime_GET_YEAR(host: &mut Host, o: usize) -> (r: i32)
    requires
        old(host).wf(),
        old(host).valid(o),
        has_date_layout(old(host), o),
    ensures
        *final(host) == *old(host),
        r == be16(packed(old(host), o)[0], packed(old(host), o)[1]),
{
    let d = date_view(host, o);
    _PyDateTime_GET_YEAR(d.data.as_slice())
}

/// The month of the date or date and time at `o`.
pub fn PyDateTime_GET_MONTH(host: &mut Host, o: usize) -> (r: i32)
    requires
        old(host).wf(),
        old(host).valid(o),
        has_date_layout(old(host), o),
    ensures
        *final(host) == *old(host),
        r == packed(old(host), o)[2],
{
    let d = date_view(host, o);
    d.data[2] as i32
}

/// The day of the date or date and time at `o`.
pub fn PyDateTime_GET_DAY(host: &mut Host, o: usize) -> (r: i32)
    requires
        old(host).wf(),
        old(host).valid(o),
        has_date_layout(old(host), o),
    ensures
        *final(host) == *old(host),
        r == packed(old(host), o)[3],
{
    let d = date_view(host, o);
    d.data[3] as i32
}

/// The hour of the date and time at `o`.
pub fn PyDateTime_DATE_GET_HOUR(host: &mut Host, o: usize) -> (r: i32)
    requires
        old(host).wf(),
        old(host).valid(o),
        old(host).body(o) is DateTime,
    ensures
        *final(host) == *old(host),
        r == packed(old(host), o)[4],
{
    let d = datetime_view(host, o);
    _PyDateTime_GET_HOUR(d.data.as_slice(), _PyDateTime_DATE_DATASIZE)
}

/// The minute of the date and time at `o`.
pub fn PyDateTime_DATE_GET_MINUTE(host: &mut Host, o: usize) -> (r: i32)
    requires
        old(host).wf(),
        old(host).valid(o),
        old(host).body(o) is DateTime,
    ensures
        *final(host) == *old(host),
        r == packed(old(host), o)[5],
{
    let d = datetime_view(host, o);
    _PyDateTime_GET_MINUTE(d.data.as_slice(), _PyDateTime_DATE_DATASIZE)
}

/// The second of the date and time at `o`.
pub fn PyDateTime_DATE_GET_SECOND(host: &mut Host, o: usize) -> (r: i32)
    requires
        old(host).wf(),
        old(host).valid(o),
        old(host).body(o) is DateTime,
    ensures
        *final(host) == *old(host),
        r == packed(old(host), o)[6],
{
    let d = datetime_view(host, o);
    _PyDateTime_GET_SECOND(d.data.as_slice(), _PyDateTime_DATE_DATASIZE)
}

/// The microsecond of the date and time at `o`.
pub fn PyDateTime_DATE_GET_MICROSECOND(host: &mut Host, o: usize) -> (r: i32)
    requires
        old(host).wf(),
        old(host).valid(o),
        old(host).body(o) is DateTime,
    ensures
        *final(host) == *old(host),
        r == be24(
            packed(old(host), o)[7],
            packed(old(host), o)[8],
            packed(old(host), o)[9],
        ),
{
    let d = datetime_view(host, o);
    _PyDateTime_GET_MICROSECOND(d.data.as_slice(), _PyDateTime_DATE_DATASIZE)
}

/// The fold flag of the date and time at `o`.
pub fn PyDateTime_DATE_GET_FOLD(host: &mut Host, o: usize) -> (r: i32)
    requires
        old(host).wf(),
        old(host).valid(o),
        old(host).body(o) is DateTime,
    ensures
        *final(host) == *old(host),
        r == fold_of(old(host), o),
{
    let d = datetime_view(host, o);
    d.fold as i32
}

/// The address of the time zone of the date and time at `o`, or null. The
/// reference is borrowed: no count changes.
pub fn PyDateTime_DATE_GET_TZINFO(host: &mut Host, o: usize) -> (r: usize)
    requires
        old(host).wf(),
        old(host).valid(o),
        old(host).body(o) is DateTime,
    ensures
        *final(host) == *old(host),
        r == tzinfo_of(old(host), o),
{
    let d = datetime_view(host, o);
    d.tzinfo
}

/// The hour of the time at `o`.
pub fn PyDateTime_TIME_GET_HOUR(host: &mut Host, o: usize) -> (r: i32)
    requires
        old(host).wf(),
        old(host).valid(o),
        old(host).body(o) is Time,
    ensures
        *final(host) == *old(host),
        r == packed(old(host), o)[0],
{
    let t = time_view(host, o);
    _PyDateTime_GET_HOUR(t.data.as_slice(), 0)
}

/// The minute of the time at `o`.
pub fn PyDateTime_TIME_GET_MINUTE(host: &mut Host, o: usize) -> (r: i32)
    requires
        old(host).wf(),
        old(host).valid(o),
        old(host).body(o) is Time,
    ensures
        *final(host) == *old(host),
        r == packed(old(host), o)[1],
{
    let t = time_view(host, o);
    _PyDateTime_GET_MINUTE(t.data.as_slice(), 0)
}

/// The second of the time at `o`.
pub fn PyDateTime_TIME_GET_SECOND(host: &mut Host, o: usize) -> (r: i32)
    requires
        old(host).wf(),
        old(host).valid(o),
        old(host).body(o) is Time,
    ensures
        *final(host) == *old(host),
        r == packed(old(host), o)[2],
{
    let t = time_view(host, o);
    _PyDateTime_GET_SECOND(t.data.as_slice(), 0)
}

/// The microsecond of the time at `o`.
pub fn PyDateTime_TIME_GET_MICROSECOND(host: &mut Host, o: usize) -> (r: i32)
    requires
        old(host).wf(),
        old(host).valid(o),
        old(host).body(o) is Time,
    ensures
        *final(host) == *old(host),
        r == be24(
            packed(old(host), o)[3],
            packed(old(host), o)[4],
            packed(old(host), o)[5],
        ),
{
    let t = time_view(host, o);
    _PyDateTime_GET_MICROSECOND(t.data.as_slice(), 0)
}

/// The fold flag of the time at `o`.
pub fn PyDateTime_TIME_GET_FOLD(host: &mut Host, o: usize) -> (r: i32)
    requires
        old(host).wf(),
        old(host).valid(o),
        old(host).body(o) is Time,
    ensures
        *final(host) == *old(host),
        r == fold_of(old(host), o),
{
    let t = time_view(host, o);
    t.fold as i32
}

/// The address of the time zone of the time at `o`, or null. The
/// reference is borrowed: no count changes.
pub fn PyDateTime_TIME_GET_TZINFO(host: &mut Host, o: usize) -> (r: usize)
    requires
        old(host).wf(),
        old(host).valid(o),
        old(host).body(o) is Time,
    ensures
        *final(host) == *old(host),
        r == tzinfo_of(old(host), o),
{
    let t = time_view(host, o);
    t.tzinfo
}

/// The days field of the duration at `o`. It is one field of the record,
/// not the whole duration in that unit.
pub fn PyDateTime_DELTA_GET_DAYS(host: &mut Host, o: usize) -> (r: i32)
    requires
        old(host).wf(),
        old(host).valid(o),
        old(host).body(o) is Delta,
    ensures
        *final(host) == *old(host),
        r == old(host).body(o)->days,
{
    let d = delta_view(host, o);
    d.days
}

/// The seconds field of the duration at `o`. It is one field of the record,
/// not the whole duration in that unit.
pub fn PyDateTime_DELTA_GET_SECONDS(host: &mut Host, o: usize) -> (r: i32)
    requires
        old(host).wf(),
        old(host).valid(o),
        old(host).body(o) is Delta,
    ensures
        *final(host) == *old(host),
        r == old(host).body(o)->seconds,
{
    let d = delta_view(host, o);
    d.seconds
}

/// The microseconds field of the duration at `o`. It is one field of the record,
/// not the whole duration in that unit.
pub fn PyDateTime_DELTA_GET_MICROSECONDS(host: &mut Host, o: usize) -> (r: i32)
    requires
        old(host).wf(),
        old(host).valid(o),
        old(host).body(o) is Delta,
    ensures
        *final(host) == *old(host),
        r == old(host).body(o)->microseconds,
{
    let d = delta_view(host, o);
    d.microseconds
}

/// Whether `year`, `month` and `day` lie in the ranges that a date record
/// holds.
pub open spec fn date_in_range(year: int, month: int, day: int) -> bool {
    1 <= year <= 9999 && 1 <= month <= 12 && 1 <= day <= 31
}

/// Whether hour, minute, second and microsecond lie in the ranges that a
/// time record holds.
pub open spec fn time_in_range(hour: int, minute: int, second: int, microsecond: int) -> bool {
    0 <= hour <= 23 && 0 <= minute <= 59 && 0 <= second <= 59 && 0 <= microsecond <= 999999
}

/// The packed bytes of a date.
pub open spec fn encoded_date(year: int, month: int, day: int) -> Seq<u8> {
    seq![(year / 256) as u8, (year % 256) as u8, month as u8, day as u8]
}

/// The packed bytes of a time.
pub open spec fn encoded_time(hour: int, minute: int, second: int, microsecond: int) -> Seq<u8> {
    seq![
        hour as u8,
        minute as u8,
        second as u8,
        (microsecond / 65536) as u8,
        ((microsecond / 256) % 256) as u8,
        (microsecond % 256) as u8,
    ]
}

/// Packs a date into the bytes of its record.
pub fn pack_date(year: i32, month: i32, day: i32) -> (data: [u8; 4])
    requires
        date_in_range(year as int, month as int, day as int),
    ensures
        data@ == encoded_date(year as int, month as int, day as int),
{
    let data: [u8; 4] = [(year / 256) as u8, (year % 256) as u8, month as u8, day as u8];
    data
}

/// Packs a time into the bytes of its record.
pub fn pack_time(hour: i32, minute: i32, second: i32, microsecond: i32) -> (data: [u8; 6])
    requires
        time_in_range(hour as int, minute as int, second as int, microsecond as int),
    ensures
        data@ == encoded_time(hour as int, minute as int, second as int, microsecond as int),
{
    let data: [u8; 6] = [
        hour as u8,
        minute as u8,
        second as u8,
        (microsecond / 65536) as u8,
        ((microsecond / 256) % 256) as u8,
        (microsecond % 256) as u8,
    ];
    data
}

/// Packs a date and a time into the bytes of a combined record: the date
/// first, then the time.
pub fn pack_datetime(
    year: i32,
    month: i32,
    day: i32,
    hour: i32,
    minute: i32,
    second: i32,
    microsecond: i32,
) -> (data: [u8; 10])
    requires
        date_in_range(year as int, month as int, day as int),
        time_in_range(hour as int, minute as int, second as int, microsecond as int),
    ensures
        data@ == encoded_date(year as int, month as int, day as int) + encoded_time(
            hour as int,
            minute as int,
            second as int,
            microsecond as int,
        ),
{
    let data: [u8; 10] = [
        (year / 256) as u8,
        (year % 256) as u8,
        month as u8,
        day as u8,
        hour as u8,
        minute as u8,
        second as u8,
        (microsecond / 65536) as u8,
        ((microsecond / 256) % 256) as u8,
        (microsecond % 256) as u8,
    ];
    data
}

/// Reading a packed date gives back the date that was packed.
pub proof fn lemma_date_round_trip(year: int, month: int, day: int)
    requires
        date_in_range(year, month, day),
    ensures
        encoded_date(year, month, day).len() == 4,
        be16(encoded_date(year, month, day)[0], encoded_date(year, month, day)[1]) == year,
        encoded_date(year, month, day)[2] == month,
        encoded_date(year, month, day)[3] == day,
{
}

/// Reading a packed time gives back the time that was packed.
pub proof fn lemma_time_round_trip(hour: int, minute: int, second: int, microsecond: int)
    requires
        time_in_range(hour, minute, second, microsecond),
    ensures
        encoded_time(hour, minute, second, microsecond).len() == 6,
        encoded_time(hour, minute, second, microsecond)[0] == hour,
        encoded_time(hour, minute, second, microsecond)[1] == minute,
        encoded_time(hour, minute, second, microsecond)[2] == second,
        be24(
            encoded_time(hour, minute, second, microsecond)[3],
            encoded_time(hour, minute, second, microsecond)[4],
            encoded_time(hour, minute, second, microsecond)[5],
        ) == microsecond,
{
}

/// The documented ranges. What is read from the packed bytes of a date
/// and of a time lies in the ranges of the values that were packed: the
/// month from 1 to 12, the day from 1 to 31, the hour up to 23, minute and
/// second up to 59, the microsecond up to 999999.
pub proof fn lemma_documented_ranges(
    year: int,
    month: int,
    day: int,
    hour: int,
    minute: int,
    second: int,
    microsecond: int,
)
    requires
        date_in_range(year, month, day),
        time_in_range(hour, minute, second, microsecond),
    ensures
        ({
            let d = encoded_date(year, month, day);
            let t = encoded_time(hour, minute, second, microsecond);
            &&& 1 <= be16(d[0], d[1]) <= 9999
            &&& 1 <= d[2] <= 12
            &&& 1 <= d[3] <= 31
            &&& 0 <= t[0] <= 23
            &&& 0 <= t[1] <= 59
            &&& 0 <= t[2] <= 59
            &&& 0 <= be24(t[3], t[4], t[5]) <= 999999
        }),
{
    lemma_date_round_trip(year, month, day);
    lemma_time_round_trip(hour, minute, second, microsecond);
}

} // verus!
