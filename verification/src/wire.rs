//! The output buffer of the wire encoders and the byte-level writes into it.
use bytes::{BufMut, BytesMut};
use chrono::{DateTime, Datelike, NaiveDate, NaiveDateTime, NaiveTime, Timelike, Utc};
use tokio_postgres::types::{ToSql, Type};
use vstd::prelude::*;

verus! {

#[verifier::external_type_specification]
#[verifier::external_body]
pub struct ExBytesMut(BytesMut);

/// The bytes held by a buffer, in order.
pub uninterp spec fn buf_bytes(b: BytesMut) -> Seq<u8>;

/// Big-endian two's-complement encoding of `x` in `n` bytes.
pub open spec fn be_bytes(x: int, n: nat) -> Seq<u8>
    decreases n,
{
    if n == 0 {
        Seq::empty()
    } else {
        be_bytes(x / 256, (n - 1) as nat).push((x % 256) as u8)
    }
}

/// Appends `v` in big-endian order. Trusted: calls `bytes::BufMut::put_i16`,
/// which writes `v.to_be_bytes()` at the end of the buffer.
#[verifier::external_body]
pub(crate) fn put_i16(buf: &mut BytesMut, v: i16)
    ensures
        buf_bytes(*final(buf)) == buf_bytes(*old(buf)) + be_bytes(v as int, 2),
{
    buf.put_i16(v);
}

/// Appends `v` in big-endian order. Trusted: calls `bytes::BufMut::put_i32`,
/// which writes `v.to_be_bytes()` at the end of the buffer.
#[verifier::external_body]
pub(crate) fn put_i32(buf: &mut BytesMut, v: i32)
    ensures
        buf_bytes(*final(buf)) == buf_bytes(*old(buf)) + be_bytes(v as int, 4),
{
    buf.put_i32(v);
}

/// Appends `v` in big-endian order. Trusted: calls `bytes::BufMut::put_i64`,
/// which writes `v.to_be_bytes()` at the end of the buffer.
#[verifier::external_body]
pub(crate) fn put_i64(buf: &mut BytesMut, v: i64)
    ensures
        buf_bytes(*final(buf)) == buf_bytes(*old(buf)) + be_bytes(v as int, 8),
{
    buf.put_i64(v);
}

/// Appends the bytes of `v`. Trusted: calls `bytes::BufMut::put_slice`, which
/// copies the slice to the end of the buffer.
#[verifier::external_body]
pub(crate) fn put_slice(buf: &mut BytesMut, v: &[u8])
    ensures
        buf_bytes(*final(buf)) == buf_bytes(*old(buf)) + v@,
{
    buf.put_slice(v);
}

/// Binary `bool`. Trusted: calls `tokio_postgres`' `ToSql::to_sql` for `bool`
/// with type `BOOL`, which appends one byte (1 for true, 0 for false) and never
/// fails.
#[verifier::external_body]
pub(crate) fn to_sql_bool(v: bool, buf: &mut BytesMut)
    ensures
        buf_bytes(*final(buf)) == buf_bytes(*old(buf)) + seq![if v { 1u8 } else { 0u8 }],
{
    let _ = v.to_sql(&Type::BOOL, buf);
}

/// Binary `int2`. Trusted: calls `tokio_postgres`' `ToSql::to_sql` for `i16`,
/// which appends the two big-endian bytes and never fails.
#[verifier::external_body]
pub(crate) fn to_sql_i16(v: i16, buf: &mut BytesMut)
    ensures
        buf_bytes(*final(buf)) == buf_bytes(*old(buf)) + be_bytes(v as int, 2),
{
    let _ = v.to_sql(&Type::INT2, buf);
}

/// Binary `int4`. Trusted: calls `tokio_postgres`' `ToSql::to_sql` for `i32`,
/// which appends the four big-endian bytes and never fails.
#[verifier::external_body]
pub(crate) fn to_sql_i32(v: i32, buf: &mut BytesMut)
    ensures
        buf_bytes(*final(buf)) == buf_bytes(*old(buf)) + be_bytes(v as int, 4),
{
    let _ = v.to_sql(&Type::INT4, buf);
}

/// Binary `int8`. Trusted: calls `tokio_postgres`' `ToSql::to_sql` for `i64`,
/// which appends the eight big-endian bytes and never fails.
#[verifier::external_body]
pub(crate) fn to_sql_i64(v: i64, buf: &mut BytesMut)
    ensures
        buf_bytes(*final(buf)) == buf_bytes(*old(buf)) + be_bytes(v as int, 8),
{
    let _ = v.to_sql(&Type::INT8, buf);
}

/// Binary `text`. Trusted: calls `tokio_postgres`' `ToSql::to_sql` for `&str`
/// with type `TEXT`, which appends the UTF-8 bytes of the string and never
/// fails.
#[verifier::external_body]
pub(crate) fn to_sql_text(v: &str, buf: &mut BytesMut)
    ensures
        buf_bytes(*final(buf)) == buf_bytes(*old(buf)) + vstd::utf8::encode_utf8(v@),
{
    let _ = v.to_sql(&Type::TEXT, buf);
}

/// Binary `bytea`. Trusted: calls `tokio_postgres`' `ToSql::to_sql` for
/// `&[u8]`, which appends the bytes unchanged and never fails.
#[verifier::external_body]
pub(crate) fn to_sql_bytea(v: &[u8], buf: &mut BytesMut)
    ensures
        buf_bytes(*final(buf)) == buf_bytes(*old(buf)) + v@,
{
    let _ = v.to_sql(&Type::BYTEA, buf);
}

#[verifier::external_type_specification]
#[verifier::external_body]
pub struct ExNaiveDateTime(NaiveDateTime);

#[verifier::external_type_specification]
#[verifier::external_body]
pub struct ExNaiveDate(NaiveDate);

#[verifier::external_type_specification]
#[verifier::external_body]
pub struct ExNaiveTime(NaiveTime);

/// Microseconds from 2000-01-01 00:00:00 to a timestamp, when they fit an
/// `i64`.
pub uninterp spec fn timestamp_micros(v: NaiveDateTime) -> Option<i64>;

/// Days from 2000-01-01 to a date, when they fit an `i32`.
pub uninterp spec fn date_days(v: NaiveDate) -> Option<i32>;

/// Microseconds from midnight to a time of day, when they fit an `i64`.
pub uninterp spec fn time_micros(v: NaiveTime) -> Option<i64>;

/// The `Debug` text of a timestamp.
pub uninterp spec fn timestamp_debug(v: NaiveDateTime) -> Seq<char>;

/// The `Debug` text of a timestamp taken as a UTC `DateTime`.
pub uninterp spec fn utc_timestamp_debug(v: NaiveDateTime) -> Seq<char>;

/// The `Debug` text of a date.
pub uninterp spec fn date_debug(v: NaiveDate) -> Seq<char>;

/// The `Debug` text of a time of day.
pub uninterp spec fn time_debug(v: NaiveTime) -> Seq<char>;

/// Binary `timestamp`. Trusted: calls `tokio_postgres`' `ToSql::to_sql` for
/// `chrono::NaiveDateTime`, which appends the big-endian microseconds since
/// 2000-01-01, or writes nothing and fails ("value too large to transmit")
/// when they do not fit an `i64`.
#[verifier::external_body]
pub(crate) fn to_sql_timestamp(v: &NaiveDateTime, buf: &mut BytesMut) -> (ok: bool)
    ensures
        match timestamp_micros(*v) {
            Some(us) => ok && buf_bytes(*final(buf)) == buf_bytes(*old(buf)) + be_bytes(us as int, 8),
            None => !ok && buf_bytes(*final(buf)) == buf_bytes(*old(buf)),
        },
{
    v.to_sql(&Type::TIMESTAMP, buf).is_ok()
}

/// Binary `timestamptz`. Trusted: calls `tokio_postgres`' `ToSql::to_sql`
/// for `chrono::DateTime<Utc>` built from the UTC date and time, which
/// encodes that date and time exactly as a `timestamp`.
#[verifier::external_body]
pub(crate) fn to_sql_timestamptz(v: &NaiveDateTime, buf: &mut BytesMut) -> (ok: bool)
    ensures
        match timestamp_micros(*v) {
            Some(us) => ok && buf_bytes(*final(buf)) == buf_bytes(*old(buf)) + be_bytes(us as int, 8),
            None => !ok && buf_bytes(*final(buf)) == buf_bytes(*old(buf)),
        },
{
    DateTime::<Utc>::from_naive_utc_and_offset(*v, Utc).to_sql(&Type::TIMESTAMPTZ, buf).is_ok()
}

/// Binary `date`. Trusted: calls `tokio_postgres`' `ToSql::to_sql` for
/// `chrono::NaiveDate`, which appends the big-endian days since 2000-01-01,
/// or writes nothing and fails when they do not fit an `i32`.
#[verifier::external_body]
pub(crate) fn to_sql_date(v: &NaiveDate, buf: &mut BytesMut) -> (ok: bool)
    ensures
        match date_days(*v) {
            Some(d) => ok && buf_bytes(*final(buf)) == buf_bytes(*old(buf)) + be_bytes(d as int, 4),
            None => !ok && buf_bytes(*final(buf)) == buf_bytes(*old(buf)),
        },
{
    v.to_sql(&Type::DATE, buf).is_ok()
}

/// Binary `time`. Trusted: calls `tokio_postgres`' `ToSql::to_sql` for
/// `chrono::NaiveTime`, which appends the big-endian microseconds since
/// midnight, or writes nothing and fails when they do not fit an `i64`.
#[verifier::external_body]
pub(crate) fn to_sql_time(v: &NaiveTime, buf: &mut BytesMut) -> (ok: bool)
    ensures
        match time_micros(*v) {
            Some(us) => ok && buf_bytes(*final(buf)) == buf_bytes(*old(buf)) + be_bytes(us as int, 8),
            None => !ok && buf_bytes(*final(buf)) == buf_bytes(*old(buf)),
        },
{
    v.to_sql(&Type::TIME, buf).is_ok()
}

/// `Debug` text of a timestamp. Trusted: formats with `{:?}`.
#[verifier::external_body]
pub(crate) fn debug_timestamp(v: &NaiveDateTime) -> (r: String)
    ensures
        r@ == timestamp_debug(*v),
{
    format!("{:?}", v)
}

/// `Debug` text of a timestamp as a UTC `chrono::DateTime`. Trusted: formats
/// `DateTime::<Utc>::from_naive_utc_and_offset(v, Utc)` with `{:?}`.
#[verifier::external_body]
pub(crate) fn debug_utc_timestamp(v: &NaiveDateTime) -> (r: String)
    ensures
        r@ == utc_timestamp_debug(*v),
{
    format!("{:?}", DateTime::<Utc>::from_naive_utc_and_offset(*v, Utc))
}

/// `Debug` text of a date. Trusted: formats with `{:?}`.
#[verifier::external_body]
pub(crate) fn debug_date(v: &NaiveDate) -> (r: String)
    ensures
        r@ == date_debug(*v),
{
    format!("{:?}", v)
}

/// `Debug` text of a time of day. Trusted: formats with `{:?}`.
#[verifier::external_body]
pub(crate) fn debug_time(v: &NaiveTime) -> (r: String)
    ensures
        r@ == time_debug(*v),
{
    format!("{:?}", v)
}

/// The year of a date counted from 1 within its era, with `true` for AD (CE)
/// and `false` for BC (BCE).
pub uninterp spec fn date_year_ce(v: NaiveDate) -> (bool, u32);

/// The month of a date, from 1.
pub uninterp spec fn date_month(v: NaiveDate) -> u32;

/// The day of the month of a date, from 1.
pub uninterp spec fn date_day(v: NaiveDate) -> u32;

/// The hour of a time of day.
pub uninterp spec fn time_hour(v: NaiveTime) -> u32;

/// The minute of a time of day.
pub uninterp spec fn time_minute(v: NaiveTime) -> u32;

/// The second of a time of day (59 during a leap second).
pub uninterp spec fn time_second(v: NaiveTime) -> u32;

/// The nanoseconds past the whole second of a time of day (from one billion
/// up during a leap second).
pub uninterp spec fn time_nanosecond(v: NaiveTime) -> u32;

/// The date part of a timestamp.
pub uninterp spec fn timestamp_date(v: NaiveDateTime) -> NaiveDate;

/// The time-of-day part of a timestamp.
pub uninterp spec fn timestamp_time(v: NaiveDateTime) -> NaiveTime;

/// Era and year of a date. Trusted: calls `chrono::Datelike::year_ce`, whose
/// year counts from 1 in either era.
#[verifier::external_body]
pub(crate) fn year_ce(v: &NaiveDate) -> (r: (bool, u32))
    ensures
        r == date_year_ce(*v),
        r.1 >= 1,
{
    v.year_ce()
}

/// Month of a date. Trusted: calls `chrono::Datelike::month`, which ranges
/// from 1 to 12.
#[verifier::external_body]
pub(crate) fn month(v: &NaiveDate) -> (r: u32)
    ensures
        r == date_month(*v),
        1 <= r <= 12,
{
    v.month()
}

/// Day of the month of a date. Trusted: calls `chrono::Datelike::day`, which
/// ranges from 1 to 31.
#[verifier::external_body]
pub(crate) fn day(v: &NaiveDate) -> (r: u32)
    ensures
        r == date_day(*v),
        1 <= r <= 31,
{
    v.day()
}

/// Hour of a time. Trusted: calls `chrono::Timelike::hour`, which ranges from
/// 0 to 23.
#[verifier::external_body]
pub(crate) fn hour(v: &NaiveTime) -> (r: u32)
    ensures
        r == time_hour(*v),
        r <= 23,
{
    v.hour()
}

/// Minute of a time. Trusted: calls `chrono::Timelike::minute`, which ranges
/// from 0 to 59.
#[verifier::external_body]
pub(crate) fn minute(v: &NaiveTime) -> (r: u32)
    ensures
        r == time_minute(*v),
        r <= 59,
{
    v.minute()
}

/// Second of a time. Trusted: calls `chrono::Timelike::second`, which ranges
/// from 0 to 59.
#[verifier::external_body]
pub(crate) fn second(v: &NaiveTime) -> (r: u32)
    ensures
        r == time_second(*v),
        r <= 59,
{
    v.second()
}

/// Nanoseconds of a time. Trusted: calls `chrono::Timelike::nanosecond`,
/// which is below two billion (one billion and up only in a leap second).
#[verifier::external_body]
pub(crate) fn nanosecond(v: &NaiveTime) -> (r: u32)
    ensures
        r == time_nanosecond(*v),
        r < 2_000_000_000,
{
    v.nanosecond()
}

/// Date part of a timestamp. Trusted: calls `chrono::NaiveDateTime::date`.
#[verifier::external_body]
pub(crate) fn date_of(v: &NaiveDateTime) -> (r: NaiveDate)
    ensures
        r == timestamp_date(*v),
{
    v.date()
}

/// Time-of-day part of a timestamp. Trusted: calls
/// `chrono::NaiveDateTime::time`.
#[verifier::external_body]
pub(crate) fn time_of(v: &NaiveDateTime) -> (r: NaiveTime)
    ensures
        r == timestamp_time(*v),
{
    v.time()
}

/// Whole seconds of a time of day since midnight. Trusted: calls
/// `chrono::Timelike::num_seconds_from_midnight`, which counts the hours,
/// minutes and seconds of the time (a leap second counts as its second 59).
#[verifier::external_body]
pub(crate) fn seconds_from_midnight(v: &NaiveTime) -> (r: u32)
    ensures
        r == time_hour(*v) * 3600 + time_minute(*v) * 60 + time_second(*v),
{
    v.num_seconds_from_midnight()
}

} // verus!
