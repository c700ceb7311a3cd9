//! Text rendering of dates, times of day and timestamps.
use chrono::{NaiveDate, NaiveDateTime, NaiveTime};
use vstd::prelude::*;

use crate::interval::{padded, push_all, trim_zero_chars, trim_zeros};
use crate::numfmt::{dec, fmt_u128, zero_pad};
use crate::wire::{
    date_day, date_month, date_of, date_year_ce, day, hour, minute, month, nanosecond, second,
    time_hour, time_minute, time_nanosecond, time_of, time_second, timestamp_date, timestamp_time,
    year_ce,
};

verus! {

/// A number in decimal, left-padded with zeros to two digits.
pub open spec fn two_digits(n: int) -> Seq<char> {
    zero_pad(dec(n), 2)
}

/// Whole microseconds in a number of nanoseconds, rounded half up.
pub open spec fn rounded_micros(nanos: int) -> int {
    (nanos + 500) / 1000
}

/// The fraction of a second, `.ffffff` with the microseconds rounded and
/// written in at least six digits, trailing zeros dropped; nothing when the
/// rounded microseconds are zero.
pub open spec fn fraction_text(nanos: int) -> Seq<char> {
    let us = rounded_micros(nanos);
    if us == 0 {
        Seq::empty()
    } else {
        seq!['.'] + trim_zeros(zero_pad(dec(us), 6))
    }
}

/// `Y-MM-DD`, the year counted within its era and not padded.
pub open spec fn ymd_text(year: (bool, u32), month: u32, day: u32) -> Seq<char> {
    dec(year.1 as int) + seq!['-'] + two_digits(month as int) + seq!['-'] + two_digits(day as int)
}

/// ` BC` for a year before the common era, nothing otherwise.
pub open spec fn era_text(year: (bool, u32)) -> Seq<char> {
    if year.0 {
        Seq::empty()
    } else {
        " BC"@
    }
}

/// The text of a date: `Y-MM-DD`, followed by ` BC` before the common era.
pub open spec fn date_text(v: NaiveDate) -> Seq<char> {
    ymd_text(date_year_ce(v), date_month(v), date_day(v)) + era_text(date_year_ce(v))
}

/// The text of a time of day: `HH:MM:SS` and the fraction of a second.
pub open spec fn time_text(v: NaiveTime) -> Seq<char> {
    two_digits(time_hour(v) as int) + seq![':'] + two_digits(time_minute(v) as int) + seq![':']
        + two_digits(time_second(v) as int) + fraction_text(time_nanosecond(v) as int)
}

/// The text of a timestamp: date, a space and time of day, then `+00` when
/// it is written as a UTC timestamp with time zone, then the era.
pub open spec fn timestamp_text(v: NaiveDateTime, utc_zone: bool) -> Seq<char> {
    let d = timestamp_date(v);
    ymd_text(date_year_ce(d), date_month(d), date_day(d)) + seq![' '] + time_text(timestamp_time(v))
        + (if utc_zone {
        "+00"@
    } else {
        Seq::empty()
    }) + era_text(date_year_ce(d))
}

/// Appends a number of at most two digits, left-padded with a zero.
fn push_two(acc: &mut Vec<char>, n: u32)
    ensures
        final(acc)@ == old(acc)@ + two_digits(n as int),
{
    let p = padded(n as u64, 2);
    push_all(acc, p.as_slice());
}

/// Appends `Y-MM-DD` of a date and returns its era and year.
fn push_ymd(acc: &mut Vec<char>, v: &NaiveDate) -> (year: (bool, u32))
    ensures
        year == date_year_ce(*v),
        final(acc)@ == old(acc)@ + ymd_text(year, date_month(*v), date_day(*v)),
{
    let ghost start = acc@;
    let year = year_ce(v);
    let y = fmt_u128(year.1 as u128);
    push_all(acc, y.as_slice());
    acc.push('-');
    push_two(acc, month(v));
    acc.push('-');
    push_two(acc, day(v));
    assert(acc@ =~= start + ymd_text(year, date_month(*v), date_day(*v)));
    year
}

/// Appends ` BC` for a year before the common era.
fn push_era(acc: &mut Vec<char>, year: (bool, u32))
    ensures
        final(acc)@ == old(acc)@ + era_text(year),
{
    if !year.0 {
        let bc = crate::text::chars_of(" BC");
        push_all(acc, bc.as_slice());
    } else {
        assert(old(acc)@ + era_text(year) =~= old(acc)@);
    }
}

/// Appends `HH:MM:SS[.ffffff]` of a time of day.
fn push_time(acc: &mut Vec<char>, v: &NaiveTime)
    ensures
        final(acc)@ == old(acc)@ + time_text(*v),
{
    let ghost start = acc@;
    push_two(acc, hour(v));
    acc.push(':');
    push_two(acc, minute(v));
    acc.push(':');
    push_two(acc, second(v));
    let ghost clock = acc@;
    let nanos = nanosecond(v);
    let us: u64 = (nanos as u64 + 500) / 1000;
    if us != 0 {
        acc.push('.');
        let f = trim_zero_chars(padded(us, 6));
        push_all(acc, f.as_slice());
    }
    assert(acc@ =~= clock + fraction_text(nanos as int));
    assert(acc@ =~= start + time_text(*v));
}

/// The text of a date.
pub fn date_chars(v: &NaiveDate) -> (r: Vec<char>)
    ensures
        r@ == date_text(*v),
{
    let mut acc: Vec<char> = Vec::new();
    let year = push_ymd(&mut acc, v);
    push_era(&mut acc, year);
    assert(acc@ =~= date_text(*v));
    acc
}

/// The text of a time of day.
pub fn time_chars(v: &NaiveTime) -> (r: Vec<char>)
    ensures
        r@ == time_text(*v),
{
    let mut acc: Vec<char> = Vec::new();
    push_time(&mut acc, v);
    assert(acc@ =~= time_text(*v));
    acc
}

/// The text of a timestamp, with `+00` when `utc_zone` holds.
pub fn timestamp_chars(v: &NaiveDateTime, utc_zone: bool) -> (r: Vec<char>)
    ensures
        r@ == timestamp_text(*v, utc_zone),
{
    let d = date_of(v);
    let t = time_of(v);
    let mut acc: Vec<char> = Vec::new();
    let year = push_ymd(&mut acc, &d);
    acc.push(' ');
    push_time(&mut acc, &t);
    if utc_zone {
        let z = crate::text::chars_of("+00");
        push_all(&mut acc, z.as_slice());
    }
    let ghost before_era = acc@;
    push_era(&mut acc, year);
    proof {
        if !utc_zone {
            assert(before_era + era_text(year) =~= timestamp_text(*v, utc_zone));
        }
    }
    assert(acc@ =~= timestamp_text(*v, utc_zone));
    acc
}

} // verus!
