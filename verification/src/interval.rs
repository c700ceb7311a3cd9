//! Text rendering of intervals in Postgres' default `postgres` interval style.
use vstd::prelude::*;

use crate::numfmt::{dec, fmt_i128, fmt_u128, zero_pad, zero_pad_chars};
use crate::text::{chars_of, string_from_chars};

verus! {

/// Quotient of a division rounded toward zero, as Rust's `/` computes it.
pub open spec fn trunc_div(a: int, b: int) -> int {
    if a >= 0 {
        a / b
    } else {
        -((-a) / b)
    }
}

/// Remainder of a division rounded toward zero, as Rust's `%` computes it.
pub open spec fn trunc_rem(a: int, b: int) -> int {
    a - b * trunc_div(a, b)
}

/// `"<n> <unit>"`, with a trailing `s` unless `n` is 1 or -1.
pub open spec fn unit_text(n: int, unit: Seq<char>) -> Seq<char> {
    dec(n) + seq![' '] + unit + if n == 1 || n == -1 {
        Seq::empty()
    } else {
        seq!['s']
    }
}

/// `s` without its trailing `'0'` characters.
pub open spec fn trim_zeros(s: Seq<char>) -> Seq<char>
    decreases s.len(),
{
    if s.len() > 0 && s.last() == '0' {
        trim_zeros(s.drop_last())
    } else {
        s
    }
}

/// Absolute value.
pub open spec fn magnitude(x: int) -> int {
    if x < 0 {
        -x
    } else {
        x
    }
}

/// `[-]HH:MM:SS[.ffffff]` for a number of microseconds; the fraction keeps
/// no trailing zeros and is left out when it is zero.
pub open spec fn clock_text(micros: int) -> Seq<char> {
    let a = magnitude(micros);
    let usecs = a % 1000000;
    let total = a / 1000000;
    let secs = total % 60;
    let mins = (total / 60) % 60;
    let hours = total / 3600;
    (if micros < 0 {
        seq!['-']
    } else {
        Seq::empty()
    }) + zero_pad(dec(hours), 2) + seq![':'] + zero_pad(dec(mins), 2) + seq![':'] + zero_pad(
        dec(secs),
        2,
    ) + if usecs != 0 {
        seq!['.'] + trim_zeros(zero_pad(dec(usecs), 6))
    } else {
        Seq::empty()
    }
}

/// `b` appended to `a`, with one space between them when `a` is not empty.
pub open spec fn join_part(a: Seq<char>, b: Seq<char>) -> Seq<char> {
    if a.len() == 0 {
        b
    } else {
        a + seq![' '] + b
    }
}

/// The text of the interval `(months, days, micros)`: the non-zero year,
/// month and day parts, then the clock part when the microseconds are not
/// zero or nothing else was written.
pub open spec fn interval_text(months: int, days: int, micros: int) -> Seq<char> {
    let years = trunc_div(months, 12);
    let mons = trunc_rem(months, 12);
    let s1 = if years != 0 {
        unit_text(years, "year"@)
    } else {
        Seq::empty()
    };
    let s2 = if mons != 0 {
        join_part(s1, unit_text(mons, "mon"@))
    } else {
        s1
    };
    let s3 = if days != 0 {
        join_part(s2, unit_text(days, "day"@))
    } else {
        s2
    };
    if micros != 0 || s3.len() == 0 {
        join_part(s3, clock_text(micros))
    } else {
        s3
    }
}

/// Appends the characters of `b` to `a`.
pub(crate) fn push_all(a: &mut Vec<char>, b: &[char])
    ensures
        final(a)@ == old(a)@ + b@,
{
    let ghost start = a@;
    let mut i: usize = 0;
    while i < b.len()
        invariant
            i <= b.len(),
            a@ == start + b@.take(i as int),
        decreases b.len() - i,
    {
        a.push(b[i]);
        i = i + 1;
        assert(a@ =~= start + b@.take(i as int));
    }
    assert(b@.take(b.len() as int) =~= b@);
}

/// Appends a part, separated by one space from what is already there.
fn append_part(acc: &mut Vec<char>, part: &[char])
    ensures
        final(acc)@ == join_part(old(acc)@, part@),
{
    if acc.len() == 0 {
        push_all(acc, part);
        assert(acc@ =~= part@);
    } else {
        acc.push(' ');
        push_all(acc, part);
    }
}

/// `"<n> <unit>[s]"`.
fn unit_chars(n: i64, unit: &str) -> (v: Vec<char>)
    ensures
        v@ == unit_text(n as int, unit@),
{
    let mut v = fmt_i128(n as i128);
    v.push(' ');
    let u = chars_of(unit);
    push_all(&mut v, u.as_slice());
    if !(n == 1 || n == -1) {
        v.push('s');
    }
    proof {
        if n == 1 || n == -1 {
            assert(v@ =~= unit_text(n as int, unit@));
        }
    }
    v
}

/// The characters of `s` without trailing `'0'`.
pub(crate) fn trim_zero_chars(s: Vec<char>) -> (v: Vec<char>)
    ensures
        v@ == trim_zeros(s@),
{
    let mut v = s;
    let ghost target = trim_zeros(v@);
    while v.len() > 0 && v[v.len() - 1] == '0'
        invariant
            trim_zeros(v@) == target,
        decreases v.len(),
    {
        let ghost before = v@;
        v.pop();
        assert(v@ =~= before.drop_last());
    }
    v
}

/// A non-negative value rendered in decimal and left-padded with zeros.
pub(crate) fn padded(x: u64, w: usize) -> (v: Vec<char>)
    ensures
        v@ == zero_pad(dec(x as int), w as int),
{
    let d = fmt_u128(x as u128);
    zero_pad_chars(d.as_slice(), w)
}

/// `[-]HH:MM:SS[.ffffff]`.
fn clock_chars(micros: i64) -> (v: Vec<char>)
    ensures
        v@ == clock_text(micros as int),
{
    let a: u64 = if micros < 0 {
        ((-(micros + 1)) as u64) + 1
    } else {
        micros as u64
    };
    assert(a as int == magnitude(micros as int));
    let usecs = a % 1000000;
    let total = a / 1000000;
    let secs = total % 60;
    let mins = (total / 60) % 60;
    let hours = total / 3600;
    let mut v: Vec<char> = Vec::new();
    if micros < 0 {
        v.push('-');
    }
    let h = padded(hours, 2);
    push_all(&mut v, h.as_slice());
    v.push(':');
    let m = padded(mins, 2);
    push_all(&mut v, m.as_slice());
    v.push(':');
    let s = padded(secs, 2);
    push_all(&mut v, s.as_slice());
    if usecs != 0 {
        v.push('.');
        let f = trim_zero_chars(padded(usecs, 6));
        push_all(&mut v, f.as_slice());
    }
    assert(v@ =~= clock_text(micros as int));
    v
}

/// Renders an interval in the `postgres` interval style, e.g.
/// `1 year 2 mons 3 days 04:05:06.5`; the zero interval renders `00:00:00`.
pub fn format_interval_text(months: i32, days: i32, micros: i64) -> (s: String)
    ensures
        s@ == interval_text(months as int, days as int, micros as int),
{
    let m = months as i64;
    let years: i64 = if m >= 0 {
        m / 12
    } else {
        -((-m) / 12)
    };
    let mons: i64 = m - 12 * years;
    assert(years as int == trunc_div(months as int, 12));
    assert(mons as int == trunc_rem(months as int, 12));
    let mut acc: Vec<char> = Vec::new();
    if years != 0 {
        let p = unit_chars(years, "year");
        append_part(&mut acc, p.as_slice());
    }
    if mons != 0 {
        let p = unit_chars(mons, "mon");
        append_part(&mut acc, p.as_slice());
    }
    if days != 0 {
        let p = unit_chars(days as i64, "day");
        append_part(&mut acc, p.as_slice());
    }
    if micros != 0 || acc.len() == 0 {
        let p = clock_chars(micros);
        append_part(&mut acc, p.as_slice());
    }
    string_from_chars(acc.as_slice())
}

} // verus!
