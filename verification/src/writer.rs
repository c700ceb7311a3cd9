//! Encoding of values in the Postgres text and binary wire formats.
use bytes::BytesMut;
use chrono::{NaiveDate, NaiveDateTime, NaiveTime};
use vstd::prelude::*;
use vstd::utf8::encode_utf8;

use crate::datetime_text::{
    date_chars, date_text, time_chars, time_text, timestamp_chars, timestamp_text,
};
use crate::error::ReprError;
use crate::interval::{format_interval_text, interval_text};
use crate::numfmt::{dec, digits, fmt_i128, fmt_u128, zero_pad, zero_pad_chars};
use crate::text::{chars_of, string_from_chars};
use crate::wire::{
    be_bytes, buf_bytes, date_days, date_debug, debug_date, debug_time, debug_timestamp,
    debug_utc_timestamp, put_i16, put_i32, put_i64, put_slice, time_debug, time_micros,
    timestamp_debug, timestamp_micros, to_sql_bool, to_sql_bytea, to_sql_date, to_sql_i16,
    to_sql_i32, to_sql_i64, to_sql_text, to_sql_time, to_sql_timestamp, to_sql_timestamptz,
    utc_timestamp_debug,
};

verus! {

/// A decimal value `mantissa / 10^scale`.
#[derive(Debug, Clone, Copy, PartialEq, Eq, Structural)]
pub struct Decimal128 {
    pub mantissa: i128,
    pub scale: i8,
}

impl Decimal128 {
    pub fn new(mantissa: i128, scale: i8) -> (d: Decimal128)
        ensures
            d.mantissa == mantissa,
            d.scale == scale,
    {
        Decimal128 { mantissa, scale }
    }
}

/// Writer of the text wire format.
#[derive(Debug)]
pub struct TextWriter;

/// Writer of the binary wire format.
#[derive(Debug)]
pub struct BinaryWriter;

/// `10^n`.
pub open spec fn pow10(n: nat) -> nat
    decreases n,
{
    if n == 0 {
        1
    } else {
        10 * pow10((n - 1) as nat)
    }
}

/// Base-10000 digits of `x`, least significant first (empty for zero).
pub open spec fn base10000(x: nat) -> Seq<int>
    decreases x,
{
    if x == 0 {
        Seq::empty()
    } else {
        seq![(x % 10000) as int] + base10000(x / 10000)
    }
}

/// `s` without its trailing zero entries.
pub open spec fn drop_trailing_zeros(s: Seq<int>) -> Seq<int>
    decreases s.len(),
{
    if s.len() > 0 && s.last() == 0 {
        drop_trailing_zeros(s.drop_last())
    } else {
        s
    }
}

/// Each entry as two big-endian bytes, in order.
pub open spec fn be16_all(s: Seq<int>) -> Seq<u8>
    decreases s.len(),
{
    if s.len() == 0 {
        Seq::empty()
    } else {
        be16_all(s.drop_last()) + be_bytes(s.last(), 2)
    }
}

/// Decimal digits added to the fraction so that it fills whole base-10000
/// groups (scale >= 0), or the power of ten the value is scaled up by
/// (scale < 0).
pub open spec fn numeric_mul_pow(scale: int) -> nat {
    if scale >= 0 {
        ((4 - scale % 4) % 4) as nat
    } else {
        (-scale) as nat
    }
}

/// Number of base-10000 groups after the decimal point.
pub open spec fn numeric_frac_groups(scale: int) -> int {
    if scale >= 0 {
        (scale + numeric_mul_pow(scale)) / 4
    } else {
        0
    }
}

/// Magnitude of the mantissa aligned on base-10000 group boundaries.
pub open spec fn numeric_aligned(d: Decimal128) -> nat {
    (abs(d.mantissa as int) * pow10(numeric_mul_pow(d.scale as int))) as nat
}

pub open spec fn abs(x: int) -> int {
    if x < 0 {
        -x
    } else {
        x
    }
}

/// Whether the aligned magnitude fits the 128-bit arithmetic of the encoder.
pub open spec fn numeric_fits(d: Decimal128) -> bool {
    numeric_mul_pow(d.scale as int) == 0 || (pow10(numeric_mul_pow(d.scale as int))
        <= u128::MAX && numeric_aligned(d) <= u128::MAX)
}

/// The digit groups sent on the wire: most significant first, trailing zero
/// groups dropped.
pub open spec fn numeric_digits(d: Decimal128) -> Seq<int> {
    drop_trailing_zeros(base10000(numeric_aligned(d)).reverse())
}

/// Base-10000 exponent of the most significant group (0 for zero).
pub open spec fn numeric_weight(d: Decimal128) -> int {
    let total = base10000(numeric_aligned(d)).len();
    if total == 0 {
        0
    } else {
        total - numeric_frac_groups(d.scale as int) - 1
    }
}

/// The binary `numeric` payload of a decimal: digit count, weight, sign
/// (0x4000 when negative), display scale, then the digit groups.
pub open spec fn numeric_payload(d: Decimal128) -> Seq<u8> {
    be_bytes(numeric_digits(d).len() as int, 2) + be_bytes(numeric_weight(d), 2) + be_bytes(
        if d.mantissa < 0 {
            0x4000
        } else {
            0
        },
        2,
    ) + be_bytes(
        if d.scale < 0 {
            0
        } else {
            d.scale as int
        },
        2,
    ) + be16_all(numeric_digits(d))
}

/// The message of the error returned when a decimal does not fit.
pub open spec fn numeric_overflow_message(d: Decimal128) -> Seq<char> {
    "decimal too large to encode as PG numeric: mantissa="@ + dec(d.mantissa as int)
        + ", scale="@ + dec(d.scale as int)
}

proof fn lemma_pow10_pos(n: nat)
    ensures
        pow10(n) >= 1,
    decreases n,
{
    if n > 0 {
        lemma_pow10_pos((n - 1) as nat);
    }
}

proof fn lemma_base10000_len(x: nat, k: nat)
    requires
        x < pow10(4 * k),
    ensures
        base10000(x).len() <= k,
    decreases k,
{
    if x > 0 {
        if k == 0 {
            assert(pow10(0) == 1);
        } else {
            assert(pow10(4 * k) == 10000 * pow10((4 * (k - 1)) as nat)) by {
                let m = (4 * (k - 1)) as nat;
                assert(pow10(m + 1) == 10 * pow10(m));
                assert(pow10(m + 2) == 10 * pow10(m + 1));
                assert(pow10(m + 3) == 10 * pow10(m + 2));
                assert(pow10(m + 4) == 10 * pow10(m + 3));
                assert(4 * k == m + 4);
            }
            assert(x / 10000 < pow10((4 * (k - 1)) as nat)) by (nonlinear_arith)
                requires
                    x < 10000 * pow10((4 * (k - 1)) as nat),
            ;
            lemma_base10000_len(x / 10000, (k - 1) as nat);
        }
    }
}

proof fn lemma_pow10_40()
    ensures
        pow10(40) == 10000000000000000000000000000000000000000,
{
    reveal_with_fuel(pow10, 41);
}

proof fn lemma_drop_trailing_zeros_len(s: Seq<int>)
    ensures
        drop_trailing_zeros(s).len() <= s.len(),
    decreases s.len(),
{
    if s.len() > 0 && s.last() == 0 {
        lemma_drop_trailing_zeros_len(s.drop_last());
    }
}

/// Power of ten computed with overflow detection.
fn checked_pow10(n: u32) -> (r: Option<u128>)
    ensures
        r matches Some(p) ==> p == pow10(n as nat),
        r is None ==> pow10(n as nat) > u128::MAX,
{
    let mut p: u128 = 1;
    let mut k: u32 = 0;
    while k < n
        invariant
            k <= n,
            p == pow10(k as nat),
        decreases n - k,
    {
        match p.checked_mul(10) {
            Some(q) => {
                p = q;
            },
            None => {
                proof {
                    lemma_pow10_mono(k as nat + 1, n as nat);
                }
                return None;
            },
        }
        k = k + 1;
    }
    Some(p)
}

proof fn lemma_pow10_mono(a: nat, b: nat)
    requires
        a <= b,
    ensures
        pow10(a) <= pow10(b),
    decreases b - a,
{
    if a < b {
        lemma_pow10_mono(a, (b - 1) as nat);
        lemma_pow10_pos((b - 1) as nat);
    }
}

/// The value of each group, as integers.
pub open spec fn group_ints(v: Seq<i16>) -> Seq<int> {
    v.map_values(|g: i16| g as int)
}

/// Base-10000 groups of `x`, least significant first.
fn base10000_groups(x: u128) -> (v: Vec<i16>)
    ensures
        group_ints(v@) == base10000(x as nat),
        v.len() <= 10,
{
    let mut unscaled = x;
    let ghost aligned = x as nat;
    proof {
        lemma_pow10_40();
        lemma_base10000_len(aligned, 10);
    }
    let mut groups: Vec<i16> = Vec::new();
    while unscaled > 0
        invariant
            group_ints(groups@) + base10000(unscaled as nat) == base10000(aligned),
            groups.len() + base10000(unscaled as nat).len() == base10000(aligned).len(),
            base10000(aligned).len() <= 10,
        decreases unscaled,
    {
        let g = (unscaled % 10000) as i16;
        let ghost before = unscaled;
        groups.push(g);
        unscaled = unscaled / 10000;
        assert(base10000(before as nat) == seq![(before % 10000) as int] + base10000(
            unscaled as nat,
        ));
        assert(group_ints(groups@) =~= group_ints(groups@.drop_last()).push(g as int));
        assert(group_ints(groups@) + base10000(unscaled as nat) =~= base10000(aligned));
    }
    assert(group_ints(groups@) =~= base10000(aligned));
    groups
}

/// The groups in reverse order.
fn reversed_groups(groups: &Vec<i16>) -> (rev: Vec<i16>)
    ensures
        group_ints(rev@) == group_ints(groups@).reverse(),
        rev.len() == groups.len(),
{
    let total = groups.len();
    let ghost l = group_ints(groups@);
    let mut rev: Vec<i16> = Vec::new();
    let mut i: usize = total;
    while i > 0
        invariant
            i <= total,
            total == groups.len(),
            l == group_ints(groups@),
            group_ints(rev@) == l.reverse().take((total - i) as int),
        decreases i,
    {
        i = i - 1;
        let ghost n = (total - 1 - i) as int;
        assert(l.reverse()[n] == l[i as int]);
        let ghost old_rev = group_ints(rev@);
        rev.push(groups[i]);
        assert(group_ints(rev@) =~= old_rev.push(groups@[i as int] as int));
        assert(l.reverse().take(n + 1) =~= l.reverse().take(n).push(l.reverse()[n]));
    }
    assert(l.reverse().take(total as int) =~= l.reverse());
    rev
}

/// The groups without their trailing zero groups.
fn drop_zero_groups(v: Vec<i16>) -> (r: Vec<i16>)
    ensures
        group_ints(r@) == drop_trailing_zeros(group_ints(v@)),
        r.len() <= v.len(),
{
    let mut rev = v;
    let ghost target = drop_trailing_zeros(group_ints(rev@));
    while rev.len() > 0 && rev[rev.len() - 1] == 0
        invariant
            drop_trailing_zeros(group_ints(rev@)) == target,
            rev.len() <= v.len(),
        decreases rev.len(),
    {
        let ghost before = group_ints(rev@);
        rev.pop();
        assert(group_ints(rev@) =~= before.drop_last());
    }
    rev
}

/// Writes each group as two big-endian bytes.
fn put_groups(buf: &mut BytesMut, groups: &Vec<i16>)
    ensures
        buf_bytes(*final(buf)) == buf_bytes(*old(buf)) + be16_all(group_ints(groups@)),
{
    let ghost header = buf_bytes(*buf);
    let mut k: usize = 0;
    while k < groups.len()
        invariant
            k <= groups.len(),
            buf_bytes(*buf) == header + be16_all(group_ints(groups@).take(k as int)),
        decreases groups.len() - k,
    {
        put_i16(buf, groups[k]);
        k = k + 1;
        assert(group_ints(groups@).take(k as int).drop_last() =~= group_ints(groups@).take(
            (k - 1) as int,
        ));
    }
    assert(group_ints(groups@).take(groups.len() as int) =~= group_ints(groups@));
}

/// The message for a decimal that does not fit.
fn numeric_overflow_text(v: &Decimal128) -> (s: String)
    ensures
        s@ == numeric_overflow_message(*v),
{
    let mut all = crate::text::chars_of("decimal too large to encode as PG numeric: mantissa=");
    let mut m = fmt_i128(v.mantissa);
    let mut mid = crate::text::chars_of(", scale=");
    let mut sc = fmt_i128(v.scale as i128);
    all.append(&mut m);
    all.append(&mut mid);
    all.append(&mut sc);
    string_from_chars(all.as_slice())
}

/// The magnitude aligned on base-10000 boundaries, when it fits 128 bits.
fn aligned_magnitude(v: &Decimal128) -> (r: Option<u128>)
    ensures
        numeric_fits(*v) <==> r is Some,
        r matches Some(x) ==> x as nat == numeric_aligned(*v),
{
    let mantissa = v.mantissa;
    let scale = v.scale;
    let unscaled: u128 = if mantissa < 0 {
        ((-(mantissa + 1)) as u128) + 1
    } else {
        mantissa as u128
    };
    let ghost mag = abs(mantissa as int);
    assert(unscaled == mag);
    let mul_pow: u32 = if scale >= 0 {
        let frac = scale as u32;
        (4 - (frac % 4)) % 4
    } else {
        (-(scale as i32)) as u32
    };
    assert(mul_pow as nat == numeric_mul_pow(scale as int));
    if mul_pow > 0 {
        let fo = checked_pow10(mul_pow);
        let xo = match fo {
            Some(f) => unscaled.checked_mul(f),
            None => None,
        };
        proof {
            lemma_pow10_pos(mul_pow as nat);
            if fo.is_some() {
                let f = fo.unwrap();
                assert(numeric_aligned(*v) == mag * f);
            }
        }
        if fo.is_some() && xo.is_some() {
            xo
        } else {
            None
        }
    } else {
        assert(numeric_mul_pow(scale as int) == 0);
        assert(pow10(0) == 1);
        assert(mag * 1 == mag);
        Some(unscaled)
    }
}

impl BinaryWriter {
    /// Encodes a decimal in the binary `numeric` format (the length prefix is
    /// written by the caller). Fails, writing nothing, when the magnitude
    /// aligned on base-10000 groups does not fit 128 bits.
    pub fn write_decimal(buf: &mut BytesMut, v: &Decimal128) -> (r: Result<(), ReprError>)
        ensures
            numeric_fits(*v) ==> r is Ok && buf_bytes(*final(buf)) == buf_bytes(*old(buf))
                + numeric_payload(*v),
            !numeric_fits(*v) ==> (r matches Err(ReprError::InternalError(m)) && m@
                == numeric_overflow_message(*v)) && buf_bytes(*final(buf)) == buf_bytes(
                *old(buf),
            ),
    {
        let scale = v.scale;
        let sign: i16 = if v.mantissa < 0 {
            0x4000
        } else {
            0
        };
        let dscale: i16 = if scale < 0 {
            0
        } else {
            scale as i16
        };
        let frac_groups: i32 = if scale >= 0 {
            let frac = scale as i32;
            (frac + (4 - (frac % 4)) % 4) / 4
        } else {
            0
        };
        assert(frac_groups as int == numeric_frac_groups(scale as int));
        let aligned = match aligned_magnitude(v) {
            Some(x) => x,
            None => {
                let text = numeric_overflow_text(v);
                return Err(ReprError::InternalError(text));
            },
        };
        let groups = base10000_groups(aligned);
        let total = groups.len();
        let weight: i16 = if total == 0 {
            0
        } else {
            (total as i32 - frac_groups - 1) as i16
        };
        assert(weight as int == numeric_weight(*v));
        let rev = reversed_groups(&groups);
        let digits = drop_zero_groups(rev);
        assert(group_ints(digits@) == numeric_digits(*v));
        put_i16(buf, digits.len() as i16);
        put_i16(buf, weight);
        put_i16(buf, sign);
        put_i16(buf, dscale);
        put_groups(buf, &digits);
        Ok(())
    }
}

/// Base-10000 digits, most significant first, read as a number.
pub open spec fn groups_value(s: Seq<int>) -> int
    decreases s.len(),
{
    if s.len() == 0 {
        0
    } else {
        groups_value(s.drop_last()) * 10000 + s.last()
    }
}

/// `10000^k`.
pub open spec fn pow10000(k: nat) -> int
    decreases k,
{
    if k == 0 {
        1
    } else {
        10000 * pow10000((k - 1) as nat)
    }
}

proof fn lemma_base10000_reversed_value(x: nat)
    ensures
        groups_value(base10000(x).reverse()) == x,
    decreases x,
{
    if x > 0 {
        lemma_base10000_reversed_value(x / 10000);
        let r = base10000(x).reverse();
        assert(r.drop_last() =~= base10000(x / 10000).reverse());
        assert(r.last() == x % 10000);
        assert((x / 10000) * 10000 + x % 10000 == x) by (nonlinear_arith);
    } else {
        assert(base10000(x).reverse() =~= Seq::<int>::empty());
    }
}

proof fn lemma_drop_trailing_zeros_value(s: Seq<int>)
    ensures
        drop_trailing_zeros(s).len() <= s.len(),
        groups_value(s) == groups_value(drop_trailing_zeros(s)) * pow10000(
            (s.len() - drop_trailing_zeros(s).len()) as nat,
        ),
    decreases s.len(),
{
    if s.len() > 0 && s.last() == 0 {
        lemma_drop_trailing_zeros_value(s.drop_last());
        let t = drop_trailing_zeros(s.drop_last());
        let k = (s.drop_last().len() - t.len()) as nat;
        assert(pow10000(k + 1) == 10000 * pow10000(k));
        assert(groups_value(t) * pow10000(k) * 10000 == groups_value(t) * (10000 * pow10000(k)))
            by (nonlinear_arith);
    }
}

/// The binary `numeric` payload gives back the decimal: its digit groups,
/// read in base 10000 with the first group of weight `weight`, equal
/// `|mantissa| / 10^scale`. Written without division: scaled by
/// `10000^frac_groups = 10^(scale + pad)` on both sides.
pub proof fn lemma_numeric_payload_value(d: Decimal128)
    requires
        numeric_fits(d),
    ensures
        ({
            let digits = numeric_digits(d);
            let e = numeric_weight(d) + 1 - digits.len() + numeric_frac_groups(d.scale as int);
            &&& e >= 0
            &&& groups_value(digits) * pow10000(e as nat) == abs(d.mantissa as int) * pow10(
                numeric_mul_pow(d.scale as int),
            )
        }),
{
    let x = numeric_aligned(d);
    let g = base10000(x);
    lemma_base10000_reversed_value(x);
    lemma_drop_trailing_zeros_value(g.reverse());
    assert(g.reverse().len() == g.len());
    if g.len() == 0 {
        assert(x == 0) by {
            if x > 0 {
                assert(base10000(x).len() > 0);
            }
        }
        assert(drop_trailing_zeros(g.reverse()) =~= Seq::<int>::empty());
    }
    lemma_pow10_pos(numeric_mul_pow(d.scale as int));
    assert(abs(d.mantissa as int) * pow10(numeric_mul_pow(d.scale as int)) >= 0) by (nonlinear_arith)
        requires
            abs(d.mantissa as int) >= 0,
            pow10(numeric_mul_pow(d.scale as int)) >= 1,
    ;
}

/// `t` or `f`.
pub open spec fn bool_text(v: bool) -> Seq<char> {
    if v {
        "t"@
    } else {
        "f"@
    }
}

/// The lower-case hexadecimal digit of a value below 16.
pub open spec fn hex_digit(d: int) -> char {
    if d < 10 {
        ((d + 48) as u32) as char
    } else {
        ((d + 87) as u32) as char
    }
}

/// Two lower-case hexadecimal digits per byte, in order.
pub open spec fn hex_pairs(b: Seq<u8>) -> Seq<char>
    decreases b.len(),
{
    if b.len() == 0 {
        Seq::empty()
    } else {
        hex_pairs(b.drop_last()) + seq![
            hex_digit((b.last() / 16) as int),
            hex_digit((b.last() % 16) as int),
        ]
    }
}

/// The text form of a `bytea`: `\x` followed by the bytes in hexadecimal.
pub open spec fn bytea_text(b: Seq<u8>) -> Seq<char> {
    seq!['\\', 'x'] + hex_pairs(b)
}

/// `n` zero characters.
pub open spec fn zeros(n: nat) -> Seq<char> {
    Seq::new(n, |i: int| '0')
}

/// The text form of a decimal: the value `mantissa / 10^scale` written out in
/// full, with exactly `scale` fractional digits when the scale is positive.
pub open spec fn decimal_text(d: Decimal128) -> Seq<char> {
    let m = abs(d.mantissa as int);
    if d.scale > 0 {
        let p = pow10(d.scale as nat) as int;
        (if d.mantissa < 0 {
            seq!['-']
        } else {
            Seq::empty()
        }) + digits((m / p) as nat) + seq!['.'] + zero_pad(digits((m % p) as nat), d.scale as int)
    } else if d.mantissa == 0 {
        seq!['0']
    } else {
        dec(d.mantissa as int) + zeros((-d.scale) as nat)
    }
}

/// Appends the UTF-8 encoding of the characters.
fn put_chars(buf: &mut BytesMut, v: &[char])
    ensures
        buf_bytes(*final(buf)) == buf_bytes(*old(buf)) + encode_utf8(v@),
{
    let s = string_from_chars(v);
    put_slice(buf, s.as_str().as_bytes());
}

fn hex_digit_exec(d: u8) -> (c: char)
    requires
        d < 16,
    ensures
        c == hex_digit(d as int),
{
    if d < 10 {
        (d + 48) as char
    } else {
        (d + 87) as char
    }
}

/// The text form of a `bytea`.
fn bytea_chars(v: &[u8]) -> (r: Vec<char>)
    ensures
        r@ == bytea_text(v@),
{
    let mut r: Vec<char> = Vec::new();
    r.push('\\');
    r.push('x');
    let mut i: usize = 0;
    while i < v.len()
        invariant
            i <= v.len(),
            r@ == seq!['\\', 'x'] + hex_pairs(v@.take(i as int)),
        decreases v.len() - i,
    {
        let b = v[i];
        r.push(hex_digit_exec(b / 16));
        r.push(hex_digit_exec(b % 16));
        i = i + 1;
        assert(v@.take(i as int).drop_last() =~= v@.take((i - 1) as int));
        assert(r@ =~= seq!['\\', 'x'] + hex_pairs(v@.take(i as int)));
    }
    assert(v@.take(v.len() as int) =~= v@);
    r
}

/// The text form of a decimal.
fn decimal_chars(d: &Decimal128) -> (r: Vec<char>)
    ensures
        r@ == decimal_text(*d),
{
    let mantissa = d.mantissa;
    let scale = d.scale;
    let m: u128 = if mantissa < 0 {
        ((-(mantissa + 1)) as u128) + 1
    } else {
        mantissa as u128
    };
    assert(m as int == abs(mantissa as int));
    if scale > 0 {
        let (int_part, frac_part): (u128, u128) = match checked_pow10(scale as u32) {
            Some(p) => {
                proof {
                    lemma_pow10_pos(scale as nat);
                }
                (m / p, m % p)
            },
            None => {
                proof {
                    let p = pow10(scale as nat) as int;
                    let mi = m as int;
                    assert(mi / p == 0) by (nonlinear_arith)
                        requires
                            0 <= mi < p,
                    ;
                    assert(mi % p == mi) by (nonlinear_arith)
                        requires
                            0 <= mi < p,
                    ;
                }
                (0, m)
            },
        };
        let mut r: Vec<char> = Vec::new();
        if mantissa < 0 {
            r.push('-');
        }
        let ip = fmt_u128(int_part);
        let mut i: usize = 0;
        let ghost pre = r@;
        while i < ip.len()
            invariant
                i <= ip.len(),
                r@ == pre + ip@.take(i as int),
            decreases ip.len() - i,
        {
            r.push(ip[i]);
            i = i + 1;
            assert(r@ =~= pre + ip@.take(i as int));
        }
        assert(ip@.take(ip.len() as int) =~= ip@);
        r.push('.');
        let fd = fmt_u128(frac_part);
        let fp = zero_pad_chars(fd.as_slice(), scale as usize);
        let ghost pre2 = r@;
        let mut k: usize = 0;
        while k < fp.len()
            invariant
                k <= fp.len(),
                r@ == pre2 + fp@.take(k as int),
            decreases fp.len() - k,
        {
            r.push(fp[k]);
            k = k + 1;
            assert(r@ =~= pre2 + fp@.take(k as int));
        }
        assert(fp@.take(fp.len() as int) =~= fp@);
        assert(r@ =~= decimal_text(*d));
        r
    } else if mantissa == 0 {
        let mut r: Vec<char> = Vec::new();
        r.push('0');
        assert(r@ =~= decimal_text(*d));
        r
    } else {
        let mut r = fmt_i128(mantissa);
        let n: usize = (-(scale as i16)) as usize;
        let ghost pre = r@;
        let mut k: usize = 0;
        while k < n
            invariant
                k <= n,
                r@ == pre + zeros(k as nat),
            decreases n - k,
        {
            r.push('0');
            k = k + 1;
            assert(r@ =~= pre + zeros(k as nat));
        }
        r
    }
}

impl TextWriter {
    /// `t` or `f`.
    pub fn write_bool(buf: &mut BytesMut, v: bool) -> (r: Result<(), ReprError>)
        ensures
            r is Ok,
            buf_bytes(*final(buf)) == buf_bytes(*old(buf)) + encode_utf8(bool_text(v)),
    {
        let t = if v {
            "t"
        } else {
            "f"
        };
        put_slice(buf, t.as_bytes());
        Ok(())
    }

    /// The value in decimal.
    pub fn write_int2(buf: &mut BytesMut, v: i16) -> (r: Result<(), ReprError>)
        ensures
            r is Ok,
            buf_bytes(*final(buf)) == buf_bytes(*old(buf)) + encode_utf8(dec(v as int)),
    {
        let d = fmt_i128(v as i128);
        put_chars(buf, d.as_slice());
        Ok(())
    }

    /// The value in decimal.
    pub fn write_int4(buf: &mut BytesMut, v: i32) -> (r: Result<(), ReprError>)
        ensures
            r is Ok,
            buf_bytes(*final(buf)) == buf_bytes(*old(buf)) + encode_utf8(dec(v as int)),
    {
        let d = fmt_i128(v as i128);
        put_chars(buf, d.as_slice());
        Ok(())
    }

    /// The value in decimal.
    pub fn write_int8(buf: &mut BytesMut, v: i64) -> (r: Result<(), ReprError>)
        ensures
            r is Ok,
            buf_bytes(*final(buf)) == buf_bytes(*old(buf)) + encode_utf8(dec(v as int)),
    {
        let d = fmt_i128(v as i128);
        put_chars(buf, d.as_slice());
        Ok(())
    }

    /// The string itself.
    pub fn write_text(buf: &mut BytesMut, v: &str) -> (r: Result<(), ReprError>)
        ensures
            r is Ok,
            buf_bytes(*final(buf)) == buf_bytes(*old(buf)) + encode_utf8(v@),
    {
        put_slice(buf, v.as_bytes());
        Ok(())
    }

    /// `\x` and the bytes in lower-case hexadecimal.
    pub fn write_bytea(buf: &mut BytesMut, v: &[u8]) -> (r: Result<(), ReprError>)
        ensures
            r is Ok,
            buf_bytes(*final(buf)) == buf_bytes(*old(buf)) + encode_utf8(bytea_text(v@)),
    {
        let t = bytea_chars(v);
        put_chars(buf, t.as_slice());
        Ok(())
    }

    /// The decimal written out in full.
    pub fn write_decimal(buf: &mut BytesMut, v: &Decimal128) -> (r: Result<(), ReprError>)
        ensures
            r is Ok,
            buf_bytes(*final(buf)) == buf_bytes(*old(buf)) + encode_utf8(decimal_text(*v)),
    {
        let t = decimal_chars(v);
        put_chars(buf, t.as_slice());
        Ok(())
    }

    /// The interval in the `postgres` interval style.
    pub fn write_interval(buf: &mut BytesMut, months: i32, days: i32, micros: i64) -> (r: Result<
        (),
        ReprError,
    >)
        ensures
            r is Ok,
            buf_bytes(*final(buf)) == buf_bytes(*old(buf)) + encode_utf8(
                interval_text(months as int, days as int, micros as int),
            ),
    {
        let s = format_interval_text(months, days, micros);
        put_slice(buf, s.as_str().as_bytes());
        Ok(())
    }
}

impl BinaryWriter {
    /// One byte: 1 for true, 0 for false.
    pub fn write_bool(buf: &mut BytesMut, v: bool) -> (r: Result<(), ReprError>)
        ensures
            r is Ok,
            buf_bytes(*final(buf)) == buf_bytes(*old(buf)) + seq![if v { 1u8 } else { 0u8 }],
    {
        to_sql_bool(v, buf);
        Ok(())
    }

    /// Two big-endian bytes.
    pub fn write_int2(buf: &mut BytesMut, v: i16) -> (r: Result<(), ReprError>)
        ensures
            r is Ok,
            buf_bytes(*final(buf)) == buf_bytes(*old(buf)) + be_bytes(v as int, 2),
    {
        to_sql_i16(v, buf);
        Ok(())
    }

    /// Four big-endian bytes.
    pub fn write_int4(buf: &mut BytesMut, v: i32) -> (r: Result<(), ReprError>)
        ensures
            r is Ok,
            buf_bytes(*final(buf)) == buf_bytes(*old(buf)) + be_bytes(v as int, 4),
    {
        to_sql_i32(v, buf);
        Ok(())
    }

    /// Eight big-endian bytes.
    pub fn write_int8(buf: &mut BytesMut, v: i64) -> (r: Result<(), ReprError>)
        ensures
            r is Ok,
            buf_bytes(*final(buf)) == buf_bytes(*old(buf)) + be_bytes(v as int, 8),
    {
        to_sql_i64(v, buf);
        Ok(())
    }

    /// The UTF-8 bytes of the string.
    pub fn write_text(buf: &mut BytesMut, v: &str) -> (r: Result<(), ReprError>)
        ensures
            r is Ok,
            buf_bytes(*final(buf)) == buf_bytes(*old(buf)) + encode_utf8(v@),
    {
        to_sql_text(v, buf);
        Ok(())
    }

    /// The bytes unchanged.
    pub fn write_bytea(buf: &mut BytesMut, v: &[u8]) -> (r: Result<(), ReprError>)
        ensures
            r is Ok,
            buf_bytes(*final(buf)) == buf_bytes(*old(buf)) + v@,
    {
        to_sql_bytea(v, buf);
        Ok(())
    }

    /// The 16-byte binary interval: microseconds (8 bytes), days (4 bytes),
    /// then months (4 bytes), all big-endian.
    pub fn write_interval(buf: &mut BytesMut, months: i32, days: i32, micros: i64) -> (r: Result<
        (),
        ReprError,
    >)
        ensures
            r is Ok,
            buf_bytes(*final(buf)) == buf_bytes(*old(buf)) + be_bytes(micros as int, 8) + be_bytes(
                days as int,
                4,
            ) + be_bytes(months as int, 4),
    {
        put_i64(buf, micros);
        put_i32(buf, days);
        put_i32(buf, months);
        Ok(())
    }
}

/// The message of the error for a value outside the range of its binary
/// form.
pub open spec fn encode_error_message(value_debug: Seq<char>, pg_name: Seq<char>) -> Seq<char> {
    "cannot encode value="@ + value_debug + " as "@ + pg_name + ": value too large to transmit"@
}

/// The error for a value outside the range of its binary form.
fn encode_error(value_debug: String, pg_name: &str) -> (e: ReprError)
    ensures
        e matches ReprError::InternalError(m) && m@ == encode_error_message(value_debug@, pg_name@),
{
    let mut v = chars_of("cannot encode value=");
    let mut d = chars_of(value_debug.as_str());
    let mut a = chars_of(" as ");
    let mut t = chars_of(pg_name);
    let mut tail = chars_of(": value too large to transmit");
    v.append(&mut d);
    v.append(&mut a);
    v.append(&mut t);
    v.append(&mut tail);
    ReprError::InternalError(string_from_chars(v.as_slice()))
}

impl BinaryWriter {
    /// Eight big-endian bytes: microseconds since 2000-01-01 00:00:00. Fails,
    /// writing nothing, when they do not fit 64 bits.
    pub fn write_timestamp(buf: &mut BytesMut, v: &NaiveDateTime) -> (r: Result<(), ReprError>)
        ensures
            match timestamp_micros(*v) {
                Some(us) => r is Ok && buf_bytes(*final(buf)) == buf_bytes(*old(buf)) + be_bytes(
                    us as int,
                    8,
                ),
                None => (r matches Err(ReprError::InternalError(m)) && m@ == encode_error_message(
                    timestamp_debug(*v),
                    "timestamp"@,
                )) && buf_bytes(*final(buf)) == buf_bytes(*old(buf)),
            },
    {
        if to_sql_timestamp(v, buf) {
            Ok(())
        } else {
            Err(encode_error(debug_timestamp(v), "timestamp"))
        }
    }

    /// A timestamp with time zone, given by its UTC date and time: encoded
    /// as that date and time's microseconds since 2000-01-01 00:00:00 UTC.
    pub fn write_timestamptz(buf: &mut BytesMut, utc: &NaiveDateTime) -> (r: Result<(), ReprError>)
        ensures
            match timestamp_micros(*utc) {
                Some(us) => r is Ok && buf_bytes(*final(buf)) == buf_bytes(*old(buf)) + be_bytes(
                    us as int,
                    8,
                ),
                None => (r matches Err(ReprError::InternalError(m)) && m@ == encode_error_message(
                    utc_timestamp_debug(*utc),
                    "timestamptz"@,
                )) && buf_bytes(*final(buf)) == buf_bytes(*old(buf)),
            },
    {
        if to_sql_timestamptz(utc, buf) {
            Ok(())
        } else {
            Err(encode_error(debug_utc_timestamp(utc), "timestamptz"))
        }
    }

    /// Eight big-endian bytes: microseconds since midnight.
    pub fn write_time(buf: &mut BytesMut, v: &NaiveTime) -> (r: Result<(), ReprError>)
        ensures
            match time_micros(*v) {
                Some(us) => r is Ok && buf_bytes(*final(buf)) == buf_bytes(*old(buf)) + be_bytes(
                    us as int,
                    8,
                ),
                None => (r matches Err(ReprError::InternalError(m)) && m@ == encode_error_message(
                    time_debug(*v),
                    "time"@,
                )) && buf_bytes(*final(buf)) == buf_bytes(*old(buf)),
            },
    {
        if to_sql_time(v, buf) {
            Ok(())
        } else {
            Err(encode_error(debug_time(v), "time"))
        }
    }

    /// Four big-endian bytes: days since 2000-01-01. Fails, writing nothing,
    /// when they do not fit 32 bits.
    pub fn write_date(buf: &mut BytesMut, v: &NaiveDate) -> (r: Result<(), ReprError>)
        ensures
            match date_days(*v) {
                Some(d) => r is Ok && buf_bytes(*final(buf)) == buf_bytes(*old(buf)) + be_bytes(
                    d as int,
                    4,
                ),
                None => (r matches Err(ReprError::InternalError(m)) && m@ == encode_error_message(
                    date_debug(*v),
                    "date"@,
                )) && buf_bytes(*final(buf)) == buf_bytes(*old(buf)),
            },
    {
        if to_sql_date(v, buf) {
            Ok(())
        } else {
            Err(encode_error(debug_date(v), "date"))
        }
    }
}

impl TextWriter {
    /// `Y-MM-DD HH:MM:SS[.ffffff]`, with ` BC` after a year before the common
    /// era.
    pub fn write_timestamp(buf: &mut BytesMut, v: &NaiveDateTime) -> (r: Result<(), ReprError>)
        ensures
            r is Ok,
            buf_bytes(*final(buf)) == buf_bytes(*old(buf)) + encode_utf8(timestamp_text(*v, false)),
    {
        let t = timestamp_chars(v, false);
        put_chars(buf, t.as_slice());
        Ok(())
    }

    /// A timestamp with time zone, given by its UTC date and time: written as
    /// a timestamp followed by `+00` (and then the era).
    pub fn write_timestamptz(buf: &mut BytesMut, utc: &NaiveDateTime) -> (r: Result<(), ReprError>)
        ensures
            r is Ok,
            buf_bytes(*final(buf)) == buf_bytes(*old(buf)) + encode_utf8(timestamp_text(*utc, true)),
    {
        let t = timestamp_chars(utc, true);
        put_chars(buf, t.as_slice());
        Ok(())
    }

    /// `HH:MM:SS[.ffffff]`.
    pub fn write_time(buf: &mut BytesMut, v: &NaiveTime) -> (r: Result<(), ReprError>)
        ensures
            r is Ok,
            buf_bytes(*final(buf)) == buf_bytes(*old(buf)) + encode_utf8(time_text(*v)),
    {
        let t = time_chars(v);
        put_chars(buf, t.as_slice());
        Ok(())
    }

    /// `Y-MM-DD`, with ` BC` after a year before the common era.
    pub fn write_date(buf: &mut BytesMut, v: &NaiveDate) -> (r: Result<(), ReprError>)
        ensures
            r is Ok,
            buf_bytes(*final(buf)) == buf_bytes(*old(buf)) + encode_utf8(date_text(*v)),
    {
        let t = date_chars(v);
        put_chars(buf, t.as_slice());
        Ok(())
    }

    /// A value of a type with no encoder of its own, given by its display
    /// text: the text itself.
    pub fn write_any(buf: &mut BytesMut, shown: &str) -> (r: Result<(), ReprError>)
        ensures
            r is Ok,
            buf_bytes(*final(buf)) == buf_bytes(*old(buf)) + encode_utf8(shown@),
    {
        put_slice(buf, shown.as_bytes());
        Ok(())
    }
}

/// The message of the binary writer's refusal of a value with no encoder.
pub open spec fn no_binary_encoder_message(shown: Seq<char>) -> Seq<char> {
    "binary writer: no encoder for value `"@ + shown
        + "` \u{2014} add an explicit arm in `Scalar::from_datafusion`"@
}

impl BinaryWriter {
    /// A value of a type with no binary encoder, given by its display text:
    /// refused, with nothing written, so that the missing encoder shows.
    pub fn write_any(buf: &mut BytesMut, shown: &str) -> (r: Result<(), ReprError>)
        ensures
            r matches Err(ReprError::InternalError(m)) && m@ == no_binary_encoder_message(shown@),
            buf_bytes(*final(buf)) == buf_bytes(*old(buf)),
    {
        let mut v = chars_of("binary writer: no encoder for value `");
        let mut d = chars_of(shown);
        let mut tail = chars_of("` \u{2014} add an explicit arm in `Scalar::from_datafusion`");
        v.append(&mut d);
        v.append(&mut tail);
        Err(ReprError::InternalError(string_from_chars(v.as_slice())))
    }
}

} // verus!
