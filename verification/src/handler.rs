//! Decisions of the protocol handler: housekeeping statements answered
//! without planning, the failed-transaction gate, result format codes,
//! cancel keys and the cancel registry.
use std::collections::HashMap;
use std::time::{Duration, SystemTime, UNIX_EPOCH};
use uuid::Uuid;
use vstd::hash_map::StringHashMap;
use vstd::prelude::*;

use crate::format::Format;
use crate::messages::{
    BackendMessage, DescribeObjectType, ErrorResponse, ErrorSeverity, StartupMessage,
    TransactionStatus,
};
use crate::notice::SqlState;
use crate::numfmt::{dec, fmt_u128};
use crate::vars::{all_digits, digits_value, lemma_digits_read_back};
use crate::text::{chars_of, is_space, is_space_exec, is_text, lower_chars, lower_seq, string_from_chars, trim_chars, trim_seq};

verus! {

/// The `CommandComplete` tag of a lower-cased housekeeping statement.
pub open spec fn housekeeping_tag(l: Seq<char>) -> Option<Seq<char>> {
    if l == "reset all"@ {
        Some("RESET"@)
    } else if l == "discard all"@ {
        Some("DISCARD ALL"@)
    } else if l == "discard temp"@ || l == "discard temporary"@ {
        Some("DISCARD TEMP"@)
    } else if l == "discard plans"@ {
        Some("DISCARD PLANS"@)
    } else if l == "discard sequences"@ {
        Some("DISCARD SEQUENCES"@)
    } else if l == "deallocate all"@ {
        Some("DEALLOCATE ALL"@)
    } else if l == "unlisten *"@ {
        Some("UNLISTEN"@)
    } else if l == "close all"@ {
        Some("CLOSE CURSOR ALL"@)
    } else if l == "select pg_advisory_unlock_all()"@ {
        Some("SELECT"@)
    } else {
        None
    }
}

/// The tag of one `;`-separated piece: the piece is trimmed, then trimmed and
/// lower-cased again before it is looked up.
pub open spec fn piece_tag(p: Seq<char>) -> Option<Seq<char>> {
    housekeeping_tag(lower_seq(trim_seq(trim_seq(p))))
}

/// The pieces of `s` between the occurrences of `c`, as `str::split` yields
/// them (one more piece than there are separators).
pub open spec fn split_on(s: Seq<char>, c: char) -> Seq<Seq<char>>
    decreases s.len(),
{
    if s.len() == 0 {
        seq![Seq::empty()]
    } else {
        let rest = split_on(s.drop_last(), c);
        if s.last() == c {
            rest.push(Seq::empty())
        } else {
            rest.update(rest.len() - 1, rest.last().push(s.last()))
        }
    }
}

/// A piece is accepted when it is blank or a housekeeping statement.
pub open spec fn piece_ok(p: Seq<char>) -> bool {
    trim_seq(p).len() == 0 || piece_tag(p) is Some
}

/// The tag of the last piece that is not blank, if there is one.
pub open spec fn last_tag(ps: Seq<Seq<char>>) -> Option<Seq<char>>
    decreases ps.len(),
{
    if ps.len() == 0 {
        None
    } else if trim_seq(ps.last()).len() == 0 {
        last_tag(ps.drop_last())
    } else {
        piece_tag(ps.last())
    }
}

/// The `CommandComplete` tag for SQL made only of connection-housekeeping
/// statements (`RESET ALL`, `DISCARD ...`, `DEALLOCATE ALL`, `UNLISTEN *`,
/// `CLOSE ALL`, `SELECT pg_advisory_unlock_all()`), separated by `;`: the tag
/// of the last one. None when the SQL holds a quote character, holds no
/// statement, or holds any other statement.
pub open spec fn noop_tag(s: Seq<char>) -> Option<Seq<char>> {
    if s.contains('\'') || s.contains('"') {
        None
    } else {
        let ps = split_on(s, ';');
        if forall|i: int| 0 <= i < ps.len() ==> piece_ok(#[trigger] ps[i]) {
            last_tag(ps)
        } else {
            None
        }
    }
}

/// SQL that holds a quote character is never taken for a housekeeping
/// statement: splitting it on `;` could cut a string literal.
pub proof fn lemma_quoted_sql_is_parsed(s: Seq<char>)
    requires
        s.contains('\'') || s.contains('"'),
    ensures
        noop_tag(s) is None,
{
}

proof fn lemma_split_on_nonempty(s: Seq<char>, c: char)
    ensures
        split_on(s, c).len() >= 1,
    decreases s.len(),
{
    if s.len() > 0 {
        lemma_split_on_nonempty(s.drop_last(), c);
    }
}

proof fn lemma_split_prefix(s: Seq<char>, j: int)
    requires
        0 <= j <= s.len(),
    ensures
        split_on(s, ';').len() >= split_on(s.take(j), ';').len(),
        forall|k: int|
            0 <= k < split_on(s.take(j), ';').len() - 1 ==> split_on(s, ';')[k] == #[trigger] split_on(
                s.take(j),
                ';',
            )[k],
    decreases s.len(),
{
    if j == s.len() {
        assert(s.take(j) =~= s);
    } else {
        lemma_split_prefix(s.drop_last(), j);
        assert(s.drop_last().take(j) =~= s.take(j));
        lemma_split_on_nonempty(s.drop_last(), ';');
    }
}

/// The tag of a lower-cased statement.
fn housekeeping_tag_exec(l: &[char]) -> (r: Option<&'static str>)
    ensures
        match r {
            Some(t) => housekeeping_tag(l@) == Some(t@),
            None => housekeeping_tag(l@) is None,
        },
{
    if is_text(l, "reset all") {
        Some("RESET")
    } else if is_text(l, "discard all") {
        Some("DISCARD ALL")
    } else if is_text(l, "discard temp") || is_text(l, "discard temporary") {
        Some("DISCARD TEMP")
    } else if is_text(l, "discard plans") {
        Some("DISCARD PLANS")
    } else if is_text(l, "discard sequences") {
        Some("DISCARD SEQUENCES")
    } else if is_text(l, "deallocate all") {
        Some("DEALLOCATE ALL")
    } else if is_text(l, "unlisten *") {
        Some("UNLISTEN")
    } else if is_text(l, "close all") {
        Some("CLOSE CURSOR ALL")
    } else if is_text(l, "select pg_advisory_unlock_all()") {
        Some("SELECT")
    } else {
        None
    }
}

/// Looks one piece up: None for a blank piece, `Some(None)` for a piece
/// that is not a housekeeping statement.
fn piece_lookup(p: &[char]) -> (r: Option<Option<&'static str>>)
    ensures
        r is None <==> trim_seq(p@).len() == 0,
        r matches Some(o) ==> match o {
            Some(t) => piece_tag(p@) == Some(t@),
            None => piece_tag(p@) is None,
        },
{
    let once = trim_chars(p);
    if once.len() == 0 {
        return None;
    }
    let twice = trim_chars(once.as_slice());
    let l = lower_chars(twice.as_slice());
    Some(housekeeping_tag_exec(l.as_slice()))
}

/// Whether `c` occurs in `s`.
fn has_char(s: &[char], c: char) -> (r: bool)
    ensures
        r == s@.contains(c),
{
    let mut i: usize = 0;
    while i < s.len()
        invariant
            i <= s.len(),
            forall|k: int| 0 <= k < i ==> s@[k] != c,
        decreases s.len() - i,
    {
        if s[i] == c {
            return true;
        }
        i = i + 1;
    }
    false
}

/// The `CommandComplete` tag for SQL made only of connection-housekeeping
/// statements, such as the `SELECT pg_advisory_unlock_all(); CLOSE ALL;
/// UNLISTEN *; RESET ALL;` that asyncpg sends when it resets a connection;
/// None when the SQL must go to the parser.
pub fn is_postgres_noop(sql: &str) -> (r: Option<&'static str>)
    ensures
        match r {
            Some(t) => noop_tag(sql@) == Some(t@),
            None => noop_tag(sql@) is None,
        },
{
    let s = chars_of(sql);
    if has_char(s.as_slice(), '\'') || has_char(s.as_slice(), '"') {
        return None;
    }
    let mut cur: Vec<char> = Vec::new();
    let mut last: Option<&'static str> = None;
    let mut i: usize = 0;
    while i < s.len()
        invariant
            i <= s.len(),
            s@ == sql@,
            ({
                let ps = split_on(s@.take(i as int), ';');
                &&& ps.len() >= 1
                &&& cur@ == ps.last()
                &&& forall|k: int| 0 <= k < ps.len() - 1 ==> piece_ok(#[trigger] ps[k])
                &&& match last {
                    Some(t) => last_tag(ps.drop_last()) == Some(t@),
                    None => last_tag(ps.drop_last()) is None,
                }
            }),
        decreases s.len() - i,
    {
        let ghost ps = split_on(s@.take(i as int), ';');
        let ghost t = s@.take(i + 1);
        proof {
            assert(t.drop_last() =~= s@.take(i as int));
        }
        if s[i] != ';' {
            cur.push(s[i]);
            proof {
                assert(split_on(t, ';') =~= ps.update(ps.len() - 1, ps.last().push(s@[i as int])));
                assert(split_on(t, ';').drop_last() =~= ps.drop_last());
            }
        } else {
            let found = piece_lookup(cur.as_slice());
            proof {
                assert(split_on(t, ';') =~= ps.push(Seq::empty()));
                assert(split_on(t, ';')[ps.len() - 1] == ps.last());
            }
            match found {
                Some(None) => {
                    proof {
                        lemma_split_prefix(s@, i + 1);
                        assert(split_on(s@, ';')[ps.len() - 1] == ps.last());
                    }
                    return None;
                },
                Some(Some(tag)) => {
                    last = Some(tag);
                },
                None => {},
            }
            proof {
                assert(split_on(t, ';').drop_last() =~= ps);
                assert(ps.drop_last().push(ps.last()) =~= ps);
            }
            cur = Vec::new();
        }
        i = i + 1;
    }
    proof {
        assert(s@.take(s.len() as int) =~= s@);
    }
    let ghost ps = split_on(s@, ';');
    let found = piece_lookup(cur.as_slice());
    match found {
        Some(None) => {
            return None;
        },
        Some(Some(tag)) => {
            last = Some(tag);
        },
        None => {},
    }
    proof {
        assert(ps.drop_last().push(ps.last()) =~= ps);
    }
    last
}

/// Number of `';'` characters at the start of `s`.
pub open spec fn leading_semis(s: Seq<char>) -> int
    decreases s.len(),
{
    if s.len() > 0 && s[0] == ';' {
        1 + leading_semis(s.drop_first())
    } else {
        0
    }
}

/// Index of the first white-space character of `s`, or its length.
pub open spec fn first_space(s: Seq<char>) -> int
    decreases s.len(),
{
    if s.len() > 0 && !is_space(s[0]) {
        1 + first_space(s.drop_first())
    } else {
        0
    }
}

/// The first white-space separated word of `s` once leading white space and
/// then leading `';'` are removed (empty when there is none).
pub open spec fn first_word(s: Seq<char>) -> Seq<char> {
    let a = s.skip(crate::text::first_non_space(s));
    let b = a.skip(leading_semis(a));
    let c = b.skip(crate::text::first_non_space(b));
    c.take(first_space(c))
}

/// Whether the lower-cased first word of the SQL ends a transaction
/// (`ROLLBACK`, `COMMIT`, `END`, `ABORT`, `RELEASE`).
pub open spec fn ends_transaction(s: Seq<char>) -> bool {
    let w = lower_seq(first_word(s));
    w == "rollback"@ || w == "commit"@ || w == "end"@ || w == "abort"@ || w == "release"@
}

proof fn lemma_leading_semis(s: Seq<char>, i: int)
    requires
        0 <= i <= s.len(),
        forall|k: int| 0 <= k < i ==> s[k] == ';',
        i == s.len() || s[i] != ';',
    ensures
        leading_semis(s) == i,
    decreases i,
{
    if i > 0 {
        lemma_leading_semis(s.drop_first(), i - 1);
    }
}

proof fn lemma_first_space(s: Seq<char>, i: int)
    requires
        0 <= i <= s.len(),
        forall|k: int| 0 <= k < i ==> !is_space(s[k]),
        i == s.len() || is_space(s[i]),
    ensures
        first_space(s) == i,
    decreases i,
{
    if i > 0 {
        lemma_first_space(s.drop_first(), i - 1);
    }
}

/// `s` without its leading white space.
fn skip_leading_space(s: &[char]) -> (r: Vec<char>)
    ensures
        r@ == s@.skip(crate::text::first_non_space(s@)),
{
    let (a, _b) = crate::text::trim_bounds(s);
    let r = crate::text::slice_chars(s, a, s.len());
    assert(r@ =~= s@.skip(a as int));
    r
}

/// True iff the first word of the SQL, after leading white space and `';'`,
/// is `ROLLBACK`, `COMMIT`, `END`, `ABORT` or `RELEASE` in any letter case:
/// the statements still accepted in a failed transaction.
pub fn ends_failed_transaction(sql: &str) -> (r: bool)
    ensures
        r == ends_transaction(sql@),
{
    let s = chars_of(sql);
    let a = skip_leading_space(s.as_slice());
    let mut k: usize = 0;
    while k < a.len() && a[k] == ';'
        invariant
            k <= a.len(),
            forall|j: int| 0 <= j < k ==> a@[j] == ';',
        decreases a.len() - k,
    {
        k = k + 1;
    }
    proof {
        lemma_leading_semis(a@, k as int);
    }
    let b = crate::text::slice_chars(a.as_slice(), k, a.len());
    assert(b@ =~= a@.skip(k as int));
    let c = skip_leading_space(b.as_slice());
    let mut e: usize = 0;
    while e < c.len() && !is_space_exec(c[e])
        invariant
            e <= c.len(),
            forall|j: int| 0 <= j < e ==> !is_space(c@[j]),
        decreases c.len() - e,
    {
        e = e + 1;
    }
    proof {
        lemma_first_space(c@, e as int);
    }
    let w = crate::text::slice_chars(c.as_slice(), 0, e);
    assert(w@ =~= c@.take(e as int));
    let l = lower_chars(w.as_slice());
    is_text(l.as_slice(), "rollback") || is_text(l.as_slice(), "commit") || is_text(
        l.as_slice(),
        "end",
    ) || is_text(l.as_slice(), "abort") || is_text(l.as_slice(), "release")
}

/// The message of the error for a format list of the wrong length.
pub open spec fn format_count_message(got: int, expected: int) -> Seq<char> {
    "invalid number for format specifiers, got: "@ + dec(got) + ", expected: "@ + dec(expected)
}

/// The formats of `num` values given the format codes of a `Bind` message:
/// none means text for all, one applies to all, otherwise one per value.
pub open spec fn extended_formats(formats: Seq<Format>, num: nat) -> Option<Seq<Format>> {
    if formats.len() == 0 {
        Some(Seq::new(num, |i: int| Format::Text))
    } else if formats.len() == 1 {
        Some(Seq::new(num, |i: int| formats[0]))
    } else if formats.len() == num {
        Some(formats)
    } else {
        None
    }
}

/// `"<prefix><a><middle><b>"` with the numbers in decimal.
fn two_numbers_text(prefix: &str, a: usize, middle: &str, b: usize) -> (s: String)
    ensures
        s@ == prefix@ + dec(a as int) + middle@ + dec(b as int),
{
    let mut v = chars_of(prefix);
    let mut x = fmt_u128(a as u128);
    let mut m = chars_of(middle);
    let mut y = fmt_u128(b as u128);
    v.append(&mut x);
    v.append(&mut m);
    v.append(&mut y);
    string_from_chars(v.as_slice())
}

/// `n` copies of `f`.
fn repeat_format(f: Format, n: usize) -> (v: Vec<Format>)
    ensures
        v@ == Seq::new(n as nat, |i: int| f),
{
    let mut v: Vec<Format> = Vec::new();
    let mut k: usize = 0;
    while k < n
        invariant
            k <= n,
            v@ == Seq::new(k as nat, |i: int| f),
        decreases n - k,
    {
        v.push(f);
        k = k + 1;
        assert(v@ =~= Seq::new(k as nat, |i: int| f));
    }
    v
}

/// Extends the format codes of a `Bind` message to one per value; fails with
/// an internal error when there are neither zero, one nor `num` of them.
pub fn extend_formats(formats: Vec<Format>, num: usize) -> (r: Result<Vec<Format>, ErrorResponse>)
    ensures
        match extended_formats(formats@, num as nat) {
            Some(f) => r matches Ok(v) && v@ == f,
            None => r matches Err(e) && e.severity == ErrorSeverity::Error && e.code
                == SqlState::InternalError && e.message@ == format_count_message(
                formats.len() as int,
                num as int,
            ),
        },
{
    let len = formats.len();
    if len == 0 {
        Ok(repeat_format(Format::Text, num))
    } else if len == 1 {
        Ok(repeat_format(formats[0], num))
    } else if len == num {
        Ok(formats)
    } else {
        let msg = two_numbers_text("invalid number for format specifiers, got: ", len, ", expected: ", num);
        Err(ErrorResponse::error_internal(msg))
    }
}

/// Text format for each of `num` values.
pub fn all_text_formats(num: usize) -> (v: Vec<Format>)
    ensures
        v@ == Seq::new(num as nat, |i: int| Format::Text),
{
    repeat_format(Format::Text, num)
}

/// The message of the error for a parameter count that does not match.
pub open spec fn param_count_message(expected: int, got: int) -> Seq<char> {
    "Invalid number of values provided. Expected: "@ + dec(expected) + ", got: "@ + dec(got)
}

/// The checks made before the parameters of a `Bind` message are decoded:
/// the formats are extended to one per value, then the number of values must
/// equal the number of parameter types. Returns the format of each value.
pub fn check_param_values(param_formats: Vec<Format>, num_values: usize, num_types: usize) -> (r: Result<
    Vec<Format>,
    ErrorResponse,
>)
    ensures
        match extended_formats(param_formats@, num_values as nat) {
            None => r matches Err(e) && e.severity == ErrorSeverity::Error && e.code
                == SqlState::InternalError && e.message@ == format_count_message(
                param_formats.len() as int,
                num_values as int,
            ),
            Some(f) => if num_values != num_types {
                r matches Err(e) && e.severity == ErrorSeverity::Error && e.code
                    == SqlState::InternalError && e.message@ == param_count_message(
                    num_types as int,
                    num_values as int,
                )
            } else {
                r matches Ok(v) && v@ == f
            },
        },
{
    let formats = match extend_formats(param_formats, num_values) {
        Ok(f) => f,
        Err(e) => {
            return Err(e);
        },
    };
    if num_values != num_types {
        let msg = two_numbers_text(
            "Invalid number of values provided. Expected: ",
            num_types,
            ", got: ",
            num_values,
        );
        return Err(ErrorResponse::error_internal(msg));
    }
    Ok(formats)
}

/// The message of the error for a parameter with no entry among the
/// parameter types, given the text of those types.
pub open spec fn missing_type_message(idx: int, types_text: Seq<char>) -> Seq<char> {
    "Missing type for param value at index "@ + dec(idx) + ", input types: "@ + types_text
}

/// The message of the error for a parameter whose type is not known, given
/// the text of the parameter types.
pub open spec fn unknown_type_message(idx: int, types_text: Seq<char>) -> Seq<char> {
    "Unknown type at index "@ + dec(idx) + ", input types: "@ + types_text
}

/// `"<prefix><n><middle><tail>"` with the number in decimal.
fn number_between(prefix: &str, n: usize, middle: &str, tail: &str) -> (s: String)
    ensures
        s@ == prefix@ + dec(n as int) + middle@ + tail@,
{
    let mut v = chars_of(prefix);
    let mut x = fmt_u128(n as u128);
    let mut m = chars_of(middle);
    let mut t = chars_of(tail);
    v.append(&mut x);
    v.append(&mut m);
    v.append(&mut t);
    string_from_chars(v.as_slice())
}

/// The type of the parameter at `idx` (counted from 0), from the entry found
/// under its key (see [`param_key`]) among the parameter types, whose text
/// is `types_text`: an internal error when there is no entry, or when the
/// entry holds no type.
pub fn check_param_type<'a, T>(idx: usize, entry: Option<&'a Option<T>>, types_text: &str) -> (r:
    Result<&'a T, ErrorResponse>)
    ensures
        match entry {
            None => r matches Err(e) && e.severity == ErrorSeverity::Error && e.code
                == SqlState::InternalError && e.message@ == missing_type_message(
                idx as int,
                types_text@,
            ),
            Some(None) => r matches Err(e) && e.severity == ErrorSeverity::Error && e.code
                == SqlState::InternalError && e.message@ == unknown_type_message(
                idx as int,
                types_text@,
            ),
            Some(Some(t)) => r matches Ok(x) && *x == t,
        },
{
    match entry {
        None => Err(
            ErrorResponse::error_internal(
                number_between(
                    "Missing type for param value at index ",
                    idx,
                    ", input types: ",
                    types_text,
                ),
            ),
        ),
        Some(None) => Err(
            ErrorResponse::error_internal(
                number_between("Unknown type at index ", idx, ", input types: ", types_text),
            ),
        ),
        Some(Some(t)) => Ok(t),
    }
}

/// The key under which the type of parameter `idx` (counted from 0) is
/// found: `$` and the parameter's number counted from 1.
pub fn param_key(idx: usize) -> (s: String)
    requires
        idx < usize::MAX,
    ensures
        s@ == seq!['$'] + dec(idx + 1),
{
    let mut v: Vec<char> = Vec::new();
    v.push('$');
    let mut d = fmt_u128((idx + 1) as u128);
    v.append(&mut d);
    string_from_chars(v.as_slice())
}

#[verifier::external_type_specification]
#[verifier::external_body]
pub struct ExUuid(Uuid);

#[verifier::external_type_specification]
#[verifier::external_body]
pub struct ExSystemTime(SystemTime);

/// The 16 bytes of a UUID, in order.
pub uninterp spec fn uuid_bytes(u: Uuid) -> Seq<u8>;

/// The bytes of a UUID. Trusted: calls `uuid::Uuid::as_bytes`, which hands
/// out the 16 bytes the UUID is made of; a UUID always gives the same bytes.
#[verifier::external_body]
fn uuid_octets(u: &Uuid) -> (r: [u8; 16])
    ensures
        r@ == uuid_bytes(*u),
{
    *u.as_bytes()
}

/// The current time. Trusted: calls `std::time::SystemTime::now`; nothing is
/// claimed of the value.
#[verifier::external_body]
fn system_now() -> SystemTime {
    SystemTime::now()
}

/// The time elapsed since the Unix epoch, or None for an earlier time.
/// Trusted: calls `std::time::SystemTime::duration_since` with
/// `UNIX_EPOCH`; nothing is claimed of the value.
#[verifier::external_body]
fn since_unix_epoch(t: &SystemTime) -> Option<Duration> {
    t.duration_since(UNIX_EPOCH).ok()
}

/// Whole nanoseconds of a duration. Trusted: calls
/// `std::time::Duration::as_nanos`; nothing is claimed of the value.
#[verifier::external_body]
fn duration_nanos(d: &Duration) -> u128 {
    d.as_nanos()
}

/// 64-bit FNV-1a hash of the bytes.
pub open spec fn fnv1a(bytes: Seq<u8>) -> u64
    decreases bytes.len(),
{
    if bytes.len() == 0 {
        0xcbf29ce484222325u64
    } else {
        (fnv1a(bytes.drop_last()) ^ (bytes.last() as u64)).wrapping_mul(0x100000001b3u64)
    }
}

/// A hash folded to 31 bits (the high half xor-ed into the low half, the
/// sign bit cleared), with 0 raised to 1.
pub open spec fn fold_pid(h: u64) -> i32 {
    let f = (h ^ (h >> 32u64)) & 0x7fffffffu64;
    if f < 1 {
        1
    } else {
        f as i32
    }
}

/// The little-endian bytes of a 64-bit value.
pub open spec fn le_bytes(x: u64) -> Seq<u8> {
    Seq::new(8, |k: int| ((x >> ((8 * k) as u64)) & 0xffu64) as u8)
}

/// The process id derived from bytes: their FNV-1a hash folded to a
/// positive 31-bit value.
pub fn pid_from_bytes(bytes: &[u8]) -> (r: i32)
    ensures
        r == fold_pid(fnv1a(bytes@)),
        r >= 1,
{
    let mut h: u64 = 0xcbf29ce484222325;
    let mut i: usize = 0;
    while i < bytes.len()
        invariant
            i <= bytes.len(),
            h == fnv1a(bytes@.take(i as int)),
        decreases bytes.len() - i,
    {
        h = (h ^ (bytes[i] as u64)).wrapping_mul(0x100000001b3);
        i = i + 1;
        assert(bytes@.take(i as int).drop_last() =~= bytes@.take((i - 1) as int));
    }
    assert(bytes@.take(bytes.len() as int) =~= bytes@);
    let folded: u64 = (h ^ (h >> 32)) & 0x7FFFFFFF;
    assert(folded <= 0x7fffffff) by (bit_vector)
        requires
            folded == (h ^ (h >> 32)) & 0x7FFFFFFF,
    ;
    let f = folded as i32;
    if f < 1 {
        1
    } else {
        f
    }
}

/// The process id announced for a connection: stable for the connection's
/// UUID, positive (libpq reads 0 as "no process id").
pub fn uuid_to_pg_pid(uuid: &Uuid) -> (r: i32)
    ensures
        r == fold_pid(fnv1a(uuid_bytes(*uuid))),
        r >= 1,
{
    let bytes = uuid_octets(uuid);
    pid_from_bytes(&bytes)
}

/// The little-endian bytes of a value.
fn le_byte_vec(x: u64) -> (v: Vec<u8>)
    ensures
        v@ == le_bytes(x),
{
    let mut v: Vec<u8> = Vec::new();
    let mut k: u64 = 0;
    while k < 8
        invariant
            k <= 8,
            v@ == le_bytes(x).take(k as int),
        decreases 8 - k,
    {
        v.push(((x >> (8 * k)) & 0xff) as u8);
        k = k + 1;
        assert(v@ =~= le_bytes(x).take(k as int));
    }
    assert(le_bytes(x).take(8) =~= le_bytes(x));
    v
}

/// The cancel-key secret derived from a clock reading in nanoseconds: the
/// FNV-1a hash of its little-endian bytes, folded to a positive 31-bit value.
pub fn secret_from_nanos(now: u64) -> (r: i32)
    ensures
        r == fold_pid(fnv1a(le_bytes(now))),
        r >= 1,
{
    let b = le_byte_vec(now);
    pid_from_bytes(b.as_slice())
}

/// A cancel-key secret taken from the system clock (0 when the clock reads
/// before the Unix epoch). Not for cryptographic use.
pub fn rand_i32() -> (r: i32)
    ensures
        r >= 1,
        exists|n: u64| r == fold_pid(fnv1a(#[trigger] le_bytes(n))),
{
    let t = system_now();
    let now: u64 = match since_unix_epoch(&t) {
        Some(d) => duration_nanos(&d) as u64,
        None => 0,
    };
    let r = secret_from_nanos(now);
    assert(r == fold_pid(fnv1a(le_bytes(now))));
    r
}

/// What the registry holds for one session: the secret a cancel request
/// must present, and whether a cancel was accepted.
#[derive(Debug, Clone, Copy, PartialEq, Eq, Structural)]
pub struct CancelEntry {
    pub secret_key: i32,
    pub cancelled: bool,
}

/// The active sessions by process id, for routing cancel requests.
#[derive(Debug)]
pub struct CancelRegistry {
    inner: HashMap<i32, CancelEntry>,
}

/// Whether a cancel request for `pid` with `secret` is accepted.
pub open spec fn fires(m: Map<i32, CancelEntry>, pid: i32, secret: i32) -> bool {
    m.contains_key(pid) && m[pid].secret_key == secret
}

/// The sessions after a cancel request: the matching session is marked
/// cancelled; a request that does not match changes nothing.
pub open spec fn after_fire(m: Map<i32, CancelEntry>, pid: i32, secret: i32) -> Map<
    i32,
    CancelEntry,
> {
    if fires(m, pid, secret) {
        m.insert(pid, CancelEntry { secret_key: secret, cancelled: true })
    } else {
        m
    }
}

/// Whether the session `pid` has been cancelled.
pub open spec fn cancelled(m: Map<i32, CancelEntry>, pid: i32) -> bool {
    m.contains_key(pid) && m[pid].cancelled
}

impl View for CancelRegistry {
    type V = Map<i32, CancelEntry>;

    closed spec fn view(&self) -> Map<i32, CancelEntry> {
        self.inner@
    }
}

impl CancelRegistry {
    /// An empty registry.
    pub fn new() -> (r: CancelRegistry)
        ensures
            r@ == Map::<i32, CancelEntry>::empty(),
    {
        CancelRegistry { inner: HashMap::new() }
    }

    /// Records a session under its process id.
    pub fn register(&mut self, pid: i32, entry: CancelEntry)
        ensures
            final(self)@ == old(self)@.insert(pid, entry),
    {
        broadcast use vstd::std_specs::hash::group_hash_axioms;

        self.inner.insert(pid, entry);
    }

    /// Forgets the session with this process id.
    pub fn deregister(&mut self, pid: i32)
        ensures
            final(self)@ == old(self)@.remove(pid),
    {
        broadcast use vstd::std_specs::hash::group_hash_axioms;

        self.inner.remove(&pid);
    }

    /// Accepts a cancel request when the session exists and the secret
    /// matches, marking the session cancelled; returns whether it did.
    pub fn fire(&mut self, pid: i32, secret: i32) -> (r: bool)
        ensures
            r == fires(old(self)@, pid, secret),
            final(self)@ == after_fire(old(self)@, pid, secret),
    {
        broadcast use vstd::std_specs::hash::group_hash_axioms;

        let hit = match self.inner.get(&pid) {
            Some(entry) => entry.secret_key == secret,
            None => false,
        };
        if hit {
            self.inner.insert(pid, CancelEntry { secret_key: secret, cancelled: true });
        }
        hit
    }

    /// Whether a cancel was accepted for the session `pid`.
    pub fn is_cancelled(&self, pid: i32) -> (r: bool)
        ensures
            r == cancelled(self@, pid),
    {
        broadcast use vstd::std_specs::hash::group_hash_axioms;

        match self.inner.get(&pid) {
            Some(entry) => entry.cancelled,
            None => false,
        }
    }
}

/// A cancel request that presents the secret a session registered with is
/// accepted, and the session is then cancelled.
pub proof fn lemma_fire_after_register(m: Map<i32, CancelEntry>, pid: i32, entry: CancelEntry)
    ensures
        fires(m.insert(pid, entry), pid, entry.secret_key),
        cancelled(after_fire(m.insert(pid, entry), pid, entry.secret_key), pid),
{
}

/// A cancel request whose secret does not match is refused and changes
/// nothing.
pub proof fn lemma_wrong_secret_refused(m: Map<i32, CancelEntry>, pid: i32, secret: i32)
    requires
        m.contains_key(pid),
        m[pid].secret_key != secret,
    ensures
        !fires(m, pid, secret),
        after_fire(m, pid, secret) == m,
{
}

/// Once a session is deregistered, no cancel request reaches it.
pub proof fn lemma_no_fire_after_deregister(m: Map<i32, CancelEntry>, pid: i32, secret: i32)
    ensures
        !fires(m.remove(pid), pid, secret),
        after_fire(m.remove(pid), pid, secret) == m.remove(pid),
{
}

/// A cancel request touches no other session.
pub proof fn lemma_fire_leaves_others(m: Map<i32, CancelEntry>, pid: i32, secret: i32, other: i32)
    requires
        other != pid,
    ensures
        after_fire(m, pid, secret).contains_key(other) == m.contains_key(other),
        m.contains_key(other) ==> after_fire(m, pid, secret)[other] == m[other],
{
}

/// What executing a statement produced, as far as the reply to the client
/// is concerned.
#[derive(Debug, Clone, Copy, PartialEq, Eq, Structural)]
pub enum ResultKind {
    /// A query whose rows were all sent.
    Query { num_rows: usize },
    EmptyQuery,
    Begin,
    Commit,
    Rollback,
    InsertSuccess { rows_inserted: usize },
    CopySuccess,
    DeleteSuccess { deleted_rows: usize },
    UpdateSuccess { updated_rows: usize },
    CreateTable,
    CreateDatabase,
    CreateTunnel,
    CreateCredential,
    CreateCredentials,
    CreateSchema,
    CreateView,
    AlterTable,
    AlterDatabase,
    AlterTunnelRotateKeys,
    SetVariable,
    DropTables,
    DropViews,
    DropSchemas,
    DropDatabase,
    DropTunnel,
    DropCredentials,
}

/// The `CommandComplete` tag for a result; None for an empty query, which is
/// answered with `EmptyQueryResponse` instead.
pub open spec fn result_tag(k: ResultKind) -> Option<Seq<char>> {
    match k {
            ResultKind::Query { num_rows } => Some("SELECT "@ + dec(num_rows as int)),
            ResultKind::InsertSuccess { rows_inserted } => Some("INSERT 0 "@ + dec(rows_inserted as int)),
            ResultKind::DeleteSuccess { deleted_rows } => Some("DELETE "@ + dec(deleted_rows as int)),
            ResultKind::UpdateSuccess { updated_rows } => Some("UPDATE "@ + dec(updated_rows as int)),
            ResultKind::EmptyQuery => None,
            ResultKind::Begin => Some("BEGIN"@),
            ResultKind::Commit => Some("COMMIT"@),
            ResultKind::Rollback => Some("ROLLBACK"@),
            ResultKind::CopySuccess => Some("COPY"@),
            ResultKind::CreateTable => Some("CREATE TABLE"@),
            ResultKind::CreateDatabase => Some("CREATE DATABASE"@),
            ResultKind::CreateTunnel => Some("CREATE TUNNEL"@),
            ResultKind::CreateCredential => Some("CREATE CREDENTIAL"@),
            ResultKind::CreateCredentials => Some("CREATE CREDENTIALS\nDEPRECATION WARNING.USE `CREATE CREDENTIAL`."@),
            ResultKind::CreateSchema => Some("CREATE SCHEMA"@),
            ResultKind::CreateView => Some("CREATE VIEW"@),
            ResultKind::AlterTable => Some("ALTER TABLE"@),
            ResultKind::AlterDatabase => Some("ALTER DATABASE"@),
            ResultKind::AlterTunnelRotateKeys => Some("ALTER TUNNEL"@),
            ResultKind::SetVariable => Some("SET"@),
            ResultKind::DropTables => Some("DROP TABLE"@),
            ResultKind::DropViews => Some("DROP VIEW"@),
            ResultKind::DropSchemas => Some("DROP SCHEMA"@),
            ResultKind::DropDatabase => Some("DROP DATABASE"@),
            ResultKind::DropTunnel => Some("DROP TUNNEL"@),
            ResultKind::DropCredentials => Some("DROP CREDENTIALS"@),
    }
}

/// Whether `t` is `prefix` followed by one or more decimal digits.
pub open spec fn counted_tag(t: Seq<char>, prefix: Seq<char>) -> bool {
    t.len() > prefix.len() && t.take(prefix.len() as int) == prefix && all_digits(
        t.skip(prefix.len() as int),
    )
}

/// The result a `CommandComplete` tag reports, read back from the tag: a
/// statement's keyword(s), or a count of rows after `SELECT`, `INSERT 0`,
/// `DELETE` or `UPDATE`.
pub open spec fn kind_of_tag(t: Seq<char>) -> Option<ResultKind> {
    if fixed_tag_kind(t) is Some {
        fixed_tag_kind(t)
    } else if counted_tag(t, "SELECT "@) {
        Some(ResultKind::Query { num_rows: digits_value(t.skip(7)) as usize })
    } else if counted_tag(t, "INSERT 0 "@) {
        Some(ResultKind::InsertSuccess { rows_inserted: digits_value(t.skip(9)) as usize })
    } else if counted_tag(t, "DELETE "@) {
        Some(ResultKind::DeleteSuccess { deleted_rows: digits_value(t.skip(7)) as usize })
    } else if counted_tag(t, "UPDATE "@) {
        Some(ResultKind::UpdateSuccess { updated_rows: digits_value(t.skip(7)) as usize })
    } else {
        None
    }
}

/// The result a fixed `CommandComplete` tag (one without a row count)
/// reports.
pub open spec fn fixed_tag_kind(t: Seq<char>) -> Option<ResultKind> {
    if t == "BEGIN"@ {
        Some(ResultKind::Begin)
    } else if t == "COMMIT"@ {
        Some(ResultKind::Commit)
    } else if t == "ROLLBACK"@ {
        Some(ResultKind::Rollback)
    } else if t == "COPY"@ {
        Some(ResultKind::CopySuccess)
    } else if t == "CREATE TABLE"@ {
        Some(ResultKind::CreateTable)
    } else if t == "CREATE DATABASE"@ {
        Some(ResultKind::CreateDatabase)
    } else if t == "CREATE TUNNEL"@ {
        Some(ResultKind::CreateTunnel)
    } else if t == "CREATE CREDENTIAL"@ {
        Some(ResultKind::CreateCredential)
    } else if t == "CREATE CREDENTIALS\nDEPRECATION WARNING.USE `CREATE CREDENTIAL`."@ {
        Some(ResultKind::CreateCredentials)
    } else if t == "CREATE SCHEMA"@ {
        Some(ResultKind::CreateSchema)
    } else if t == "CREATE VIEW"@ {
        Some(ResultKind::CreateView)
    } else if t == "ALTER TABLE"@ {
        Some(ResultKind::AlterTable)
    } else if t == "ALTER DATABASE"@ {
        Some(ResultKind::AlterDatabase)
    } else if t == "ALTER TUNNEL"@ {
        Some(ResultKind::AlterTunnelRotateKeys)
    } else if t == "SET"@ {
        Some(ResultKind::SetVariable)
    } else if t == "DROP TABLE"@ {
        Some(ResultKind::DropTables)
    } else if t == "DROP VIEW"@ {
        Some(ResultKind::DropViews)
    } else if t == "DROP SCHEMA"@ {
        Some(ResultKind::DropSchemas)
    } else if t == "DROP DATABASE"@ {
        Some(ResultKind::DropDatabase)
    } else if t == "DROP TUNNEL"@ {
        Some(ResultKind::DropTunnel)
    } else if t == "DROP CREDENTIALS"@ {
        Some(ResultKind::DropCredentials)
    } else {
        None
    }
}

proof fn lemma_counted_tag(prefix: Seq<char>, n: nat)
    ensures
        counted_tag(prefix + dec(n as int), prefix),
        (prefix + dec(n as int)).skip(prefix.len() as int) == dec(n as int),
        digits_value(dec(n as int)) == n,
        (prefix + dec(n as int)).len() > prefix.len(),
{
    lemma_digits_read_back(n);
    let t = prefix + dec(n as int);
    assert(t.take(prefix.len() as int) =~= prefix);
    assert(t.skip(prefix.len() as int) =~= dec(n as int));
}

/// A `CommandComplete` tag names the result that produced it: reading the
/// tag back gives the result, so two different results never share a tag
/// (the tag of a `COMMIT` is never that of a `ROLLBACK`, and row counts are
/// told apart).
pub proof fn lemma_tag_names_result(k: ResultKind, other: ResultKind)
    ensures
        result_tag(k) matches Some(t) ==> kind_of_tag(t) == Some(k),
        (result_tag(k) is Some && result_tag(k) == result_tag(other)) ==> k == other,
        result_tag(k) is None <==> k is EmptyQuery,
{
    lemma_tag_reads_back(k);
    lemma_tag_reads_back(other);
}

proof fn lemma_tag_reads_back_0()
    ensures
        kind_of_tag("BEGIN"@) == Some(ResultKind::Begin),
{
    reveal_strlit("BEGIN");
}

proof fn lemma_tag_reads_back_1()
    ensures
        kind_of_tag("COMMIT"@) == Some(ResultKind::Commit),
{
    reveal_strlit("BEGIN");
    reveal_strlit("COMMIT");
    assert("COMMIT"@.len() != "BEGIN"@.len());
}

proof fn lemma_tag_reads_back_2()
    ensures
        kind_of_tag("ROLLBACK"@) == Some(ResultKind::Rollback),
{
    reveal_strlit("BEGIN");
    reveal_strlit("COMMIT");
    reveal_strlit("ROLLBACK");
    assert("ROLLBACK"@.len() != "BEGIN"@.len());
    assert("ROLLBACK"@.len() != "COMMIT"@.len());
}

proof fn lemma_tag_reads_back_3()
    ensures
        kind_of_tag("COPY"@) == Some(ResultKind::CopySuccess),
{
    reveal_strlit("BEGIN");
    reveal_strlit("COMMIT");
    reveal_strlit("COPY");
    reveal_strlit("ROLLBACK");
    assert("COPY"@.len() != "BEGIN"@.len());
    assert("COPY"@.len() != "COMMIT"@.len());
    assert("COPY"@.len() != "ROLLBACK"@.len());
}

proof fn lemma_tag_reads_back_4()
    ensures
        kind_of_tag("CREATE TABLE"@) == Some(ResultKind::CreateTable),
{
    reveal_strlit("BEGIN");
    reveal_strlit("COMMIT");
    reveal_strlit("COPY");
    reveal_strlit("CREATE TABLE");
    reveal_strlit("ROLLBACK");
    assert("CREATE TABLE"@.len() != "BEGIN"@.len());
    assert("CREATE TABLE"@.len() != "COMMIT"@.len());
    assert("CREATE TABLE"@.len() != "ROLLBACK"@.len());
    assert("CREATE TABLE"@.len() != "COPY"@.len());
}

proof fn lemma_tag_reads_back_5()
    ensures
        kind_of_tag("CREATE DATABASE"@) == Some(ResultKind::CreateDatabase),
{
    reveal_strlit("BEGIN");
    reveal_strlit("COMMIT");
    reveal_strlit("COPY");
    reveal_strlit("CREATE DATABASE");
    reveal_strlit("CREATE TABLE");
    reveal_strlit("ROLLBACK");
    assert("CREATE DATABASE"@.len() != "BEGIN"@.len());
    assert("CREATE DATABASE"@.len() != "COMMIT"@.len());
    assert("CREATE DATABASE"@.len() != "ROLLBACK"@.len());
    assert("CREATE DATABASE"@.len() != "COPY"@.len());
    assert("CREATE DATABASE"@.len() != "CREATE TABLE"@.len());
}

proof fn lemma_tag_reads_back_6()
    ensures
        kind_of_tag("CREATE TUNNEL"@) == Some(ResultKind::CreateTunnel),
{
    reveal_strlit("BEGIN");
    reveal_strlit("COMMIT");
    reveal_strlit("COPY");
    reveal_strlit("CREATE DATABASE");
    reveal_strlit("CREATE TABLE");
    reveal_strlit("CREATE TUNNEL");
    reveal_strlit("ROLLBACK");
    assert("CREATE TUNNEL"@.len() != "BEGIN"@.len());
    assert("CREATE TUNNEL"@.len() != "COMMIT"@.len());
    assert("CREATE TUNNEL"@.len() != "ROLLBACK"@.len());
    assert("CREATE TUNNEL"@.len() != "COPY"@.len());
    assert("CREATE TUNNEL"@.len() != "CREATE TABLE"@.len());
    assert("CREATE TUNNEL"@.len() != "CREATE DATABASE"@.len());
}

proof fn lemma_tag_reads_back_7()
    ensures
        kind_of_tag("CREATE CREDENTIAL"@) == Some(ResultKind::CreateCredential),
{
    reveal_strlit("BEGIN");
    reveal_strlit("COMMIT");
    reveal_strlit("COPY");
    reveal_strlit("CREATE CREDENTIAL");
    reveal_strlit("CREATE DATABASE");
    reveal_strlit("CREATE TABLE");
    reveal_strlit("CREATE TUNNEL");
    reveal_strlit("ROLLBACK");
    assert("CREATE CREDENTIAL"@.len() != "BEGIN"@.len());
    assert("CREATE CREDENTIAL"@.len() != "COMMIT"@.len());
    assert("CREATE CREDENTIAL"@.len() != "ROLLBACK"@.len());
    assert("CREATE CREDENTIAL"@.len() != "COPY"@.len());
    assert("CREATE CREDENTIAL"@.len() != "CREATE TABLE"@.len());
    assert("CREATE CREDENTIAL"@.len() != "CREATE DATABASE"@.len());
    assert("CREATE CREDENTIAL"@.len() != "CREATE TUNNEL"@.len());
}

proof fn lemma_tag_reads_back_8()
    ensures
        kind_of_tag("CREATE CREDENTIALS\nDEPRECATION WARNING.USE `CREATE CREDENTIAL`."@) == Some(ResultKind::CreateCredentials),
{
    reveal_strlit("BEGIN");
    reveal_strlit("COMMIT");
    reveal_strlit("COPY");
    reveal_strlit("CREATE CREDENTIAL");
    reveal_strlit("CREATE CREDENTIALS\nDEPRECATION WARNING.USE `CREATE CREDENTIAL`.");
    reveal_strlit("CREATE DATABASE");
    reveal_strlit("CREATE TABLE");
    reveal_strlit("CREATE TUNNEL");
    reveal_strlit("ROLLBACK");
    assert("CREATE CREDENTIALS\nDEPRECATION WARNING.USE `CREATE CREDENTIAL`."@.len() != "BEGIN"@.len());
    assert("CREATE CREDENTIALS\nDEPRECATION WARNING.USE `CREATE CREDENTIAL`."@.len() != "COMMIT"@.len());
    assert("CREATE CREDENTIALS\nDEPRECATION WARNING.USE `CREATE CREDENTIAL`."@.len() != "ROLLBACK"@.len());
    assert("CREATE CREDENTIALS\nDEPRECATION WARNING.USE `CREATE CREDENTIAL`."@.len() != "COPY"@.len());
    assert("CREATE CREDENTIALS\nDEPRECATION WARNING.USE `CREATE CREDENTIAL`."@.len() != "CREATE TABLE"@.len());
    assert("CREATE CREDENTIALS\nDEPRECATION WARNING.USE `CREATE CREDENTIAL`."@.len() != "CREATE DATABASE"@.len());
    assert("CREATE CREDENTIALS\nDEPRECATION WARNING.USE `CREATE CREDENTIAL`."@.len() != "CREATE TUNNEL"@.len());
    assert("CREATE CREDENTIALS\nDEPRECATION WARNING.USE `CREATE CREDENTIAL`."@.len() != "CREATE CREDENTIAL"@.len());
}

proof fn lemma_tag_reads_back_9()
    ensures
        kind_of_tag("CREATE SCHEMA"@) == Some(ResultKind::CreateSchema),
{
    reveal_strlit("BEGIN");
    reveal_strlit("COMMIT");
    reveal_strlit("COPY");
    reveal_strlit("CREATE CREDENTIAL");
    reveal_strlit("CREATE CREDENTIALS\nDEPRECATION WARNING.USE `CREATE CREDENTIAL`.");
    reveal_strlit("CREATE DATABASE");
    reveal_strlit("CREATE SCHEMA");
    reveal_strlit("CREATE TABLE");
    reveal_strlit("CREATE TUNNEL");
    reveal_strlit("ROLLBACK");
    assert("CREATE SCHEMA"@.len() != "BEGIN"@.len());
    assert("CREATE SCHEMA"@.len() != "COMMIT"@.len());
    assert("CREATE SCHEMA"@.len() != "ROLLBACK"@.len());
    assert("CREATE SCHEMA"@.len() != "COPY"@.len());
    assert("CREATE SCHEMA"@.len() != "CREATE TABLE"@.len());
    assert("CREATE SCHEMA"@.len() != "CREATE DATABASE"@.len());
    assert("CREATE SCHEMA"@[7] != "CREATE TUNNEL"@[7]);
    assert("CREATE SCHEMA"@.len() != "CREATE CREDENTIAL"@.len());
    assert("CREATE SCHEMA"@.len() != "CREATE CREDENTIALS\nDEPRECATION WARNING.USE `CREATE CREDENTIAL`."@.len());
}

proof fn lemma_tag_reads_back_10()
    ensures
        kind_of_tag("CREATE VIEW"@) == Some(ResultKind::CreateView),
{
    reveal_strlit("BEGIN");
    reveal_strlit("COMMIT");
    reveal_strlit("COPY");
    reveal_strlit("CREATE CREDENTIAL");
    reveal_strlit("CREATE CREDENTIALS\nDEPRECATION WARNING.USE `CREATE CREDENTIAL`.");
    reveal_strlit("CREATE DATABASE");
    reveal_strlit("CREATE SCHEMA");
    reveal_strlit("CREATE TABLE");
    reveal_strlit("CREATE TUNNEL");
    reveal_strlit("CREATE VIEW");
    reveal_strlit("ROLLBACK");
    assert("CREATE VIEW"@.len() != "BEGIN"@.len());
    assert("CREATE VIEW"@.len() != "COMMIT"@.len());
    assert("CREATE VIEW"@.len() != "ROLLBACK"@.len());
    assert("CREATE VIEW"@.len() != "COPY"@.len());
    assert("CREATE VIEW"@.len() != "CREATE TABLE"@.len());
    assert("CREATE VIEW"@.len() != "CREATE DATABASE"@.len());
    assert("CREATE VIEW"@.len() != "CREATE TUNNEL"@.len());
    assert("CREATE VIEW"@.len() != "CREATE CREDENTIAL"@.len());
    assert("CREATE VIEW"@.len() != "CREATE CREDENTIALS\nDEPRECATION WARNING.USE `CREATE CREDENTIAL`."@.len());
    assert("CREATE VIEW"@.len() != "CREATE SCHEMA"@.len());
}

proof fn lemma_tag_reads_back_11()
    ensures
        kind_of_tag("ALTER TABLE"@) == Some(ResultKind::AlterTable),
{
    reveal_strlit("ALTER TABLE");
    reveal_strlit("BEGIN");
    reveal_strlit("COMMIT");
    reveal_strlit("COPY");
    reveal_strlit("CREATE CREDENTIAL");
    reveal_strlit("CREATE CREDENTIALS\nDEPRECATION WARNING.USE `CREATE CREDENTIAL`.");
    reveal_strlit("CREATE DATABASE");
    reveal_strlit("CREATE SCHEMA");
    reveal_strlit("CREATE TABLE");
    reveal_strlit("CREATE TUNNEL");
    reveal_strlit("CREATE VIEW");
    reveal_strlit("ROLLBACK");
    assert("ALTER TABLE"@.len() != "BEGIN"@.len());
    assert("ALTER TABLE"@.len() != "COMMIT"@.len());
    assert("ALTER TABLE"@.len() != "ROLLBACK"@.len());
    assert("ALTER TABLE"@.len() != "COPY"@.len());
    assert("ALTER TABLE"@.len() != "CREATE TABLE"@.len());
    assert("ALTER TABLE"@.len() != "CREATE DATABASE"@.len());
    assert("ALTER TABLE"@.len() != "CREATE TUNNEL"@.len());
    assert("ALTER TABLE"@.len() != "CREATE CREDENTIAL"@.len());
    assert("ALTER TABLE"@.len() != "CREATE CREDENTIALS\nDEPRECATION WARNING.USE `CREATE CREDENTIAL`."@.len());
    assert("ALTER TABLE"@.len() != "CREATE SCHEMA"@.len());
    assert("ALTER TABLE"@[0] != "CREATE VIEW"@[0]);
}

proof fn lemma_tag_reads_back_12()
    ensures
        kind_of_tag("ALTER DATABASE"@) == Some(ResultKind::AlterDatabase),
{
    reveal_strlit("ALTER DATABASE");
    reveal_strlit("ALTER TABLE");
    reveal_strlit("BEGIN");
    reveal_strlit("COMMIT");
    reveal_strlit("COPY");
    reveal_strlit("CREATE CREDENTIAL");
    reveal_strlit("CREATE CREDENTIALS\nDEPRECATION WARNING.USE `CREATE CREDENTIAL`.");
    reveal_strlit("CREATE DATABASE");
    reveal_strlit("CREATE SCHEMA");
    reveal_strlit("CREATE TABLE");
    reveal_strlit("CREATE TUNNEL");
    reveal_strlit("CREATE VIEW");
    reveal_strlit("ROLLBACK");
    assert("ALTER DATABASE"@.len() != "BEGIN"@.len());
    assert("ALTER DATABASE"@.len() != "COMMIT"@.len());
    assert("ALTER DATABASE"@.len() != "ROLLBACK"@.len());
    assert("ALTER DATABASE"@.len() != "COPY"@.len());
    assert("ALTER DATABASE"@.len() != "CREATE TABLE"@.len());
    assert("ALTER DATABASE"@.len() != "CREATE DATABASE"@.len());
    assert("ALTER DATABASE"@.len() != "CREATE TUNNEL"@.len());
    assert("ALTER DATABASE"@.len() != "CREATE CREDENTIAL"@.len());
    assert("ALTER DATABASE"@.len() != "CREATE CREDENTIALS\nDEPRECATION WARNING.USE `CREATE CREDENTIAL`."@.len());
    assert("ALTER DATABASE"@.len() != "CREATE SCHEMA"@.len());
    assert("ALTER DATABASE"@.len() != "CREATE VIEW"@.len());
    assert("ALTER DATABASE"@.len() != "ALTER TABLE"@.len());
}

proof fn lemma_tag_reads_back_13()
    ensures
        kind_of_tag("ALTER TUNNEL"@) == Some(ResultKind::AlterTunnelRotateKeys),
{
    reveal_strlit("ALTER DATABASE");
    reveal_strlit("ALTER TABLE");
    reveal_strlit("ALTER TUNNEL");
    reveal_strlit("BEGIN");
    reveal_strlit("COMMIT");
    reveal_strlit("COPY");
    reveal_strlit("CREATE CREDENTIAL");
    reveal_strlit("CREATE CREDENTIALS\nDEPRECATION WARNING.USE `CREATE CREDENTIAL`.");
    reveal_strlit("CREATE DATABASE");
    reveal_strlit("CREATE SCHEMA");
    reveal_strlit("CREATE TABLE");
    reveal_strlit("CREATE TUNNEL");
    reveal_strlit("CREATE VIEW");
    reveal_strlit("ROLLBACK");
    assert("ALTER TUNNEL"@.len() != "BEGIN"@.len());
    assert("ALTER TUNNEL"@.len() != "COMMIT"@.len());
    assert("ALTER TUNNEL"@.len() != "ROLLBACK"@.len());
    assert("ALTER TUNNEL"@.len() != "COPY"@.len());
    assert("ALTER TUNNEL"@[0] != "CREATE TABLE"@[0]);
    assert("ALTER TUNNEL"@.len() != "CREATE DATABASE"@.len());
    assert("ALTER TUNNEL"@.len() != "CREATE TUNNEL"@.len());
    assert("ALTER TUNNEL"@.len() != "CREATE CREDENTIAL"@.len());
    assert("ALTER TUNNEL"@.len() != "CREATE CREDENTIALS\nDEPRECATION WARNING.USE `CREATE CREDENTIAL`."@.len());
    assert("ALTER TUNNEL"@.len() != "CREATE SCHEMA"@.len());
    assert("ALTER TUNNEL"@.len() != "CREATE VIEW"@.len());
    assert("ALTER TUNNEL"@.len() != "ALTER TABLE"@.len());
    assert("ALTER TUNNEL"@.len() != "ALTER DATABASE"@.len());
}

proof fn lemma_tag_reads_back_14()
    ensures
        kind_of_tag("SET"@) == Some(ResultKind::SetVariable),
{
    reveal_strlit("ALTER DATABASE");
    reveal_strlit("ALTER TABLE");
    reveal_strlit("ALTER TUNNEL");
    reveal_strlit("BEGIN");
    reveal_strlit("COMMIT");
    reveal_strlit("COPY");
    reveal_strlit("CREATE CREDENTIAL");
    reveal_strlit("CREATE CREDENTIALS\nDEPRECATION WARNING.USE `CREATE CREDENTIAL`.");
    reveal_strlit("CREATE DATABASE");
    reveal_strlit("CREATE SCHEMA");
    reveal_strlit("CREATE TABLE");
    reveal_strlit("CREATE TUNNEL");
    reveal_strlit("CREATE VIEW");
    reveal_strlit("ROLLBACK");
    reveal_strlit("SET");
    assert("SET"@.len() != "BEGIN"@.len());
    assert("SET"@.len() != "COMMIT"@.len());
    assert("SET"@.len() != "ROLLBACK"@.len());
    assert("SET"@.len() != "COPY"@.len());
    assert("SET"@.len() != "CREATE TABLE"@.len());
    assert("SET"@.len() != "CREATE DATABASE"@.len());
    assert("SET"@.len() != "CREATE TUNNEL"@.len());
    assert("SET"@.len() != "CREATE CREDENTIAL"@.len());
    assert("SET"@.len() != "CREATE CREDENTIALS\nDEPRECATION WARNING.USE `CREATE CREDENTIAL`."@.len());
    assert("SET"@.len() != "CREATE SCHEMA"@.len());
    assert("SET"@.len() != "CREATE VIEW"@.len());
    assert("SET"@.len() != "ALTER TABLE"@.len());
    assert("SET"@.len() != "ALTER DATABASE"@.len());
    assert("SET"@.len() != "ALTER TUNNEL"@.len());
}

proof fn lemma_tag_reads_back_15()
    ensures
        kind_of_tag("DROP TABLE"@) == Some(ResultKind::DropTables),
{
    reveal_strlit("ALTER DATABASE");
    reveal_strlit("ALTER TABLE");
    reveal_strlit("ALTER TUNNEL");
    reveal_strlit("BEGIN");
    reveal_strlit("COMMIT");
    reveal_strlit("COPY");
    reveal_strlit("CREATE CREDENTIAL");
    reveal_strlit("CREATE CREDENTIALS\nDEPRECATION WARNING.USE `CREATE CREDENTIAL`.");
    reveal_strlit("CREATE DATABASE");
    reveal_strlit("CREATE SCHEMA");
    reveal_strlit("CREATE TABLE");
    reveal_strlit("CREATE TUNNEL");
    reveal_strlit("CREATE VIEW");
    reveal_strlit("DROP TABLE");
    reveal_strlit("ROLLBACK");
    reveal_strlit("SET");
    assert("DROP TABLE"@.len() != "BEGIN"@.len());
    assert("DROP TABLE"@.len() != "COMMIT"@.len());
    assert("DROP TABLE"@.len() != "ROLLBACK"@.len());
    assert("DROP TABLE"@.len() != "COPY"@.len());
    assert("DROP TABLE"@.len() != "CREATE TABLE"@.len());
    assert("DROP TABLE"@.len() != "CREATE DATABASE"@.len());
    assert("DROP TABLE"@.len() != "CREATE TUNNEL"@.len());
    assert("DROP TABLE"@.len() != "CREATE CREDENTIAL"@.len());
    assert("DROP TABLE"@.len() != "CREATE CREDENTIALS\nDEPRECATION WARNING.USE `CREATE CREDENTIAL`."@.len());
    assert("DROP TABLE"@.len() != "CREATE SCHEMA"@.len());
    assert("DROP TABLE"@.len() != "CREATE VIEW"@.len());
    assert("DROP TABLE"@.len() != "ALTER TABLE"@.len());
    assert("DROP TABLE"@.len() != "ALTER DATABASE"@.len());
    assert("DROP TABLE"@.len() != "ALTER TUNNEL"@.len());
    assert("DROP TABLE"@.len() != "SET"@.len());
}

proof fn lemma_tag_reads_back_16()
    ensures
        kind_of_tag("DROP VIEW"@) == Some(ResultKind::DropViews),
{
    reveal_strlit("ALTER DATABASE");
    reveal_strlit("ALTER TABLE");
    reveal_strlit("ALTER TUNNEL");
    reveal_strlit("BEGIN");
    reveal_strlit("COMMIT");
    reveal_strlit("COPY");
    reveal_strlit("CREATE CREDENTIAL");
    reveal_strlit("CREATE CREDENTIALS\nDEPRECATION WARNING.USE `CREATE CREDENTIAL`.");
    reveal_strlit("CREATE DATABASE");
    reveal_strlit("CREATE SCHEMA");
    reveal_strlit("CREATE TABLE");
    reveal_strlit("CREATE TUNNEL");
    reveal_strlit("CREATE VIEW");
    reveal_strlit("DROP TABLE");
    reveal_strlit("DROP VIEW");
    reveal_strlit("ROLLBACK");
    reveal_strlit("SET");
    assert("DROP VIEW"@.len() != "BEGIN"@.len());
    assert("DROP VIEW"@.len() != "COMMIT"@.len());
    assert("DROP VIEW"@.len() != "ROLLBACK"@.len());
    assert("DROP VIEW"@.len() != "COPY"@.len());
    assert("DROP VIEW"@.len() != "CREATE TABLE"@.len());
    assert("DROP VIEW"@.len() != "CREATE DATABASE"@.len());
    assert("DROP VIEW"@.len() != "CREATE TUNNEL"@.len());
    assert("DROP VIEW"@.len() != "CREATE CREDENTIAL"@.len());
    assert("DROP VIEW"@.len() != "CREATE CREDENTIALS\nDEPRECATION WARNING.USE `CREATE CREDENTIAL`."@.len());
    assert("DROP VIEW"@.len() != "CREATE SCHEMA"@.len());
    assert("DROP VIEW"@.len() != "CREATE VIEW"@.len());
    assert("DROP VIEW"@.len() != "ALTER TABLE"@.len());
    assert("DROP VIEW"@.len() != "ALTER DATABASE"@.len());
    assert("DROP VIEW"@.len() != "ALTER TUNNEL"@.len());
    assert("DROP VIEW"@.len() != "SET"@.len());
    assert("DROP VIEW"@.len() != "DROP TABLE"@.len());
}

proof fn lemma_tag_reads_back_17()
    ensures
        kind_of_tag("DROP SCHEMA"@) == Some(ResultKind::DropSchemas),
{
    reveal_strlit("ALTER DATABASE");
    reveal_strlit("ALTER TABLE");
    reveal_strlit("ALTER TUNNEL");
    reveal_strlit("BEGIN");
    reveal_strlit("COMMIT");
    reveal_strlit("COPY");
    reveal_strlit("CREATE CREDENTIAL");
    reveal_strlit("CREATE CREDENTIALS\nDEPRECATION WARNING.USE `CREATE CREDENTIAL`.");
    reveal_strlit("CREATE DATABASE");
    reveal_strlit("CREATE SCHEMA");
    reveal_strlit("CREATE TABLE");
    reveal_strlit("CREATE TUNNEL");
    reveal_strlit("CREATE VIEW");
    reveal_strlit("DROP SCHEMA");
    reveal_strlit("DROP TABLE");
    reveal_strlit("DROP VIEW");
    reveal_strlit("ROLLBACK");
    reveal_strlit("SET");
    assert("DROP SCHEMA"@.len() != "BEGIN"@.len());
    assert("DROP SCHEMA"@.len() != "COMMIT"@.len());
    assert("DROP SCHEMA"@.len() != "ROLLBACK"@.len());
    assert("DROP SCHEMA"@.len() != "COPY"@.len());
    assert("DROP SCHEMA"@.len() != "CREATE TABLE"@.len());
    assert("DROP SCHEMA"@.len() != "CREATE DATABASE"@.len());
    assert("DROP SCHEMA"@.len() != "CREATE TUNNEL"@.len());
    assert("DROP SCHEMA"@.len() != "CREATE CREDENTIAL"@.len());
    assert("DROP SCHEMA"@.len() != "CREATE CREDENTIALS\nDEPRECATION WARNING.USE `CREATE CREDENTIAL`."@.len());
    assert("DROP SCHEMA"@.len() != "CREATE SCHEMA"@.len());
    assert("DROP SCHEMA"@[0] != "CREATE VIEW"@[0]);
    assert("DROP SCHEMA"@[0] != "ALTER TABLE"@[0]);
    assert("DROP SCHEMA"@.len() != "ALTER DATABASE"@.len());
    assert("DROP SCHEMA"@.len() != "ALTER TUNNEL"@.len());
    assert("DROP SCHEMA"@.len() != "SET"@.len());
    assert("DROP SCHEMA"@.len() != "DROP TABLE"@.len());
    assert("DROP SCHEMA"@.len() != "DROP VIEW"@.len());
}

proof fn lemma_tag_reads_back_18()
    ensures
        kind_of_tag("DROP DATABASE"@) == Some(ResultKind::DropDatabase),
{
    reveal_strlit("ALTER DATABASE");
    reveal_strlit("ALTER TABLE");
    reveal_strlit("ALTER TUNNEL");
    reveal_strlit("BEGIN");
    reveal_strlit("COMMIT");
    reveal_strlit("COPY");
    reveal_strlit("CREATE CREDENTIAL");
    reveal_strlit("CREATE CREDENTIALS\nDEPRECATION WARNING.USE `CREATE CREDENTIAL`.");
    reveal_strlit("CREATE DATABASE");
    reveal_strlit("CREATE SCHEMA");
    reveal_strlit("CREATE TABLE");
    reveal_strlit("CREATE TUNNEL");
    reveal_strlit("CREATE VIEW");
    reveal_strlit("DROP DATABASE");
    reveal_strlit("DROP SCHEMA");
    reveal_strlit("DROP TABLE");
    reveal_strlit("DROP VIEW");
    reveal_strlit("ROLLBACK");
    reveal_strlit("SET");
    assert("DROP DATABASE"@.len() != "BEGIN"@.len());
    assert("DROP DATABASE"@.len() != "COMMIT"@.len());
    assert("DROP DATABASE"@.len() != "ROLLBACK"@.len());
    assert("DROP DATABASE"@.len() != "COPY"@.len());
    assert("DROP DATABASE"@.len() != "CREATE TABLE"@.len());
    assert("DROP DATABASE"@.len() != "CREATE DATABASE"@.len());
    assert("DROP DATABASE"@[0] != "CREATE TUNNEL"@[0]);
    assert("DROP DATABASE"@.len() != "CREATE CREDENTIAL"@.len());
    assert("DROP DATABASE"@.len() != "CREATE CREDENTIALS\nDEPRECATION WARNING.USE `CREATE CREDENTIAL`."@.len());
    assert("DROP DATABASE"@[0] != "CREATE SCHEMA"@[0]);
    assert("DROP DATABASE"@.len() != "CREATE VIEW"@.len());
    assert("DROP DATABASE"@.len() != "ALTER TABLE"@.len());
    assert("DROP DATABASE"@.len() != "ALTER DATABASE"@.len());
    assert("DROP DATABASE"@.len() != "ALTER TUNNEL"@.len());
    assert("DROP DATABASE"@.len() != "SET"@.len());
    assert("DROP DATABASE"@.len() != "DROP TABLE"@.len());
    assert("DROP DATABASE"@.len() != "DROP VIEW"@.len());
    assert("DROP DATABASE"@.len() != "DROP SCHEMA"@.len());
}

proof fn lemma_tag_reads_back_19()
    ensures
        kind_of_tag("DROP TUNNEL"@) == Some(ResultKind::DropTunnel),
{
    reveal_strlit("ALTER DATABASE");
    reveal_strlit("ALTER TABLE");
    reveal_strlit("ALTER TUNNEL");
    reveal_strlit("BEGIN");
    reveal_strlit("COMMIT");
    reveal_strlit("COPY");
    reveal_strlit("CREATE CREDENTIAL");
    reveal_strlit("CREATE CREDENTIALS\nDEPRECATION WARNING.USE `CREATE CREDENTIAL`.");
    reveal_strlit("CREATE DATABASE");
    reveal_strlit("CREATE SCHEMA");
    reveal_strlit("CREATE TABLE");
    reveal_strlit("CREATE TUNNEL");
    reveal_strlit("CREATE VIEW");
    reveal_strlit("DROP DATABASE");
    reveal_strlit("DROP SCHEMA");
    reveal_strlit("DROP TABLE");
    reveal_strlit("DROP TUNNEL");
    reveal_strlit("DROP VIEW");
    reveal_strlit("ROLLBACK");
    reveal_strlit("SET");
    assert("DROP TUNNEL"@.len() != "BEGIN"@.len());
    assert("DROP TUNNEL"@.len() != "COMMIT"@.len());
    assert("DROP TUNNEL"@.len() != "ROLLBACK"@.len());
    assert("DROP TUNNEL"@.len() != "COPY"@.len());
    assert("DROP TUNNEL"@.len() != "CREATE TABLE"@.len());
    assert("DROP TUNNEL"@.len() != "CREATE DATABASE"@.len());
    assert("DROP TUNNEL"@.len() != "CREATE TUNNEL"@.len());
    assert("DROP TUNNEL"@.len() != "CREATE CREDENTIAL"@.len());
    assert("DROP TUNNEL"@.len() != "CREATE CREDENTIALS\nDEPRECATION WARNING.USE `CREATE CREDENTIAL`."@.len());
    assert("DROP TUNNEL"@.len() != "CREATE SCHEMA"@.len());
    assert("DROP TUNNEL"@[0] != "CREATE VIEW"@[0]);
    assert("DROP TUNNEL"@[0] != "ALTER TABLE"@[0]);
    assert("DROP TUNNEL"@.len() != "ALTER DATABASE"@.len());
    assert("DROP TUNNEL"@.len() != "ALTER TUNNEL"@.len());
    assert("DROP TUNNEL"@.len() != "SET"@.len());
    assert("DROP TUNNEL"@.len() != "DROP TABLE"@.len());
    assert("DROP TUNNEL"@.len() != "DROP VIEW"@.len());
    assert("DROP TUNNEL"@[5] != "DROP SCHEMA"@[5]);
    assert("DROP TUNNEL"@.len() != "DROP DATABASE"@.len());
}

proof fn lemma_tag_reads_back_20()
    ensures
        kind_of_tag("DROP CREDENTIALS"@) == Some(ResultKind::DropCredentials),
{
    reveal_strlit("ALTER DATABASE");
    reveal_strlit("ALTER TABLE");
    reveal_strlit("ALTER TUNNEL");
    reveal_strlit("BEGIN");
    reveal_strlit("COMMIT");
    reveal_strlit("COPY");
    reveal_strlit("CREATE CREDENTIAL");
    reveal_strlit("CREATE CREDENTIALS\nDEPRECATION WARNING.USE `CREATE CREDENTIAL`.");
    reveal_strlit("CREATE DATABASE");
    reveal_strlit("CREATE SCHEMA");
    reveal_strlit("CREATE TABLE");
    reveal_strlit("CREATE TUNNEL");
    reveal_strlit("CREATE VIEW");
    reveal_strlit("DROP CREDENTIALS");
    reveal_strlit("DROP DATABASE");
    reveal_strlit("DROP SCHEMA");
    reveal_strlit("DROP TABLE");
    reveal_strlit("DROP TUNNEL");
    reveal_strlit("DROP VIEW");
    reveal_strlit("ROLLBACK");
    reveal_strlit("SET");
    assert("DROP CREDENTIALS"@.len() != "BEGIN"@.len());
    assert("DROP CREDENTIALS"@.len() != "COMMIT"@.len());
    assert("DROP CREDENTIALS"@.len() != "ROLLBACK"@.len());
    assert("DROP CREDENTIALS"@.len() != "COPY"@.len());
    assert("DROP CREDENTIALS"@.len() != "CREATE TABLE"@.len());
    assert("DROP CREDENTIALS"@.len() != "CREATE DATABASE"@.len());
    assert("DROP CREDENTIALS"@.len() != "CREATE TUNNEL"@.len());
    assert("DROP CREDENTIALS"@.len() != "CREATE CREDENTIAL"@.len());
    assert("DROP CREDENTIALS"@.len() != "CREATE CREDENTIALS\nDEPRECATION WARNING.USE `CREATE CREDENTIAL`."@.len());
    assert("DROP CREDENTIALS"@.len() != "CREATE SCHEMA"@.len());
    assert("DROP CREDENTIALS"@.len() != "CREATE VIEW"@.len());
    assert("DROP CREDENTIALS"@.len() != "ALTER TABLE"@.len());
    assert("DROP CREDENTIALS"@.len() != "ALTER DATABASE"@.len());
    assert("DROP CREDENTIALS"@.len() != "ALTER TUNNEL"@.len());
    assert("DROP CREDENTIALS"@.len() != "SET"@.len());
    assert("DROP CREDENTIALS"@.len() != "DROP TABLE"@.len());
    assert("DROP CREDENTIALS"@.len() != "DROP VIEW"@.len());
    assert("DROP CREDENTIALS"@.len() != "DROP SCHEMA"@.len());
    assert("DROP CREDENTIALS"@.len() != "DROP DATABASE"@.len());
    assert("DROP CREDENTIALS"@.len() != "DROP TUNNEL"@.len());
}

/// A tag that starts with `S`, `I`, `D` or `U`, is longer than three
/// characters and whose second character is not `R` is no fixed tag.
proof fn lemma_not_fixed_tag(t: Seq<char>)
    requires
        t.len() > 3,
        t[0] == 'S' || t[0] == 'I' || t[0] == 'D' || t[0] == 'U',
        t[1] != 'R',
    ensures
        fixed_tag_kind(t) is None,
{
    reveal_strlit("BEGIN");
    reveal_strlit("COMMIT");
    reveal_strlit("ROLLBACK");
    reveal_strlit("COPY");
    reveal_strlit("CREATE TABLE");
    reveal_strlit("CREATE DATABASE");
    reveal_strlit("CREATE TUNNEL");
    reveal_strlit("CREATE CREDENTIAL");
    reveal_strlit("CREATE CREDENTIALS\nDEPRECATION WARNING.USE `CREATE CREDENTIAL`.");
    reveal_strlit("CREATE SCHEMA");
    reveal_strlit("CREATE VIEW");
    reveal_strlit("ALTER TABLE");
    reveal_strlit("ALTER DATABASE");
    reveal_strlit("ALTER TUNNEL");
    reveal_strlit("SET");
    reveal_strlit("DROP TABLE");
    reveal_strlit("DROP VIEW");
    reveal_strlit("DROP SCHEMA");
    reveal_strlit("DROP DATABASE");
    reveal_strlit("DROP TUNNEL");
    reveal_strlit("DROP CREDENTIALS");
    assert(t != "BEGIN"@);
    assert(t != "COMMIT"@);
    assert(t != "ROLLBACK"@);
    assert(t != "COPY"@);
    assert(t != "CREATE TABLE"@);
    assert(t != "CREATE DATABASE"@);
    assert(t != "CREATE TUNNEL"@);
    assert(t != "CREATE CREDENTIAL"@);
    assert(t != "CREATE CREDENTIALS\nDEPRECATION WARNING.USE `CREATE CREDENTIAL`."@);
    assert(t != "CREATE SCHEMA"@);
    assert(t != "CREATE VIEW"@);
    assert(t != "ALTER TABLE"@);
    assert(t != "ALTER DATABASE"@);
    assert(t != "ALTER TUNNEL"@);
    assert(t != "SET"@);
    assert(t != "DROP TABLE"@);
    assert(t != "DROP VIEW"@);
    assert(t != "DROP SCHEMA"@);
    assert(t != "DROP DATABASE"@);
    assert(t != "DROP TUNNEL"@);
    assert(t != "DROP CREDENTIALS"@);
}

proof fn lemma_tag_reads_back(k: ResultKind)
    ensures
        result_tag(k) matches Some(t) ==> kind_of_tag(t) == Some(k),
{
    reveal_strlit("SELECT ");
    reveal_strlit("INSERT 0 ");
    reveal_strlit("DELETE ");
    reveal_strlit("UPDATE ");
    match k {
        ResultKind::Query { num_rows } => {
            lemma_counted_tag("SELECT "@, num_rows as nat);
            let t = "SELECT "@ + dec(num_rows as int);
            assert(t[0] == 'S' && t[1] == 'E');
            lemma_not_fixed_tag(t);
        },
        ResultKind::InsertSuccess { rows_inserted } => {
            lemma_counted_tag("INSERT 0 "@, rows_inserted as nat);
            let t = "INSERT 0 "@ + dec(rows_inserted as int);
            assert(t[0] == 'I' && t[1] == 'N');
            lemma_not_fixed_tag(t);
            assert(!counted_tag(t, "SELECT "@)) by {
                assert(t.take(7)[0] != "SELECT "@[0]);
            }
        },
        ResultKind::DeleteSuccess { deleted_rows } => {
            lemma_counted_tag("DELETE "@, deleted_rows as nat);
            let t = "DELETE "@ + dec(deleted_rows as int);
            assert(t[0] == 'D' && t[1] == 'E');
            lemma_not_fixed_tag(t);
            assert(!counted_tag(t, "SELECT "@)) by {
                assert(t.take(7)[0] != "SELECT "@[0]);
            }
            assert(!counted_tag(t, "INSERT 0 "@)) by {
                if t.len() > 9 {
                    assert(t.take(9)[0] != "INSERT 0 "@[0]);
                }
            }
        },
        ResultKind::UpdateSuccess { updated_rows } => {
            lemma_counted_tag("UPDATE "@, updated_rows as nat);
            let t = "UPDATE "@ + dec(updated_rows as int);
            assert(t[0] == 'U' && t[1] == 'P');
            lemma_not_fixed_tag(t);
            assert(!counted_tag(t, "SELECT "@)) by {
                assert(t.take(7)[0] != "SELECT "@[0]);
            }
            assert(!counted_tag(t, "INSERT 0 "@)) by {
                if t.len() > 9 {
                    assert(t.take(9)[0] != "INSERT 0 "@[0]);
                }
            }
            assert(!counted_tag(t, "DELETE "@)) by {
                assert(t.take(7)[0] != "DELETE "@[0]);
            }
        },
        ResultKind::Begin => lemma_tag_reads_back_0(),
        ResultKind::Commit => lemma_tag_reads_back_1(),
        ResultKind::Rollback => lemma_tag_reads_back_2(),
        ResultKind::CopySuccess => lemma_tag_reads_back_3(),
        ResultKind::CreateTable => lemma_tag_reads_back_4(),
        ResultKind::CreateDatabase => lemma_tag_reads_back_5(),
        ResultKind::CreateTunnel => lemma_tag_reads_back_6(),
        ResultKind::CreateCredential => lemma_tag_reads_back_7(),
        ResultKind::CreateCredentials => lemma_tag_reads_back_8(),
        ResultKind::CreateSchema => lemma_tag_reads_back_9(),
        ResultKind::CreateView => lemma_tag_reads_back_10(),
        ResultKind::AlterTable => lemma_tag_reads_back_11(),
        ResultKind::AlterDatabase => lemma_tag_reads_back_12(),
        ResultKind::AlterTunnelRotateKeys => lemma_tag_reads_back_13(),
        ResultKind::SetVariable => lemma_tag_reads_back_14(),
        ResultKind::DropTables => lemma_tag_reads_back_15(),
        ResultKind::DropViews => lemma_tag_reads_back_16(),
        ResultKind::DropSchemas => lemma_tag_reads_back_17(),
        ResultKind::DropDatabase => lemma_tag_reads_back_18(),
        ResultKind::DropTunnel => lemma_tag_reads_back_19(),
        ResultKind::DropCredentials => lemma_tag_reads_back_20(),
        ResultKind::EmptyQuery => {},
    }
}

/// `prefix` followed by `n` in decimal.
fn number_text(prefix: &str, n: usize) -> (s: String)
    ensures
        s@ == prefix@ + dec(n as int),
{
    let mut v = chars_of(prefix);
    let mut d = fmt_u128(n as u128);
    v.append(&mut d);
    string_from_chars(v.as_slice())
}

/// An owned copy of a string.
fn literal_string(t: &str) -> (s: String)
    ensures
        s@ == t@,
{
    t.to_owned()
}

/// The `CommandComplete` tag for a result: `SELECT n`, `INSERT 0 n`,
/// `DELETE n`, `UPDATE n` or the statement's fixed tag; None for an empty
/// query.
pub fn command_tag(k: &ResultKind) -> (r: Option<String>)
    ensures
        match r {
            Some(t) => result_tag(*k) == Some(t@),
            None => result_tag(*k) is None,
        },
{
    match k {
            ResultKind::Query { num_rows } => Some(number_text("SELECT ", *num_rows)),
            ResultKind::InsertSuccess { rows_inserted } => Some(number_text("INSERT 0 ", *rows_inserted)),
            ResultKind::DeleteSuccess { deleted_rows } => Some(number_text("DELETE ", *deleted_rows)),
            ResultKind::UpdateSuccess { updated_rows } => Some(number_text("UPDATE ", *updated_rows)),
            ResultKind::EmptyQuery => None,
            ResultKind::Begin => Some(literal_string("BEGIN")),
            ResultKind::Commit => Some(literal_string("COMMIT")),
            ResultKind::Rollback => Some(literal_string("ROLLBACK")),
            ResultKind::CopySuccess => Some(literal_string("COPY")),
            ResultKind::CreateTable => Some(literal_string("CREATE TABLE")),
            ResultKind::CreateDatabase => Some(literal_string("CREATE DATABASE")),
            ResultKind::CreateTunnel => Some(literal_string("CREATE TUNNEL")),
            ResultKind::CreateCredential => Some(literal_string("CREATE CREDENTIAL")),
            ResultKind::CreateCredentials => Some(literal_string("CREATE CREDENTIALS\nDEPRECATION WARNING.USE `CREATE CREDENTIAL`.")),
            ResultKind::CreateSchema => Some(literal_string("CREATE SCHEMA")),
            ResultKind::CreateView => Some(literal_string("CREATE VIEW")),
            ResultKind::AlterTable => Some(literal_string("ALTER TABLE")),
            ResultKind::AlterDatabase => Some(literal_string("ALTER DATABASE")),
            ResultKind::AlterTunnelRotateKeys => Some(literal_string("ALTER TUNNEL")),
            ResultKind::SetVariable => Some(literal_string("SET")),
            ResultKind::DropTables => Some(literal_string("DROP TABLE")),
            ResultKind::DropViews => Some(literal_string("DROP VIEW")),
            ResultKind::DropSchemas => Some(literal_string("DROP SCHEMA")),
            ResultKind::DropDatabase => Some(literal_string("DROP DATABASE")),
            ResultKind::DropTunnel => Some(literal_string("DROP TUNNEL")),
            ResultKind::DropCredentials => Some(literal_string("DROP CREDENTIALS")),
    }
}

/// The transaction state after an error: an error inside a transaction
/// block fails the transaction; elsewhere the state is kept.
pub open spec fn status_after_error(s: TransactionStatus) -> TransactionStatus {
    if s == TransactionStatus::InBlock {
        TransactionStatus::Failed
    } else {
        s
    }
}

/// The transaction state after a statement ran: `BEGIN` opens a block,
/// `COMMIT` and `ROLLBACK` close it; other statements keep the state.
pub open spec fn status_after_result(s: TransactionStatus, k: ResultKind) -> TransactionStatus {
    match k {
        ResultKind::Begin => TransactionStatus::InBlock,
        ResultKind::Commit | ResultKind::Rollback => TransactionStatus::Idle,
        _ => s,
    }
}

/// The transaction state after an error.
pub fn after_error(s: TransactionStatus) -> (r: TransactionStatus)
    ensures
        r == status_after_error(s),
{
    match s {
        TransactionStatus::InBlock => TransactionStatus::Failed,
        other => other,
    }
}

/// The transaction state after a statement ran.
pub fn after_result(s: TransactionStatus, k: &ResultKind) -> (r: TransactionStatus)
    ensures
        r == status_after_result(s, *k),
{
    match k {
        ResultKind::Begin => TransactionStatus::InBlock,
        ResultKind::Commit | ResultKind::Rollback => TransactionStatus::Idle,
        _ => s,
    }
}

/// Whether a statement is refused because the transaction failed: in the
/// failed state only statements that end the transaction are run.
pub fn rejects_statement(s: TransactionStatus, sql: &str) -> (r: bool)
    ensures
        r == (s == TransactionStatus::Failed && !ends_transaction(sql@)),
{
    match s {
        TransactionStatus::Failed => !ends_failed_transaction(sql),
        _ => false,
    }
}

/// The message sent for a statement refused in a failed transaction.
pub open spec fn failed_transaction_message() -> Seq<char> {
    "current transaction is aborted, commands ignored until end of transaction block"@
}

/// The error sent for a statement refused in a failed transaction.
pub fn failed_transaction_error() -> (e: ErrorResponse)
    ensures
        e.severity == ErrorSeverity::Error,
        e.code == SqlState::InFailedTransaction,
        e.message@ == failed_transaction_message(),
{
    ErrorResponse::error(
        SqlState::InFailedTransaction,
        literal_string("current transaction is aborted, commands ignored until end of transaction block"),
    )
}

/// A failed transaction stays failed through errors and refuses every
/// statement but one that ends it; ending it with `COMMIT` or `ROLLBACK`
/// returns to idle.
pub proof fn lemma_failed_transaction_gate(sql: Seq<char>, k: ResultKind)
    ensures
        status_after_error(TransactionStatus::Failed) == TransactionStatus::Failed,
        (TransactionStatus::Failed == TransactionStatus::Failed && !ends_transaction(sql))
            <==> !ends_transaction(sql),
        (k == ResultKind::Commit || k == ResultKind::Rollback) ==> status_after_result(
            TransactionStatus::Failed,
            k,
        ) == TransactionStatus::Idle,
{
}

/// `BEGIN` opens a block, an error inside it fails the transaction, and
/// `ROLLBACK` or `COMMIT` then returns to idle.
pub proof fn lemma_transaction_cycle(s: TransactionStatus)
    ensures
        status_after_result(s, ResultKind::Begin) == TransactionStatus::InBlock,
        status_after_error(status_after_result(s, ResultKind::Begin))
            == TransactionStatus::Failed,
        status_after_result(
            status_after_error(status_after_result(s, ResultKind::Begin)),
            ResultKind::Rollback,
        ) == TransactionStatus::Idle,
        status_after_result(
            status_after_error(status_after_result(s, ResultKind::Begin)),
            ResultKind::Commit,
        ) == TransactionStatus::Idle,
        status_after_error(TransactionStatus::Idle) == TransactionStatus::Idle,
{
}

/// What to do with a startup message.
#[derive(Debug, Clone, Copy, PartialEq, Eq, Structural)]
pub enum StartupAction {
    /// Run the protocol with the startup parameters.
    Begin,
    /// Reply `S` and switch the connection to TLS.
    AcceptSsl,
    /// Reply `N` and keep the connection as it is.
    RejectSsl,
    /// Route a cancel request to the registry and close the connection.
    Cancel { process_id: i32, secret_key: i32 },
}

/// The action for a startup message; an SSL request is accepted only when
/// TLS is configured and the connection is not already encrypted.
pub fn startup_action(msg: &StartupMessage, ssl_available: bool) -> (r: StartupAction)
    ensures
        match *msg {
            StartupMessage::StartupRequest { .. } => r == StartupAction::Begin,
            StartupMessage::SSLRequest { .. } => r == if ssl_available {
                StartupAction::AcceptSsl
            } else {
                StartupAction::RejectSsl
            },
            StartupMessage::CancelRequest { process_id, secret_key, .. } => r
                == StartupAction::Cancel { process_id, secret_key },
        },
{
    match msg {
        StartupMessage::StartupRequest { .. } => StartupAction::Begin,
        StartupMessage::SSLRequest { .. } => if ssl_available {
            StartupAction::AcceptSsl
        } else {
            StartupAction::RejectSsl
        },
        StartupMessage::CancelRequest { process_id, secret_key, .. } => StartupAction::Cancel {
            process_id: *process_id,
            secret_key: *secret_key,
        },
    }
}

/// The byte answering an SSL request: `S` when accepted, `N` otherwise.
pub fn ssl_reply(accept: bool) -> (b: u8)
    ensures
        b == if accept { 83u8 } else { 78u8 },
{
    if accept {
        83
    } else {
        78
    }
}

/// The view of a map of strings.
pub open spec fn text_map(m: Map<Seq<char>, String>) -> Map<Seq<char>, Seq<char>> {
    m.map_values(|v: String| v@)
}

/// The tag a portal completes with when it was bound to a housekeeping
/// statement.
pub open spec fn portal_completion(portal_tags: Map<Seq<char>, Seq<char>>, portal: Seq<char>) -> Option<
    Seq<char>,
> {
    if portal_tags.contains_key(portal) {
        Some(portal_tags[portal])
    } else {
        None
    }
}

/// Whether executing a portal is refused: the transaction failed and the
/// portal's statement is not known to end it.
pub open spec fn portal_refused(
    portal_stmt: Map<Seq<char>, Seq<char>>,
    stmt_sql: Map<Seq<char>, Seq<char>>,
    portal: Seq<char>,
    status: TransactionStatus,
) -> bool {
    status == TransactionStatus::Failed && !(portal_stmt.contains_key(portal)
        && stmt_sql.contains_key(portal_stmt[portal]) && ends_transaction(
        stmt_sql[portal_stmt[portal]],
    ))
}

/// What to do with an `Execute` message.
#[derive(Debug)]
pub enum ExecuteDecision {
    /// Answer with `CommandComplete` and this tag without running anything.
    Complete(String),
    /// Answer with the failed-transaction error.
    Refuse,
    /// Run the portal.
    Run,
}

/// The per-session records of the extended-query protocol: the SQL text and
/// housekeeping tag of each prepared statement, and the statement and tag of
/// each portal.
pub struct StatementBook {
    stmt_tags: StringHashMap<String>,
    portal_tags: StringHashMap<String>,
    stmt_sql: StringHashMap<String>,
    portal_stmt: StringHashMap<String>,
}

impl StatementBook {
    /// Housekeeping tag of each statement that has one.
    pub closed spec fn statement_tags(&self) -> Map<Seq<char>, Seq<char>> {
        text_map(self.stmt_tags@)
    }

    /// Housekeeping tag of each portal bound to a housekeeping statement.
    pub closed spec fn portal_tags(&self) -> Map<Seq<char>, Seq<char>> {
        text_map(self.portal_tags@)
    }

    /// SQL text of each prepared statement.
    pub closed spec fn statement_sql(&self) -> Map<Seq<char>, Seq<char>> {
        text_map(self.stmt_sql@)
    }

    /// Statement each portal was bound to.
    pub closed spec fn portal_statements(&self) -> Map<Seq<char>, Seq<char>> {
        text_map(self.portal_stmt@)
    }

    /// Empty records.
    pub fn new() -> (r: StatementBook)
        ensures
            r.statement_tags() == Map::<Seq<char>, Seq<char>>::empty(),
            r.portal_tags() == Map::<Seq<char>, Seq<char>>::empty(),
            r.statement_sql() == Map::<Seq<char>, Seq<char>>::empty(),
            r.portal_statements() == Map::<Seq<char>, Seq<char>>::empty(),
    {
        let r = StatementBook {
            stmt_tags: StringHashMap::new(),
            portal_tags: StringHashMap::new(),
            stmt_sql: StringHashMap::new(),
            portal_stmt: StringHashMap::new(),
        };
        assert(text_map(r.stmt_tags@) =~= Map::<Seq<char>, Seq<char>>::empty());
        assert(text_map(r.portal_tags@) =~= Map::<Seq<char>, Seq<char>>::empty());
        assert(text_map(r.stmt_sql@) =~= Map::<Seq<char>, Seq<char>>::empty());
        assert(text_map(r.portal_stmt@) =~= Map::<Seq<char>, Seq<char>>::empty());
        r
    }

    /// Records a parsed statement: its SQL text, and its tag when it is a
    /// housekeeping statement.
    pub fn record_parse(&mut self, name: &str, sql: &str, tag: Option<&'static str>)
        ensures
            final(self).statement_sql() == old(self).statement_sql().insert(name@, sql@),
            final(self).statement_tags() == match tag {
                Some(t) => old(self).statement_tags().insert(name@, t@),
                None => old(self).statement_tags(),
            },
            final(self).portal_tags() == old(self).portal_tags(),
            final(self).portal_statements() == old(self).portal_statements(),
    {
        self.stmt_sql.insert(name.to_owned(), sql.to_owned());
        assert(text_map(self.stmt_sql@) =~= text_map(old(self).stmt_sql@).insert(name@, sql@));
        match tag {
            Some(t) => {
                self.stmt_tags.insert(name.to_owned(), t.to_owned());
                assert(text_map(self.stmt_tags@) =~= text_map(old(self).stmt_tags@).insert(
                    name@,
                    t@,
                ));
            },
            None => {},
        }
    }

    /// Records a bound portal: its statement, and the statement's tag when
    /// it has one.
    pub fn record_bind(&mut self, portal: &str, statement: &str)
        ensures
            final(self).portal_statements() == old(self).portal_statements().insert(
                portal@,
                statement@,
            ),
            final(self).portal_tags() == if old(self).statement_tags().contains_key(statement@) {
                old(self).portal_tags().insert(portal@, old(self).statement_tags()[statement@])
            } else {
                old(self).portal_tags()
            },
            final(self).statement_tags() == old(self).statement_tags(),
            final(self).statement_sql() == old(self).statement_sql(),
    {
        match self.stmt_tags.get(statement) {
            Some(t) => {
                let tag = t.clone();
                self.portal_tags.insert(portal.to_owned(), tag);
                assert(text_map(self.portal_tags@) =~= text_map(old(self).portal_tags@).insert(
                    portal@,
                    text_map(old(self).stmt_tags@)[statement@],
                ));
            },
            None => {},
        }
        self.portal_stmt.insert(portal.to_owned(), statement.to_owned());
        assert(text_map(self.portal_stmt@) =~= text_map(old(self).portal_stmt@).insert(
            portal@,
            statement@,
        ));
    }

    /// Decides an `Execute`: a portal of a housekeeping statement completes
    /// with its tag; in a failed transaction any other portal is refused
    /// unless its SQL ends the transaction; otherwise the portal runs.
    pub fn execute_decision(&self, portal: &str, status: TransactionStatus) -> (r: ExecuteDecision)
        ensures
            match portal_completion(self.portal_tags(), portal@) {
                Some(t) => r matches ExecuteDecision::Complete(s) && s@ == t,
                None => if portal_refused(
                    self.portal_statements(),
                    self.statement_sql(),
                    portal@,
                    status,
                ) {
                    r is Refuse
                } else {
                    r is Run
                },
            },
    {
        match self.portal_tags.get(portal) {
            Some(t) => {
                return ExecuteDecision::Complete(t.clone());
            },
            None => {},
        }
        match status {
            TransactionStatus::Failed => {
                let allow = match self.portal_stmt.get(portal) {
                    Some(stmt) => match self.stmt_sql.get(stmt.as_str()) {
                        Some(sql) => ends_failed_transaction(sql.as_str()),
                        None => false,
                    },
                    None => false,
                };
                if allow {
                    ExecuteDecision::Run
                } else {
                    ExecuteDecision::Refuse
                }
            },
            _ => ExecuteDecision::Run,
        }
    }

    /// Forgets a closed statement or portal.
    pub fn record_close(&mut self, object_type: DescribeObjectType, name: &str)
        ensures
            object_type == DescribeObjectType::Statement ==> {
                &&& final(self).statement_tags() == old(self).statement_tags().remove(name@)
                &&& final(self).statement_sql() == old(self).statement_sql().remove(name@)
                &&& final(self).portal_tags() == old(self).portal_tags()
                &&& final(self).portal_statements() == old(self).portal_statements()
            },
            object_type == DescribeObjectType::Portal ==> {
                &&& final(self).portal_tags() == old(self).portal_tags().remove(name@)
                &&& final(self).portal_statements() == old(self).portal_statements().remove(name@)
                &&& final(self).statement_tags() == old(self).statement_tags()
                &&& final(self).statement_sql() == old(self).statement_sql()
            },
    {
        match object_type {
            DescribeObjectType::Statement => {
                self.stmt_tags.remove(name);
                self.stmt_sql.remove(name);
                assert(text_map(self.stmt_tags@) =~= text_map(old(self).stmt_tags@).remove(name@));
                assert(text_map(self.stmt_sql@) =~= text_map(old(self).stmt_sql@).remove(name@));
            },
            DescribeObjectType::Portal => {
                self.portal_tags.remove(name);
                self.portal_stmt.remove(name);
                assert(text_map(self.portal_tags@) =~= text_map(old(self).portal_tags@).remove(
                    name@,
                ));
                assert(text_map(self.portal_stmt@) =~= text_map(old(self).portal_stmt@).remove(
                    name@,
                ));
            },
        }
    }
}

/// A housekeeping statement that is parsed, bound to a portal and executed
/// completes with its tag, whatever the transaction state.
pub proof fn lemma_housekeeping_round_trip(
    stmt_tags: Map<Seq<char>, Seq<char>>,
    portal_tags: Map<Seq<char>, Seq<char>>,
    name: Seq<char>,
    portal: Seq<char>,
    tag: Seq<char>,
)
    ensures
        ({
            let st = stmt_tags.insert(name, tag);
            let pt = if st.contains_key(name) {
                portal_tags.insert(portal, st[name])
            } else {
                portal_tags
            };
            portal_completion(pt, portal) == Some(tag)
        }),
{
}

/// A closed portal no longer completes from a recorded tag.
pub proof fn lemma_closed_portal_forgotten(portal_tags: Map<Seq<char>, Seq<char>>, portal: Seq<char>)
    ensures
        portal_completion(portal_tags.remove(portal), portal) is None,
{
}

/// In a failed transaction, a portal bound to a statement whose SQL ends the
/// transaction is run.
pub proof fn lemma_failed_transaction_allows_end(
    portal_stmt: Map<Seq<char>, Seq<char>>,
    stmt_sql: Map<Seq<char>, Seq<char>>,
    portal: Seq<char>,
    statement: Seq<char>,
    sql: Seq<char>,
)
    requires
        ends_transaction(sql),
    ensures
        !portal_refused(
            portal_stmt.insert(portal, statement),
            stmt_sql.insert(statement, sql),
            portal,
            TransactionStatus::Failed,
        ),
{
}

/// A `Parse` message carries at most one statement; more are refused with
/// an internal error.
pub fn check_single_statement(num_statements: usize) -> (r: Result<(), ErrorResponse>)
    ensures
        num_statements <= 1 ==> r is Ok,
        num_statements > 1 ==> (r matches Err(e) && e.severity == ErrorSeverity::Error && e.code
            == SqlState::InternalError && e.message@ == "cannot parse multiple statements"@),
{
    if num_statements > 1 {
        Err(ErrorResponse::error_internal(literal_string("cannot parse multiple statements")))
    } else {
        Ok(())
    }
}

/// Configuration of the protocol handler: the authenticator, the TLS
/// configuration when TLS is offered, and whether the server runs for
/// integration tests.
pub struct ProtocolHandlerConfig<A, S> {
    pub authenticator: A,
    pub ssl_conf: Option<S>,
    pub integration_testing: bool,
}

/// The Postgres protocol in front of an engine, with the registry of the
/// sessions that cancel requests can reach.
pub struct ProtocolHandler<E, A, S> {
    pub engine: E,
    pub conf: ProtocolHandlerConfig<A, S>,
    pub cancel_registry: CancelRegistry,
}

impl<E, A, S> ProtocolHandler<E, A, S> {
    /// A handler with no session registered.
    pub fn new(engine: E, conf: ProtocolHandlerConfig<A, S>) -> (h: ProtocolHandler<E, A, S>)
        ensures
            h.engine == engine,
            h.conf == conf,
            h.cancel_registry@ == Map::<i32, CancelEntry>::empty(),
    {
        ProtocolHandler { engine, conf, cancel_registry: CancelRegistry::new() }
    }

    /// Whether the server runs for integration tests.
    pub fn is_integration_testing_enabled(&self) -> (r: bool)
        ensures
            r == self.conf.integration_testing,
    {
        self.conf.integration_testing
    }

    /// Whether an SSL request on a plain connection is accepted: only when
    /// TLS is configured.
    pub fn ssl_available(&self, already_encrypted: bool) -> (r: bool)
        ensures
            r == (!already_encrypted && self.conf.ssl_conf is Some),
    {
        !already_encrypted && self.conf.ssl_conf.is_some()
    }
}

/// The state of one client connection: its transport, its engine session,
/// the transaction state reported in every `ReadyForQuery`, and the records
/// of the extended-query protocol.
pub struct ClientSession<C, S> {
    pub conn: C,
    pub session: S,
    pub tx_status: TransactionStatus,
    pub book: StatementBook,
}

impl<C, S> ClientSession<C, S> {
    /// A session outside any transaction, with nothing prepared.
    pub fn new(session: S, conn: C) -> (cs: ClientSession<C, S>)
        ensures
            cs.session == session,
            cs.conn == conn,
            cs.tx_status == TransactionStatus::Idle,
            cs.book.statement_tags() == Map::<Seq<char>, Seq<char>>::empty(),
            cs.book.portal_tags() == Map::<Seq<char>, Seq<char>>::empty(),
            cs.book.statement_sql() == Map::<Seq<char>, Seq<char>>::empty(),
            cs.book.portal_statements() == Map::<Seq<char>, Seq<char>>::empty(),
    {
        ClientSession { conn, session, tx_status: TransactionStatus::Idle, book: StatementBook::new() }
    }

    /// Records that an error is being sent: an error inside a transaction
    /// block fails the transaction.
    pub fn note_error(&mut self)
        ensures
            final(self).tx_status == status_after_error(old(self).tx_status),
            final(self).book == old(self).book,
            final(self).conn == old(self).conn,
            final(self).session == old(self).session,
    {
        self.tx_status = after_error(self.tx_status);
    }

    /// Sends an error to the client: records the error (an error inside a
    /// transaction block fails the transaction) and gives the one message to
    /// send on the connection, the error response itself.
    pub fn send_error<B>(&mut self, err: ErrorResponse) -> (m: BackendMessage<B>)
        ensures
            final(self).tx_status == status_after_error(old(self).tx_status),
            final(self).book == old(self).book,
            final(self).conn == old(self).conn,
            final(self).session == old(self).session,
            m == BackendMessage::<B>::ErrorResponse(err),
    {
        self.note_error();
        BackendMessage::ErrorResponse(err)
    }

    /// Records that a statement ran with this result.
    pub fn note_result(&mut self, k: &ResultKind)
        ensures
            final(self).tx_status == status_after_result(old(self).tx_status, *k),
            final(self).book == old(self).book,
            final(self).conn == old(self).conn,
            final(self).session == old(self).session,
    {
        self.tx_status = after_result(self.tx_status, k);
    }
}

} // verus!
