//! Values of session variables: how each kind of value is read from the
//! text of a `SET` and written back for `SHOW` and `ParameterStatus`.
use vstd::prelude::*;

use uuid::Uuid;

use crate::handler::uuid_bytes;
use crate::notice::NoticeSeverity;
use crate::numfmt::{dec, digits, fmt_i128, fmt_u128};
use crate::text::{is_text, lower_chars, lower_seq, string_from_chars};
use crate::writer::hex_pairs;

verus! {

/// The query language of a session.
#[derive(Debug, Clone, Copy, PartialEq, Eq, Structural)]
pub enum Dialect {
    Sql,
    Prql,
}

/// A kind of session-variable value.
pub trait Value: Sized {
    /// Whether the text `s` reads as the value `v`.
    spec fn parses_to(s: Seq<char>, v: Self) -> bool;

    /// Whether the text `s` reads as no value at all.
    spec fn rejects(s: Seq<char>) -> bool;

    /// The text of a value.
    spec fn formatted(&self) -> Seq<char>;

    /// Reads a value from its text.
    fn try_parse(s: &str) -> (r: Option<Self>)
        ensures
            match r {
                Some(v) => Self::parses_to(s@, v),
                None => Self::rejects(s@),
            },
    ;

    /// Writes a value as text.
    fn format(&self) -> (r: String)
        ensures
            r@ == self.formatted(),
    ;
}

impl Value for String {
    open spec fn parses_to(s: Seq<char>, v: String) -> bool {
        v@ == s
    }

    open spec fn rejects(s: Seq<char>) -> bool {
        false
    }

    open spec fn formatted(&self) -> Seq<char> {
        self@
    }

    fn try_parse(s: &str) -> (r: Option<String>) {
        Some(s.to_owned())
    }

    fn format(&self) -> (r: String) {
        self.clone()
    }
}

/// The boolean that a lower-cased setting names, as Postgres reads
/// booleans: `t`, `true`, `on`, `yes`, `1` and `f`, `false`, `off`, `no`,
/// `0`.
pub open spec fn bool_setting(l: Seq<char>) -> Option<bool> {
    if l == "t"@ || l == "true"@ || l == "on"@ || l == "yes"@ || l == "1"@ {
        Some(true)
    } else if l == "f"@ || l == "false"@ || l == "off"@ || l == "no"@ || l == "0"@ {
        Some(false)
    } else {
        None
    }
}

impl Value for bool {
    open spec fn parses_to(s: Seq<char>, v: bool) -> bool {
        bool_setting(lower_seq(s)) == Some(v)
    }

    open spec fn rejects(s: Seq<char>) -> bool {
        bool_setting(lower_seq(s)) is None
    }

    open spec fn formatted(&self) -> Seq<char> {
        if *self {
            "on"@
        } else {
            "off"@
        }
    }

    /// Reads a boolean in any letter case.
    fn try_parse(s: &str) -> (r: Option<bool>) {
        let l = lower_chars(crate::text::chars_of(s).as_slice());
        let t = l.as_slice();
        if is_text(t, "t") || is_text(t, "true") || is_text(t, "on") || is_text(t, "yes") || is_text(t, "1") {
            Some(true)
        } else if is_text(t, "f") || is_text(t, "false") || is_text(t, "off") || is_text(t, "no")
            || is_text(t, "0") {
            Some(false)
        } else {
            None
        }
    }

    /// `on` or `off`, as Postgres writes boolean settings.
    fn format(&self) -> (r: String) {
        if *self {
            "on".to_owned()
        } else {
            "off".to_owned()
        }
    }
}

/// Whether a character is an ASCII decimal digit.
pub open spec fn is_digit(c: char) -> bool {
    '0' <= c && c <= '9'
}

/// The value of a string of decimal digits.
pub open spec fn digits_value(s: Seq<char>) -> int
    decreases s.len(),
{
    if s.len() == 0 {
        0
    } else {
        digits_value(s.drop_last()) * 10 + (s.last() as int - 48)
    }
}

/// Whether every character of `s` is an ASCII decimal digit.
pub open spec fn all_digits(s: Seq<char>) -> bool {
    forall|i: int| 0 <= i < s.len() ==> is_digit(#[trigger] s[i])
}

/// The integer a text reads as in base 10: an optional `+` (or `-` when
/// `signed`) followed by one or more ASCII digits and nothing else.
pub open spec fn decimal_value(s: Seq<char>, signed: bool) -> Option<int> {
    let neg = signed && s.len() > 0 && s[0] == '-';
    let body = if s.len() > 0 && (s[0] == '+' || neg) {
        s.drop_first()
    } else {
        s
    };
    if body.len() > 0 && all_digits(body) {
        Some(
            if neg {
                -digits_value(body)
            } else {
                digits_value(body)
            },
        )
    } else {
        None
    }
}

/// The `i32` a text reads as, when it is a decimal integer in range.
pub open spec fn i32_setting(s: Seq<char>) -> Option<i32> {
    match decimal_value(s, true) {
        Some(v) => if i32::MIN <= v <= i32::MAX {
            Some(v as i32)
        } else {
            None
        },
        None => None,
    }
}

/// The `usize` a text reads as, when it is a decimal integer in range.
pub open spec fn usize_setting(s: Seq<char>) -> Option<usize> {
    match decimal_value(s, false) {
        Some(v) => if 0 <= v <= usize::MAX {
            Some(v as usize)
        } else {
            None
        },
        None => None,
    }
}

/// The `i16` a text reads as, when it is a decimal integer in range.
pub open spec fn i16_setting(s: Seq<char>) -> Option<i16> {
    match decimal_value(s, true) {
        Some(v) => if i16::MIN <= v <= i16::MAX {
            Some(v as i16)
        } else {
            None
        },
        None => None,
    }
}

/// A decimal `i16`. Trusted: calls std's `str::parse::<i16>`, which accepts
/// an optional `+` or `-` sign followed by ASCII digits, and fails on
/// anything else or on a value out of range.
#[verifier::external_body]
pub(crate) fn parse_i16(s: &str) -> (r: Option<i16>)
    ensures
        r == i16_setting(s@),
{
    s.parse::<i16>().ok()
}

/// A decimal `i32`. Trusted: calls std's `str::parse::<i32>`, which accepts
/// an optional `+` or `-` sign followed by ASCII digits, and fails on
/// anything else or on a value out of range.
#[verifier::external_body]
fn parse_i32(s: &str) -> (r: Option<i32>)
    ensures
        r == i32_setting(s@),
{
    s.parse::<i32>().ok()
}

/// A decimal `usize`. Trusted: calls std's `str::parse::<usize>`, which
/// accepts an optional `+` sign followed by ASCII digits, and fails on
/// anything else or on a value out of range.
#[verifier::external_body]
fn parse_usize(s: &str) -> (r: Option<usize>)
    ensures
        r == usize_setting(s@),
{
    s.parse::<usize>().ok()
}

impl Value for i32 {
    open spec fn parses_to(s: Seq<char>, v: i32) -> bool {
        i32_setting(s) == Some(v)
    }

    open spec fn rejects(s: Seq<char>) -> bool {
        i32_setting(s) is None
    }

    open spec fn formatted(&self) -> Seq<char> {
        dec(*self as int)
    }

    fn try_parse(s: &str) -> (r: Option<i32>) {
        parse_i32(s)
    }

    fn format(&self) -> (r: String) {
        let v = fmt_i128(*self as i128);
        string_from_chars(v.as_slice())
    }
}

impl Value for usize {
    open spec fn parses_to(s: Seq<char>, v: usize) -> bool {
        usize_setting(s) == Some(v)
    }

    open spec fn rejects(s: Seq<char>) -> bool {
        usize_setting(s) is None
    }

    open spec fn formatted(&self) -> Seq<char> {
        dec(*self as int)
    }

    fn try_parse(s: &str) -> (r: Option<usize>) {
        parse_usize(s)
    }

    fn format(&self) -> (r: String) {
        let v = fmt_u128(*self as u128);
        string_from_chars(v.as_slice())
    }
}

impl Value for Dialect {
    open spec fn parses_to(s: Seq<char>, v: Dialect) -> bool {
        (s == "sql"@ && v == Dialect::Sql) || (s == "prql"@ && v == Dialect::Prql)
    }

    open spec fn rejects(s: Seq<char>) -> bool {
        s != "sql"@ && s != "prql"@
    }

    open spec fn formatted(&self) -> Seq<char> {
        match *self {
            Dialect::Sql => "sql"@,
            Dialect::Prql => "prql"@,
        }
    }

    /// `sql` or `prql`, in lower case only.
    fn try_parse(s: &str) -> (r: Option<Dialect>) {
        let c = crate::text::chars_of(s);
        if is_text(c.as_slice(), "sql") {
            Some(Dialect::Sql)
        } else if is_text(c.as_slice(), "prql") {
            Some(Dialect::Prql)
        } else {
            None
        }
    }

    fn format(&self) -> (r: String) {
        match self {
            Dialect::Sql => "sql".to_owned(),
            Dialect::Prql => "prql".to_owned(),
        }
    }
}

impl Value for NoticeSeverity {
    open spec fn parses_to(s: Seq<char>, v: NoticeSeverity) -> bool {
        NoticeSeverity::from_name(s) == Some(v)
    }

    open spec fn rejects(s: Seq<char>) -> bool {
        NoticeSeverity::from_name(s) is None
    }

    open spec fn formatted(&self) -> Seq<char> {
        self.name()
    }

    fn try_parse(s: &str) -> (r: Option<NoticeSeverity>) {
        match NoticeSeverity::from_str(s) {
            Ok(v) => Some(v),
            Err(_) => None,
        }
    }

    fn format(&self) -> (r: String) {
        self.as_str().to_owned()
    }
}

/// The UUID that `uuid::Uuid::parse_str` reads from a text, if any.
pub uninterp spec fn uuid_parsed(s: Seq<char>) -> Option<Uuid>;

/// The hyphenated form of 16 bytes: lower-case hexadecimal in groups of 4,
/// 2, 2, 2 and 6 bytes separated by `-`.
pub open spec fn uuid_hyphenated(b: Seq<u8>) -> Seq<char> {
    hex_pairs(b.subrange(0, 4)) + seq!['-'] + hex_pairs(b.subrange(4, 6)) + seq!['-'] + hex_pairs(
        b.subrange(6, 8),
    ) + seq!['-'] + hex_pairs(b.subrange(8, 10)) + seq!['-'] + hex_pairs(b.subrange(10, 16))
}

/// A UUID read from text. Trusted: calls `uuid::Uuid`'s `FromStr`, that is
/// `Uuid::parse_str`, which accepts the simple, hyphenated, URN and braced
/// forms; what it reads is named, not stated.
#[verifier::external_body]
pub(crate) fn parse_uuid(s: &str) -> (r: Option<Uuid>)
    ensures
        r == uuid_parsed(s@),
{
    s.parse::<Uuid>().ok()
}

/// The text of a UUID. Trusted: calls `to_string` through `uuid::Uuid`'s
/// `Display`, which writes the hyphenated lower-case form of its bytes.
#[verifier::external_body]
fn uuid_string(u: &Uuid) -> (r: String)
    ensures
        r@ == uuid_hyphenated(uuid_bytes(*u)),
{
    u.to_string()
}

impl Value for Uuid {
    open spec fn parses_to(s: Seq<char>, v: Uuid) -> bool {
        uuid_parsed(s) == Some(v)
    }

    open spec fn rejects(s: Seq<char>) -> bool {
        uuid_parsed(s) is None
    }

    open spec fn formatted(&self) -> Seq<char> {
        uuid_hyphenated(uuid_bytes(*self))
    }

    fn try_parse(s: &str) -> (r: Option<Uuid>) {
        parse_uuid(s)
    }

    fn format(&self) -> (r: String) {
        uuid_string(self)
    }
}

/// An optional setting: its text is that of the value, and `None` is written
/// as `None`. Text always reads as a present value, or as nothing at all.
impl<V: Value> Value for Option<V> {
    open spec fn parses_to(s: Seq<char>, v: Option<V>) -> bool {
        v matches Some(x) && V::parses_to(s, x)
    }

    open spec fn rejects(s: Seq<char>) -> bool {
        V::rejects(s)
    }

    open spec fn formatted(&self) -> Seq<char> {
        match self {
            Some(v) => v.formatted(),
            None => "None"@,
        }
    }

    fn try_parse(s: &str) -> (r: Option<Option<V>>) {
        match V::try_parse(s) {
            Some(v) => Some(Some(v)),
            None => None,
        }
    }

    fn format(&self) -> (r: String) {
        match self {
            Some(v) => v.format(),
            None => "None".to_owned(),
        }
    }
}

/// A boolean setting written out reads back as the same boolean.
pub proof fn lemma_bool_round_trip(b: bool)
    ensures
        <bool as Value>::parses_to(b.formatted(), b),
{
    reveal_strlit("on");
    reveal_strlit("off");
    reveal_strlit("t");
    reveal_strlit("true");
    reveal_strlit("yes");
    reveal_strlit("1");
    reveal_strlit("f");
    reveal_strlit("false");
    reveal_strlit("no");
    reveal_strlit("0");
    if b {
        assert(lower_seq("on"@) =~= "on"@);
        assert(bool_setting("on"@) == Some(true));
    } else {
        assert(lower_seq("off"@) =~= "off"@);
        assert("off"@[0] != "yes"@[0]);
        assert(bool_setting("off"@) == Some(false));
    }
}

/// A dialect written out reads back as the same dialect.
pub proof fn lemma_dialect_round_trip(d: Dialect)
    ensures
        <Dialect as Value>::parses_to(d.formatted(), d),
{
    reveal_strlit("sql");
    reveal_strlit("prql");
}

proof fn lemma_digit_char_value(d: int)
    requires
        0 <= d < 10,
    ensures
        is_digit(crate::numfmt::digit_char(d)),
        crate::numfmt::digit_char(d) as int - 48 == d,
{
}

pub proof fn lemma_digits_read_back(m: nat)
    ensures
        digits(m).len() > 0,
        forall|i: int| 0 <= i < digits(m).len() ==> is_digit(#[trigger] digits(m)[i]),
        digits_value(digits(m)) == m,
    decreases m,
{
    if m < 10 {
        lemma_digit_char_value(m as int);
        assert(digits(m).drop_last() =~= Seq::<char>::empty());
        assert(digits_value(digits(m).drop_last()) == 0);
        assert(digits_value(digits(m)) == digits_value(digits(m).drop_last()) * 10 + (
        digits(m).last() as int - 48));
    } else {
        lemma_digits_read_back(m / 10);
        lemma_digit_char_value((m % 10) as int);
        let s = digits(m);
        assert(s.drop_last() =~= digits(m / 10));
        assert forall|i: int| 0 <= i < s.len() implies is_digit(#[trigger] s[i]) by {
            if i < s.len() - 1 {
                assert(s[i] == digits(m / 10)[i]);
            }
        }
        assert((m / 10) * 10 + m % 10 == m) by (nonlinear_arith);
        assert(digits_value(s) == digits_value(digits(m / 10)) * 10 + (m % 10));
    }
}

/// An `i32` setting written out reads back as the same number.
pub proof fn lemma_i32_round_trip(n: i32)
    ensures
        <i32 as Value>::parses_to(n.formatted(), n),
{
    if n < 0 {
        let m = (-(n as int)) as nat;
        lemma_digits_read_back(m);
        let s = dec(n as int);
        assert(s.drop_first() =~= digits(m));
        assert(s[0] == '-');
    } else {
        let m = n as nat;
        lemma_digits_read_back(m);
        let s = dec(n as int);
        assert(is_digit(s[0]));
    }
}

/// A `usize` setting written out reads back as the same number.
pub proof fn lemma_usize_round_trip(n: usize)
    ensures
        <usize as Value>::parses_to(n.formatted(), n),
{
    lemma_digits_read_back(n as nat);
    assert(is_digit(dec(n as int)[0]));
}

/// A notice severity written out reads back as the same severity.
pub proof fn lemma_notice_severity_setting_round_trip(v: NoticeSeverity)
    ensures
        <NoticeSeverity as Value>::parses_to(v.formatted(), v),
{
    crate::notice::lemma_notice_severity_name_round_trip(v);
}

/// An optional number written out reads back as the same number; `None`
/// is written as `None`, which reads as no number at all.
pub proof fn lemma_optional_usize_round_trip(v: Option<usize>)
    ensures
        v matches Some(n) ==> <Option<usize> as Value>::parses_to(v.formatted(), v),
        v is None ==> <Option<usize> as Value>::rejects(v.formatted()),
{
    match v {
        Some(n) => lemma_usize_round_trip(n),
        None => {
            reveal_strlit("None");
            let s = "None"@;
            assert(!is_digit(s[0]));
        },
    }
}

} // verus!
