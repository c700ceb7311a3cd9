//! `information_schema._pg_expandarray`: one row `(x, n)` per element of a
//! space-separated `int2vector` text, `n` counting from 1.
use vstd::prelude::*;

use crate::text::{
    chars_of, lemma_chars_le_bytes, lemma_encode_utf8_len_concat, lemma_utf8_offset_step, string_from_chars,
    utf8_offset, utf8_width_exec,
};
use crate::vars::{i16_setting, parse_i16};

verus! {

/// Longest input accepted, in bytes.
pub const MAX_INPUT_BYTES: usize = 4096;

/// Errors of the table function.
#[derive(Debug)]
pub enum ExpandArrayError {
    /// The function takes exactly one argument.
    InvalidNumArgs,
    /// A message, such as the one for an input that is too long.
    String(String),
    /// A token is not an `int2`.
    InvalidParamValue { param: String, expected: &'static str },
}

/// Where a table function runs.
#[derive(Debug, Clone, Copy, PartialEq, Eq, Structural)]
pub enum RuntimePreference {
    Unspecified,
    Local,
    Remote,
    Inherit,
}

/// The table function `_pg_expandarray`.
#[derive(Debug, Clone, Copy)]
pub struct PgExpandArray;

/// ASCII white space, as `str::split_ascii_whitespace` splits on it.
pub open spec fn is_ascii_ws(c: char) -> bool {
    c == ' ' || c == '\t' || c == '\n' || c == '\u{0c}' || c == '\r'
}

/// The tokens completed so far and the token under way, reading `s` from
/// the start.
pub open spec fn tokens_acc(s: Seq<char>) -> (Seq<Seq<char>>, Seq<char>)
    decreases s.len(),
{
    if s.len() == 0 {
        (Seq::empty(), Seq::empty())
    } else {
        let (ts, cur) = tokens_acc(s.drop_last());
        if is_ascii_ws(s.last()) {
            if cur.len() > 0 {
                (ts.push(cur), Seq::empty())
            } else {
                (ts, Seq::empty())
            }
        } else {
            (ts, cur.push(s.last()))
        }
    }
}

/// The non-empty runs of `s` between ASCII white space, in order.
pub open spec fn ascii_tokens(s: Seq<char>) -> Seq<Seq<char>> {
    let (ts, cur) = tokens_acc(s);
    if cur.len() > 0 {
        ts.push(cur)
    } else {
        ts
    }
}

/// Index of the first token that is not an `int2`, or the number of tokens.
pub open spec fn first_bad_token(ts: Seq<Seq<char>>) -> int
    decreases ts.len(),
{
    if ts.len() == 0 {
        0
    } else if first_bad_token(ts.drop_last()) < ts.len() - 1 {
        first_bad_token(ts.drop_last())
    } else if i16_setting(ts.last()) is None {
        ts.len() - 1
    } else {
        ts.len() as int
    }
}

/// The message for an input that is too long.
pub open spec fn too_long_message() -> Seq<char> {
    "_pg_expandarray input exceeds 4096 bytes"@
}

impl PgExpandArray {
    pub fn name(&self) -> (r: &'static str)
        ensures
            r@ == "_pg_expandarray"@,
    {
        "_pg_expandarray"
    }

    pub fn description(&self) -> (r: &'static str)
        ensures
            r@ == "Expand a space-separated int2vector text into (x int2, n int4) rows."@,
    {
        "Expand a space-separated int2vector text into (x int2, n int4) rows."
    }

    pub fn example(&self) -> (r: &'static str)
        ensures
            r@ == "SELECT * FROM information_schema._pg_expandarray('23 25 1043')"@,
    {
        "SELECT * FROM information_schema._pg_expandarray('23 25 1043')"
    }

    /// An unspecified runtime becomes local; any other is kept.
    pub fn detect_runtime(&self, parent: RuntimePreference) -> (r: RuntimePreference)
        ensures
            r == if parent == RuntimePreference::Unspecified {
                RuntimePreference::Local
            } else {
                parent
            },
    {
        match parent {
            RuntimePreference::Unspecified => RuntimePreference::Local,
            other => other,
        }
    }

    /// The rows for the arguments: exactly one text argument of at most
    /// [`MAX_INPUT_BYTES`] bytes, whose tokens between ASCII white space
    /// must all be `int2` values; row `k` holds the value of token `k` and
    /// `k + 1`.
    pub fn expand(&self, args: &[String]) -> (r: Result<Vec<(i16, i32)>, ExpandArrayError>)
        ensures
            args.len() != 1 ==> r matches Err(ExpandArrayError::InvalidNumArgs),
            args.len() == 1 ==> ({
                let s = args[0]@;
                let ts = ascii_tokens(s);
                if vstd::utf8::encode_utf8(s).len() > MAX_INPUT_BYTES {
                    r matches Err(ExpandArrayError::String(m)) && m@ == too_long_message()
                } else if first_bad_token(ts) < ts.len() {
                    r matches Err(ExpandArrayError::InvalidParamValue { param, expected }) && param@
                        == ts[first_bad_token(ts)] && expected@ == "int2"@
                } else {
                    r matches Ok(rows) && rows.len() == ts.len() && forall|k: int|
                        0 <= k < rows.len() ==> Some(#[trigger] rows@[k].0) == i16_setting(ts[k])
                            && rows@[k].1 == k + 1
                }
            }),
    {
        if args.len() != 1 {
            return Err(ExpandArrayError::InvalidNumArgs);
        }
        expand_text(args[0].as_str())
    }
}

proof fn lemma_tokens_acc_len(s: Seq<char>)
    ensures
        tokens_acc(s).0.len() + (if tokens_acc(s).1.len() > 0 { 1int } else { 0int }) <= s.len(),
    decreases s.len(),
{
    if s.len() > 0 {
        lemma_tokens_acc_len(s.drop_last());
    }
}

proof fn lemma_first_bad_bounds(ts: Seq<Seq<char>>)
    ensures
        0 <= first_bad_token(ts) <= ts.len(),
        first_bad_token(ts) == ts.len() ==> forall|k: int|
            0 <= k < ts.len() ==> #[trigger] i16_setting(ts[k]) is Some,
        first_bad_token(ts) < ts.len() ==> i16_setting(ts[first_bad_token(ts)]) is None,
    decreases ts.len(),
{
    if ts.len() > 0 {
        lemma_first_bad_bounds(ts.drop_last());
        assert forall|k: int| 0 <= k < ts.len() - 1 implies ts[k] == ts.drop_last()[k] by {}
    }
}

/// `p` is a prefix of `q`.
pub open spec fn prefix_of(p: Seq<Seq<char>>, q: Seq<Seq<char>>) -> bool {
    p.len() <= q.len() && forall|k: int| 0 <= k < p.len() ==> #[trigger] p[k] == q[k]
}

proof fn lemma_tokens_acc_extends(s: Seq<char>, j: int)
    requires
        0 <= j <= s.len(),
    ensures
        prefix_of(tokens_acc(s.take(j)).0, tokens_acc(s).0),
    decreases s.len() - j,
{
    if j < s.len() {
        lemma_tokens_acc_extends(s, j + 1);
        assert(s.take(j + 1).drop_last() =~= s.take(j));
        let a = tokens_acc(s.take(j)).0;
        let b = tokens_acc(s.take(j + 1)).0;
        let c = tokens_acc(s).0;
        assert(prefix_of(a, b));
        assert forall|k: int| 0 <= k < a.len() implies #[trigger] a[k] == c[k] by {
            assert(a[k] == b[k]);
            assert(b[k] == c[k]);
        }
    } else {
        assert(s.take(j) =~= s);
    }
}

proof fn lemma_first_bad_prefix(p: Seq<Seq<char>>, q: Seq<Seq<char>>)
    requires
        prefix_of(p, q),
        first_bad_token(p) < p.len(),
    ensures
        first_bad_token(q) == first_bad_token(p),
    decreases q.len(),
{
    lemma_first_bad_bounds(p);
    if q.len() > p.len() {
        assert(prefix_of(p, q.drop_last()));
        lemma_first_bad_prefix(p, q.drop_last());
    } else {
        assert(p =~= q);
    }
}

proof fn lemma_bad_token_stops(s: Seq<char>, i: int)
    requires
        0 <= i < s.len(),
        is_ascii_ws(s[i]),
        tokens_acc(s.take(i)).1.len() > 0,
        first_bad_token(tokens_acc(s.take(i)).0) == tokens_acc(s.take(i)).0.len(),
        i16_setting(tokens_acc(s.take(i)).1) is None,
    ensures
        ({
            let ts = tokens_acc(s.take(i)).0;
            let all = ascii_tokens(s);
            &&& ts.len() < all.len()
            &&& first_bad_token(all) == ts.len()
            &&& all[ts.len() as int] == tokens_acc(s.take(i)).1
        }),
{
    let ts = tokens_acc(s.take(i)).0;
    let cur = tokens_acc(s.take(i)).1;
    let after = s.take(i + 1);
    assert(after.drop_last() =~= s.take(i));
    let nts = ts.push(cur);
    assert(tokens_acc(after).0 == nts);
    assert(nts.drop_last() =~= ts);
    assert(first_bad_token(nts) == ts.len());
    lemma_tokens_acc_extends(s, i + 1);
    let all = ascii_tokens(s);
    let mid = tokens_acc(s).0;
    assert(prefix_of(mid, all));
    assert forall|k: int| 0 <= k < nts.len() implies #[trigger] nts[k] == all[k] by {
        assert(nts[k] == mid[k]);
        assert(mid[k] == all[k]);
    }
    lemma_first_bad_prefix(nts, all);
    assert(all[ts.len() as int] == nts[ts.len() as int]);
}

/// Whether the UTF-8 encoding of the characters is longer than `limit`
/// bytes.
fn utf8_len_exceeds(s: &[char], limit: usize) -> (r: bool)
    requires
        limit < 0x1_0000_0000,
    ensures
        r == (vstd::utf8::encode_utf8(s@).len() > limit),
{
    let mut acc: u64 = 0;
    let mut k: usize = 0;
    proof {
        assert(s@.take(0) =~= Seq::<char>::empty());
        assert(vstd::utf8::encode_utf8(Seq::<char>::empty()) =~= Seq::<u8>::empty());
    }
    while k < s.len()
        invariant
            k <= s.len(),
            limit < 0x1_0000_0000,
            acc == utf8_offset(s@, k as int),
            acc <= limit,
        decreases s.len() - k,
    {
        proof {
            lemma_utf8_offset_step(s@, k as int);
        }
        acc = acc + utf8_width_exec(s[k]) as u64;
        k = k + 1;
        if acc > limit as u64 {
            proof {
                let full = s@;
                assert(full =~= full.take(k as int) + full.skip(k as int));
                lemma_encode_utf8_len_concat(full.take(k as int), full.skip(k as int));
            }
            return true;
        }
    }
    assert(s@.take(s.len() as int) =~= s@);
    false
}

/// Parses one token, extending the rows.
fn take_token(rows: &mut Vec<(i16, i32)>, tok: &Vec<char>) -> (r: Result<(), ExpandArrayError>)
    requires
        old(rows).len() < 4096,
    ensures
        match i16_setting(tok@) {
            Some(x) => r is Ok && final(rows)@ == old(rows)@.push((x, (old(rows).len() + 1) as i32)),
            None => r matches Err(ExpandArrayError::InvalidParamValue { param, expected }) && param@
                == tok@ && expected@ == "int2"@,
        },
{
    let t = string_from_chars(tok.as_slice());
    match parse_i16(t.as_str()) {
        Some(x) => {
            let n = (rows.len() + 1) as i32;
            rows.push((x, n));
            Ok(())
        },
        None => Err(ExpandArrayError::InvalidParamValue { param: t, expected: "int2" }),
    }
}

/// The rows for one text argument.
pub fn expand_text(raw: &str) -> (r: Result<Vec<(i16, i32)>, ExpandArrayError>)
    ensures
        ({
            let s = raw@;
            let ts = ascii_tokens(s);
            if vstd::utf8::encode_utf8(s).len() > MAX_INPUT_BYTES {
                r matches Err(ExpandArrayError::String(m)) && m@ == too_long_message()
            } else if first_bad_token(ts) < ts.len() {
                r matches Err(ExpandArrayError::InvalidParamValue { param, expected }) && param@
                    == ts[first_bad_token(ts)] && expected@ == "int2"@
            } else {
                r matches Ok(rows) && rows.len() == ts.len() && forall|k: int|
                    0 <= k < rows.len() ==> Some(#[trigger] rows@[k].0) == i16_setting(ts[k])
                        && rows@[k].1 == k + 1
            }
        }),
{
    let s = chars_of(raw);
    if utf8_len_exceeds(s.as_slice(), MAX_INPUT_BYTES) {
        return Err(ExpandArrayError::String("_pg_expandarray input exceeds 4096 bytes".to_owned()));
    }
    proof {
        lemma_chars_le_bytes(raw@);
    }
    let mut rows: Vec<(i16, i32)> = Vec::new();
    let mut cur: Vec<char> = Vec::new();
    let mut i: usize = 0;
    while i < s.len()
        invariant
            i <= s.len(),
            s@ == raw@,
            s.len() <= 4096,
            vstd::utf8::encode_utf8(raw@).len() <= MAX_INPUT_BYTES,
            ({
                let (ts, c) = tokens_acc(s@.take(i as int));
                &&& cur@ == c
                &&& first_bad_token(ts) == ts.len()
                &&& rows.len() == ts.len()
                &&& forall|k: int|
                    0 <= k < rows.len() ==> Some(#[trigger] rows@[k].0) == i16_setting(ts[k])
                        && rows@[k].1 == k + 1
            }),
        decreases s.len() - i,
    {
        let ghost before = s@.take(i as int);
        let ghost after = s@.take(i + 1);
        proof {
            assert(after.drop_last() =~= before);
            lemma_tokens_acc_len(before);
        }
        let c = s[i];
        if c == ' ' || c == '\t' || c == '\n' || c == '\u{0c}' || c == '\r' {
            if cur.len() > 0 {
                let ghost old_rows = rows@;
                let ghost ts = tokens_acc(before).0;
                match take_token(&mut rows, &cur) {
                    Ok(()) => {},
                    Err(e) => {
                        proof {
                            lemma_bad_token_stops(s@, i as int);
                            let all = ascii_tokens(raw@);
                            assert(first_bad_token(all) < all.len());
                            assert(all[first_bad_token(all)] == cur@);
                            assert(!(vstd::utf8::encode_utf8(raw@).len() > MAX_INPUT_BYTES));
                            assert(e matches ExpandArrayError::InvalidParamValue { param, expected }
                                && param@ == cur@);
                        }
                        return Err(e);
                    },
                }
                proof {
                    let nts = ts.push(cur@);
                    assert(nts.drop_last() =~= ts);
                    assert forall|k: int| 0 <= k < rows.len() implies Some(#[trigger] rows@[k].0)
                        == i16_setting(nts[k]) && rows@[k].1 == k + 1 by {
                        if k < old_rows.len() {
                            assert(rows@[k] == old_rows[k]);
                        }
                    }
                }
                cur = Vec::new();
            }
        } else {
            cur.push(c);
        }
        i = i + 1;
    }
    proof {
        assert(s@.take(s.len() as int) =~= s@);
        lemma_tokens_acc_len(s@);
    }
    if cur.len() > 0 {
        let ghost ts = tokens_acc(s@).0;
        let ghost old_rows = rows@;
        match take_token(&mut rows, &cur) {
            Ok(()) => {},
            Err(e) => {
                proof {
                    let nts = ts.push(cur@);
                    assert(nts.drop_last() =~= ts);
                    assert(ascii_tokens(s@) == nts);
                    assert(first_bad_token(nts) == ts.len());
                }
                return Err(e);
            },
        }
        proof {
            let nts = ts.push(cur@);
            assert(nts.drop_last() =~= ts);
            assert forall|k: int| 0 <= k < rows.len() implies Some(#[trigger] rows@[k].0)
                == i16_setting(nts[k]) && rows@[k].1 == k + 1 by {
                if k < old_rows.len() {
                    assert(rows@[k] == old_rows[k]);
                }
            }
        }
    }
    Ok(rows)
}

} // verus!
