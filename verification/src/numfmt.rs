//! Decimal rendering of integers, specified on `Seq<char>`.
use vstd::prelude::*;

verus! {

/// The character of a decimal digit.
pub open spec fn digit_char(d: int) -> char {
    if d == 0 {
        '0'
    } else if d == 1 {
        '1'
    } else if d == 2 {
        '2'
    } else if d == 3 {
        '3'
    } else if d == 4 {
        '4'
    } else if d == 5 {
        '5'
    } else if d == 6 {
        '6'
    } else if d == 7 {
        '7'
    } else if d == 8 {
        '8'
    } else {
        '9'
    }
}

/// Decimal digits of `n`, most significant first, without leading zeros
/// ("0" for zero).
pub open spec fn digits(n: nat) -> Seq<char>
    decreases n,
{
    if n < 10 {
        seq![digit_char(n as int)]
    } else {
        digits(n / 10).push(digit_char((n % 10) as int))
    }
}

/// Decimal rendering of an integer, with a leading '-' when negative.
pub open spec fn dec(x: int) -> Seq<char> {
    if x < 0 {
        seq!['-'] + digits((-x) as nat)
    } else {
        digits(x as nat)
    }
}

/// `s` left-padded with '0' to at least `w` characters.
pub open spec fn zero_pad(s: Seq<char>, w: int) -> Seq<char> {
    if s.len() >= w {
        s
    } else {
        Seq::new((w - s.len()) as nat, |i: int| '0') + s
    }
}

pub fn digit_char_exec(d: u128) -> (c: char)
    requires
        d < 10,
    ensures
        c == digit_char(d as int),
{
    if d == 0 {
        '0'
    } else if d == 1 {
        '1'
    } else if d == 2 {
        '2'
    } else if d == 3 {
        '3'
    } else if d == 4 {
        '4'
    } else if d == 5 {
        '5'
    } else if d == 6 {
        '6'
    } else if d == 7 {
        '7'
    } else if d == 8 {
        '8'
    } else {
        '9'
    }
}

/// Decimal digits of an unsigned value.
pub fn fmt_u128(n: u128) -> (v: Vec<char>)
    ensures
        v@ == digits(n as nat),
    decreases n,
{
    if n < 10 {
        let mut v: Vec<char> = Vec::new();
        v.push(digit_char_exec(n));
        assert(v@ =~= seq![digit_char(n as int)]);
        v
    } else {
        let mut v = fmt_u128(n / 10);
        v.push(digit_char_exec(n % 10));
        v
    }
}

/// Decimal rendering of a signed value.
pub fn fmt_i128(x: i128) -> (v: Vec<char>)
    ensures
        v@ == dec(x as int),
{
    if x < 0 {
        let mag: u128 = ((-(x + 1)) as u128) + 1;
        let d = fmt_u128(mag);
        let mut v: Vec<char> = Vec::new();
        v.push('-');
        let mut i: usize = 0;
        while i < d.len()
            invariant
                i <= d.len(),
                v@ == seq!['-'] + d@.take(i as int),
            decreases d.len() - i,
        {
            v.push(d[i]);
            i = i + 1;
            assert(v@ =~= seq!['-'] + d@.take(i as int));
        }
        assert(d@.take(d.len() as int) =~= d@);
        v
    } else {
        fmt_u128(x as u128)
    }
}

/// `s` left-padded with '0' to at least `w` characters.
pub fn zero_pad_chars(s: &[char], w: usize) -> (v: Vec<char>)
    ensures
        v@ == zero_pad(s@, w as int),
{
    let mut v: Vec<char> = Vec::new();
    if s.len() < w {
        let mut k: usize = 0;
        while k < w - s.len()
            invariant
                s.len() < w,
                k <= w - s.len(),
                v@ == Seq::new(k as nat, |i: int| '0'),
            decreases w - s.len() - k,
        {
            v.push('0');
            k = k + 1;
            assert(v@ =~= Seq::new(k as nat, |i: int| '0'));
        }
    }
    let ghost pre = v@;
    let mut i: usize = 0;
    while i < s.len()
        invariant
            i <= s.len(),
            v@ == pre + s@.take(i as int),
        decreases s.len() - i,
    {
        v.push(s[i]);
        i = i + 1;
        assert(v@ =~= pre + s@.take(i as int));
    }
    assert(s@.take(s.len() as int) =~= s@);
    assert(v@ =~= zero_pad(s@, w as int));
    v
}

} // verus!
