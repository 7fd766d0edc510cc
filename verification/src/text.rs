//! Text helpers with exact contracts: conversion between strings and character
//! vectors, joining, decimal numbers and replacement of a pattern.
use vstd::prelude::*;
use vstd::string::*;

verus! {

/// The views of the strings of `v`, in order.
pub open spec fn views_of(v: Seq<String>) -> Seq<Seq<char>> {
    Seq::new(v.len(), |i: int| v[i]@)
}

/// The characters of each of `v`, in order.
pub open spec fn strs_of(v: Seq<&str>) -> Seq<Seq<char>> {
    Seq::new(v.len(), |i: int| v[i]@)
}

/// `parts` concatenated with `sep` between each two neighbours.
pub open spec fn join_spec(parts: Seq<Seq<char>>, sep: Seq<char>) -> Seq<char>
    decreases parts.len(),
{
    if parts.len() == 0 {
        Seq::empty()
    } else if parts.len() == 1 {
        parts[0]
    } else {
        join_spec(parts.drop_last(), sep) + sep + parts.last()
    }
}

/// The character that writes the digit `d`.
pub open spec fn digit_char(d: int) -> char {
    if d == 0 {
        '0'
    } else if d == 1 {
        '1'
    } else if d == 2 {
        '2'
    } else if d == 3 {
        '3'
    } else if d == 4 {
        '4'
    } else if d == 5 {
        '5'
    } else if d == 6 {
        '6'
    } else if d == 7 {
        '7'
    } else if d == 8 {
        '8'
    } else {
        '9'
    }
}

/// `n` written in base ten, without leading zeros.
pub open spec fn decimal_spec(n: nat) -> Seq<char>
    decreases n,
{
    if n < 10 {
        seq![digit_char(n as int)]
    } else {
        decimal_spec(n / 10).push(digit_char((n % 10) as int))
    }
}

/// Whether `c` is one of `'0'` to `'9'`.
pub open spec fn is_digit(c: char) -> bool {
    '0' <= c && c <= '9'
}

/// The number that the digit `c` writes.
pub open spec fn digit_value(c: char) -> int {
    c as int - '0' as int
}

/// Whether every character of `s` is a digit.
pub open spec fn all_digits(s: Seq<char>) -> bool {
    forall|i: int| 0 <= i < s.len() ==> is_digit(#[trigger] s[i])
}

/// The number that the digits `s` write in base ten.
pub open spec fn decimal_value(s: Seq<char>) -> nat
    decreases s.len(),
{
    if s.len() == 0 {
        0
    } else {
        (decimal_value(s.drop_last()) * 10 + digit_value(s.last())) as nat
    }
}

/// What `parse_decimal` returns on `s`.
pub open spec fn parse_decimal_spec(s: Seq<char>) -> Option<usize> {
    if s.len() > 0 && all_digits(s) && decimal_value(s) <= usize::MAX {
        Some(decimal_value(s) as usize)
    } else {
        None
    }
}

/// `text` with every occurrence of the non-empty `pat` replaced by `to`,
/// scanning from the left and never matching inside a replacement.
pub open spec fn replace_spec(text: Seq<char>, pat: Seq<char>, to: Seq<char>) -> Seq<char>
    decreases text.len(),
{
    if pat.len() == 0 || text.len() < pat.len() {
        text
    } else if text.take(pat.len() as int) == pat {
        to + replace_spec(text.skip(pat.len() as int), pat, to)
    } else {
        seq![text[0]] + replace_spec(text.skip(1), pat, to)
    }
}

/// Appends one character with `String::push` of std, which adds `c` at the end
/// of the string and changes nothing else.
#[verifier::external_body]
pub(crate) fn push_char(s: &mut String, c: char)
    ensures
        final(s)@ == old(s)@.push(c),
{
    s.push(c);
}

/// The characters of `s`.
pub fn to_chars(s: &str) -> (r: Vec<char>)
    ensures
        r@ == s@,
{
    let mut out: Vec<char> = Vec::new();
    for c in it: s.chars()
        invariant
            it.seq() == s@,
            out@ =~= s@.take(it.index()),
    {
        out.push(c);
    }
    out
}

/// Appends the characters of `v` to `out`.
pub fn push_chars(out: &mut String, v: &Vec<char>)
    ensures
        final(out)@ == old(out)@ + v@,
{
    let mut i: usize = 0;
    while i < v.len()
        invariant
            i <= v.len(),
            out@ == old(out)@ + v@.take(i as int),
        decreases v.len() - i,
    {
        push_char(out, v[i]);
        i += 1;
    }
}

/// Whether `a` and `b` hold the same characters.
pub fn same_text(a: &str, b: &str) -> (r: bool)
    ensures
        r == (a@ == b@),
{
    let x = to_chars(a);
    let y = to_chars(b);
    if x.len() != y.len() {
        return false;
    }
    let mut i: usize = 0;
    while i < x.len()
        invariant
            i <= x.len(),
            x.len() == y.len(),
            x@ == a@,
            y@ == b@,
            x@.take(i as int) == y@.take(i as int),
        decreases x.len() - i,
    {
        if x[i] != y[i] {
            return false;
        }
        i += 1;
    }
    assert(x@.take(x.len() as int) =~= x@);
    assert(y@.take(y.len() as int) =~= y@);
    true
}

/// Joins `parts` with `sep` between each two neighbours.
pub fn join(parts: &Vec<String>, sep: &str) -> (r: String)
    ensures
        r@ == join_spec(views_of(parts@), sep@),
{
    let mut out = String::new();
    let mut i: usize = 0;
    while i < parts.len()
        invariant
            i <= parts.len(),
            out@ == join_spec(views_of(parts@).take(i as int), sep@),
        decreases parts.len() - i,
    {
        if i > 0 {
            out.append(sep);
        }
        out.append(parts[i].as_str());
        i += 1;
        proof {
            let all = views_of(parts@);
            assert(all.take(i as int).drop_last() =~= all.take(i - 1));
        }
    }
    assert(views_of(parts@).take(parts.len() as int) =~= views_of(parts@));
    out
}

/// Appends `n` in base ten to `out`.
pub fn push_decimal(out: &mut String, n: usize)
    ensures
        final(out)@ == old(out)@ + decimal_spec(n as nat),
    decreases n,
{
    if n >= 10 {
        push_decimal(out, n / 10);
    }
    let d: usize = n % 10;
    let c: char = if d == 0 {
        '0'
    } else if d == 1 {
        '1'
    } else if d == 2 {
        '2'
    } else if d == 3 {
        '3'
    } else if d == 4 {
        '4'
    } else if d == 5 {
        '5'
    } else if d == 6 {
        '6'
    } else if d == 7 {
        '7'
    } else if d == 8 {
        '8'
    } else {
        '9'
    };
    push_char(out, c);
}

/// `n` written in base ten.
pub fn decimal(n: usize) -> (r: String)
    ensures
        r@ == decimal_spec(n as nat),
{
    let mut out = String::new();
    push_decimal(&mut out, n);
    out
}

/// Reads a number written in base ten: `Some` exactly when `s` is one or more
/// digits whose value fits in `usize`.
pub fn parse_decimal(s: &str) -> (r: Option<usize>)
    ensures
        r == parse_decimal_spec(s@),
{
    let v = to_chars(s);
    if v.len() == 0 {
        return None;
    }
    let mut acc: usize = 0;
    let mut i: usize = 0;
    while i < v.len()
        invariant
            i <= v.len(),
            v@ == s@,
            all_digits(v@.take(i as int)),
            acc == decimal_value(v@.take(i as int)),
        decreases v.len() - i,
    {
        let c = v[i];
        proof {
            assert(v@.take(i + 1).drop_last() =~= v@.take(i as int));
        }
        if c < '0' || c > '9' {
            return None;
        }
        let d: usize = (c as u32 - '0' as u32) as usize;
        proof {
            lemma_value_grows(v@, i + 1);
        }
        if acc > usize::MAX / 10 {
            return None;
        }
        let t: usize = acc * 10;
        if t > usize::MAX - d {
            return None;
        }
        acc = t + d;
        i += 1;
        assert forall|k: int| 0 <= k < i implies is_digit(#[trigger] v@.take(i as int)[k]) by {}
    }
    assert(v@.take(v.len() as int) =~= v@);
    Some(acc)
}

/// Whether `pat` stands in `text` at position `at`.
fn matches_at(text: &Vec<char>, pat: &Vec<char>, at: usize) -> (r: bool)
    requires
        at + pat.len() <= text.len(),
    ensures
        r == (text@.subrange(at as int, at + pat.len()) == pat@),
{
    let mut k: usize = 0;
    while k < pat.len()
        invariant
            k <= pat.len(),
            at + pat.len() <= text.len(),
            text@.subrange(at as int, at + k) == pat@.take(k as int),
        decreases pat.len() - k,
    {
        if text[at + k] != pat[k] {
            return false;
        }
        k += 1;
    }
    assert(pat@.take(pat.len() as int) =~= pat@);
    true
}

/// Replaces every occurrence of `pat` in `text` by `to`, scanning from the
/// left. With an empty `pat` the text is returned as it is.
pub fn replace_all(text: &str, pat: &str, to: &str) -> (r: String)
    ensures
        r@ == replace_spec(text@, pat@, to@),
{
    let t = to_chars(text);
    let p = to_chars(pat);
    let mut out = String::new();
    if p.len() == 0 {
        push_chars(&mut out, &t);
        return out;
    }
    let mut i: usize = 0;
    assert(t@.skip(0) =~= t@);
    while i < t.len()
        invariant
            i <= t.len(),
            p.len() > 0,
            t@ == text@,
            p@ == pat@,
            out@ + replace_spec(t@.skip(i as int), p@, to@) == replace_spec(t@, p@, to@),
        decreases t.len() - i,
    {
        let ghost rest = t@.skip(i as int);
        if p.len() <= t.len() - i && matches_at(&t, &p, i) {
            out.append(to);
            proof {
                assert(rest.take(p.len() as int) =~= t@.subrange(i as int, i + p.len()));
                assert(rest.skip(p.len() as int) =~= t@.skip(i + p.len()));
            }
            i += p.len();
        } else {
            push_char(&mut out, t[i]);
            proof {
                assert(rest.skip(1) =~= t@.skip(i + 1));
                if rest.len() >= p.len() {
                    assert(rest.take(p.len() as int) =~= t@.subrange(i as int, i + p.len()));
                }
            }
            i += 1;
        }
    }
    out
}

/// A number is written with at least one digit.
pub proof fn lemma_decimal_is_not_empty(n: nat)
    ensures
        decimal_spec(n).len() > 0,
{
}

/// A prefix of digits never writes a larger number than the whole.
pub proof fn lemma_value_grows(s: Seq<char>, n: int)
    requires
        0 <= n <= s.len(),
        all_digits(s.take(n)),
    ensures
        all_digits(s) ==> decimal_value(s.take(n)) <= decimal_value(s),
    decreases s.len() - n,
{
    if all_digits(s) {
        if n == s.len() {
            assert(s.take(n) =~= s);
        } else {
            assert forall|k: int| 0 <= k < n + 1 implies is_digit(#[trigger] s.take(n + 1)[k]) by {}
            lemma_value_grows(s, n + 1);
            assert(s.take(n + 1).drop_last() =~= s.take(n));
        }
    }
}

} // verus!
