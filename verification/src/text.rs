//! Verified text utilities: conversion between strings and character
//! vectors, decimal rendering of integers, substring search, and masking of
//! the value after every occurrence of a pattern (the building block of the
//! best-effort redaction of non-JSON bodies).
use vstd::prelude::*;

verus! {

/// Relies on std's String::push: appends one character at the end.
#[verifier::external_body]
pub fn push_char(s: &mut String, c: char)
    ensures
        final(s)@ == old(s)@.push(c),
{
    s.push(c)
}

/// The characters of a string, in order.
pub fn chars_of(s: &str) -> (v: Vec<char>)
    ensures
        v@ == s@,
{
    let n = s.unicode_len();
    let mut v: Vec<char> = Vec::new();
    let mut i: usize = 0;
    while i < n
        invariant
            n == s@.len(),
            i <= n,
            v@ == s@.subrange(0, i as int),
        decreases n - i,
    {
        v.push(s.get_char(i));
        proof {
            assert(v@ =~= s@.subrange(0, i + 1));
        }
        i = i + 1;
    }
    proof {
        assert(v@ =~= s@);
    }
    v
}

/// The string holding exactly the given characters, in order.
pub fn string_of(v: &Vec<char>) -> (s: String)
    ensures
        s@ == v@,
{
    let mut s = String::new();
    let mut i: usize = 0;
    while i < v.len()
        invariant
            i <= v@.len(),
            s@ == v@.subrange(0, i as int),
        decreases v@.len() - i,
    {
        push_char(&mut s, v[i]);
        proof {
            assert(s@ =~= v@.subrange(0, i + 1));
        }
        i = i + 1;
    }
    proof {
        assert(s@ =~= v@);
    }
    s
}

/// Whether two string slices hold the same characters.
pub fn str_eq(a: &str, b: &str) -> (r: bool)
    ensures
        r == (a@ == b@),
{
    let na = a.unicode_len();
    let nb = b.unicode_len();
    if na != nb {
        return false;
    }
    let mut i: usize = 0;
    while i < na
        invariant
            na == a@.len(),
            na == b@.len(),
            i <= na,
            forall|k: int| 0 <= k < i ==> a@[k] == b@[k],
        decreases na - i,
    {
        if a.get_char(i) != b.get_char(i) {
            return false;
        }
        i = i + 1;
    }
    proof {
        assert(a@ =~= b@);
    }
    true
}

/// The character for one decimal digit.
pub open spec fn dec_digit(d: int) -> char {
    if d == 0 {
        '0'
    } else if d == 1 {
        '1'
    } else if d == 2 {
        '2'
    } else if d == 3 {
        '3'
    } else if d == 4 {
        '4'
    } else if d == 5 {
        '5'
    } else if d == 6 {
        '6'
    } else if d == 7 {
        '7'
    } else if d == 8 {
        '8'
    } else {
        '9'
    }
}

/// The decimal rendering of a non-negative integer, without sign or padding.
pub open spec fn dec_chars(n: int) -> Seq<char>
    decreases n,
{
    if n < 10 {
        seq![dec_digit(n)]
    } else {
        dec_chars(n / 10).push(dec_digit(n % 10))
    }
}

pub(crate) fn dec_digit_char(d: u64) -> (c: char)
    requires
        d < 10,
    ensures
        c == dec_digit(d as int),
{
    match d {
        0 => '0',
        1 => '1',
        2 => '2',
        3 => '3',
        4 => '4',
        5 => '5',
        6 => '6',
        7 => '7',
        8 => '8',
        _ => '9',
    }
}

/// Renders an integer in decimal.
pub fn decimal_string(n: u64) -> (s: String)
    ensures
        s@ == dec_chars(n as int),
    decreases n,
{
    if n < 10 {
        let mut s = String::new();
        push_char(&mut s, dec_digit_char(n));
        proof {
            assert(s@ =~= dec_chars(n as int));
        }
        s
    } else {
        let mut s = decimal_string(n / 10);
        push_char(&mut s, dec_digit_char(n % 10));
        s
    }
}

/// `s` begins with the given prefix.
pub open spec fn starts_with(s: Seq<char>, prefix: Seq<char>) -> bool {
    s.len() >= prefix.len() && s.subrange(0, prefix.len() as int) == prefix
}

/// Whether the string begins with the prefix.
pub fn str_starts_with(s: &str, prefix: &str) -> (b: bool)
    ensures
        b == starts_with(s@, prefix@),
{
    let n = s.unicode_len();
    let p = prefix.unicode_len();
    if n < p {
        return false;
    }
    let head = s.substring_char(0, p);
    str_eq(head, prefix)
}

/// The pattern occurs in `s` starting at position `i`.
pub open spec fn match_at(s: Seq<char>, pat: Seq<char>, i: int) -> bool {
    &&& 0 <= i
    &&& i + pat.len() <= s.len()
    &&& s.subrange(i, i + pat.len() as int) == pat
}

/// The pattern occurs somewhere in `s`.
pub open spec fn contains_pattern(s: Seq<char>, pat: Seq<char>) -> bool {
    exists|i: int| match_at(s, pat, i)
}

fn matches_at(s: &Vec<char>, pat: &Vec<char>, i: usize) -> (b: bool)
    requires
        i + pat@.len() <= s@.len(),
    ensures
        b == match_at(s@, pat@, i as int),
{
    let slen = s.len();
    let plen = pat.len();
    let mut j: usize = 0;
    while j < plen
        invariant
            slen == s@.len(),
            plen == pat@.len(),
            i + pat@.len() <= s@.len(),
            j <= pat@.len(),
            forall|k: int| 0 <= k < j ==> s@[i + k] == pat@[k],
        decreases pat@.len() - j,
    {
        if s[i + j] != pat[j] {
            proof {
                assert(s@.subrange(i as int, i + pat@.len() as int)[j as int] != pat@[j as int]);
            }
            return false;
        }
        j = j + 1;
    }
    proof {
        assert(s@.subrange(i as int, i + pat@.len() as int) =~= pat@);
    }
    true
}

/// Whether the pattern occurs anywhere in `s`.
pub fn contains_sub(s: &Vec<char>, pat: &Vec<char>) -> (b: bool)
    ensures
        b == contains_pattern(s@, pat@),
{
    if pat.len() == 0 {
        proof {
            assert(pat@ =~= s@.subrange(0, 0));
            assert(match_at(s@, pat@, 0));
        }
        return true;
    }
    if pat.len() > s.len() {
        proof {
            assert(forall|i: int| !match_at(s@, pat@, i));
        }
        return false;
    }
    let mut i: usize = 0;
    let last = s.len() - pat.len();
    while i <= last
        invariant
            1 <= pat@.len() <= s@.len(),
            last == s@.len() - pat@.len(),
            s@.len() <= usize::MAX,
            i <= last + 1,
            forall|k: int| 0 <= k < i ==> !match_at(s@, pat@, k),
        decreases last - i + 1,
    {
        if matches_at(s, pat, i) {
            return true;
        }
        i = i + 1;
    }
    proof {
        assert(forall|k: int| match_at(s@, pat@, k) ==> 0 <= k <= last);
    }
    false
}

/// A character that ends a value run in loosely structured text.
pub open spec fn value_stop(c: char) -> bool {
    c == ',' || c == '}' || c == ']' || c == ';' || c == '&' || c == ' ' || c == '\n' || c == '\r'
        || c == '\t'
}

/// How many leading spaces `s` carries.
pub open spec fn leading_spaces(s: Seq<char>) -> int
    decreases s.len(),
{
    if s.len() > 0 && s[0] == ' ' {
        1 + leading_spaces(s.skip(1))
    } else {
        0
    }
}

/// The length of the value run at the head of `s`: the characters up to the
/// first stop character.
pub open spec fn value_run(s: Seq<char>) -> int
    decreases s.len(),
{
    if s.len() > 0 && !value_stop(s[0]) {
        1 + value_run(s.skip(1))
    } else {
        0
    }
}

/// `s` with the value after every occurrence of the pattern replaced by the
/// marker, scanning left to right without overlap: after each occurrence,
/// the spacing is kept and the following value run is masked. An empty
/// pattern leaves `s` unchanged.
pub open spec fn mask_value_after_all(s: Seq<char>, pat: Seq<char>, marker: Seq<char>) -> Seq<char>
    decreases s.len(),
    via mask_value_after_all_decreases
{
    if pat.len() == 0 || s.len() < pat.len() {
        s
    } else if s.subrange(0, pat.len() as int) == pat {
        let rest = s.skip(pat.len() as int);
        let sp = leading_spaces(rest);
        let v = value_run(rest.skip(sp));
        pat + rest.take(sp) + marker + mask_value_after_all(rest.skip(sp + v), pat, marker)
    } else {
        seq![s[0]] + mask_value_after_all(s.skip(1), pat, marker)
    }
}

#[via_fn]
proof fn mask_value_after_all_decreases(s: Seq<char>, pat: Seq<char>, marker: Seq<char>) {
    if !(pat.len() == 0 || s.len() < pat.len()) && s.subrange(0, pat.len() as int) == pat {
        let rest = s.skip(pat.len() as int);
        lemma_leading_spaces_bound(rest);
        lemma_value_run_bound(rest.skip(leading_spaces(rest)));
    }
}

proof fn lemma_leading_spaces_bound(s: Seq<char>)
    ensures
        0 <= leading_spaces(s) <= s.len(),
    decreases s.len(),
{
    if s.len() > 0 && s[0] == ' ' {
        lemma_leading_spaces_bound(s.skip(1));
    }
}

proof fn lemma_value_run_bound(s: Seq<char>)
    ensures
        0 <= value_run(s) <= s.len(),
    decreases s.len(),
{
    if s.len() > 0 && !value_stop(s[0]) {
        lemma_value_run_bound(s.skip(1));
    }
}

fn is_value_stop(c: char) -> (b: bool)
    ensures
        b == value_stop(c),
{
    c == ',' || c == '}' || c == ']' || c == ';' || c == '&' || c == ' ' || c == '\n' || c == '\r'
        || c == '\t'
}

fn count_spaces(s: &Vec<char>, from: usize) -> (n: usize)
    requires
        from <= s@.len(),
    ensures
        n as int == leading_spaces(s@.skip(from as int)),
        from + n <= s@.len(),
{
    let mut i = from;
    while i < s.len() && s[i] == ' '
        invariant
            from <= i <= s@.len(),
            leading_spaces(s@.skip(from as int)) == (i - from) + leading_spaces(
                s@.skip(i as int),
            ),
        decreases s@.len() - i,
    {
        proof {
            assert(s@.skip(i as int)[0] == s@[i as int]);
            assert(s@.skip(i as int).skip(1) =~= s@.skip(i + 1));
        }
        i = i + 1;
    }
    proof {
        if i < s@.len() {
            assert(s@.skip(i as int)[0] == s@[i as int]);
        }
        assert(leading_spaces(s@.skip(i as int)) == 0);
        lemma_leading_spaces_bound(s@.skip(from as int));
    }
    i - from
}

fn count_value_run(s: &Vec<char>, from: usize) -> (n: usize)
    requires
        from <= s@.len(),
    ensures
        n as int == value_run(s@.skip(from as int)),
        from + n <= s@.len(),
{
    let mut i = from;
    while i < s.len() && !is_value_stop(s[i])
        invariant
            from <= i <= s@.len(),
            value_run(s@.skip(from as int)) == (i - from) + value_run(s@.skip(i as int)),
        decreases s@.len() - i,
    {
        proof {
            assert(s@.skip(i as int)[0] == s@[i as int]);
            assert(s@.skip(i as int).skip(1) =~= s@.skip(i + 1));
        }
        i = i + 1;
    }
    proof {
        if i < s@.len() {
            assert(s@.skip(i as int)[0] == s@[i as int]);
        }
        assert(value_run(s@.skip(i as int)) == 0);
        lemma_value_run_bound(s@.skip(from as int));
    }
    i - from
}

pub(crate) fn append_chars(out: &mut Vec<char>, v: &Vec<char>)
    ensures
        final(out)@ == old(out)@ + v@,
{
    let mut i: usize = 0;
    while i < v.len()
        invariant
            i <= v@.len(),
            out@ == old(out)@ + v@.subrange(0, i as int),
        decreases v@.len() - i,
    {
        out.push(v[i]);
        proof {
            assert(out@ =~= old(out)@ + v@.subrange(0, i + 1));
        }
        i = i + 1;
    }
    proof {
        assert(out@ =~= old(out)@ + v@);
    }
}

pub(crate) fn append_range(out: &mut Vec<char>, s: &Vec<char>, from: usize, to: usize)
    requires
        from <= to <= s@.len(),
    ensures
        final(out)@ == old(out)@ + s@.subrange(from as int, to as int),
{
    let mut k = from;
    proof {
        assert(out@ =~= old(out)@ + s@.subrange(from as int, from as int));
    }
    while k < to
        invariant
            from <= k <= to <= s@.len(),
            out@ == old(out)@ + s@.subrange(from as int, k as int),
        decreases to - k,
    {
        out.push(s[k]);
        proof {
            assert(out@ =~= old(out)@ + s@.subrange(from as int, k + 1));
        }
        k = k + 1;
    }
}

/// Masks with the marker the value run after every occurrence of the
/// pattern.
#[verifier::rlimit(50)]
pub fn mask_value_after(s: &Vec<char>, pat: &Vec<char>, marker: &Vec<char>) -> (r: Vec<char>)
    requires
        pat@.len() >= 1,
    ensures
        r@ == mask_value_after_all(s@, pat@, marker@),
{
    let mut out: Vec<char> = Vec::new();
    let mut i: usize = 0;
    proof {
        assert(s@.skip(0) =~= s@);
        assert(out@ + mask_value_after_all(s@, pat@, marker@) =~= mask_value_after_all(
            s@,
            pat@,
            marker@,
        ));
    }
    while i < s.len()
        invariant
            pat@.len() >= 1,
            i <= s@.len(),
            mask_value_after_all(s@, pat@, marker@) == out@ + mask_value_after_all(
                s@.skip(i as int),
                pat@,
                marker@,
            ),
        decreases s@.len() - i,
    {
        let ghost rest = s@.skip(i as int);
        if pat.len() <= s.len() - i && matches_at(s, pat, i) {
            let after_pat = i + pat.len();
            let sp = count_spaces(s, after_pat);
            let v = count_value_run(s, after_pat + sp);
            proof {
                assert(rest.subrange(0, pat@.len() as int) =~= s@.subrange(
                    i as int,
                    i + pat@.len() as int,
                ));
                assert(rest.skip(pat@.len() as int) =~= s@.skip(after_pat as int));
                let tail = s@.skip(after_pat as int);
                assert(tail.skip(sp as int) =~= s@.skip(after_pat + sp));
                assert(tail.take(sp as int) =~= s@.subrange(
                    after_pat as int,
                    after_pat + sp,
                ));
                assert(tail.skip(sp as int + value_run(tail.skip(sp as int))) =~= s@.skip(
                    after_pat + sp + v,
                ));
                assert(mask_value_after_all(rest, pat@, marker@) == pat@ + s@.subrange(
                    after_pat as int,
                    after_pat + sp,
                ) + marker@ + mask_value_after_all(s@.skip(after_pat + sp + v), pat@, marker@));
            }
            append_chars(&mut out, pat);
            append_range(&mut out, s, after_pat, after_pat + sp);
            append_chars(&mut out, marker);
            i = after_pat + sp + v;
        } else {
            proof {
                assert(rest.len() >= 1);
                assert(rest.skip(1) =~= s@.skip(i + 1));
                assert(rest[0] == s@[i as int]);
                if rest.len() >= pat@.len() {
                    // the scan found no occurrence at i, so the recursive
                    // definition takes its final branch here
                    assert(rest.subrange(0, pat@.len() as int) =~= s@.subrange(
                        i as int,
                        i + pat@.len() as int,
                    ));
                    assert(mask_value_after_all(rest, pat@, marker@) == seq![s@[i as int]]
                        + mask_value_after_all(s@.skip(i + 1), pat@, marker@));
                } else {
                    assert(mask_value_after_all(rest, pat@, marker@) == rest);
                    assert(mask_value_after_all(s@.skip(i + 1), pat@, marker@) == s@.skip(i + 1));
                    assert(rest =~= seq![s@[i as int]] + s@.skip(i + 1));
                }
            }
            out.push(s[i]);
            i = i + 1;
        }
        proof {
            assert(mask_value_after_all(s@, pat@, marker@) == out@ + mask_value_after_all(
                s@.skip(i as int),
                pat@,
                marker@,
            ));
        }
    }
    proof {
        assert(s@.skip(i as int) =~= Seq::<char>::empty());
        assert(mask_value_after_all(Seq::<char>::empty(), pat@, marker@) == Seq::<char>::empty());
        assert(out@ =~= out@ + Seq::<char>::empty());
    }
    out
}

} // verus!
