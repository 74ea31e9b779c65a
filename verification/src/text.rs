//! Character-level helpers shared by the rest of the crate.
//!
//! Strings are modelled by their sequence of characters (`Seq<char>`).
//! Executable code converts a `&str` to a `Vec<char>` once, works on
//! the vector, and converts back at the end.

use vstd::prelude::*;
use vstd::string::*;

verus! {

/// `String::push` appends one character to the end of the string and
/// leaves the characters before it untouched.
pub assume_specification[ String::push ](s: &mut String, c: char)
    ensures
        final(s)@ == old(s)@.push(c),
;

/// Collects the characters of `s` in order.
pub fn chars_of(s: &str) -> (out: Vec<char>)
    ensures
        out@ == s@,
{
    let mut out: Vec<char> = Vec::new();
    for c in it: s.chars()
        invariant
            it.seq() == s@,
            out@ == it.seq().subrange(0, it.index()),
    {
        out.push(c);
    }
    assert(out@ == s@);
    out
}

/// Builds a string from the characters `chars[from..to]`.
pub fn string_of_range(chars: &Vec<char>, from: usize, to: usize) -> (out: String)
    requires
        from <= to <= chars@.len(),
    ensures
        out@ == chars@.subrange(from as int, to as int),
{
    let mut out = String::new();
    let mut i: usize = from;
    while i < to
        invariant
            from <= i <= to <= chars@.len(),
            out@ == chars@.subrange(from as int, i as int),
        decreases to - i,
    {
        out.push(chars[i]);
        i += 1;
    }
    out
}

/// Builds a string from a vector of characters.
pub fn string_of(chars: &Vec<char>) -> (out: String)
    ensures
        out@ == chars@,
{
    let out = string_of_range(chars, 0, chars.len());
    assert(chars@.subrange(0, chars@.len() as int) == chars@);
    out
}

/// Whether two character vectors hold the same characters.
pub fn same_chars(a: &Vec<char>, b: &Vec<char>) -> (same: bool)
    ensures
        same == (a@ == b@),
{
    if a.len() != b.len() {
        return false;
    }
    let mut i: usize = 0;
    while i < a.len()
        invariant
            a@.len() == b@.len(),
            i <= a@.len(),
            a@.subrange(0, i as int) == b@.subrange(0, i as int),
        decreases a.len() - i,
    {
        if a[i] != b[i] {
            return false;
        }
        assert(a@.subrange(0, i + 1) == a@.subrange(0, i as int).push(a@[i as int]));
        assert(b@.subrange(0, i + 1) == b@.subrange(0, i as int).push(b@[i as int]));
        i += 1;
    }
    assert(a@ == a@.subrange(0, i as int));
    assert(b@ == b@.subrange(0, i as int));
    true
}

/// Whether two strings hold the same characters.
pub fn same_text(a: &str, b: &str) -> (same: bool)
    ensures
        same == (a@ == b@),
{
    let av = chars_of(a);
    let bv = chars_of(b);
    same_chars(&av, &bv)
}

/// Whether `chars` ends with `suffix`.
pub fn ends_with(chars: &Vec<char>, suffix: &Vec<char>) -> (found: bool)
    ensures
        found == suffix@.is_suffix_of(chars@),
{
    let n = chars.len();
    let m = suffix.len();
    if m > n {
        return false;
    }
    let base = n - m;
    let mut i: usize = 0;
    while i < m
        invariant
            m <= n,
            n == chars@.len(),
            m == suffix@.len(),
            base == n - m,
            i <= m,
            suffix@.subrange(0, i as int) == chars@.subrange(base as int, base + i),
        decreases m - i,
    {
        if suffix[i] != chars[base + i] {
            assert(chars@.subrange(base as int, n as int)[i as int] != suffix@[i as int]);
            return false;
        }
        assert(suffix@.subrange(0, i + 1) == suffix@.subrange(0, i as int).push(suffix@[i as int]));
        assert(chars@.subrange(base as int, base + i + 1) == chars@.subrange(
            base as int,
            base + i,
        ).push(chars@[base + i]));
        i += 1;
    }
    assert(suffix@ == suffix@.subrange(0, m as int));
    true
}

/// Appends the characters of `tail` to `chars`.
pub fn append_chars(chars: &mut Vec<char>, tail: &Vec<char>)
    ensures
        final(chars)@ == old(chars)@ + tail@,
{
    let mut i: usize = 0;
    while i < tail.len()
        invariant
            i <= tail@.len(),
            chars@ == old(chars)@ + tail@.subrange(0, i as int),
        decreases tail.len() - i,
    {
        chars.push(tail[i]);
        assert(tail@.subrange(0, i + 1) == tail@.subrange(0, i as int).push(tail@[i as int]));
        i += 1;
    }
    assert(tail@.subrange(0, i as int) == tail@);
}

/// Appends the characters of the string `tail` to `chars`.
pub fn append_str(chars: &mut Vec<char>, tail: &str)
    ensures
        final(chars)@ == old(chars)@ + tail@,
{
    let t = chars_of(tail);
    append_chars(chars, &t);
}

/// An owned copy of an optional string.
pub fn clone_option(value: &Option<String>) -> (out: Option<String>)
    ensures
        out is Some == value is Some,
        out matches Some(s) ==> s@ == value->0@,
{
    match value {
        Some(s) => Some(s.clone()),
        None => None,
    }
}

} // verus!
