//! Key material: turning an operator-supplied secret into a 32-byte key.
//!
//! The secret is first normalized: surrounding whitespace is trimmed, then
//! every NUL, carriage return and line feed is removed. A normalized secret
//! that is the hexadecimal text of exactly 32 bytes is used as those bytes;
//! any other secret is hashed with SHA-256.

use crate::aead::KEY_LEN;
use crate::digest::{sha256, sha256_digest};
use crate::hexcode::{
    all_hex_digits, hex_decode, hex_decoded, hex_digit_value, hex_encoded, lemma_hex_round_trip,
};
use crate::text::{chars_of, string_of};
use vstd::prelude::*;
use vstd::string::*;
use vstd::utf8::{encode_utf8, is_ascii_chars, is_ascii_chars_encode_utf8};

verus! {

/// Whether `c` has the Unicode property White_Space.
pub open spec fn is_whitespace(c: char) -> bool {
    let u = c as u32;
    ||| 0x09 <= u <= 0x0D
    ||| u == 0x20
    ||| u == 0x85
    ||| u == 0xA0
    ||| u == 0x1680
    ||| 0x2000 <= u <= 0x200A
    ||| u == 0x2028
    ||| u == 0x2029
    ||| u == 0x202F
    ||| u == 0x205F
    ||| u == 0x3000
}

/// Whether every character of `s` is whitespace.
pub open spec fn all_whitespace(s: Seq<char>) -> bool {
    forall|i: int| 0 <= i < s.len() ==> is_whitespace(#[trigger] s[i])
}

/// `s` without its leading whitespace.
pub open spec fn trim_start(s: Seq<char>) -> Seq<char>
    decreases s.len(),
{
    if s.len() > 0 && is_whitespace(s.first()) {
        trim_start(s.drop_first())
    } else {
        s
    }
}

/// `s` without its trailing whitespace.
pub open spec fn trim_end(s: Seq<char>) -> Seq<char>
    decreases s.len(),
{
    if s.len() > 0 && is_whitespace(s.last()) {
        trim_end(s.drop_last())
    } else {
        s
    }
}

/// `s` without its leading and trailing whitespace.
pub open spec fn trim(s: Seq<char>) -> Seq<char> {
    trim_end(trim_start(s))
}

/// Whether `c` survives normalization: it is no NUL, carriage return or line feed.
pub open spec fn is_kept(c: char) -> bool {
    c != '\0' && c != '\r' && c != '\n'
}

/// The normalized form of a secret.
pub open spec fn normalize_secret(secret: Seq<char>) -> Seq<char> {
    trim(secret).filter(|c: char| is_kept(c))
}

/// The key that a normalized secret, given as its UTF-8 bytes, stands for.
pub open spec fn key_of_normalized(bytes: Seq<u8>) -> Seq<u8> {
    match hex_decoded(bytes) {
        Some(decoded) if decoded.len() == KEY_LEN => decoded,
        _ => sha256_digest(bytes),
    }
}

/// The 32-byte key derived from a secret.
pub open spec fn derive_key_spec(secret: Seq<char>) -> Seq<u8> {
    key_of_normalized(encode_utf8(normalize_secret(secret)))
}

/// Whether `c` is an ASCII hexadecimal digit of either case.
pub open spec fn is_hex_char(c: char) -> bool {
    c as u32 <= 0x7f && hex_digit_value(c as u8) is Some
}

/// The lower-case hexadecimal text of `bytes`, as characters.
pub open spec fn hex_text(bytes: Seq<u8>) -> Seq<char> {
    Seq::new(hex_encoded(bytes).len(), |i: int| hex_encoded(bytes)[i] as char)
}

proof fn lemma_trim_start_prefix(before: Seq<char>, rest: Seq<char>)
    requires
        all_whitespace(before),
    ensures
        trim_start(before + rest) == trim_start(rest),
    decreases before.len(),
{
    if before.len() == 0 {
        assert(before + rest == rest);
    } else {
        assert((before + rest).first() == before[0]);
        assert((before + rest).drop_first() == before.drop_first() + rest);
        lemma_trim_start_prefix(before.drop_first(), rest);
    }
}

proof fn lemma_trim_end_suffix(rest: Seq<char>, after: Seq<char>)
    requires
        all_whitespace(after),
    ensures
        trim_end(rest + after) == trim_end(rest),
    decreases after.len(),
{
    if after.len() == 0 {
        assert(rest + after == rest);
    } else {
        assert((rest + after).last() == after.last());
        assert((rest + after).drop_last() == rest + after.drop_last());
        lemma_trim_end_suffix(rest, after.drop_last());
    }
}

proof fn lemma_trim_start_all_whitespace(s: Seq<char>)
    requires
        all_whitespace(s),
    ensures
        trim_start(s) == Seq::<char>::empty(),
    decreases s.len(),
{
    if s.len() > 0 {
        lemma_trim_start_all_whitespace(s.drop_first());
    }
}

proof fn lemma_trim_start_keeps_tail(s: Seq<char>, after: Seq<char>)
    requires
        !all_whitespace(s),
    ensures
        trim_start(s + after) == trim_start(s) + after,
    decreases s.len(),
{
    if s.len() > 0 && is_whitespace(s.first()) {
        let rest = s.drop_first();
        assert(!all_whitespace(rest)) by {
            if all_whitespace(rest) {
                assert forall|i: int| 0 <= i < s.len() implies is_whitespace(#[trigger] s[i]) by {
                    if i > 0 {
                        assert(s[i] == rest[i - 1]);
                    }
                }
            }
        }
        assert((s + after).first() == s.first());
        assert((s + after).drop_first() == rest + after);
        lemma_trim_start_keeps_tail(rest, after);
    } else {
        assert(s.len() > 0);
        assert((s + after).first() == s.first());
    }
}

/// Whitespace around a text does not change what trimming leaves.
pub proof fn lemma_trim_ignores_surrounding_whitespace(
    before: Seq<char>,
    s: Seq<char>,
    after: Seq<char>,
)
    requires
        all_whitespace(before),
        all_whitespace(after),
    ensures
        trim(before + s + after) == trim(s),
{
    assert(before + s + after == before + (s + after));
    lemma_trim_start_prefix(before, s + after);
    if all_whitespace(s) {
        assert(all_whitespace(s + after));
        lemma_trim_start_all_whitespace(s + after);
        lemma_trim_start_all_whitespace(s);
    } else {
        lemma_trim_start_keeps_tail(s, after);
        lemma_trim_end_suffix(trim_start(s), after);
    }
}

/// Key normalization is deterministic in the secret proper: whitespace
/// (carriage returns and line feeds included) before and after a secret
/// does not change the derived key.
pub proof fn lemma_key_ignores_surrounding_whitespace(
    before: Seq<char>,
    secret: Seq<char>,
    after: Seq<char>,
)
    requires
        all_whitespace(before),
        all_whitespace(after),
    ensures
        normalize_secret(before + secret + after) == normalize_secret(secret),
        derive_key_spec(before + secret + after) == derive_key_spec(secret),
{
    lemma_trim_ignores_surrounding_whitespace(before, secret, after);
}

proof fn lemma_filter_keeps_all(s: Seq<char>, pred: spec_fn(char) -> bool)
    requires
        forall|i: int| 0 <= i < s.len() ==> pred(#[trigger] s[i]),
    ensures
        s.filter(pred) == s,
    decreases s.len(),
{
    reveal_with_fuel(Seq::filter, 1);
    if s.len() > 0 {
        lemma_filter_keeps_all(s.drop_last(), pred);
        assert(s.drop_last().push(s.last()) == s);
    }
}

proof fn lemma_hex_char_is_plain(c: char)
    requires
        is_hex_char(c),
    ensures
        !is_whitespace(c),
        is_kept(c),
        '\0' <= c <= '\u{7f}',
        c as u8 == c as u32,
{
    let u = c as u32;
    assert(c as u8 == u);
    assert(0x30 <= u <= 0x39 || 0x41 <= u <= 0x46 || 0x61 <= u <= 0x66);
    assert('\0' as u32 == 0 && '\r' as u32 == 0x0D && '\n' as u32 == 0x0A && '\u{7f}' as u32
        == 0x7f);
}

/// A text of hexadecimal digits is its own normalized form, and its UTF-8
/// bytes are its characters.
pub proof fn lemma_hex_text_is_normalized(s: Seq<char>)
    requires
        forall|i: int| 0 <= i < s.len() ==> is_hex_char(#[trigger] s[i]),
    ensures
        normalize_secret(s) == s,
        encode_utf8(s).len() == s.len(),
        forall|i: int| 0 <= i < s.len() ==> (#[trigger] encode_utf8(s)[i]) == s[i] as u8,
        all_hex_digits(encode_utf8(s)),
{
    if s.len() > 0 {
        lemma_hex_char_is_plain(s[0]);
        lemma_hex_char_is_plain(s[s.len() - 1]);
        assert(trim_start(s) == s);
        assert(trim_end(s) == s);
    }
    assert(trim(s) == s);
    assert forall|i: int| 0 <= i < s.len() implies is_kept(#[trigger] s[i]) by {
        lemma_hex_char_is_plain(s[i]);
    }
    lemma_filter_keeps_all(s, |c: char| is_kept(c));
    assert(is_ascii_chars(s)) by {
        assert forall|i: int| 0 <= i < s.len() implies '\0' <= #[trigger] s[i] <= '\u{7f}' by {
            lemma_hex_char_is_plain(s[i]);
        }
    }
    is_ascii_chars_encode_utf8(s);
    assert forall|i: int| 0 <= i < s.len() implies (#[trigger] hex_digit_value(
        encode_utf8(s)[i],
    )) is Some by {
        assert(is_hex_char(s[i]));
        assert(encode_utf8(s)[i] == s[i] as u8);
    }
}

/// A secret of 64 hexadecimal digits is used as the 32 bytes it spells, and
/// the lower-case hexadecimal text of that key derives the same key again.
pub proof fn lemma_hex_key_reencoded(secret: Seq<char>)
    requires
        secret.len() == 64,
        forall|i: int| 0 <= i < secret.len() ==> is_hex_char(#[trigger] secret[i]),
    ensures
        hex_decoded(encode_utf8(secret)) == Some(derive_key_spec(secret)),
        derive_key_spec(hex_text(derive_key_spec(secret))) == derive_key_spec(secret),
{
    lemma_hex_text_is_normalized(secret);
    let key = derive_key_spec(secret);
    assert(hex_decoded(encode_utf8(secret)) is Some);
    assert(key.len() == 32);
    let again = hex_text(key);
    lemma_hex_round_trip(key);
    assert forall|i: int| 0 <= i < again.len() implies is_hex_char(#[trigger] again[i]) by {
        let b = key[i / 2] as int;
        assert(0 <= b / 16 < 16 && 0 <= b % 16 < 16);
        let d = hex_encoded(key)[i];
        assert(0x30 <= d <= 0x39 || 0x61 <= d <= 0x66);
        assert((d as char) as u32 == d);
        assert(((d as char) as u8) == d);
    }
    lemma_hex_text_is_normalized(again);
    assert(encode_utf8(again) =~= hex_encoded(key)) by {
        assert forall|i: int| 0 <= i < again.len() implies encode_utf8(again)[i] == hex_encoded(
            key,
        )[i] by {
            let b = key[i / 2] as int;
            assert(0 <= b / 16 < 16 && 0 <= b % 16 < 16);
            let d = hex_encoded(key)[i];
            assert(0x30 <= d <= 0x39 || 0x61 <= d <= 0x66);
            assert(((d as char) as u8) == d);
        }
    }
}

/// Whether `c` has the Unicode property White_Space.
pub fn is_whitespace_char(c: char) -> (white: bool)
    ensures
        white == is_whitespace(c),
{
    let u: u32 = c as u32;
    (0x09 <= u && u <= 0x0D) || u == 0x20 || u == 0x85 || u == 0xA0 || u == 0x1680 || (0x2000 <= u
        && u <= 0x200A) || u == 0x2028 || u == 0x2029 || u == 0x202F || u == 0x205F || u == 0x3000
}

/// Normalizes a secret: trims surrounding whitespace, then removes every
/// NUL, carriage return and line feed.
pub fn normalize(secret: &str) -> (normalized: String)
    ensures
        normalized@ == normalize_secret(secret@),
{
    let chars = chars_of(secret);
    let n = chars.len();
    let mut start: usize = 0;
    assert(chars@.subrange(0, n as int) == chars@);
    while start < n && is_whitespace_char(chars[start])
        invariant
            n == chars@.len(),
            start <= n,
            trim_start(chars@) == trim_start(chars@.subrange(start as int, n as int)),
        decreases n - start,
    {
        assert(chars@.subrange(start as int, n as int).drop_first() == chars@.subrange(
            start + 1,
            n as int,
        ));
        start += 1;
    }
    assert(trim_start(chars@) == chars@.subrange(start as int, n as int));
    let mut end: usize = n;
    while end > start && is_whitespace_char(chars[end - 1])
        invariant
            n == chars@.len(),
            start <= end <= n,
            trim(chars@) == trim_end(chars@.subrange(start as int, end as int)),
        decreases end - start,
    {
        assert(chars@.subrange(start as int, end as int).drop_last() == chars@.subrange(
            start as int,
            end - 1,
        ));
        end -= 1;
    }
    assert(trim(chars@) == chars@.subrange(start as int, end as int));
    let ghost trimmed = chars@.subrange(start as int, end as int);
    let ghost kept = |c: char| is_kept(c);
    let mut out: Vec<char> = Vec::new();
    let mut i: usize = start;
    while i < end
        invariant
            n == chars@.len(),
            start <= i <= end <= n,
            trimmed == chars@.subrange(start as int, end as int),
            kept == (|c: char| is_kept(c)),
            out@ == trimmed.subrange(0, i - start).filter(kept),
        decreases end - i,
    {
        let c = chars[i];
        proof {
            let before = trimmed.subrange(0, i - start);
            let after = trimmed.subrange(0, i - start + 1);
            assert(after == before + seq![c]);
            Seq::filter_distributes_over_add(before, seq![c], kept);
            reveal_with_fuel(Seq::filter, 2);
            assert(seq![c].drop_last() =~= Seq::<char>::empty());
            assert(seq![c].filter(kept) =~= if is_kept(c) {
                seq![c]
            } else {
                Seq::<char>::empty()
            });
        }
        if c != '\0' && c != '\r' && c != '\n' {
            out.push(c);
        }
        i += 1;
    }
    assert(trimmed.subrange(0, end - start) == trimmed);
    string_of(&out)
}

/// Derives the key from a normalized secret given as its UTF-8 bytes.
pub fn key_from_normalized(bytes: &[u8]) -> (key: Vec<u8>)
    ensures
        key@ == key_of_normalized(bytes@),
        key@.len() == KEY_LEN,
{
    match hex_decode(bytes) {
        Some(decoded) => {
            if decoded.len() == KEY_LEN {
                decoded
            } else {
                sha256(bytes)
            }
        },
        None => sha256(bytes),
    }
}

/// Derives the 32-byte key from an operator-supplied secret.
pub fn derive_key(secret: &str) -> (key: Vec<u8>)
    ensures
        key@ == derive_key_spec(secret@),
        key@.len() == KEY_LEN,
{
    let normalized = normalize(secret);
    key_from_normalized(normalized.as_str().as_bytes())
}

} // verus!
