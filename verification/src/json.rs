//! JSON documents, read and written by the `serde_json` crate.
//!
//! A document is held as its text, in bytes. Each function below parses the
//! text it is given; a part of a document is handed back as a document of
//! its own, in the compact form that `serde_json` writes.

use crate::hexcode::hex_digit;
use serde_json::Value;
use vstd::prelude::*;

verus! {

/// Whether `doc` is the text of one JSON value.
pub uninterp spec fn json_parses(doc: Seq<u8>) -> bool;

/// The member `key` of the JSON object `doc`, in compact form; `None` where
/// `doc` is no JSON text, no object, or has no such member.
pub uninterp spec fn json_member(doc: Seq<u8>, key: Seq<char>) -> Option<Seq<u8>>;

/// The element at `index` of the JSON array `doc`, in compact form; `None`
/// where `doc` is no JSON text, no array, or shorter.
pub uninterp spec fn json_element(doc: Seq<u8>, index: nat) -> Option<Seq<u8>>;

/// The characters of the JSON string `doc`; `None` where `doc` is no JSON
/// text or another kind of value.
pub uninterp spec fn json_string(doc: Seq<u8>) -> Option<Seq<char>>;

/// The compact form of the JSON value `doc`; `None` where `doc` is no JSON text.
pub uninterp spec fn json_compact(doc: Seq<u8>) -> Option<Seq<char>>;

/// What stands for `c` inside a JSON string literal: the quotation mark,
/// the backslash and the control characters below U+0020 are escaped, the
/// latter by their short form where JSON has one and as `\u00` with two
/// lower-case hexadecimal digits where it has none; every other character
/// stands for itself.
pub open spec fn json_escape(c: char) -> Seq<char> {
    if c == '"' {
        seq!['\\', '"']
    } else if c == '\\' {
        seq!['\\', '\\']
    } else if c == '\u{8}' {
        seq!['\\', 'b']
    } else if c == '\t' {
        seq!['\\', 't']
    } else if c == '\n' {
        seq!['\\', 'n']
    } else if c == '\u{c}' {
        seq!['\\', 'f']
    } else if c == '\r' {
        seq!['\\', 'r']
    } else if (c as u32) < 0x20 {
        seq![
            '\\',
            'u',
            '0',
            '0',
            hex_digit(c as int / 16) as char,
            hex_digit(c as int % 16) as char,
        ]
    } else {
        seq![c]
    }
}

/// The characters of `text`, each escaped for a JSON string literal.
pub open spec fn json_escaped(text: Seq<char>) -> Seq<char>
    decreases text.len(),
{
    if text.len() == 0 {
        Seq::empty()
    } else {
        json_escaped(text.drop_last()) + json_escape(text.last())
    }
}

/// The JSON string literal, quotes and escapes included, that stands for `text`.
pub open spec fn json_quoted(text: Seq<char>) -> Seq<char> {
    seq!['"'] + json_escaped(text) + seq!['"']
}

/// `serde_json::from_slice` to a `Value`: whether the bytes parse.
#[verifier::external_body]
pub(crate) fn parses(doc: &[u8]) -> (ok: bool)
    ensures
        ok == json_parses(doc@),
{
    serde_json::from_slice::<Value>(doc).is_ok()
}

/// `Value::get` with a string index on the parsed document: the member,
/// written back with the value's `Display`.
#[verifier::external_body]
pub(crate) fn member(doc: &[u8], key: &str) -> (found: Option<Vec<u8>>)
    ensures
        found is Some <==> json_member(doc@, key@) is Some,
        found matches Some(part) ==> json_member(doc@, key@) == Some(part@),
{
    let value: Value = serde_json::from_slice(doc).ok()?;
    value.get(key).map(|part| part.to_string().into_bytes())
}

/// `Value::get` with a number index on the parsed document: the element,
/// written back with the value's `Display`.
#[verifier::external_body]
pub(crate) fn element(doc: &[u8], index: usize) -> (found: Option<Vec<u8>>)
    ensures
        found is Some <==> json_element(doc@, index as nat) is Some,
        found matches Some(part) ==> json_element(doc@, index as nat) == Some(part@),
{
    let value: Value = serde_json::from_slice(doc).ok()?;
    value.get(index).map(|part| part.to_string().into_bytes())
}

/// `Value::as_str` on the parsed document: the string's characters.
#[verifier::external_body]
pub(crate) fn string(doc: &[u8]) -> (found: Option<String>)
    ensures
        found is Some <==> json_string(doc@) is Some,
        found matches Some(text) ==> json_string(doc@) == Some(text@),
{
    let value: Value = serde_json::from_slice(doc).ok()?;
    value.as_str().map(|text| text.to_string())
}

/// The `Display` of the parsed document: its compact form.
#[verifier::external_body]
pub(crate) fn compact(doc: &[u8]) -> (found: Option<String>)
    ensures
        found is Some <==> json_compact(doc@) is Some,
        found matches Some(text) ==> json_compact(doc@) == Some(text@),
{
    let value: Value = serde_json::from_slice(doc).ok()?;
    Some(value.to_string())
}

/// The `Display` of `Value::String`: the string as a JSON literal, between
/// quotation marks and with the escapes that `serde_json` writes.
#[verifier::external_body]
pub(crate) fn quoted(text: &str) -> (literal: String)
    ensures
        literal@ == json_quoted(text@),
{
    Value::String(text.to_string()).to_string()
}

/// The string member `key` of the JSON object `doc`.
pub open spec fn text_member(doc: Seq<u8>, key: Seq<char>) -> Option<Seq<char>> {
    match json_member(doc, key) {
        Some(part) => json_string(part),
        None => None,
    }
}

/// Reads the string member `key` of the JSON object `doc`.
pub fn read_text_member(doc: &[u8], key: &str) -> (found: Option<String>)
    ensures
        found is Some <==> text_member(doc@, key@) is Some,
        found matches Some(text) ==> text_member(doc@, key@) == Some(text@),
{
    match member(doc, key) {
        Some(part) => string(part.as_slice()),
        None => None,
    }
}

/// The first element of the array member `key` of the JSON object `doc`.
pub open spec fn first_of_member(doc: Seq<u8>, key: Seq<char>) -> Option<Seq<u8>> {
    match json_member(doc, key) {
        Some(list) => json_element(list, 0),
        None => None,
    }
}

/// Reads the first element of the array member `key` of the JSON object `doc`.
pub fn read_first_of_member(doc: &[u8], key: &str) -> (found: Option<Vec<u8>>)
    ensures
        found is Some <==> first_of_member(doc@, key@) is Some,
        found matches Some(part) ==> first_of_member(doc@, key@) == Some(part@),
{
    match member(doc, key) {
        Some(list) => element(list.as_slice(), 0),
        None => None,
    }
}

} // verus!
