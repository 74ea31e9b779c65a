//! What a relay's answer means.
//!
//! The relay answers with a JSON object whose members are all optional.
//! This module reads the members that matter into `ReplyFields` and turns
//! them into a `SearchResult`, once for the plaintext transport and once
//! for the encrypted one.

use crate::api::{option_text, SearchResult, SearchResultView};
use crate::json::{
    json_member, json_string, member, read_text_member, string, text_member,
};
use crate::text::{chars_of, string_of};
use vstd::prelude::*;
use vstd::string::*;

verus! {

/// The uppercase mapping of a character outside ASCII, which may be more
/// than one character long.
pub uninterp spec fn unicode_uppercase(c: char) -> Seq<char>;

/// `char::to_uppercase`, collected: the character's uppercase mapping.
#[verifier::external_body]
fn to_uppercase(c: char) -> (upper: Vec<char>)
    ensures
        upper@ == unicode_uppercase(c),
{
    c.to_uppercase().collect()
}

/// The uppercase mapping of a character: an ASCII lower-case letter maps
/// to its upper-case letter, any other ASCII character to itself.
pub open spec fn uppercase(c: char) -> Seq<char> {
    if 'a' <= c <= 'z' {
        seq![((c as u8) - 32) as char]
    } else if c as u32 <= 0x7f {
        seq![c]
    } else {
        unicode_uppercase(c)
    }
}

/// The uppercase mapping of a character.
pub fn uppercase_of(c: char) -> (upper: Vec<char>)
    ensures
        upper@ == uppercase(c),
{
    if 'a' <= c && c <= 'z' {
        let mut upper: Vec<char> = Vec::new();
        upper.push(((c as u8) - 32) as char);
        upper
    } else if c as u32 <= 0x7f {
        let mut upper: Vec<char> = Vec::new();
        upper.push(c);
        upper
    } else {
        to_uppercase(c)
    }
}

/// `name` with its first character in upper case.
pub open spec fn capitalized(name: Seq<char>) -> Seq<char> {
    if name.len() == 0 {
        name
    } else {
        uppercase(name.first()) + name.drop_first()
    }
}

/// Puts the first character of `name` in upper case, for display.
pub fn capitalize(name: &str) -> (label: String)
    ensures
        label@ == capitalized(name@),
{
    let chars = chars_of(name);
    if chars.len() == 0 {
        return String::new();
    }
    let mut out = uppercase_of(chars[0]);
    let mut i: usize = 1;
    while i < chars.len()
        invariant
            1 <= i <= chars@.len(),
            out@ == uppercase(chars@[0]) + chars@.subrange(1, i as int),
        decreases chars.len() - i,
    {
        out.push(chars[i]);
        assert(chars@.subrange(1, i + 1) == chars@.subrange(1, i as int).push(chars@[i as int]));
        i += 1;
    }
    string_of(&out)
}

/// A member of a JSON object that is expected to be a string.
#[derive(Debug, Clone, PartialEq, Eq)]
pub enum Field {
    /// The object has no such member.
    Absent,
    /// The member is there, but is no string.
    Other,
    /// The member is this string.
    Text(String),
}

/// What a `Field` holds.
pub enum FieldView {
    Absent,
    Other,
    Text(Seq<char>),
}

impl View for Field {
    type V = FieldView;

    open spec fn view(&self) -> FieldView {
        match *self {
            Field::Absent => FieldView::Absent,
            Field::Other => FieldView::Other,
            Field::Text(text) => FieldView::Text(text@),
        }
    }
}

/// The members of a relay answer that the client reads.
#[derive(Debug, Clone, PartialEq, Eq)]
pub struct ReplyFields {
    pub response: Field,
    pub content: Field,
    pub conversation_id: Option<String>,
    pub provider: Option<String>,
    pub model: Option<String>,
    pub request_id: Option<String>,
}

/// What `ReplyFields` hold.
pub struct ReplyFieldsView {
    pub response: FieldView,
    pub content: FieldView,
    pub conversation_id: Option<Seq<char>>,
    pub provider: Option<Seq<char>>,
    pub model: Option<Seq<char>>,
    pub request_id: Option<Seq<char>>,
}

impl View for ReplyFields {
    type V = ReplyFieldsView;

    open spec fn view(&self) -> ReplyFieldsView {
        ReplyFieldsView {
            response: self.response@,
            content: self.content@,
            conversation_id: option_text(self.conversation_id),
            provider: option_text(self.provider),
            model: option_text(self.model),
            request_id: option_text(self.request_id),
        }
    }
}

/// The member `key` of the JSON object `doc`, as a field.
pub open spec fn field_of(doc: Seq<u8>, key: Seq<char>) -> FieldView {
    match json_member(doc, key) {
        None => FieldView::Absent,
        Some(part) => match json_string(part) {
            Some(text) => FieldView::Text(text),
            None => FieldView::Other,
        },
    }
}

/// The fields of the relay answer `doc`.
pub open spec fn reply_fields(doc: Seq<u8>) -> ReplyFieldsView {
    ReplyFieldsView {
        response: field_of(doc, "response"@),
        content: field_of(doc, "content"@),
        conversation_id: text_member(doc, "conversation_id"@),
        provider: text_member(doc, "provider"@),
        model: text_member(doc, "model"@),
        request_id: text_member(doc, "request_id"@),
    }
}

/// Reads the member `key` of the JSON object `doc` as a field.
pub fn read_field(doc: &[u8], key: &str) -> (field: Field)
    ensures
        field@ == field_of(doc@, key@),
{
    match member(doc, key) {
        None => Field::Absent,
        Some(part) => match string(part.as_slice()) {
            Some(text) => Field::Text(text),
            None => Field::Other,
        },
    }
}

/// Reads the fields of a relay answer.
pub fn read_reply_fields(doc: &[u8]) -> (fields: ReplyFields)
    ensures
        fields@ == reply_fields(doc@),
{
    ReplyFields {
        response: read_field(doc, "response"),
        content: read_field(doc, "content"),
        conversation_id: read_text_member(doc, "conversation_id"),
        provider: read_text_member(doc, "provider"),
        model: read_text_member(doc, "model"),
        request_id: read_text_member(doc, "request_id"),
    }
}

/// The provider name to show: the backend's own, capitalized, and
/// `Anthropic` where the backend names none.
pub open spec fn provider_label(provider: Option<Seq<char>>) -> Seq<char> {
    match provider {
        Some(name) => capitalized(name),
        None => "Anthropic"@,
    }
}

/// The text of a plaintext answer: the string `response`; without a
/// `response` member the string `content`; in every other case the raw body.
pub open spec fn plain_text(raw: Seq<char>, fields: ReplyFieldsView) -> Seq<char> {
    match fields.response {
        FieldView::Text(text) => text,
        FieldView::Other => raw,
        FieldView::Absent => match fields.content {
            FieldView::Text(text) => text,
            _ => raw,
        },
    }
}

/// The result of a plaintext answer with body `raw`; `fields` is `None`
/// where the body is no JSON text.
pub open spec fn plain_result_spec(
    raw: Seq<char>,
    fields: Option<ReplyFieldsView>,
) -> SearchResultView {
    match fields {
        Some(f) => SearchResultView {
            text: plain_text(raw, f),
            provider: provider_label(f.provider),
            model: f.model,
            conversation_id: f.conversation_id,
            request_id: f.request_id,
        },
        None => SearchResultView {
            text: raw,
            provider: "Anthropic"@,
            model: None,
            conversation_id: None,
            request_id: None,
        },
    }
}

/// The text of a decrypted answer: the string `response`; the empty text
/// where `response` is no string; without a `response` member the whole
/// answer in compact form.
pub open spec fn secure_text(whole: Seq<char>, fields: ReplyFieldsView) -> Seq<char> {
    match fields.response {
        FieldView::Text(text) => text,
        FieldView::Other => Seq::empty(),
        FieldView::Absent => whole,
    }
}

/// The result of a decrypted answer whose compact form is `whole`.
pub open spec fn secure_result_spec(whole: Seq<char>, fields: ReplyFieldsView) -> SearchResultView {
    SearchResultView {
        text: secure_text(whole, fields),
        provider: provider_label(fields.provider),
        model: fields.model,
        conversation_id: fields.conversation_id,
        request_id: fields.request_id,
    }
}

/// The provider name to show for the provider that the backend names.
pub fn label_provider(provider: &Option<String>) -> (label: String)
    ensures
        label@ == provider_label(option_text(*provider)),
{
    match provider {
        Some(name) => capitalize(name.as_str()),
        None => "Anthropic".to_string(),
    }
}

/// Builds the result of a plaintext answer with body `raw` from the
/// fields read out of it; `fields` is `None` where the body is no JSON text.
pub fn plain_result(raw: &str, fields: Option<ReplyFields>) -> (result: SearchResult)
    ensures
        result@ == plain_result_spec(
            raw@,
            match fields {
                Some(f) => Some(f@),
                None => None,
            },
        ),
{
    match fields {
        Some(f) => {
            let provider = label_provider(&f.provider);
            let text = match f.response {
                Field::Text(text) => text,
                Field::Other => raw.to_string(),
                Field::Absent => match f.content {
                    Field::Text(text) => text,
                    _ => raw.to_string(),
                },
            };
            SearchResult {
                text,
                provider,
                model: f.model,
                conversation_id: f.conversation_id,
                request_id: f.request_id,
            }
        },
        None => SearchResult {
            text: raw.to_string(),
            provider: "Anthropic".to_string(),
            model: None,
            conversation_id: None,
            request_id: None,
        },
    }
}

/// Builds the result of a decrypted answer, whose compact form is
/// `whole`, from the fields read out of it.
pub fn secure_result(whole: &str, fields: ReplyFields) -> (result: SearchResult)
    ensures
        result@ == secure_result_spec(whole@, fields@),
{
    let provider = label_provider(&fields.provider);
    let text = match fields.response {
        Field::Text(text) => text,
        Field::Other => String::new(),
        Field::Absent => whole.to_string(),
    };
    SearchResult {
        text,
        provider,
        model: fields.model,
        conversation_id: fields.conversation_id,
        request_id: fields.request_id,
    }
}

} // verus!
