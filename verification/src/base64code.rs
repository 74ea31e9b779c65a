//! Standard padded base64, computed by the `base64` crate.

use base64::engine::general_purpose::STANDARD;
use base64::Engine;
use vstd::prelude::*;

verus! {

/// The standard, padded base64 text of `data`.
pub uninterp spec fn base64_text(data: Seq<u8>) -> Seq<char>;

/// The bytes that a standard, padded base64 text decodes to; `None` where
/// the decoder rejects the text.
pub uninterp spec fn base64_bytes(text: Seq<char>) -> Option<Seq<u8>>;

/// Whether the base64 text of `len` bytes has a length that fits in `usize`.
pub open spec fn base64_fits(len: nat) -> bool {
    4 * ((len + 2) / 3) <= usize::MAX
}

/// `base64::DecodeError`, carried through unread.
#[verifier::external_type_specification]
#[verifier::external_body]
pub struct ExDecodeError(base64::DecodeError);

/// `STANDARD.encode`: the base64 text of the input, which the same engine
/// decodes back to the input. The call panics where the length of the text
/// overflows `usize`, which `requires` excludes.
#[verifier::external_body]
pub(crate) fn base64_encode(data: &[u8]) -> (text: String)
    requires
        base64_fits(data@.len()),
    ensures
        text@ == base64_text(data@),
        base64_bytes(text@) == Some(data@),
{
    STANDARD.encode(data)
}

/// `STANDARD.decode`: the decoded bytes, or the decoder's error.
#[verifier::external_body]
pub(crate) fn base64_decode(text: &str) -> (decoded: Result<Vec<u8>, base64::DecodeError>)
    ensures
        decoded is Ok <==> base64_bytes(text@) is Some,
        decoded matches Ok(bytes) ==> base64_bytes(text@) == Some(bytes@),
{
    STANDARD.decode(text)
}

} // verus!
