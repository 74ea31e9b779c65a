//! Hexadecimal text, as the `hex` crate reads it.

use vstd::prelude::*;

verus! {

/// The value of one hexadecimal digit, given as an ASCII byte; upper and
/// lower case letters are both digits.
pub open spec fn hex_digit_value(c: u8) -> Option<u8> {
    if 0x30 <= c <= 0x39 {
        Some((c - 0x30) as u8)
    } else if 0x41 <= c <= 0x46 {
        Some((c - 0x41 + 10) as u8)
    } else if 0x61 <= c <= 0x66 {
        Some((c - 0x61 + 10) as u8)
    } else {
        None
    }
}

/// Whether every byte of `text` is a hexadecimal digit.
pub open spec fn all_hex_digits(text: Seq<u8>) -> bool {
    forall|i: int| 0 <= i < text.len() ==> (#[trigger] hex_digit_value(text[i])) is Some
}

/// The bytes that a hexadecimal text stands for: two digits per byte, the
/// high half first. `None` when the length is odd or some byte is no digit.
pub open spec fn hex_decoded(text: Seq<u8>) -> Option<Seq<u8>> {
    if text.len() % 2 == 0 && all_hex_digits(text) {
        Some(
            Seq::new(
                text.len() / 2,
                |i: int|
                    (hex_digit_value(text[2 * i])->0 * 16 + hex_digit_value(
                        text[2 * i + 1],
                    )->0) as u8,
            ),
        )
    } else {
        None
    }
}

/// The lower-case digit for a value below 16.
pub open spec fn hex_digit(value: int) -> u8 {
    if value < 10 {
        (0x30 + value) as u8
    } else {
        (0x61 + value - 10) as u8
    }
}

/// The lower-case hexadecimal text of `bytes`.
pub open spec fn hex_encoded(bytes: Seq<u8>) -> Seq<u8> {
    Seq::new(
        2 * bytes.len(),
        |i: int|
            if i % 2 == 0 {
                hex_digit(bytes[i / 2] as int / 16)
            } else {
                hex_digit(bytes[i / 2] as int % 16)
            },
    )
}

/// Decoding the lower-case hexadecimal text of some bytes gives those bytes back.
pub proof fn lemma_hex_round_trip(bytes: Seq<u8>)
    ensures
        hex_decoded(hex_encoded(bytes)) == Some(bytes),
        hex_encoded(bytes).len() == 2 * bytes.len(),
{
    let text = hex_encoded(bytes);
    assert(all_hex_digits(text)) by {
        assert forall|i: int| 0 <= i < text.len() implies (#[trigger] hex_digit_value(
            text[i],
        )) is Some by {
            let b = bytes[i / 2] as int;
            assert(0 <= b / 16 < 16 && 0 <= b % 16 < 16);
        }
    }
    let back = hex_decoded(text)->0;
    assert(back.len() == bytes.len());
    assert forall|i: int| 0 <= i < bytes.len() implies back[i] == bytes[i] by {
        let b = bytes[i] as int;
        assert((2 * i) / 2 == i && (2 * i) % 2 == 0);
        assert((2 * i + 1) / 2 == i && (2 * i + 1) % 2 == 1);
        assert(0 <= b / 16 < 16 && 0 <= b % 16 < 16);
        assert(text[2 * i] == hex_digit(b / 16));
        assert(text[2 * i + 1] == hex_digit(b % 16));
        assert(hex_digit_value(hex_digit(b / 16)) == Some((b / 16) as u8));
        assert(hex_digit_value(hex_digit(b % 16)) == Some((b % 16) as u8));
        assert((b / 16) * 16 + b % 16 == b);
    }
    assert(back =~= bytes);
}

/// `hex::FromHexError`, carried through unread.
#[verifier::external_type_specification]
#[verifier::external_body]
pub struct ExFromHexError(hex::FromHexError);

/// `hex::decode`: fails on a text of odd length and on a byte that is no
/// hexadecimal digit of either case; otherwise it returns one byte for each
/// pair of digits, the first digit of a pair being the high half.
#[verifier::external_body]
fn decode_hex_text(text: &[u8]) -> (decoded: Result<Vec<u8>, hex::FromHexError>)
    ensures
        decoded is Ok <==> hex_decoded(text@) is Some,
        decoded matches Ok(bytes) ==> hex_decoded(text@) == Some(bytes@),
{
    hex::decode(text)
}

/// Decodes a hexadecimal text; `None` where it is not one.
pub fn hex_decode(text: &[u8]) -> (decoded: Option<Vec<u8>>)
    ensures
        decoded is Some <==> hex_decoded(text@) is Some,
        decoded matches Some(bytes) ==> hex_decoded(text@) == Some(bytes@),
{
    match decode_hex_text(text) {
        Ok(bytes) => Some(bytes),
        Err(_) => None,
    }
}

} // verus!
