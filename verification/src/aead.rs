//! AES-256-GCM and the operating system's random source, as the `aes-gcm`
//! crate and its re-exported `OsRng` provide them.

use aes_gcm::aead::{Aead, KeyInit, OsRng};
use aes_gcm::{Aes256Gcm, Key, Nonce};
use rand::RngCore;
use vstd::prelude::*;

verus! {

/// Length of an AES-256 key in bytes.
pub const KEY_LEN: usize = 32;

/// Length of the nonce in bytes.
pub const NONCE_LEN: usize = 12;

/// Length of the authentication tag in bytes.
pub const TAG_LEN: usize = 16;

/// The longest plaintext, in bytes, that the cipher accepts.
pub const MAX_PLAINTEXT_LEN: u64 = 0x10_0000_0000;

/// AES-256-GCM sealing without associated data: the ciphertext of
/// `plaintext` followed by the tag.
pub uninterp spec fn aes256_gcm_seal(key: Seq<u8>, nonce: Seq<u8>, plaintext: Seq<u8>) -> Seq<u8>;

/// AES-256-GCM opening without associated data: the plaintext, or `None`
/// where the tag does not verify.
pub uninterp spec fn aes256_gcm_open(key: Seq<u8>, nonce: Seq<u8>, sealed: Seq<u8>) -> Option<
    Seq<u8>,
>;

/// `aes_gcm::Error`, carried through unread.
#[verifier::external_type_specification]
#[verifier::external_body]
pub struct ExAeadError(aes_gcm::Error);

/// `rand::Error`, carried through unread.
#[verifier::external_type_specification]
#[verifier::external_body]
pub struct ExRandError(rand::Error);

/// `Aes256Gcm::new` and `Aead::encrypt`: fails exactly on a plaintext longer
/// than the cipher's limit; otherwise returns the ciphertext, as long as the
/// plaintext, followed by the 16-byte tag, and that output opens under the
/// same key and nonce to the plaintext. `Key::from_slice` and
/// `Nonce::from_slice` panic on other lengths, which `requires` excludes.
#[verifier::external_body]
pub(crate) fn seal(key: &[u8], nonce: &[u8], plaintext: &[u8]) -> (sealed: Result<
    Vec<u8>,
    aes_gcm::Error,
>)
    requires
        key@.len() == KEY_LEN,
        nonce@.len() == NONCE_LEN,
    ensures
        sealed is Ok <==> plaintext@.len() <= MAX_PLAINTEXT_LEN,
        sealed matches Ok(out) ==> {
            &&& out@ == aes256_gcm_seal(key@, nonce@, plaintext@)
            &&& out@.len() == plaintext@.len() + TAG_LEN
            &&& aes256_gcm_open(key@, nonce@, out@) == Some(plaintext@)
        },
{
    let cipher = Aes256Gcm::new(Key::<Aes256Gcm>::from_slice(key));
    cipher.encrypt(Nonce::from_slice(nonce), plaintext)
}

/// `Aes256Gcm::new` and `Aead::decrypt`: the plaintext, 16 bytes shorter
/// than the input, where the tag at the end of the input verifies, and an
/// error otherwise; an input shorter than a tag is always an error.
#[verifier::external_body]
pub(crate) fn open(key: &[u8], nonce: &[u8], sealed: &[u8]) -> (opened: Result<
    Vec<u8>,
    aes_gcm::Error,
>)
    requires
        key@.len() == KEY_LEN,
        nonce@.len() == NONCE_LEN,
    ensures
        opened is Ok <==> aes256_gcm_open(key@, nonce@, sealed@) is Some,
        opened matches Ok(plain) ==> {
            &&& aes256_gcm_open(key@, nonce@, sealed@) == Some(plain@)
            &&& plain@.len() + TAG_LEN == sealed@.len()
        },
        sealed@.len() < TAG_LEN ==> opened is Err,
{
    let cipher = Aes256Gcm::new(Key::<Aes256Gcm>::from_slice(key));
    cipher.decrypt(Nonce::from_slice(nonce), sealed)
}

/// `OsRng.try_fill_bytes` on a zeroed buffer of `len` bytes: the filled
/// buffer, or the error of the operating system's random source. Nothing is
/// claimed of the bytes themselves.
#[verifier::external_body]
pub(crate) fn random_bytes(len: usize) -> (filled: Result<Vec<u8>, rand::Error>)
    ensures
        filled matches Ok(bytes) ==> bytes@.len() == len,
{
    let mut buffer = vec![0u8; len];
    OsRng.try_fill_bytes(&mut buffer).map(|_| buffer)
}

} // verus!
