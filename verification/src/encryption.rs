//! Authenticated encryption of byte payloads and of JSON documents.
//!
//! An encrypted blob is the 12-byte nonce followed by the AES-256-GCM
//! ciphertext and its 16-byte tag. An envelope is the standard padded
//! base64 text of such a blob.

use crate::aead::{
    aes256_gcm_open, aes256_gcm_seal, open, random_bytes, seal, KEY_LEN, MAX_PLAINTEXT_LEN,
    NONCE_LEN, TAG_LEN,
};
use crate::base64code::{base64_bytes, base64_decode, base64_encode, base64_fits, base64_text};
use crate::json::{json_parses, parses};
use crate::key::{derive_key, derive_key_spec};
use vstd::prelude::*;
use vstd::slice::slice_subrange;

verus! {

/// Why a blob could not be decrypted.
#[derive(Debug, Clone, Copy, PartialEq, Eq, Structural)]
pub enum DecryptError {
    /// The blob is shorter than a nonce.
    TooShort,
    /// The authentication tag does not verify: the blob was made with
    /// another key, or was altered or damaged on the way.
    AuthFailed,
}

/// Why a payload could not be encrypted.
#[derive(Debug, Clone, Copy, PartialEq, Eq, Structural)]
pub enum EncryptError {
    /// The operating system's random source gave no nonce.
    RandomSource,
    /// The payload is longer than the cipher or the envelope can hold.
    TooLong,
}

/// Why an envelope could not be opened.
#[derive(Debug, Clone, Copy, PartialEq, Eq, Structural)]
pub enum EnvelopeError {
    /// The envelope is no standard padded base64 text.
    Encoding,
    /// The blob inside the envelope could not be decrypted.
    Decrypt(DecryptError),
    /// The decrypted payload is no JSON document.
    Payload,
}

/// The blob that encrypting `plaintext` under `key` with `nonce` gives.
pub open spec fn sealed_blob(key: Seq<u8>, nonce: Seq<u8>, plaintext: Seq<u8>) -> Seq<u8> {
    nonce + aes256_gcm_seal(key, nonce, plaintext)
}

/// What decrypting `blob` under `key` gives.
pub open spec fn opened_blob(key: Seq<u8>, blob: Seq<u8>) -> Result<Seq<u8>, DecryptError> {
    if blob.len() < NONCE_LEN {
        Err(DecryptError::TooShort)
    } else {
        match aes256_gcm_open(
            key,
            blob.subrange(0, NONCE_LEN as int),
            blob.subrange(NONCE_LEN as int, blob.len() as int),
        ) {
            Some(plaintext) => Ok(plaintext),
            None => Err(DecryptError::AuthFailed),
        }
    }
}

/// What opening the envelope `text` under `key` gives.
pub open spec fn opened_envelope(key: Seq<u8>, text: Seq<char>) -> Result<Seq<u8>, EnvelopeError> {
    match base64_bytes(text) {
        None => Err(EnvelopeError::Encoding),
        Some(blob) => match opened_blob(key, blob) {
            Err(e) => Err(EnvelopeError::Decrypt(e)),
            Ok(payload) => if json_parses(payload) {
                Ok(payload)
            } else {
                Err(EnvelopeError::Payload)
            },
        },
    }
}

/// Whether `envelope` holds a blob that decrypts under `key` to `payload`.
pub open spec fn carries(key: Seq<u8>, envelope: Seq<char>, payload: Seq<u8>) -> bool {
    base64_bytes(envelope) matches Some(blob) && opened_blob(key, blob) matches Ok(opened)
        && opened == payload
}

/// The bytes of a result that holds a byte vector.
pub open spec fn result_bytes<E>(result: Result<Vec<u8>, E>) -> Result<Seq<u8>, E> {
    match result {
        Ok(bytes) => Ok(bytes@),
        Err(e) => Err(e),
    }
}

/// Whether a payload of `len` bytes can be put into an envelope.
pub open spec fn envelope_fits(len: nat) -> bool {
    len <= MAX_PLAINTEXT_LEN && base64_fits((len + NONCE_LEN + TAG_LEN) as nat)
}

/// A blob is framed so that decrypting finds the nonce again: wherever
/// the cipher opens what it sealed, a blob decrypts to what was encrypted.
pub proof fn lemma_blob_round_trip(key: Seq<u8>, nonce: Seq<u8>, plaintext: Seq<u8>)
    requires
        nonce.len() == NONCE_LEN,
        aes256_gcm_open(key, nonce, aes256_gcm_seal(key, nonce, plaintext)) == Some(plaintext),
    ensures
        opened_blob(key, sealed_blob(key, nonce, plaintext)) matches Ok(opened) && opened
            == plaintext,
{
    let blob = sealed_blob(key, nonce, plaintext);
    assert(blob.subrange(0, NONCE_LEN as int) =~= nonce);
    assert(blob.subrange(NONCE_LEN as int, blob.len() as int) =~= aes256_gcm_seal(
        key,
        nonce,
        plaintext,
    ));
}

/// Whether a payload of `len` bytes can be put into an envelope.
pub fn fits_envelope(len: usize) -> (fits: bool)
    ensures
        fits == envelope_fits(len as nat),
{
    if len as u64 > MAX_PLAINTEXT_LEN || len > usize::MAX - (NONCE_LEN + TAG_LEN) {
        return false;
    }
    let blob_len = len + NONCE_LEN + TAG_LEN;
    let chunks = blob_len / 3 + if blob_len % 3 > 0 {
        1
    } else {
        0
    };
    assert(chunks == (blob_len + 2) / 3);
    chunks <= usize::MAX / 4
}

/// A cipher bound to one 32-byte key, which never changes.
pub struct SecureMessenger {
    key: Vec<u8>,
}

impl SecureMessenger {
    #[verifier::type_invariant]
    spec fn well_formed(self) -> bool {
        self.key@.len() == KEY_LEN
    }

    /// The 32 bytes of the key.
    pub closed spec fn key(self) -> Seq<u8> {
        self.key@
    }

    /// A cipher for the key derived from an operator-supplied secret.
    pub fn new(key: &str) -> (messenger: Self)
        ensures
            messenger.key() == derive_key_spec(key@),
            messenger.key().len() == KEY_LEN,
    {
        SecureMessenger { key: derive_key(key) }
    }

    /// The key's bytes.
    pub fn key_bytes(&self) -> (bytes: Vec<u8>)
        ensures
            bytes@ == self.key(),
            bytes@.len() == KEY_LEN,
    {
        proof {
            use_type_invariant(self);
        }
        self.key.clone()
    }

    /// Encrypts `data` with the given nonce. The blob that comes back
    /// decrypts under the same key to `data`.
    pub fn encrypt_with_nonce(&self, nonce: &[u8; 12], data: &[u8]) -> (blob: Result<
        Vec<u8>,
        EncryptError,
    >)
        ensures
            blob is Ok <==> data@.len() <= MAX_PLAINTEXT_LEN,
            blob matches Err(e) ==> e == EncryptError::TooLong,
            blob matches Ok(out) ==> {
                &&& out@ == sealed_blob(self.key(), nonce@, data@)
                &&& out@.len() == NONCE_LEN + data@.len() + TAG_LEN
                &&& opened_blob(self.key(), out@) matches Ok(opened) && opened == data@
            },
    {
        proof {
            use_type_invariant(self);
        }
        match seal(self.key.as_slice(), nonce.as_slice(), data) {
            Ok(mut sealed) => {
                let mut out: Vec<u8> = Vec::new();
                out.extend_from_slice(nonce.as_slice());
                assert(out@ =~= nonce@);
                out.append(&mut sealed);
                proof {
                    lemma_blob_round_trip(self.key(), nonce@, data@);
                }
                Ok(out)
            },
            Err(_) => Err(EncryptError::TooLong),
        }
    }

    /// Encrypts `data` with a fresh random nonce. Whatever nonce was drawn,
    /// the blob starts with it and decrypts under the same key to `data`.
    pub fn encrypt(&self, data: &[u8]) -> (blob: Result<Vec<u8>, EncryptError>)
        ensures
            data@.len() > MAX_PLAINTEXT_LEN <==> (blob matches Err(e) && e
                == EncryptError::TooLong),
            blob matches Ok(out) ==> {
                &&& out@.len() == NONCE_LEN + data@.len() + TAG_LEN
                &&& out@ == sealed_blob(self.key(), out@.subrange(0, NONCE_LEN as int), data@)
                &&& opened_blob(self.key(), out@) matches Ok(opened) && opened == data@
            },
    {
        if data.len() as u64 > MAX_PLAINTEXT_LEN {
            return Err(EncryptError::TooLong);
        }
        match random_bytes(NONCE_LEN) {
            Ok(drawn) => {
                let mut nonce: [u8; 12] = [0u8; 12];
                let mut i: usize = 0;
                while i < NONCE_LEN
                    invariant
                        i <= NONCE_LEN,
                        drawn@.len() == NONCE_LEN,
                        forall|j: int| 0 <= j < i ==> nonce@[j] == drawn@[j],
                    decreases NONCE_LEN - i,
                {
                    nonce[i] = drawn[i];
                    i += 1;
                }
                let blob = self.encrypt_with_nonce(&nonce, data);
                proof {
                    assert(nonce@ =~= drawn@);
                    if blob is Ok {
                        assert(blob->Ok_0@.subrange(0, NONCE_LEN as int) =~= nonce@);
                    }
                }
                blob
            },
            Err(_) => Err(EncryptError::RandomSource),
        }
    }

    /// Decrypts a blob made by `encrypt` under the same key.
    pub fn decrypt(&self, data: &[u8]) -> (plaintext: Result<Vec<u8>, DecryptError>)
        ensures
            result_bytes(plaintext) == opened_blob(self.key(), data@),
            data@.len() < NONCE_LEN <==> (plaintext matches Err(e) && e == DecryptError::TooShort),
            NONCE_LEN <= data@.len() < NONCE_LEN + TAG_LEN ==> (plaintext matches Err(e) && e
                == DecryptError::AuthFailed),
            plaintext matches Ok(out) ==> out@.len() + NONCE_LEN + TAG_LEN == data@.len(),
    {
        proof {
            use_type_invariant(self);
        }
        if data.len() < NONCE_LEN {
            return Err(DecryptError::TooShort);
        }
        let nonce = slice_subrange(data, 0, NONCE_LEN);
        let sealed = slice_subrange(data, NONCE_LEN, data.len());
        match open(self.key.as_slice(), nonce, sealed) {
            Ok(out) => Ok(out),
            Err(_) => Err(DecryptError::AuthFailed),
        }
    }

    /// Encrypts the JSON text `json` with the given nonce and wraps the
    /// blob in an envelope.
    pub fn encrypt_json_with_nonce(&self, nonce: &[u8; 12], json: &[u8]) -> (envelope: Result<
        String,
        EncryptError,
    >)
        ensures
            envelope is Ok <==> envelope_fits(json@.len()),
            envelope matches Err(e) ==> e == EncryptError::TooLong,
            envelope matches Ok(text) ==> {
                &&& text@ == base64_text(sealed_blob(self.key(), nonce@, json@))
                &&& carries(self.key(), text@, json@)
                &&& json_parses(json@) ==> (opened_envelope(self.key(), text@) matches Ok(opened)
                    && opened == json@)
            },
    {
        if !fits_envelope(json.len()) {
            return Err(EncryptError::TooLong);
        }
        match self.encrypt_with_nonce(nonce, json) {
            Ok(blob) => Ok(base64_encode(blob.as_slice())),
            Err(e) => Err(e),
        }
    }

    /// Encrypts the JSON text `json` with a fresh random nonce and wraps the
    /// blob in an envelope. Whatever nonce was drawn, the envelope opens
    /// under the same key to `json`.
    pub fn encrypt_json(&self, json: &[u8]) -> (envelope: Result<String, EncryptError>)
        ensures
            !envelope_fits(json@.len()) <==> (envelope matches Err(e) && e
                == EncryptError::TooLong),
            envelope matches Ok(text) ==> {
                &&& carries(self.key(), text@, json@)
                &&& json_parses(json@) ==> (opened_envelope(self.key(), text@) matches Ok(opened)
                    && opened == json@)
            },
    {
        if !fits_envelope(json.len()) {
            return Err(EncryptError::TooLong);
        }
        match self.encrypt(json) {
            Ok(blob) => Ok(base64_encode(blob.as_slice())),
            Err(e) => Err(e),
        }
    }

    /// Opens an envelope: decodes the base64 text, decrypts the blob and
    /// checks that the payload is a JSON document, which it returns as text.
    pub fn decrypt_json(&self, data: &str) -> (payload: Result<Vec<u8>, EnvelopeError>)
        ensures
            result_bytes(payload) == opened_envelope(self.key(), data@),
    {
        match base64_decode(data) {
            Err(_) => Err(EnvelopeError::Encoding),
            Ok(blob) => match self.decrypt(blob.as_slice()) {
                Err(e) => Err(EnvelopeError::Decrypt(e)),
                Ok(out) => {
                    if parses(out.as_slice()) {
                        Ok(out)
                    } else {
                        Err(EnvelopeError::Payload)
                    }
                },
            },
        }
    }
}

} // verus!
