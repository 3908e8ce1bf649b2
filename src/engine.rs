//! The decryption engine: transport-decoded blob = IV ‖ ciphertext, decrypted
//! with the process-wide key, and its inverse for producing protected files.
use vstd::prelude::*;
use vstd::utf8::*;
use vstd::slice::slice_subrange;
use crate::cipher::{
    base64_decode, base64_decoded, base64_encode, base64_encoded, cbc_decrypt, cbc_decrypted,
    cbc_encrypt, cbc_encrypted, utf8_string, IV_LEN, KEY_LEN,
};

verus! {

broadcast use {encode_utf8_decode_utf8, encode_utf8_valid_utf8};

/// Why a protected unit could not be decrypted.
#[derive(Debug, Clone, Copy, PartialEq, Eq, Structural)]
pub enum DecryptError {
    /// The transport-decoded blob holds fewer bytes than an IV.
    TooShort,
    /// The ciphertext is not whole blocks, or its padding is malformed.
    BadCipherText,
    /// The decrypted bytes are not UTF-8 text.
    NotUtf8,
}

/// The 256-bit key shared by every protected unit of a build.
pub struct SymmetricKey {
    bytes: Vec<u8>,
}

impl View for SymmetricKey {
    type V = Seq<u8>;

    closed spec fn view(&self) -> Seq<u8> {
        self.bytes@
    }
}

impl SymmetricKey {
    pub open spec fn wf(&self) -> bool {
        self@.len() == KEY_LEN
    }

    /// Reads the key as it is stored: base64 text of exactly 32 bytes.
    pub fn from_base64(text: &str) -> (r: Option<SymmetricKey>)
        ensures
            match base64_decoded(text@) {
                Some(b) => if b.len() == KEY_LEN {
                    r matches Some(k) && k@ == b && k.wf()
                } else {
                    r is None
                },
                None => r is None,
            },
    {
        match base64_decode(text) {
            Some(b) => {
                if b.len() == KEY_LEN {
                    Some(SymmetricKey { bytes: b })
                } else {
                    None
                }
            },
            None => None,
        }
    }

    /// Takes 32 raw bytes as the key.
    pub fn from_bytes(bytes: Vec<u8>) -> (r: Option<SymmetricKey>)
        ensures
            bytes@.len() == KEY_LEN <==> r is Some,
            r matches Some(k) ==> k@ == bytes@ && k.wf(),
    {
        if bytes.len() == KEY_LEN {
            Some(SymmetricKey { bytes })
        } else {
            None
        }
    }

    /// The raw key bytes.
    pub fn key_array(&self) -> (r: &[u8])
        ensures
            r@ == self@,
    {
        self.bytes.as_slice()
    }
}

/// The text that a decrypted payload stands for, or the error that stops it.
pub open spec fn payload_spec(key: Seq<u8>, buf: Seq<u8>) -> Result<Seq<char>, DecryptError>
    recommends
        buf.len() >= IV_LEN,
{
    match cbc_decrypted(key, buf.take(IV_LEN as int), buf.skip(IV_LEN as int)) {
        None => Err(DecryptError::BadCipherText),
        Some(p) => if valid_utf8(p) {
            Ok(decode_utf8(p))
        } else {
            Err(DecryptError::NotUtf8)
        },
    }
}

/// What a stored text decrypts to: text that is not base64 passes through as
/// it is; a base64 blob is split into IV and ciphertext and decrypted.
pub open spec fn decrypt_spec(key: Seq<u8>, text: Seq<char>) -> Result<Seq<char>, DecryptError> {
    match base64_decoded(text) {
        None => Ok(text),
        Some(buf) => if buf.len() < IV_LEN {
            Err(DecryptError::TooShort)
        } else {
            payload_spec(key, buf)
        },
    }
}

/// The stored form of a plaintext: base64 of IV ‖ CBC ciphertext.
pub open spec fn seal_spec(key: Seq<u8>, iv: Seq<u8>, plaintext: Seq<char>) -> Seq<char> {
    base64_encoded(iv + cbc_encrypted(key, iv, encode_utf8(plaintext)))
}

/// The view of a text result.
pub open spec fn text_result(r: Result<String, DecryptError>) -> Result<Seq<char>, DecryptError> {
    match r {
        Ok(s) => Ok(s@),
        Err(e) => Err(e),
    }
}

/// Decrypts a transport-decoded payload: the first 16 bytes are the IV, the
/// rest the ciphertext. Calling it on fewer than 16 bytes breaks its contract.
pub fn decrypt_payload(key: &SymmetricKey, buf: &[u8]) -> (r: Result<String, DecryptError>)
    requires
        key.wf(),
        buf@.len() >= IV_LEN,
    ensures
        text_result(r) == payload_spec(key@, buf@),
{
    let iv = slice_subrange(buf, 0, IV_LEN);
    let data = slice_subrange(buf, IV_LEN, buf.len());
    assert(iv@ =~= buf@.take(IV_LEN as int));
    assert(data@ =~= buf@.skip(IV_LEN as int));
    match cbc_decrypt(key.key_array(), iv, data) {
        None => Err(DecryptError::BadCipherText),
        Some(p) => match utf8_string(p) {
            Some(s) => Ok(s),
            None => Err(DecryptError::NotUtf8),
        },
    }
}

/// Decrypts a stored text. Text that is not valid base64 is returned
/// unchanged, as plain source; a decoded blob shorter than an IV is refused.
pub fn decrypt_string(key: &SymmetricKey, base64: &str) -> (r: Result<String, DecryptError>)
    requires
        key.wf(),
    ensures
        text_result(r) == decrypt_spec(key@, base64@),
{
    match base64_decode(base64) {
        None => Ok(base64.to_owned()),
        Some(buf) => {
            if buf.len() < IV_LEN {
                Err(DecryptError::TooShort)
            } else {
                decrypt_payload(key, buf.as_slice())
            }
        },
    }
}

/// Produces the stored form of a plaintext under a key and a 16-byte IV.
/// What it returns decrypts back to the plaintext.
pub fn seal(key: &SymmetricKey, iv: &[u8], plaintext: &str) -> (r: String)
    requires
        key.wf(),
        iv@.len() == IV_LEN,
        encode_utf8(plaintext@).len() <= usize::MAX / 8,
    ensures
        r@ == seal_spec(key@, iv@, plaintext@),
        decrypt_spec(key@, r@) == Ok::<Seq<char>, DecryptError>(plaintext@),
{
    let pt = plaintext.as_bytes();
    let ct = cbc_encrypt(key.key_array(), iv, pt);
    let mut blob: Vec<u8> = Vec::new();
    blob.extend_from_slice(iv);
    blob.extend_from_slice(ct.as_slice());
    assert(blob@ =~= iv@ + ct@);
    let r = base64_encode(blob.as_slice());
    proof {
        lemma_round_trip(key@, iv@, ct@, r@, plaintext@);
    }
    r
}

/// Round trip: a blob that decodes to an IV followed by the CBC encryption of
/// a text's UTF-8 bytes decrypts to that text.
pub proof fn lemma_round_trip(key: Seq<u8>, iv: Seq<u8>, ct: Seq<u8>, blob: Seq<char>, text: Seq<char>)
    requires
        iv.len() == IV_LEN,
        base64_decoded(blob) == Some(iv + ct),
        cbc_decrypted(key, iv, ct) == Some(encode_utf8(text)),
    ensures
        decrypt_spec(key, blob) == Ok::<Seq<char>, DecryptError>(text),
{
    let buf = iv + ct;
    assert(buf.take(IV_LEN as int) =~= iv);
    assert(buf.skip(IV_LEN as int) =~= ct);
}

/// Pass-through: a text that is not valid base64 decrypts to itself.
pub proof fn lemma_pass_through(key: Seq<u8>, text: Seq<char>)
    requires
        base64_decoded(text) is None,
    ensures
        decrypt_spec(key, text) == Ok::<Seq<char>, DecryptError>(text),
{
}

/// A decoded blob shorter than an IV is never taken as plain text: it is
/// refused, and the payload step is not reached.
pub proof fn lemma_short_blob_refused(key: Seq<u8>, text: Seq<char>)
    requires
        base64_decoded(text) matches Some(buf) && buf.len() < IV_LEN,
    ensures
        decrypt_spec(key, text) == Err::<Seq<char>, DecryptError>(DecryptError::TooShort),
{
}

} // verus!
