//! The outside primitives of the decryption pipeline: the base64 transport
//! encoding and AES-256 in CBC mode with PKCS#7 padding, plus UTF-8 text
//! conversion. Each item here is trusted; everything else is proved against
//! the names and facts stated below.
use vstd::prelude::*;
use vstd::utf8::*;
use base64::engine::general_purpose;
use base64::Engine as _;
use aes::Aes256;
use block_modes::block_padding::Pkcs7;
use block_modes::{BlockMode, Cbc};

verus! {

/// Bytes of the initialization vector at the front of a decoded blob.
pub const IV_LEN: usize = 16;

/// Bytes of an AES-256 key.
pub const KEY_LEN: usize = 32;

/// What the standard base64 alphabet (with padding) decodes a text to, or
/// `None` where the text is not valid base64.
pub uninterp spec fn base64_decoded(text: Seq<char>) -> Option<Seq<u8>>;

/// The standard base64 text (with padding) of a byte string.
pub uninterp spec fn base64_encoded(bytes: Seq<u8>) -> Seq<char>;

/// What AES-256-CBC with PKCS#7 padding decrypts a ciphertext to under a key
/// and an IV, or `None` where the ciphertext is not a whole number of blocks
/// or its padding is malformed.
pub uninterp spec fn cbc_decrypted(key: Seq<u8>, iv: Seq<u8>, ct: Seq<u8>) -> Option<Seq<u8>>;

/// The AES-256-CBC ciphertext, PKCS#7 padded, of a plaintext under a key and an IV.
pub uninterp spec fn cbc_encrypted(key: Seq<u8>, iv: Seq<u8>, pt: Seq<u8>) -> Seq<u8>;

/// Relies on base64's `general_purpose::STANDARD.decode`: it returns the
/// decoded bytes, or an error where the text is not valid padded base64.
#[verifier::external_body]
pub(crate) fn base64_decode(text: &str) -> (r: Option<Vec<u8>>)
    ensures
        match r {
            Some(v) => base64_decoded(text@) == Some(v@),
            None => base64_decoded(text@) is None,
        },
{
    general_purpose::STANDARD.decode(text).ok()
}

/// Relies on base64's `general_purpose::STANDARD.encode`: it returns the
/// padded base64 text of the bytes, which the same engine decodes back to
/// them. It panics only where the output length overflows `usize`.
#[verifier::external_body]
pub(crate) fn base64_encode(bytes: &[u8]) -> (r: String)
    requires
        bytes@.len() <= usize::MAX / 2,
    ensures
        r@ == base64_encoded(bytes@),
        base64_decoded(r@) == Some(bytes@),
{
    general_purpose::STANDARD.encode(bytes)
}

/// Relies on block_modes' `Cbc::<Aes256, Pkcs7>::new_from_slices` (which
/// accepts a 32-byte key and a 16-byte IV) and `decrypt_vec`, which fails
/// where the ciphertext length is not a multiple of the 16-byte block or the
/// padding is malformed, and otherwise returns the unpadded plaintext.
#[verifier::external_body]
pub(crate) fn cbc_decrypt(key: &[u8], iv: &[u8], ct: &[u8]) -> (r: Option<Vec<u8>>)
    requires
        key@.len() == KEY_LEN,
        iv@.len() == IV_LEN,
    ensures
        match r {
            Some(v) => cbc_decrypted(key@, iv@, ct@) == Some(v@),
            None => cbc_decrypted(key@, iv@, ct@) is None,
        },
        ct@.len() % 16 != 0 ==> r is None,
{
    match Cbc::<Aes256, Pkcs7>::new_from_slices(key, iv) {
        Ok(c) => c.decrypt_vec(ct).ok(),
        Err(_) => None,
    }
}

/// Relies on block_modes' `Cbc::<Aes256, Pkcs7>::new_from_slices` and
/// `encrypt_vec`: it pads the plaintext with PKCS#7 and encrypts it in CBC
/// mode, so that `decrypt_vec` with the same key and IV gives it back.
#[verifier::external_body]
pub(crate) fn cbc_encrypt(key: &[u8], iv: &[u8], pt: &[u8]) -> (r: Vec<u8>)
    requires
        key@.len() == KEY_LEN,
        iv@.len() == IV_LEN,
        pt@.len() <= usize::MAX / 4,
    ensures
        r@ == cbc_encrypted(key@, iv@, pt@),
        cbc_decrypted(key@, iv@, r@) == Some(pt@),
        r@.len() % 16 == 0,
        r@.len() <= pt@.len() + 16,
{
    match Cbc::<Aes256, Pkcs7>::new_from_slices(key, iv) {
        Ok(c) => c.encrypt_vec(pt),
        Err(_) => Vec::new(),
    }
}

/// Relies on `String::from_utf8`: it succeeds exactly on valid UTF-8 and then
/// holds the decoded characters.
#[verifier::external_body]
pub(crate) fn utf8_string(bytes: Vec<u8>) -> (r: Option<String>)
    ensures
        r is Some <==> valid_utf8(bytes@),
        r matches Some(s) ==> s@ == decode_utf8(bytes@),
{
    String::from_utf8(bytes).ok()
}

} // verus!
