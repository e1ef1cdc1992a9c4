//! Base64 and HMAC-SHA256.

use base64::engine::general_purpose::{STANDARD, URL_SAFE_NO_PAD};
use base64::Engine;
use hmac::digest::InvalidLength;
use hmac::{Hmac, Mac};
use sha2::Sha256;
use vstd::prelude::*;

verus! {

/// What a keyed hash reports of a key whose length it cannot take.
#[verifier::external_type_specification]
#[verifier::external_body]
pub struct ExInvalidLength(InvalidLength);

/// The base64 text of `bytes`: standard alphabet, padded.
pub uninterp spec fn base64_text(bytes: Seq<u8>) -> Seq<char>;

/// The bytes that a padded base64 text in the standard alphabet stands for, where it is one.
pub uninterp spec fn base64_bytes(text: Seq<char>) -> Option<Seq<u8>>;

/// The bytes that an unpadded base64 text in the URL-safe alphabet stands for, where it is one.
pub uninterp spec fn base64url_bytes(text: Seq<char>) -> Option<Seq<u8>>;

/// The HMAC-SHA256 code of `message` under `key`.
pub uninterp spec fn hmac_sha256(key: Seq<u8>, message: Seq<u8>) -> Seq<u8>;

/// A character of the standard base64 alphabet, or its padding sign.
pub open spec fn is_base64_char(c: char) -> bool {
    'A' <= c <= 'Z' || 'a' <= c <= 'z' || '0' <= c <= '9' || c == '+' || c == '/' || c == '='
}

/// `base64::Engine::encode` of the engine `STANDARD`: the base64 text of `bytes`, which holds
/// nothing but characters of the alphabet and padding signs.
///
/// The text has four characters for each three bytes begun; a text that would not fit in
/// memory is ruled out.
#[verifier::external_body]
pub(crate) fn encode_base64(bytes: &[u8]) -> (r: String)
    requires
        bytes@.len() <= 0x3fff_ffff,
    ensures
        r@ == base64_text(bytes@),
        forall|i: int| 0 <= i < r@.len() ==> is_base64_char(#[trigger] r@[i]),
{
    STANDARD.encode(bytes)
}

/// `base64::Engine::decode` of the engine `STANDARD`: the bytes that `text` stands for, and
/// nothing exactly when it is no base64 text.
#[verifier::external_body]
pub(crate) fn decode_base64(text: &str) -> (r: Option<Vec<u8>>)
    ensures
        match r {
            Some(bytes) => base64_bytes(text@) == Some(bytes@),
            None => base64_bytes(text@) is None,
        },
{
    STANDARD.decode(text).ok()
}

/// `base64::Engine::decode` of the engine `URL_SAFE_NO_PAD`: the bytes that `text` stands for,
/// and nothing exactly when it is no such text.
#[verifier::external_body]
pub(crate) fn decode_base64url(text: &str) -> (r: Option<Vec<u8>>)
    ensures
        match r {
            Some(bytes) => base64url_bytes(text@) == Some(bytes@),
            None => base64url_bytes(text@) is None,
        },
{
    URL_SAFE_NO_PAD.decode(text).ok()
}

/// `hmac::Mac` over `Hmac<Sha256>`, from `new_from_slice` to `finalize`: the code of `message`
/// under `key`, which is of 32 bytes. A key of any length is taken.
#[verifier::external_body]
pub(crate) fn authentication_code(key: &[u8], message: &[u8]) -> (r: Result<Vec<u8>, InvalidLength>)
    ensures
        r is Ok,
        r->Ok_0@ == hmac_sha256(key@, message@),
        r->Ok_0@.len() == 32,
{
    let mut mac = Hmac::<Sha256>::new_from_slice(key)?;
    mac.update(message);
    Ok(mac.finalize().into_bytes().to_vec())
}

} // verus!
