//! The hash, MAC and encoding primitives that signing rests on.
//!
//! Each primitive is computed by an established crate. What this library
//! relies on is stated here and is not proved: the digests and escapes are
//! named as functions of their input, and hex encoding is spelled out.

use vstd::prelude::*;
use hmac::{Hmac, Mac};
use md5::{Digest, Md5};
use sha2::Sha256;

verus! {

/// The HMAC-SHA256 tag of `message` under `key`.
pub uninterp spec fn hmac_sha256(key: Seq<u8>, message: Seq<u8>) -> Seq<u8>;

/// The MD5 digest of `data`.
pub uninterp spec fn md5_digest(data: Seq<u8>) -> Seq<u8>;

/// The JSON string literal for `text`: quoted, with the escapes that JSON
/// requires.
pub uninterp spec fn json_string(text: Seq<char>) -> Seq<char>;

/// The `application/x-www-form-urlencoded` form of one name/value pair.
pub uninterp spec fn form_urlencoded_pair(name: Seq<char>, value: Seq<char>) -> Seq<char>;

/// The lower-case hexadecimal digit for `v < 16`.
pub open spec fn hex_digit(v: nat) -> char {
    if v < 10 {
        crate::text::digit_char(v)
    } else if v == 10 {
        'a'
    } else if v == 11 {
        'b'
    } else if v == 12 {
        'c'
    } else if v == 13 {
        'd'
    } else if v == 14 {
        'e'
    } else {
        'f'
    }
}

/// Lower-case hexadecimal text of `bytes`: two digits per byte, high nibble
/// first.
pub open spec fn hex_lower(bytes: Seq<u8>) -> Seq<char> {
    Seq::new(
        2 * bytes.len(),
        |i: int|
            if i % 2 == 0 {
                hex_digit((bytes[i / 2] / 16) as nat)
            } else {
                hex_digit((bytes[i / 2] % 16) as nat)
            },
    )
}

/// `Hmac::<Sha256>` of the `hmac` crate, fed `message` in one piece. The tag
/// is taken to be a function of key and message and to be 32 bytes long. The
/// constructor accepts a key of any length, so the call cannot fail.
#[verifier::external_body]
pub(crate) fn hmac_sha256_bytes(key: &[u8], message: &[u8]) -> (tag: Vec<u8>)
    ensures
        tag@ == hmac_sha256(key@, message@),
        tag@.len() == 32,
{
    let mut mac = Hmac::<Sha256>::new_from_slice(key).expect("HMAC can take key of any size");
    mac.update(message);
    mac.finalize().into_bytes().to_vec()
}

/// `Md5` of the `md-5` crate, fed `data` in one piece. The digest is taken
/// to be a function of the data and to be 16 bytes long.
#[verifier::external_body]
pub(crate) fn md5_bytes(data: &[u8]) -> (digest: Vec<u8>)
    ensures
        digest@ == md5_digest(data@),
        digest@.len() == 16,
{
    let mut hasher = Md5::new();
    hasher.update(data);
    hasher.finalize().to_vec()
}

/// `hex::encode`: every byte becomes two lower-case hexadecimal digits.
#[verifier::external_body]
pub(crate) fn hex_encode(bytes: &[u8]) -> (text: String)
    ensures
        text@ == hex_lower(bytes@),
{
    hex::encode(bytes)
}

/// The compact rendering that `serde_json` gives a string value. The text
/// is taken to be a function of the string alone.
#[verifier::external_body]
pub(crate) fn json_quote(text: &str) -> (literal: String)
    ensures
        literal@ == json_string(text@),
{
    serde_json::Value::from(text).to_string()
}

/// `form_urlencoded::Serializer` of the `url` crate, started on an empty
/// string and given a single pair. The text is taken to be a function of name
/// and value alone.
#[verifier::external_body]
pub(crate) fn form_urlencode_pair(name: &str, value: &str) -> (encoded: String)
    ensures
        encoded@ == form_urlencoded_pair(name@, value@),
{
    url::form_urlencoded::Serializer::new(String::new()).append_pair(name, value).finish()
}

} // verus!
