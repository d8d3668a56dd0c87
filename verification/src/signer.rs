//! The two keyed and unkeyed digests that every signing scheme is built
//! from, as text in and lower-case hexadecimal text out.

use vstd::prelude::*;
use vstd::string::*;
use vstd::utf8::encode_utf8;
use crate::error::MexcError;
use crate::codec::{hex_encode, hex_lower, hmac_sha256, hmac_sha256_bytes, md5_bytes, md5_digest};

verus! {

/// Hexadecimal text of the HMAC-SHA256 tag of the UTF-8 bytes of `message`,
/// keyed by the UTF-8 bytes of `secret`.
pub open spec fn hmac_hex(secret: Seq<char>, message: Seq<char>) -> Seq<char> {
    hex_lower(hmac_sha256(encode_utf8(secret), encode_utf8(message)))
}

/// Hexadecimal text of the MD5 digest of the UTF-8 bytes of `text`.
pub open spec fn md5_hex(text: Seq<char>) -> Seq<char> {
    hex_lower(md5_digest(encode_utf8(text)))
}

/// The text of an optional string slice.
pub open spec fn str_text(s: Option<&str>) -> Option<Seq<char>> {
    match s {
        Some(t) => Some(t@),
        None => None,
    }
}

/// The text of an optional string.
pub open spec fn text_of(s: Option<String>) -> Option<Seq<char>> {
    match s {
        Some(t) => Some(t@),
        None => None,
    }
}

/// Whether two results are the same text, or the same failure.
pub open spec fn same_text(a: Result<String, MexcError>, b: Result<String, MexcError>) -> bool {
    match (a, b) {
        (Ok(x), Ok(y)) => x@ == y@,
        (Err(e), Err(f)) => e == f,
        _ => false,
    }
}

/// Signs `message` with `secret`: HMAC-SHA256, hex-encoded.
pub fn hmac_sha256_hex(secret: &str, message: &str) -> (signature: String)
    ensures
        signature@ == hmac_hex(secret@, message@),
        signature@.len() == 64,
{
    let tag = hmac_sha256_bytes(secret.as_bytes(), message.as_bytes());
    hex_encode(tag.as_slice())
}

/// Hashes `text`: MD5, hex-encoded.
pub fn get_md5(text: &str) -> (digest: String)
    ensures
        digest@ == md5_hex(text@),
        digest@.len() == 32,
{
    let digest = md5_bytes(text.as_bytes());
    hex_encode(digest.as_slice())
}

} // verus!
