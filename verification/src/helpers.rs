//! Small, general helper functions for the printable-text boundary encoding.
//!
//! All binary fields are stored as standard base 64 text with `=` padding.
//! The encoding is modelled by the name [`b64_encode`]; the decoder rejects
//! anything that is not the canonical encoding of some byte string.
use base64ct::Encoding;
use vstd::prelude::*;

use crate::error::Error;

verus! {

/// The standard base 64 encoding (with `=` padding) of a byte string, as
/// computed by `base64ct::Base64::encode_string`.
pub uninterp spec fn b64_encode(bytes: Seq<u8>) -> Seq<char>;

/// Relies on `base64ct::Base64::encode_string` (standard alphabet, padded):
/// it returns the canonical encoding, four characters for every three bytes,
/// and `Base64::decode_vec` inverts it.
#[verifier::external_body]
pub fn bytes_to_b64(bytes: &[u8]) -> (r: String)
    ensures
        r@ == b64_encode(bytes@),
        r@.len() == 4 * ((bytes@.len() + 2) / 3),
{
    base64ct::Base64::encode_string(bytes)
}

/// Relies on `base64ct::Base64::decode_vec` (strict, canonical): it succeeds
/// exactly on the canonical padded encoding of some byte string and returns
/// that byte string.
#[verifier::external_body]
fn b64_decode_vec(s: &str) -> (r: Option<Vec<u8>>)
    ensures
        r matches Some(v) ==> s@ == b64_encode(v@),
        (exists|u: Seq<u8>| s@ == b64_encode(u)) ==> r is Some,
        r matches Some(v) ==> forall|u: Seq<u8>| s@ == b64_encode(u) ==> v@ == u,
{
    match base64ct::Base64::decode_vec(s) {
        Ok(v) => Some(v),
        Err(_) => None,
    }
}

/// Convert a base 64 string to bytes.
pub fn b64_to_bytes(s: &str) -> (r: Result<Vec<u8>, Error>)
    ensures
        r matches Ok(v) ==> s@ == b64_encode(v@),
        (exists|u: Seq<u8>| s@ == b64_encode(u)) ==> r is Ok,
        r matches Ok(v) ==> forall|u: Seq<u8>| s@ == b64_encode(u) ==> v@ == u,
        r matches Err(e) ==> e matches Error::InvalidB64Error(t) && t@ == s@,
{
    match b64_decode_vec(s) {
        Some(v) => Ok(v),
        None => Err(Error::InvalidB64Error(s.to_owned())),
    }
}

/// Return `true` iff the input string is parseable as a standard base
/// 64-encoded string.
pub fn is_base64(string: &str) -> (r: bool)
    ensures
        (exists|u: Seq<u8>| string@ == b64_encode(u)) ==> r,
{
    b64_to_bytes(string).is_ok()
}

/// Convert a base 64 string to a byte vector of a fixed length; reject any
/// other length.
pub fn b64_to_fixed<const LEN: usize>(src: &str, debug_name: &str) -> (r: Result<
    Vec<u8>,
    Error,
>)
    ensures
        r matches Ok(v) ==> src@ == b64_encode(v@) && v@.len() == LEN,
        (exists|u: Seq<u8>| src@ == b64_encode(u) && u.len() == LEN) ==> r is Ok,
        r matches Ok(v) ==> forall|u: Seq<u8>| src@ == b64_encode(u) ==> v@ == u,
        (exists|u: Seq<u8>| src@ == b64_encode(u)) && r is Err ==> (r matches Err(e)
            && e matches Error::InvalidLengthB64Error(d, l, a) && d@ == debug_name@ && l == LEN
            && (forall|u: Seq<u8>| src@ == b64_encode(u) ==> a == u.len())),
        !(exists|u: Seq<u8>| src@ == b64_encode(u)) ==> (r matches Err(e) && e
            matches Error::InvalidB64Error(t) && t@ == src@),
        r matches Err(e) ==> e is InvalidB64Error || e is InvalidLengthB64Error,
{
    let decoded = b64_to_bytes(src)?;
    let actual_length = decoded.len();
    if actual_length != LEN {
        Err(Error::InvalidLengthB64Error(debug_name.to_owned(), LEN, actual_length))
    } else {
        Ok(decoded)
    }
}

/// Relies on `core::str::from_utf8`: it succeeds exactly on valid UTF-8 and
/// returns the string those bytes spell.
#[verifier::external_body]
fn str_from_utf8(bytes: &[u8]) -> (r: Option<&str>)
    ensures
        r matches Some(s) ==> s@ == vstd::utf8::decode_utf8(bytes@) && vstd::utf8::valid_utf8(
            bytes@,
        ),
        vstd::utf8::valid_utf8(bytes@) ==> r is Some,
{
    match core::str::from_utf8(bytes) {
        Ok(s) => Some(s),
        Err(_) => None,
    }
}

/// Convert bytes to a UTF-8 string.
pub fn bytes_to_utf8(bytes: &[u8], debug_name: &str) -> (r: Result<String, Error>)
    ensures
        r matches Ok(s) ==> s@ == vstd::utf8::decode_utf8(bytes@) && vstd::utf8::valid_utf8(
            bytes@,
        ),
        vstd::utf8::valid_utf8(bytes@) ==> r is Ok,
        r matches Err(e) ==> e matches Error::Utf8FromBytesError(n) && n@ == debug_name@,
{
    match str_from_utf8(bytes) {
        Some(s) => Ok(s.to_owned()),
        None => Err(Error::Utf8FromBytesError(debug_name.to_owned())),
    }
}

} // verus!
