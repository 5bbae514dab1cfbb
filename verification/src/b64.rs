//! Base64 codecs, trusted at the boundary of the `base64` crate.
//!
//! Two engines are used on the wire: the padded standard alphabet for
//! evidence, wrapped keys and secret fields, and the unpadded URL-safe
//! alphabet for the fields of a KBS JWE-like response.  Both engines decode
//! strictly (canonical padding, no stray trailing bits), so decoding accepts
//! exactly the strings that encoding produces; the contracts below state
//! that inverse relation over two named encoding functions.

use vstd::prelude::*;
use crate::error::Error;

verus! {

/// The padded standard-alphabet base64 encoding of `b`.
pub uninterp spec fn b64_std_of(b: Seq<u8>) -> Seq<char>;

/// The unpadded URL-safe-alphabet base64 encoding of `b`.
pub uninterp spec fn b64_url_nopad_of(b: Seq<u8>) -> Seq<char>;

/// Relies on `base64`'s `STANDARD` engine: encoding is a pure function of
/// the input bytes, four characters for every three bytes, empty on empty.
#[verifier::external_body]
pub fn b64_encode(data: &[u8]) -> (r: String)
    ensures
        r@ == b64_std_of(data@),
        data@.len() == 0 ==> r@.len() == 0,
        data@.len() > 0 ==> r@.len() > 0,
{
    base64::Engine::encode(&base64::engine::general_purpose::STANDARD, data)
}

/// Relies on `base64`'s `STANDARD` engine: decoding requires canonical
/// padding and rejects non-zero trailing bits, so it succeeds exactly on the
/// encodings and inverts [`b64_encode`].
#[verifier::external_body]
pub fn b64_decode(s: &str) -> (r: Result<Vec<u8>, Error>)
    ensures
        forall|b: Seq<u8>| s@ == #[trigger] b64_std_of(b) ==> r is Ok,
        r matches Ok(v) ==> b64_std_of(v@) == s@,
        r matches Ok(v) ==> forall|b: Seq<u8>| s@ == #[trigger] b64_std_of(b) ==> v@ == b,
        r matches Err(e) ==> e is Parse,
{
    match base64::Engine::decode(&base64::engine::general_purpose::STANDARD, s) {
        Ok(v) => Ok(v),
        Err(e) => Err(Error::Parse(format!("invalid base64: {e}"))),
    }
}

/// Relies on `base64`'s `URL_SAFE_NO_PAD` engine: strict decoding, inverse
/// of the unpadded URL-safe encoding.
#[verifier::external_body]
pub fn b64_url_nopad_decode(s: &str) -> (r: Result<Vec<u8>, Error>)
    ensures
        forall|b: Seq<u8>| s@ == #[trigger] b64_url_nopad_of(b) ==> r is Ok,
        r matches Ok(v) ==> b64_url_nopad_of(v@) == s@,
        r matches Ok(v) ==> forall|b: Seq<u8>| s@ == #[trigger] b64_url_nopad_of(b) ==> v@ == b,
        r matches Err(e) ==> e is Parse,
{
    match base64::Engine::decode(&base64::engine::general_purpose::URL_SAFE_NO_PAD, s) {
        Ok(v) => Ok(v),
        Err(e) => Err(Error::Parse(format!("invalid base64url: {e}"))),
    }
}

} // verus!
