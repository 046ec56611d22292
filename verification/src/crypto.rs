//! MAC computation and encodings shared by the MT submission endpoint and
//! the webhook sender.
//!
//! The outside implementations are trusted. What each call returns is a
//! function of its arguments alone, so it is given a name; the callers'
//! contracts are exact over those names.

use vstd::prelude::*;
use hmac::KeyInit;
use hmac::Mac;
use base64::Engine;

verus! {

/// The HMAC-SHA256 tag of a message under a key.
pub uninterp spec fn hmac_sha256_of(key: Seq<u8>, message: Seq<u8>) -> Seq<u8>;

/// Relies on hmac::Hmac with sha2::Sha256: the tag depends on key and
/// message alone and is 32 bytes; HMAC accepts keys of any length, so
/// new_from_slice never fails.
#[verifier::external_body]
pub(crate) fn hmac_sha256(key: &Vec<u8>, message: &Vec<u8>) -> (r: Vec<u8>)
    ensures
        r@ == hmac_sha256_of(key@, message@),
        r@.len() == 32,
{
    let mut mac = <hmac::Hmac<sha2::Sha256> as KeyInit>::new_from_slice(key).expect(
        "HMAC accepts keys of any length",
    );
    mac.update(message);
    mac.finalize().into_bytes().to_vec()
}

/// The base64 text (standard alphabet, padded) of a byte sequence.
pub uninterp spec fn base64_of(b: Seq<u8>) -> Seq<char>;

/// Relies on base64's STANDARD engine encode: the text depends on the bytes
/// alone; four characters for every three bytes begun.
#[verifier::external_body]
pub(crate) fn base64_encode(b: &Vec<u8>) -> (r: String)
    ensures
        r@ == base64_of(b@),
        r@.len() == 4 * ((b@.len() + 2) / 3),
{
    base64::engine::general_purpose::STANDARD.encode(b)
}

/// The bytes a text decodes to, when it is valid standard base64.
pub uninterp spec fn base64_decoded(s: Seq<char>) -> Option<Seq<u8>>;

/// Relies on base64's STANDARD engine decode: success and result depend on
/// the text alone, and the output is no longer than the input.
#[verifier::external_body]
pub(crate) fn base64_decode(s: &str) -> (r: Option<Vec<u8>>)
    ensures
        r is Some <==> base64_decoded(s@) is Some,
        r matches Some(v) ==> (base64_decoded(s@) matches Some(w) && v@ == w && v@.len()
            <= s@.len()),
{
    match base64::engine::general_purpose::STANDARD.decode(s) {
        Ok(v) => Some(v),
        Err(_) => None,
    }
}

/// Relies on constant_time_eq::constant_time_eq: returns whether the two
/// byte strings are equal, compared in constant time.
#[verifier::external_body]
pub(crate) fn bytes_eq_ct(a: &Vec<u8>, b: &Vec<u8>) -> (r: bool)
    ensures
        r == (a@ == b@),
{
    constant_time_eq::constant_time_eq(a, b)
}

/// The `Kosmos-MAC` header value for an outbound webhook body: base64 of
/// the HMAC-SHA256 tag of the exact body bytes under the target's key.
pub fn webhook_mac(key: &Vec<u8>, body: &Vec<u8>) -> (r: String)
    ensures
        r@ == base64_of(hmac_sha256_of(key@, body@)),
{
    let tag = hmac_sha256(key, body);
    base64_encode(&tag)
}

} // verus!
