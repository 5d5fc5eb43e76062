//! Trusted wrappers around the digest and encoding crates used for scope
//! fingerprints and PKCE challenges.
//!
//! The results of these calls depend on their arguments alone, so each is
//! named by an uninterpreted spec function; everything the crate proves about
//! fingerprints and challenges is stated through those names.

use vstd::prelude::*;

use base64::Engine;
use sha2::Digest;

verus! {

/// The SHA-256 digest of a byte sequence.
pub uninterp spec fn sha256_of(data: Seq<u8>) -> Seq<u8>;

/// Relies on sha2's `Sha256`: a pure digest of the input bytes, 32 bytes long.
#[verifier::external_body]
pub fn sha256(data: &[u8]) -> (r: Vec<u8>)
    ensures
        r@ == sha256_of(data@),
        r@.len() == 32,
{
    sha2::Sha256::digest(data).to_vec()
}

/// The unpadded standard-alphabet base64 encoding of a byte sequence.
pub uninterp spec fn base64_nopad_of(data: Seq<u8>) -> Seq<char>;

/// Relies on base64's `STANDARD_NO_PAD` engine: a pure encoding of the input.
#[verifier::external_body]
pub fn base64_nopad(data: &[u8]) -> (r: String)
    ensures
        r@ == base64_nopad_of(data@),
{
    base64::engine::general_purpose::STANDARD_NO_PAD.encode(data)
}

/// The unpadded URL-safe base64 encoding of a byte sequence.
pub uninterp spec fn base64_url_nopad_of(data: Seq<u8>) -> Seq<char>;

/// Relies on base64's `URL_SAFE_NO_PAD` engine: a pure encoding of the input.
#[verifier::external_body]
pub fn base64_url_nopad(data: &[u8]) -> (r: String)
    ensures
        r@ == base64_url_nopad_of(data@),
{
    base64::engine::general_purpose::URL_SAFE_NO_PAD.encode(data)
}

} // verus!
