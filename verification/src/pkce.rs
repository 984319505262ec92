//! PKCE (Proof Key for Code Exchange) challenge computation.
//!
//! The `S256` transformation is `BASE64URL(SHA256(code_verifier))`.
//! The two outside computations are named rather than restated: their
//! results are functions of the input bytes alone, and every contract
//! that speaks of a challenge goes through [`challenge_of`].

use vstd::prelude::*;

verus! {

use vstd::utf8::encode_utf8;

/// The SHA-256 digest of a byte sequence.
pub uninterp spec fn sha256_of(bytes: Seq<u8>) -> Seq<u8>;

/// The URL-safe base64 encoding, without padding, of a byte sequence.
pub uninterp spec fn base64url_of(bytes: Seq<u8>) -> Seq<char>;

/// Relies on `sha2::Sha256::digest` (through the `sha2::Digest`
/// trait) for the SHA-256 digest of the input: 32 bytes, a function
/// of the input alone.
#[verifier::external_body]
fn sha256(bytes: &[u8]) -> (r: Vec<u8>)
    ensures
        r@ == sha256_of(bytes@),
        r@.len() == 32,
{
    <sha2::Sha256 as sha2::Digest>::digest(bytes).to_vec()
}

/// Relies on `base64::Engine::encode` with the `URL_SAFE_NO_PAD`
/// engine: the URL-safe unpadded base64 encoding of the input, a
/// function of the input alone.
#[verifier::external_body]
fn base64url(bytes: &[u8]) -> (r: String)
    ensures
        r@ == base64url_of(bytes@),
{
    base64::Engine::encode(&base64::engine::general_purpose::URL_SAFE_NO_PAD, bytes)
}

/// The `S256` code challenge that corresponds to a code verifier.
pub open spec fn challenge_of(verifier: Seq<char>) -> Seq<char> {
    base64url_of(sha256_of(encode_utf8(verifier)))
}

/// Computes the `S256` challenge of a verifier string.
pub fn compute_challenge(verifier: &str) -> (r: String)
    ensures
        r@ == challenge_of(verifier@),
{
    let bytes: &[u8] = verifier.as_bytes();
    let digest: Vec<u8> = sha256(bytes);
    base64url(digest.as_slice())
}

} // verus!
