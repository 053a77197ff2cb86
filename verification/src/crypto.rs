use vstd::prelude::*;

use crate::text::hex_lower;

verus! {

/// The SHA-256 digest of a byte sequence, as `ring::digest::digest` computes it.
pub uninterp spec fn sha256(data: Seq<u8>) -> Seq<u8>;

/// The HMAC-SHA256 tag of a message under a key, as `ring::hmac::sign` computes it.
pub uninterp spec fn hmac_sha256(key: Seq<u8>, msg: Seq<u8>) -> Seq<u8>;

/// Calls `ring::digest::digest` with `SHA256`. The contract claims that the
/// result is the named `sha256` of the bytes and that it is 32 bytes long
/// (ring's `SHA256.output_len`).
#[verifier::external_body]
pub(crate) fn sha256_digest(data: &[u8]) -> (r: Vec<u8>)
    ensures
        r@ == sha256(data@),
        r@.len() == 32,
{
    ring::digest::digest(&ring::digest::SHA256, data).as_ref().to_vec()
}

/// Calls `ring::hmac::sign` with an `HMAC_SHA256` key made from `key` by
/// `ring::hmac::Key::new` (which accepts any key length). The contract claims
/// that the result is the named `hmac_sha256` of key and message and that the
/// tag is 32 bytes long (the output length of SHA-256).
#[verifier::external_body]
pub(crate) fn hmac_sha256_sign(key: &[u8], data: &[u8]) -> (r: Vec<u8>)
    ensures
        r@ == hmac_sha256(key@, data@),
        r@.len() == 32,
{
    ring::hmac::sign(&ring::hmac::Key::new(ring::hmac::HMAC_SHA256, key), data).as_ref().to_vec()
}

/// Calls `hex::encode`. The contract claims what the crate's source shows: two
/// characters from `0123456789abcdef` per byte, high nibble first.
#[verifier::external_body]
pub(crate) fn hex_encode(data: &[u8]) -> (r: String)
    ensures
        r@ == hex_lower(data@),
{
    hex::encode(data)
}

} // verus!
