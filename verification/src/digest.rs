//! The digest that stands for the authentication token.

use vstd::prelude::*;
use vstd::utf8::encode_utf8;

verus! {

/// The BLAKE3 hash of `input`, as the `blake3` crate computes it.
pub uninterp spec fn blake3_hash(input: Seq<u8>) -> [u8; 32];

/// The digest of a token: the BLAKE3 hash of its UTF-8 bytes.
pub open spec fn token_digest_of(token: Seq<char>) -> [u8; 32] {
    blake3_hash(encode_utf8(token))
}

/// `blake3::hash`, and `Hash::as_bytes` on what it returns: the 32 bytes of
/// the BLAKE3 hash of `input`.
#[verifier::external_body]
fn hash(input: &[u8]) -> (digest: [u8; 32])
    ensures
        digest == blake3_hash(input@),
{
    *blake3::hash(input).as_bytes()
}

/// Computes the digest under which a token is kept.
pub fn token_digest(token: &str) -> (digest: [u8; 32])
    ensures
        digest == token_digest_of(token@),
{
    hash(token.as_bytes())
}

/// The digest depends on the token alone: the same token has the same digest.
pub proof fn lemma_digest_deterministic(first: Seq<char>, second: Seq<char>)
    requires
        first == second,
    ensures
        token_digest_of(first) == token_digest_of(second),
        token_digest_of(first)@.len() == 32,
{
}

} // verus!
