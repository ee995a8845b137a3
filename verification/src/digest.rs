//! The digest engine: SHA-256 over bytes, read as a 256-bit integer.
//!
//! The 32 digest bytes are interpreted little-endian; every comparison
//! against a target uses this one documented byte order, so results are
//! reproducible bit for bit.

use crate::u256::{spec_u256_from_le_bytes, U256};
use sha2::Digest;
use vstd::prelude::*;
use vstd::string::StringSliceAdditionalSpecFns;

verus! {

/// The SHA-256 digest of a byte sequence. The hash itself is outside
/// code; this name stands for its result, a pure function of the input.
pub uninterp spec fn sha256_of(bytes: Seq<u8>) -> Seq<u8>;

/// Relies on sha2::Sha256: the digest depends on the input bytes alone
/// and is always 32 bytes long.
#[verifier::external_body]
fn sha256_bytes(bytes: &[u8]) -> (r: Vec<u8>)
    ensures
        r@ == sha256_of(bytes@),
        r@.len() == 32,
{
    let mut hasher = sha2::Sha256::new();
    hasher.update(bytes);
    hasher.finalize().to_vec()
}

/// The digest of `bytes`, as the integer the library compares targets
/// against.
pub open spec fn spec_digest_to_int(bytes: Seq<u8>) -> nat {
    spec_u256_from_le_bytes(sha256_of(bytes))
}

/// Hashes `bytes` with SHA-256 and interprets the 32 digest bytes as a
/// little-endian 256-bit integer.
pub fn digest_to_int(bytes: &[u8]) -> (r: U256)
    ensures
        r@ == spec_digest_to_int(bytes@),
{
    let h = sha256_bytes(bytes);
    U256::from_le_bytes(h.as_slice())
}

/// Hashes the UTF-8 bytes of a string; used once per run to fingerprint
/// the word-list dataset.
pub fn sha256_digest(content: &str) -> (r: U256)
    ensures
        r@ == spec_digest_to_int(content.spec_bytes()),
{
    digest_to_int(content.as_bytes())
}

/// The digest engine is deterministic: identical byte input yields an
/// identical integer, on every call and in every run.
pub proof fn lemma_digest_deterministic(a: Seq<u8>, b: Seq<u8>)
    requires
        a == b,
    ensures
        spec_digest_to_int(a) == spec_digest_to_int(b),
{
}

} // verus!
