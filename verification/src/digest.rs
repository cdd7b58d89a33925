//! SHA-256 over content that arrives in chunks.

use vstd::prelude::*;
use sha2::Digest;

verus! {

/// Length of a SHA-256 digest in bytes.
pub const DIGEST_LEN: usize = 32;

/// A running SHA-256 computation. It holds the `sha2` crate's hasher, whose
/// type is an instance of a generic one and cannot be declared by itself.
#[verifier::external_body]
pub struct Hasher {
    state: sha2::Sha256,
}

/// The SHA-256 digest of a byte string.
pub uninterp spec fn sha256(data: Seq<u8>) -> Seq<u8>;

/// The bytes that a hasher has taken in so far, in order.
pub uninterp spec fn absorbed(hasher: Hasher) -> Seq<u8>;

/// Calls `Sha256::new`: a hasher that has taken in nothing.
#[verifier::external_body]
pub(crate) fn hasher_new() -> (hasher: Hasher)
    ensures
        absorbed(hasher) == Seq::<u8>::empty(),
{
    Hasher { state: sha2::Sha256::new() }
}

/// Calls `update` of a hasher: the chunk is appended to what it had taken in.
#[verifier::external_body]
pub(crate) fn hasher_update(hasher: &mut Hasher, chunk: &[u8])
    ensures
        absorbed(*final(hasher)) == absorbed(*old(hasher)) + chunk@,
{
    hasher.state.update(chunk);
}

/// Calls `finalize` of a hasher: the digest, of 32 bytes, of all that it had
/// taken in.
#[verifier::external_body]
pub(crate) fn hasher_finalize(hasher: Hasher) -> (digest: Vec<u8>)
    ensures
        digest@ == sha256(absorbed(hasher)),
        digest@.len() == DIGEST_LEN,
{
    hasher.state.finalize().to_vec()
}

/// The SHA-256 digest of a buffer.
pub fn sha256_of(data: &[u8]) -> (digest: Vec<u8>)
    ensures
        digest@ == sha256(data@),
        digest@.len() == DIGEST_LEN,
{
    let mut hasher = hasher_new();
    hasher_update(&mut hasher, data);
    assert(Seq::<u8>::empty() + data@ =~= data@);
    hasher_finalize(hasher)
}

} // verus!
