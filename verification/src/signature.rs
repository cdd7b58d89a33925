//! Detached Ed25519 signatures.

use vstd::prelude::*;
use ed25519_dalek::Verifier;

verus! {

/// Length of an Ed25519 public key in bytes.
pub const PUBLIC_KEY_LEN: usize = 32;

/// Length of an Ed25519 signature in bytes.
pub const SIGNATURE_LEN: usize = 64;

/// Whether Ed25519 verification accepts a signature over a message under a
/// public key, all three given as raw bytes.
pub uninterp spec fn ed25519_accepts(public_key: Seq<u8>, message: Seq<u8>, signature: Seq<u8>) -> bool;

/// Whether a key and a signature have the lengths of the scheme and the
/// signature is accepted over the message.
pub open spec fn signature_holds(public_key: Seq<u8>, message: Seq<u8>, signature: Seq<u8>) -> bool {
    &&& signature.len() == SIGNATURE_LEN
    &&& public_key.len() == PUBLIC_KEY_LEN
    &&& ed25519_accepts(public_key, message, signature)
}

/// Calls `PublicKey::from_bytes` and `Signature::from_bytes` of `ed25519_dalek`
/// on the raw bytes, then `verify` of the key on the message: true where both
/// parse and `verify` returns `Ok`. None of the three panics on any length. The
/// contract claims that the result depends on the three byte strings alone, and
/// calls it `ed25519_accepts`.
#[verifier::external_body]
pub(crate) fn ed25519_verify(public_key: &[u8], message: &[u8], signature: &[u8]) -> (accepted: bool)
    ensures
        accepted == ed25519_accepts(public_key@, message@, signature@),
{
    let key = ed25519_dalek::PublicKey::from_bytes(public_key);
    let sig = ed25519_dalek::Signature::from_bytes(signature);
    match (key, sig) {
        (Ok(k), Ok(s)) => k.verify(message, &s).is_ok(),
        _ => false,
    }
}

/// Checks a detached signature: the lengths first, then the scheme.
pub fn check_signature(public_key: &[u8], message: &[u8], signature: &[u8]) -> (accepted: bool)
    ensures
        accepted == signature_holds(public_key@, message@, signature@),
{
    if signature.len() != SIGNATURE_LEN || public_key.len() != PUBLIC_KEY_LEN {
        return false;
    }
    ed25519_verify(public_key, message, signature)
}

} // verus!
