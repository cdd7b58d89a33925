//! Verification of signed asset manifests, and the small SDK surface around it.
//!
//! An envelope carries a payload, a detached Ed25519 signature over it and the
//! signer's public key, and may carry a manifest that lists files with their
//! SHA-256 digests. The library decodes the envelope, checks the signature,
//! reads the manifest and decides, file by file, whether the content that the
//! caller read is the content that was signed for. It does no I/O itself.

pub mod outcome;
pub mod encoding;
pub mod json;
pub mod signature;
pub mod digest;
pub mod envelope;
pub mod manifest;
pub mod walk;
pub mod verify;
pub mod snapshot;
pub mod theorems;
pub mod handle;
pub mod license_gui;
pub mod ffi;
pub mod drm;
pub mod anticheat;
pub mod sdk;
