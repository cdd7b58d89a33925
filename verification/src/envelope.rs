//! The outer envelope: a signed payload, its signature, the signer's key and,
//! optionally, the manifest text.

use vstd::prelude::*;
use crate::encoding::{base64_decode, base64_decoded, read_text, text_of};
use crate::json::{json_of_text, parse_json, Json};
use crate::outcome::Outcome;
use crate::signature::{check_signature, ed25519_accepts, PUBLIC_KEY_LEN, SIGNATURE_LEN};

verus! {

/// A decoded envelope.
pub struct Envelope {
    /// The manifest text, where the envelope has one.
    pub manifest: Option<String>,
    /// The bytes that were signed.
    pub signed_payload: Vec<u8>,
    /// The detached signature.
    pub signature: Vec<u8>,
    /// The signer's public key.
    pub public_key: Vec<u8>,
}

/// What an [`Envelope`] holds, as mathematical values.
pub struct EnvelopeView {
    pub manifest: Option<Seq<char>>,
    pub signed_payload: Seq<u8>,
    pub signature: Seq<u8>,
    pub public_key: Seq<u8>,
}

impl View for Envelope {
    type V = EnvelopeView;

    open spec fn view(&self) -> EnvelopeView {
        EnvelopeView {
            manifest: match self.manifest {
                Some(m) => Some(m@),
                None => None,
            },
            signed_payload: self.signed_payload@,
            signature: self.signature@,
            public_key: self.public_key@,
        }
    }
}

impl EnvelopeView {
    /// The key and the signature have the lengths of the scheme.
    pub open spec fn well_formed(self) -> bool {
        &&& self.signature.len() == SIGNATURE_LEN
        &&& self.public_key.len() == PUBLIC_KEY_LEN
    }

    /// The signature is accepted over the signed payload under the key.
    pub open spec fn accepted(self) -> bool {
        ed25519_accepts(self.public_key, self.signed_payload, self.signature)
    }
}

/// The bytes that the base64 text under a key decodes to; `None` where the key
/// is missing, holds no string, or the string is not base64.
pub open spec fn field_bytes(tree: Json, key: Seq<char>) -> Option<Seq<u8>> {
    match tree.text_member(key) {
        Some(t) => base64_decoded(t),
        None => None,
    }
}

/// The envelope that a JSON document stands for. A missing or undecodable field
/// is a format error; a key or signature of the wrong length is a signature
/// error, and is only looked at once all three fields have decoded. A
/// `manifest` that is no string counts as absent.
pub open spec fn envelope_of_tree(tree: Json) -> Result<EnvelopeView, Outcome> {
    let payload = field_bytes(tree, "signed_payload_b64"@);
    let signature = field_bytes(tree, "signature_b64"@);
    let key = field_bytes(tree, "pubkey_b64"@);
    if payload.is_none() || signature.is_none() || key.is_none() {
        Err(Outcome::FormatInvalid)
    } else if signature.unwrap().len() != SIGNATURE_LEN || key.unwrap().len() != PUBLIC_KEY_LEN {
        Err(Outcome::SignatureInvalid)
    } else {
        Ok(
            EnvelopeView {
                manifest: tree.text_member("manifest"@),
                signed_payload: payload.unwrap(),
                signature: signature.unwrap(),
                public_key: key.unwrap(),
            },
        )
    }
}

/// The envelope that a buffer stands for: the buffer must be UTF-8 and its text
/// JSON, else the format is invalid.
pub open spec fn envelope_of(bytes: Seq<u8>) -> Result<EnvelopeView, Outcome> {
    match text_of(bytes) {
        None => Err(Outcome::FormatInvalid),
        Some(text) => match json_of_text(text) {
            None => Err(Outcome::FormatInvalid),
            Some(tree) => envelope_of_tree(tree),
        },
    }
}

/// Decodes the base64 string under a key of a document.
fn decode_field(tree: &Json, key: &str) -> (bytes: Option<Vec<u8>>)
    ensures
        match bytes {
            Some(b) => field_bytes(*tree, key@) == Some(b@),
            None => field_bytes(*tree, key@).is_none(),
        },
{
    match tree.get_str(key) {
        Some(text) => base64_decode(text),
        None => None,
    }
}

impl Envelope {
    /// Decodes an envelope from its JSON document.
    pub fn from_tree(tree: &Json) -> (r: Result<Envelope, Outcome>)
        ensures
            match r {
                Ok(e) => envelope_of_tree(*tree) == Ok::<EnvelopeView, Outcome>(e@) && e@.well_formed(),
                Err(o) => envelope_of_tree(*tree) == Err::<EnvelopeView, Outcome>(o),
            },
    {
        let payload = decode_field(tree, "signed_payload_b64");
        let signature = decode_field(tree, "signature_b64");
        let key = decode_field(tree, "pubkey_b64");
        match (payload, signature, key) {
            (Some(signed_payload), Some(signature), Some(public_key)) => {
                if signature.len() != SIGNATURE_LEN || public_key.len() != PUBLIC_KEY_LEN {
                    return Err(Outcome::SignatureInvalid);
                }
                let manifest = match tree.get_str("manifest") {
                    Some(text) => Some(text.to_owned()),
                    None => None,
                };
                Ok(Envelope { manifest, signed_payload, signature, public_key })
            },
            _ => Err(Outcome::FormatInvalid),
        }
    }

    /// Decodes an envelope from the bytes of its JSON text.
    pub fn from_bytes(bytes: &[u8]) -> (r: Result<Envelope, Outcome>)
        ensures
            match r {
                Ok(e) => envelope_of(bytes@) == Ok::<EnvelopeView, Outcome>(e@) && e@.well_formed(),
                Err(o) => envelope_of(bytes@) == Err::<EnvelopeView, Outcome>(o),
            },
    {
        let text = match read_text(bytes) {
            Some(t) => t,
            None => { return Err(Outcome::FormatInvalid); },
        };
        match parse_json(text) {
            Some(tree) => Envelope::from_tree(&tree),
            None => Err(Outcome::FormatInvalid),
        }
    }

    /// Whether the signature is accepted over the signed payload under the key.
    pub fn signature_accepted(&self) -> (r: bool)
        ensures
            r == (self@.well_formed() && self@.accepted()),
    {
        check_signature(self.public_key.as_slice(), self.signed_payload.as_slice(), self.signature.as_slice())
    }
}

} // verus!
