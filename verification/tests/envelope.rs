use base64::engine::general_purpose::STANDARD;
use base64::Engine;
use belladonna_sdk::envelope::Envelope;
use belladonna_sdk::json::{Json, Member};
use belladonna_sdk::outcome::{ErrorCode, Outcome};
use belladonna_sdk::verify::{begin_verification, check_envelope, finish_verification, open_envelope};
use belladonna_sdk::walk::WalkAction;
use ed25519_dalek::{Keypair, PublicKey, SecretKey, Signer};

fn keypair(seed: u8) -> Keypair {
    let secret = SecretKey::from_bytes(&[seed; 32]).unwrap();
    let public = PublicKey::from(&secret);
    Keypair { secret, public }
}

fn envelope_text(payload_b64: &str, signature_b64: &str, pubkey_b64: &str) -> String {
    format!(
        "{{\"signed_payload_b64\":\"{}\",\"signature_b64\":\"{}\",\"pubkey_b64\":\"{}\"}}",
        payload_b64, signature_b64, pubkey_b64
    )
}

fn signed_text(payload: &[u8], seed: u8) -> String {
    let pair = keypair(seed);
    let signature = pair.sign(payload);
    envelope_text(
        &STANDARD.encode(payload),
        &STANDARD.encode(signature.to_bytes()),
        &STANDARD.encode(pair.public.to_bytes()),
    )
}

fn code_of(text: &[u8]) -> ErrorCode {
    match begin_verification(Some(text)) {
        Ok(walk) => finish_verification(&walk).expect("files are listed"),
        Err(code) => code,
    }
}

fn swap_char(text: &str, at: usize) -> String {
    let mut bytes = text.as_bytes().to_vec();
    bytes[at] = if bytes[at] == b'B' { b'C' } else { b'B' };
    String::from_utf8(bytes).unwrap()
}

#[test]
fn signed_envelope_without_manifest_verifies() {
    let text = signed_text(b"any payload at all", 7);
    let walk = begin_verification(Some(text.as_bytes())).expect("accepted");
    assert_eq!(walk.action(), WalkAction::Done(Outcome::Verified));
    assert_eq!(walk.outcome(), Some(Outcome::Verified));
    assert_eq!(finish_verification(&walk), Some(ErrorCode::Success));
    assert_eq!(ErrorCode::Success.number(), 0);
}

#[test]
fn freshly_generated_key_verifies() {
    let pair = Keypair::generate(&mut rand::rngs::OsRng);
    let payload = b"test asset data";
    let signature = pair.sign(payload);
    let text = envelope_text(
        &STANDARD.encode(payload),
        &STANDARD.encode(signature.to_bytes()),
        &STANDARD.encode(pair.public.to_bytes()),
    );
    assert_eq!(code_of(text.as_bytes()), ErrorCode::Success);
}

#[test]
fn empty_payload_verifies() {
    let text = signed_text(b"", 3);
    assert_eq!(code_of(text.as_bytes()), ErrorCode::Success);
}

#[test]
fn altered_payload_is_rejected() {
    let pair = keypair(9);
    let payload = b"the payload that was signed";
    let signature = pair.sign(payload);
    let payload_b64 = swap_char(&STANDARD.encode(payload), 0);
    let text = envelope_text(
        &payload_b64,
        &STANDARD.encode(signature.to_bytes()),
        &STANDARD.encode(pair.public.to_bytes()),
    );
    assert_eq!(open_envelope(text.as_bytes()).err(), Some(Outcome::SignatureInvalid));
    assert_eq!(code_of(text.as_bytes()), ErrorCode::SignatureInvalid);
}

#[test]
fn altered_signature_is_rejected() {
    let pair = keypair(9);
    let payload = b"the payload that was signed";
    let signature = pair.sign(payload);
    let text = envelope_text(
        &STANDARD.encode(payload),
        &swap_char(&STANDARD.encode(signature.to_bytes()), 5),
        &STANDARD.encode(pair.public.to_bytes()),
    );
    assert_eq!(code_of(text.as_bytes()), ErrorCode::SignatureInvalid);
}

#[test]
fn altered_key_is_rejected() {
    let pair = keypair(9);
    let payload = b"the payload that was signed";
    let signature = pair.sign(payload);
    let text = envelope_text(
        &STANDARD.encode(payload),
        &STANDARD.encode(signature.to_bytes()),
        &swap_char(&STANDARD.encode(pair.public.to_bytes()), 2),
    );
    assert_eq!(code_of(text.as_bytes()), ErrorCode::SignatureInvalid);
}

#[test]
fn key_of_another_signer_is_rejected() {
    let pair = keypair(1);
    let other = keypair(2);
    let payload = b"payload";
    let signature = pair.sign(payload);
    let text = envelope_text(
        &STANDARD.encode(payload),
        &STANDARD.encode(signature.to_bytes()),
        &STANDARD.encode(other.public.to_bytes()),
    );
    assert_eq!(code_of(text.as_bytes()), ErrorCode::SignatureInvalid);
}

#[test]
fn signature_of_63_bytes_is_a_signature_error() {
    let pair = keypair(4);
    let payload = b"payload";
    let signature = pair.sign(payload).to_bytes();
    let text = envelope_text(
        &STANDARD.encode(payload),
        &STANDARD.encode(&signature[..63]),
        &STANDARD.encode(pair.public.to_bytes()),
    );
    assert_eq!(Envelope::from_bytes(text.as_bytes()).err(), Some(Outcome::SignatureInvalid));
    assert_eq!(code_of(text.as_bytes()), ErrorCode::SignatureInvalid);
}

#[test]
fn signature_of_65_bytes_is_a_signature_error() {
    let pair = keypair(4);
    let payload = b"payload";
    let mut signature = pair.sign(payload).to_bytes().to_vec();
    signature.push(0);
    let text = envelope_text(
        &STANDARD.encode(payload),
        &STANDARD.encode(&signature),
        &STANDARD.encode(pair.public.to_bytes()),
    );
    assert_eq!(code_of(text.as_bytes()), ErrorCode::SignatureInvalid);
}

#[test]
fn key_of_31_bytes_is_a_signature_error() {
    let pair = keypair(4);
    let payload = b"payload";
    let signature = pair.sign(payload);
    let text = envelope_text(
        &STANDARD.encode(payload),
        &STANDARD.encode(signature.to_bytes()),
        &STANDARD.encode(&pair.public.to_bytes()[..31]),
    );
    assert_eq!(code_of(text.as_bytes()), ErrorCode::SignatureInvalid);
}

#[test]
fn empty_signature_is_a_signature_error() {
    let pair = keypair(4);
    let text = envelope_text(&STANDARD.encode(b"payload"), "", &STANDARD.encode(pair.public.to_bytes()));
    assert_eq!(code_of(text.as_bytes()), ErrorCode::SignatureInvalid);
}

#[test]
fn missing_buffer_is_an_argument_error() {
    assert_eq!(begin_verification(None).err(), Some(ErrorCode::InvalidArgs));
    assert_eq!(ErrorCode::InvalidArgs.number(), 100);
}

#[test]
fn empty_buffer_is_an_argument_error() {
    let nothing: [u8; 0] = [];
    assert_eq!(begin_verification(Some(&nothing)).err(), Some(ErrorCode::InvalidArgs));
}

#[test]
fn buffer_that_is_not_utf8_is_a_format_error() {
    assert_eq!(code_of(&[0xff, 0xfe, 0x7b, 0x7d]), ErrorCode::FormatInvalid);
    assert_eq!(open_envelope(&[0xc3]).err(), Some(Outcome::FormatInvalid));
}

#[test]
fn text_that_is_not_json_is_a_format_error() {
    assert_eq!(code_of(b"{\"signed_payload_b64\":"), ErrorCode::FormatInvalid);
    assert_eq!(code_of(b"not json"), ErrorCode::FormatInvalid);
}

#[test]
fn document_that_is_no_object_is_a_format_error() {
    assert_eq!(code_of(b"[1,2,3]"), ErrorCode::FormatInvalid);
    assert_eq!(code_of(b"\"text\""), ErrorCode::FormatInvalid);
}

#[test]
fn missing_field_is_a_format_error() {
    let pair = keypair(5);
    let signature = pair.sign(b"p");
    let text = format!(
        "{{\"signed_payload_b64\":\"{}\",\"signature_b64\":\"{}\"}}",
        STANDARD.encode(b"p"),
        STANDARD.encode(signature.to_bytes())
    );
    assert_eq!(code_of(text.as_bytes()), ErrorCode::FormatInvalid);
}

#[test]
fn field_that_is_no_string_is_a_format_error() {
    let pair = keypair(5);
    let signature = pair.sign(b"p");
    let text = format!(
        "{{\"signed_payload_b64\":17,\"signature_b64\":\"{}\",\"pubkey_b64\":\"{}\"}}",
        STANDARD.encode(signature.to_bytes()),
        STANDARD.encode(pair.public.to_bytes())
    );
    assert_eq!(code_of(text.as_bytes()), ErrorCode::FormatInvalid);
}

#[test]
fn field_that_is_not_base64_is_a_format_error() {
    let pair = keypair(5);
    let signature = pair.sign(b"p");
    let text = envelope_text(
        "@@@@",
        &STANDARD.encode(signature.to_bytes()),
        &STANDARD.encode(pair.public.to_bytes()),
    );
    assert_eq!(code_of(text.as_bytes()), ErrorCode::FormatInvalid);
    assert_eq!(ErrorCode::FormatInvalid.number(), 8);
}

#[test]
fn undecodable_field_comes_before_wrong_length() {
    let text = envelope_text("%%%", &STANDARD.encode([1u8; 10]), &STANDARD.encode([2u8; 3]));
    assert_eq!(code_of(text.as_bytes()), ErrorCode::FormatInvalid);
}

#[test]
fn decoded_envelope_holds_the_raw_bytes() {
    let pair = keypair(11);
    let payload = b"\x00\x01binary\xff";
    let signature = pair.sign(payload);
    let text = signed_text(payload, 11);
    let envelope = Envelope::from_bytes(text.as_bytes()).ok().expect("decodes");
    assert_eq!(envelope.signed_payload, payload.to_vec());
    assert_eq!(envelope.signature, signature.to_bytes().to_vec());
    assert_eq!(envelope.public_key, pair.public.to_bytes().to_vec());
    assert_eq!(envelope.manifest, None);
    assert!(envelope.signature_accepted());
}

#[test]
fn envelope_built_by_hand_is_checked_like_a_decoded_one() {
    let pair = keypair(12);
    let payload = b"by hand".to_vec();
    let envelope = Envelope {
        manifest: None,
        signed_payload: payload.clone(),
        signature: pair.sign(&payload).to_bytes().to_vec(),
        public_key: pair.public.to_bytes().to_vec(),
    };
    assert_eq!(check_envelope(&envelope).ok().map(|r| r.len()), Some(0));
    let short = Envelope {
        manifest: None,
        signed_payload: payload.clone(),
        signature: vec![0u8; 10],
        public_key: pair.public.to_bytes().to_vec(),
    };
    assert!(!short.signature_accepted());
    assert_eq!(check_envelope(&short).err(), Some(Outcome::SignatureInvalid));
}

#[test]
fn envelope_from_a_tree_reads_the_first_member_of_each_name() {
    let pair = keypair(13);
    let payload = b"tree";
    let member = |key: &str, value: String| Member { key: key.to_string(), value: Json::Text(value) };
    let tree = Json::Object(vec![
        member("pubkey_b64", STANDARD.encode(pair.public.to_bytes())),
        member("signature_b64", STANDARD.encode(pair.sign(payload).to_bytes())),
        member("signed_payload_b64", STANDARD.encode(payload)),
        Member { key: "manifest".to_string(), value: Json::Number },
    ]);
    let envelope = Envelope::from_tree(&tree).ok().expect("decodes");
    assert_eq!(envelope.signed_payload, payload.to_vec());
    assert_eq!(envelope.manifest, None);
    assert!(envelope.signature_accepted());
    assert_eq!(Envelope::from_tree(&Json::Array(vec![])).err(), Some(Outcome::FormatInvalid));
    assert_eq!(Envelope::from_tree(&Json::Null).err(), Some(Outcome::FormatInvalid));
}
