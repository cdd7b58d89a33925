use base64::engine::general_purpose::STANDARD;
use base64::Engine;
use belladonna_sdk::outcome::ErrorCode;
use belladonna_sdk::snapshot::{verify_with_files, StoredFile};
use ed25519_dalek::{Keypair, PublicKey, SecretKey, Signer};

const ASSET_DIGEST: &str = "84293ed06cb3210e7d549afec3140d0c48494416ad25b7f25196afffaa5eb796";
const SECOND_DIGEST: &str = "54811cbc6c86311729b0a33e26c89087881b36b9ca3217d15cb5196e35f9a7e3";

fn envelope(manifest: Option<&str>) -> Vec<u8> {
    let secret = SecretKey::from_bytes(&[33u8; 32]).unwrap();
    let public = PublicKey::from(&secret);
    let pair = Keypair { secret, public };
    let payload = manifest.unwrap_or("no manifest").as_bytes();
    let field = match manifest {
        Some(text) => format!("\"manifest\":\"{}\",", text.replace('\\', "\\\\").replace('"', "\\\"")),
        None => String::new(),
    };
    format!(
        "{{{}\"signed_payload_b64\":\"{}\",\"signature_b64\":\"{}\",\"pubkey_b64\":\"{}\"}}",
        field,
        STANDARD.encode(payload),
        STANDARD.encode(pair.sign(payload).to_bytes()),
        STANDARD.encode(pair.public.to_bytes())
    )
    .into_bytes()
}

fn two_files() -> Vec<u8> {
    let manifest = format!(
        "{{\"files\":[{{\"path\":\"a.bin\",\"sha256\":\"{}\"}},{{\"path\":\"b.bin\",\"sha256\":\"{}\"}}]}}",
        ASSET_DIGEST,
        SECOND_DIGEST.to_uppercase()
    );
    envelope(Some(&manifest))
}

fn stored(path: &str, content: &[u8]) -> StoredFile {
    StoredFile { path: path.to_string(), content: Some(content.to_vec()) }
}

#[test]
fn snapshot_with_the_signed_content_verifies() {
    let files = vec![stored("b.bin", b"second file"), stored("a.bin", b"asset bytes")];
    assert_eq!(verify_with_files(Some(&two_files()), &files), ErrorCode::Success);
}

#[test]
fn snapshot_with_an_appended_byte_fails() {
    let files = vec![stored("a.bin", b"asset bytes"), stored("b.bin", b"second file\n")];
    assert_eq!(verify_with_files(Some(&two_files()), &files), ErrorCode::SignatureInvalid);
    let files = vec![stored("a.bin", b"asset bytes!"), stored("b.bin", b"second file")];
    assert_eq!(verify_with_files(Some(&two_files()), &files), ErrorCode::SignatureInvalid);
}

#[test]
fn snapshot_without_a_listed_file_still_checks_the_others() {
    let files = vec![stored("b.bin", b"second file")];
    assert_eq!(verify_with_files(Some(&two_files()), &files), ErrorCode::Success);
    let files = vec![stored("b.bin", b"another file")];
    assert_eq!(verify_with_files(Some(&two_files()), &files), ErrorCode::SignatureInvalid);
    let files = vec![stored("a.bin", b"asset bytes")];
    assert_eq!(verify_with_files(Some(&two_files()), &files), ErrorCode::Success);
    assert_eq!(verify_with_files(Some(&two_files()), &Vec::new()), ErrorCode::Success);
}

#[test]
fn snapshot_with_an_unreadable_file_fails() {
    let files = vec![stored("a.bin", b"asset bytes"), StoredFile { path: "b.bin".to_string(), content: None }];
    assert_eq!(verify_with_files(Some(&two_files()), &files), ErrorCode::SignatureInvalid);
}

#[test]
fn snapshot_answers_with_the_first_file_of_a_path() {
    let files = vec![stored("a.bin", b"asset bytes"), stored("a.bin", b"later"), stored("b.bin", b"second file")];
    assert_eq!(verify_with_files(Some(&two_files()), &files), ErrorCode::Success);
    let files = vec![stored("a.bin", b"earlier"), stored("a.bin", b"asset bytes"), stored("b.bin", b"second file")];
    assert_eq!(verify_with_files(Some(&two_files()), &files), ErrorCode::SignatureInvalid);
}

#[test]
fn snapshot_is_not_read_without_an_envelope() {
    let files = vec![stored("a.bin", b"asset bytes")];
    assert_eq!(verify_with_files(None, &files), ErrorCode::InvalidArgs);
    assert_eq!(verify_with_files(Some(b""), &files), ErrorCode::InvalidArgs);
    assert_eq!(verify_with_files(Some(b"{}"), &files), ErrorCode::FormatInvalid);
}

#[test]
fn envelope_without_manifest_verifies_against_any_snapshot() {
    let files = vec![stored("a.bin", b"whatever")];
    assert_eq!(verify_with_files(Some(&envelope(None)), &files), ErrorCode::Success);
    assert_eq!(verify_with_files(Some(&envelope(Some("{\"files\":[]}"))), &files), ErrorCode::Success);
}
