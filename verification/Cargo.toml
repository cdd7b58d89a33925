[package]
name = "belladonna_sdk"
version = "0.1.0"
edition = "2021"
publish = false

[dependencies]
base64 = "0.21"
ed25519-dalek = "1"
hex = "0.4"
parking_lot = "0.12"
serde_json = "1"
sha2 = "0.10"
thiserror = "1"
tokio = { version = "1", features = ["process"] }

[dev-dependencies]
rand = "0.7"
