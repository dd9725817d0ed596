[package]
name = "ancore_account"
version = "0.1.0"
edition = "2021"
publish = false

[dependencies]
soroban-sdk = "=21.7.7"

[dev-dependencies]
soroban-sdk = { version = "=21.7.7", features = ["testutils"] }
# Keeps the host on ed25519-dalek 2: its 3.0 line needs the released curve25519-dalek 5.
curve25519-dalek = { version = ">=5.0.0-pre.0, <5.0.0", default-features = false }
