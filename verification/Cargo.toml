[package]
name = "safe_nd"
version = "0.1.0"
edition = "2021"
publish = false

[dependencies]
ed25519-dalek = "1.0"
threshold_crypto = "0.4"
multibase = "0.9"
bincode = "1.3"
rand = "0.7"
