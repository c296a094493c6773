[package]
name = "vault_testcase"
version = "0.1.0"
edition = "2021"
publish = false

[dependencies]
hex = "0.4"
serde_json = "1"
ed25519-dalek = "2"
sha3 = "0.10"
rand = "0.8"
