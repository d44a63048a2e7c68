[package]
name = "api_key_crypto"
version = "0.1.0"
edition = "2021"
publish = false

[dependencies]
base64 = "0.22"
chacha20poly1305 = "0.10"
rand = "0.8"
sha2 = "0.10"
thiserror = "1"
