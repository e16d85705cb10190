[package]
name = "ecies_cipher"
version = "0.1.0"
edition = "2021"
publish = false

[dependencies]
chacha20poly1305 = "0.10"
hex = "0.4"
hkdf = "0.12"
k256 = { version = "0.13", features = ["ecdh"] }
kaspa-addresses = "*"
secp256k1 = "0.29"
sha2 = "0.10"
