//! ECIES-style authenticated encryption of one-shot messages addressed to a
//! recipient identified by the x-coordinate of a secp256k1 public key.
//!
//! Sending recovers the recipient's full key from the 32-byte address
//! payload (even parity by convention), agrees on a shared secret with a
//! fresh ephemeral key, derives a symmetric key with HKDF-SHA256, and seals
//! the text with ChaCha20-Poly1305. The result travels as a binary envelope
//! — 12-byte nonce, ephemeral public key, ciphertext with its 16-byte tag —
//! or as its lowercase hex encoding. Receiving runs the same pipeline from
//! the recipient's secret scalar.

pub mod crypto;
pub mod envelope;
pub mod errors;
pub mod hexfmt;
pub mod protocol;
