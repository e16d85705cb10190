//! Trusted bindings to the cryptographic collaborators: secp256k1 x-only key
//! recovery, k256 ECDH, HKDF-SHA256 key derivation, and ChaCha20-Poly1305.
//! Each wrapper's contract states what the outside crate's source shows of
//! the call; results that take pages to state are given names.

use vstd::prelude::*;

use crate::errors::CipherError;
use chacha20poly1305::aead::{Aead, AeadCore, OsRng};
use chacha20poly1305::{ChaCha20Poly1305, KeyInit};
use k256::ecdh::EphemeralSecret;

verus! {

/// True when 32 bytes are the x-coordinate of a point on the secp256k1
/// curve, as secp256k1::XOnlyPublicKey::from_slice accepts it.
pub uninterp spec fn valid_x_only_key(payload: Seq<u8>) -> bool;

/// True when bytes are a SEC1 encoding of a secp256k1 point, as
/// k256::PublicKey::from_sec1_bytes accepts it.
pub uninterp spec fn sec1_point_valid(bytes: Seq<u8>) -> bool;

/// True when bytes are a valid secret scalar, as k256::SecretKey::from_slice
/// accepts it: 24 to 32 bytes which, left-padded with zeros to 32, hold a
/// nonzero value below the group order.
pub uninterp spec fn valid_secret_scalar(bytes: Seq<u8>) -> bool;

/// The x-coordinate of the Diffie-Hellman shared point that
/// k256::ecdh::diffie_hellman computes from a secret scalar and a point.
pub uninterp spec fn ecdh_shared_x(secret: Seq<u8>, point: Seq<u8>) -> Seq<u8>;

/// The 32-byte key that HKDF-SHA256 (no salt, empty info) derives from the
/// input keying material.
pub uninterp spec fn hkdf_sha256_key(ikm: Seq<u8>) -> Seq<u8>;

/// The ChaCha20-Poly1305 ciphertext-with-tag for a key, nonce and plaintext.
pub uninterp spec fn chacha_seal(key: Seq<u8>, nonce: Seq<u8>, plaintext: Seq<u8>) -> Seq<u8>;

/// What ChaCha20-Poly1305 decryption returns for a key, nonce and
/// ciphertext-with-tag: the plaintext when the tag verifies, nothing else.
pub uninterp spec fn chacha_open(key: Seq<u8>, nonce: Seq<u8>, ciphertext: Seq<u8>) -> Option<
    Seq<u8>,
>;

/// The SEC1 compressed encoding of the public key that belongs to a valid
/// secret scalar, as k256 computes and serializes it.
pub uninterp spec fn public_key_of_secret(secret: Seq<u8>) -> Seq<u8>;

/// Longest plaintext ChaCha20-Poly1305 accepts (exclusive bound): the
/// keystream limit of 2^32 - 1 blocks of 64 bytes.
pub const MAX_PLAINTEXT_LEN: u64 = 274877906880;

/// Relies on secp256k1::XOnlyPublicKey::from_slice, which accepts exactly
/// the valid 32-byte x-coordinates, and on
/// secp256k1::PublicKey::from_x_only_public_key with even parity followed by
/// serialize, whose compressed output is 0x02 followed by the x-coordinate —
/// a SEC1 encoding of a curve point, so from_sec1_bytes accepts it.
#[verifier::external_body]
pub(crate) fn recover_even_public_key(payload: &[u8]) -> (r: Result<Vec<u8>, CipherError>)
    requires
        payload@.len() == 32,
    ensures
        r is Ok <==> valid_x_only_key(payload@),
        r matches Ok(v) ==> v@ == seq![0x02u8] + payload@,
        r matches Ok(v) ==> sec1_point_valid(v@),
        r matches Err(e) ==> e == CipherError::KeyDecodeError,
{
    let xonly = match secp256k1::XOnlyPublicKey::from_slice(payload) {
        Ok(pk) => pk,
        Err(_) => {
            return Err(CipherError::KeyDecodeError);
        },
    };
    let even = secp256k1::PublicKey::from_x_only_public_key(xonly, secp256k1::Parity::Even);
    Ok(even.serialize().to_vec())
}

/// Relies on k256::PublicKey::from_sec1_bytes, which accepts exactly the
/// SEC1 point encodings; on k256::ecdh::EphemeralSecret::random and
/// diffie_hellman, whose shared secret is the 32-byte x-coordinate of the
/// shared point; and on PublicKey::to_sec1_bytes, which for k256 returns the
/// 33-byte compressed encoding with a 0x02/0x03 prefix. The ephemeral secret
/// is random, so nothing links the returned public key and shared secret to
/// the inputs; only their shapes are stated.
#[verifier::external_body]
pub(crate) fn ephemeral_key_agreement(receiver_key: &[u8]) -> (r: Result<(Vec<u8>, Vec<u8>), CipherError>)
    ensures
        r is Ok <==> sec1_point_valid(receiver_key@),
        r matches Ok(p) ==> (p.0@.len() == 33 && (p.0@[0] == 0x02 || p.0@[0] == 0x03)
            && p.1@.len() == 32),
        r matches Err(e) ==> e == CipherError::KeyDecodeError,
{
    let receiver_pk = match k256::PublicKey::from_sec1_bytes(receiver_key) {
        Ok(pk) => pk,
        Err(_) => {
            return Err(CipherError::KeyDecodeError);
        },
    };
    let ephemeral_secret = EphemeralSecret::random(&mut OsRng);
    let ephemeral_public_key = k256::PublicKey::from(&ephemeral_secret);
    let shared_secret = ephemeral_secret.diffie_hellman(&receiver_pk);
    Ok((
        ephemeral_public_key.to_sec1_bytes().to_vec(),
        shared_secret.raw_secret_bytes().to_vec(),
    ))
}

/// Relies on k256::SecretKey::from_slice, which accepts exactly the valid
/// secret scalars; on k256::PublicKey::from_sec1_bytes, which accepts
/// exactly the SEC1 point encodings; and on k256::ecdh::diffie_hellman,
/// whose shared secret is the 32-byte x-coordinate of the shared point — a
/// function of the scalar and the point alone.
#[verifier::external_body]
pub(crate) fn static_key_agreement(secret_key: &[u8], public_key: &[u8]) -> (r: Result<Vec<u8>, CipherError>)
    ensures
        r is Ok <==> (valid_secret_scalar(secret_key@) && sec1_point_valid(public_key@)),
        r matches Ok(v) ==> (v@ == ecdh_shared_x(secret_key@, public_key@) && v@.len() == 32),
        r matches Err(e) ==> e == CipherError::KeyDecodeError,
{
    let sk = match k256::SecretKey::from_slice(secret_key) {
        Ok(sk) => sk,
        Err(_) => {
            return Err(CipherError::KeyDecodeError);
        },
    };
    let pk = match k256::PublicKey::from_sec1_bytes(public_key) {
        Ok(pk) => pk,
        Err(_) => {
            return Err(CipherError::KeyDecodeError);
        },
    };
    let shared_secret = k256::ecdh::diffie_hellman(sk.to_nonzero_scalar(), pk.as_affine());
    Ok(shared_secret.raw_secret_bytes().to_vec())
}

/// Relies on hkdf::Hkdf with sha2::Sha256 over SimpleHmac — the extract-and-
/// expand pair that k256's SharedSecret::extract sets up: extract with no
/// salt, expand with empty info. Its output is a function of the input
/// keying material alone, and expand fails only when more than 255 hash
/// lengths are requested, so a 32-byte request always succeeds.
#[verifier::external_body]
pub(crate) fn derive_symmetric_key(ikm: &[u8]) -> (r: Result<Vec<u8>, CipherError>)
    ensures
        r is Ok,
        r matches Ok(v) ==> (v@ == hkdf_sha256_key(ikm@) && v@.len() == 32),
{
    let hk = hkdf::Hkdf::<sha2::Sha256, hkdf::hmac::SimpleHmac<sha2::Sha256>>::new(None, ikm);
    let mut okm = [0u8; 32];
    match hk.expand(&[], &mut okm) {
        Ok(()) => Ok(okm.to_vec()),
        Err(_) => Err(CipherError::KeyDerivationError),
    }
}

/// Relies on chacha20poly1305::AeadCore::generate_nonce with OsRng: a fresh
/// 12-byte nonce from a cryptographically secure source. The value is
/// random; only its length is stated.
#[verifier::external_body]
pub(crate) fn generate_nonce_bytes() -> (r: Vec<u8>)
    ensures
        r@.len() == 12,
{
    ChaCha20Poly1305::generate_nonce(&mut OsRng).to_vec()
}

/// Relies on chacha20poly1305's Aead::encrypt: for a 32-byte key and
/// 12-byte nonce it returns the ciphertext with the 16-byte tag appended, a
/// function of key, nonce and plaintext alone, and refuses only plaintexts
/// at or beyond the keystream limit — excluded here by precondition.
#[verifier::external_body]
pub(crate) fn aead_encrypt(key: &[u8], nonce: &[u8], plaintext: &[u8]) -> (r: Vec<u8>)
    requires
        key@.len() == 32,
        nonce@.len() == 12,
        plaintext@.len() < MAX_PLAINTEXT_LEN,
    ensures
        r@ == chacha_seal(key@, nonce@, plaintext@),
        r@.len() == plaintext@.len() + 16,
{
    let cipher = ChaCha20Poly1305::new(chacha20poly1305::Key::from_slice(key));
    cipher
        .encrypt(chacha20poly1305::Nonce::from_slice(nonce), plaintext)
        .expect("plaintext below the keystream limit")
}

/// Relies on chacha20poly1305's Aead::decrypt: a function of key, nonce and
/// ciphertext alone, it returns the plaintext exactly when the trailing
/// 16-byte tag verifies, and fails on any tampering, wrong key, or an input
/// shorter than the tag.
#[verifier::external_body]
pub(crate) fn aead_decrypt(key: &[u8], nonce: &[u8], ciphertext: &[u8]) -> (r: Result<Vec<u8>, CipherError>)
    requires
        key@.len() == 32,
        nonce@.len() == 12,
    ensures
        r is Ok <==> chacha_open(key@, nonce@, ciphertext@) is Some,
        r matches Ok(v) ==> (chacha_open(key@, nonce@, ciphertext@) == Some(v@) && v@.len() + 16
            == ciphertext@.len()),
        ciphertext@.len() < 16 ==> r is Err,
        r matches Err(e) ==> e == CipherError::AuthenticationError,
{
    let cipher = ChaCha20Poly1305::new(chacha20poly1305::Key::from_slice(key));
    match cipher.decrypt(chacha20poly1305::Nonce::from_slice(nonce), ciphertext) {
        Ok(v) => Ok(v),
        Err(_) => Err(CipherError::AuthenticationError),
    }
}

/// Relies on k256::SecretKey::from_slice, which accepts exactly the valid
/// secret scalars, and on SecretKey::public_key with
/// PublicKey::to_sec1_bytes, which for k256 returns the 33-byte compressed
/// encoding, a function of the secret alone.
#[verifier::external_body]
pub(crate) fn secret_to_public_key(secret_key: &[u8]) -> (r: Result<Vec<u8>, CipherError>)
    ensures
        r is Ok <==> valid_secret_scalar(secret_key@),
        r matches Ok(v) ==> (v@ == public_key_of_secret(secret_key@) && v@.len() == 33 && (v@[0]
            == 0x02 || v@[0] == 0x03)),
        r matches Err(e) ==> e == CipherError::KeyDecodeError,
{
    let sk = match k256::SecretKey::from_slice(secret_key) {
        Ok(sk) => sk,
        Err(_) => {
            return Err(CipherError::KeyDecodeError);
        },
    };
    Ok(sk.public_key().to_sec1_bytes().to_vec())
}

/// Relies on String::from_utf8, which succeeds exactly on valid UTF-8 and
/// returns the text those bytes encode.
#[verifier::external_body]
pub(crate) fn bytes_to_text(bytes: &[u8]) -> (r: Result<String, CipherError>)
    ensures
        r is Ok <==> vstd::utf8::valid_utf8(bytes@),
        r matches Ok(s) ==> s@ == vstd::utf8::decode_utf8(bytes@),
        r matches Err(e) ==> e == CipherError::EncodingError,
{
    match String::from_utf8(bytes.to_vec()) {
        Ok(s) => Ok(s),
        Err(_) => Err(CipherError::EncodingError),
    }
}

} // verus!
