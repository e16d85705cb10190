use chacha20poly1305::aead::{Aead, OsRng};
use chacha20poly1305::{ChaCha20Poly1305, KeyInit};
use ecies_cipher::envelope::EncryptedMessage;
use ecies_cipher::errors::CipherError;
use ecies_cipher::protocol::{
    debug_address_to_pubkey, debug_can_decrypt, decrypt_message, decrypt_message_with_bytes,
    decrypt_with_secret_key, encrypt_message,
};

/// A fresh recipient: (secret key bytes, address payload = x-coordinate).
fn fresh_recipient() -> (Vec<u8>, Vec<u8>) {
    let sk = k256::SecretKey::random(&mut OsRng);
    let sec1 = sk.public_key().to_sec1_bytes();
    assert_eq!(sec1.len(), 33);
    (sk.to_bytes().to_vec(), sec1[1..33].to_vec())
}

#[test]
fn test_encrypt_decrypt() {
    let (sk_bytes, payload) = fresh_recipient();

    let message = "plaintext message";
    let encrypted_message = encrypt_message(&payload, message).unwrap();
    let decrypted_message = decrypt_message(encrypted_message, &sk_bytes).unwrap();
    assert_eq!(message.to_owned(), decrypted_message);
}

#[test]
fn test_round_trip_all_decrypt_entry_points() {
    let (sk_bytes, payload) = fresh_recipient();
    let message = "ephemeral round trip ✓";
    let m = encrypt_message(&payload, message).unwrap();

    let a = decrypt_message(m.clone(), &sk_bytes).unwrap();
    let b = decrypt_message_with_bytes(m.clone(), &sk_bytes).unwrap();
    let c = decrypt_with_secret_key(m, &sk_bytes).unwrap();
    assert_eq!(a, message);
    assert_eq!(b, message);
    assert_eq!(c, message);
}

#[test]
fn test_encrypt_envelope_shape() {
    let (_, payload) = fresh_recipient();
    let message = "plaintext message";
    let m = encrypt_message(&payload, message).unwrap();
    assert_eq!(m.nonce.len(), 12);
    assert_eq!(m.ephemeral_public_key.len(), 33);
    assert!(m.ephemeral_public_key[0] == 0x02 || m.ephemeral_public_key[0] == 0x03);
    assert_eq!(m.ciphertext.len(), message.len() + 16);

    // The envelope survives its own wire encoding.
    let m2 = EncryptedMessage::from_bytes(&m.to_bytes());
    assert_eq!(m2.nonce, m.nonce);
    assert_eq!(m2.ephemeral_public_key, m.ephemeral_public_key);
    assert_eq!(m2.ciphertext, m.ciphertext);
}

#[test]
fn test_wrong_key_rejection() {
    let (_, payload) = fresh_recipient();
    let (other_sk, _) = fresh_recipient();
    let m = encrypt_message(&payload, "plaintext message").unwrap();
    assert!(matches!(
        decrypt_message(m, &other_sk),
        Err(CipherError::AuthenticationError)
    ));
}

#[test]
fn test_tamper_detection_every_bit() {
    let (sk_bytes, payload) = fresh_recipient();
    let m = encrypt_message(&payload, "plaintext message").unwrap();
    let bytes = m.to_bytes();
    // The ciphertext-with-tag region starts after the nonce and the 33-byte
    // key.
    for i in 45..bytes.len() {
        for bit in 0..8 {
            let mut tampered = bytes.clone();
            tampered[i] ^= 1 << bit;
            let tm = EncryptedMessage::from_bytes(&tampered);
            assert!(matches!(
                decrypt_message(tm, &sk_bytes),
                Err(CipherError::AuthenticationError)
            ));
        }
    }
}

#[test]
fn test_truncated_envelope_fails_cleanly() {
    let (sk_bytes, payload) = fresh_recipient();
    let m = encrypt_message(&payload, "plaintext message").unwrap();
    let bytes = m.to_bytes();
    // Keep only the nonce and the key: no ciphertext at all.
    let truncated = &bytes[0..45];
    let tm = EncryptedMessage::from_bytes(truncated);
    assert!(tm.ciphertext.is_empty());
    assert_eq!(tm.ephemeral_public_key.len(), 33);
    assert!(matches!(
        decrypt_message(tm, &sk_bytes),
        Err(CipherError::AuthenticationError)
    ));
}

#[test]
fn test_encrypt_rejects_bad_payload() {
    assert!(matches!(
        encrypt_message(&[0x11u8; 31], "hello"),
        Err(CipherError::AddressParseError)
    ));
    assert!(matches!(
        encrypt_message(&[0x11u8; 33], "hello"),
        Err(CipherError::AddressParseError)
    ));
    // 32 bytes, but far above the field prime: no valid x-coordinate.
    assert!(matches!(
        encrypt_message(&[0xffu8; 32], "hello"),
        Err(CipherError::KeyDecodeError)
    ));
}

#[test]
fn test_decrypt_rejects_bad_keys() {
    let (_, payload) = fresh_recipient();
    let m = encrypt_message(&payload, "hello").unwrap();
    // The zero scalar is not a valid secret key.
    assert!(matches!(
        decrypt_message(m.clone(), &[0u8; 32]),
        Err(CipherError::KeyDecodeError)
    ));
    assert!(matches!(
        decrypt_message(m.clone(), &[1u8; 7]),
        Err(CipherError::KeyDecodeError)
    ));
    // An envelope whose key field cannot be a SEC1 point.
    let (sk_bytes, _) = fresh_recipient();
    let bad = EncryptedMessage::new(&m.ciphertext, &m.nonce, &[0x99u8; 32]);
    assert!(matches!(
        decrypt_message(bad, &sk_bytes),
        Err(CipherError::KeyDecodeError)
    ));
}

#[test]
fn test_decrypt_non_text_plaintext_is_encoding_error() {
    // Build an envelope by hand around bytes that are not UTF-8, with the
    // same agreement, derivation and cipher the library relies on.
    let receiver_sk = k256::SecretKey::random(&mut OsRng);
    let receiver_pk = receiver_sk.public_key();

    let ephemeral_sk = k256::SecretKey::random(&mut OsRng);
    let ephemeral_pub = ephemeral_sk.public_key().to_sec1_bytes().to_vec();

    let shared =
        k256::ecdh::diffie_hellman(ephemeral_sk.to_nonzero_scalar(), receiver_pk.as_affine());
    let hk = shared.extract::<sha2::Sha256>(None);
    let mut okm = [0u8; 32];
    hk.expand(b"", &mut okm).unwrap();

    let cipher = ChaCha20Poly1305::new(chacha20poly1305::Key::from_slice(&okm));
    let nonce = [0x24u8; 12];
    let ciphertext = cipher
        .encrypt(
            chacha20poly1305::Nonce::from_slice(&nonce),
            &[0xffu8, 0xfe, 0xfd][..],
        )
        .unwrap();

    let m = EncryptedMessage::new(&ciphertext, &nonce, &ephemeral_pub);
    assert!(matches!(
        decrypt_with_secret_key(m, &receiver_sk.to_bytes()),
        Err(CipherError::EncodingError)
    ));
}

#[test]
fn test_debug_address_to_pubkey() {
    let (_, payload) = fresh_recipient();
    let expected = format!("02{}", hex::encode(&payload));
    assert_eq!(debug_address_to_pubkey(&payload).unwrap(), expected);

    assert!(matches!(
        debug_address_to_pubkey(&payload[0..31]),
        Err(CipherError::AddressParseError)
    ));
    assert!(matches!(
        debug_address_to_pubkey(&[0xffu8; 32]),
        Err(CipherError::KeyDecodeError)
    ));
}

#[test]
fn test_debug_can_decrypt() {
    let sk = k256::SecretKey::random(&mut OsRng);
    let sk_hex = hex::encode(sk.to_bytes());
    let pk_hex = hex::encode(sk.public_key().to_sec1_bytes());

    let reported = debug_can_decrypt("0011", &sk_hex).unwrap();
    assert_eq!(reported, pk_hex);

    assert!(matches!(
        debug_can_decrypt("not hex", &sk_hex),
        Err(CipherError::HexDecodeError)
    ));
    assert!(matches!(
        debug_can_decrypt("0011", "zz"),
        Err(CipherError::HexDecodeError)
    ));
    let zero_hex = "00".repeat(32);
    assert!(matches!(
        debug_can_decrypt("0011", &zero_hex),
        Err(CipherError::KeyDecodeError)
    ));
}

#[test]
fn test_even_parity_recovery_matches_encryption() {
    // The sender recovers the even-parity point from the payload; the
    // receiver's scalar sees the shared point through its x-coordinate
    // alone, so decryption succeeds whatever parity the receiver's actual
    // public key has. Try several fresh keys to cover both parities.
    for _ in 0..8 {
        let (sk_bytes, payload) = fresh_recipient();
        let m = encrypt_message(&payload, "parity check").unwrap();
        assert_eq!(decrypt_message(m, &sk_bytes).unwrap(), "parity check");
    }
}
