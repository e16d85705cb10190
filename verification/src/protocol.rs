//! The protocol pipeline: recover the recipient's key from an address
//! payload, agree on a shared secret, derive the symmetric key, seal or open
//! the message, and report every failure as one value of the taxonomy.

use vstd::prelude::*;

use crate::crypto::{
    aead_decrypt, aead_encrypt, bytes_to_text, chacha_open, derive_symmetric_key,
    ecdh_shared_x, ephemeral_key_agreement, generate_nonce_bytes, hkdf_sha256_key,
    public_key_of_secret, recover_even_public_key, sec1_point_valid, secret_to_public_key,
    static_key_agreement, valid_secret_scalar, valid_x_only_key, MAX_PLAINTEXT_LEN,
};
use crate::envelope::EncryptedMessage;
use crate::errors::CipherError;
use crate::hexfmt::{bytes_to_hex, hex_bytes, hex_str, hex_to_bytes, is_hex_string};
use vstd::string::StringSliceAdditionalSpecFns;
use vstd::utf8::{decode_utf8, valid_utf8};

verus! {

/// True when decryption can get past key handling: the secret scalar is
/// valid and the envelope's ephemeral key decodes as a curve point.
pub open spec fn decrypt_keys_ok(message: EncryptedMessage, secret_key: Seq<u8>) -> bool {
    valid_secret_scalar(secret_key) && sec1_point_valid(message.ephemeral_public_key@)
}

/// The plaintext bytes a decryption recovers, when the tag verifies: the
/// AEAD opening under the key derived from the ECDH shared secret.
pub open spec fn recovered_plaintext(message: EncryptedMessage, secret_key: Seq<u8>) -> Option<
    Seq<u8>,
> {
    chacha_open(
        hkdf_sha256_key(ecdh_shared_x(secret_key, message.ephemeral_public_key@)),
        message.nonce@,
        message.ciphertext@,
    )
}

/// Encrypts a text message to the holder of the secret key behind an
/// address payload: the 32-byte x-coordinate of the recipient's public key,
/// taken with even parity. Builds a fresh ephemeral key and nonce, so two
/// calls on the same inputs give different envelopes.
pub fn encrypt_message(receiver_address_payload: &[u8], message: &str) -> (r: Result<
    EncryptedMessage,
    CipherError,
>)
    requires
        message.spec_bytes().len() < MAX_PLAINTEXT_LEN,
    ensures
        r is Ok <==> (receiver_address_payload@.len() == 32 && valid_x_only_key(
            receiver_address_payload@,
        )),
        receiver_address_payload@.len() != 32 ==> r == Err::<EncryptedMessage, CipherError>(
            CipherError::AddressParseError,
        ),
        receiver_address_payload@.len() == 32 && !valid_x_only_key(receiver_address_payload@)
            ==> r == Err::<EncryptedMessage, CipherError>(CipherError::KeyDecodeError),
        r matches Ok(m) ==> {
            &&& m.nonce@.len() == 12
            &&& m.ephemeral_public_key@.len() == 33
            &&& (m.ephemeral_public_key@[0] == 0x02 || m.ephemeral_public_key@[0] == 0x03)
            &&& m.ciphertext@.len() == message.spec_bytes().len() + 16
            &&& m.unambiguous()
        },
{
    if receiver_address_payload.len() != 32 {
        return Err(CipherError::AddressParseError);
    }
    let receiver_public_key = match recover_even_public_key(receiver_address_payload) {
        Ok(v) => v,
        Err(e) => {
            return Err(e);
        },
    };
    let (ephemeral_public_key, shared_x) = match ephemeral_key_agreement(
        receiver_public_key.as_slice(),
    ) {
        Ok(p) => p,
        Err(e) => {
            return Err(e);
        },
    };
    let symmetric_key = match derive_symmetric_key(shared_x.as_slice()) {
        Ok(v) => v,
        Err(_) => {
            return Err(CipherError::KeyDerivationError);
        },
    };
    let nonce = generate_nonce_bytes();
    let ciphertext = aead_encrypt(symmetric_key.as_slice(), nonce.as_slice(), message.as_bytes());
    Ok(
        EncryptedMessage::new(
            ciphertext.as_slice(),
            nonce.as_slice(),
            ephemeral_public_key.as_slice(),
        ),
    )
}

/// Decrypts an envelope with the recipient's 32-byte secret key. Key
/// material that does not decode fails with `KeyDecodeError`; a missing or
/// wrong tag — tampering and wrong keys alike — with `AuthenticationError`;
/// recovered bytes that are not text with `EncodingError`.
pub fn decrypt_with_secret_key(encrypted_message: EncryptedMessage, secret_key_bytes: &[u8]) -> (r:
    Result<String, CipherError>)
    requires
        encrypted_message.nonce@.len() == 12,
    ensures
        !decrypt_keys_ok(encrypted_message, secret_key_bytes@) ==> r == Err::<String, CipherError>(
            CipherError::KeyDecodeError,
        ),
        decrypt_keys_ok(encrypted_message, secret_key_bytes@) && recovered_plaintext(
            encrypted_message,
            secret_key_bytes@,
        ) is None ==> r == Err::<String, CipherError>(CipherError::AuthenticationError),
        recovered_plaintext(encrypted_message, secret_key_bytes@) matches Some(p)
            ==> decrypt_keys_ok(encrypted_message, secret_key_bytes@) ==> if valid_utf8(p) {
            r matches Ok(s) && s@ == decode_utf8(p)
        } else {
            r == Err::<String, CipherError>(CipherError::EncodingError)
        },
        decrypt_keys_ok(encrypted_message, secret_key_bytes@)
            && encrypted_message.ciphertext@.len() < 16 ==> r == Err::<String, CipherError>(
            CipherError::AuthenticationError,
        ),
{
    let shared_x = match static_key_agreement(
        secret_key_bytes,
        encrypted_message.ephemeral_public_key.as_slice(),
    ) {
        Ok(v) => v,
        Err(e) => {
            return Err(e);
        },
    };
    let symmetric_key = match derive_symmetric_key(shared_x.as_slice()) {
        Ok(v) => v,
        Err(_) => {
            return Err(CipherError::KeyDerivationError);
        },
    };
    let plaintext = match aead_decrypt(
        symmetric_key.as_slice(),
        encrypted_message.nonce.as_slice(),
        encrypted_message.ciphertext.as_slice(),
    ) {
        Ok(v) => v,
        Err(e) => {
            return Err(e);
        },
    };
    bytes_to_text(plaintext.as_slice())
}

/// Decrypts an envelope with the recipient's secret key, given as the
/// 32 bytes of the scalar. Same behaviour as `decrypt_with_secret_key`.
pub fn decrypt_message(encrypted_message: EncryptedMessage, receiver_secret_key: &[u8]) -> (r:
    Result<String, CipherError>)
    requires
        encrypted_message.nonce@.len() == 12,
    ensures
        !decrypt_keys_ok(encrypted_message, receiver_secret_key@) ==> r == Err::<
            String,
            CipherError,
        >(CipherError::KeyDecodeError),
        decrypt_keys_ok(encrypted_message, receiver_secret_key@) && recovered_plaintext(
            encrypted_message,
            receiver_secret_key@,
        ) is None ==> r == Err::<String, CipherError>(CipherError::AuthenticationError),
        recovered_plaintext(encrypted_message, receiver_secret_key@) matches Some(p)
            ==> decrypt_keys_ok(encrypted_message, receiver_secret_key@) ==> if valid_utf8(p) {
            r matches Ok(s) && s@ == decode_utf8(p)
        } else {
            r == Err::<String, CipherError>(CipherError::EncodingError)
        },
{
    decrypt_with_secret_key(encrypted_message, receiver_secret_key)
}

/// Decrypts an envelope with a private key given as bytes. Same behaviour
/// as `decrypt_message`.
pub fn decrypt_message_with_bytes(
    encrypted_message: EncryptedMessage,
    private_key_bytes: &[u8],
) -> (r: Result<String, CipherError>)
    requires
        encrypted_message.nonce@.len() == 12,
    ensures
        !decrypt_keys_ok(encrypted_message, private_key_bytes@) ==> r == Err::<String, CipherError>(
            CipherError::KeyDecodeError,
        ),
        decrypt_keys_ok(encrypted_message, private_key_bytes@) && recovered_plaintext(
            encrypted_message,
            private_key_bytes@,
        ) is None ==> r == Err::<String, CipherError>(CipherError::AuthenticationError),
        recovered_plaintext(encrypted_message, private_key_bytes@) matches Some(p)
            ==> decrypt_keys_ok(encrypted_message, private_key_bytes@) ==> if valid_utf8(p) {
            r matches Ok(s) && s@ == decode_utf8(p)
        } else {
            r == Err::<String, CipherError>(CipherError::EncodingError)
        },
{
    decrypt_message(encrypted_message, private_key_bytes)
}

/// Diagnostic helper: the full public key an address payload stands for,
/// as lowercase hex — the even-parity compressed point, 0x02 then the
/// payload's 32 bytes.
pub fn debug_address_to_pubkey(address_payload: &[u8]) -> (r: Result<String, CipherError>)
    ensures
        r is Ok <==> (address_payload@.len() == 32 && valid_x_only_key(address_payload@)),
        r matches Ok(s) ==> s@ == hex_str(seq![0x02u8] + address_payload@),
        address_payload@.len() != 32 ==> r == Err::<String, CipherError>(
            CipherError::AddressParseError,
        ),
        address_payload@.len() == 32 && !valid_x_only_key(address_payload@) ==> r == Err::<
            String,
            CipherError,
        >(CipherError::KeyDecodeError),
{
    if address_payload.len() != 32 {
        return Err(CipherError::AddressParseError);
    }
    let public_key = match recover_even_public_key(address_payload) {
        Ok(v) => v,
        Err(e) => {
            return Err(e);
        },
    };
    Ok(bytes_to_hex(public_key.as_slice()))
}

/// Diagnostic helper: checks that an envelope's hex decodes and that a
/// hex-given private key is valid, and reports the public key derived from
/// it, as lowercase hex.
pub fn debug_can_decrypt(encrypted_hex: &str, private_key_hex: &str) -> (r: Result<
    String,
    CipherError,
>)
    ensures
        !is_hex_string(encrypted_hex@) ==> r == Err::<String, CipherError>(
            CipherError::HexDecodeError,
        ),
        is_hex_string(encrypted_hex@) && !is_hex_string(private_key_hex@) ==> r == Err::<
            String,
            CipherError,
        >(CipherError::HexDecodeError),
        is_hex_string(encrypted_hex@) && is_hex_string(private_key_hex@) && !valid_secret_scalar(
            hex_bytes(private_key_hex@),
        ) ==> r == Err::<String, CipherError>(CipherError::KeyDecodeError),
        is_hex_string(encrypted_hex@) && is_hex_string(private_key_hex@) && valid_secret_scalar(
            hex_bytes(private_key_hex@),
        ) ==> (r matches Ok(s) && s@ == hex_str(public_key_of_secret(hex_bytes(private_key_hex@)))),
{
    match hex_to_bytes(encrypted_hex) {
        Ok(_) => (),
        Err(e) => {
            return Err(e);
        },
    };
    let private_key_bytes = match hex_to_bytes(private_key_hex) {
        Ok(v) => v,
        Err(e) => {
            return Err(e);
        },
    };
    let derived_public_key = match secret_to_public_key(private_key_bytes.as_slice()) {
        Ok(v) => v,
        Err(e) => {
            return Err(e);
        },
    };
    Ok(bytes_to_hex(derived_public_key.as_slice()))
}

} // verus!
