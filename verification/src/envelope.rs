//! The wire envelope: a 12-byte nonce, the ephemeral public key (33 bytes in
//! SEC1 compressed form, or 32 bytes in a prefix-free raw form), and the
//! ciphertext with its trailing 16-byte tag — concatenated without length
//! prefixes, plus the hex transport encoding of the whole.

use vstd::prelude::*;

use crate::errors::CipherError;
use crate::hexfmt::{bytes_to_hex, hex_bytes, hex_str, hex_to_bytes, is_hex_string, lemma_hex_roundtrip};
use vstd::slice::{slice_subrange, slice_to_vec};

verus! {

/// A one-shot encrypted message as it travels on the wire.
///
/// The ephemeral key field holds a fresh key for every message; no secret
/// material lives inside this type.
#[derive(Clone, Debug)]
pub struct EncryptedMessage {
    /// AEAD nonce, exactly 12 bytes, random per message, not secret.
    pub nonce: Vec<u8>,
    /// Sender's ephemeral public key: 33 bytes (SEC1 compressed, leading
    /// 0x02 or 0x03) or 32 bytes (raw x-coordinate).
    pub ephemeral_public_key: Vec<u8>,
    /// AEAD output: the encrypted text with a 16-byte tag as its suffix.
    pub ciphertext: Vec<u8>,
}

/// The field length the decoder infers for the key from the byte at offset
/// 12: 33 when it carries a SEC1 compression prefix, 32 otherwise.
pub open spec fn wire_key_len(bytes: Seq<u8>) -> int {
    if bytes.len() > 12 && (bytes[12] == 0x02 || bytes[12] == 0x03) {
        33
    } else {
        32
    }
}

/// The nonce field of a serialized envelope: its first 12 bytes.
pub open spec fn wire_nonce(bytes: Seq<u8>) -> Seq<u8>
    recommends
        bytes.len() >= 12,
{
    bytes.subrange(0, 12)
}

/// The key field of a serialized envelope: the inferred number of bytes after
/// the nonce, or whatever remains when the input is shorter than that.
pub open spec fn wire_key(bytes: Seq<u8>) -> Seq<u8>
    recommends
        bytes.len() >= 12,
{
    if bytes.len() >= 12 + wire_key_len(bytes) {
        bytes.subrange(12, 12 + wire_key_len(bytes))
    } else {
        bytes.subrange(12, bytes.len() as int)
    }
}

/// The ciphertext field of a serialized envelope: everything after the key,
/// empty when the input ends inside the key field.
pub open spec fn wire_ciphertext(bytes: Seq<u8>) -> Seq<u8>
    recommends
        bytes.len() >= 12,
{
    if bytes.len() >= 12 + wire_key_len(bytes) {
        bytes.subrange(12 + wire_key_len(bytes), bytes.len() as int)
    } else {
        Seq::empty()
    }
}

impl EncryptedMessage {
    /// The serialized form: nonce, then key, then ciphertext, no separators.
    pub open spec fn serialized(self) -> Seq<u8> {
        self.nonce@ + self.ephemeral_public_key@ + self.ciphertext@
    }

    /// An envelope whose serialized form parses back into the same fields:
    /// the nonce is 12 bytes, and the key field's length agrees with what the
    /// decoder will infer from its first byte.
    pub open spec fn unambiguous(self) -> bool {
        &&& self.nonce@.len() == 12
        &&& {
            ||| (self.ephemeral_public_key@.len() == 33 && (self.ephemeral_public_key@[0] == 0x02
                || self.ephemeral_public_key@[0] == 0x03))
            ||| (self.ephemeral_public_key@.len() == 32 && self.ephemeral_public_key@[0] != 0x02
                && self.ephemeral_public_key@[0] != 0x03)
        }
    }

    /// Builds an envelope from its three fields, copied as given.
    pub fn new(ciphertext: &[u8], nonce: &[u8], ephemeral_public_key: &[u8]) -> (r: Self)
        ensures
            r.ciphertext@ == ciphertext@,
            r.nonce@ == nonce@,
            r.ephemeral_public_key@ == ephemeral_public_key@,
    {
        Self {
            ciphertext: slice_to_vec(ciphertext),
            nonce: slice_to_vec(nonce),
            ephemeral_public_key: slice_to_vec(ephemeral_public_key),
        }
    }

    /// Serializes the envelope: nonce, key and ciphertext concatenated.
    pub fn to_bytes(&self) -> (r: Vec<u8>)
        ensures
            r@ == self.serialized(),
    {
        let mut bytes: Vec<u8> = Vec::new();
        bytes.extend_from_slice(self.nonce.as_slice());
        bytes.extend_from_slice(self.ephemeral_public_key.as_slice());
        bytes.extend_from_slice(self.ciphertext.as_slice());
        bytes
    }

    /// Splits serialized bytes into the three fields: 12 bytes of nonce, a
    /// key field whose length the 13th byte selects, and the rest as
    /// ciphertext. Leniency: when the input ends inside the key field, the
    /// key takes what remains and the ciphertext is empty.
    pub fn from_bytes(bytes: &[u8]) -> (r: Self)
        requires
            bytes@.len() >= 12,
        ensures
            r.nonce@ == wire_nonce(bytes@),
            r.ephemeral_public_key@ == wire_key(bytes@),
            r.ciphertext@ == wire_ciphertext(bytes@),
    {
        let nonce = slice_to_vec(slice_subrange(bytes, 0, 12));
        let is_sec1_compressed = bytes.len() > 12 && (*vstd::slice::slice_index_get(bytes, 12)
            == 0x02u8 || *vstd::slice::slice_index_get(bytes, 12) == 0x03u8);
        let key_len: usize = if is_sec1_compressed {
            33
        } else {
            32
        };
        let key_end: usize = 12 + key_len;
        if bytes.len() < key_end {
            let ephemeral_public_key = slice_to_vec(slice_subrange(bytes, 12, bytes.len()));
            Self { nonce, ephemeral_public_key, ciphertext: Vec::new() }
        } else {
            let ephemeral_public_key = slice_to_vec(slice_subrange(bytes, 12, key_end));
            let ciphertext = slice_to_vec(slice_subrange(bytes, key_end, bytes.len()));
            Self { nonce, ephemeral_public_key, ciphertext }
        }
    }

    /// The lowercase hex transport encoding of the serialized envelope.
    pub fn to_hex(&self) -> (r: String)
        ensures
            r@ == hex_str(self.serialized()),
    {
        let bytes = self.to_bytes();
        bytes_to_hex(bytes.as_slice())
    }

    /// Decodes a hex transport string and splits the bytes as `from_bytes`
    /// does. Fails with `HexDecodeError` when the string is not hex or the
    /// decoded envelope is too short to hold a nonce.
    pub fn from_hex(hex_text: &str) -> (r: Result<EncryptedMessage, CipherError>)
        ensures
            r is Ok <==> is_hex_string(hex_text@) && hex_text@.len() >= 24,
            r matches Ok(m) ==> {
                &&& m.nonce@ == wire_nonce(hex_bytes(hex_text@))
                &&& m.ephemeral_public_key@ == wire_key(hex_bytes(hex_text@))
                &&& m.ciphertext@ == wire_ciphertext(hex_bytes(hex_text@))
            },
            r matches Err(e) ==> e == CipherError::HexDecodeError,
    {
        let bytes = match hex_to_bytes(hex_text) {
            Ok(v) => v,
            Err(e) => {
                return Err(e);
            },
        };
        if bytes.len() < 12 {
            return Err(CipherError::HexDecodeError);
        }
        Ok(Self::from_bytes(bytes.as_slice()))
    }
}

/// Law: envelope round trip. Serializing an unambiguous envelope — 12-byte
/// nonce, and a key that is 33 bytes with a compression prefix or 32 bytes
/// without one — and parsing the bytes back reproduces all three fields.
pub proof fn lemma_envelope_roundtrip(nonce: Seq<u8>, key: Seq<u8>, ct: Seq<u8>)
    requires
        nonce.len() == 12,
        (key.len() == 33 && (key[0] == 0x02 || key[0] == 0x03)) || (key.len() == 32 && key[0]
            != 0x02 && key[0] != 0x03),
    ensures
        wire_nonce(nonce + key + ct) == nonce,
        wire_key(nonce + key + ct) == key,
        wire_ciphertext(nonce + key + ct) == ct,
{
    let b = nonce + key + ct;
    assert(b[12] == key[0]);
    assert(wire_key_len(b) == key.len());
    assert(wire_nonce(b) =~= nonce);
    assert(wire_key(b) =~= key);
    assert(wire_ciphertext(b) =~= ct);
}

/// Law: wire round trip through the hex transport. The hex encoding of an
/// unambiguous envelope's bytes is a valid hex string, and decoding it and
/// parsing the result reproduces the three fields.
pub proof fn lemma_envelope_hex_roundtrip(nonce: Seq<u8>, key: Seq<u8>, ct: Seq<u8>)
    requires
        nonce.len() == 12,
        (key.len() == 33 && (key[0] == 0x02 || key[0] == 0x03)) || (key.len() == 32 && key[0]
            != 0x02 && key[0] != 0x03),
    ensures
        is_hex_string(hex_str(nonce + key + ct)),
        hex_str(nonce + key + ct).len() >= 24,
        wire_nonce(hex_bytes(hex_str(nonce + key + ct))) == nonce,
        wire_key(hex_bytes(hex_str(nonce + key + ct))) == key,
        wire_ciphertext(hex_bytes(hex_str(nonce + key + ct))) == ct,
{
    lemma_hex_roundtrip(nonce + key + ct);
    lemma_envelope_roundtrip(nonce, key, ct);
}

/// Law: the documented framing ambiguity. A 32-byte key whose first byte
/// happens to be a compression prefix is misparsed — the decoder takes 33
/// bytes for the key field, so the parsed key differs from the original.
pub proof fn lemma_framing_ambiguity(nonce: Seq<u8>, key: Seq<u8>, ct: Seq<u8>)
    requires
        nonce.len() == 12,
        key.len() == 32,
        key[0] == 0x02 || key[0] == 0x03,
        ct.len() >= 1,
    ensures
        wire_key(nonce + key + ct) != key,
{
    let b = nonce + key + ct;
    assert(b[12] == key[0]);
    assert(wire_key_len(b) == 33);
    assert(b.len() >= 45);
    assert(wire_key(b).len() == 33);
}

} // verus!


