//! Hex transport encoding of envelopes: the exact meaning of the lowercase
//! hex alphabet, trusted bindings to the `hex` crate, and the proof that
//! decoding inverts encoding.

use vstd::prelude::*;

use crate::errors::CipherError;

verus! {

/// The lowercase hex digit for a value below 16.
pub open spec fn hex_digit_char(v: u8) -> char
    recommends
        v < 16,
{
    if v < 10 {
        ((v + 0x30) as u8) as char
    } else {
        ((v + 0x57) as u8) as char
    }
}

/// True for the characters the hex alphabet admits, either case.
pub open spec fn is_hex_digit(c: char) -> bool {
    let u = c as u32;
    (0x30 <= u && u <= 0x39) || (0x61 <= u && u <= 0x66) || (0x41 <= u && u <= 0x46)
}

/// The value of a hex digit character.
pub open spec fn hex_char_val(c: char) -> u8
    recommends
        is_hex_digit(c),
{
    let u = c as u32;
    if 0x30 <= u && u <= 0x39 {
        (u - 0x30) as u8
    } else if 0x61 <= u && u <= 0x66 {
        (u - 0x61 + 10) as u8
    } else if 0x41 <= u && u <= 0x46 {
        (u - 0x41 + 10) as u8
    } else {
        0
    }
}

/// The lowercase hex encoding of a byte sequence: two digits per byte, most
/// significant first.
pub open spec fn hex_str(bytes: Seq<u8>) -> Seq<char> {
    Seq::new(
        bytes.len() * 2,
        |i: int|
            if i % 2 == 0 {
                hex_digit_char(bytes[i / 2] / 16)
            } else {
                hex_digit_char(bytes[i / 2] % 16)
            },
    )
}

/// True for strings that decode as hex: even length, hex digits throughout.
pub open spec fn is_hex_string(s: Seq<char>) -> bool {
    s.len() % 2 == 0 && (forall|i: int| 0 <= i < s.len() ==> is_hex_digit(#[trigger] s[i]))
}

/// The bytes a hex string stands for.
pub open spec fn hex_bytes(s: Seq<char>) -> Seq<u8>
    recommends
        is_hex_string(s),
{
    Seq::new(s.len() / 2, |i: int| (hex_char_val(s[2 * i]) * 16 + hex_char_val(s[2 * i + 1])) as u8)
}

proof fn lemma_digit_char_val(v: u8)
    requires
        v < 16,
    ensures
        is_hex_digit(hex_digit_char(v)),
        hex_char_val(hex_digit_char(v)) == v,
{
}

/// Law: hex encoding is invertible — the encoding of any byte sequence is a
/// valid hex string, and decoding it gives the bytes back.
pub proof fn lemma_hex_roundtrip(bytes: Seq<u8>)
    ensures
        is_hex_string(hex_str(bytes)),
        hex_bytes(hex_str(bytes)) == bytes,
{
    let s = hex_str(bytes);
    assert forall|i: int| 0 <= i < s.len() implies is_hex_digit(#[trigger] s[i]) by {
        if i % 2 == 0 {
            lemma_digit_char_val(bytes[i / 2] / 16);
        } else {
            lemma_digit_char_val(bytes[i / 2] % 16);
        }
    }
    assert forall|i: int| 0 <= i < bytes.len() implies hex_bytes(s)[i] == bytes[i] by {
        lemma_digit_char_val(bytes[i] / 16);
        lemma_digit_char_val(bytes[i] % 16);
        assert(s[2 * i] == hex_digit_char(bytes[i] / 16));
        assert(s[2 * i + 1] == hex_digit_char(bytes[i] % 16));
        assert(bytes[i] / 16 * 16 + bytes[i] % 16 == bytes[i]) by (nonlinear_arith);
    }
    assert(hex_bytes(s) =~= bytes);
}

/// Relies on hex::encode: it returns the lowercase hex encoding of the input,
/// two digits per byte, most significant digit first.
#[verifier::external_body]
pub(crate) fn bytes_to_hex(bytes: &[u8]) -> (r: String)
    ensures
        r@ == hex_str(bytes@),
{
    hex::encode(bytes)
}

/// Relies on hex::decode: it accepts exactly the even-length strings of hex
/// digits (either case) and returns the bytes they stand for.
#[verifier::external_body]
pub(crate) fn hex_to_bytes(s: &str) -> (r: Result<Vec<u8>, CipherError>)
    ensures
        r is Ok <==> is_hex_string(s@),
        r matches Ok(v) ==> v@ == hex_bytes(s@),
        r matches Err(e) ==> e == CipherError::HexDecodeError,
{
    match hex::decode(s) {
        Ok(v) => Ok(v),
        Err(_) => Err(CipherError::HexDecodeError),
    }
}

} // verus!
