//! The error taxonomy of the protocol. Every fallible operation reports one of
//! these values; a failed decryption never reveals more than the variant says.

use vstd::prelude::*;

verus! {

/// Why an operation of this library failed.
///
/// `AuthenticationError` deliberately covers both a wrong key and a tampered
/// ciphertext: the two cases must stay indistinguishable to a caller.
#[derive(Clone, Copy, Debug, PartialEq, Eq, Structural)]
pub enum CipherError {
    /// The recipient address payload is malformed (not exactly 32 bytes).
    AddressParseError,
    /// Bytes do not decode to a valid curve point or secret scalar.
    KeyDecodeError,
    /// The key-derivation expand step refused the requested output length.
    KeyDerivationError,
    /// AEAD tag verification failed: tampered data or a wrong key.
    AuthenticationError,
    /// Decrypted bytes are not valid UTF-8 text.
    EncodingError,
    /// A hex transport string is malformed.
    HexDecodeError,
}

} // verus!
