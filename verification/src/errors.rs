use vstd::prelude::*;

verus! {

/// Failure taxonomy of the decryption pipeline. Every stage fails fast with
/// the first error met, and no partial plaintext is ever returned.
#[derive(Debug)]
pub enum SjclError {
    /// Malformed envelope: bad JSON, a missing or mistyped field, an
    /// unsupported version, non-empty associated data, or invalid base64.
    FormatError {
        /// Names the offending field or reason.
        message: String,
    },
    /// A recognized but deliberately unsupported cipher, mode or key-size
    /// combination, such as the deprecated `ocb2` mode.
    NotImplementedError,
    /// Key-derivation parameter failure; defensive, as PBKDF2 cannot fail on
    /// the parameters a supported envelope produces.
    CryptoError {
        /// Says which derivation step refused its parameters.
        message: String,
    },
    /// The authentication tag did not verify: wrong passphrase, corrupted
    /// ciphertext, or wrong nonce adjustment.
    AuthenticationError {
        /// A single opaque message; deliberately no finer-grained cause.
        message: String,
    },
    /// The ciphertext verified but its plaintext is not valid UTF-8 text.
    EncodingError {
        /// Says that the recovered bytes could not be decoded as text.
        message: String,
    },
}

} // verus!
