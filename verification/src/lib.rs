//! Decrypt-only support for the SJCL JSON envelope format.
//!
//! An envelope carries algorithm parameters, a base64 salt and nonce, and
//! base64 ciphertext-plus-tag. Given the passphrase, the pipeline derives the
//! key with PBKDF2-HMAC-SHA-256, reproduces SJCL's nonce sizing rule, and
//! opens the ciphertext with AES-CCM. Only AES in CCM mode is implemented.

pub mod aesccm;
pub mod b64;
pub mod decrypt;
pub mod envelope;
pub mod errors;
pub mod kdf;
pub mod nonce;

pub use aesccm::decrypt_with_key;
pub use decrypt::decrypt;
pub use decrypt::decrypt_raw;
pub use envelope::SjclBlockJson;
pub use errors::SjclError;
pub use nonce::truncate_iv;
