use vstd::prelude::*;
use vstd::string::StringSliceAdditionalSpecFns;
use vstd::utf8::valid_utf8;
use vstd::utf8::decode_utf8;
use vstd::utf8::encode_utf8;
use crate::aesccm::ccm_plaintext_of;
use crate::aesccm::decrypt_with_key;
use crate::b64::b64_decode;
use crate::b64::b64_decoding_of;
use crate::b64::b64_padded;
use crate::b64::pad_base64;
use crate::envelope::envelope_parse_of;
use crate::envelope::parse_envelope;
use crate::envelope::EnvelopeView;
use crate::envelope::SjclBlockJson;
use crate::errors::SjclError;
use crate::kdf::pbkdf2_derive;
use crate::kdf::pbkdf2_sha256_of;
use crate::nonce::adjusted_nonce;
use crate::nonce::truncate_iv;

verus! {

/// The block cipher tag is the one implemented cipher.
pub open spec fn cipher_supported(c: EnvelopeView) -> bool {
    c.cipher == "aes"@
}

/// The mode tag is the one implemented AEAD mode.
pub open spec fn mode_supported(c: EnvelopeView) -> bool {
    c.mode == "ccm"@
}

/// Only envelope format version 1 is supported.
pub open spec fn version_ok(c: EnvelopeView) -> bool {
    c.v == 1
}

/// Only empty associated data is supported.
pub open spec fn adata_ok(c: EnvelopeView) -> bool {
    c.adata.len() == 0
}

/// The implemented key sizes, in bits.
pub open spec fn ks_supported(c: EnvelopeView) -> bool {
    c.ks == 128 || c.ks == 256
}

/// The implemented tag size, in bits.
pub open spec fn ts_supported(c: EnvelopeView) -> bool {
    c.ts == 64
}

/// The iteration count must be positive.
pub open spec fn iter_ok(c: EnvelopeView) -> bool {
    c.iter > 0
}

/// The decoded salt, after padding repair of the transit string.
pub open spec fn salt_bytes(c: EnvelopeView) -> Option<Seq<u8>> {
    b64_decoding_of(b64_padded(c.salt))
}

/// The decoded IV, after padding repair of the transit string.
pub open spec fn iv_bytes(c: EnvelopeView) -> Option<Seq<u8>> {
    b64_decoding_of(b64_padded(c.iv))
}

/// The decoded ciphertext-plus-tag, after padding repair.
pub open spec fn ct_bytes(c: EnvelopeView) -> Option<Seq<u8>> {
    b64_decoding_of(b64_padded(c.ct))
}

/// All three base64 fields decode.
pub open spec fn decodes_ok(c: EnvelopeView) -> bool {
    salt_bytes(c) is Some && iv_bytes(c) is Some && ct_bytes(c) is Some
}

/// The decoded ciphertext-plus-tag is no shorter than the 8-byte tag, and
/// small enough that its bit length fits the machine word.
pub open spec fn ct_len_ok(c: EnvelopeView) -> bool {
    &&& ct_bytes(c) matches Some(ct) && ct.len() >= 8
    &&& ct_bytes(c) matches Some(ct) && ct.len() <= usize::MAX as int / 8
}

/// The nonce that the envelope's IV and sizes adjust to.
pub open spec fn envelope_nonce(c: EnvelopeView) -> Seq<u8> {
    adjusted_nonce(iv_bytes(c).unwrap(), ct_bytes(c).unwrap().len() as int * 8, c.ts as int)
}

/// The adjusted nonce has one of the lengths the AEAD dispatch implements.
pub open spec fn nonce_len_supported(c: EnvelopeView) -> bool {
    envelope_nonce(c).len() == 11 || envelope_nonce(c).len() == 12 || envelope_nonce(c).len() == 13
}

/// The decoded salt is within the bounds the key-derivation machinery
/// accepts: 3 to 48 bytes. Outside them derivation refuses its parameters.
pub open spec fn salt_len_ok(c: EnvelopeView) -> bool {
    3 <= salt_bytes(c).unwrap().len() <= 48
}

/// The key that the envelope's parameters derive from the passphrase.
pub open spec fn envelope_key(c: EnvelopeView, pass: Seq<char>) -> Seq<u8> {
    pbkdf2_sha256_of(encode_utf8(pass), salt_bytes(c).unwrap(), c.iter, (c.ks / 8) as nat)
}

/// Every validation and decoding stage of the pipeline passes, so that
/// key derivation and decryption are reached.
pub open spec fn decrypt_ready(c: EnvelopeView) -> bool {
    &&& cipher_supported(c)
    &&& mode_supported(c)
    &&& version_ok(c)
    &&& adata_ok(c)
    &&& ks_supported(c)
    &&& ts_supported(c)
    &&& iter_ok(c)
    &&& decodes_ok(c)
    &&& ct_len_ok(c)
    &&& nonce_len_supported(c)
}

/// What opening the envelope's ciphertext with the derived key yields.
pub open spec fn envelope_plaintext(c: EnvelopeView, pass: Seq<char>) -> Option<Seq<u8>> {
    ccm_plaintext_of(c.ks as int, envelope_key(c, pass), envelope_nonce(c), ct_bytes(c).unwrap())
}

/// Decryption of envelope `c` under passphrase `pass` succeeds with text
/// `out`: the pipeline is reached, the tag verifies, and the recovered
/// bytes decode as UTF-8 to exactly `out`.
pub open spec fn decrypt_ok_model(c: EnvelopeView, pass: Seq<char>, out: Seq<char>) -> bool {
    &&& decrypt_ready(c)
    &&& salt_len_ok(c)
    &&& envelope_plaintext(c, pass) matches Some(p) && valid_utf8(p) && out == decode_utf8(p)
}

/// The whole behaviour of the pipeline on envelope `c` and passphrase
/// `pass`: the stages run in order — structure checks, transit decoding,
/// dispatch checks, nonce adjustment, key derivation, authenticated
/// decryption, text decoding — and the first failure names the result.
pub open spec fn decrypt_contract(
    c: EnvelopeView,
    pass: Seq<char>,
    r: Result<String, SjclError>,
) -> bool {
    if !cipher_supported(c) {
        r matches Err(e) && e is NotImplementedError
    } else if !mode_supported(c) {
        r matches Err(e) && e is NotImplementedError
    } else if !version_ok(c) {
        r matches Err(e) && e is FormatError
    } else if !adata_ok(c) {
        r matches Err(e) && e is FormatError
    } else if salt_bytes(c) is None {
        r matches Err(e) && e is FormatError
    } else if iv_bytes(c) is None {
        r matches Err(e) && e is FormatError
    } else if ct_bytes(c) is None {
        r matches Err(e) && e is FormatError
    } else if !ks_supported(c) {
        r matches Err(e) && e is NotImplementedError
    } else if !ts_supported(c) {
        r matches Err(e) && e is NotImplementedError
    } else if !iter_ok(c) {
        r matches Err(e) && e is FormatError
    } else if !ct_len_ok(c) {
        r matches Err(e) && e is FormatError
    } else if !nonce_len_supported(c) {
        r matches Err(e) && e is NotImplementedError
    } else if !salt_len_ok(c) {
        r matches Err(e) && e is CryptoError
    } else {
        match envelope_plaintext(c, pass) {
            Option::None => r matches Err(e) && e is AuthenticationError,
            Option::Some(p) => if valid_utf8(p) {
                r matches Ok(s) && s@ == decode_utf8(p)
            } else {
                r matches Err(e) && e is EncodingError
            },
        }
    }
}

/// Decrypts one parsed SJCL envelope with a given passphrase.
///
/// Validation, transit decoding, nonce adjustment, key derivation and
/// authenticated decryption run in that order, and the first failure wins.
pub fn decrypt(chunk: SjclBlockJson, key: String) -> (r: Result<String, SjclError>)
    ensures
        decrypt_contract(chunk@, key@, r),
        r matches Ok(s) ==> decrypt_ok_model(chunk@, key@, s@),
{
    let cipher_is_aes: bool = chunk.cipher == "aes".to_owned();
    if !cipher_is_aes {
        return Err(SjclError::NotImplementedError);
    }
    let mode_is_ccm: bool = chunk.mode == "ccm".to_owned();
    if !mode_is_ccm {
        return Err(SjclError::NotImplementedError);
    }
    if chunk.v != 1 {
        return Err(
            SjclError::FormatError { message: "only version 1 is currently supported".to_owned() },
        );
    }
    if !chunk.adata.as_str().is_empty() {
        return Err(
            SjclError::FormatError { message: "expected empty additional data".to_owned() },
        );
    }
    let salt_padded = pad_base64(&chunk.salt);
    let saltb = match b64_decode(salt_padded.as_str()) {
        Ok(v) => v,
        Err(_) => return Err(
            SjclError::FormatError { message: "invalid base64 in field salt".to_owned() },
        ),
    };
    let iv_padded = pad_base64(&chunk.iv);
    let ivb = match b64_decode(iv_padded.as_str()) {
        Ok(v) => v,
        Err(_) => return Err(
            SjclError::FormatError { message: "invalid base64 in field iv".to_owned() },
        ),
    };
    let ct_padded = pad_base64(&chunk.ct);
    let ctb = match b64_decode(ct_padded.as_str()) {
        Ok(v) => v,
        Err(_) => return Err(
            SjclError::FormatError { message: "invalid base64 in field ct".to_owned() },
        ),
    };
    if chunk.ks != 128 && chunk.ks != 256 {
        return Err(SjclError::NotImplementedError);
    }
    if chunk.ts != 64 {
        return Err(SjclError::NotImplementedError);
    }
    if chunk.iter == 0 {
        return Err(
            SjclError::FormatError { message: "iteration count must be positive".to_owned() },
        );
    }
    if ctb.len() < 8 {
        return Err(
            SjclError::FormatError { message: "ciphertext shorter than the tag".to_owned() },
        );
    }
    if ctb.len() > usize::MAX / 8 {
        return Err(SjclError::FormatError { message: "ciphertext too long".to_owned() });
    }
    let ct_len: usize = ctb.len();
    let nonce = truncate_iv(ivb, ct_len * 8, chunk.ts);
    let nonce_len: usize = nonce.len();
    if !(nonce_len == 11 || nonce_len == 12 || nonce_len == 13) {
        return Err(SjclError::NotImplementedError);
    }
    if saltb.len() < 3 || saltb.len() > 48 {
        return Err(SjclError::CryptoError { message: "key derivation failed".to_owned() });
    }
    let key_bytes = match pbkdf2_derive(key.as_str(), &saltb, chunk.iter, chunk.ks / 8) {
        Ok(v) => v,
        Err(_) => {
            // unreachable: the salt and output lengths were checked in range
            proof {
                assert(false);
            }
            return Err(SjclError::CryptoError { message: "key derivation failed".to_owned() });
        },
    };
    decrypt_with_key(&key_bytes, &nonce, &ctb, chunk.ks)
}

/// Decrypts the raw JSON text of one SJCL envelope with a given passphrase:
/// parse, then the full pipeline. Text that does not parse as an envelope
/// is a format failure; on a parsed envelope the result is exactly what
/// `decrypt` gives for it.
pub fn decrypt_raw(chunk: String, key: String) -> (r: Result<String, SjclError>)
    ensures
        envelope_parse_of(chunk@) is None ==> (r matches Err(e) && e is FormatError),
        envelope_parse_of(chunk@) matches Some(env) ==> decrypt_contract(env, key@, r),
        r matches Ok(s) ==> (envelope_parse_of(chunk@) matches Some(env) && decrypt_ok_model(
            env,
            key@,
            s@,
        )),
{
    match parse_envelope(chunk.as_str()) {
        Ok(env) => decrypt(env, key),
        Err(_) => Err(SjclError::FormatError { message: "failed to parse JSON".to_owned() }),
    }
}

} // verus!
