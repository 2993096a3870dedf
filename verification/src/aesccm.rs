use vstd::prelude::*;
use vstd::utf8::valid_utf8;
use vstd::utf8::decode_utf8;
use aes::Aes128;
use aes::Aes256;
use ccm::Ccm;
use ccm::consts::U11;
use ccm::consts::U12;
use ccm::consts::U13;
use ccm::consts::U8;
use ccm::aead::Aead;
use ccm::aead::NewAead;
use ccm::aead::generic_array::GenericArray;
use crate::errors::SjclError;

verus! {

/// What authenticated AES-128-CCM decryption with an 8-byte tag and an
/// 11-byte nonce yields: the plaintext, or `None` on tag mismatch.
pub uninterp spec fn aes128_tag8_nonce11_of(key: Seq<u8>, nonce: Seq<u8>, ct: Seq<u8>) -> Option<
    Seq<u8>,
>;

/// As above with a 12-byte nonce.
pub uninterp spec fn aes128_tag8_nonce12_of(key: Seq<u8>, nonce: Seq<u8>, ct: Seq<u8>) -> Option<
    Seq<u8>,
>;

/// As above with a 13-byte nonce.
pub uninterp spec fn aes128_tag8_nonce13_of(key: Seq<u8>, nonce: Seq<u8>, ct: Seq<u8>) -> Option<
    Seq<u8>,
>;

/// What authenticated AES-256-CCM decryption with an 8-byte tag and an
/// 11-byte nonce yields: the plaintext, or `None` on tag mismatch.
pub uninterp spec fn aes256_tag8_nonce11_of(key: Seq<u8>, nonce: Seq<u8>, ct: Seq<u8>) -> Option<
    Seq<u8>,
>;

/// As above with a 12-byte nonce.
pub uninterp spec fn aes256_tag8_nonce12_of(key: Seq<u8>, nonce: Seq<u8>, ct: Seq<u8>) -> Option<
    Seq<u8>,
>;

/// As above with a 13-byte nonce.
pub uninterp spec fn aes256_tag8_nonce13_of(key: Seq<u8>, nonce: Seq<u8>, ct: Seq<u8>) -> Option<
    Seq<u8>,
>;

/// Relies on ccm's `Aead::decrypt` for `Ccm<Aes128, U8, U11>`: decryption
/// and tag verification are atomic, the outcome is a function of key, nonce
/// and ciphertext alone, and no plaintext leaves on a mismatch.
#[verifier::external_body]
fn aes128_nonce11_decrypt(key: &Vec<u8>, nonce: &Vec<u8>, ct: &Vec<u8>) -> (r: Result<Vec<u8>, ()>)
    requires
        key@.len() == 16,
        nonce@.len() == 11,
    ensures
        r matches Ok(p) ==> aes128_tag8_nonce11_of(key@, nonce@, ct@) == Some(p@),
        r is Err ==> aes128_tag8_nonce11_of(key@, nonce@, ct@) is None,
{
    let cipher = Ccm::<Aes128, U8, U11>::new(GenericArray::from_slice(key.as_slice()));
    cipher.decrypt(GenericArray::from_slice(nonce.as_slice()), ct.as_slice()).map_err(|_| ())
}

/// Relies on ccm's `Aead::decrypt` for `Ccm<Aes128, U8, U12>`, as above.
#[verifier::external_body]
fn aes128_nonce12_decrypt(key: &Vec<u8>, nonce: &Vec<u8>, ct: &Vec<u8>) -> (r: Result<Vec<u8>, ()>)
    requires
        key@.len() == 16,
        nonce@.len() == 12,
    ensures
        r matches Ok(p) ==> aes128_tag8_nonce12_of(key@, nonce@, ct@) == Some(p@),
        r is Err ==> aes128_tag8_nonce12_of(key@, nonce@, ct@) is None,
{
    let cipher = Ccm::<Aes128, U8, U12>::new(GenericArray::from_slice(key.as_slice()));
    cipher.decrypt(GenericArray::from_slice(nonce.as_slice()), ct.as_slice()).map_err(|_| ())
}

/// Relies on ccm's `Aead::decrypt` for `Ccm<Aes128, U8, U13>`, as above.
#[verifier::external_body]
fn aes128_nonce13_decrypt(key: &Vec<u8>, nonce: &Vec<u8>, ct: &Vec<u8>) -> (r: Result<Vec<u8>, ()>)
    requires
        key@.len() == 16,
        nonce@.len() == 13,
    ensures
        r matches Ok(p) ==> aes128_tag8_nonce13_of(key@, nonce@, ct@) == Some(p@),
        r is Err ==> aes128_tag8_nonce13_of(key@, nonce@, ct@) is None,
{
    let cipher = Ccm::<Aes128, U8, U13>::new(GenericArray::from_slice(key.as_slice()));
    cipher.decrypt(GenericArray::from_slice(nonce.as_slice()), ct.as_slice()).map_err(|_| ())
}

/// Relies on ccm's `Aead::decrypt` for `Ccm<Aes256, U8, U11>`, as above.
#[verifier::external_body]
fn aes256_nonce11_decrypt(key: &Vec<u8>, nonce: &Vec<u8>, ct: &Vec<u8>) -> (r: Result<Vec<u8>, ()>)
    requires
        key@.len() == 32,
        nonce@.len() == 11,
    ensures
        r matches Ok(p) ==> aes256_tag8_nonce11_of(key@, nonce@, ct@) == Some(p@),
        r is Err ==> aes256_tag8_nonce11_of(key@, nonce@, ct@) is None,
{
    let cipher = Ccm::<Aes256, U8, U11>::new(GenericArray::from_slice(key.as_slice()));
    cipher.decrypt(GenericArray::from_slice(nonce.as_slice()), ct.as_slice()).map_err(|_| ())
}

/// Relies on ccm's `Aead::decrypt` for `Ccm<Aes256, U8, U12>`, as above.
#[verifier::external_body]
fn aes256_nonce12_decrypt(key: &Vec<u8>, nonce: &Vec<u8>, ct: &Vec<u8>) -> (r: Result<Vec<u8>, ()>)
    requires
        key@.len() == 32,
        nonce@.len() == 12,
    ensures
        r matches Ok(p) ==> aes256_tag8_nonce12_of(key@, nonce@, ct@) == Some(p@),
        r is Err ==> aes256_tag8_nonce12_of(key@, nonce@, ct@) is None,
{
    let cipher = Ccm::<Aes256, U8, U12>::new(GenericArray::from_slice(key.as_slice()));
    cipher.decrypt(GenericArray::from_slice(nonce.as_slice()), ct.as_slice()).map_err(|_| ())
}

/// Relies on ccm's `Aead::decrypt` for `Ccm<Aes256, U8, U13>`, as above.
#[verifier::external_body]
fn aes256_nonce13_decrypt(key: &Vec<u8>, nonce: &Vec<u8>, ct: &Vec<u8>) -> (r: Result<Vec<u8>, ()>)
    requires
        key@.len() == 32,
        nonce@.len() == 13,
    ensures
        r matches Ok(p) ==> aes256_tag8_nonce13_of(key@, nonce@, ct@) == Some(p@),
        r is Err ==> aes256_tag8_nonce13_of(key@, nonce@, ct@) is None,
{
    let cipher = Ccm::<Aes256, U8, U13>::new(GenericArray::from_slice(key.as_slice()));
    cipher.decrypt(GenericArray::from_slice(nonce.as_slice()), ct.as_slice()).map_err(|_| ())
}

/// Relies on `String::from_utf8`: it succeeds exactly on valid UTF-8 and
/// returns its decoding.
#[verifier::external_body]
fn utf8_string(v: Vec<u8>) -> (r: Result<String, ()>)
    ensures
        r matches Ok(s) ==> valid_utf8(v@) && s@ == decode_utf8(v@),
        r is Err ==> !valid_utf8(v@),
{
    String::from_utf8(v).map_err(|_| ())
}

/// The plaintext that the supported AES-CCM parameterization yields for a
/// given key size, key, nonce and ciphertext-plus-tag; meaningful only for
/// a key size in {128, 256} and a nonce of 11 to 13 bytes.
pub open spec fn ccm_plaintext_of(ks: int, key: Seq<u8>, nonce: Seq<u8>, ct: Seq<u8>) -> Option<
    Seq<u8>,
> {
    if ks == 128 {
        if nonce.len() == 11 {
            aes128_tag8_nonce11_of(key, nonce, ct)
        } else if nonce.len() == 12 {
            aes128_tag8_nonce12_of(key, nonce, ct)
        } else {
            aes128_tag8_nonce13_of(key, nonce, ct)
        }
    } else {
        if nonce.len() == 11 {
            aes256_tag8_nonce11_of(key, nonce, ct)
        } else if nonce.len() == 12 {
            aes256_tag8_nonce12_of(key, nonce, ct)
        } else {
            aes256_tag8_nonce13_of(key, nonce, ct)
        }
    }
}

/// Open the ciphertext-plus-tag with an already derived key and an already
/// adjusted nonce, and decode the recovered bytes as UTF-8 text. Tag
/// mismatch is a single opaque authentication failure; a plaintext that is
/// not text is the distinct encoding failure.
pub fn decrypt_with_key(key_bytes: &Vec<u8>, nonce: &Vec<u8>, ct: &Vec<u8>, ks: usize) -> (r:
    Result<String, SjclError>)
    requires
        ks == 128 || ks == 256,
        key_bytes@.len() == ks / 8,
        nonce@.len() == 11 || nonce@.len() == 12 || nonce@.len() == 13,
    ensures
        ccm_plaintext_of(ks as int, key_bytes@, nonce@, ct@) is None ==> (r matches Err(e)
            && e is AuthenticationError),
        ccm_plaintext_of(ks as int, key_bytes@, nonce@, ct@) matches Some(p) ==> ((!valid_utf8(p)
            ==> (r matches Err(e) && e is EncodingError)) && (valid_utf8(p) ==> (r matches Ok(s)
            && s@ == decode_utf8(p)))),
{
    let opened: Result<Vec<u8>, ()> = if ks == 128 {
        if nonce.len() == 11 {
            aes128_nonce11_decrypt(key_bytes, nonce, ct)
        } else if nonce.len() == 12 {
            aes128_nonce12_decrypt(key_bytes, nonce, ct)
        } else {
            aes128_nonce13_decrypt(key_bytes, nonce, ct)
        }
    } else {
        if nonce.len() == 11 {
            aes256_nonce11_decrypt(key_bytes, nonce, ct)
        } else if nonce.len() == 12 {
            aes256_nonce12_decrypt(key_bytes, nonce, ct)
        } else {
            aes256_nonce13_decrypt(key_bytes, nonce, ct)
        }
    };
    match opened {
        Ok(p) => match utf8_string(p) {
            Ok(s) => Ok(s),
            Err(_) => Err(
                SjclError::EncodingError {
                    message: "decrypted bytes are not valid UTF-8 text".to_owned(),
                },
            ),
        },
        Err(_) => Err(
            SjclError::AuthenticationError {
                message: "ciphertext verification failed".to_owned(),
            },
        ),
    }
}

} // verus!
