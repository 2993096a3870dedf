use aes::Aes128;
use aes::Aes256;
use ccm::Ccm;
use ccm::aead::Aead;
use ccm::aead::NewAead;
use ccm::aead::generic_array::GenericArray;
use ccm::consts::U11;
use ccm::consts::U12;
use ccm::consts::U13;
use ccm::consts::U8;
use password_hash::PasswordHasher;
use password_hash::Salt;
use password_hash::SaltString;
use pbkdf2::Params;
use pbkdf2::Pbkdf2;
use sjcl::SjclBlockJson;
use sjcl::SjclError;
use sjcl::decrypt;
use sjcl::truncate_iv;

#[test]
fn test_truncate_iv_keeps_13_byte_iv() {
    let iv: Vec<u8> = (1u8..=13).collect();
    let r = truncate_iv(iv.clone(), 136, 64);
    assert_eq!(r, iv);
}

#[test]
fn test_truncate_iv_trims_16_byte_iv_to_13() {
    let iv: Vec<u8> = (1u8..=16).collect();
    let r = truncate_iv(iv.clone(), 136, 64);
    assert_eq!(r, iv[..13].to_vec());
}

#[test]
fn test_truncate_iv_large_payload_trims_to_12() {
    let iv: Vec<u8> = (1u8..=16).collect();
    // payload of 0x10000 bytes needs a 3-byte length field: 12-byte nonce
    let r = truncate_iv(iv.clone(), (0x10000 + 8) * 8, 64);
    assert_eq!(r, iv[..12].to_vec());
}

#[test]
fn test_truncate_iv_short_iv_raises_width() {
    let iv: Vec<u8> = (1u8..=12).collect();
    // the guard raises the width to 15 - 12 = 3: the IV stays whole
    let r = truncate_iv(iv.clone(), 136, 64);
    assert_eq!(r, iv);
}

fn derive_key(pass: &str, salt: &[u8], rounds: u32, len: usize) -> Vec<u8> {
    let ss = SaltString::b64_encode(salt).unwrap();
    let phc_salt = Salt::new(ss.as_str()).unwrap();
    let params = Params { rounds, output_length: len };
    let hashed = Pbkdf2.hash_password(pass.as_bytes(), None, params, phc_salt).unwrap();
    hashed.hash.unwrap().as_bytes().to_vec()
}

fn crafted_envelope(plain: &[u8], pass: &str) -> SjclBlockJson {
    let salt = [1u8, 2, 3, 4, 5, 6, 7, 8];
    let iv = [9u8; 16];
    let key = derive_key(pass, &salt, 1000, 32);
    let cipher = Ccm::<Aes256, U8, U13>::new(GenericArray::from_slice(&key));
    let ct = cipher.encrypt(GenericArray::from_slice(&iv[..13]), plain).unwrap();
    SjclBlockJson {
        iv: base64::encode(iv),
        v: 1,
        iter: 1000,
        ks: 256,
        ts: 64,
        mode: "ccm".to_string(),
        adata: "".to_string(),
        cipher: "aes".to_string(),
        salt: base64::encode(salt),
        ct: base64::encode(ct),
    }
}

#[test]
fn test_crafted_envelope_round_trips() {
    let env = crafted_envelope(b"nine by nine", "correct horse");
    assert_eq!(decrypt(env, "correct horse".to_string()).unwrap(), "nine by nine");
}

#[test]
fn test_crafted_envelope_wrong_passphrase_fails() {
    let env = crafted_envelope(b"nine by nine", "correct horse");
    let r = decrypt(env, "battery staple".to_string());
    assert!(matches!(r, Err(SjclError::AuthenticationError { .. })));
}

#[test]
fn test_non_utf8_plaintext_is_encoding_error() {
    let env = crafted_envelope(&[0xff, 0xfe, 0xfd], "correct horse");
    let r = decrypt(env, "correct horse".to_string());
    assert!(matches!(r, Err(SjclError::EncodingError { .. })));
}

fn crafted_base(pass: &str, ks: usize) -> (Vec<u8>, [u8; 8], [u8; 16]) {
    let salt = [1u8, 2, 3, 4, 5, 6, 7, 8];
    let iv = [9u8; 16];
    let key = derive_key(pass, &salt, 1000, ks / 8);
    (key, salt, iv)
}

fn envelope_from(ks: usize, salt: [u8; 8], iv: [u8; 16], ct: Vec<u8>) -> SjclBlockJson {
    SjclBlockJson {
        iv: base64::encode(iv),
        v: 1,
        iter: 1000,
        ks,
        ts: 64,
        mode: "ccm".to_string(),
        adata: "".to_string(),
        cipher: "aes".to_string(),
        salt: base64::encode(salt),
        ct: base64::encode(ct),
    }
}

#[test]
fn test_crafted_aes128_round_trips() {
    let (key, salt, iv) = crafted_base("correct horse", 128);
    let cipher = Ccm::<Aes128, U8, U13>::new(GenericArray::from_slice(&key));
    let ct = cipher.encrypt(GenericArray::from_slice(&iv[..13]), b"small text".as_ref()).unwrap();
    let env = envelope_from(128, salt, iv, ct);
    assert_eq!(decrypt(env, "correct horse".to_string()).unwrap(), "small text");
}

#[test]
fn test_crafted_aes256_nonce12_round_trips() {
    // a payload of 0x10000 bytes forces a 3-byte length field: 12-byte nonce
    let plain = vec![b'a'; 0x10000];
    let (key, salt, iv) = crafted_base("correct horse", 256);
    let cipher = Ccm::<Aes256, U8, U12>::new(GenericArray::from_slice(&key));
    let ct = cipher.encrypt(GenericArray::from_slice(&iv[..12]), plain.as_slice()).unwrap();
    let env = envelope_from(256, salt, iv, ct);
    let out = decrypt(env, "correct horse".to_string()).unwrap();
    assert_eq!(out.len(), 0x10000);
    assert!(out.bytes().all(|b| b == b'a'));
}

#[test]
fn test_crafted_aes128_nonce12_round_trips() {
    let plain = vec![b'b'; 0x10000];
    let (key, salt, iv) = crafted_base("correct horse", 128);
    let cipher = Ccm::<Aes128, U8, U12>::new(GenericArray::from_slice(&key));
    let ct = cipher.encrypt(GenericArray::from_slice(&iv[..12]), plain.as_slice()).unwrap();
    let env = envelope_from(128, salt, iv, ct);
    let out = decrypt(env, "correct horse".to_string()).unwrap();
    assert_eq!(out.len(), 0x10000);
    assert!(out.bytes().all(|b| b == b'b'));
}

#[test]
fn test_crafted_aes256_nonce11_round_trips() {
    // a payload of 0x1000000 bytes forces a 4-byte length field: 11-byte nonce
    let plain = vec![b'c'; 0x1000000];
    let (key, salt, iv) = crafted_base("correct horse", 256);
    let cipher = Ccm::<Aes256, U8, U11>::new(GenericArray::from_slice(&key));
    let ct = cipher.encrypt(GenericArray::from_slice(&iv[..11]), plain.as_slice()).unwrap();
    let env = envelope_from(256, salt, iv, ct);
    let out = decrypt(env, "correct horse".to_string()).unwrap();
    assert_eq!(out.len(), 0x1000000);
}

#[test]
fn test_crafted_aes128_nonce11_round_trips() {
    let plain = vec![b'd'; 0x1000000];
    let (key, salt, iv) = crafted_base("correct horse", 128);
    let cipher = Ccm::<Aes128, U8, U11>::new(GenericArray::from_slice(&key));
    let ct = cipher.encrypt(GenericArray::from_slice(&iv[..11]), plain.as_slice()).unwrap();
    let env = envelope_from(128, salt, iv, ct);
    let out = decrypt(env, "correct horse".to_string()).unwrap();
    assert_eq!(out.len(), 0x1000000);
}
