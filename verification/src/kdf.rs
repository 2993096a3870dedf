use vstd::prelude::*;
use vstd::string::StringSliceAdditionalSpecFns;
use password_hash::PasswordHasher;
use password_hash::Salt;
use password_hash::SaltString;
use pbkdf2::Params;
use pbkdf2::Pbkdf2;

verus! {

/// The key that PBKDF2 with HMAC-SHA-256 derives from a passphrase, a salt,
/// an iteration count and an output length in bytes: a function of those
/// arguments alone, the same in every process and on every machine.
pub uninterp spec fn pbkdf2_sha256_of(pass: Seq<u8>, salt: Seq<u8>, rounds: u32, out_len: nat) -> Seq<u8>;

/// Relies on pbkdf2's `Pbkdf2` password hasher, whose default algorithm is
/// `pbkdf2-sha256`: the salt bytes are carried through a PHC-format B64 salt
/// string that the hasher decodes back before stretching, so on success the
/// hash holds PBKDF2-HMAC-SHA-256 of the passphrase bytes and the raw salt
/// bytes, `out_len` bytes of it. The only failures are out-of-range
/// parameters: the 64-byte salt-string buffer refuses a salt over 48 bytes,
/// the 4-character PHC minimum refuses one under 3 bytes, and the hash
/// output accepts only lengths in 10..=64.
#[verifier::external_body]
pub(crate) fn pbkdf2_derive(pass: &str, salt: &Vec<u8>, rounds: u32, out_len: usize) -> (r: Result<
    Vec<u8>,
    (),
>)
    ensures
        r matches Ok(k) ==> k@ == pbkdf2_sha256_of(pass.spec_bytes(), salt@, rounds, out_len as nat)
            && k@.len() == out_len,
        r is Err ==> (salt@.len() < 3 || salt@.len() > 48 || out_len < 10 || out_len > 64),
{
    let ss = SaltString::b64_encode(salt.as_slice()).map_err(|_| ())?;
    let phc_salt = Salt::new(ss.as_str()).map_err(|_| ())?;
    let params = Params { rounds, output_length: out_len };
    let hashed = Pbkdf2.hash_password(pass.as_bytes(), None, params, phc_salt).map_err(|_| ())?;
    match hashed.hash {
        Some(h) => Ok(h.as_bytes().to_vec()),
        None => Err(()),
    }
}

} // verus!
