use vstd::prelude::*;
use serde_json::Value;

verus! {

/// One parsed SJCL envelope, fields as they stand in transit: base64 text
/// for the byte-valued fields, integers for the parameters. Immutable once
/// parsed; padding repair happens on copies at decrypt time.
pub struct SjclBlockJson {
    /// Base64 counter-mode nonce material, pre-adjustment.
    pub iv: String,
    /// Envelope format version; only 1 is supported.
    pub v: u32,
    /// PBKDF2 iteration count; must be positive.
    pub iter: u32,
    /// Key size in bits; 128 or 256 is implemented.
    pub ks: usize,
    /// Authentication tag size in bits.
    pub ts: usize,
    /// AEAD mode tag; only `ccm` is implemented.
    pub mode: String,
    /// Associated authenticated data; only the empty value is supported.
    pub adata: String,
    /// Block cipher tag; only `aes` is implemented.
    pub cipher: String,
    /// Base64 PBKDF2 salt.
    pub salt: String,
    /// Base64 ciphertext concatenated with the authentication tag.
    pub ct: String,
}

/// The mathematical content of one envelope: each string field as its
/// character sequence, the parameters as they are.
pub struct EnvelopeView {
    /// View of the base64 IV field.
    pub iv: Seq<char>,
    /// The version field.
    pub v: u32,
    /// The iteration count field.
    pub iter: u32,
    /// The key size field, in bits.
    pub ks: usize,
    /// The tag size field, in bits.
    pub ts: usize,
    /// View of the mode tag.
    pub mode: Seq<char>,
    /// View of the associated data field.
    pub adata: Seq<char>,
    /// View of the cipher tag.
    pub cipher: Seq<char>,
    /// View of the base64 salt field.
    pub salt: Seq<char>,
    /// View of the base64 ciphertext-plus-tag field.
    pub ct: Seq<char>,
}

impl View for SjclBlockJson {
    type V = EnvelopeView;

    open spec fn view(&self) -> EnvelopeView {
        EnvelopeView {
            iv: self.iv@,
            v: self.v,
            iter: self.iter,
            ks: self.ks,
            ts: self.ts,
            mode: self.mode@,
            adata: self.adata@,
            cipher: self.cipher@,
            salt: self.salt@,
            ct: self.ct@,
        }
    }
}

/// The ten envelope fields as JSON carries them, before the integer fields
/// are narrowed: the string fields as text, the number fields as u64.
pub struct RawEnvelope {
    /// The base64 IV field.
    pub iv: String,
    /// The version field, unnarrowed.
    pub v: u64,
    /// The iteration count field, unnarrowed.
    pub iter: u64,
    /// The key size field, unnarrowed.
    pub ks: u64,
    /// The tag size field, unnarrowed.
    pub ts: u64,
    /// The mode tag.
    pub mode: String,
    /// The associated data field.
    pub adata: String,
    /// The cipher tag.
    pub cipher: String,
    /// The base64 salt field.
    pub salt: String,
    /// The base64 ciphertext-plus-tag field.
    pub ct: String,
}

/// The mathematical content of the raw fields.
pub struct RawEnvelopeView {
    /// View of the base64 IV field.
    pub iv: Seq<char>,
    /// The version field, unnarrowed.
    pub v: u64,
    /// The iteration count field, unnarrowed.
    pub iter: u64,
    /// The key size field, unnarrowed.
    pub ks: u64,
    /// The tag size field, unnarrowed.
    pub ts: u64,
    /// View of the mode tag.
    pub mode: Seq<char>,
    /// View of the associated data field.
    pub adata: Seq<char>,
    /// View of the cipher tag.
    pub cipher: Seq<char>,
    /// View of the base64 salt field.
    pub salt: Seq<char>,
    /// View of the base64 ciphertext-plus-tag field.
    pub ct: Seq<char>,
}

impl View for RawEnvelope {
    type V = RawEnvelopeView;

    open spec fn view(&self) -> RawEnvelopeView {
        RawEnvelopeView {
            iv: self.iv@,
            v: self.v,
            iter: self.iter,
            ks: self.ks,
            ts: self.ts,
            mode: self.mode@,
            adata: self.adata@,
            cipher: self.cipher@,
            salt: self.salt@,
            ct: self.ct@,
        }
    }
}

/// What reading the ten envelope fields out of a text yields: the fields
/// where the text is a JSON object holding a string value under each of the
/// six string keys and an unsigned integer fitting u64 under each of the
/// four number keys, `None` otherwise. A function of the input alone.
pub uninterp spec fn json_fields_of(s: Seq<char>) -> Option<RawEnvelopeView>;

/// Relies on serde_json: `from_str` parses one JSON document, and `Value`'s
/// `get`, `as_str` and `as_u64` read the ten envelope fields out of it,
/// each required and type-checked. The outcome is a function of the input
/// text alone.
#[verifier::external_body]
fn json_envelope_fields(raw: &str) -> (r: Result<RawEnvelope, ()>)
    ensures
        r matches Ok(f) ==> json_fields_of(raw@) == Some(f@),
        r is Err ==> json_fields_of(raw@) is None,
{
    let val: Value = serde_json::from_str(raw).map_err(|_| ())?;
    let s = |k: &str| val.get(k).and_then(Value::as_str).map(String::from).ok_or(());
    let n = |k: &str| val.get(k).and_then(Value::as_u64).ok_or(());
    Ok(RawEnvelope {
        iv: s("iv")?, v: n("v")?, iter: n("iter")?, ks: n("ks")?, ts: n("ts")?,
        mode: s("mode")?, adata: s("adata")?, cipher: s("cipher")?,
        salt: s("salt")?, ct: s("ct")?,
    })
}

/// What parsing a text as one envelope yields: the raw JSON fields with the
/// version and iteration count narrowed to u32 and the sizes to usize,
/// `None` where the text does not parse or a field does not fit.
pub open spec fn envelope_parse_of(s: Seq<char>) -> Option<EnvelopeView> {
    match json_fields_of(s) {
        Option::None => Option::None,
        Option::Some(f) => if f.v <= u32::MAX && f.iter <= u32::MAX && f.ks <= usize::MAX && f.ts
            <= usize::MAX {
            Option::Some(
                EnvelopeView {
                    iv: f.iv,
                    v: f.v as u32,
                    iter: f.iter as u32,
                    ks: f.ks as usize,
                    ts: f.ts as usize,
                    mode: f.mode,
                    adata: f.adata,
                    cipher: f.cipher,
                    salt: f.salt,
                    ct: f.ct,
                },
            )
        } else {
            Option::None
        },
    }
}

/// Parse the raw JSON text of one envelope into its typed representation:
/// read the ten fields, then narrow the integer fields, rejecting any that
/// does not fit its type.
pub(crate) fn parse_envelope(raw: &str) -> (r: Result<SjclBlockJson, ()>)
    ensures
        r matches Ok(env) ==> envelope_parse_of(raw@) == Some(env@),
        r is Err ==> envelope_parse_of(raw@) is None,
{
    let f = match json_envelope_fields(raw) {
        Ok(f) => f,
        Err(_) => return Err(()),
    };
    if f.v > u32::MAX as u64 || f.iter > u32::MAX as u64 || f.ks > usize::MAX as u64 || f.ts
        > usize::MAX as u64 {
        return Err(());
    }
    Ok(
        SjclBlockJson {
            iv: f.iv,
            v: f.v as u32,
            iter: f.iter as u32,
            ks: f.ks as usize,
            ts: f.ts as usize,
            mode: f.mode,
            adata: f.adata,
            cipher: f.cipher,
            salt: f.salt,
            ct: f.ct,
        },
    )
}

} // verus!
