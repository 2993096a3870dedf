use vstd::prelude::*;

verus! {

/// The plaintext byte length that SJCL's counter-mode code derives from the
/// total ciphertext-plus-tag size and the tag size, both given in bits. The
/// division truncates toward zero, exactly as the source arithmetic does.
pub open spec fn payload_bytes(output_size: int, tag_size: int) -> int {
    (output_size - tag_size) / 8
}

/// The smallest CCM length-field width in {2, 3, 4} whose `8 * width` bits
/// hold `payload`; 4 is kept even where the payload does not fit it.
pub open spec fn length_field_width(payload: int) -> int {
    if payload < 0x10000 {
        2
    } else if payload < 0x1000000 {
        3
    } else {
        4
    }
}

/// The width after SJCL's guard: where the declared IV is short enough that
/// `15 - iv_len` bytes of length field are needed to fill the block, the
/// width is raised to that, never shrunk. An IV longer than 15 bytes leaves
/// the width untouched.
pub open spec fn adjusted_width(payload: int, iv_len: int) -> int {
    let l = length_field_width(payload);
    if iv_len <= 15 && l < 15 - iv_len {
        15 - iv_len
    } else {
        l
    }
}

/// The adjusted nonce: the first `15 - adjusted_width` bytes of the decoded
/// IV. CCM splits the 15 non-flag bytes of its first block between nonce and
/// length field, so the nonce takes what the length field leaves.
pub open spec fn adjusted_nonce(iv: Seq<u8>, output_size: int, tag_size: int) -> Seq<u8> {
    iv.take(15 - adjusted_width(payload_bytes(output_size, tag_size), iv.len() as int))
}

/// Trim the initialization vector to the nonce length that SJCL's
/// counter-mode code would use: the sizing rule is reproduced bit for bit,
/// as authentication fails under any other nonce even with the correct key.
pub fn truncate_iv(iv: Vec<u8>, output_size: usize, tag_size: usize) -> (r: Vec<u8>)
    requires
        tag_size <= output_size,
    ensures
        r@ == adjusted_nonce(iv@, output_size as int, tag_size as int),
{
    let iv_size: usize = iv.len();
    let payload: usize = (output_size - tag_size) / 8;
    let mut l: usize = if payload < 0x10000 {
        2
    } else if payload < 0x1000000 {
        3
    } else {
        4
    };
    if iv_size <= 15 && l < 15 - iv_size {
        l = 15 - iv_size;
    }
    let mut r = iv;
    r.truncate(15 - l);
    r
}

/// With a 13-byte IV, a 64-bit tag and a 17-byte ciphertext-plus-tag field,
/// the adjustment leaves the IV untouched: the payload is 9 bytes, the
/// length field stays at width 2, and the guard does not raise it.
pub proof fn lemma_nonce_keeps_13_byte_iv(iv: Seq<u8>)
    requires
        iv.len() == 13,
    ensures
        adjusted_nonce(iv, 136, 64) == iv,
{
    assert(adjusted_nonce(iv, 136, 64) =~= iv);
}

} // verus!
