use vstd::prelude::*;
use vstd::string::StrSliceExecFns;
use vstd::string::StringExecFns;

verus! {

/// How many `'='` characters the padding repair appends to a base64 transit
/// string of length `n`: the deficiency to the next multiple of four.
pub open spec fn pad_count(n: int) -> int {
    (4 - n % 4) % 4
}

/// A base64 transit string with its padding repaired: `'='` characters are
/// appended until the length is a multiple of four. A correctly padded
/// string is unaffected.
pub open spec fn b64_padded(s: Seq<char>) -> Seq<char> {
    s + Seq::new(pad_count(s.len() as int) as nat, |i: int| '=')
}

/// What base64's standard-alphabet decoder returns on a given string:
/// `Some` decoded bytes, or `None` where the string is not valid base64.
pub uninterp spec fn b64_decoding_of(s: Seq<char>) -> Option<Seq<u8>>;

/// Relies on base64's `decode` (the standard alphabet): the outcome is a
/// function of the input characters alone; the decoder itself accepts input
/// with or without its trailing `'='` padding.
#[verifier::external_body]
pub(crate) fn b64_decode(s: &str) -> (r: Result<Vec<u8>, ()>)
    ensures
        r matches Ok(v) ==> b64_decoding_of(s@) == Some(v@),
        r is Err ==> b64_decoding_of(s@) is None,
{
    base64::decode(s).map_err(|_| ())
}

/// Repair missing base64 padding: append `'='` until the length is a
/// multiple of four.
pub fn pad_base64(s: &String) -> (r: String)
    ensures
        r@ == b64_padded(s@),
{
    let mut r = s.clone();
    let n: usize = r.as_str().unicode_len();
    let need: usize = (4 - n % 4) % 4;
    proof {
        assert(r@ =~= s@ + Seq::new(0, |k: int| '='));
    }
    let mut i: usize = 0;
    while i < need
        invariant
            i <= need,
            need == pad_count(s@.len() as int),
            r@ == s@ + Seq::new(i as nat, |k: int| '='),
        decreases need - i,
    {
        r.append("=");
        proof {
            reveal_strlit("=");
            assert(r@ =~= s@ + Seq::new((i + 1) as nat, |k: int| '='));
        }
        i = i + 1;
    }
    proof {
        assert(r@ =~= b64_padded(s@));
    }
    r
}

/// A string whose length is already a multiple of four is unaffected by the
/// padding repair.
pub proof fn lemma_pad_already_padded(s: Seq<char>)
    requires
        s.len() % 4 == 0,
    ensures
        b64_padded(s) == s,
{
    assert(b64_padded(s) =~= s);
}

/// Stripping one to three trailing `'='` characters from a correctly padded
/// base64 string and then repairing the padding restores the original string
/// exactly, so the repaired form decodes identically to the padded form.
pub proof fn lemma_pad_restores_stripped(s: Seq<char>, j: int)
    requires
        s.len() % 4 == 0,
        1 <= j <= 3,
        j <= s.len(),
        forall|i: int| s.len() - j <= i < s.len() ==> s[i] == '=',
    ensures
        b64_padded(s.take(s.len() - j)) == s,
        b64_decoding_of(b64_padded(s.take(s.len() - j))) == b64_decoding_of(s),
{
    let t = s.take(s.len() - j);
    assert(t.len() % 4 == (4 - j) % 4) by {
        assert(s.len() % 4 == 0);
    }
    assert(pad_count(t.len() as int) == j);
    assert(b64_padded(t) =~= s);
}

} // verus!
