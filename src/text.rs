use vstd::prelude::*;

verus! {

/// The standard, padded base64 encoding of a byte string.
pub uninterp spec fn base64_of(b: Seq<u8>) -> Seq<char>;

/// What standard base64 decoding makes of a text: the bytes, or `None` where
/// the text is not valid base64.
pub uninterp spec fn base64_decoded(s: Seq<char>) -> Option<Seq<u8>>;

/// Every character of `s` is ASCII.
pub open spec fn is_ascii_text(s: Seq<char>) -> bool {
    forall|i: int| 0 <= i < s.len() ==> (#[trigger] s[i] as u32) < 128
}

/// The first `n` characters of `s`, or `s` itself where it is not longer.
pub open spec fn prefix_of(s: Seq<char>, n: nat) -> Seq<char> {
    if n < s.len() {
        s.subrange(0, n as int)
    } else {
        s
    }
}

/// Characters kept of a base64 text in the short form used for diagnostics.
pub const FINGERPRINT_LEN: usize = 7;

/// Short, lossy form of a byte string for logs: the first characters of its
/// base64 text.
pub open spec fn fingerprint_of(b: Seq<u8>) -> Seq<char> {
    prefix_of(base64_of(b), FINGERPRINT_LEN as nat)
}

/// Relies on base64::encode (standard alphabet, padded): the text is made of
/// ASCII characters, four for each started group of three bytes, and decodes
/// back to the input.
#[verifier::external_body]
pub(crate) fn encode_base64(b: &[u8]) -> (r: String)
    requires
        b@.len() <= usize::MAX / 2,
    ensures
        r@ == base64_of(b@),
        r@.len() == 4 * ((b@.len() + 2) / 3),
        is_ascii_text(r@),
        base64_decoded(r@) == Some(b@),
{
    base64::encode(b)
}

/// Relies on base64::decode (standard alphabet): the decoded bytes, or `None`
/// where the text is not valid base64.
#[verifier::external_body]
pub(crate) fn decode_base64(s: &str) -> (r: Option<Vec<u8>>)
    ensures
        match r {
            Some(v) => base64_decoded(s@) == Some(v@),
            None => base64_decoded(s@) is None,
        },
{
    base64::decode(s).ok()
}

/// Relies on String::truncate: on an ASCII text every index is a character
/// boundary, so the first `n` characters are kept.
#[verifier::external_body]
fn truncate_text(s: &mut String, n: usize)
    requires
        is_ascii_text(old(s)@),
    ensures
        final(s)@ == prefix_of(old(s)@, n as nat),
{
    s.truncate(n)
}

/// The diagnostic short form of a byte string.
pub fn fingerprint(b: &[u8]) -> (r: String)
    requires
        b@.len() <= usize::MAX / 2,
    ensures
        r@ == fingerprint_of(b@),
        b@.len() >= 4 ==> r@.len() == FINGERPRINT_LEN,
{
    let mut s = encode_base64(b);
    truncate_text(&mut s, FINGERPRINT_LEN);
    s
}

} // verus!
