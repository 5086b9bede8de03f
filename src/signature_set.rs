use core::str::FromStr;
use vstd::prelude::*;

use crate::errors::SessionIdError;
use crate::text::{base64_decoded, base64_of, decode_base64, encode_base64};

verus! {

/// Bytes of a signature.
pub const SIGNATURE_SIZE: usize = 64;

/// Bytes of a signature's salt.
pub const SIGNATURE_SALT_SIZE: usize = 8;

/// Bytes of the binary layout of a signature set: the signature, then the salt.
pub const SIGNATURE_SET_SIZE: usize = 72;

/// A signature and the salt that was hashed in front of the signed payload.
#[derive(Debug, Clone, Copy)]
pub struct SignatureSet {
    pub signature: [u8; SIGNATURE_SIZE],
    pub salt: [u8; SIGNATURE_SALT_SIZE],
}

/// The binary layout of a signature set: the signature followed by the salt.
pub open spec fn signature_set_layout(s: SignatureSet) -> Seq<u8> {
    s.signature@ + s.salt@
}

/// The (signature, salt) that the binary layout `b` holds, where it is exactly
/// 72 bytes long.
pub open spec fn signature_set_from_bytes(b: Seq<u8>) -> Option<(Seq<u8>, Seq<u8>)> {
    if b.len() == SIGNATURE_SET_SIZE {
        Some((b.subrange(0, SIGNATURE_SIZE as int), b.subrange(SIGNATURE_SIZE as int, SIGNATURE_SET_SIZE as int)))
    } else {
        None
    }
}

/// The (signature, salt) that the text form `t` holds: its base64 decoding,
/// read as the binary layout.
pub open spec fn signature_set_from_text(t: Seq<char>) -> Option<(Seq<u8>, Seq<u8>)> {
    match base64_decoded(t) {
        Some(b) => signature_set_from_bytes(b),
        None => None,
    }
}

/// The bytes of one field of the structured form: the base64 decoding of `t`,
/// where it is valid and exactly `n` bytes long.
pub open spec fn field_from_text(t: Seq<char>, n: nat) -> Option<Seq<u8>> {
    match base64_decoded(t) {
        Some(b) => if b.len() == n {
            Some(b)
        } else {
            None
        },
        None => None,
    }
}

/// The signature set that holds `signature` and `salt`.
pub open spec fn signature_set_of(signature: Seq<u8>, salt: Seq<u8>) -> SignatureSet {
    choose|s: SignatureSet| s.signature@ == signature && s.salt@ == salt
}

/// Two signature sets with the same bytes are the same value.
pub proof fn lemma_signature_set_ext(a: SignatureSet, b: SignatureSet)
    requires
        a.signature@ == b.signature@,
        a.salt@ == b.salt@,
    ensures
        a == b,
{
    assert(a.signature =~= b.signature);
    assert(a.salt =~= b.salt);
}

/// Whether two byte strings are equal.
fn bytes_equal(a: &[u8], b: &[u8]) -> (r: bool)
    ensures
        r == (a@ == b@),
{
    if a.len() != b.len() {
        return false;
    }
    let mut i: usize = 0;
    while i < a.len()
        invariant
            a@.len() == b@.len(),
            i <= a@.len(),
            forall|k: int| 0 <= k < i ==> a@[k] == b@[k],
        decreases a@.len() - i,
    {
        if a[i] != b[i] {
            return false;
        }
        i = i + 1;
    }
    assert(a@ =~= b@);
    true
}

/// Copies `v[start..start + N]` into an array.
fn array_from<const N: usize>(v: &[u8], start: usize) -> (r: [u8; N])
    requires
        start + N <= v@.len(),
    ensures
        r@ == v@.subrange(start as int, start + N),
{
    let len = v.len();
    let mut r: [u8; N] = [0u8; N];
    let mut i: usize = 0;
    while i < N
        invariant
            len == v@.len(),
            i <= N,
            start + N <= v@.len(),
            r@.len() == N,
            forall|k: int| 0 <= k < i ==> r@[k] == v@[start + k],
        decreases N - i,
    {
        r[i] = v[start + i];
        i = i + 1;
    }
    assert(r@ =~= v@.subrange(start as int, start + N));
    r
}

/// Appends the bytes of `b` to `v`.
fn extend_bytes(v: &mut Vec<u8>, b: &[u8])
    ensures
        final(v)@ == old(v)@ + b@,
{
    let mut i: usize = 0;
    while i < b.len()
        invariant
            i <= b@.len(),
            v@ == old(v)@ + b@.subrange(0, i as int),
        decreases b@.len() - i,
    {
        v.push(b[i]);
        i = i + 1;
        assert(v@ =~= old(v)@ + b@.subrange(0, i as int));
    }
    assert(b@.subrange(0, b@.len() as int) =~= b@);
}

/// The base64 text of one field of the structured form.
pub fn as_base64(val: &[u8]) -> (r: String)
    requires
        val@.len() <= usize::MAX / 2,
    ensures
        r@ == base64_of(val@),
        r@.len() == 4 * ((val@.len() + 2) / 3),
        field_from_text(r@, val@.len()) == Some(val@),
{
    encode_base64(val)
}

/// The bytes of one field of the structured form, which must decode to
/// exactly `n` bytes.
pub fn from_base64(s: &str, n: usize) -> (r: Result<Vec<u8>, SessionIdError>)
    ensures
        match field_from_text(s@, n as nat) {
            Some(b) => r matches Ok(v) && v@ == b,
            None => r == Err::<Vec<u8>, _>(SessionIdError::Convert),
        },
{
    match decode_base64(s) {
        Some(v) => if v.len() == n {
            Ok(v)
        } else {
            Err(SessionIdError::Convert)
        },
        None => Err(SessionIdError::Convert),
    }
}

impl SignatureSet {
    /// The binary layout: the 64 signature bytes followed by the 8 salt bytes.
    pub fn to_vec(&self) -> (r: Vec<u8>)
        ensures
            r@ == signature_set_layout(*self),
            signature_set_from_bytes(r@) == Some((self.signature@, self.salt@)),
    {
        let mut buf: Vec<u8> = Vec::with_capacity(SIGNATURE_SET_SIZE);
        extend_bytes(&mut buf, &self.signature);
        extend_bytes(&mut buf, &self.salt);
        assert(buf@.subrange(0, SIGNATURE_SIZE as int) =~= self.signature@);
        assert(buf@.subrange(SIGNATURE_SIZE as int, SIGNATURE_SET_SIZE as int) =~= self.salt@);
        buf
    }

    /// Reads the binary layout, which must be exactly 72 bytes long.
    pub fn from_slice(value: &[u8]) -> (r: Result<SignatureSet, SessionIdError>)
        ensures
            match signature_set_from_bytes(value@) {
                Some((g, l)) => r matches Ok(s) && s.signature@ == g && s.salt@ == l,
                None => r == Err::<SignatureSet, _>(SessionIdError::Convert),
            },
    {
        if value.len() != SIGNATURE_SET_SIZE {
            return Err(SessionIdError::Convert);
        }
        let signature: [u8; SIGNATURE_SIZE] = array_from(value, 0);
        let salt: [u8; SIGNATURE_SALT_SIZE] = array_from(value, SIGNATURE_SIZE);
        Ok(SignatureSet { signature, salt })
    }

    /// The canonical text form: the base64 encoding of the binary layout.
    /// Parsing it gives this signature set back.
    pub fn to_string(&self) -> (r: String)
        ensures
            r@ == base64_of(signature_set_layout(*self)),
            r@.len() == 96,
            signature_set_from_text(r@) == Some((self.signature@, self.salt@)),
    {
        let buf = self.to_vec();
        encode_base64(buf.as_slice())
    }

    /// Parses the text form.
    pub fn from_text(s: &str) -> (r: Result<SignatureSet, SessionIdError>)
        ensures
            match signature_set_from_text(s@) {
                Some((g, l)) => r matches Ok(ss) && ss.signature@ == g && ss.salt@ == l,
                None => r == Err::<SignatureSet, _>(SessionIdError::Convert),
            },
    {
        match decode_base64(s) {
            Some(v) => SignatureSet::from_slice(v.as_slice()),
            None => Err(SessionIdError::Convert),
        }
    }

    /// The structured form: the base64 texts of the signature and of the salt.
    /// Decoding them gives this signature set back.
    pub fn to_fields(&self) -> (r: (String, String))
        ensures
            r.0@ == base64_of(self.signature@),
            r.1@ == base64_of(self.salt@),
            r.0@.len() == 88,
            r.1@.len() == 12,
            field_from_text(r.0@, SIGNATURE_SIZE as nat) == Some(self.signature@),
            field_from_text(r.1@, SIGNATURE_SALT_SIZE as nat) == Some(self.salt@),
    {
        (as_base64(&self.signature), as_base64(&self.salt))
    }

    /// Reads the structured form; each field must decode to its exact size.
    pub fn from_fields(signature: &str, salt: &str) -> (r: Result<SignatureSet, SessionIdError>)
        ensures
            match (
                field_from_text(signature@, SIGNATURE_SIZE as nat),
                field_from_text(salt@, SIGNATURE_SALT_SIZE as nat),
            ) {
                (Some(g), Some(l)) => r matches Ok(ss) && ss.signature@ == g && ss.salt@ == l,
                _ => r == Err::<SignatureSet, _>(SessionIdError::Convert),
            },
    {
        let g = from_base64(signature, SIGNATURE_SIZE)?;
        let l = from_base64(salt, SIGNATURE_SALT_SIZE)?;
        Ok(SignatureSet { signature: array_from(g.as_slice(), 0), salt: array_from(l.as_slice(), 0) })
    }
}

impl PartialEq for SignatureSet {
    fn eq(&self, other: &SignatureSet) -> (r: bool) {
        let r = bytes_equal(&self.signature, &other.signature) && bytes_equal(&self.salt, &other.salt);
        proof {
            if r {
                lemma_signature_set_ext(*self, *other);
            }
        }
        r
    }
}

impl vstd::std_specs::cmp::PartialEqSpecImpl for SignatureSet {
    open spec fn obeys_eq_spec() -> bool {
        true
    }

    open spec fn eq_spec(&self, other: &SignatureSet) -> bool {
        self.signature@ == other.signature@ && self.salt@ == other.salt@
    }
}

impl Eq for SignatureSet {
}

impl FromStr for SignatureSet {
    type Err = SessionIdError;

    fn from_str(s: &str) -> Result<SignatureSet, SessionIdError> {
        SignatureSet::from_text(s)
    }
}

impl TryFrom<Vec<u8>> for SignatureSet {
    type Error = SessionIdError;

    fn try_from(value: Vec<u8>) -> (r: Result<SignatureSet, SessionIdError>) {
        let r = SignatureSet::from_slice(value.as_slice());
        proof {
            if let Ok(s) = r {
                let c = signature_set_of(s.signature@, s.salt@);
                lemma_signature_set_ext(s, c);
            }
        }
        r
    }
}

impl vstd::std_specs::convert::TryFromSpecImpl<Vec<u8>> for SignatureSet {
    open spec fn obeys_try_from_spec() -> bool {
        true
    }

    open spec fn try_from_spec(value: Vec<u8>) -> Result<SignatureSet, SessionIdError> {
        match signature_set_from_bytes(value@) {
            Some((g, l)) => Ok(signature_set_of(g, l)),
            None => Err(SessionIdError::Convert),
        }
    }
}

} // verus!
