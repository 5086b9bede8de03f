use core::cmp::Ordering;
use vstd::prelude::*;

use crate::errors::SessionIdError;
use crate::session_id::{
    compare_session_ids, lemma_bytes_cmp_equal, session_id_parse, SessionId,
};
use crate::text::{fingerprint, fingerprint_of};

verus! {

/// Text that stands for an absent ID in diagnostics.
pub const NO_ID_TEXT: &'static str = "<NOID>";

/// Two present-or-absent byte buffers are equal: both absent, or both present
/// with the same bytes.
pub open spec fn compatible_eq(a: Option<Seq<u8>>, b: Option<Seq<u8>>) -> bool {
    a == b
}

/// Two absent buffers are equal, an absent and a present one are not, and two
/// present ones are equal exactly when they hold the same bytes.
pub proof fn lemma_compatible_eq_cases(a: Option<Seq<u8>>, b: Option<Seq<u8>>)
    ensures
        a is None && b is None ==> compatible_eq(a, b),
        a is None != b is None ==> !compatible_eq(a, b),
        a is Some && b is Some ==> (compatible_eq(a, b) <==> a->0 == b->0),
{
}

/// A value that may or may not carry the bytes of a session ID.
pub trait SessionIdCompatible {
    /// The bytes carried, or `None` where the value is absent.
    spec fn present_bytes(&self) -> Option<Seq<u8>>;

    /// The bytes carried, or `None` where the value is absent.
    fn to_bytes(&self) -> (r: Option<&[u8]>)
        ensures
            match r {
                Some(b) => self.present_bytes() == Some(b@),
                None => self.present_bytes() is None,
            },
    ;

    /// The session ID carried: `Required` where absent, `Convert` where the
    /// bytes are not 32.
    fn to_session_id(&self) -> (r: Result<SessionId, SessionIdError>)
        ensures
            match self.present_bytes() {
                Some(b) => r == session_id_parse(b),
                None => r == Err::<SessionId, _>(SessionIdError::Required),
            },
    {
        match self.to_bytes() {
            Some(b) => SessionId::parse_slice(b),
            None => Err(SessionIdError::Required),
        }
    }

    /// Short form for logs: the first seven base64 characters of the bytes,
    /// or `<NOID>` where absent.
    fn to_debug_string(&self) -> (r: String)
        requires
            self.present_bytes() is Some ==> self.present_bytes()->0.len() <= usize::MAX / 2,
        ensures
            match self.present_bytes() {
                Some(b) => r@ == fingerprint_of(b),
                None => r@ == NO_ID_TEXT@,
            },
            self.present_bytes() is Some && self.present_bytes()->0.len() >= 4 ==> r@.len() == 7,
    {
        match self.to_bytes() {
            Some(b) => fingerprint(b),
            None => NO_ID_TEXT.to_owned(),
        }
    }
}

impl SessionIdCompatible for Option<Vec<u8>> {
    open spec fn present_bytes(&self) -> Option<Seq<u8>> {
        match self {
            Some(v) => Some(v@),
            None => None,
        }
    }

    fn to_bytes(&self) -> (r: Option<&[u8]>) {
        match self {
            Some(v) => Some(v.as_slice()),
            None => None,
        }
    }
}

impl<'a> SessionIdCompatible for Option<&'a SessionId> {
    open spec fn present_bytes(&self) -> Option<Seq<u8>> {
        match self {
            Some(id) => Some(id@),
            None => None,
        }
    }

    fn to_bytes(&self) -> (r: Option<&[u8]>) {
        match self {
            Some(id) => Some(id.0.as_slice()),
            None => None,
        }
    }
}

impl<'a> SessionIdCompatible for &'a [u8] {
    open spec fn present_bytes(&self) -> Option<Seq<u8>> {
        Some(self@)
    }

    fn to_bytes(&self) -> (r: Option<&[u8]>) {
        Some(*self)
    }
}

impl SessionIdCompatible for Vec<u8> {
    open spec fn present_bytes(&self) -> Option<Seq<u8>> {
        Some(self@)
    }

    fn to_bytes(&self) -> (r: Option<&[u8]>) {
        Some(self.as_slice())
    }
}

impl SessionIdCompatible for SessionId {
    open spec fn present_bytes(&self) -> Option<Seq<u8>> {
        Some(self@)
    }

    fn to_bytes(&self) -> (r: Option<&[u8]>) {
        Some(self.0.as_slice())
    }
}

/// Whether two present-or-absent buffers are equal: both absent, or both
/// present with the same bytes.
pub fn eq_slice<A: SessionIdCompatible, B: SessionIdCompatible>(a: &A, b: &B) -> (r: bool)
    ensures
        r == compatible_eq(a.present_bytes(), b.present_bytes()),
{
    let x = a.to_bytes();
    let y = b.to_bytes();
    match (x, y) {
        (None, None) => true,
        (Some(x), Some(y)) => {
            let c = compare_session_ids(x, y);
            proof {
                lemma_bytes_cmp_equal(x@, y@);
            }
            match c {
                Ordering::Equal => true,
                _ => false,
            }
        },
        _ => false,
    }
}

} // verus!
