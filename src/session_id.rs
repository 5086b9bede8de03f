use core::cmp::Ordering;
use vstd::prelude::*;

use vstd::std_specs::cmp::{PartialEqSpec, PartialOrdSpec};

use crate::errors::SessionIdError;
use crate::text::{
    base64_decoded, base64_of, decode_base64, encode_base64, fingerprint, fingerprint_of,
};

verus! {

/// Bytes of a session ID.
pub const SESSION_ID_SIZE: usize = 32;

/// The raw bytes of a session ID.
pub type RawSessionId = [u8; SESSION_ID_SIZE];

/// Order of two byte strings at equal positions from index `i` on: the first
/// differing byte decides, as an unsigned value.
pub open spec fn lex_cmp_from(a: Seq<u8>, b: Seq<u8>, i: int) -> Ordering
    decreases a.len() - i,
{
    if i < 0 || i >= a.len() || i >= b.len() {
        Ordering::Equal
    } else if a[i] < b[i] {
        Ordering::Less
    } else if a[i] > b[i] {
        Ordering::Greater
    } else {
        lex_cmp_from(a, b, i + 1)
    }
}

/// The general byte comparator: a shorter string is less than a longer one;
/// strings of equal length are ordered by their first differing byte.
pub open spec fn bytes_cmp(a: Seq<u8>, b: Seq<u8>) -> Ordering {
    if a.len() < b.len() {
        Ordering::Less
    } else if a.len() > b.len() {
        Ordering::Greater
    } else {
        lex_cmp_from(a, b, 0)
    }
}

/// Compares two byte strings by `bytes_cmp`.
pub fn compare_session_ids(a: &[u8], b: &[u8]) -> (r: Ordering)
    ensures
        r == bytes_cmp(a@, b@),
{
    let n = a.len();
    if n < b.len() {
        return Ordering::Less;
    }
    if n > b.len() {
        return Ordering::Greater;
    }
    let mut i: usize = 0;
    while i < n
        invariant
            n == a@.len(),
            n == b@.len(),
            i <= n,
            lex_cmp_from(a@, b@, 0) == lex_cmp_from(a@, b@, i as int),
        decreases n - i,
    {
        if a[i] < b[i] {
            return Ordering::Less;
        }
        if a[i] > b[i] {
            return Ordering::Greater;
        }
        i = i + 1;
    }
    Ordering::Equal
}

/// The two byte strings agree from index `i` on.
proof fn lemma_lex_equal(a: Seq<u8>, b: Seq<u8>, i: int)
    requires
        a.len() == b.len(),
        0 <= i <= a.len(),
    ensures
        lex_cmp_from(a, b, i) == Ordering::Equal <==> a.subrange(i, a.len() as int)
            =~= b.subrange(i, b.len() as int),
    decreases a.len() - i,
{
    if i < a.len() {
        lemma_lex_equal(a, b, i + 1);
        if a[i] == b[i] && a.subrange(i + 1, a.len() as int) =~= b.subrange(i + 1, b.len() as int) {
            assert forall|k: int| 0 <= k < a.len() - i implies a.subrange(i, a.len() as int)[k]
                == b.subrange(i, b.len() as int)[k] by {
                if k > 0 {
                    assert(a.subrange(i + 1, a.len() as int)[k - 1] == b.subrange(
                        i + 1,
                        b.len() as int,
                    )[k - 1]);
                }
            }
            assert(a.subrange(i, a.len() as int) =~= b.subrange(i, b.len() as int));
        }
        if a.subrange(i, a.len() as int) =~= b.subrange(i, b.len() as int) {
            assert(a[i] == a.subrange(i, a.len() as int)[0]);
            assert(b[i] == b.subrange(i, b.len() as int)[0]);
            assert(a.subrange(i + 1, a.len() as int) =~= a.subrange(i, a.len() as int).subrange(1, a.len() - i));
            assert(b.subrange(i + 1, b.len() as int) =~= b.subrange(i, b.len() as int).subrange(1, b.len() - i));
        }
    }
}

/// Swapping the arguments swaps `Less` and `Greater`.
proof fn lemma_lex_antisymmetric(a: Seq<u8>, b: Seq<u8>, i: int)
    ensures
        lex_cmp_from(a, b, i) == Ordering::Less <==> lex_cmp_from(b, a, i) == Ordering::Greater,
        lex_cmp_from(a, b, i) == Ordering::Equal <==> lex_cmp_from(b, a, i) == Ordering::Equal,
    decreases a.len() - i,
{
    if 0 <= i < a.len() && i < b.len() {
        lemma_lex_antisymmetric(a, b, i + 1);
    }
}

/// `Less` is transitive on byte strings of one length.
proof fn lemma_lex_transitive(a: Seq<u8>, b: Seq<u8>, c: Seq<u8>, i: int)
    requires
        a.len() == b.len(),
        b.len() == c.len(),
        lex_cmp_from(a, b, i) == Ordering::Less,
        lex_cmp_from(b, c, i) == Ordering::Less,
    ensures
        lex_cmp_from(a, c, i) == Ordering::Less,
    decreases a.len() - i,
{
    if 0 <= i < a.len() && a[i] == b[i] && b[i] == c[i] {
        lemma_lex_transitive(a, b, c, i + 1);
    }
}

/// The general comparator says `Equal` exactly on equal byte strings.
pub proof fn lemma_bytes_cmp_equal(a: Seq<u8>, b: Seq<u8>)
    ensures
        bytes_cmp(a, b) == Ordering::Equal <==> a == b,
{
    if a.len() == b.len() {
        lemma_lex_equal(a, b, 0);
        assert(a.subrange(0, a.len() as int) =~= a);
        assert(b.subrange(0, b.len() as int) =~= b);
    }
}

/// Session ID: the 32 bytes of an ed25519 public key.
#[derive(Debug, Clone, Copy, Eq, Ord, Hash)]
pub struct SessionId(pub RawSessionId);

impl View for SessionId {
    type V = Seq<u8>;

    open spec fn view(&self) -> Seq<u8> {
        self.0@
    }
}

/// Two session IDs with the same bytes are the same value.
proof fn lemma_session_id_ext(a: SessionId, b: SessionId)
    requires
        a@ == b@,
    ensures
        a == b,
{
    assert(a.0 =~= b.0);
}

impl PartialEq for SessionId {
    fn eq(&self, other: &SessionId) -> (r: bool) {
        let c = compare_session_ids(&self.0, &other.0);
        proof {
            lemma_bytes_cmp_equal(self@, other@);
        }
        match c {
            Ordering::Equal => true,
            _ => false,
        }
    }
}

impl vstd::std_specs::cmp::PartialEqSpecImpl for SessionId {
    open spec fn obeys_eq_spec() -> bool {
        true
    }

    open spec fn eq_spec(&self, other: &SessionId) -> bool {
        self@ == other@
    }
}

impl PartialOrd for SessionId {
    fn partial_cmp(&self, other: &SessionId) -> (r: Option<Ordering>) {
        Some(compare_session_ids(&self.0, &other.0))
    }
}

impl vstd::std_specs::cmp::PartialOrdSpecImpl for SessionId {
    open spec fn obeys_partial_cmp_spec() -> bool {
        true
    }

    open spec fn partial_cmp_spec(&self, other: &SessionId) -> Option<Ordering> {
        Some(bytes_cmp(self@, other@))
    }
}

/// The order of session IDs is total and agrees with equality: of two IDs
/// exactly one is less, both are equal, or the first is greater, they compare
/// equal exactly when they are the same value, and swapping them swaps less
/// and greater.
pub proof fn lemma_session_id_order_total(a: SessionId, b: SessionId)
    ensures
        a.partial_cmp_spec(&b) is Some,
        bytes_cmp(a@, b@) == Ordering::Equal <==> a == b,
        bytes_cmp(a@, b@) == Ordering::Less <==> bytes_cmp(b@, a@) == Ordering::Greater,
        a.eq_spec(&b) <==> a == b,
{
    lemma_bytes_cmp_equal(a@, b@);
    lemma_lex_antisymmetric(a@, b@, 0);
    if a@ == b@ {
        lemma_session_id_ext(a, b);
    }
}

/// The order of session IDs is transitive.
pub proof fn lemma_session_id_order_transitive(a: SessionId, b: SessionId, c: SessionId)
    requires
        bytes_cmp(a@, b@) == Ordering::Less,
        bytes_cmp(b@, c@) == Ordering::Less,
    ensures
        bytes_cmp(a@, c@) == Ordering::Less,
{
    lemma_lex_transitive(a@, b@, c@, 0);
}

/// The bytes of a session ID written as `t`: its base64 decoding, where that is
/// valid and exactly 32 bytes long.
pub open spec fn session_id_from_text(t: Seq<char>) -> Option<Seq<u8>> {
    match base64_decoded(t) {
        Some(d) => if d.len() == SESSION_ID_SIZE {
            Some(d)
        } else {
            None
        },
        None => None,
    }
}

impl SessionId {
    /// Whether `other` holds exactly the bytes of this ID.
    pub fn eq_slice(&self, other: &[u8]) -> (r: bool)
        ensures
            r == (self@ == other@),
    {
        let c = self.cmp_slice(other);
        proof {
            lemma_bytes_cmp_equal(self@, other@);
        }
        match c {
            Ordering::Equal => true,
            _ => false,
        }
    }

    /// Compares the bytes of this ID with `other` by the general comparator.
    pub fn cmp_slice(&self, other: &[u8]) -> (r: Ordering)
        ensures
            r == bytes_cmp(self@, other@),
    {
        compare_session_ids(&self.0, other)
    }

    /// Short, lossy form for logs: the first seven characters of the base64
    /// text.
    pub fn to_debug_string(&self) -> (r: String)
        ensures
            r@ == fingerprint_of(self@),
            r@.len() == 7,
    {
        fingerprint(&self.0)
    }

    /// The 32 bytes as a vector.
    pub fn to_vec(&self) -> (r: Vec<u8>)
        ensures
            r@ == self@,
    {
        let mut v: Vec<u8> = Vec::new();
        let mut i: usize = 0;
        while i < SESSION_ID_SIZE
            invariant
                i <= SESSION_ID_SIZE,
                self@.len() == SESSION_ID_SIZE,
                v@ == self@.subrange(0, i as int),
            decreases SESSION_ID_SIZE - i,
        {
            v.push(self.0[i]);
            i = i + 1;
        }
        assert(self@.subrange(0, SESSION_ID_SIZE as int) =~= self@);
        v
    }

    /// The canonical text form: the base64 encoding of the 32 bytes. Parsing
    /// it gives this ID back.
    pub fn to_string(&self) -> (r: String)
        ensures
            r@ == base64_of(self@),
            r@.len() == 44,
            session_id_from_text(r@) == Some(self@),
    {
        encode_base64(&self.0)
    }

    /// Builds an ID from exactly 32 bytes.
    pub fn from_slice(value: &[u8]) -> (r: Result<SessionId, SessionIdError>)
        ensures
            value@.len() == SESSION_ID_SIZE ==> (r matches Ok(id) && id@ == value@),
            value@.len() != SESSION_ID_SIZE ==> r == Err::<SessionId, _>(SessionIdError::Convert),
    {
        if value.len() != SESSION_ID_SIZE {
            return Err(SessionIdError::Convert);
        }
        let mut raw: RawSessionId = [0u8; SESSION_ID_SIZE];
        let mut i: usize = 0;
        while i < SESSION_ID_SIZE
            invariant
                i <= SESSION_ID_SIZE,
                value@.len() == SESSION_ID_SIZE,
                raw@.len() == SESSION_ID_SIZE,
                forall|k: int| 0 <= k < i ==> raw@[k] == value@[k],
            decreases SESSION_ID_SIZE - i,
        {
            raw[i] = value[i];
            i = i + 1;
        }
        assert(raw@ =~= value@);
        Ok(SessionId(raw))
    }

    /// Parses the base64 text form of an ID.
    pub fn from_text(s: &str) -> (r: Result<SessionId, SessionIdError>)
        ensures
            match session_id_from_text(s@) {
                Some(b) => r matches Ok(id) && id@ == b,
                None => r == Err::<SessionId, _>(SessionIdError::Convert),
            },
    {
        match decode_base64(s) {
            Some(v) => SessionId::from_slice(v.as_slice()),
            None => Err(SessionIdError::Convert),
        }
    }
}

impl Default for SessionId {
    /// The all-zero ID.
    fn default() -> (r: SessionId)
        ensures
            r@ == Seq::new(SESSION_ID_SIZE as nat, |i: int| 0u8),
    {
        let r = SessionId([0u8; SESSION_ID_SIZE]);
        assert(r@ =~= Seq::new(SESSION_ID_SIZE as nat, |i: int| 0u8));
        r
    }
}

impl core::str::FromStr for SessionId {
    type Err = SessionIdError;

    fn from_str(s: &str) -> Result<SessionId, SessionIdError> {
        SessionId::from_text(s)
    }
}

impl From<RawSessionId> for SessionId {
    fn from(v: RawSessionId) -> (r: SessionId) {
        SessionId(v)
    }
}

impl vstd::std_specs::convert::FromSpecImpl<RawSessionId> for SessionId {
    open spec fn obeys_from_spec() -> bool {
        true
    }

    open spec fn from_spec(v: RawSessionId) -> SessionId {
        SessionId(v)
    }
}

impl From<SessionId> for Vec<u8> {
    fn from(v: SessionId) -> (r: Vec<u8>)
        ensures
            r@ == v@,
    {
        v.to_vec()
    }
}

// Two vectors with the same contents are not equal values in specifications,
// so no `from_spec` result can be promised; `from` itself states the contents.
impl vstd::std_specs::convert::FromSpecImpl<SessionId> for Vec<u8> {
    open spec fn obeys_from_spec() -> bool {
        false
    }

    open spec fn from_spec(v: SessionId) -> Vec<u8> {
        choose|r: Vec<u8>| r@ == v@
    }
}

/// The result of building a session ID from the byte string `b`.
pub open spec fn session_id_parse(b: Seq<u8>) -> Result<SessionId, SessionIdError> {
    if b.len() == SESSION_ID_SIZE {
        Ok(choose|id: SessionId| id@ == b)
    } else {
        Err(SessionIdError::Convert)
    }
}

impl SessionId {
    /// `from_slice`, with its result stated as `session_id_parse`.
    pub(crate) fn parse_slice(value: &[u8]) -> (r: Result<SessionId, SessionIdError>)
        ensures
            r == session_id_parse(value@),
    {
        let r = SessionId::from_slice(value);
        proof {
            if let Ok(id) = r {
                let c = choose|c: SessionId| c@ == value@;
                lemma_session_id_ext(id, c);
            }
        }
        r
    }
}

impl<'a> TryFrom<&'a [u8]> for SessionId {
    type Error = SessionIdError;

    fn try_from(value: &'a [u8]) -> (r: Result<SessionId, SessionIdError>) {
        SessionId::parse_slice(value)
    }
}

impl<'a> vstd::std_specs::convert::TryFromSpecImpl<&'a [u8]> for SessionId {
    open spec fn obeys_try_from_spec() -> bool {
        true
    }

    open spec fn try_from_spec(value: &'a [u8]) -> Result<SessionId, SessionIdError> {
        session_id_parse(value@)
    }
}

impl<'a> TryFrom<&'a Vec<u8>> for SessionId {
    type Error = SessionIdError;

    fn try_from(value: &'a Vec<u8>) -> (r: Result<SessionId, SessionIdError>) {
        SessionId::parse_slice(value.as_slice())
    }
}

impl<'a> vstd::std_specs::convert::TryFromSpecImpl<&'a Vec<u8>> for SessionId {
    open spec fn obeys_try_from_spec() -> bool {
        true
    }

    open spec fn try_from_spec(value: &'a Vec<u8>) -> Result<SessionId, SessionIdError> {
        session_id_parse(value@)
    }
}

impl TryFrom<Vec<u8>> for SessionId {
    type Error = SessionIdError;

    fn try_from(value: Vec<u8>) -> (r: Result<SessionId, SessionIdError>) {
        SessionId::parse_slice(value.as_slice())
    }
}

impl vstd::std_specs::convert::TryFromSpecImpl<Vec<u8>> for SessionId {
    open spec fn obeys_try_from_spec() -> bool {
        true
    }

    open spec fn try_from_spec(value: Vec<u8>) -> Result<SessionId, SessionIdError> {
        session_id_parse(value@)
    }
}

impl AsRef<[u8]> for SessionId {
    fn as_ref(&self) -> (r: &[u8])
        ensures
            r@ == self@,
    {
        self.0.as_slice()
    }
}

} // verus!
