use vstd::prelude::*;

use crate::ed25519::{
    ed25519ph_accepts, fill_random, hashed_input, keypair_public_encoding, keypair_secret_encoding,
    public_key_of_secret, hasher_update, is_curve_point, is_signature_encoding,
    keypair_from_secret, new_hasher, public_key_bytes, public_key_from_bytes, secret_key_from_bytes,
    sign_prehashed, signature_from_bytes, signature_to_bytes, verify_prehashed,
};
use crate::errors::SessionIdError;
use crate::session_id::{SessionId, SESSION_ID_SIZE};
use crate::signature_set::{SignatureSet, SIGNATURE_SALT_SIZE};

verus! {

/// A session ID with its private key (ed25519).
pub type SessionIdPair = ed25519_dalek::Keypair;

/// The concatenation, in order, of the payload segments.
pub open spec fn payload_bytes(payload: Seq<&[u8]>) -> Seq<u8>
    decreases payload.len(),
{
    if payload.len() == 0 {
        Seq::empty()
    } else {
        payload_bytes(payload.drop_last()) + payload.last()@
    }
}

/// What the signature covers: the salt, then the payload segments in order.
pub open spec fn signed_message(salt: Seq<u8>, payload: Seq<&[u8]>) -> Seq<u8> {
    salt + payload_bytes(payload)
}

/// Whether `sigset` is a valid signature by the key `key` on the payload
/// segments: the key is a curve point, the signature bytes pass the encoding
/// check, and Ed25519ph accepts them on the salted message.
pub open spec fn accepts_signature(key: Seq<u8>, payload: Seq<&[u8]>, sigset: SignatureSet) -> bool {
    &&& key.len() == SESSION_ID_SIZE
    &&& is_curve_point(key)
    &&& is_signature_encoding(sigset.signature@)
    &&& ed25519ph_accepts(key, signed_message(sigset.salt@, payload), sigset.signature@)
}

/// A SHA-512 hasher fed the salt and then each payload segment in order.
pub fn salted_hasher(salt: &[u8], payload: &Vec<&[u8]>) -> (h: ed25519_dalek::Sha512)
    ensures
        hashed_input(h) == signed_message(salt@, payload@),
{
    let mut h = new_hasher();
    hasher_update(&mut h, salt);
    let mut i: usize = 0;
    while i < payload.len()
        invariant
            i <= payload@.len(),
            hashed_input(h) == salt@ + payload_bytes(payload@.subrange(0, i as int)),
        decreases payload@.len() - i,
    {
        let p: &[u8] = payload[i];
        hasher_update(&mut h, p);
        proof {
            let next = payload@.subrange(0, i + 1);
            assert(next.drop_last() =~= payload@.subrange(0, i as int));
            assert(next.last() == p);
            assert(salt@ + payload_bytes(payload@.subrange(0, i as int)) + p@ =~= salt@
                + payload_bytes(next));
        }
        i = i + 1;
    }
    assert(payload@.subrange(0, payload@.len() as int) =~= payload@);
    h
}

/// A session ID as a public key.
pub trait SessionIdPublic {
    /// The 32 bytes of the public key.
    spec fn key_bytes(&self) -> Seq<u8>;

    /// Checks `sigset` on the payload segments: succeeds exactly where
    /// `accepts_signature` holds, and fails with `Signature` otherwise.
    fn verify(&self, payload: Vec<&[u8]>, sigset: &SignatureSet) -> (r: Result<(), SessionIdError>)
        ensures
            r is Ok <==> accepts_signature(self.key_bytes(), payload@, *sigset),
            r is Err ==> r == Err::<(), _>(SessionIdError::Signature),
    ;
}

impl SessionIdPublic for SessionId {
    open spec fn key_bytes(&self) -> Seq<u8> {
        self@
    }

    fn verify(&self, payload: Vec<&[u8]>, sigset: &SignatureSet) -> (r: Result<(), SessionIdError>) {
        let key = match public_key_from_bytes(&self.0) {
            Ok(k) => k,
            Err(_) => return Err(SessionIdError::Signature),
        };
        let h = salted_hasher(&sigset.salt, &payload);
        let sig = match signature_from_bytes(&sigset.signature) {
            Ok(s) => s,
            Err(_) => return Err(SessionIdError::Signature),
        };
        match verify_prehashed(&key, h, &sig) {
            Ok(()) => Ok(()),
            Err(_) => Err(SessionIdError::Signature),
        }
    }
}

/// The public half of `pair` is the one derived from its secret half.
pub open spec fn is_consistent_pair(pair: SessionIdPair) -> bool {
    keypair_public_encoding(pair) == public_key_of_secret(keypair_secret_encoding(pair))
}

/// Generates a key pair from 32 bytes of the secure random source. Fails with
/// `Random` only, where the source fails; the pair's public half is derived
/// from its 32-byte secret half.
pub fn new_session_id_pair() -> (r: Result<SessionIdPair, SessionIdError>)
    ensures
        r is Err ==> r == Err::<SessionIdPair, _>(SessionIdError::Random),
        r is Ok ==> is_consistent_pair(r->Ok_0) && keypair_secret_encoding(r->Ok_0).len() == 32,
{
    let mut sk = [0u8; 32];
    match fill_random(&mut sk) {
        Ok(()) => {},
        Err(_) => return Err(SessionIdError::Random),
    }
    session_id_pair_from_secret(&sk)
}

/// The key pair whose secret key is `secret`, with the public key derived from
/// it. Any 32 bytes make a secret key; other lengths fail with `Signature`.
pub fn session_id_pair_from_secret(secret: &[u8]) -> (r: Result<SessionIdPair, SessionIdError>)
    ensures
        r is Ok <==> secret@.len() == 32,
        r is Err ==> r == Err::<SessionIdPair, _>(SessionIdError::Signature),
        r is Ok ==> keypair_secret_encoding(r->Ok_0) == secret@,
        r is Ok ==> keypair_public_encoding(r->Ok_0) == public_key_of_secret(secret@),
        r is Ok ==> is_consistent_pair(r->Ok_0),
{
    match secret_key_from_bytes(secret) {
        Ok(sk) => Ok(keypair_from_secret(sk)),
        Err(_) => Err(SessionIdError::Signature),
    }
}

/// Signs the payload segments with `pair` under the given salt: the signature
/// covers the SHA-512 digest of `signed_message(salt, payload)`. Signing does
/// not fail; the result carries that salt, and where the pair is consistent
/// the signature verifies under its public half.
pub fn sign_with_salt(pair: &SessionIdPair, salt: [u8; SIGNATURE_SALT_SIZE], payload: &Vec<&[u8]>) -> (r:
    Result<SignatureSet, SessionIdError>)
    ensures
        r is Ok,
        r matches Ok(s) ==> s.salt == salt,
        r matches Ok(s) ==> is_signature_encoding(s.signature@),
        r is Ok && is_consistent_pair(*pair) ==> ed25519ph_accepts(
            keypair_public_encoding(*pair),
            signed_message(salt@, payload@),
            r->Ok_0.signature@,
        ),
{
    let h = salted_hasher(&salt, payload);
    match sign_prehashed(pair, h) {
        Ok(sig) => Ok(SignatureSet { signature: signature_to_bytes(sig), salt }),
        Err(_) => Err(SessionIdError::Signature),
    }
}

/// A key pair of session IDs.
pub trait ISessionIdPair {
    /// The 32-byte encoding of the pair's public half.
    spec fn public_bytes(&self) -> Seq<u8>;

    /// The public half is the one derived from the secret half.
    spec fn is_consistent(&self) -> bool;

    /// The session ID: the public half of the pair, which is a curve point.
    fn get_id(&self) -> (r: SessionId)
        ensures
            r@ == self.public_bytes(),
            is_curve_point(r@),
    ;

    /// Signs the payload segments under a fresh 8-byte salt from the secure
    /// random source. Fails with `Random` only, where the source fails; the
    /// signature passes the encoding check, and where the pair is consistent
    /// it verifies under the pair's session ID.
    fn sign(&self, payload: Vec<&[u8]>) -> (r: Result<SignatureSet, SessionIdError>)
        ensures
            r is Err ==> r == Err::<SignatureSet, _>(SessionIdError::Random),
            r matches Ok(s) ==> is_signature_encoding(s.signature@),
            r is Ok && self.is_consistent() ==> ed25519ph_accepts(
                self.public_bytes(),
                signed_message(r->Ok_0.salt@, payload@),
                r->Ok_0.signature@,
            ),
    ;
}

impl ISessionIdPair for SessionIdPair {
    open spec fn public_bytes(&self) -> Seq<u8> {
        keypair_public_encoding(*self)
    }

    open spec fn is_consistent(&self) -> bool {
        is_consistent_pair(*self)
    }

    fn get_id(&self) -> (r: SessionId) {
        SessionId(public_key_bytes(self))
    }

    fn sign(&self, payload: Vec<&[u8]>) -> (r: Result<SignatureSet, SessionIdError>) {
        let mut salt = [0u8; SIGNATURE_SALT_SIZE];
        match fill_random(&mut salt) {
            Ok(()) => {},
            Err(_) => return Err(SessionIdError::Random),
        }
        sign_with_salt(self, salt, &payload)
    }
}

/// A signature that a consistent pair makes verifies under the pair's session
/// ID: where `id` holds the pair's public half and `sigset` is what signing
/// `payload` returned, `accepts_signature` holds, so `verify` succeeds.
pub proof fn lemma_signature_verifies(pair: SessionIdPair, id: SessionId, payload: Seq<&[u8]>, sigset: SignatureSet)
    requires
        is_consistent_pair(pair),
        id@ == keypair_public_encoding(pair),
        is_curve_point(id@),
        is_signature_encoding(sigset.signature@),
        ed25519ph_accepts(keypair_public_encoding(pair), signed_message(sigset.salt@, payload), sigset.signature@),
    ensures
        accepts_signature(id@, payload, sigset),
{
}

} // verus!
