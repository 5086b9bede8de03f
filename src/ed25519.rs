//! The calls into ed25519-dalek and getrandom that the signing protocol makes,
//! with what the library relies on of each.
use ed25519_dalek::Digest;
use vstd::prelude::*;

verus! {

#[verifier::external_type_specification]
#[verifier::external_body]
pub struct ExKeypair(ed25519_dalek::Keypair);

#[verifier::external_type_specification]
#[verifier::external_body]
pub struct ExSecretKey(ed25519_dalek::SecretKey);

#[verifier::external_type_specification]
#[verifier::external_body]
pub struct ExPublicKey(ed25519_dalek::PublicKey);

#[verifier::external_type_specification]
#[verifier::external_body]
pub struct ExSignature(ed25519_dalek::Signature);

#[verifier::external_type_specification]
#[verifier::external_body]
pub struct ExSignatureError(ed25519_dalek::SignatureError);

#[verifier::external_type_specification]
#[verifier::external_body]
pub struct ExSha512(ed25519_dalek::Sha512);

#[verifier::external_type_specification]
#[verifier::external_body]
pub struct ExRandomError(getrandom::Error);

/// The bytes fed so far into a SHA-512 hasher.
pub uninterp spec fn hashed_input(h: ed25519_dalek::Sha512) -> Seq<u8>;

/// Whether `b` is the compressed encoding of a point of the ed25519 curve.
pub uninterp spec fn is_curve_point(b: Seq<u8>) -> bool;

/// The 32-byte compressed encoding that a public key holds.
pub uninterp spec fn public_key_encoding(k: ed25519_dalek::PublicKey) -> Seq<u8>;

/// The 64 bytes that a signature holds.
pub uninterp spec fn signature_encoding(s: ed25519_dalek::Signature) -> Seq<u8>;

/// Whether Ed25519ph verification with no context accepts the signature
/// `signature` by the key encoded as `public` on the SHA-512 digest of
/// `message`.
pub uninterp spec fn ed25519ph_accepts(public: Seq<u8>, message: Seq<u8>, signature: Seq<u8>) -> bool;

/// The 32 bytes that a secret key holds.
pub uninterp spec fn secret_key_encoding(k: ed25519_dalek::SecretKey) -> Seq<u8>;

/// The 32 bytes of the secret half of a key pair.
pub uninterp spec fn keypair_secret_encoding(p: ed25519_dalek::Keypair) -> Seq<u8>;

/// The 32-byte compressed encoding of the public half of a key pair.
pub uninterp spec fn keypair_public_encoding(p: ed25519_dalek::Keypair) -> Seq<u8>;

/// The compressed encoding of the public key that ed25519 derives from the
/// secret key bytes `secret` (SHA-512, clamping, scalar multiplication).
pub uninterp spec fn public_key_of_secret(secret: Seq<u8>) -> Seq<u8>;

/// Whether the signature bytes `b` pass the encoding check that the primitive
/// applies: 64 bytes whose last byte has its three high bits clear.
pub open spec fn is_signature_encoding(b: Seq<u8>) -> bool {
    b.len() == 64 && b[63] & 0xe0u8 == 0
}

/// Relies on getrandom::getrandom: fills the buffer from the system's secure
/// random source, or fails; the length stays.
#[verifier::external_body]
pub(crate) fn fill_random(buf: &mut [u8]) -> (r: Result<(), getrandom::Error>)
    ensures
        final(buf)@.len() == old(buf)@.len(),
{
    getrandom::getrandom(buf)
}

/// Relies on SecretKey::from_bytes: any 32 bytes make a secret key, which
/// holds them as they are; other lengths are refused.
#[verifier::external_body]
pub(crate) fn secret_key_from_bytes(b: &[u8]) -> (r: Result<
    ed25519_dalek::SecretKey,
    ed25519_dalek::SignatureError,
>)
    ensures
        r is Ok <==> b@.len() == 32,
        r is Ok ==> secret_key_encoding(r->Ok_0) == b@,
{
    ed25519_dalek::SecretKey::from_bytes(b)
}

/// Relies on `From<&SecretKey> for PublicKey`: derives the public half from the
/// secret key's bytes alone and pairs it with the secret key.
#[verifier::external_body]
pub(crate) fn keypair_from_secret(secret: ed25519_dalek::SecretKey) -> (r: ed25519_dalek::Keypair)
    ensures
        keypair_secret_encoding(r) == secret_key_encoding(secret),
        keypair_public_encoding(r) == public_key_of_secret(secret_key_encoding(secret)),
{
    let public = ed25519_dalek::PublicKey::from(&secret);
    ed25519_dalek::Keypair { public, secret }
}

/// Relies on PublicKey::to_bytes: the 32-byte compressed encoding of the
/// pair's public half. A public key only ever holds the compression of a curve
/// point (every constructor decompresses or compresses a point), so the
/// encoding decompresses.
#[verifier::external_body]
pub(crate) fn public_key_bytes(pair: &ed25519_dalek::Keypair) -> (r: [u8; 32])
    ensures
        r@ == keypair_public_encoding(*pair),
        is_curve_point(r@),
{
    pair.public.to_bytes()
}

/// Relies on PublicKey::from_bytes: accepts exactly the 32-byte encodings of
/// curve points, and keeps the encoding it was given.
#[verifier::external_body]
pub(crate) fn public_key_from_bytes(b: &[u8]) -> (r: Result<
    ed25519_dalek::PublicKey,
    ed25519_dalek::SignatureError,
>)
    ensures
        r is Ok <==> (b@.len() == 32 && is_curve_point(b@)),
        r is Ok ==> public_key_encoding(r->Ok_0) == b@,
{
    ed25519_dalek::PublicKey::from_bytes(b)
}

/// Relies on Signature::from_bytes: accepts 64 bytes whose last byte has its
/// three high bits clear, and holds them as they are.
#[verifier::external_body]
pub(crate) fn signature_from_bytes(b: &[u8]) -> (r: Result<
    ed25519_dalek::Signature,
    ed25519_dalek::SignatureError,
>)
    ensures
        r is Ok <==> is_signature_encoding(b@),
        r is Ok ==> signature_encoding(r->Ok_0) == b@,
{
    ed25519_dalek::Signature::from_bytes(b)
}

/// Relies on Signature::to_bytes: the 64 bytes of the signature.
#[verifier::external_body]
pub(crate) fn signature_to_bytes(s: ed25519_dalek::Signature) -> (r: [u8; 64])
    ensures
        r@ == signature_encoding(s),
{
    s.to_bytes()
}

/// Relies on Digest::new for Sha512: a hasher that has been fed nothing.
#[verifier::external_body]
pub(crate) fn new_hasher() -> (r: ed25519_dalek::Sha512)
    ensures
        hashed_input(r) == Seq::<u8>::empty(),
{
    ed25519_dalek::Sha512::new()
}

/// Relies on Digest::update for Sha512: appends `data` to what the hasher has
/// been fed.
#[verifier::external_body]
pub(crate) fn hasher_update(h: &mut ed25519_dalek::Sha512, data: &[u8])
    ensures
        hashed_input(*final(h)) == hashed_input(*old(h)) + data@,
{
    h.update(data)
}

/// Relies on Keypair::sign_prehashed: signs the digest of what the hasher was
/// fed (Ed25519ph, no context). With no context it cannot fail; the signature
/// passes the encoding check that `Signature::from_bytes` applies, and, where
/// the public half is the one derived from the secret half, verifies under it.
#[verifier::external_body]
pub(crate) fn sign_prehashed(pair: &ed25519_dalek::Keypair, h: ed25519_dalek::Sha512) -> (r: Result<
    ed25519_dalek::Signature,
    ed25519_dalek::SignatureError,
>)
    ensures
        r is Ok,
        r is Ok ==> is_signature_encoding(signature_encoding(r->Ok_0)),
        r is Ok && keypair_public_encoding(*pair) == public_key_of_secret(
            keypair_secret_encoding(*pair),
        ) ==> ed25519ph_accepts(
            keypair_public_encoding(*pair),
            hashed_input(h),
            signature_encoding(r->Ok_0),
        ),
{
    pair.sign_prehashed(h, None)
}

/// Relies on PublicKey::verify_prehashed: checks a signature on the digest of
/// what the hasher was fed (Ed25519ph, no context); the outcome depends on the
/// key's encoding, the bytes hashed and the signature's bytes alone.
#[verifier::external_body]
pub(crate) fn verify_prehashed(
    key: &ed25519_dalek::PublicKey,
    h: ed25519_dalek::Sha512,
    sig: &ed25519_dalek::Signature,
) -> (r: Result<(), ed25519_dalek::SignatureError>)
    ensures
        r is Ok <==> ed25519ph_accepts(
            public_key_encoding(*key),
            hashed_input(h),
            signature_encoding(*sig),
        ),
{
    key.verify_prehashed(h, None, sig)
}

} // verus!
