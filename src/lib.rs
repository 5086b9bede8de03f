//! Session identities for endpoints: a 32-byte ed25519 public key, a salted
//! prehashed signature protocol over caller-supplied payload segments, and the
//! fixed-layout encodings of both.
mod compatible;
mod ed25519;
mod errors;
mod session_id;
mod session_id_pair;
mod signature_set;
mod text;

pub use compatible::{
    compatible_eq, eq_slice, lemma_compatible_eq_cases, SessionIdCompatible, NO_ID_TEXT,
};
pub use ed25519::{
    ed25519ph_accepts, hashed_input, is_curve_point, is_signature_encoding,
    keypair_public_encoding, keypair_secret_encoding, public_key_encoding, public_key_of_secret,
    secret_key_encoding, signature_encoding,
};
pub use errors::SessionIdError;
pub use session_id::{
    bytes_cmp, compare_session_ids, lemma_bytes_cmp_equal, lemma_session_id_order_total,
    lemma_session_id_order_transitive, lex_cmp_from, session_id_from_text, session_id_parse,
    RawSessionId, SessionId, SESSION_ID_SIZE,
};
pub use session_id_pair::{
    accepts_signature, is_consistent_pair, lemma_signature_verifies, new_session_id_pair, payload_bytes, salted_hasher,
    session_id_pair_from_secret, sign_with_salt, signed_message, ISessionIdPair, SessionIdPair,
    SessionIdPublic,
};
pub use signature_set::{
    as_base64, field_from_text, from_base64, lemma_signature_set_ext, signature_set_from_bytes,
    signature_set_from_text, signature_set_layout, signature_set_of, SignatureSet,
    SIGNATURE_SALT_SIZE, SIGNATURE_SET_SIZE, SIGNATURE_SIZE,
};
pub use text::{
    base64_decoded, base64_of, fingerprint, fingerprint_of, is_ascii_text, prefix_of,
    FINGERPRINT_LEN,
};
