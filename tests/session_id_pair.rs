use verse_session_id::{
    new_session_id_pair, session_id_pair_from_secret, sign_with_salt, ISessionIdPair,
    SessionId, SessionIdError, SessionIdPublic, SignatureSet, SIGNATURE_SIZE,
};

#[test]
fn test_keypair() {
    let kp = new_session_id_pair();
    assert!(kp.is_ok());
}

#[test]
fn test_sign_verify() {
    let kp = new_session_id_pair().unwrap();
    let ss = kp
        .sign(vec!["1234".as_bytes(), "testdata".as_bytes()])
        .unwrap();

    let session_id = kp.get_id();
    let res = session_id.verify(vec!["1234".as_bytes(), "testdata".as_bytes()], &ss);
    assert!(res.is_ok());

    let res = session_id.verify(vec!["0234".as_bytes(), "testdata".as_bytes()], &ss);
    assert!(res.is_err());

    let kp = new_session_id_pair().unwrap();
    let session_id = kp.get_id();
    let res = session_id.verify(vec!["1234".as_bytes(), "testdata".as_bytes()], &ss);
    assert!(res.is_err());

    let ss1 = SignatureSet {
        signature: ss.signature.clone(),
        salt: Default::default(),
    };
    let res = session_id.verify(vec!["1234".as_bytes(), "testdata".as_bytes()], &ss1);
    assert!(res.is_err());

    let ss1 = SignatureSet {
        signature: [0; SIGNATURE_SIZE],
        salt: ss.salt.clone(),
    };
    let res = session_id.verify(vec!["1234".as_bytes(), "testdata".as_bytes()], &ss1);
    assert!(res.is_err());
}

fn payload() -> Vec<&'static [u8]> {
    vec!["1234".as_bytes(), "testdata".as_bytes()]
}

#[test]
fn tampering_is_detected() {
    let kp = new_session_id_pair().unwrap();
    let id = kp.get_id();
    let ss = kp.sign(payload()).unwrap();
    assert_eq!(id.verify(payload(), &ss), Ok(()));
    // segment order
    assert_eq!(
        id.verify(vec!["testdata".as_bytes(), "1234".as_bytes()], &ss),
        Err(SessionIdError::Signature)
    );
    // zeroed salt and zeroed signature, with the signer's own identity
    let zero_salt = SignatureSet { signature: ss.signature, salt: [0; 8] };
    if ss.salt != [0; 8] {
        assert_eq!(id.verify(payload(), &zero_salt), Err(SessionIdError::Signature));
    }
    let zero_sig = SignatureSet { signature: [0; SIGNATURE_SIZE], salt: ss.salt };
    assert_eq!(id.verify(payload(), &zero_sig), Err(SessionIdError::Signature));
    // one bit of the identity
    let mut raw = id.to_vec();
    raw[0] ^= 1;
    let other = SessionId::try_from(raw).unwrap();
    assert!(other.verify(payload(), &ss).is_err());
    // a signature whose last byte fails the encoding check
    let mut bad = ss;
    bad.signature[63] |= 0xe0;
    assert_eq!(id.verify(payload(), &bad), Err(SessionIdError::Signature));
}

#[test]
fn signing_twice_gives_fresh_salts() {
    let kp = new_session_id_pair().unwrap();
    let id = kp.get_id();
    let a = kp.sign(payload()).unwrap();
    let b = kp.sign(payload()).unwrap();
    assert_ne!(a.salt, b.salt);
    assert_ne!(a, b);
    assert!(id.verify(payload(), &a).is_ok());
    assert!(id.verify(payload(), &b).is_ok());
}

fn rfc8032_secret() -> Vec<u8> {
    let hex = "9d61b19deffd5a60ba844af492ec2cc44449c5697b326919703bac031cae7f60";
    (0..32).map(|i| u8::from_str_radix(&hex[2 * i..2 * i + 2], 16).unwrap()).collect()
}

#[test]
fn pair_from_known_secret_has_known_identity() {
    let kp = session_id_pair_from_secret(&rfc8032_secret()).unwrap();
    let hex = "d75a980182b10ab7d54bfed3c964073a0ee172f3daa62325af021a68f707511a";
    let public: Vec<u8> =
        (0..32).map(|i| u8::from_str_radix(&hex[2 * i..2 * i + 2], 16).unwrap()).collect();
    assert_eq!(kp.get_id().to_vec(), public);
    assert!(matches!(session_id_pair_from_secret(&[1u8; 31]), Err(SessionIdError::Signature)));
    assert!(matches!(session_id_pair_from_secret(&[1u8; 33]), Err(SessionIdError::Signature)));
}

#[test]
fn signing_with_a_given_salt_keeps_it() {
    let kp = session_id_pair_from_secret(&rfc8032_secret()).unwrap();
    let salt = [1, 2, 3, 4, 5, 6, 7, 8];
    let a = sign_with_salt(&kp, salt, &payload()).unwrap();
    let b = sign_with_salt(&kp, salt, &payload()).unwrap();
    assert_eq!(a.salt, salt);
    assert_eq!(a, b);
    assert!(kp.get_id().verify(payload(), &a).is_ok());
    let c = sign_with_salt(&kp, [0; 8], &payload()).unwrap();
    assert_ne!(a.signature, c.signature);
    assert!(kp.get_id().verify(payload(), &c).is_ok());
}

#[test]
fn invalid_key_bytes_fail_verification() {
    let ss = SignatureSet { signature: [0; SIGNATURE_SIZE], salt: [0; 8] };
    // y = 2 is not the y-coordinate of a curve point
    let mut raw = [0u8; 32];
    raw[0] = 2;
    assert_eq!(SessionId::from(raw).verify(payload(), &ss), Err(SessionIdError::Signature));
}
