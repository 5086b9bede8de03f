use std::cmp::Ordering;
use std::str::FromStr;

use verse_session_id::{
    compare_session_ids, eq_slice, SessionId, SessionIdCompatible, SessionIdError,
    SESSION_ID_SIZE,
};

#[test]
fn test_session_id() {
    let sid0 = SessionId::from([1; SESSION_ID_SIZE]);
    let sid1 = SessionId::from([2; SESSION_ID_SIZE]);
    assert_eq!(sid0, SessionId::from([1; SESSION_ID_SIZE]));
    assert_ne!(sid0, sid1);
    assert_eq!(sid0, sid0.clone());
    assert!(sid0 < sid1);
    assert!(sid0 != sid1);
    assert!(sid0.cmp(&sid1).is_ne());
    let sid00 = sid0;
    assert!(sid00 == sid0);

    let mut exists = std::collections::HashSet::<SessionId>::new();
    assert!(!exists.contains(&sid0));
    exists.insert(sid0.clone());
    assert!(exists.contains(&sid0));
    assert!(!exists.contains(&sid1));

    assert!(sid0.cmp_slice(sid1.as_ref()).is_ne());
    assert!(!sid0.eq_slice(&sid1.to_vec()));

    assert!(sid0.cmp_slice(sid0.as_ref()).is_eq());
    assert!(sid0.eq_slice(&sid0.to_vec()));

    assert!(sid0.cmp_slice(&[]).is_ne());

    assert_ne!(sid0.to_debug_string(), sid1.to_debug_string());
    assert_eq!(sid0.to_debug_string(), "AQEBAQE");

    let str = sid0.to_string();
    assert_eq!(SessionId::from_str(&str).unwrap(), sid0);

    let str = sid0.to_debug_string();
    assert!(SessionId::from_str(&str).is_err());

    let sid00 = SessionId::try_from(sid0.to_vec());
    assert!(sid00.is_ok());
    assert_eq!(sid00.unwrap(), sid0);

    let sid00 = SessionId::try_from(&sid0.to_vec());
    assert!(sid00.is_ok());
    assert_eq!(sid00.unwrap(), sid0);

    let v: Vec<u8> = sid0.into();
    assert_eq!(v, sid0.to_vec());
}

#[test]
fn test_session_id_compatible() {
    let sid0raw = [3; SESSION_ID_SIZE];
    let sid0 = SessionId::from(sid0raw.clone());
    let v0 = sid0.to_vec();
    let v1 = SessionId::from([4; SESSION_ID_SIZE]).to_vec();
    let none = None as Option<Vec<u8>>;

    assert!(Some(vec![1u8]).to_session_id().is_err());
    assert!(Some(v0.clone()).to_session_id().is_ok());
    assert!(none.to_session_id().is_err());

    assert_eq!(none.to_debug_string(), "<NOID>");

    assert_eq!((&Some(v0.clone())).to_debug_string(), sid0.to_debug_string());
    assert_eq!(
        (&Some(v0.clone())).to_debug_string(),
        (Some(v0.clone())).to_debug_string(),
    );
    assert!(!eq_slice(&Some(v0.clone()), &Some(v1.clone())));
    assert!(!eq_slice(&Some(v0.clone()), &none));
    assert!(eq_slice(&none, &none));
    assert!(!eq_slice(&none, &Some(v0.clone())));

    assert!(eq_slice(&Some(v0.clone()), &Some(&sid0)));
    assert!(eq_slice(&Some(v0.clone()), &sid0));
    let ar: &[u8] = &sid0raw[..];
    assert!(eq_slice(&Some(v0.clone()), &ar));
    assert!(eq_slice(&Some(v0.clone()), &v0));
}

#[test]
fn text_round_trip_of_raw_bytes() {
    let mut raw = [0u8; SESSION_ID_SIZE];
    for (i, b) in raw.iter_mut().enumerate() {
        *b = (i * 37 + 11) as u8;
    }
    for bytes in [raw, [0u8; SESSION_ID_SIZE], [255u8; SESSION_ID_SIZE]] {
        let id = SessionId::from(bytes);
        let text = id.to_string();
        assert_eq!(text.len(), 44);
        assert_eq!(SessionId::from_text(&text).unwrap(), id);
    }
}

#[test]
fn text_form_is_standard_base64() {
    let id = SessionId::from([0u8; SESSION_ID_SIZE]);
    assert_eq!(id.to_string(), "AAAAAAAAAAAAAAAAAAAAAAAAAAAAAAAAAAAAAAAAAAA=");
    let id = SessionId::from([1u8; SESSION_ID_SIZE]);
    assert_eq!(id.to_string(), "AQEBAQEBAQEBAQEBAQEBAQEBAQEBAQEBAQEBAQEBAQE=");
    let parsed = SessionId::from_text("AQEBAQEBAQEBAQEBAQEBAQEBAQEBAQEBAQEBAQEBAQE=").unwrap();
    assert_eq!(parsed, id);
}

#[test]
fn text_parse_rejects_bad_input() {
    assert_eq!(SessionId::from_text("not base64!"), Err(SessionIdError::Convert));
    // 31 bytes of base64
    assert_eq!(
        SessionId::from_text("AQEBAQEBAQEBAQEBAQEBAQEBAQEBAQEBAQEBAQEBAQ=="),
        Err(SessionIdError::Convert)
    );
}

#[test]
fn wrong_lengths_are_rejected() {
    assert_eq!(SessionId::try_from(vec![7u8; 31]), Err(SessionIdError::Convert));
    assert_eq!(SessionId::try_from(vec![7u8; 33]), Err(SessionIdError::Convert));
    assert_eq!(SessionId::from_slice(&[7u8; 31]), Err(SessionIdError::Convert));
    assert_eq!(SessionId::from_slice(&[7u8; 33]), Err(SessionIdError::Convert));
    assert_eq!(SessionId::from_slice(&[7u8; 32]).unwrap(), SessionId::from([7u8; 32]));
}

#[test]
fn order_is_total_and_bytewise() {
    let mut a = [5u8; SESSION_ID_SIZE];
    let mut b = [5u8; SESSION_ID_SIZE];
    a[10] = 1;
    b[10] = 200;
    b[31] = 0;
    let (a, b) = (SessionId::from(a), SessionId::from(b));
    assert!(a < b);
    assert!(b > a);
    assert!(a != b);
    assert_eq!(a.partial_cmp(&b), Some(Ordering::Less));
    assert_eq!(a.cmp(&b), Ordering::Less);
    assert_eq!(a.partial_cmp(&a), Some(Ordering::Equal));
    let mut ids = vec![b, a, b];
    ids.sort();
    assert_eq!(ids, vec![a, b, b]);
}

#[test]
fn general_comparator_orders_lengths_first() {
    assert_eq!(compare_session_ids(&[9, 9], &[1, 1, 1]), Ordering::Less);
    assert_eq!(compare_session_ids(&[1, 1, 1], &[9, 9]), Ordering::Greater);
    assert_eq!(compare_session_ids(&[1, 2, 3], &[1, 2, 4]), Ordering::Less);
    assert_eq!(compare_session_ids(&[1, 200, 3], &[1, 2, 4]), Ordering::Greater);
    assert_eq!(compare_session_ids(&[1, 2, 3], &[1, 2, 3]), Ordering::Equal);
    assert_eq!(compare_session_ids(&[], &[]), Ordering::Equal);
}

#[test]
fn compatible_layer_cases() {
    let id = SessionId::from([1u8; SESSION_ID_SIZE]);
    let none: Option<Vec<u8>> = None;
    let absent_ref: Option<&SessionId> = None;
    assert!(eq_slice(&none, &absent_ref));
    assert!(!eq_slice(&absent_ref, &id));
    assert_eq!(absent_ref.to_debug_string(), "<NOID>");
    assert_eq!(Some(&id).to_debug_string(), "AQEBAQE");
    assert_eq!(Some(&id).to_debug_string().len(), 7);
    assert_eq!(vec![1u8, 2, 3].to_debug_string(), "AQID");
    assert_eq!(absent_ref.to_session_id(), Err(SessionIdError::Required));
    assert_eq!(vec![1u8; 31].to_session_id(), Err(SessionIdError::Convert));
    assert_eq!(Some(&id).to_session_id(), Ok(id));
    let short: &[u8] = &[1u8, 1];
    assert!(!eq_slice(&short, &id));
}
