use aes_gcm::aead::generic_array::GenericArray;
use aes_gcm::aead::Aead;
use aes_gcm::{Aes256Gcm, Key, KeyInit};
use base64::engine::general_purpose::URL_SAFE_NO_PAD;
use base64::Engine;
use secretlink::disclosure::{decode_key, decode_stored, open_secret, seal_secret, Secret};
use secretlink::error::SecretError;
use secretlink::state::{classify, consume_gate, expired_at, expiry_from_input, SecretState};
use secretlink::store::SecretController;
use secretlink::views::{consume_page, generate, goto_page, parse_id, result_page};

const KEY: [u8; 32] = [7; 32];
const NONCE: [u8; 12] = [3; 12];

fn key_text(bytes: &[u8]) -> String {
    URL_SAFE_NO_PAD.encode(bytes)
}

fn stored(store: &mut SecretController, text: &str, expiry: Option<u64>, now: u64) -> u128 {
    let sealed = seal_secret(&KEY, &NONCE, text).unwrap();
    store.add(&sealed.ciphertext, &sealed.iv, expiry, now).unwrap()
}

#[test]
fn test_add() {
    let mut sc = SecretController::new();
    assert_eq!(sc.len(), 0);
    sc.add("123", "123", None, 1000).unwrap();
    assert_eq!(sc.len(), 1);
}

#[test]
fn test_consume() {
    let mut sc = SecretController::new();
    let u = sc.add("123", "123", Some(1200), 1000).unwrap();
    assert!(sc.check_state(u, 1000) != SecretState::Consumed);
    sc.consume_secret(u);
    assert_eq!(sc.check_state(u, 1000), SecretState::Consumed);
}

#[test]
fn test_check_state() {
    let mut sc = SecretController::new();
    let u = sc.add("123", "123", Some(1), 1000).unwrap();
    let r = sc.check_state(u, 1000);
    assert!(matches!(r, SecretState::Secret(_)));
    let r = sc.check_state(u, 1005);
    assert!(matches!(r, SecretState::Expired));
}

#[test]
fn unknown_id_is_invalid_and_not_found() {
    let mut sc = SecretController::new();
    stored(&mut sc, "x", None, 0);
    assert_eq!(sc.check_state(42, 10), SecretState::Invalid);
    assert_eq!(sc.consume(42, &key_text(&KEY), 10), Err(SecretError::NotFound));
    assert_eq!(sc.len(), 1);
}

#[test]
fn no_expiry_stays_alive() {
    let mut sc = SecretController::new();
    let id = stored(&mut sc, "x", None, 100);
    assert_eq!(sc.check_state(id, 100), SecretState::Secret(id));
    assert_eq!(sc.check_state(id, u64::MAX), SecretState::Secret(id));
}

#[test]
fn expiry_boundary() {
    let mut sc = SecretController::new();
    let id = stored(&mut sc, "x", Some(60), 1000);
    assert_eq!(sc.check_state(id, 1059), SecretState::Secret(id));
    assert_eq!(sc.check_state(id, 1060), SecretState::Secret(id));
    assert_eq!(sc.check_state(id, 1061), SecretState::Expired);
    assert_eq!(sc.check_state(id, 999), SecretState::Secret(id));
}

#[test]
fn consumed_takes_precedence_over_expired() {
    assert_eq!(classify(9, true, 0, Some(1), 100), SecretState::Consumed);
    assert_eq!(classify(9, false, 0, Some(1), 100), SecretState::Expired);
    assert_eq!(classify(9, false, 0, None, 100), SecretState::Secret(9));
    assert!(!expired_at(u64::MAX, Some(u64::MAX), 5));
    assert!(expired_at(0, Some(u64::MAX - 1), u64::MAX));
}

#[test]
fn round_trip_discloses_once() {
    let mut sc = SecretController::new();
    let id = stored(&mut sc, "hello, wörld", Some(3600), 1000);
    let key = key_text(&KEY);
    assert_eq!(sc.consume(id, &key, 1001), Ok("hello, wörld".to_string()));
    assert_eq!(sc.check_state(id, 1002), SecretState::Consumed);
    assert_eq!(sc.consume(id, &key, 1002), Err(SecretError::NotFound));
    assert_eq!(sc.check_state(id, 100000), SecretState::Consumed);
    assert_eq!(sc.consume(id, &key, 100000), Err(SecretError::NotFound));
}

#[test]
fn wrong_key_keeps_secret() {
    let mut sc = SecretController::new();
    let id = stored(&mut sc, "s3cret", None, 0);
    let wrong = key_text(&[8u8; 32]);
    assert_eq!(sc.consume(id, &wrong, 5), Err(SecretError::DecryptionFailed));
    assert_eq!(sc.check_state(id, 5), SecretState::Secret(id));
    assert_eq!(sc.consume(id, &key_text(&KEY), 6), Ok("s3cret".to_string()));
}

#[test]
fn key_of_wrong_length_is_invalid() {
    let mut sc = SecretController::new();
    let id = stored(&mut sc, "s", None, 0);
    assert_eq!(sc.consume(id, &key_text(&[7u8; 31]), 1), Err(SecretError::InvalidKey));
    assert_eq!(sc.consume(id, &key_text(&[7u8; 33]), 1), Err(SecretError::InvalidKey));
    assert_eq!(sc.consume(id, "not base64!", 1), Err(SecretError::InvalidKey));
    assert_eq!(sc.consume(999, &key_text(&[7u8; 31]), 1), Err(SecretError::InvalidKey));
    assert_eq!(sc.check_state(id, 1), SecretState::Secret(id));
    assert!(decode_key(&key_text(&KEY)).is_ok());
    assert_eq!(decode_key(&key_text(&KEY)).unwrap(), KEY.to_vec());
}

#[test]
fn expired_secret_is_refused() {
    let mut sc = SecretController::new();
    let id = stored(&mut sc, "late", Some(10), 0);
    assert_eq!(sc.consume(id, &key_text(&KEY), 11), Err(SecretError::Expired));
    assert_eq!(sc.check_state(id, 11), SecretState::Expired);
    assert_eq!(sc.consume(id, &key_text(&KEY), 10), Ok("late".to_string()));
}

#[test]
fn repeated_attempts_disclose_once() {
    let mut sc = SecretController::new();
    let id = stored(&mut sc, "one", None, 0);
    let key = key_text(&KEY);
    let mut successes = 0;
    let mut not_found = 0;
    for t in 0..8u64 {
        match sc.consume(id, &key, t) {
            Ok(text) => {
                assert_eq!(text, "one");
                successes += 1;
            }
            Err(SecretError::NotFound) => not_found += 1,
            Err(e) => panic!("unexpected {:?}", e),
        }
    }
    assert_eq!(successes, 1);
    assert_eq!(not_found, 7);
}

#[test]
fn corrupt_records_are_reported() {
    let mut sc = SecretController::new();
    let short_iv = URL_SAFE_NO_PAD.encode([1u8; 11]);
    let ct = URL_SAFE_NO_PAD.encode([1u8; 40]);
    let a = sc.add(&ct, &short_iv, None, 0).unwrap();
    assert_eq!(sc.consume(a, &key_text(&KEY), 1), Err(SecretError::CorruptRecord));
    let iv = URL_SAFE_NO_PAD.encode(NONCE);
    let b = sc.add("", &iv, None, 0).unwrap();
    assert_eq!(sc.consume(b, &key_text(&KEY), 1), Err(SecretError::CorruptRecord));
    let c = sc.add("***", &iv, None, 0).unwrap();
    assert_eq!(sc.consume(c, &key_text(&KEY), 1), Err(SecretError::CorruptRecord));
    assert_eq!(sc.check_state(a, 1), SecretState::Secret(a));
    assert_eq!(decode_stored(&ct, &short_iv), Err(SecretError::CorruptRecord));
    let (n, c) = decode_stored(&ct, &iv).unwrap();
    assert_eq!(n, NONCE.to_vec());
    assert_eq!(c, vec![1u8; 40]);
}

#[test]
fn open_secret_outcomes() {
    let sealed = seal_secret(&KEY, &NONCE, "abc").unwrap();
    let found = Some(Secret { secret: Some(sealed.ciphertext.clone()), iv: Some(sealed.iv.clone()) });
    assert_eq!(open_secret(&KEY, &found), Ok("abc".to_string()));
    assert_eq!(open_secret(&KEY, &None), Err(SecretError::NotFound));
    assert_eq!(open_secret(&[1u8; 32], &found), Err(SecretError::DecryptionFailed));
    let missing = Some(Secret { secret: None, iv: Some(sealed.iv.clone()) });
    assert_eq!(open_secret(&KEY, &missing), Err(SecretError::CorruptRecord));
}

#[test]
fn invalid_utf8_is_substituted() {
    let cipher = Aes256Gcm::new(Key::<Aes256Gcm>::from_slice(&KEY));
    let ct = cipher.encrypt(GenericArray::from_slice(&NONCE), &[0xffu8, b'a'][..]).unwrap();
    let mut sc = SecretController::new();
    let id = sc.add(&URL_SAFE_NO_PAD.encode(ct), &URL_SAFE_NO_PAD.encode(NONCE), None, 0).unwrap();
    assert_eq!(sc.consume(id, &key_text(&KEY), 1), Ok("\u{FFFD}a".to_string()));
}

#[test]
fn seal_secret_checks_lengths() {
    assert!(matches!(seal_secret(&[1u8; 31], &NONCE, "t"), Err(SecretError::InvalidKey)));
    assert!(matches!(seal_secret(&KEY, &[1u8; 11], "t"), Err(SecretError::EncryptionFailed)));
    let s = seal_secret(&KEY, &NONCE, "t").unwrap();
    assert_eq!(s.key, key_text(&KEY));
    assert_eq!(s.iv, URL_SAFE_NO_PAD.encode(NONCE));
    assert_ne!(s.ciphertext, "t");
    assert_eq!(URL_SAFE_NO_PAD.decode(&s.ciphertext).unwrap().len(), 17);
}

#[test]
fn insert_record_detects_collision() {
    let mut sc = SecretController::new();
    assert_eq!(sc.insert_record(5, "a", "b", None, 0), Ok(5));
    assert_eq!(sc.insert_record(5, "c", "d", None, 0), Err(SecretError::StorageError));
    assert_eq!(sc.len(), 1);
}

#[test]
fn expiry_input_zero_means_none() {
    assert_eq!(expiry_from_input(0), None);
    assert_eq!(expiry_from_input(30), Some(30));
}

#[test]
fn pages() {
    let id: u128 = 0x0123456789abcdef0123456789abcdef;
    let page = result_page(id);
    assert_eq!(page.url, "goto/01234567-89ab-cdef-0123-456789abcdef");
    assert_eq!(parse_id("01234567-89ab-cdef-0123-456789abcdef"), Some(id));
    assert_eq!(parse_id("nope"), None);

    let mut sc = SecretController::new();
    let page = generate(&mut sc, "ct", "iv", 0, 50).unwrap();
    let gid = parse_id(&page.url[5..]).unwrap();
    assert_eq!(sc.check_state(gid, u64::MAX), SecretState::Secret(gid));
    let page = generate(&mut sc, "ct", "iv", 10, 50).unwrap();
    let eid = parse_id(&page.url[5..]).unwrap();
    assert_eq!(sc.check_state(eid, 61), SecretState::Expired);

    let g = goto_page(&sc, gid, "bad".to_string(), 60);
    assert_eq!(g.state, SecretState::Invalid);
    assert_eq!(g.key, "bad");
    let g = goto_page(&sc, gid, key_text(&KEY), 60);
    assert_eq!(g.state, SecretState::Secret(gid));

    let id = stored(&mut sc, "shown", None, 0);
    let c = consume_page(&mut sc, id, &key_text(&KEY), 1).unwrap();
    assert_eq!(c.secret, "shown");
    assert!(consume_page(&mut sc, id, &key_text(&KEY), 1).is_err());
}

#[test]
fn fetch_returns_stored_fields() {
    let mut sc = SecretController::new();
    let id = sc.add("", "", None, 0).unwrap();
    let s = sc.get_secret_for_update(id).unwrap();
    assert_eq!(s.secret, Some(String::new()));
    assert_eq!(s.iv, Some(String::new()));
    let other = sc.add("ct", "iv", Some(5), 0).unwrap();
    let s = sc.get_secret_for_update(other).unwrap();
    assert_eq!(s.secret, Some("ct".to_string()));
    assert_eq!(s.iv, Some("iv".to_string()));
    sc.consume_secret(other);
    assert!(sc.get_secret_for_update(other).is_none());
    assert!(sc.get_secret_for_update(12345).is_none());
}

#[test]
fn gate_refuses_only_expired() {
    assert_eq!(consume_gate(SecretState::Expired), Err(SecretError::Expired));
    assert_eq!(consume_gate(SecretState::Consumed), Ok(()));
    assert_eq!(consume_gate(SecretState::Invalid), Ok(()));
    assert_eq!(consume_gate(SecretState::Secret(1)), Ok(()));
}
