use base64::Engine;
use hmac::{KeyInit, Mac};
use kosmos::http::{SubmitOutcome, SubmitRequest, submit_mt};
use kosmos::models::{ProcessingStatus, Target};

fn sign(key: &[u8], body: &[u8]) -> Vec<u8> {
    let mut mac = <hmac::Hmac<sha2::Sha256> as KeyInit>::new_from_slice(key).unwrap();
    mac.update(body);
    mac.finalize().into_bytes().to_vec()
}

fn target() -> Target {
    Target {
        id: 0x1234_5678_9ABC_DEF0_u128,
        hmac_key: b"0123456789abcdef".to_vec(),
        endpoint: "https://tenant.example/webhook".to_string(),
    }
}

fn request(priority: Option<u8>) -> SubmitRequest {
    SubmitRequest {
        imei: b"012345678901234".to_vec(),
        payload: "aGk=".to_string(),
        priority,
    }
}

const BODY: &[u8] = br#"{"imei":"012345678901234","payload":"aGk=","priority":3}"#;

#[test]
fn accepted_submission_stores_row() {
    let t = target();
    let body = BODY.to_vec();
    let sig = sign(&t.hmac_key, &body);
    let q = request(Some(3));
    match submit_mt(&t, &sig, &body, Some(&q), 1_700_000_000) {
        SubmitOutcome::Accepted(row) => {
            assert_eq!(row.imei, b"012345678901234".to_vec());
            assert_eq!(row.data, b"hi".to_vec());
            assert_eq!(row.priority, 3);
            assert_eq!(row.message_status, None);
            assert_eq!(row.processing_status, ProcessingStatus::Received);
            assert_eq!(row.received, 1_700_000_000);
            assert_eq!(row.target, t.id);
        }
        SubmitOutcome::Unauthorized => panic!("unexpected 401"),
        SubmitOutcome::BadRequest => panic!("unexpected 400"),
    }
}

#[test]
fn priority_out_of_range_rejected() {
    let t = target();
    let body = br#"{"imei":"012345678901234","payload":"aGk=","priority":7}"#.to_vec();
    let sig = sign(&t.hmac_key, &body);
    let q = request(Some(7));
    assert!(matches!(
        submit_mt(&t, &sig, &body, Some(&q), 0),
        SubmitOutcome::BadRequest
    ));
}

#[test]
fn absent_priority_stored_as_zero() {
    let t = target();
    let body = br#"{"imei":"012345678901234","payload":"aGk="}"#.to_vec();
    let sig = sign(&t.hmac_key, &body);
    let q = request(None);
    match submit_mt(&t, &sig, &body, Some(&q), 0) {
        SubmitOutcome::Accepted(row) => assert_eq!(row.priority, 0),
        _ => panic!("expected acceptance"),
    }
}

#[test]
fn flipped_mac_bit_rejected() {
    let t = target();
    let body = BODY.to_vec();
    let mut sig = sign(&t.hmac_key, &body);
    sig[0] ^= 0x01;
    assert!(matches!(
        submit_mt(&t, &sig, &body, Some(&request(Some(3))), 0),
        SubmitOutcome::Unauthorized
    ));
    // a flip anywhere else is rejected just the same
    let mut sig = sign(&t.hmac_key, &body);
    sig[31] ^= 0x80;
    assert!(matches!(
        submit_mt(&t, &sig, &body, Some(&request(Some(3))), 0),
        SubmitOutcome::Unauthorized
    ));
}

#[test]
fn invalid_json_rejected() {
    let t = target();
    let body = b"{not json".to_vec();
    let sig = sign(&t.hmac_key, &body);
    assert!(matches!(
        submit_mt(&t, &sig, &body, None, 0),
        SubmitOutcome::BadRequest
    ));
}

#[test]
fn wrong_imei_length_rejected() {
    let t = target();
    let body = BODY.to_vec();
    let sig = sign(&t.hmac_key, &body);
    let q = SubmitRequest {
        imei: b"01234567890123".to_vec(),
        payload: "aGk=".to_string(),
        priority: None,
    };
    assert!(matches!(
        submit_mt(&t, &sig, &body, Some(&q), 0),
        SubmitOutcome::Unauthorized
    ));
}

#[test]
fn non_digit_imei_rejected() {
    let t = target();
    let body = BODY.to_vec();
    let sig = sign(&t.hmac_key, &body);
    let q = SubmitRequest {
        imei: b"01234567890123X".to_vec(),
        payload: "aGk=".to_string(),
        priority: None,
    };
    assert!(matches!(
        submit_mt(&t, &sig, &body, Some(&q), 0),
        SubmitOutcome::BadRequest
    ));
}

#[test]
fn invalid_base64_payload_rejected() {
    let t = target();
    let body = BODY.to_vec();
    let sig = sign(&t.hmac_key, &body);
    let q = SubmitRequest {
        imei: b"012345678901234".to_vec(),
        payload: "not base64!".to_string(),
        priority: None,
    };
    assert!(matches!(
        submit_mt(&t, &sig, &body, Some(&q), 0),
        SubmitOutcome::BadRequest
    ));
}

#[test]
fn webhook_mac_header_value() {
    let key = b"0123456789abcdef".to_vec();
    let body = b"{\"type\":\"mo_message\"}".to_vec();
    let tag = sign(&key, &body);
    let expected = base64::engine::general_purpose::STANDARD.encode(&tag);
    assert_eq!(kosmos::crypto::webhook_mac(&key, &body), expected);
}
