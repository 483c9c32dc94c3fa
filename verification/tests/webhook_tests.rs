use zalo_core::error::{AppErrorKind, SignatureError};
use zalo_core::hex::{hex_decode, hex_encode};
use zalo_core::webhook::WebhookVerifier;

#[test]
fn verifies_valid_signature() {
    let verifier = WebhookVerifier::new(b"secret").expect("verifier");
    let payload = br#"{"event":"ping"}"#;
    let signature = verifier.sign_payload(payload).expect("signature");

    verifier
        .verify(payload, Some(&signature))
        .expect("signature should validate");
}

#[test]
fn rejects_missing_signature() {
    let verifier = WebhookVerifier::new(b"secret").expect("verifier");
    let error = verifier.verify(b"payload", None).expect_err("missing");
    let app_error = error.to_app_error();

    assert!(matches!(app_error.kind, AppErrorKind::Unauthorized));
    assert!(matches!(error, SignatureError::Missing));
}

#[test]
fn rejects_invalid_signature() {
    let verifier = WebhookVerifier::new(b"secret").expect("verifier");
    let error = verifier
        .verify(b"payload", Some("deadbeef"))
        .expect_err("invalid signature");

    assert!(matches!(error, SignatureError::VerificationFailed));
}

#[test]
fn rejects_signature_made_with_other_secret() {
    let signer = WebhookVerifier::new(b"first secret").expect("verifier");
    let verifier = WebhookVerifier::new(b"second secret").expect("verifier");
    let payload = b"payload";
    let signature = signer.sign_payload(payload).expect("signature");

    let error = verifier
        .verify(payload, Some(&signature))
        .expect_err("wrong secret must fail");
    assert!(matches!(error, SignatureError::VerificationFailed));
}

#[test]
fn undecodable_signature_fails_like_a_wrong_one() {
    let verifier = WebhookVerifier::new(b"secret").expect("verifier");
    let payload = b"payload";

    let bad_encoding = verifier
        .verify(payload, Some("not-hex!!"))
        .expect_err("bad encoding must fail");
    let wrong_tag = verifier
        .verify(payload, Some("deadbeef"))
        .expect_err("wrong tag must fail");

    assert_eq!(bad_encoding, wrong_tag);
    assert!(matches!(bad_encoding, SignatureError::VerificationFailed));
}

#[test]
fn empty_secret_fails_at_construction() {
    let error = WebhookVerifier::new(b"").expect_err("empty secret must fail");

    assert!(matches!(error, SignatureError::InvalidSecretLength));
    assert!(matches!(error.to_app_error().kind, AppErrorKind::Config));
}

#[test]
fn signature_has_publicly_known_test_vector() {
    // HMAC-SHA256 test vector: 20 bytes of 0x0b as the key, "Hi There" as
    // the payload.
    let key = [0x0bu8; 20];
    let verifier = WebhookVerifier::new(&key).expect("verifier");
    let signature = verifier.sign_payload(b"Hi There").expect("signature");

    assert_eq!(
        signature,
        "b0344c61d8db38535ca8afceaf0bf12b881dc200c9833da726e9376c2e32cff7"
    );
}

#[test]
fn hex_encoding_is_lowercase_two_digits_per_byte() {
    assert_eq!(hex_encode(&[]), "");
    assert_eq!(hex_encode(&[0x00, 0xff, 0x1a]), "00ff1a");
}

#[test]
fn hex_decoding_accepts_both_cases_and_rejects_garbage() {
    assert_eq!(hex_decode("DEADbeef"), Some(vec![0xde, 0xad, 0xbe, 0xef]));
    assert_eq!(hex_decode(""), Some(vec![]));
    assert_eq!(hex_decode("abc"), None);
    assert_eq!(hex_decode("zz"), None);
}

#[test]
fn hex_round_trips_through_decode() {
    let bytes = vec![0u8, 1, 2, 250, 255, 16, 32];
    let encoded = hex_encode(&bytes);
    assert_eq!(hex_decode(&encoded), Some(bytes));
}
