use zalo_core::context::MiniAppContext;
use zalo_core::error::{AppErrorKind, SdkError};

#[test]
fn rejects_empty_app_identifier() {
    let error = MiniAppContext::new("", "oa").expect_err("empty app id");

    assert!(matches!(error, SdkError::InvalidAppId(_)));
}

#[test]
fn rejects_blank_oa_identifier() {
    let error = MiniAppContext::new("app", "   ").expect_err("blank oa id");

    assert!(matches!(error, SdkError::InvalidOaId(_)));
}

#[test]
fn produces_handshake_payload() {
    let context = MiniAppContext::new("app", "oa").expect("context");
    let payload = context.handshake_payload();

    assert_eq!(payload.app_id(), "app");
    assert_eq!(payload.oa_id(), "oa");
}

#[test]
fn context_keeps_identifiers() {
    let context = MiniAppContext::new("app", "oa").expect("context");

    assert_eq!(context.app_id(), "app");
    assert_eq!(context.oa_id(), "oa");
}

#[test]
fn sdk_error_maps_to_validation_kind() {
    let app_error = SdkError::InvalidAppId("".to_owned()).to_app_error();

    assert!(matches!(app_error.kind, AppErrorKind::Validation));
}

#[test]
fn sdk_error_message_names_the_identifier() {
    let app_error = SdkError::InvalidOaId("x y".to_owned()).to_app_error();

    assert_eq!(app_error.message, "invalid oa identifier: x y");
}
