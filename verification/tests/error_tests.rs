use zalo_core::error::{AppError, AppErrorKind, ConfigError, ObservabilityError, SignatureError};
use zalo_core::observability::validate_filter;

#[test]
fn config_error_maps_to_app_error() {
    let error = ConfigError::MissingFile { path: "/tmp/missing.toml".to_owned() };
    let app_error = error.to_app_error();

    assert!(matches!(app_error.kind, AppErrorKind::Config));
    assert_eq!(app_error.message, "configuration file not found at /tmp/missing.toml");
}

#[test]
fn error_config_error_maps_to_app_error() {
    let error = ConfigError::MissingFile { path: "/tmp/missing.toml".to_owned() };

    assert!(matches!(error.to_app_error().kind, AppErrorKind::Config));
}

#[test]
fn observability_filter_maps_to_config_kind() {
    let error = validate_filter("=").expect_err("invalid filter should trigger an error");
    let app_error = error.to_app_error();

    assert!(matches!(app_error.kind, AppErrorKind::Config));
}

#[test]
fn observability_filter_maps_to_config_error() {
    let error = validate_filter("=").expect_err("invalid filter should trigger an error");

    assert!(matches!(error.to_app_error().kind, AppErrorKind::Config));
}

#[test]
fn signature_error_maps_to_unauthorized_kind() {
    let app_error = SignatureError::VerificationFailed.to_app_error();

    assert!(matches!(app_error.kind, AppErrorKind::Unauthorized));
}

#[test]
fn bot_error_from_types_preserves_kind() {
    let app_error = AppError::with_message("boom");

    assert!(matches!(app_error.kind, AppErrorKind::Internal));
}

#[test]
fn other_error_maps_to_internal_kind() {
    let app_error = AppError::with_message("boom");

    assert!(matches!(app_error.kind, AppErrorKind::Internal));
    assert_eq!(app_error.message, "boom");
}

#[test]
fn install_failure_maps_to_internal_kind() {
    let error = ObservabilityError::Install { detail: "already set".to_owned() };
    let app_error = error.to_app_error();

    assert!(matches!(app_error.kind, AppErrorKind::Internal));
    assert_eq!(app_error.message, "failed to install tracing subscriber: already set");
}

#[test]
fn rejects_invalid_filter_expression() {
    let error = validate_filter("=info").expect_err("invalid filter");

    match error {
        ObservabilityError::InvalidFilter { filter, .. } => {
            assert_eq!(filter, "=info");
        },
        other => panic!("unexpected error: {:?}", other),
    }
}

#[test]
fn observability_rejects_invalid_filter_expression() {
    let error = validate_filter("=info").expect_err("invalid filter");

    match error {
        ObservabilityError::InvalidFilter { filter, .. } => {
            assert_eq!(filter, "=info");
        },
        other => panic!("unexpected error: {other:?}"),
    }
}

#[test]
fn accepts_ordinary_filter_expressions() {
    validate_filter("info").expect("plain level is a valid filter");
    validate_filter("warn,tower=debug").expect("scoped override is a valid filter");
}

#[test]
fn signature_error_messages_are_stable() {
    assert_eq!(
        SignatureError::Missing.to_app_error().message,
        "missing webhook signature header"
    );
    assert_eq!(
        SignatureError::VerificationFailed.to_app_error().message,
        "webhook signature verification failed"
    );
    assert_eq!(
        SignatureError::InvalidSecretLength.to_app_error().message,
        "invalid secret length"
    );
}
