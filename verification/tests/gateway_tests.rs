//! Error taxonomy, streaming emulation and gateway decisions.

use clad::error::AppError;
use clad::gateway::{check_backend_status, classify_send_outcome, create_provider, health_body,
    models_response, rate_limit_params_usable, cors_origins_usable, cert_permissions_too_open,
    SelectedProvider, SendOutcome};
use clad::json::JsonValue;
use clad::provider::Provider;
use clad::streaming::{create_streaming_chunks, split_words};

#[test]
fn test_app_error_display() {
    let err = AppError::BackendError("test error".to_string());
    assert_eq!(err.display_message(), "Backend service unavailable");

    let err = AppError::TransformError("transform issue".to_string());
    assert_eq!(err.display_message(), "Failed to transform request/response");

    let err = AppError::TimeoutError;
    assert_eq!(err.display_message(), "Request timeout");

    let err = AppError::InternalError("internal issue".to_string());
    assert_eq!(err.display_message(), "Internal server error");
}

#[test]
fn test_app_error_into_response_backend_error() {
    let err = AppError::BackendError("connection failed".to_string());

    assert_eq!(err.status_code(), 502);
}

#[test]
fn test_app_error_into_response_transform_error() {
    let err = AppError::TransformError("bad format".to_string());

    assert_eq!(err.status_code(), 500);
}

#[test]
fn test_app_error_into_response_timeout_error() {
    let err = AppError::TimeoutError;

    assert_eq!(err.status_code(), 504);
}

#[test]
fn test_app_error_into_response_internal_error() {
    let err = AppError::InternalError("panic".to_string());

    assert_eq!(err.status_code(), 500);
}

#[test]
fn test_app_error_body_is_sanitized() {
    let err = AppError::BackendError("secret backend detail".to_string());
    let body = err.response_body().render();

    assert!(!body.contains("secret backend detail"));
    assert!(body.contains("Backend service unavailable"));
    assert!(body.contains("backend_error"));
}

#[test]
fn test_create_streaming_chunks_empty_text() {
    let chunks = create_streaming_chunks("", "test-model");

    assert!(!chunks.is_empty(), "Should have first chunk");
}

#[test]
fn test_create_streaming_chunks_single_word() {
    let chunks = create_streaming_chunks("Hello", "test-model");

    assert_eq!(chunks.len(), 2);
}

#[test]
fn test_create_streaming_chunks_multiple_words() {
    let chunks = create_streaming_chunks("Hello world test", "test-model");

    assert_eq!(chunks.len(), 4);
}

#[test]
fn test_streaming_chunks_share_identity_and_order() {
    let chunks = create_streaming_chunks("alpha beta gamma", "test-model");

    assert_eq!(chunks.len(), 4);
    let id = chunks[0].id.clone();
    assert!(id.starts_with("chatcmpl-"));
    for chunk in &chunks {
        assert_eq!(chunk.id, id);
        assert_eq!(chunk.created, chunks[0].created);
        assert_eq!(chunk.object, "chat.completion.chunk");
        assert_eq!(chunk.model, "test-model");
        assert_eq!(chunk.choices.len(), 1);
        assert_eq!(chunk.choices[0].index, 0);
    }
    assert_eq!(chunks[0].choices[0].delta.role, Some("assistant".to_string()));
    assert_eq!(chunks[0].choices[0].delta.content, None);
    assert_eq!(chunks[1].choices[0].delta.content, Some("beta ".to_string()));
    assert_eq!(chunks[2].choices[0].delta.content, Some("gamma ".to_string()));
    assert_eq!(chunks[3].choices[0].delta.content, None);
    assert_eq!(chunks[3].choices[0].finish_reason, Some("stop".to_string()));
}

#[test]
fn test_split_words_handles_whitespace_runs() {
    assert_eq!(split_words("alpha  beta\t gamma\n"), vec!["alpha", "beta", "gamma"]);
    assert_eq!(split_words("   "), Vec::<String>::new());
    assert_eq!(split_words("one"), vec!["one"]);
}

#[test]
fn test_models_handler_returns_valid_response() {
    let response = models_response();

    assert_eq!(response.object, "list");
    assert!(!response.data.is_empty());
    assert_eq!(response.data[0].id, "default-model");
}

#[test]
fn test_health_body_reports_healthy() {
    let body = health_body(1234567890);
    assert_eq!(
        body.get("status").and_then(|v| v.as_str()).unwrap(),
        "healthy"
    );
    assert_eq!(
        body.get("service").and_then(|v| v.as_str()).unwrap(),
        "clad-proxy"
    );
    assert_eq!(body.get("timestamp").and_then(|v| v.as_u64()), Some(1234567890));
}

#[test]
fn test_create_provider_selects_by_name() {
    assert!(matches!(
        create_provider("rhel_lightspeed"),
        Ok(SelectedProvider::RhelLightspeed(_))
    ));
    assert!(matches!(
        create_provider("lightspeed_core"),
        Ok(SelectedProvider::LightspeedCore(_))
    ));
    let err = create_provider("nope").unwrap_err();
    assert_eq!(
        err,
        "Unknown provider: nope. Valid options are: rhel_lightspeed, lightspeed_core"
    );
}

#[test]
fn test_check_backend_status_boundaries() {
    assert!(check_backend_status(200).is_ok());
    assert!(check_backend_status(299).is_ok());
    let err = check_backend_status(404).unwrap_err();
    match err {
        AppError::BackendError(detail) => {
            assert_eq!(detail, "Backend returned status 404");
        }
        other => panic!("unexpected error: {:?}", other),
    }
    assert!(check_backend_status(199).is_err());
    assert!(check_backend_status(300).is_err());
}

#[test]
fn test_classify_send_outcome_timeout() {
    let result = classify_send_outcome(SendOutcome::TimedOut);
    assert!(matches!(result, Err(AppError::TimeoutError)));
}

#[test]
fn test_classify_send_outcome_failure_and_success() {
    let result = classify_send_outcome(SendOutcome::Failed("connection refused".to_string()));
    match result {
        Err(AppError::BackendError(detail)) => assert_eq!(detail, "connection refused"),
        other => panic!("unexpected outcome: {:?}", other),
    }
    assert_eq!(classify_send_outcome(SendOutcome::Responded(204)).unwrap(), 204);
    assert!(classify_send_outcome(SendOutcome::Responded(500)).is_err());
}

#[test]
fn test_startup_configuration_checks() {
    assert!(!cors_origins_usable(0));
    assert!(cors_origins_usable(2));
    assert!(!rate_limit_params_usable(0, 5));
    assert!(!rate_limit_params_usable(5, 0));
    assert!(rate_limit_params_usable(5, 10));
    assert!(cert_permissions_too_open(0o644));
    assert!(!cert_permissions_too_open(0o600));
}

#[test]
fn test_transform_error_quotes_payload() {
    let provider = clad::provider::rhel_lightspeed::RhelLightspeedProvider::new();
    let body = JsonValue::Object(vec![(
        "error".to_string(),
        JsonValue::Text("boom".to_string()),
    )]);
    let err = provider.transform_response(&body, "m").unwrap_err();
    match err {
        AppError::TransformError(detail) => {
            assert!(detail.contains("data.text"));
            assert!(detail.contains("{\"error\":\"boom\"}"));
        }
        other => panic!("unexpected error: {:?}", other),
    }
}
