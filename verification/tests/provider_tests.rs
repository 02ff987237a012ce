//! The two provider variants, identifiers and timestamps.

use clad::json::JsonValue;
use clad::openai::{ChatCompletionRequest, FloatBits32, Message};
use clad::provider::{current_timestamp, uuid_simple, Provider};
use clad::provider::lightspeed_core::LightspeedCoreProvider;
use clad::provider::rhel_lightspeed::RhelLightspeedProvider;

fn plain_message(role: &str, content: &str) -> Message {
    Message {
        role: role.to_string(),
        content: content.to_string(),
        name: None,
        tool_calls: None,
    }
}

fn plain_request(model: &str, messages: Vec<Message>) -> ChatCompletionRequest {
    ChatCompletionRequest {
        model: model.to_string(),
        messages,
        temperature: None,
        top_p: None,
        n: None,
        stream: None,
        stop: None,
        max_tokens: None,
        presence_penalty: None,
        frequency_penalty: None,
        user: None,
        tools: None,
        tool_choice: None,
        extra: vec![],
    }
}

fn obj(entries: Vec<(&str, JsonValue)>) -> JsonValue {
    JsonValue::Object(entries.into_iter().map(|(k, v)| (k.to_string(), v)).collect())
}

fn text(s: &str) -> JsonValue {
    JsonValue::Text(s.to_string())
}

#[test]
fn test_uuid_simple_generates_valid_uuid() {
    let uuid = uuid_simple();

    assert_eq!(uuid.len(), 36, "UUID should be 36 characters");
    assert_eq!(uuid.chars().filter(|&c| c == '-').count(), 4, "UUID should have 4 dashes");

    assert!(
        uuid.chars().all(|c| c.is_ascii_hexdigit() || c == '-'),
        "UUID should only contain hex digits and dashes"
    );
}

#[test]
fn test_uuid_simple_generates_unique_uuids() {
    let uuid1 = uuid_simple();
    let uuid2 = uuid_simple();
    let uuid3 = uuid_simple();

    assert_ne!(uuid1, uuid2, "UUIDs should be unique");
    assert_ne!(uuid2, uuid3, "UUIDs should be unique");
    assert_ne!(uuid1, uuid3, "UUIDs should be unique");
}

#[test]
fn test_current_timestamp_returns_positive() {
    let timestamp = current_timestamp();
    assert!(timestamp > 0, "Timestamp should be positive");
}

#[test]
fn test_current_timestamp_is_recent() {
    let timestamp = current_timestamp();

    assert!(timestamp > 1577836800, "Timestamp should be after 2020");

    assert!(timestamp < 2524608000, "Timestamp should be before 2050");
}

#[test]
fn test_current_timestamp_is_monotonic() {
    let ts1 = current_timestamp();
    let ts2 = current_timestamp();

    assert!(ts2 >= ts1, "Timestamps should be monotonically increasing");
}

#[test]
fn test_current_timestamp_precision() {
    let ts1 = current_timestamp();
    let ts2 = current_timestamp();

    assert!((ts2 - ts1) < 2, "Rapid timestamp calls should be close");
}

#[test]
fn test_lightspeed_core_transform_request() {
    let provider = LightspeedCoreProvider::new();
    let mut request = plain_request("test-model", vec![plain_message("user", "Hello")]);
    request.temperature = Some(FloatBits32 { bits: 0.7f32.to_bits() });
    request.max_tokens = Some(100);

    let backend_request = provider.transform_request(request);

    assert_eq!(backend_request.get("model").and_then(|v| v.as_str()).unwrap(), "test-model");
    assert!(backend_request.get("messages").is_some());
}

#[test]
fn test_lightspeed_core_transform_request_preserves_fields() {
    let provider = LightspeedCoreProvider::new();
    let mut request = plain_request("test-model", vec![plain_message("user", "Hello")]);
    request.temperature = Some(FloatBits32 { bits: 0.7f32.to_bits() });
    request.top_p = Some(FloatBits32 { bits: 0.9f32.to_bits() });
    request.n = Some(1);
    request.stream = Some(false);
    request.stop = Some(vec!["STOP".to_string()]);
    request.max_tokens = Some(100);
    request.presence_penalty = Some(FloatBits32 { bits: 0.5f32.to_bits() });
    request.frequency_penalty = Some(FloatBits32 { bits: 0.3f32.to_bits() });
    request.user = Some("test-user".to_string());

    let backend_request = provider.transform_request(request);

    assert_eq!(backend_request.get("model").and_then(|v| v.as_str()).unwrap(), "test-model");
    let temp = match backend_request.get("temperature") {
        Some(JsonValue::Float32Bits(bits)) => f32::from_bits(*bits) as f64,
        other => panic!("unexpected temperature value: {:?}", other),
    };
    assert!((temp - 0.7).abs() < 0.001, "Temperature should be approximately 0.7");
    let top_p = match backend_request.get("top_p") {
        Some(JsonValue::Float32Bits(bits)) => f32::from_bits(*bits) as f64,
        other => panic!("unexpected top_p value: {:?}", other),
    };
    assert!((top_p - 0.9).abs() < 0.001, "Top_p should be approximately 0.9");
    assert_eq!(backend_request.get("max_tokens").and_then(|v| v.as_u64()), Some(100));
    assert!(backend_request.get("messages").is_some());
}

#[test]
fn test_lightspeed_core_transform_response_valid() {
    let provider = LightspeedCoreProvider::new();
    let backend_response = obj(vec![
        ("id", text("chatcmpl-123")),
        ("object", text("chat.completion")),
        ("created", JsonValue::UInt(1234567890)),
        ("model", text("test-model")),
        (
            "choices",
            JsonValue::Array(vec![obj(vec![
                ("index", JsonValue::UInt(0)),
                (
                    "message",
                    obj(vec![("role", text("assistant")), ("content", text("This is a response"))]),
                ),
                ("finish_reason", text("stop")),
            ])]),
        ),
        (
            "usage",
            obj(vec![
                ("prompt_tokens", JsonValue::UInt(10)),
                ("completion_tokens", JsonValue::UInt(20)),
                ("total_tokens", JsonValue::UInt(30)),
            ]),
        ),
    ]);

    let result = provider.transform_response(&backend_response, "test-model");

    assert!(result.is_ok());
    let response = result.unwrap();
    assert_eq!(response.id, "chatcmpl-123");
    assert_eq!(response.model, "test-model");
    assert_eq!(response.choices[0].message.content, "This is a response");
}

#[test]
fn test_lightspeed_core_transform_response_invalid() {
    let provider = LightspeedCoreProvider::new();

    let backend_response = obj(vec![("data", obj(vec![(
        "text",
        text("This is not OpenAI format"),
    )]))]);

    let result = provider.transform_response(&backend_response, "test-model");
    assert!(result.is_err(), "Should fail with non-OpenAI format");
}

#[test]
fn test_lightspeed_core_extract_streaming_text() {
    let provider = LightspeedCoreProvider::new();
    let backend_response = obj(vec![(
        "choices",
        JsonValue::Array(vec![obj(vec![(
            "message",
            obj(vec![("content", text("Streaming content"))]),
        )])]),
    )]);

    let result = provider.extract_streaming_text(&backend_response);
    assert!(result.is_ok());
    assert_eq!(result.unwrap(), "Streaming content");
}

#[test]
fn test_lightspeed_core_extract_streaming_text_error() {
    let provider = LightspeedCoreProvider::new();
    let backend_response = obj(vec![("choices", JsonValue::Array(vec![]))]);

    let result = provider.extract_streaming_text(&backend_response);
    assert!(result.is_err(), "Should fail with empty choices");
}

#[test]
fn test_rhel_lightspeed_transform_request() {
    let provider = RhelLightspeedProvider::new();
    let request = plain_request("test-model", vec![plain_message("user", "What is Rust?")]);

    let backend_request = provider.transform_request(request);

    assert!(backend_request.get("question").is_some());
    assert_eq!(
        backend_request.get("question").and_then(|v| v.as_str()).unwrap(),
        "What is Rust?"
    );
}

#[test]
fn test_rhel_lightspeed_transform_request_multiple_messages() {
    let provider = RhelLightspeedProvider::new();
    let request = plain_request(
        "test-model",
        vec![
            plain_message("system", "You are a helpful assistant."),
            plain_message("user", "What is Linux?"),
            plain_message("assistant", "Linux is an operating system."),
            plain_message("user", "Tell me more about kernels."),
        ],
    );

    let backend_request = provider.transform_request(request);

    assert_eq!(
        backend_request.get("question").and_then(|v| v.as_str()).unwrap(),
        "Tell me more about kernels."
    );
}

#[test]
fn test_rhel_lightspeed_transform_request_no_user_message() {
    let provider = RhelLightspeedProvider::new();
    let request = plain_request(
        "test-model",
        vec![plain_message("system", "You are a helpful assistant.")],
    );

    let backend_request = provider.transform_request(request);

    assert_eq!(backend_request.get("question").and_then(|v| v.as_str()).unwrap(), "");
}

#[test]
fn test_rhel_lightspeed_transform_response_valid() {
    let provider = RhelLightspeedProvider::new();
    let backend_response = obj(vec![("data", obj(vec![(
        "text",
        text("This is the assistant's response"),
    )]))]);

    let result = provider.transform_response(&backend_response, "test-model");

    assert!(result.is_ok(), "Transform should succeed");
    let response = result.unwrap();
    assert_eq!(response.model, "test-model");
    assert_eq!(response.choices.len(), 1);
    assert_eq!(response.choices[0].message.role, "assistant");
    assert_eq!(response.choices[0].message.content, "This is the assistant's response");
    assert_eq!(response.choices[0].finish_reason, Some("stop".to_string()));
}

#[test]
fn test_rhel_lightspeed_transform_response_with_usage() {
    let provider = RhelLightspeedProvider::new();
    let backend_response = obj(vec![
        ("data", obj(vec![("text", text("Response text"))])),
        (
            "usage",
            obj(vec![
                ("prompt_tokens", JsonValue::UInt(50)),
                ("completion_tokens", JsonValue::UInt(30)),
                ("total_tokens", JsonValue::UInt(80)),
            ]),
        ),
    ]);

    let result = provider.transform_response(&backend_response, "test-model");

    assert!(result.is_ok());
    let response = result.unwrap();
    assert_eq!(response.usage.prompt_tokens, 50);
    assert_eq!(response.usage.completion_tokens, 30);
    assert_eq!(response.usage.total_tokens, 80);
}

#[test]
fn test_rhel_lightspeed_transform_response_missing_text() {
    let provider = RhelLightspeedProvider::new();

    let backend_response = obj(vec![("data", obj(vec![]))]);

    let result = provider.transform_response(&backend_response, "test-model");
    assert!(result.is_err(), "Should fail when text field is missing");

    let backend_response = obj(vec![("error", text("something went wrong"))]);

    let result = provider.transform_response(&backend_response, "test-model");
    assert!(result.is_err(), "Should fail when data field is missing");
}

#[test]
fn test_rhel_lightspeed_extract_streaming_text() {
    let provider = RhelLightspeedProvider::new();
    let backend_response = obj(vec![("data", obj(vec![(
        "text",
        text("Streaming response content"),
    )]))]);

    let result = provider.extract_streaming_text(&backend_response);
    assert!(result.is_ok());
    assert_eq!(result.unwrap(), "Streaming response content");
}

#[test]
fn test_rhel_lightspeed_extract_streaming_text_error() {
    let provider = RhelLightspeedProvider::new();
    let backend_response = obj(vec![("data", obj(vec![("wrong_field", text("value"))]))]);

    let result = provider.extract_streaming_text(&backend_response);
    assert!(result.is_err(), "Should fail when text field is missing");
}

#[test]
fn test_rhel_lightspeed_estimates_usage_without_counts() {
    let provider = RhelLightspeedProvider::new();
    let backend_response = obj(vec![("data", obj(vec![(
        "text",
        text("abcdefgh"),
    )]))]);

    let response = provider.transform_response(&backend_response, "m").unwrap();
    assert_eq!(response.usage.prompt_tokens, 0);
    assert_eq!(response.usage.completion_tokens, 2);
    assert_eq!(response.usage.total_tokens, 2);
}

#[test]
fn test_remap_example_end_to_end() {
    let provider = RhelLightspeedProvider::new();
    let request = plain_request("m", vec![plain_message("user", "Tell me more about kernels.")]);

    let payload = provider.transform_request(request);
    assert_eq!(
        payload,
        JsonValue::Object(vec![(
            "question".to_string(),
            JsonValue::Text("Tell me more about kernels.".to_string()),
        )])
    );

    let reply = obj(vec![("data", obj(vec![("text", text("Linux is modular."))]))]);
    let response = provider.transform_response(&reply, "m").unwrap();
    assert_eq!(response.choices.len(), 1);
    assert_eq!(response.choices[0].message.role, "assistant");
    assert_eq!(response.choices[0].message.content, "Linux is modular.");
    assert_eq!(response.choices[0].finish_reason, Some("stop".to_string()));
    assert!(response.id.starts_with("chatcmpl-"));
}

#[test]
fn test_response_ids_do_not_collide() {
    let provider = RhelLightspeedProvider::new();
    let reply = obj(vec![("data", obj(vec![("text", text("hi"))]))]);

    let first = provider.transform_response(&reply, "m").unwrap();
    let second = provider.transform_response(&reply, "m").unwrap();
    assert_ne!(first.id, second.id, "two responses must never share an identifier");
}
