//! The wire model, the JSON document model and its renderer.

use clad::json::JsonValue;
use clad::openai::{ChatCompletionRequest, FloatBits32, Message};
use clad::provider::Provider;
use clad::provider::lightspeed_core::LightspeedCoreProvider;
use clad::text::{i64_to_decimal, u64_to_decimal};

fn base_request() -> ChatCompletionRequest {
    ChatCompletionRequest {
        model: "gpt-4".to_string(),
        messages: vec![Message {
            role: "user".to_string(),
            content: "Hello".to_string(),
            name: None,
            tool_calls: None,
        }],
        temperature: None,
        top_p: None,
        n: None,
        stream: None,
        stop: None,
        max_tokens: None,
        presence_penalty: None,
        frequency_penalty: None,
        user: None,
        tools: None,
        tool_choice: None,
        extra: vec![],
    }
}

#[test]
fn test_chat_completion_request_serde() {
    let mut request = base_request();
    request.temperature = Some(FloatBits32 { bits: 0.8f32.to_bits() });
    request.stream = Some(false);
    request.max_tokens = Some(1000);

    let provider = LightspeedCoreProvider::new();
    let payload = provider.transform_request(request);

    assert_eq!(payload.get("model").and_then(|v| v.as_str()).unwrap(), "gpt-4");
    match payload.get("messages") {
        Some(JsonValue::Array(items)) => assert_eq!(items.len(), 1),
        other => panic!("unexpected messages value: {:?}", other),
    }
    match payload.get("temperature") {
        Some(JsonValue::Float32Bits(bits)) => assert_eq!(f32::from_bits(*bits), 0.8),
        other => panic!("unexpected temperature value: {:?}", other),
    }
    assert_eq!(payload.get("max_tokens").and_then(|v| v.as_u64()), Some(1000));
}

#[test]
fn test_chat_completion_request_with_extra_fields() {
    let mut request = base_request();
    request.extra = vec![
        ("custom_field".to_string(), JsonValue::Text("custom_value".to_string())),
        ("another_field".to_string(), JsonValue::UInt(123)),
    ];

    let provider = LightspeedCoreProvider::new();
    let payload = provider.transform_request(request);

    assert_eq!(payload.get("model").and_then(|v| v.as_str()).unwrap(), "gpt-4");
    assert!(payload.get("custom_field").is_some());
    assert_eq!(
        payload.get("custom_field").and_then(|v| v.as_str()).unwrap(),
        "custom_value"
    );
    assert_eq!(payload.get("another_field").and_then(|v| v.as_u64()), Some(123));
}

#[test]
fn test_message_with_name() {
    let mut request = base_request();
    request.messages = vec![Message {
        role: "user".to_string(),
        content: "Hello".to_string(),
        name: Some("John".to_string()),
        tool_calls: None,
    }];

    let provider = LightspeedCoreProvider::new();
    let json_str = provider.transform_request(request).render();
    assert!(json_str.contains("name"));
    assert!(json_str.contains("John"));
}

#[test]
fn test_message_without_name() {
    let mut request = base_request();
    request.messages = vec![Message {
        role: "assistant".to_string(),
        content: "Hi there".to_string(),
        name: None,
        tool_calls: None,
    }];

    let provider = LightspeedCoreProvider::new();
    let json_str = provider.transform_request(request).render();
    assert!(!json_str.contains("name"));
}

#[test]
fn test_absent_optionals_are_omitted_not_null() {
    let provider = LightspeedCoreProvider::new();
    let payload = provider.transform_request(base_request());

    assert!(payload.get("temperature").is_none());
    assert!(payload.get("stop").is_none());
    assert!(!payload.render().contains("null"));
}

#[test]
fn test_render_compact_json() {
    let value = JsonValue::Object(vec![
        ("a".to_string(), JsonValue::UInt(7)),
        ("b".to_string(), JsonValue::Array(vec![
            JsonValue::Bool(true),
            JsonValue::Null,
            JsonValue::Int(-3),
        ])),
    ]);
    assert_eq!(value.render(), "{\"a\":7,\"b\":[true,null,-3]}");
}

#[test]
fn test_render_escapes_strings() {
    let value = JsonValue::Text("a\"b\\c\nd".to_string());
    assert_eq!(value.render(), "\"a\\\"b\\\\c\\u000ad\"");
}

#[test]
fn test_decimal_rendering() {
    assert_eq!(u64_to_decimal(0), "0");
    assert_eq!(u64_to_decimal(1234567890), "1234567890");
    assert_eq!(u64_to_decimal(u64::MAX), "18446744073709551615");
    assert_eq!(i64_to_decimal(-42), "-42");
    assert_eq!(i64_to_decimal(i64::MIN), "-9223372036854775808");
}

#[test]
fn test_json_get_and_accessors() {
    let value = JsonValue::Object(vec![
        ("k".to_string(), JsonValue::Text("v".to_string())),
        ("n".to_string(), JsonValue::UInt(5)),
    ]);
    assert_eq!(value.get("k").and_then(|v| v.as_str()).unwrap(), "v");
    assert_eq!(value.get("n").and_then(|v| v.as_u64()), Some(5));
    assert!(value.get("missing").is_none());
    assert!(JsonValue::Null.get("k").is_none());
    assert_eq!(JsonValue::UInt(9).as_i64(), Some(9));
    assert_eq!(JsonValue::Int(-9).as_i64(), Some(-9));
}

#[test]
fn test_pass_through_parses_defaults() {
    let provider = LightspeedCoreProvider::new();
    let backend_response = JsonValue::Object(vec![
        ("id".to_string(), JsonValue::Text("chatcmpl-1".to_string())),
        ("object".to_string(), JsonValue::Text("chat.completion".to_string())),
        ("created".to_string(), JsonValue::UInt(5)),
        ("model".to_string(), JsonValue::Text("m".to_string())),
        (
            "choices".to_string(),
            JsonValue::Array(vec![JsonValue::Object(vec![
                ("index".to_string(), JsonValue::UInt(0)),
                (
                    "message".to_string(),
                    JsonValue::Object(vec![(
                        "role".to_string(),
                        JsonValue::Text("assistant".to_string()),
                    )]),
                ),
            ])]),
        ),
        (
            "usage".to_string(),
            JsonValue::Object(vec![
                ("prompt_tokens".to_string(), JsonValue::UInt(1)),
                ("completion_tokens".to_string(), JsonValue::UInt(2)),
                ("total_tokens".to_string(), JsonValue::UInt(3)),
            ]),
        ),
    ]);

    let response = provider.transform_response(&backend_response, "m").unwrap();
    assert_eq!(response.choices[0].message.content, "");
    assert_eq!(response.choices[0].finish_reason, None);
    assert_eq!(response.usage.total_tokens, 3);
}
