use otari::client::convert_error as gateway_error;
use otari::openai::convert_error;
use otari::{Message, OtariError, ReasoningEffort, Role, ToolCall};

#[test]
fn test_error_messages() {
    let err = OtariError::RateLimit { message: "Too many requests".into(), provider: "openai".into() };
    assert!(err.to_string().contains("Rate limit"));
    assert!(err.to_string().contains("openai"));

    let err = OtariError::Authentication { message: "Invalid API key".into(), provider: "openai".into() };
    assert!(err.to_string().contains("Authentication"));

    let err = OtariError::ModelNotFound { model: "gpt-5".into(), provider: "openai".into() };
    assert!(err.to_string().contains("not found"));
    assert!(err.to_string().contains("gpt-5"));
}

#[test]
fn test_anthropic_error_messages() {
    let rate_limit = OtariError::RateLimit { message: "Rate limit exceeded".into(), provider: "anthropic".into() };
    assert!(rate_limit.to_string().contains("anthropic"));

    let auth = OtariError::Authentication { message: "Invalid x-api-key".into(), provider: "anthropic".into() };
    assert!(auth.to_string().contains("anthropic"));
    assert!(auth.to_string().contains("Authentication"));
}

#[test]
fn test_response_format_unsupported() {
    let err = OtariError::UnsupportedParameter {
        param: "response_format".into(),
        provider: "anthropic".into(),
        hint: "Use tool calling for structured output".into(),
    };
    assert!(err.to_string().contains("response_format"));
    assert!(err.to_string().contains("anthropic"));
}

#[test]
fn openai_errors_by_message() {
    assert!(matches!(convert_error("HTTP 429: rate limit"), OtariError::RateLimit { .. }));
    assert!(matches!(convert_error("invalid api key provided"), OtariError::Authentication { .. }));
    match convert_error("model not found") {
        OtariError::ModelNotFound { model, provider } => {
            assert_eq!(model, "unknown");
            assert_eq!(provider, "openai");
        },
        other => panic!("unexpected {other:?}"),
    }
    assert!(matches!(convert_error("400 bad request"), OtariError::InvalidRequest { .. }));
    assert!(matches!(convert_error("boom"), OtariError::Provider { .. }));
}

#[test]
fn correlation_id_noted_for_every_status() {
    for status in [401u16, 402, 403, 404, 429, 500, 502, 504, 418] {
        let e = gateway_error(status, r#"{"detail":"x"}"#, Some("cid-7"), Some("3"));
        let text = match &e {
            OtariError::RateLimit { message, .. }
            | OtariError::Authentication { message, .. }
            | OtariError::Provider { message, .. } => message.clone(),
            OtariError::ModelNotFound { model, .. } => model.clone(),
            other => panic!("unexpected {other:?}"),
        };
        assert!(text.contains(" (correlation_id=cid-7)"), "{status}: {text}");
    }
}

#[test]
fn test_system_message_extraction_multiple() {
    let messages = vec![
        Message::system("You are helpful."),
        Message::system("Be concise."),
        Message::user("Hello"),
    ];
    let system_count = messages.iter().filter(|m| m.role == Role::System).count();
    assert_eq!(system_count, 2);
    let system_text: String = messages
        .iter()
        .filter(|m| m.role == Role::System)
        .filter_map(|m| m.text_content())
        .collect::<Vec<_>>()
        .join("\n");
    assert_eq!(system_text, "You are helpful.\nBe concise.");
}

#[test]
fn test_consecutive_tool_results() {
    let messages = vec![
        Message::assistant_with_tool_calls(vec![
            ToolCall::new("call_1", "get_weather", r#"{"location": "Paris"}"#),
            ToolCall::new("call_2", "get_weather", r#"{"location": "London"}"#),
        ]),
        Message::tool("call_1", r#"{"temp": "22C"}"#),
        Message::tool("call_2", r#"{"temp": "18C"}"#),
    ];
    assert_eq!(messages.len(), 3);
    assert_eq!(messages[0].role, Role::Assistant);
    assert_eq!(messages[1].role, Role::Tool);
    assert_eq!(messages[2].role, Role::Tool);
    let tool_count = messages.iter().filter(|m| m.role == Role::Tool).count();
    assert_eq!(tool_count, 2);
}

#[test]
fn test_reasoning_effort_values() {
    assert_eq!(ReasoningEffort::Disabled as i32, 0);
    assert_eq!(ReasoningEffort::Minimal as i32, 1);
    assert_eq!(ReasoningEffort::Low as i32, 2);
    assert_eq!(ReasoningEffort::Medium as i32, 3);
    assert_eq!(ReasoningEffort::High as i32, 4);
    assert_eq!(ReasoningEffort::Auto as i32, 5);
}
