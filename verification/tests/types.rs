use otari::json::JsonValue;
use otari::types::BatchStatus;
use otari::{
    CompletionOptions, CompletionParams, CompletionUsage, Content, ContentPart, Float32,
    ImageGenerationParams, ImageUrl, ListBatchesOptions, Message, ModerationContentPart,
    ModerationImageUrl, ModerationInput, ModerationParams, ReasoningEffort, Role, StopSequence,
    Tool, ToolCall, ToolChoice,
};

fn f32v(x: f32) -> Float32 {
    Float32(x.to_bits())
}

#[test]
fn test_message_creation() {
    let system = Message::system("You are helpful.");
    assert_eq!(system.role, Role::System);
    assert_eq!(system.text_content(), Some("You are helpful.".to_string()));

    let user = Message::user("Hello!");
    assert_eq!(user.role, Role::User);
    assert_eq!(user.text_content(), Some("Hello!".to_string()));

    let assistant = Message::assistant("Hi there!");
    assert_eq!(assistant.role, Role::Assistant);
    assert_eq!(assistant.text_content(), Some("Hi there!".to_string()));
}

#[test]
fn test_message_tool_response() {
    let tool_msg = Message::tool("call_123", "Result from tool");
    assert_eq!(tool_msg.role, Role::Tool);
    assert_eq!(tool_msg.tool_call_id, Some("call_123".to_string()));
    assert_eq!(tool_msg.text_content(), Some("Result from tool".to_string()));
}

#[test]
fn test_completion_params_builder() {
    let params = CompletionParams::new("gpt-4o-mini", vec![Message::user("Hello")])
        .with_temperature(f32v(0.7))
        .with_max_tokens(100)
        .with_stream(true);

    assert_eq!(params.model_id, "gpt-4o-mini");
    assert_eq!(params.temperature, Some(f32v(0.7)));
    assert_eq!(params.max_tokens, Some(100));
    assert_eq!(params.stream, Some(true));
}

#[test]
fn test_completion_test_completion_options_builder() {
    let options = CompletionOptions::with_api_key("test-key").temperature(f32v(0.5)).max_tokens(200);

    assert_eq!(options.api_key, Some("test-key".to_string()));
    assert_eq!(options.temperature, Some(f32v(0.5)));
    assert_eq!(options.max_tokens, Some(200));
}

#[test]
fn api_test_completion_options_builder() {
    let options = CompletionOptions::with_api_key("test-key").temperature(f32v(0.7)).max_tokens(100);

    assert_eq!(options.api_key, Some("test-key".to_string()));
    assert_eq!(options.temperature, Some(f32v(0.7)));
    assert_eq!(options.max_tokens, Some(100));
}

#[test]
fn test_provider_config_from_options() {
    let options = CompletionOptions::with_api_key("my-key").api_base("https://custom.api.com");

    let config = options.provider_config();

    assert_eq!(config.api_key, Some("my-key".to_string()));
    assert_eq!(config.api_base, Some("https://custom.api.com".to_string()));
}

#[test]
fn completion_options_become_params() {
    let options = CompletionOptions::with_api_key("k")
        .reasoning_effort(ReasoningEffort::High)
        .tool_choice(ToolChoice::auto());
    let params = options.into_params("m", vec![Message::user("x")], true);
    assert_eq!(params.model_id, "m");
    assert_eq!(params.stream, Some(true));
    assert_eq!(params.reasoning_effort, Some(ReasoningEffort::High));
    assert!(params.tool_choice.is_some());
}

#[test]
fn test_tool_choice_modes() {
    let none = ToolChoice::none();
    assert_eq!(none.as_mode(), Some("none"));

    let auto = ToolChoice::auto();
    assert_eq!(auto.as_mode(), Some("auto"));

    let required = ToolChoice::required();
    assert_eq!(required.as_mode(), Some("required"));
}

#[test]
fn test_completion_test_tool_choice_specific_function() {
    let choice = ToolChoice::function("my_function");
    assert_eq!(choice.as_function(), Some("my_function"));
    assert!(choice.as_mode().is_none());
}

#[test]
fn test_openai_test_tool_choice_specific_function() {
    let choice = ToolChoice::function("my_function");
    assert_eq!(choice.as_function(), Some("my_function"));
}

#[test]
fn test_message_system() {
    let msg = Message::system("You are a helpful assistant.");
    assert_eq!(msg.role, Role::System);
    assert!(matches!(&msg.content, Some(Content::Text(t)) if t == "You are a helpful assistant."));
}

#[test]
fn test_message_user() {
    let msg = Message::user("Hello!");
    assert_eq!(msg.role, Role::User);
    assert!(matches!(&msg.content, Some(Content::Text(t)) if t == "Hello!"));
}

#[test]
fn test_message_user_with_image() {
    let parts = vec![
        ContentPart::text("What's in this image?"),
        ContentPart::image_url("https://example.com/image.png"),
    ];
    let msg = Message::user_with_parts(parts);

    assert_eq!(msg.role, Role::User);
    match &msg.content {
        Some(Content::Parts(parts)) => {
            assert_eq!(parts.len(), 2);
            assert!(matches!(&parts[0], ContentPart::Text { text } if text == "What's in this image?"));
            assert!(matches!(&parts[1], ContentPart::ImageUrl { .. }));
        },
        _ => panic!("Expected Parts content"),
    }
}

#[test]
fn test_message_user_with_base64_image() {
    let parts = vec![
        ContentPart::text("Describe this:"),
        ContentPart::image_base64("abc123data", "image/png"),
    ];
    let msg = Message::user_with_parts(parts);

    match &msg.content {
        Some(Content::Parts(parts)) => {
            assert_eq!(parts.len(), 2);
            if let ContentPart::ImageUrl { image_url } = &parts[1] {
                assert!(image_url.is_base64());
                let (media_type, data) = image_url.parse_base64().unwrap();
                assert_eq!(media_type, "image/png");
                assert_eq!(data, "abc123data");
            } else {
                panic!("Expected ImageUrl part");
            }
        },
        _ => panic!("Expected Parts content"),
    }
}

#[test]
fn test_image_content_base64() {
    let parts = vec![
        ContentPart::text("What's this?"),
        ContentPart::image_base64("abc123", "image/png"),
    ];
    let msg = Message::user_with_parts(parts);
    match &msg.content {
        Some(Content::Parts(parts)) => {
            assert_eq!(parts.len(), 2);
            if let ContentPart::ImageUrl { image_url } = &parts[1] {
                assert!(image_url.is_base64());
                let (media_type, data) = image_url.parse_base64().unwrap();
                assert_eq!(media_type, "image/png");
                assert_eq!(data, "abc123");
            } else {
                panic!("Expected ImageUrl");
            }
        },
        _ => panic!("Expected Parts"),
    }
}

#[test]
fn test_image_content_url() {
    let parts = vec![ContentPart::image_url("https://example.com/image.jpg")];
    let msg = Message::user_with_parts(parts);
    match &msg.content {
        Some(Content::Parts(parts)) => {
            if let ContentPart::ImageUrl { image_url } = &parts[0] {
                assert!(!image_url.is_base64());
                assert_eq!(image_url.url, "https://example.com/image.jpg");
            } else {
                panic!("Expected ImageUrl");
            }
        },
        _ => panic!("Expected Parts"),
    }
}

#[test]
fn base64_round_trip_and_malformed_urls() {
    let url = ImageUrl::base64("QUJD", "image/jpeg");
    assert_eq!(url.url, "data:image/jpeg;base64,QUJD");
    assert_eq!(url.parse_base64(), Some(("image/jpeg", "QUJD")));
    assert_eq!(ImageUrl::new("data:image/png,abc").parse_base64(), None);
    assert_eq!(ImageUrl::new("data:image/png;charset=x,abc").parse_base64(), None);
    assert_eq!(ImageUrl::new("https://x").parse_base64(), None);
    let with_detail = ImageUrl::new("https://x").with_detail("high");
    assert_eq!(with_detail.detail, Some("high".to_string()));
}

#[test]
fn test_message_assistant_with_tool_calls() {
    let tool_calls = vec![ToolCall::new("call_123", "get_weather", r#"{"location":"Paris"}"#)];
    let msg = Message::assistant_with_tool_calls(tool_calls);

    assert_eq!(msg.role, Role::Assistant);
    assert!(msg.content.is_none());
    assert!(msg.tool_calls.is_some());

    let calls = msg.tool_calls.unwrap();
    assert_eq!(calls.len(), 1);
    assert_eq!(calls[0].id, "call_123");
    assert_eq!(calls[0].function.name, "get_weather");
}

#[test]
fn test_tool_call_message() {
    let tool_calls = vec![ToolCall::new("call_abc123", "get_weather", r#"{"location": "Paris"}"#)];
    let msg = Message::assistant_with_tool_calls(tool_calls);

    assert_eq!(msg.role, Role::Assistant);
    let calls = msg.tool_calls.as_ref().unwrap();
    assert_eq!(calls.len(), 1);
    assert_eq!(calls[0].id, "call_abc123");
    assert_eq!(calls[0].function.name, "get_weather");
    assert_eq!(calls[0].function.arguments, r#"{"location": "Paris"}"#);
}

#[test]
fn test_message_tool() {
    let msg = Message::tool("call_123", r#"{"temperature": "22C"}"#);
    assert_eq!(msg.role, Role::Tool);
    assert_eq!(msg.tool_call_id, Some("call_123".to_string()));
}

#[test]
fn test_tool_result_message() {
    let msg = Message::tool("call_abc123", r#"{"temperature": "22C", "condition": "sunny"}"#);
    assert_eq!(msg.role, Role::Tool);
    assert_eq!(msg.tool_call_id, Some("call_abc123".to_string()));
    assert!(msg.text_content().unwrap().contains(r#""temperature": "22C""#));
}

#[test]
fn test_tool_choice_auto() {
    assert_eq!(ToolChoice::auto().as_mode(), Some("auto"));
}

#[test]
fn test_tool_choice_required() {
    assert_eq!(ToolChoice::required().as_mode(), Some("required"));
}

#[test]
fn test_tool_choice_required_maps_to_any() {
    assert_eq!(ToolChoice::required().as_mode(), Some("required"));
}

#[test]
fn test_tool_choice_specific_tool() {
    assert_eq!(ToolChoice::function("get_weather").as_function(), Some("get_weather"));
}

fn weather_schema() -> JsonValue {
    let location = JsonValue::object(vec![
        ("type".to_string(), JsonValue::string("string")),
        ("description".to_string(), JsonValue::string("City name")),
    ]);
    JsonValue::object(vec![
        ("type".to_string(), JsonValue::string("object")),
        (
            "properties".to_string(),
            JsonValue::object(vec![("location".to_string(), location)]),
        ),
        (
            "required".to_string(),
            JsonValue::array(vec![JsonValue::string("location")]),
        ),
    ])
}

#[test]
fn test_tool_spec_conversion() {
    let tool = Tool::function("get_weather", "Get the weather for a city")
        .parameters(weather_schema())
        .build();
    assert_eq!(tool.tool_type, "function");
    assert_eq!(tool.function.name, "get_weather");
    assert_eq!(tool.function.description, Some("Get the weather for a city".to_string()));
    let params = tool.function.parameters.as_ref().unwrap();
    assert!(params.get("properties").is_some());
    assert!(params.get("required").is_some());
}

#[test]
fn test_tool_creation() {
    let tool = Tool::function("get_weather", "Get weather for a location")
        .parameters(weather_schema())
        .build();
    assert_eq!(tool.tool_type, "function");
    assert_eq!(tool.function.name, "get_weather");
    assert_eq!(tool.function.description, Some("Get weather for a location".to_string()));
    assert!(tool.function.parameters.is_some());
}

#[test]
fn test_system_message_extraction_single() {
    let messages = vec![Message::system("You are helpful."), Message::user("Hello")];
    let system_msg = &messages[0];
    assert_eq!(system_msg.role, Role::System);
    assert_eq!(system_msg.text_content(), Some("You are helpful.".to_string()));
}

#[test]
fn content_extract_text_joins_parts() {
    let c = Content::parts(vec![
        ContentPart::text("a"),
        ContentPart::image_url("https://x"),
        ContentPart::text("b"),
    ]);
    assert_eq!(c.extract_text(), "ab");
    assert_eq!(c.as_text(), None);
    assert_eq!(Content::text("t").as_text(), Some("t"));
    let named = Message::user("hi").with_name("bob");
    assert_eq!(named.name, Some("bob".to_string()));
    assert_eq!(Message::default().text_content(), None);
}

#[test]
fn stop_sequences_to_vec() {
    assert_eq!(StopSequence::single("x").to_vec(), vec!["x".to_string()]);
    let many = vec!["a".to_string(), "b".to_string()];
    assert_eq!(StopSequence::multiple(many.clone()).to_vec(), many);
}

#[test]
fn usage_totals() {
    let u = CompletionUsage::new(10, 5);
    assert_eq!(u.total_tokens, 15);
    assert_eq!(CompletionUsage::default().total_tokens, 0);
}

#[test]
fn reasoning_effort_names() {
    assert_eq!(ReasoningEffort::Disabled.as_str(), "none");
    assert_eq!(ReasoningEffort::High.as_str(), "high");
    assert_eq!(ReasoningEffort::default(), ReasoningEffort::Auto);
    assert_eq!(Role::Assistant.as_str(), "assistant");
}

#[test]
fn batch_status_enum_values() {
    let cases = [
        ("validating", BatchStatus::Validating),
        ("failed", BatchStatus::Failed),
        ("in_progress", BatchStatus::InProgress),
        ("finalizing", BatchStatus::Finalizing),
        ("completed", BatchStatus::Completed),
        ("expired", BatchStatus::Expired),
        ("cancelling", BatchStatus::Cancelling),
        ("cancelled", BatchStatus::Cancelled),
    ];
    for (name, status) in cases {
        assert_eq!(BatchStatus::from_name(name), Some(status));
        assert_eq!(status.as_str(), name);
    }
    assert_eq!(BatchStatus::from_name("unknown"), None);
}

#[test]
fn list_batches_query_pairs() {
    let opts = ListBatchesOptions { after: Some("b_1".to_string()), limit: Some(20) };
    assert_eq!(
        opts.query("openai"),
        vec![
            ("provider".to_string(), "openai".to_string()),
            ("after".to_string(), "b_1".to_string()),
            ("limit".to_string(), "20".to_string()),
        ]
    );
    assert_eq!(ListBatchesOptions::default().query("p").len(), 1);
}

#[test]
fn moderation_body_shapes() {
    let p = ModerationParams::new("m", ModerationInput::Text("hurt someone".into()));
    assert!(!p.include_raw);
    let body = p.body();
    assert_eq!(body.get_str("input").map(|s| s.as_str()), Some("hurt someone"));
    assert!(body.get("user").is_none());
    let p = ModerationParams::new("m", ModerationInput::Batch(vec!["a".into(), "b".into()]))
        .with_user("u1")
        .with_include_raw(true);
    assert!(p.include_raw);
    let body = p.body();
    assert!(matches!(body.get("input"), Some(JsonValue::Array(a)) if a.len() == 2));
    assert_eq!(body.get_str("user").map(|s| s.as_str()), Some("u1"));
    assert!(body.get("include_raw").is_none());
    let p = ModerationParams::new(
        "m",
        ModerationInput::Parts(vec![
            ModerationContentPart::Text { text: "t".into() },
            ModerationContentPart::ImageUrl { image_url: ModerationImageUrl { url: "https://i".into() } },
        ]),
    );
    match p.body().get("input") {
        Some(JsonValue::Array(parts)) => {
            assert_eq!(parts[0].get_str("type").map(|s| s.as_str()), Some("text"));
            assert_eq!(parts[1].get_str("type").map(|s| s.as_str()), Some("image_url"));
            assert_eq!(
                parts[1].get("image_url").unwrap().get_str("url").map(|s| s.as_str()),
                Some("https://i")
            );
        },
        _ => panic!("expected parts"),
    }
}

#[test]
fn image_params_builders() {
    let p = ImageGenerationParams::new("openai:dall-e-3", "a cat").with_n(2).with_size("1024x1024");
    assert_eq!(p.n, Some(2));
    assert_eq!(p.size, Some("1024x1024".to_string()));
    assert_eq!(p.prompt, "a cat");
}
