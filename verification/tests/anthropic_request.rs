use otari::anthropic::{
    convert_content, convert_error, convert_messages, convert_tool_choice, convert_tools,
    extract_system_messages, reasoning_effort_to_budget,
    AnthropicRequest,
};
use otari::json::JsonValue;
use otari::{
    CompletionParams, Content, ContentPart, Message, OtariError, ReasoningEffort, Role,
    StopSequence, Tool, ToolCall, ToolChoice,
};

fn obj(fields: Vec<(&str, JsonValue)>) -> JsonValue {
    JsonValue::object(fields.into_iter().map(|(k, v)| (k.to_string(), v)).collect())
}

fn s(text: &str) -> JsonValue {
    JsonValue::string(text)
}

fn str_at<'a>(v: &'a JsonValue, key: &str) -> Option<&'a str> {
    v.get(key).and_then(|x| x.as_str()).map(|x| x.as_str())
}

#[test]
fn request_test_extract_system_messages() {
    let messages = vec![
        Message::system("You are helpful."),
        Message::system("Be concise."),
        Message::user("Hello"),
    ];

    let (system, filtered) = extract_system_messages(&messages);

    assert_eq!(system, Some("You are helpful.\nBe concise.".to_string()));
    assert_eq!(filtered.len(), 1);
    assert_eq!(filtered[0].role, Role::User);
}

#[test]
fn request_test_extract_system_messages_none() {
    let messages = vec![Message::user("Hello")];

    let (system, filtered) = extract_system_messages(&messages);

    assert!(system.is_none());
    assert_eq!(filtered.len(), 1);
}

#[test]
fn anthropic_test_extract_system_messages() {
    let messages = vec![
        Message::system("You are helpful."),
        Message::system("Be concise."),
        Message::user("Hello"),
    ];
    let (system, filtered) = extract_system_messages(&messages);
    assert_eq!(system, Some("You are helpful.\nBe concise.".to_string()));
    assert_eq!(filtered.len(), 1);
    assert_eq!(filtered[0].role, Role::User);
}

#[test]
fn anthropic_test_extract_system_messages_none() {
    let messages = vec![Message::user("Hello")];
    let (system, filtered) = extract_system_messages(&messages);
    assert!(system.is_none());
    assert_eq!(filtered.len(), 1);
}

#[test]
fn request_test_reasoning_effort_to_budget() {
    assert_eq!(reasoning_effort_to_budget(ReasoningEffort::Disabled), None);
    assert_eq!(reasoning_effort_to_budget(ReasoningEffort::Minimal), Some(1024));
    assert_eq!(reasoning_effort_to_budget(ReasoningEffort::Low), Some(2048));
    assert_eq!(reasoning_effort_to_budget(ReasoningEffort::Medium), Some(8192));
    assert_eq!(reasoning_effort_to_budget(ReasoningEffort::High), Some(24576));
    assert_eq!(reasoning_effort_to_budget(ReasoningEffort::Auto), None);
}

#[test]
fn anthropic_test_reasoning_effort_to_budget() {
    assert_eq!(reasoning_effort_to_budget(ReasoningEffort::Disabled), None);
    assert_eq!(reasoning_effort_to_budget(ReasoningEffort::Minimal), Some(1024));
    assert_eq!(reasoning_effort_to_budget(ReasoningEffort::Low), Some(2048));
    assert_eq!(reasoning_effort_to_budget(ReasoningEffort::Medium), Some(8192));
    assert_eq!(reasoning_effort_to_budget(ReasoningEffort::High), Some(24576));
    assert_eq!(reasoning_effort_to_budget(ReasoningEffort::Auto), None);
}

#[test]
fn request_test_convert_tool_choice_required() {
    let choice = ToolChoice::required();
    let result = convert_tool_choice(&choice, None);
    assert_eq!(str_at(&result, "type"), Some("any"));
    assert!(matches!(result.get("disable_parallel_tool_use"), Some(JsonValue::Bool(false))));
}

#[test]
fn request_test_convert_tool_choice_specific() {
    let choice = ToolChoice::function("my_function");
    let result = convert_tool_choice(&choice, Some(false));
    assert_eq!(str_at(&result, "type"), Some("tool"));
    assert_eq!(str_at(&result, "name"), Some("my_function"));
    assert!(matches!(result.get("disable_parallel_tool_use"), Some(JsonValue::Bool(true))));
}

#[test]
fn anthropic_test_convert_tool_choice_required() {
    let result = convert_tool_choice(&ToolChoice::required(), None);
    assert_eq!(str_at(&result, "type"), Some("any"));
    assert!(matches!(result.get("disable_parallel_tool_use"), Some(JsonValue::Bool(false))));
}

#[test]
fn anthropic_test_convert_tool_choice_specific() {
    let result = convert_tool_choice(&ToolChoice::function("my_function"), Some(false));
    assert_eq!(str_at(&result, "type"), Some("tool"));
    assert_eq!(str_at(&result, "name"), Some("my_function"));
    assert!(matches!(result.get("disable_parallel_tool_use"), Some(JsonValue::Bool(true))));
}

#[test]
fn tool_choice_unknown_mode_maps_to_auto() {
    let choice = ToolChoice::Mode("whatever".to_string());
    let result = convert_tool_choice(&choice, Some(true));
    assert_eq!(str_at(&result, "type"), Some("auto"));
    assert!(matches!(result.get("disable_parallel_tool_use"), Some(JsonValue::Bool(false))));
    assert_eq!(str_at(&convert_tool_choice(&ToolChoice::none(), None), "type"), Some("none"));
}

#[test]
fn request_test_convert_content_text() {
    let result = convert_content(&Some(Content::text("Hello")));
    assert_eq!(result.as_str().map(|x| x.as_str()), Some("Hello"));
}

#[test]
fn anthropic_test_convert_content_text() {
    let result = convert_content(&Some(Content::text("Hello")));
    assert_eq!(result.as_str().map(|x| x.as_str()), Some("Hello"));
}

fn check_content_with_image(result: &JsonValue) {
    match result {
        JsonValue::Array(arr) => {
            assert_eq!(arr.len(), 2);
            assert_eq!(str_at(&arr[0], "type"), Some("text"));
            assert_eq!(str_at(&arr[1], "type"), Some("image"));
            let source = arr[1].get("source").unwrap();
            assert_eq!(str_at(source, "type"), Some("base64"));
            assert_eq!(str_at(source, "media_type"), Some("image/png"));
            assert_eq!(str_at(source, "data"), Some("abc123"));
        },
        _ => panic!("expected an array"),
    }
}

#[test]
fn request_test_convert_content_with_image() {
    let content = Some(Content::parts(vec![
        ContentPart::text("What's this?"),
        ContentPart::image_base64("abc123", "image/png"),
    ]));
    check_content_with_image(&convert_content(&content));
}

#[test]
fn anthropic_test_convert_content_with_image() {
    let content = Some(Content::parts(vec![
        ContentPart::text("What's this?"),
        ContentPart::image_base64("abc123", "image/png"),
    ]));
    check_content_with_image(&convert_content(&content));
}

#[test]
fn convert_content_url_image_and_none() {
    let content = Some(Content::parts(vec![ContentPart::image_url("https://example.com/a.jpg")]));
    match convert_content(&content) {
        JsonValue::Array(arr) => {
            let source = arr[0].get("source").unwrap();
            assert_eq!(str_at(source, "type"), Some("url"));
            assert_eq!(str_at(source, "url"), Some("https://example.com/a.jpg"));
        },
        _ => panic!("expected an array"),
    }
    assert_eq!(convert_content(&None).as_str().map(|x| x.as_str()), Some(""));
}

#[test]
fn consecutive_tool_results_merge_into_one_turn() {
    let messages = vec![
        Message::user("weather?"),
        Message::assistant_with_tool_calls(vec![
            ToolCall::new("call_1", "get_weather", r#"{"location": "Paris"}"#),
            ToolCall::new("call_2", "get_weather", "not json"),
        ]),
        Message::tool("call_1", r#"{"temp": "22C"}"#),
        Message::tool("call_2", r#"{"temp": "18C"}"#),
    ];
    let refs: Vec<&Message> = messages.iter().collect();
    let turns = convert_messages(&refs);
    assert_eq!(turns.len(), 3);
    assert_eq!(str_at(&turns[0], "role"), Some("user"));
    assert_eq!(str_at(&turns[1], "role"), Some("assistant"));
    match turns[1].get("content") {
        Some(JsonValue::Array(blocks)) => {
            assert_eq!(blocks.len(), 2);
            assert_eq!(str_at(&blocks[0], "type"), Some("tool_use"));
            assert_eq!(str_at(&blocks[0], "id"), Some("call_1"));
            assert_eq!(str_at(blocks[0].get("input").unwrap(), "location"), Some("Paris"));
            // Arguments that are not JSON become an empty input object.
            assert!(matches!(blocks[1].get("input"), Some(JsonValue::Object(f)) if f.is_empty()));
        },
        _ => panic!("expected tool-use blocks"),
    }
    assert_eq!(str_at(&turns[2], "role"), Some("user"));
    match turns[2].get("content") {
        Some(JsonValue::Array(blocks)) => {
            assert_eq!(blocks.len(), 2);
            assert_eq!(str_at(&blocks[0], "tool_use_id"), Some("call_1"));
            assert_eq!(str_at(&blocks[1], "tool_use_id"), Some("call_2"));
            assert_eq!(str_at(&blocks[1], "content"), Some(r#"{"temp": "18C"}"#));
        },
        _ => panic!("expected tool-result blocks"),
    }
}

#[test]
fn tool_result_after_plain_user_turn_starts_new_turn() {
    let messages = vec![Message::user("hi"), Message::tool("call_9", "done")];
    let refs: Vec<&Message> = messages.iter().collect();
    let turns = convert_messages(&refs);
    assert_eq!(turns.len(), 2);
    assert_eq!(str_at(&turns[1], "role"), Some("user"));
}

#[test]
fn convert_tools_keeps_function_tools() {
    let schema = obj(vec![
        ("type", s("object")),
        ("properties", obj(vec![("location", obj(vec![("type", s("string"))]))])),
        ("required", JsonValue::array(vec![s("location")])),
    ]);
    let weather = Tool::function("get_weather", "Get the weather").parameters(schema).build();
    let mut other = Tool::function("other", "Not a function tool").build();
    other.tool_type = "retrieval".to_string();
    let bare = Tool::function("bare", "No schema").build();
    let out = convert_tools(&vec![weather, other, bare]);
    assert_eq!(out.len(), 2);
    assert_eq!(str_at(&out[0], "name"), Some("get_weather"));
    assert_eq!(str_at(&out[0], "description"), Some("Get the weather"));
    let input_schema = out[0].get("input_schema").unwrap();
    assert_eq!(str_at(input_schema, "type"), Some("object"));
    assert!(input_schema.get("properties").unwrap().get("location").is_some());
    assert!(matches!(input_schema.get("required"), Some(JsonValue::Array(a)) if a.len() == 1));
    let bare_schema = out[1].get("input_schema").unwrap();
    assert!(matches!(bare_schema.get("properties"), Some(JsonValue::Object(f)) if f.is_empty()));
    assert!(matches!(bare_schema.get("required"), Some(JsonValue::Array(a)) if a.is_empty()));
}

#[test]
fn request_conversion_builds_the_body() {
    let mut params = CompletionParams::new(
        "model-x",
        vec![Message::system("Be brief."), Message::user("Hi")],
    )
    .with_reasoning_effort(ReasoningEffort::Medium);
    params.stop = Some(StopSequence::single("END"));
    params.parallel_tool_calls = Some(false);
    let req = AnthropicRequest::try_from(params).unwrap();
    assert_eq!(req.model, "model-x");
    assert_eq!(req.max_tokens, 8192);
    assert_eq!(req.system, Some("Be brief.".to_string()));
    assert_eq!(req.messages.len(), 1);
    assert!(matches!(&req.stop_sequences, Some(JsonValue::Array(a)) if a.len() == 1));
    let choice = req.tool_choice.as_ref().unwrap();
    assert_eq!(str_at(choice, "type"), Some("auto"));
    assert!(matches!(choice.get("disable_parallel_tool_use"), Some(JsonValue::Bool(true))));
    let thinking = req.reasoning.as_ref().unwrap();
    assert_eq!(str_at(thinking, "type"), Some("enabled"));
    assert!(matches!(thinking.get("budget_tokens"), Some(JsonValue::Number(n)) if n == "8192"));
    assert!(req.stream.is_none());
    let req = req.stream();
    assert_eq!(req.stream, Some(true));
}

#[test]
fn request_conversion_disabled_and_auto_effort() {
    let params = CompletionParams::new("m", vec![Message::user("Hi")])
        .with_reasoning_effort(ReasoningEffort::Disabled)
        .with_max_tokens(10);
    let req = AnthropicRequest::try_from(params).unwrap();
    assert_eq!(req.max_tokens, 10);
    assert_eq!(str_at(req.reasoning.as_ref().unwrap(), "type"), Some("disabled"));
    let params = CompletionParams::new("m", vec![Message::user("Hi")])
        .with_reasoning_effort(ReasoningEffort::Auto);
    let req = AnthropicRequest::try_from(params).unwrap();
    assert!(req.reasoning.is_none());
    assert!(req.tool_choice.is_none());
    assert!(req.system.is_none());
}

#[test]
fn response_format_is_refused() {
    let mut params = CompletionParams::new("m", vec![Message::user("Hi")]);
    params.response_format = Some(obj(vec![("type", s("json_object"))]));
    match AnthropicRequest::try_from(params) {
        Err(OtariError::UnsupportedParameter { param, provider, hint }) => {
            assert_eq!(param, "response_format");
            assert_eq!(provider, "anthropic");
            assert!(hint.starts_with("See https://docs.anthropic.com"));
        },
        _ => panic!("expected an unsupported parameter error"),
    }
}

#[test]
fn anthropic_errors_by_status() {
    assert!(matches!(convert_error(429, "slow"), OtariError::RateLimit { .. }));
    assert!(matches!(convert_error(401, "key"), OtariError::Authentication { .. }));
    assert!(matches!(convert_error(400, "bad"), OtariError::InvalidRequest { .. }));
    match convert_error(404, "gone") {
        OtariError::ModelNotFound { model, provider } => {
            assert_eq!(model, "unknown");
            assert_eq!(provider, "anthropic");
        },
        _ => panic!("expected model not found"),
    }
    match convert_error(500, "boom") {
        OtariError::Provider { message, .. } => assert_eq!(message, "Status 500: boom"),
        _ => panic!("expected a provider error"),
    }
}

#[test]
fn budgets_grow_with_effort() {
    let budgets: Vec<u32> = [
        ReasoningEffort::Minimal,
        ReasoningEffort::Low,
        ReasoningEffort::Medium,
        ReasoningEffort::High,
    ]
    .iter()
    .map(|e| reasoning_effort_to_budget(*e).unwrap())
    .collect();
    assert!(budgets.windows(2).all(|w| w[0] < w[1]));
}
