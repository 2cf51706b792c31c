use otari::gateway::{
    convert_message, default_object, extract_reasoning, is_done_sentinel, keep_chunk,
    GatewayChoice, GatewayChunkRaw, GatewayFunction, GatewayMessage, GatewayRequest,
    GatewayResponse, GatewayToolCall, GatewayUsage, RawChunkChoice, RawDelta, RawFunctionDelta,
    RawToolCallDelta, RawUsage,
};
use otari::json::JsonValue;
use otari::{
    CompletionParams, ContentPart, Float32, Message, ReasoningEffort, Role, StopSequence, Tool,
    ToolCall, ToolChoice,
};

fn str_at<'a>(v: &'a JsonValue, key: &str) -> Option<&'a str> {
    v.get_str(key).map(|s| s.as_str())
}

#[test]
fn test_basic_conversion() {
    let params = CompletionParams::new("openai:gpt-4o-mini", vec![Message::user("hello")]);
    let req = GatewayRequest::from_params(params);
    assert_eq!(req.model, "openai:gpt-4o-mini");
    assert_eq!(req.messages.len(), 1);
    assert_eq!(str_at(&req.messages[0], "role"), Some("user"));
    assert_eq!(str_at(&req.messages[0], "content"), Some("hello"));
    assert!(req.stream.is_none());
}

#[test]
fn test_system_and_assistant_messages() {
    let params = CompletionParams::new(
        "model",
        vec![Message::system("You are helpful."), Message::user("Hi"), Message::assistant("Hello!")],
    );
    let req = GatewayRequest::from_params(params);
    assert_eq!(req.messages.len(), 3);
    assert_eq!(str_at(&req.messages[0], "role"), Some("system"));
    assert_eq!(str_at(&req.messages[1], "role"), Some("user"));
    assert_eq!(str_at(&req.messages[2], "role"), Some("assistant"));
}

#[test]
fn test_optional_params_forwarded() {
    let params = CompletionParams::new("model", vec![Message::user("hi")])
        .with_temperature(Float32(0.5f32.to_bits()))
        .with_max_tokens(100)
        .with_reasoning_effort(ReasoningEffort::High)
        .with_tool_choice(ToolChoice::auto());

    let req = GatewayRequest::from_params(params);
    assert_eq!(req.temperature, Some(Float32(0.5f32.to_bits())));
    assert_eq!(req.max_tokens, Some(100));
    assert_eq!(req.reasoning_effort.as_deref(), Some("high"));
    assert!(req.tool_choice.is_some());
}

#[test]
fn test_stream_method() {
    let params = CompletionParams::new("model", vec![Message::user("hi")]);
    let req = GatewayRequest::from_params(params).stream();
    assert_eq!(req.stream, Some(true));
    assert!(req.stream_options.is_some());
    assert!(matches!(req.stream_options.as_ref().unwrap().get("include_usage"), Some(JsonValue::Bool(true))));
}

#[test]
fn request_json_shapes() {
    let mut params = CompletionParams::new("m", vec![Message::user("hi")])
        .with_tools(vec![Tool::function("f", "does f").build()])
        .with_tool_choice(ToolChoice::function("f"))
        .with_reasoning_effort(ReasoningEffort::Disabled);
    params.stop = Some(StopSequence::multiple(vec!["a".to_string(), "b".to_string()]));
    let req = GatewayRequest::from_params(params);
    match req.tools.as_ref().unwrap() {
        JsonValue::Array(ts) => {
            assert_eq!(str_at(&ts[0], "type"), Some("function"));
            assert_eq!(str_at(ts[0].get("function").unwrap(), "name"), Some("f"));
            assert_eq!(str_at(ts[0].get("function").unwrap(), "description"), Some("does f"));
        },
        _ => panic!("expected tools"),
    }
    let choice = req.tool_choice.as_ref().unwrap();
    assert_eq!(str_at(choice, "type"), Some("function"));
    assert_eq!(str_at(choice.get("function").unwrap(), "name"), Some("f"));
    assert!(matches!(req.stop.as_ref(), Some(JsonValue::Array(a)) if a.len() == 2));
    assert_eq!(req.reasoning_effort.as_deref(), Some("none"));
}

#[test]
fn message_json_carries_parts_tool_calls_and_name() {
    let mut msg = Message::user_with_parts(vec![
        ContentPart::text("look"),
        ContentPart::ImageUrl { image_url: otari::ImageUrl::new("https://i").with_detail("low") },
    ])
    .with_name("ann");
    msg.tool_call_id = Some("c1".to_string());
    let v = convert_message(&msg);
    assert_eq!(str_at(&v, "name"), Some("ann"));
    assert_eq!(str_at(&v, "tool_call_id"), Some("c1"));
    match v.get("content") {
        Some(JsonValue::Array(parts)) => {
            assert_eq!(str_at(&parts[0], "type"), Some("text"));
            let image = parts[1].get("image_url").unwrap();
            assert_eq!(str_at(image, "url"), Some("https://i"));
            assert_eq!(str_at(image, "detail"), Some("low"));
        },
        _ => panic!("expected parts"),
    }
    let calls = Message::assistant_with_tool_calls(vec![ToolCall::new("id1", "f", "{}")]);
    let v = convert_message(&calls);
    assert!(matches!(v.get("content"), Some(JsonValue::Null)));
    match v.get("tool_calls") {
        Some(JsonValue::Array(tcs)) => {
            assert_eq!(str_at(&tcs[0], "id"), Some("id1"));
            assert_eq!(str_at(&tcs[0], "type"), Some("function"));
            assert_eq!(str_at(tcs[0].get("function").unwrap(), "arguments"), Some("{}"));
        },
        _ => panic!("expected tool calls"),
    }
}

fn message(content: Option<&str>, extra: Vec<(&str, JsonValue)>) -> GatewayMessage {
    GatewayMessage {
        role: Some("assistant".to_string()),
        content: content.map(|s| s.to_string()),
        tool_calls: None,
        refusal: None,
        extra: extra.into_iter().map(|(k, v)| (k.to_string(), v)).collect(),
    }
}

fn response(msg: GatewayMessage, finish: &str, usage: Option<GatewayUsage>) -> GatewayResponse {
    GatewayResponse {
        id: "chatcmpl-abc".to_string(),
        object: default_object(),
        created: 1_700_000_000,
        model: "openai:gpt-4o-mini".to_string(),
        choices: vec![GatewayChoice {
            index: 0,
            message: msg,
            finish_reason: Some(finish.to_string()),
            logprobs: None,
        }],
        usage,
        system_fingerprint: None,
    }
}

#[test]
fn test_basic_response_conversion() {
    let resp = response(
        message(Some("Hello!"), vec![]),
        "stop",
        Some(GatewayUsage { prompt_tokens: 10, completion_tokens: 5, total_tokens: 15 }),
    );
    let completion = resp.to_completion();
    assert_eq!(completion.id, "chatcmpl-abc");
    assert_eq!(completion.object, "chat.completion");
    assert_eq!(completion.content(), Some("Hello!"));
    assert_eq!(completion.finish_reason(), Some("stop"));
    assert_eq!(completion.usage.unwrap().total_tokens, 15);
    assert_eq!(completion.choices[0].message.role, Role::Assistant);
}

#[test]
fn test_reasoning_content_extraction() {
    let resp = response(
        message(Some("result"), vec![("reasoning_content", JsonValue::string("I thought about it"))]),
        "stop",
        None,
    );
    let completion = resp.to_completion();
    assert_eq!(completion.reasoning(), Some("I thought about it"));
}

#[test]
fn test_thinking_field_extraction() {
    let resp = response(
        message(Some("result"), vec![("thinking", JsonValue::string("deep thoughts"))]),
        "stop",
        None,
    );
    let completion = resp.to_completion();
    assert_eq!(completion.reasoning(), Some("deep thoughts"));
}

#[test]
fn test_tool_calls_conversion() {
    let mut msg = message(None, vec![]);
    msg.tool_calls = Some(vec![GatewayToolCall {
        id: "call_1".to_string(),
        tool_type: "function".to_string(),
        function: GatewayFunction {
            name: "get_weather".to_string(),
            arguments: "{\"city\":\"Paris\"}".to_string(),
        },
    }]);
    let completion = response(msg, "tool_calls", None).to_completion();
    let tc = completion.tool_calls().unwrap();
    assert_eq!(tc.len(), 1);
    assert_eq!(tc[0].function.name, "get_weather");
}

#[test]
fn reasoning_field_precedence_and_shapes() {
    let extra = vec![
        ("think".to_string(), JsonValue::string("last")),
        ("reasoning".to_string(), JsonValue::string("")),
        (
            "thinking".to_string(),
            JsonValue::object(vec![("content".to_string(), JsonValue::string("nested"))]),
        ),
    ];
    assert_eq!(extract_reasoning(&extra).unwrap().content, "nested");
    let none = vec![("reasoning".to_string(), JsonValue::Null)];
    assert!(extract_reasoning(&none).is_none());
}

#[test]
fn raw_chunk_defaults() {
    let raw = GatewayChunkRaw {
        id: None,
        object: None,
        created: None,
        model: None,
        choices: Some(vec![RawChunkChoice {
            index: None,
            delta: Some(RawDelta {
                role: Some("assistant".to_string()),
                content: Some("Hel".to_string()),
                tool_calls: Some(vec![RawToolCallDelta {
                    index: Some(1),
                    id: Some("c".to_string()),
                    tool_type: Some("function".to_string()),
                    function: Some(RawFunctionDelta { name: Some("f".to_string()), arguments: Some("{".to_string()) }),
                }]),
                refusal: None,
                extra: vec![("reasoning".to_string(), JsonValue::string("r"))],
            }),
            finish_reason: None,
            logprobs: None,
        }]),
        usage: Some(RawUsage { prompt_tokens: Some(3), completion_tokens: Some(4), total_tokens: None }),
        system_fingerprint: None,
    };
    let chunk = raw.into_chunk("fallback");
    assert_eq!(chunk.id, "");
    assert_eq!(chunk.object, "chat.completion.chunk");
    assert_eq!(chunk.created, 0);
    assert_eq!(chunk.model, "fallback");
    assert_eq!(chunk.content(), Some("Hel"));
    assert_eq!(chunk.reasoning(), Some("r"));
    assert_eq!(chunk.choices[0].index, 0);
    assert_eq!(chunk.choices[0].delta.role, Some(Role::Assistant));
    assert_eq!(chunk.tool_calls().unwrap()[0].index, Some(1));
    assert_eq!(chunk.usage.unwrap().total_tokens, 7);
    assert!(keep_chunk(&chunk));
    let empty = GatewayChunkRaw {
        id: Some("x".to_string()),
        object: None,
        created: Some(5),
        model: Some("m".to_string()),
        choices: None,
        usage: Some(RawUsage { prompt_tokens: None, completion_tokens: None, total_tokens: Some(9) }),
        system_fingerprint: Some("fp".to_string()),
    }
    .into_chunk("fallback");
    assert_eq!(empty.model, "m");
    assert_eq!(empty.usage.unwrap().total_tokens, 9);
    assert!(!keep_chunk(&empty));
}

#[test]
fn done_sentinel() {
    assert!(is_done_sentinel("[DONE]"));
    assert!(is_done_sentinel("  [DONE]\n"));
    assert!(!is_done_sentinel("[DONE]x"));
    assert!(!is_done_sentinel("{\"id\":1}"));
}
