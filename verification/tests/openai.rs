use otari::openai::{
    convert_error, convert_message, convert_tool, convert_tool_choice, finish_reason_text,
    ImageDetail, OpenAIChoice, OpenAIDelta, OpenAIFinishReason, OpenAIMessage, OpenAIRequest,
    OpenAIResponse, OpenAIResponseMessage, OpenAIStreamChoice, OpenAIStreamResponse,
    OpenAIToolCall, OpenAIToolCallDelta, OpenAIToolChoice, OpenAIToolType, UserContent,
    UserContentPart,
};
use otari::types::tool::FunctionDelta;
use otari::{
    CompletionParams, CompletionUsage, ContentPart, Float32, Message, OtariError, Role,
    StopSequence, Tool, ToolCall, ToolChoice,
};

#[test]
fn openai_test_convert_message_system() {
    let msg = Message::system("You are a helpful assistant.");
    let result = convert_message(&msg);
    assert!(result.is_ok());
}

#[test]
fn openai_test_convert_message_user() {
    let msg = Message::user("Hello!");
    let result = convert_message(&msg);
    assert!(result.is_ok());
}

#[test]
fn openai_test_convert_message_user_with_image() {
    let parts = vec![
        ContentPart::text("What's in this image?"),
        ContentPart::image_url("https://example.com/image.png"),
    ];
    let msg = Message::user_with_parts(parts);
    let result = convert_message(&msg);
    assert!(result.is_ok());
}

#[test]
fn openai_test_convert_tool_choice_auto() {
    let result = convert_tool_choice(&ToolChoice::auto());
    assert!(matches!(result, OpenAIToolChoice::Auto));
}

#[test]
fn openai_test_convert_tool_choice_required() {
    let result = convert_tool_choice(&ToolChoice::required());
    assert!(matches!(result, OpenAIToolChoice::Required));
}

#[test]
fn openai_test_convert_tool_choice_specific() {
    let result = convert_tool_choice(&ToolChoice::function("my_function"));
    assert!(matches!(result, OpenAIToolChoice::Named { .. }));
}

#[test]
fn message_test_convert_message_system() {
    let msg = Message::system("You are a helpful assistant.");
    let result = convert_message(&msg);
    assert!(result.is_ok());
}

#[test]
fn message_test_convert_message_user() {
    let msg = Message::user("Hello!");
    let result = convert_message(&msg);
    assert!(result.is_ok());
}

#[test]
fn message_test_convert_message_user_with_image() {
    let parts = vec![
        ContentPart::text("What's in this image?"),
        ContentPart::image_url("https://example.com/image.png"),
    ];
    let msg = Message::user_with_parts(parts);
    let result = convert_message(&msg);
    assert!(result.is_ok());
}

#[test]
fn tool_test_convert_tool_choice_auto() {
    let result = convert_tool_choice(&ToolChoice::auto());
    assert!(matches!(result, OpenAIToolChoice::Auto));
}

#[test]
fn tool_test_convert_tool_choice_required() {
    let result = convert_tool_choice(&ToolChoice::required());
    assert!(matches!(result, OpenAIToolChoice::Required));
}

#[test]
fn tool_test_convert_tool_choice_specific() {
    let result = convert_tool_choice(&ToolChoice::function("my_function"));
    assert!(matches!(result, OpenAIToolChoice::Named { .. }));
}

#[test]
fn openai_tool_choice_none_and_unknown_modes() {
    assert!(matches!(convert_tool_choice(&ToolChoice::none()), OpenAIToolChoice::NoTools));
    let other = ToolChoice::Mode("sometimes".to_string());
    assert!(matches!(convert_tool_choice(&other), OpenAIToolChoice::Auto));
    match convert_tool_choice(&ToolChoice::function("my_function")) {
        OpenAIToolChoice::Named { name } => assert_eq!(name, "my_function"),
        _ => panic!("expected a named choice"),
    }
}

#[test]
fn openai_system_and_tool_messages_carry_text() {
    match convert_message(&Message::system("Be brief.")).unwrap() {
        OpenAIMessage::System { content } => assert_eq!(content, "Be brief."),
        _ => panic!("expected a system message"),
    }
    match convert_message(&Message::tool("call_123", "{\"temperature\": \"22C\"}")).unwrap() {
        OpenAIMessage::Tool { content, tool_call_id } => {
            assert_eq!(content, "{\"temperature\": \"22C\"}");
            assert_eq!(tool_call_id, "call_123");
        }
        _ => panic!("expected a tool message"),
    }
}

#[test]
fn openai_user_parts_keep_image_detail() {
    let mut image = ContentPart::image_url("https://example.com/a.png");
    if let ContentPart::ImageUrl { image_url } = &mut image {
        image_url.detail = Some("high".to_string());
    }
    let msg = Message::user_with_parts(vec![
        ContentPart::text("Look"),
        image,
        ContentPart::image_url("https://example.com/b.png"),
    ]);
    match convert_message(&msg).unwrap() {
        OpenAIMessage::User { content: UserContent::Array(parts) } => {
            assert_eq!(parts.len(), 3);
            assert!(matches!(&parts[0], UserContentPart::Text { text } if text == "Look"));
            match &parts[1] {
                UserContentPart::ImageUrl { image_url } => {
                    assert_eq!(image_url.url, "https://example.com/a.png");
                    assert_eq!(image_url.detail, Some(ImageDetail::High));
                }
                _ => panic!("expected an image"),
            }
            match &parts[2] {
                UserContentPart::ImageUrl { image_url } => {
                    assert_eq!(image_url.detail, Some(ImageDetail::Auto));
                }
                _ => panic!("expected an image"),
            }
        }
        _ => panic!("expected user parts"),
    }
}

#[test]
fn openai_assistant_message_keeps_tool_calls() {
    let msg = Message::assistant_with_tool_calls(vec![ToolCall::new(
        "call_123",
        "get_weather",
        "{\"location\":\"Paris\"}",
    )]);
    match convert_message(&msg).unwrap() {
        OpenAIMessage::Assistant { content, tool_calls } => {
            assert!(content.is_none());
            let calls = tool_calls.unwrap();
            assert_eq!(calls.len(), 1);
            assert_eq!(calls[0].id, "call_123");
            assert_eq!(calls[0].name, "get_weather");
            assert_eq!(calls[0].arguments, "{\"location\":\"Paris\"}");
        }
        _ => panic!("expected an assistant message"),
    }
}

#[test]
fn openai_request_carries_parameters() {
    let mut params = CompletionParams::new(
        "gpt-4o-mini",
        vec![Message::system("Be brief."), Message::user("Hi")],
    );
    params.temperature = Some(Float32(0x3f00_0000));
    params.max_tokens = Some(50);
    params.seed = Some(7);
    params.user = Some("u-1".to_string());
    params.stop = Some(StopSequence::Single("END".to_string()));
    params.tools = Some(vec![Tool::function("get_weather", "Get weather").build()]);
    params.tool_choice = Some(ToolChoice::required());
    params.parallel_tool_calls = Some(false);
    let req = OpenAIRequest::try_from(params).unwrap();
    assert_eq!(req.model, "gpt-4o-mini");
    assert_eq!(req.messages.len(), 2);
    assert!(req.stream);
    assert_eq!(req.temperature, Some(Float32(0x3f00_0000)));
    assert_eq!(req.max_tokens, Some(50));
    assert_eq!(req.seed, Some(7));
    assert_eq!(req.user.as_deref(), Some("u-1"));
    assert_eq!(req.stop, Some(vec!["END".to_string()]));
    let tools = req.tools.unwrap();
    assert_eq!(tools.len(), 1);
    assert_eq!(tools[0].name, "get_weather");
    assert_eq!(tools[0].description.as_deref(), Some("Get weather"));
    assert!(matches!(req.tool_choice, Some(OpenAIToolChoice::Required)));
    assert_eq!(req.parallel_tool_calls, Some(false));
}

#[test]
fn openai_convert_tool_keeps_function() {
    let tool = Tool::function("lookup", "Look something up").build();
    let out = convert_tool(tool);
    assert_eq!(out.name, "lookup");
    assert_eq!(out.description.as_deref(), Some("Look something up"));
}

#[test]
fn openai_finish_reason_names() {
    assert_eq!(finish_reason_text(OpenAIFinishReason::Stop), "stop");
    assert_eq!(finish_reason_text(OpenAIFinishReason::Length), "length");
    assert_eq!(finish_reason_text(OpenAIFinishReason::ToolCalls), "toolcalls");
    assert_eq!(finish_reason_text(OpenAIFinishReason::ContentFilter), "contentfilter");
    assert_eq!(finish_reason_text(OpenAIFinishReason::FunctionCall), "functioncall");
}

#[test]
fn openai_response_to_completion() {
    let resp = OpenAIResponse {
        id: "chatcmpl-1".to_string(),
        created: 1_700_000_000,
        model: "gpt-4o-mini".to_string(),
        choices: vec![OpenAIChoice {
            index: 0,
            message: OpenAIResponseMessage {
                content: Some("Hello!".to_string()),
                tool_calls: Some(vec![OpenAIToolCall {
                    id: "call_1".to_string(),
                    name: "get_weather".to_string(),
                    arguments: "{}".to_string(),
                }]),
                refusal: None,
            },
            finish_reason: Some(OpenAIFinishReason::ToolCalls),
        }],
        usage: Some(CompletionUsage { prompt_tokens: 5, completion_tokens: 10, total_tokens: 15 }),
        system_fingerprint: Some("fp_1".to_string()),
    };
    let c = resp.to_completion();
    assert_eq!(c.id, "chatcmpl-1");
    assert_eq!(c.object, "chat.completion");
    assert_eq!(c.created, 1_700_000_000);
    assert_eq!(c.model, "gpt-4o-mini");
    assert_eq!(c.choices.len(), 1);
    let choice = &c.choices[0];
    assert_eq!(choice.message.role, Role::Assistant);
    assert_eq!(choice.message.content.as_deref(), Some("Hello!"));
    assert_eq!(choice.finish_reason.as_deref(), Some("toolcalls"));
    let calls = choice.message.tool_calls.as_ref().unwrap();
    assert_eq!(calls[0].id, "call_1");
    assert_eq!(calls[0].tool_type, "function");
    assert_eq!(calls[0].function.name, "get_weather");
    assert_eq!(c.usage.unwrap().total_tokens, 15);
    assert_eq!(c.system_fingerprint.as_deref(), Some("fp_1"));
}

#[test]
fn openai_stream_chunk_conversion() {
    let resp = OpenAIStreamResponse {
        id: "chatcmpl-2".to_string(),
        created: 42,
        model: "gpt-4o-mini".to_string(),
        choices: vec![OpenAIStreamChoice {
            index: 0,
            delta: OpenAIDelta {
                role: Some(Role::User),
                content: Some("Hel".to_string()),
                tool_calls: Some(vec![OpenAIToolCallDelta {
                    index: 3,
                    id: Some("call_9".to_string()),
                    tool_type: Some(OpenAIToolType::Function),
                    function: Some(FunctionDelta {
                        name: Some("f".to_string()),
                        arguments: Some("{\"a\"".to_string()),
                    }),
                }]),
                refusal: None,
            },
            finish_reason: Some(OpenAIFinishReason::Stop),
        }],
        usage: None,
        system_fingerprint: None,
    };
    let chunk = resp.to_chunk();
    assert_eq!(chunk.object, "chat.completion.chunk");
    assert_eq!(chunk.created, 42);
    let choice = &chunk.choices[0];
    assert_eq!(choice.delta.role, Some(Role::Assistant));
    assert_eq!(choice.delta.content.as_deref(), Some("Hel"));
    assert_eq!(choice.finish_reason.as_deref(), Some("stop"));
    let tc = &choice.delta.tool_calls.as_ref().unwrap()[0];
    assert_eq!(tc.index, Some(3));
    assert_eq!(tc.id.as_deref(), Some("call_9"));
    assert_eq!(tc.tool_type.as_deref(), Some("function"));
    assert_eq!(tc.function.as_ref().unwrap().arguments.as_deref(), Some("{\"a\""));
    assert!(chunk.usage.is_none());
}

#[test]
fn openai_error_messages_map_to_kinds() {
    assert!(matches!(convert_error("Rate limit reached"), OtariError::Provider { .. }));
    assert!(matches!(convert_error("rate limit reached"), OtariError::RateLimit { .. }));
    assert!(matches!(convert_error("status 401"), OtariError::Authentication { .. }));
    match convert_error("model not found") {
        OtariError::ModelNotFound { model, provider } => {
            assert_eq!(model, "unknown");
            assert_eq!(provider, "openai");
        }
        other => panic!("unexpected {:?}", other),
    }
    assert!(matches!(convert_error("400 bad request"), OtariError::InvalidRequest { .. }));
    assert!(matches!(convert_error("boom"), OtariError::Provider { .. }));
}
