use otari::anthropic::{
    AnthropicResponse, AnthropicStreamEvent, AnthropicUsage, ContentBlock, StreamContentBlock,
    StreamDelta, StreamUsage,
};
use otari::json::JsonValue;
use otari::types::{AccumulatedToolCall, FunctionDelta};
use otari::{ChatCompletionChunk, ChoiceDelta, ChunkAccumulator, ChunkChoice, CompletionUsage, ToolCallDelta};

fn event(kind: &str) -> AnthropicStreamEvent {
    AnthropicStreamEvent {
        event_type: kind.to_string(),
        index: None,
        content_block: None,
        delta: None,
        usage: None,
    }
}

fn delta(kind: &str) -> StreamDelta {
    StreamDelta { delta_type: Some(kind.to_string()), text: None, partial_json: None, thinking: None, stop_reason: None }
}

#[test]
fn text_and_tool_stream_events() {
    let mut start = event("content_block_start");
    start.index = Some(2);
    start.content_block = Some(StreamContentBlock { block_type: "tool_use".to_string(), id: Some("tu_1".to_string()), name: Some("get".to_string()) });
    let chunk = start.to_chat_completion_chunk("model-x").unwrap();
    assert_eq!(chunk.id, "chatcmpl-2");
    assert_eq!(chunk.model, "model-x");
    let tc = &chunk.tool_calls().unwrap()[0];
    assert_eq!(tc.index, Some(0));
    assert_eq!(tc.id.as_deref(), Some("tu_1"));
    assert_eq!(tc.tool_type.as_deref(), Some("function"));
    assert_eq!(tc.function.as_ref().unwrap().arguments.as_deref(), Some(""));

    let mut text = event("content_block_delta");
    let mut d = delta("text_delta");
    d.text = Some("Hi".to_string());
    text.delta = Some(d);
    assert_eq!(text.to_chat_completion_chunk("m").unwrap().content(), Some("Hi"));

    let mut json = event("content_block_delta");
    let mut d = delta("input_json_delta");
    d.partial_json = Some("{\"a\"".to_string());
    json.delta = Some(d);
    let c = json.to_chat_completion_chunk("m").unwrap();
    assert_eq!(c.tool_calls().unwrap()[0].function.as_ref().unwrap().arguments.as_deref(), Some("{\"a\""));

    let mut thinking = event("content_block_delta");
    let mut d = delta("thinking_delta");
    d.thinking = Some("hmm".to_string());
    thinking.delta = Some(d);
    assert_eq!(thinking.to_chat_completion_chunk("m").unwrap().reasoning(), Some("hmm"));

    let mut unknown = event("content_block_delta");
    unknown.delta = Some(delta("signature_delta"));
    assert!(unknown.to_chat_completion_chunk("m").is_none());
    assert!(event("content_block_stop").to_chat_completion_chunk("m").is_none());
    assert!(event("ping").to_chat_completion_chunk("m").is_none());
}

#[test]
fn message_events_finish_and_usage() {
    let stop = event("message_stop").to_chat_completion_chunk("m").unwrap();
    assert_eq!(stop.finish_reason(), Some("stop"));
    assert!(stop.is_final());

    let mut md = event("message_delta");
    let mut d = delta("message_delta");
    d.stop_reason = Some("max_tokens".to_string());
    md.delta = Some(d);
    md.usage = Some(StreamUsage { input_tokens: None, output_tokens: Some(12) });
    let c = md.to_chat_completion_chunk("m").unwrap();
    assert_eq!(c.finish_reason(), Some("length"));
    let u = c.usage.unwrap();
    assert_eq!((u.prompt_tokens, u.completion_tokens, u.total_tokens), (0, 12, 12));
}

#[test]
fn anthropic_response_conversion() {
    let block = |t: &str| ContentBlock { block_type: t.to_string(), text: None, id: None, name: None, input: None, thinking: None };
    let mut t1 = block("text");
    t1.text = Some("Hello ".to_string());
    let mut t2 = block("text");
    t2.text = Some("world".to_string());
    let mut tu = block("tool_use");
    tu.id = Some("tu".to_string());
    tu.name = Some("f".to_string());
    tu.input = Some(JsonValue::object(vec![("a".to_string(), JsonValue::Number("1".to_string()))]));
    let mut th1 = block("thinking");
    th1.thinking = Some("a".to_string());
    let mut th2 = block("thinking");
    th2.thinking = Some("b".to_string());
    let resp = AnthropicResponse {
        id: "msg_1".to_string(),
        model: "model-x".to_string(),
        content: vec![th1, t1, tu, t2, th2, block("other")],
        stop_reason: Some("tool_use".to_string()),
        usage: AnthropicUsage { input_tokens: 7, output_tokens: 3 },
    };
    let c = resp.to_completion();
    assert_eq!(c.id, "msg_1");
    assert_eq!(c.object, "chat.completion");
    assert_eq!(c.content(), Some("Hello world"));
    assert_eq!(c.reasoning(), Some("ab"));
    assert_eq!(c.finish_reason(), Some("tool_calls"));
    let tcs = c.tool_calls().unwrap();
    assert_eq!(tcs.len(), 1);
    assert_eq!(tcs[0].function.arguments, "{\"a\":1}");
    assert_eq!(c.usage.unwrap().total_tokens, 10);
    let empty = AnthropicResponse {
        id: "x".to_string(),
        model: "m".to_string(),
        content: vec![],
        stop_reason: Some("end_turn".to_string()),
        usage: AnthropicUsage { input_tokens: 0, output_tokens: 0 },
    }
    .to_completion();
    assert_eq!(empty.content(), None);
    assert!(empty.tool_calls().is_none());
    assert_eq!(empty.finish_reason(), Some("stop"));
}

fn chunk(id: &str, content: Option<&str>, tools: Option<Vec<ToolCallDelta>>, finish: Option<&str>, usage: Option<CompletionUsage>) -> ChatCompletionChunk {
    let mut d = ChoiceDelta::empty();
    d.content = content.map(|s| s.to_string());
    d.tool_calls = tools;
    ChatCompletionChunk {
        id: id.to_string(),
        object: "chat.completion.chunk".to_string(),
        created: 0,
        model: format!("model-{id}"),
        choices: vec![ChunkChoice { index: 0, delta: d, finish_reason: finish.map(|s| s.to_string()), logprobs: None }],
        usage,
        system_fingerprint: None,
    }
}

fn tool(index: u32, id: Option<&str>, name: Option<&str>, args: &str) -> ToolCallDelta {
    ToolCallDelta {
        index: Some(index),
        id: id.map(|s| s.to_string()),
        tool_type: id.map(|_| "function".to_string()),
        function: Some(FunctionDelta { name: name.map(|s| s.to_string()), arguments: Some(args.to_string()) }),
    }
}

#[test]
fn accumulator_folds_a_stream() {
    let mut acc = ChunkAccumulator::new();
    assert!(!acc.has_content() && !acc.has_reasoning() && !acc.has_tool_calls());
    acc.add(&chunk("a", Some("Hel"), None, None, None));
    acc.add(&chunk("b", Some("lo"), Some(vec![tool(1, Some("c1"), Some("f"), "{\"x\"")]), None, None));
    acc.add(&chunk("c", None, Some(vec![tool(1, None, None, ":1}")]), None, Some(CompletionUsage::new(1, 2))));
    acc.add(&chunk("d", None, None, Some("stop"), Some(CompletionUsage::new(3, 4))));
    assert_eq!(acc.content, "Hello");
    assert_eq!(acc.id.as_deref(), Some("a"));
    assert_eq!(acc.model.as_deref(), Some("model-a"));
    assert_eq!(acc.finish_reason.as_deref(), Some("stop"));
    assert_eq!(acc.usage.unwrap().total_tokens, 7);
    assert!(acc.has_content() && acc.has_tool_calls());
    assert_eq!(acc.tool_calls.len(), 2);
    let empty_slot: &AccumulatedToolCall = &acc.tool_calls[0];
    assert_eq!(empty_slot.arguments, "");
    let call = &acc.tool_calls[1];
    assert_eq!(call.id, "c1");
    assert_eq!(call.name, "f");
    assert_eq!(call.tool_type, "function");
    assert_eq!(call.arguments, "{\"x\":1}");
}
