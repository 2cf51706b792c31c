use otari::anthropic::AnthropicStreamEvent;
use otari::gateway::GatewayChunkRaw;
use otari::json::JsonValue;
use otari::stream::{
    anthropic_decoded, anthropic_step, gateway_decoded, gateway_step, raw_decoded, raw_step,
    SseEvent, StreamStep,
};
use otari::OtariError;

fn streaming_parts(e: &OtariError) -> (String, String) {
    match e {
        OtariError::Streaming { message, provider } => (message.clone(), provider.clone()),
        other => panic!("expected a streaming error, got {:?}", other),
    }
}

#[test]
fn gateway_open_emits_an_empty_chunk() {
    match gateway_step(&SseEvent::Opened, "m") {
        StreamStep::Emit(c) => {
            assert_eq!(c.model, "m");
            assert!(c.choices.is_empty());
        }
        other => panic!("unexpected {:?}", other),
    }
}

#[test]
fn gateway_done_and_end_stop() {
    assert!(matches!(gateway_step(&SseEvent::Message(" [DONE]\n".to_string()), "m"), StreamStep::Stop));
    assert!(matches!(gateway_step(&SseEvent::Ended, "m"), StreamStep::Stop));
    assert!(matches!(gateway_step(&SseEvent::Message("{}".to_string()), "m"), StreamStep::Decode));
}

#[test]
fn gateway_failure_is_a_streaming_error() {
    match gateway_step(&SseEvent::Failed("reset".to_string()), "m") {
        StreamStep::Fail(e) => assert_eq!(streaming_parts(&e), ("reset".to_string(), "otari".to_string())),
        other => panic!("unexpected {:?}", other),
    }
}

#[test]
fn gateway_decoded_chunk_or_parse_error() {
    let raw = GatewayChunkRaw {
        id: Some("x".to_string()),
        object: None,
        created: Some(5),
        model: None,
        choices: None,
        usage: None,
        system_fingerprint: None,
    };
    let c = gateway_decoded(Ok(raw), "fallback").unwrap();
    assert_eq!(c.id, "x");
    assert_eq!(c.model, "fallback");
    let e = gateway_decoded(Err("bad".to_string()), "m").unwrap_err();
    assert_eq!(streaming_parts(&e), ("Failed to parse chunk: bad".to_string(), "otari".to_string()));
}

#[test]
fn anthropic_steps() {
    assert!(matches!(anthropic_step(&SseEvent::Opened, "m"), StreamStep::Emit(_)));
    assert!(matches!(anthropic_step(&SseEvent::Message("[DONE]".to_string()), "m"), StreamStep::Decode));
    assert!(matches!(anthropic_step(&SseEvent::Ended, "m"), StreamStep::Stop));
    match anthropic_step(&SseEvent::Failed("boom".to_string()), "m") {
        StreamStep::Fail(e) => assert_eq!(streaming_parts(&e), ("boom".to_string(), "anthropic".to_string())),
        other => panic!("unexpected {:?}", other),
    }
}

#[test]
fn anthropic_decoded_skips_what_carries_nothing() {
    let none = anthropic_decoded(None, "m");
    assert!(none.choices.is_empty());
    assert_eq!(none.model, "m");
    let ping = AnthropicStreamEvent {
        event_type: "ping".to_string(),
        index: None,
        content_block: None,
        delta: None,
        usage: None,
    };
    assert!(anthropic_decoded(Some(ping), "m").choices.is_empty());
    let stop = AnthropicStreamEvent {
        event_type: "message_stop".to_string(),
        index: None,
        content_block: None,
        delta: None,
        usage: None,
    };
    let c = anthropic_decoded(Some(stop), "m");
    assert_eq!(c.choices.len(), 1);
}

#[test]
fn raw_steps_and_decoding() {
    assert!(matches!(raw_step(&SseEvent::Opened), StreamStep::Skip));
    assert!(matches!(raw_step(&SseEvent::Message("[DONE]".to_string())), StreamStep::Stop));
    assert!(matches!(raw_step(&SseEvent::Message("{\"a\":1}".to_string())), StreamStep::Decode));
    let v = raw_decoded("{\"a\": 1}").unwrap();
    assert!(matches!(v.get("a"), Some(JsonValue::Number(n)) if n == "1"));
    let e = raw_decoded("{oops").unwrap_err();
    let (message, provider) = streaming_parts(&e);
    assert!(message.starts_with("Failed to parse event: "));
    assert!(message.len() > "Failed to parse event: ".len());
    assert_eq!(provider, "otari");
}
