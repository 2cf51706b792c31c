//! The decisions a completion stream makes on each server-sent event: stop,
//! pass on an empty chunk, decode the payload, or fail; and what a decoded
//! payload becomes.

use vstd::prelude::*;

use crate::anthropic::{AnthropicStreamEvent, event_chunk, event_outcome, event_usage_fits};
use crate::error::{ErrorView, OtariError, serde_error_text};
use crate::gateway::{GatewayChunkRaw, chunk_from, is_done_data, is_done_sentinel, raw_usage_fits};
use crate::json::{JsonValue, json_parse, parse_json_text};
use crate::text::concat2;
use crate::types::chunk::{ChatCompletionChunk, chunk_object};

verus! {

/// An event of a server-sent event stream, as the transport reports it.
#[derive(Debug, Clone)]
pub enum SseEvent {
    /// The connection opened.
    Opened,
    /// A message arrived, with its data.
    Message(String),
    /// The stream ended normally.
    Ended,
    /// The transport failed, with the failure's text.
    Failed(String),
}

/// What a stream does with one event.
#[derive(Debug)]
pub enum StreamStep {
    /// The stream is over.
    Stop,
    /// Nothing is passed on for this event.
    Skip,
    /// Pass on this chunk (subject to the empty-chunk filter).
    Emit(ChatCompletionChunk),
    /// Decode the message's data.
    Decode,
    /// Pass on this error.
    Fail(OtariError),
}

/// `c` is the empty chunk for `model`: no id, no choices, no usage.
pub open spec fn is_empty_chunk(c: ChatCompletionChunk, model: Seq<char>) -> bool {
    &&& c.id@ == Seq::<char>::empty()
    &&& c.object@ == chunk_object()
    &&& c.created == 0
    &&& c.model@ == model
    &&& c.choices@.len() == 0
    &&& c.usage is None
    &&& c.system_fingerprint is None
}

/// `e` is the streaming error of `provider` with the message `message`.
pub open spec fn is_streaming_error(e: OtariError, provider: Seq<char>, message: Seq<char>) -> bool {
    e@ == ErrorView::Streaming { message, provider }
}

/// The gateway stream's step: an open connection gives an empty chunk, the
/// `[DONE]` sentinel and the end of the stream stop it, other messages are
/// decoded, and a transport failure is a streaming error of the gateway.
pub open spec fn gateway_step_is(r: StreamStep, ev: SseEvent, model: Seq<char>) -> bool {
    match ev {
        SseEvent::Opened => r matches StreamStep::Emit(c) && is_empty_chunk(c, model),
        SseEvent::Message(d) => if is_done_data(d@) {
            r is Stop
        } else {
            r is Decode
        },
        SseEvent::Ended => r is Stop,
        SseEvent::Failed(t) => r matches StreamStep::Fail(e) && is_streaming_error(e, "otari"@, t@),
    }
}

/// Decide what the gateway stream does with `event`.
pub fn gateway_step(event: &SseEvent, model: &str) -> (r: StreamStep)
    ensures
        gateway_step_is(r, *event, model@),
{
    match event {
        SseEvent::Opened => StreamStep::Emit(ChatCompletionChunk::empty(model)),
        SseEvent::Message(data) => if is_done_sentinel(data.as_str()) {
            StreamStep::Stop
        } else {
            StreamStep::Decode
        },
        SseEvent::Ended => StreamStep::Stop,
        SseEvent::Failed(text) => StreamStep::Fail(
            OtariError::Streaming { message: text.clone(), provider: String::from_str("otari") },
        ),
    }
}

/// What a decoded gateway message becomes: its chunk, or, where the data did
/// not parse (`parsed` holds the parser's message), a streaming error of the
/// gateway that says so.
pub fn gateway_decoded(parsed: Result<GatewayChunkRaw, String>, model: &str) -> (r: Result<
    ChatCompletionChunk,
    OtariError,
>)
    requires
        parsed matches Ok(raw) ==> (raw.usage matches Some(u) ==> raw_usage_fits(u)),
    ensures
        match parsed {
            Ok(raw) => r matches Ok(c) && chunk_from(c, raw, model@),
            Err(m) => r matches Err(e) && is_streaming_error(
                e,
                "otari"@,
                "Failed to parse chunk: "@ + m@,
            ),
        },
{
    match parsed {
        Ok(raw) => Ok(raw.into_chunk(model)),
        Err(m) => Err(
            OtariError::Streaming {
                message: concat2("Failed to parse chunk: ", m.as_str()),
                provider: String::from_str("otari"),
            },
        ),
    }
}

/// The Anthropic stream's step: an open connection gives an empty chunk,
/// every message is decoded, the end of the stream stops it, and a transport
/// failure is a streaming error of Anthropic.
pub open spec fn anthropic_step_is(r: StreamStep, ev: SseEvent, model: Seq<char>) -> bool {
    match ev {
        SseEvent::Opened => r matches StreamStep::Emit(c) && is_empty_chunk(c, model),
        SseEvent::Message(_) => r is Decode,
        SseEvent::Ended => r is Stop,
        SseEvent::Failed(t) => r matches StreamStep::Fail(e) && is_streaming_error(
            e,
            "anthropic"@,
            t@,
        ),
    }
}

/// Decide what the Anthropic stream does with `event`.
pub fn anthropic_step(event: &SseEvent, model: &str) -> (r: StreamStep)
    ensures
        anthropic_step_is(r, *event, model@),
{
    match event {
        SseEvent::Opened => StreamStep::Emit(ChatCompletionChunk::empty(model)),
        SseEvent::Message(_) => StreamStep::Decode,
        SseEvent::Ended => StreamStep::Stop,
        SseEvent::Failed(text) => StreamStep::Fail(
            OtariError::Streaming { message: text.clone(), provider: String::from_str("anthropic") },
        ),
    }
}

/// What a decoded Anthropic message becomes: the event's chunk where it
/// carries one; the empty chunk where it carries none or did not parse.
pub fn anthropic_decoded(parsed: Option<AnthropicStreamEvent>, model: &str) -> (r: ChatCompletionChunk)
    requires
        parsed matches Some(e) ==> event_usage_fits(e),
    ensures
        match parsed {
            Some(e) => if event_outcome(e) is Some {
                event_chunk(r, e, model@)
            } else {
                is_empty_chunk(r, model@)
            },
            None => is_empty_chunk(r, model@),
        },
{
    match parsed {
        Some(e) => match e.to_chat_completion_chunk(model) {
            Some(c) => c,
            None => ChatCompletionChunk::empty(model),
        },
        None => ChatCompletionChunk::empty(model),
    }
}

/// The raw-event stream's step: the open connection passes nothing on, the
/// `[DONE]` sentinel and the end of the stream stop it, other messages are
/// decoded, and a transport failure is a streaming error of the gateway.
pub open spec fn raw_step_is(r: StreamStep, ev: SseEvent) -> bool {
    match ev {
        SseEvent::Opened => r is Skip,
        SseEvent::Message(d) => if is_done_data(d@) {
            r is Stop
        } else {
            r is Decode
        },
        SseEvent::Ended => r is Stop,
        SseEvent::Failed(t) => r matches StreamStep::Fail(e) && is_streaming_error(e, "otari"@, t@),
    }
}

/// Decide what the raw-event stream does with `event`.
pub fn raw_step(event: &SseEvent) -> (r: StreamStep)
    ensures
        raw_step_is(r, *event),
{
    match event {
        SseEvent::Opened => StreamStep::Skip,
        SseEvent::Message(data) => if is_done_sentinel(data.as_str()) {
            StreamStep::Stop
        } else {
            StreamStep::Decode
        },
        SseEvent::Ended => StreamStep::Stop,
        SseEvent::Failed(text) => StreamStep::Fail(
            OtariError::Streaming { message: text.clone(), provider: String::from_str("otari") },
        ),
    }
}

/// Decode a raw event's data as JSON; data that is not JSON is a streaming
/// error of the gateway whose message begins `Failed to parse event: ` and
/// goes on with the parser's message.
pub fn raw_decoded(data: &str) -> (r: Result<JsonValue, OtariError>)
    ensures
        r matches Ok(v) ==> json_parse(data@) == Some(v@),
        r is Err ==> json_parse(data@) is None,
        r matches Err(e) ==> (e@ matches ErrorView::Streaming { message, provider } && provider
            == "otari"@ && message.take("Failed to parse event: "@.len() as int)
            == "Failed to parse event: "@),
{
    match parse_json_text(data) {
        Ok(v) => Ok(v),
        Err(e) => {
            let text = serde_error_text(&e);
            let message = concat2("Failed to parse event: ", text.as_str());
            proof {
                assert(message@.take("Failed to parse event: "@.len() as int) =~= "Failed to parse event: "@);
            }
            Err(OtariError::Streaming { message, provider: String::from_str("otari") })
        },
    }
}

} // verus!
