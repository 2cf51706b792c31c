//! The OpenAI chat API's request, response and stream-chunk forms, and its
//! errors classified by the words of their message.

use vstd::prelude::*;

use crate::error::{ErrorView, OtariError};
use crate::gateway::{clone_opt, clone_opt_json, opt_json, opt_text};
use crate::json::JsonValue;
use crate::text::{has_substring, str_contains};
use crate::types::chunk::{ChatCompletionChunk, ChoiceDelta, ChunkChoice};
use crate::types::completion::{
    ChatCompletion, ChatCompletionMessage, Choice, CompletionParams, Float32, stop_list,
};
use crate::types::message::{Content, ContentPart, Message, Role, content_text};
use crate::types::tool::{Function, FunctionDelta, Tool, ToolCall, ToolCallDelta, ToolChoice};
use crate::types::usage::CompletionUsage;

verus! {

/// The provider name of the OpenAI API's errors.
pub open spec fn openai_name() -> Seq<char> {
    "openai"@
}

/// The error an OpenAI API failure message maps to: rate limits, then
/// authentication failures, then missing models, then bad requests, by the
/// words and status codes the message holds; anything else a provider error.
pub open spec fn openai_error(message: Seq<char>) -> ErrorView {
    if has_substring(message, "rate limit"@) || has_substring(message, "429"@) {
        ErrorView::RateLimit { message, provider: openai_name() }
    } else if has_substring(message, "authentication"@) || has_substring(message, "401"@)
        || has_substring(message, "invalid api key"@) {
        ErrorView::Authentication { message, provider: openai_name() }
    } else if has_substring(message, "not found"@) || has_substring(message, "404"@) {
        ErrorView::ModelNotFound { model: "unknown"@, provider: openai_name() }
    } else if has_substring(message, "400"@) || has_substring(message, "bad request"@) {
        ErrorView::InvalidRequest { message, provider: openai_name() }
    } else {
        ErrorView::Provider { message, provider: openai_name() }
    }
}

/// Map the message of an OpenAI API failure to a typed error.
pub fn convert_error(message: &str) -> (r: OtariError)
    ensures
        r@ == openai_error(message@),
{
    let provider = String::from_str("openai");
    if str_contains(message, "rate limit") || str_contains(message, "429") {
        OtariError::RateLimit { message: String::from_str(message), provider }
    } else if str_contains(message, "authentication") || str_contains(message, "401")
        || str_contains(message, "invalid api key") {
        OtariError::Authentication { message: String::from_str(message), provider }
    } else if str_contains(message, "not found") || str_contains(message, "404") {
        OtariError::ModelNotFound { model: String::from_str("unknown"), provider }
    } else if str_contains(message, "400") || str_contains(message, "bad request") {
        OtariError::InvalidRequest { message: String::from_str(message), provider }
    } else {
        OtariError::Provider { message: String::from_str(message), provider }
    }
}

/// The detail level of an image in a user message.
#[derive(Debug, Clone, Copy, PartialEq, Eq, Structural)]
pub enum ImageDetail {
    Low,
    High,
    Auto,
}

/// An image reference in a user message.
#[derive(Debug, Clone)]
pub struct OpenAIImageUrl {
    pub url: String,
    pub detail: Option<ImageDetail>,
}

/// A part of a user message.
#[derive(Debug, Clone)]
pub enum UserContentPart {
    Text { text: String },
    ImageUrl { image_url: OpenAIImageUrl },
}

/// The content of a user message: text, or an array of parts.
#[derive(Debug, Clone)]
pub enum UserContent {
    Text(String),
    Array(Vec<UserContentPart>),
}

/// A function tool call in an assistant message.
#[derive(Debug, Clone)]
pub struct OpenAIToolCall {
    pub id: String,
    pub name: String,
    pub arguments: String,
}

/// A request message of the OpenAI chat API.
#[derive(Debug, Clone)]
pub enum OpenAIMessage {
    System { content: String },
    User { content: UserContent },
    Assistant { content: Option<String>, tool_calls: Option<Vec<OpenAIToolCall>> },
    Tool { content: String, tool_call_id: String },
}

/// The image detail a detail text names: `low` and `high`, anything else auto.
pub open spec fn detail_of(d: Seq<char>) -> ImageDetail {
    if d == "low"@ {
        ImageDetail::Low
    } else if d == "high"@ {
        ImageDetail::High
    } else {
        ImageDetail::Auto
    }
}

/// `out` is the OpenAI form of the content part `p`: an image's detail is
/// always given, auto where the part names none.
pub open spec fn user_part_from(out: UserContentPart, p: ContentPart) -> bool {
    match p {
        ContentPart::Text { text } => out matches UserContentPart::Text { text: t } && t@ == text@,
        ContentPart::ImageUrl { image_url } => out matches UserContentPart::ImageUrl {
            image_url: u,
        } && u.url@ == image_url.url@ && u.detail == Some(
            match image_url.detail {
                Some(d) => detail_of(d@),
                None => ImageDetail::Auto,
            },
        ),
    }
}

/// The text of an optional content; empty where there is none.
pub open spec fn text_of(c: Option<Content>) -> Seq<char> {
    match c {
        Some(x) => content_text(x),
        None => Seq::empty(),
    }
}

/// `out` is the OpenAI form of the user content `c`: its text, or each of
/// its parts converted; empty text where there is none.
pub open spec fn user_content_from(out: UserContent, c: Option<Content>) -> bool {
    match c {
        Some(Content::Parts(ps)) => match out {
            UserContent::Array(v) => v@.len() == ps@.len() && forall|i: int|
                0 <= i < ps@.len() ==> user_part_from(#[trigger] v@[i], ps@[i]),
            UserContent::Text(_) => false,
        },
        Some(Content::Text(t)) => match out {
            UserContent::Text(x) => x@ == t@,
            UserContent::Array(_) => false,
        },
        None => match out {
            UserContent::Text(x) => x@.len() == 0,
            UserContent::Array(_) => false,
        },
    }
}

/// `out` is the OpenAI form of the tool call `tc`: its id, and its function's
/// name and arguments.
pub open spec fn tool_call_from(out: OpenAIToolCall, tc: ToolCall) -> bool {
    &&& out.id@ == tc.id@
    &&& out.name@ == tc.function.name@
    &&& out.arguments@ == tc.function.arguments@
}

/// `out` is the OpenAI form of an optional list of tool calls.
pub open spec fn tool_calls_from(out: Option<Vec<OpenAIToolCall>>, tcs: Option<Vec<ToolCall>>) -> bool {
    match tcs {
        Some(t) => match out {
            Some(v) => v@.len() == t@.len() && forall|i: int|
                0 <= i < t@.len() ==> tool_call_from(#[trigger] v@[i], t@[i]),
            None => false,
        },
        None => out is None,
    }
}

/// `out` is the text of an assistant message's content, where it has one.
pub open spec fn assistant_text_from(out: Option<String>, c: Option<Content>) -> bool {
    match c {
        Some(x) => match out {
            Some(t) => t@ == content_text(x),
            None => false,
        },
        None => out is None,
    }
}

/// `out` is the OpenAI form of the message `m`: system and tool messages by
/// their text, a user message by its text or parts (empty text where it has
/// none), an assistant message by its text and tool calls.
pub open spec fn message_from(out: OpenAIMessage, m: Message) -> bool {
    match out {
        OpenAIMessage::System { content } => m.role is System && content@ == text_of(m.content),
        OpenAIMessage::User { content } => m.role is User && user_content_from(content, m.content),
        OpenAIMessage::Assistant { content, tool_calls } => {
            &&& m.role is Assistant
            &&& assistant_text_from(content, m.content)
            &&& tool_calls_from(tool_calls, m.tool_calls)
        },
        OpenAIMessage::Tool { content, tool_call_id } => {
            &&& m.role is Tool
            &&& content@ == text_of(m.content)
            &&& tool_call_id@ == match m.tool_call_id {
                Some(id) => id@,
                None => Seq::empty(),
            }
        },
    }
}

/// The text of an optional content.
fn text_or_empty(c: &Option<Content>) -> (r: String)
    ensures
        r@ == text_of(*c),
{
    match c {
        Some(x) => x.extract_text(),
        None => String::new(),
    }
}

/// The OpenAI form of a content part.
fn convert_part(p: &ContentPart) -> (r: UserContentPart)
    ensures
        user_part_from(r, *p),
{
    match p {
        ContentPart::Text { text } => UserContentPart::Text { text: text.clone() },
        ContentPart::ImageUrl { image_url } => {
            proof {
                reveal_strlit("low");
                reveal_strlit("high");
            }
            let detail = match &image_url.detail {
                Some(d) => if *d == String::from_str("low") {
                    ImageDetail::Low
                } else if *d == String::from_str("high") {
                    ImageDetail::High
                } else {
                    ImageDetail::Auto
                },
                None => ImageDetail::Auto,
            };
            UserContentPart::ImageUrl {
                image_url: OpenAIImageUrl { url: image_url.url.clone(), detail: Some(detail) },
            }
        },
    }
}

/// Convert a message to the OpenAI chat API's form; the conversion always
/// succeeds.
pub fn convert_message(message: &Message) -> (r: Result<OpenAIMessage, OtariError>)
    ensures
        r matches Ok(m) && message_from(m, *message),
{
    match message.role {
        Role::System => Ok(OpenAIMessage::System { content: text_or_empty(&message.content) }),
        Role::User => {
            let content = match &message.content {
                Some(Content::Text(text)) => UserContent::Text(text.clone()),
                Some(Content::Parts(parts)) => {
                    let mut out: Vec<UserContentPart> = Vec::new();
                    let mut i: usize = 0;
                    while i < parts.len()
                        invariant
                            i <= parts@.len(),
                            out@.len() == i,
                            forall|k: int| 0 <= k < i ==> user_part_from(#[trigger] out@[k], parts@[k]),
                        decreases parts.len() - i,
                    {
                        out.push(convert_part(&parts[i]));
                        i = i + 1;
                    }
                    UserContent::Array(out)
                },
                None => UserContent::Text(String::new()),
            };
            Ok(OpenAIMessage::User { content })
        },
        Role::Assistant => {
            let content = match &message.content {
                Some(c) => Some(c.extract_text()),
                None => None,
            };
            let tool_calls = match &message.tool_calls {
                Some(tcs) => {
                    let mut out: Vec<OpenAIToolCall> = Vec::new();
                    let mut i: usize = 0;
                    while i < tcs.len()
                        invariant
                            i <= tcs@.len(),
                            out@.len() == i,
                            forall|k: int| 0 <= k < i ==> tool_call_from(#[trigger] out@[k], tcs@[k]),
                        decreases tcs.len() - i,
                    {
                        out.push(
                            OpenAIToolCall {
                                id: tcs[i].id.clone(),
                                name: tcs[i].function.name.clone(),
                                arguments: tcs[i].function.arguments.clone(),
                            },
                        );
                        i = i + 1;
                    }
                    Some(out)
                },
                None => None,
            };
            Ok(OpenAIMessage::Assistant { content, tool_calls })
        },
        Role::Tool => {
            let tool_call_id = match &message.tool_call_id {
                Some(id) => id.clone(),
                None => String::new(),
            };
            Ok(OpenAIMessage::Tool { content: text_or_empty(&message.content), tool_call_id })
        },
    }
}

/// How the model should choose a tool, in the OpenAI chat API's form.
#[derive(Debug, Clone)]
pub enum OpenAIToolChoice {
    /// The model calls no tool (the API's `none`).
    NoTools,
    Auto,
    Required,
    Named { name: String },
}

/// `out` is the OpenAI form of the tool choice `c`: the three modes as they
/// are, any other mode as auto, a forced function by its name.
pub open spec fn tool_choice_from(out: OpenAIToolChoice, c: ToolChoice) -> bool {
    match c {
        ToolChoice::Mode(m) => if m@ == "none"@ {
            out is NoTools
        } else if m@ == "required"@ {
            out is Required
        } else {
            out is Auto
        },
        ToolChoice::Function { function, .. } => out matches OpenAIToolChoice::Named { name }
            && name@ == function.name@,
    }
}

/// Convert a tool choice to the OpenAI chat API's form.
pub fn convert_tool_choice(choice: &ToolChoice) -> (r: OpenAIToolChoice)
    ensures
        tool_choice_from(r, *choice),
{
    proof {
        reveal_strlit("none");
        reveal_strlit("auto");
        reveal_strlit("required");
    }
    match choice {
        ToolChoice::Mode(mode) => {
            if *mode == String::from_str("none") {
                OpenAIToolChoice::NoTools
            } else if *mode == String::from_str("auto") {
                assert("auto"@.len() != "required"@.len());
                OpenAIToolChoice::Auto
            } else if *mode == String::from_str("required") {
                OpenAIToolChoice::Required
            } else {
                OpenAIToolChoice::Auto
            }
        },
        ToolChoice::Function { function, .. } => OpenAIToolChoice::Named {
            name: function.name.clone(),
        },
    }
}

/// A function tool in the OpenAI chat API's form.
#[derive(Debug, Clone)]
pub struct OpenAITool {
    pub name: String,
    pub description: Option<String>,
    pub parameters: Option<JsonValue>,
}

/// `out` is the OpenAI form of the tool `t`: its function's name,
/// description and parameters.
pub open spec fn tool_from(out: OpenAITool, t: Tool) -> bool {
    &&& out.name@ == t.function.name@
    &&& opt_text(out.description) == opt_text(t.function.description)
    &&& opt_json(out.parameters) == opt_json(t.function.parameters)
}

/// Convert a tool to the OpenAI chat API's form: its function's name,
/// description and parameters.
pub fn convert_tool(tool: Tool) -> (r: OpenAITool)
    ensures
        tool_from(r, tool),
{
    OpenAITool {
        name: tool.function.name,
        description: tool.function.description,
        parameters: tool.function.parameters,
    }
}

/// A request of the OpenAI chat API.
#[derive(Debug)]
pub struct OpenAIRequest {
    pub model: String,
    pub messages: Vec<OpenAIMessage>,
    pub stream: bool,
    pub temperature: Option<Float32>,
    pub top_p: Option<Float32>,
    pub max_tokens: Option<u32>,
    pub presence_penalty: Option<Float32>,
    pub frequency_penalty: Option<Float32>,
    pub seed: Option<i64>,
    pub user: Option<String>,
    pub stop: Option<Vec<String>>,
    pub tools: Option<Vec<OpenAITool>>,
    pub tool_choice: Option<OpenAIToolChoice>,
    pub parallel_tool_calls: Option<bool>,
}

/// `r` is the OpenAI request for `params`: every message converted, the
/// sampling parameters, stop sequences, tools and tool choice carried over,
/// streaming on.
pub open spec fn openai_request_of(r: OpenAIRequest, params: CompletionParams) -> bool {
    &&& r.model@ == params.model_id@
    &&& r.messages@.len() == params.messages@.len()
    &&& forall|i: int|
        0 <= i < params.messages@.len() ==> message_from(#[trigger] r.messages@[i], params.messages@[i])
    &&& r.stream
    &&& r.temperature == params.temperature
    &&& r.top_p == params.top_p
    &&& r.max_tokens == params.max_tokens
    &&& r.presence_penalty == params.presence_penalty
    &&& r.frequency_penalty == params.frequency_penalty
    &&& r.seed == params.seed
    &&& opt_text(r.user) == opt_text(params.user)
    &&& match params.stop {
        Some(s) => r.stop matches Some(v) && v@.map_values(|x: String| x@) == stop_list(s),
        None => r.stop is None,
    }
    &&& match params.tools {
        Some(ts) => r.tools matches Some(v) && v@.len() == ts@.len() && forall|i: int|
            0 <= i < ts@.len() ==> tool_from(#[trigger] v@[i], ts@[i]),
        None => r.tools is None,
    }
    &&& match params.tool_choice {
        Some(c) => r.tool_choice matches Some(x) && tool_choice_from(x, c),
        None => r.tool_choice is None,
    }
    &&& r.parallel_tool_calls == params.parallel_tool_calls
}

impl OpenAIRequest {
    /// Convert completion parameters to an OpenAI chat request; the conversion
    /// always succeeds.
    pub fn try_from(params: CompletionParams) -> (r: Result<OpenAIRequest, OtariError>)
        ensures
            r matches Ok(req) && openai_request_of(req, params),
    {
        let mut messages: Vec<OpenAIMessage> = Vec::new();
        let mut i: usize = 0;
        while i < params.messages.len()
            invariant
                i <= params.messages@.len(),
                messages@.len() == i,
                forall|k: int|
                    0 <= k < i ==> message_from(#[trigger] messages@[k], params.messages@[k]),
            decreases params.messages.len() - i,
        {
            match convert_message(&params.messages[i]) {
                Ok(m) => messages.push(m),
                Err(e) => return Err(e),
            }
            i = i + 1;
        }
        let stop = match &params.stop {
            Some(s) => Some(s.to_vec()),
            None => None,
        };
        let user = match &params.user {
            Some(u) => Some(u.clone()),
            None => None,
        };
        let tool_choice = match &params.tool_choice {
            Some(c) => Some(convert_tool_choice(c)),
            None => None,
        };
        let tools = match params.tools {
            Some(ts) => {
                let mut out: Vec<OpenAITool> = Vec::new();
                let mut k: usize = 0;
                while k < ts.len()
                    invariant
                        k <= ts@.len(),
                        out@.len() == k,
                        forall|j: int| 0 <= j < k ==> tool_from(#[trigger] out@[j], ts@[j]),
                    decreases ts.len() - k,
                {
                    let t = &ts[k];
                    out.push(
                        OpenAITool {
                            name: t.function.name.clone(),
                            description: clone_opt(&t.function.description),
                            parameters: clone_opt_json(&t.function.parameters),
                        },
                    );
                    k = k + 1;
                }
                Some(out)
            },
            None => None,
        };
        Ok(
            OpenAIRequest {
                model: params.model_id,
                messages,
                stream: true,
                temperature: params.temperature,
                top_p: params.top_p,
                max_tokens: params.max_tokens,
                presence_penalty: params.presence_penalty,
                frequency_penalty: params.frequency_penalty,
                seed: params.seed,
                user,
                stop,
                tools,
                tool_choice,
                parallel_tool_calls: params.parallel_tool_calls,
            },
        )
    }
}

/// Why the model stopped, as the OpenAI chat API reports it.
#[derive(Debug, Clone, Copy, PartialEq, Eq, Structural)]
pub enum OpenAIFinishReason {
    Stop,
    Length,
    ToolCalls,
    ContentFilter,
    FunctionCall,
}

/// The finish reason's name in a completion: the variant's name in lower
/// case, with no separator between its words.
pub open spec fn finish_reason_name(r: OpenAIFinishReason) -> Seq<char> {
    match r {
        OpenAIFinishReason::Stop => "stop"@,
        OpenAIFinishReason::Length => "length"@,
        OpenAIFinishReason::ToolCalls => "toolcalls"@,
        OpenAIFinishReason::ContentFilter => "contentfilter"@,
        OpenAIFinishReason::FunctionCall => "functioncall"@,
    }
}

/// The name of an optional finish reason.
pub open spec fn opt_finish_name(r: Option<OpenAIFinishReason>) -> Option<Seq<char>> {
    match r {
        Some(x) => Some(finish_reason_name(x)),
        None => None,
    }
}

/// The name of a finish reason.
pub fn finish_reason_text(r: OpenAIFinishReason) -> (s: String)
    ensures
        s@ == finish_reason_name(r),
{
    match r {
        OpenAIFinishReason::Stop => String::from_str("stop"),
        OpenAIFinishReason::Length => String::from_str("length"),
        OpenAIFinishReason::ToolCalls => String::from_str("toolcalls"),
        OpenAIFinishReason::ContentFilter => String::from_str("contentfilter"),
        OpenAIFinishReason::FunctionCall => String::from_str("functioncall"),
    }
}

/// The name of an optional finish reason.
fn opt_finish_text(r: Option<OpenAIFinishReason>) -> (s: Option<String>)
    ensures
        opt_text(s) == opt_finish_name(r),
{
    match r {
        Some(x) => Some(finish_reason_text(x)),
        None => None,
    }
}

/// The message of a choice in an OpenAI chat response.
#[derive(Debug, Clone)]
pub struct OpenAIResponseMessage {
    pub content: Option<String>,
    pub tool_calls: Option<Vec<OpenAIToolCall>>,
    pub refusal: Option<String>,
}

/// A choice in an OpenAI chat response.
#[derive(Debug, Clone)]
pub struct OpenAIChoice {
    pub index: u32,
    pub message: OpenAIResponseMessage,
    pub finish_reason: Option<OpenAIFinishReason>,
}

/// A response of the OpenAI chat API.
#[derive(Debug, Clone)]
pub struct OpenAIResponse {
    pub id: String,
    pub created: u32,
    pub model: String,
    pub choices: Vec<OpenAIChoice>,
    pub usage: Option<CompletionUsage>,
    pub system_fingerprint: Option<String>,
}

/// `out` is the tool call `tc` of a response: a function call with its id,
/// name and arguments.
pub open spec fn response_tool_call_from(out: ToolCall, tc: OpenAIToolCall) -> bool {
    &&& out.id@ == tc.id@
    &&& out.tool_type@ == "function"@
    &&& out.function.name@ == tc.name@
    &&& out.function.arguments@ == tc.arguments@
}

/// `out` holds the tool calls of a response message, where it has any.
pub open spec fn response_tool_calls_from(
    out: Option<Vec<ToolCall>>,
    tcs: Option<Vec<OpenAIToolCall>>,
) -> bool {
    match tcs {
        Some(v) => match out {
            Some(w) => w@.len() == v@.len() && forall|i: int|
                0 <= i < v@.len() ==> response_tool_call_from(#[trigger] w@[i], v@[i]),
            None => false,
        },
        None => out is None,
    }
}

/// `out` is the choice `c` of a response: an assistant message with its
/// content, tool calls and refusal, no reasoning, and the finish reason's name.
pub open spec fn response_choice_from(out: Choice, c: OpenAIChoice) -> bool {
    &&& out.index == c.index
    &&& out.message.role is Assistant
    &&& opt_text(out.message.content) == opt_text(c.message.content)
    &&& response_tool_calls_from(out.message.tool_calls, c.message.tool_calls)
    &&& out.message.reasoning is None
    &&& opt_text(out.message.refusal) == opt_text(c.message.refusal)
    &&& opt_text(out.finish_reason) == opt_finish_name(c.finish_reason)
    &&& out.logprobs is None
}

/// `out` is the completion for the OpenAI response `resp`.
pub open spec fn response_completion_from(out: ChatCompletion, resp: OpenAIResponse) -> bool {
    &&& out.id@ == resp.id@
    &&& out.object@ == "chat.completion"@
    &&& out.created == resp.created as i64
    &&& out.model@ == resp.model@
    &&& out.choices@.len() == resp.choices@.len()
    &&& forall|i: int|
        0 <= i < resp.choices@.len() ==> response_choice_from(#[trigger] out.choices@[i], resp.choices@[i])
    &&& out.usage == resp.usage
    &&& opt_text(out.system_fingerprint) == opt_text(resp.system_fingerprint)
}

/// The tool call of a response, as a function call.
fn convert_response_tool_call(tc: &OpenAIToolCall) -> (r: ToolCall)
    ensures
        response_tool_call_from(r, *tc),
{
    ToolCall {
        id: tc.id.clone(),
        tool_type: String::from_str("function"),
        function: Function { name: tc.name.clone(), arguments: tc.arguments.clone() },
    }
}

/// The choice of a response, as a completion choice.
fn convert_response_choice(c: &OpenAIChoice) -> (r: Choice)
    ensures
        response_choice_from(r, *c),
{
    let tool_calls = match &c.message.tool_calls {
        Some(tcs) => {
            let mut out: Vec<ToolCall> = Vec::new();
            let mut i: usize = 0;
            while i < tcs.len()
                invariant
                    i <= tcs@.len(),
                    out@.len() == i,
                    forall|k: int|
                        0 <= k < i ==> response_tool_call_from(#[trigger] out@[k], tcs@[k]),
                decreases tcs.len() - i,
            {
                out.push(convert_response_tool_call(&tcs[i]));
                i = i + 1;
            }
            Some(out)
        },
        None => None,
    };
    Choice {
        index: c.index,
        message: ChatCompletionMessage {
            role: Role::Assistant,
            content: clone_opt(&c.message.content),
            tool_calls,
            reasoning: None,
            refusal: clone_opt(&c.message.refusal),
        },
        finish_reason: opt_finish_text(c.finish_reason),
        logprobs: None,
    }
}

impl OpenAIResponse {
    /// Convert the OpenAI chat API's response to a completion.
    pub fn to_completion(&self) -> (r: ChatCompletion)
        ensures
            response_completion_from(r, *self),
    {
        let mut choices: Vec<Choice> = Vec::new();
        let mut i: usize = 0;
        while i < self.choices.len()
            invariant
                i <= self.choices@.len(),
                choices@.len() == i,
                forall|k: int|
                    0 <= k < i ==> response_choice_from(#[trigger] choices@[k], self.choices@[k]),
            decreases self.choices.len() - i,
        {
            choices.push(convert_response_choice(&self.choices[i]));
            i = i + 1;
        }
        ChatCompletion {
            id: self.id.clone(),
            object: String::from_str("chat.completion"),
            created: self.created as i64,
            model: self.model.clone(),
            choices,
            usage: self.usage,
            system_fingerprint: clone_opt(&self.system_fingerprint),
        }
    }
}

/// The kind of a tool in a stream delta; the API knows only functions.
#[derive(Debug, Clone, Copy, PartialEq, Eq, Structural)]
pub enum OpenAIToolType {
    Function,
}

/// A partial tool call in a stream delta of the OpenAI chat API.
#[derive(Debug, Clone)]
pub struct OpenAIToolCallDelta {
    pub index: u32,
    pub id: Option<String>,
    pub tool_type: Option<OpenAIToolType>,
    pub function: Option<FunctionDelta>,
}

/// The delta of a stream choice of the OpenAI chat API.
#[derive(Debug, Clone)]
pub struct OpenAIDelta {
    pub role: Option<Role>,
    pub content: Option<String>,
    pub tool_calls: Option<Vec<OpenAIToolCallDelta>>,
    pub refusal: Option<String>,
}

/// A choice of a stream chunk of the OpenAI chat API.
#[derive(Debug, Clone)]
pub struct OpenAIStreamChoice {
    pub index: u32,
    pub delta: OpenAIDelta,
    pub finish_reason: Option<OpenAIFinishReason>,
}

/// A stream chunk of the OpenAI chat API.
#[derive(Debug, Clone)]
pub struct OpenAIStreamResponse {
    pub id: String,
    pub created: u32,
    pub model: String,
    pub choices: Vec<OpenAIStreamChoice>,
    pub usage: Option<CompletionUsage>,
    pub system_fingerprint: Option<String>,
}

/// `out` is the function part of a tool call delta, where there is one.
pub open spec fn function_delta_from(out: Option<FunctionDelta>, f: Option<FunctionDelta>) -> bool {
    match f {
        Some(g) => match out {
            Some(h) => opt_text(h.name) == opt_text(g.name) && opt_text(h.arguments) == opt_text(
                g.arguments,
            ),
            None => false,
        },
        None => out is None,
    }
}

/// `out` is the tool call delta `tc`: its index always given, a function type
/// where it names a type, its id and function part as they are.
pub open spec fn tool_call_delta_from(out: ToolCallDelta, tc: OpenAIToolCallDelta) -> bool {
    &&& out.index == Some(tc.index)
    &&& opt_text(out.id) == opt_text(tc.id)
    &&& opt_text(out.tool_type) == match tc.tool_type {
        Some(_) => Some("function"@),
        None => None,
    }
    &&& function_delta_from(out.function, tc.function)
}

/// `out` holds the tool call deltas of a stream delta, where it has any.
pub open spec fn tool_call_deltas_from(
    out: Option<Vec<ToolCallDelta>>,
    tcs: Option<Vec<OpenAIToolCallDelta>>,
) -> bool {
    match tcs {
        Some(v) => match out {
            Some(w) => w@.len() == v@.len() && forall|i: int|
                0 <= i < v@.len() ==> tool_call_delta_from(#[trigger] w@[i], v@[i]),
            None => false,
        },
        None => out is None,
    }
}

/// `out` is the stream choice `c`: any role read as the assistant's, the
/// content, tool calls and refusal as they are, no reasoning, and the finish
/// reason's name.
pub open spec fn stream_choice_from(out: ChunkChoice, c: OpenAIStreamChoice) -> bool {
    &&& out.index == c.index
    &&& out.delta.role == match c.delta.role {
        Some(_) => Some(Role::Assistant),
        None => None,
    }
    &&& opt_text(out.delta.content) == opt_text(c.delta.content)
    &&& tool_call_deltas_from(out.delta.tool_calls, c.delta.tool_calls)
    &&& out.delta.reasoning is None
    &&& opt_text(out.delta.refusal) == opt_text(c.delta.refusal)
    &&& opt_text(out.finish_reason) == opt_finish_name(c.finish_reason)
    &&& out.logprobs is None
}

/// `out` is the completion chunk for the OpenAI stream chunk `resp`.
pub open spec fn stream_chunk_from(out: ChatCompletionChunk, resp: OpenAIStreamResponse) -> bool {
    &&& out.id@ == resp.id@
    &&& out.object@ == "chat.completion.chunk"@
    &&& out.created == resp.created as i64
    &&& out.model@ == resp.model@
    &&& out.choices@.len() == resp.choices@.len()
    &&& forall|i: int|
        0 <= i < resp.choices@.len() ==> stream_choice_from(#[trigger] out.choices@[i], resp.choices@[i])
    &&& out.usage == resp.usage
    &&& opt_text(out.system_fingerprint) == opt_text(resp.system_fingerprint)
}

/// A tool call delta of the stream, in the library's form.
fn convert_tool_call_delta(tc: &OpenAIToolCallDelta) -> (r: ToolCallDelta)
    ensures
        tool_call_delta_from(r, *tc),
{
    ToolCallDelta {
        index: Some(tc.index),
        id: clone_opt(&tc.id),
        tool_type: match tc.tool_type {
            Some(_) => Some(String::from_str("function")),
            None => None,
        },
        function: match &tc.function {
            Some(f) => Some(
                FunctionDelta { name: clone_opt(&f.name), arguments: clone_opt(&f.arguments) },
            ),
            None => None,
        },
    }
}

/// A stream choice, in the library's form.
fn convert_stream_choice(c: &OpenAIStreamChoice) -> (r: ChunkChoice)
    ensures
        stream_choice_from(r, *c),
{
    let tool_calls = match &c.delta.tool_calls {
        Some(tcs) => {
            let mut out: Vec<ToolCallDelta> = Vec::new();
            let mut i: usize = 0;
            while i < tcs.len()
                invariant
                    i <= tcs@.len(),
                    out@.len() == i,
                    forall|k: int| 0 <= k < i ==> tool_call_delta_from(#[trigger] out@[k], tcs@[k]),
                decreases tcs.len() - i,
            {
                out.push(convert_tool_call_delta(&tcs[i]));
                i = i + 1;
            }
            Some(out)
        },
        None => None,
    };
    let role = match c.delta.role {
        Some(_) => Some(Role::Assistant),
        None => None,
    };
    ChunkChoice {
        index: c.index,
        delta: ChoiceDelta {
            role,
            content: clone_opt(&c.delta.content),
            tool_calls,
            reasoning: None,
            refusal: clone_opt(&c.delta.refusal),
        },
        finish_reason: opt_finish_text(c.finish_reason),
        logprobs: None,
    }
}

impl OpenAIStreamResponse {
    /// Convert a stream chunk of the OpenAI chat API to a completion chunk.
    pub fn to_chunk(&self) -> (r: ChatCompletionChunk)
        ensures
            stream_chunk_from(r, *self),
    {
        let mut choices: Vec<ChunkChoice> = Vec::new();
        let mut i: usize = 0;
        while i < self.choices.len()
            invariant
                i <= self.choices@.len(),
                choices@.len() == i,
                forall|k: int|
                    0 <= k < i ==> stream_choice_from(#[trigger] choices@[k], self.choices@[k]),
            decreases self.choices.len() - i,
        {
            choices.push(convert_stream_choice(&self.choices[i]));
            i = i + 1;
        }
        ChatCompletionChunk {
            id: self.id.clone(),
            object: String::from_str("chat.completion.chunk"),
            created: self.created as i64,
            model: self.model.clone(),
            choices,
            usage: self.usage,
            system_fingerprint: clone_opt(&self.system_fingerprint),
        }
    }
}

} // verus!
