//! The gateway's wire format: the OpenAI-compatible request body built from
//! completion parameters, and the response and stream chunks converted back.

use vstd::prelude::*;

use crate::json::{
    JsonValue, JsonView, fields_view, find_member, get_member, items_view, member, no_fields, no_items,
    push_field, push_item, str_member, str_of,
};
use crate::text::{trim, trim_ws};
use crate::types::chunk::{ChatCompletionChunk, ChoiceDelta, ChunkChoice};
use crate::types::completion::{
    ChatCompletion, ChatCompletionMessage, Choice, CompletionParams, Float32, Reasoning,
    ReasoningEffort, StopSequence, effort_name, stop_list,
};
use crate::types::message::{Content, ContentPart, ImageUrl, Message, Role, role_name};
use crate::types::tool::{
    Function, FunctionDelta, Tool, ToolCall, ToolCallDelta, ToolChoice, ToolFunction,
};
use crate::types::usage::CompletionUsage;

verus! {

/// The model of an optional JSON value.
pub open spec fn opt_json(o: Option<JsonValue>) -> Option<JsonView> {
    match o {
        Some(v) => Some(v@),
        None => None,
    }
}

/// `fields` with `key: value` appended where there is a value.
pub open spec fn push_opt(
    fields: Seq<(Seq<char>, JsonView)>,
    key: Seq<char>,
    value: Option<JsonView>,
) -> Seq<(Seq<char>, JsonView)> {
    match value {
        Some(v) => fields.push((key, v)),
        None => fields,
    }
}

/// The string value of an optional text.
pub open spec fn opt_str(o: Option<String>) -> Option<JsonView> {
    match o {
        Some(s) => Some(JsonView::Str(s@)),
        None => None,
    }
}

/// The JSON of an image reference: its URL and, where set, its detail level.
pub open spec fn image_url_json(u: ImageUrl) -> JsonView {
    JsonView::Object(push_opt(seq![("url"@, JsonView::Str(u.url@))], "detail"@, opt_str(u.detail)))
}

/// The JSON of a content part.
pub open spec fn content_part_json(p: ContentPart) -> JsonView {
    match p {
        ContentPart::Text { text } => JsonView::Object(
            seq![("type"@, JsonView::Str("text"@)), ("text"@, JsonView::Str(text@))],
        ),
        ContentPart::ImageUrl { image_url } => JsonView::Object(
            seq![("type"@, JsonView::Str("image_url"@)), ("image_url"@, image_url_json(image_url))],
        ),
    }
}

/// The JSON of a message's content: text as a string, parts as an array,
/// no content as `null`.
pub open spec fn content_json(c: Option<Content>) -> JsonView {
    match c {
        None => JsonView::Null,
        Some(Content::Text(t)) => JsonView::Str(t@),
        Some(Content::Parts(ps)) => JsonView::Array(
            Seq::new(ps@.len(), |i: int| content_part_json(ps@[i])),
        ),
    }
}

/// The JSON of a tool call: `id`, `type` and the function's `name` and
/// `arguments`.
pub open spec fn tool_call_json(tc: ToolCall) -> JsonView {
    JsonView::Object(
        seq![
            ("id"@, JsonView::Str(tc.id@)),
            ("type"@, JsonView::Str(tc.tool_type@)),
            ("function"@, JsonView::Object(
                seq![
                    ("name"@, JsonView::Str(tc.function.name@)),
                    ("arguments"@, JsonView::Str(tc.function.arguments@)),
                ],
            )),
        ],
    )
}

/// The JSON of a list of tool calls.
pub open spec fn tool_calls_json(tcs: Seq<ToolCall>) -> JsonView {
    JsonView::Array(Seq::new(tcs.len(), |i: int| tool_call_json(tcs[i])))
}

/// The JSON of a message in the OpenAI wire format: `role` and `content`, then
/// `tool_calls`, `tool_call_id` and `name` where set.
pub open spec fn message_json(m: Message) -> JsonView {
    let base = seq![("role"@, JsonView::Str(role_name(m.role))), ("content"@, content_json(m.content))];
    let with_calls = push_opt(
        base,
        "tool_calls"@,
        match m.tool_calls {
            Some(v) => Some(tool_calls_json(v@)),
            None => None,
        },
    );
    let with_id = push_opt(with_calls, "tool_call_id"@, opt_str(m.tool_call_id));
    JsonView::Object(push_opt(with_id, "name"@, opt_str(m.name)))
}

/// The JSON of an image reference.
fn image_url_to_json(u: &ImageUrl) -> (r: JsonValue)
    ensures
        r@ == image_url_json(*u),
{
    let mut f = no_fields();
    push_field(&mut f, "url", JsonValue::Str(u.url.clone()));
    match &u.detail {
        Some(d) => push_field(&mut f, "detail", JsonValue::Str(d.clone())),
        None => {},
    }
    proof {
        reveal_strlit("url");
        reveal_strlit("detail");
    }
    JsonValue::Object(f)
}

/// The JSON of a content part.
fn content_part_to_json(p: &ContentPart) -> (r: JsonValue)
    ensures
        r@ == content_part_json(*p),
{
    proof {
        reveal_strlit("type");
        reveal_strlit("text");
        reveal_strlit("image_url");
    }
    let mut f = no_fields();
    match p {
        ContentPart::Text { text } => {
            push_field(&mut f, "type", JsonValue::string("text"));
            push_field(&mut f, "text", JsonValue::Str(text.clone()));
            assert(fields_view(f@) =~= seq![("type"@, JsonView::Str("text"@)), ("text"@, JsonView::Str(text@))]);
        },
        ContentPart::ImageUrl { image_url } => {
            let iv = image_url_to_json(image_url);
            push_field(&mut f, "type", JsonValue::string("image_url"));
            push_field(&mut f, "image_url", iv);
            assert(fields_view(f@) =~= seq![("type"@, JsonView::Str("image_url"@)), ("image_url"@, image_url_json(*image_url))]);
        },
    }
    JsonValue::Object(f)
}

/// The JSON of a message's content.
fn content_to_json(c: &Option<Content>) -> (r: JsonValue)
    ensures
        r@ == content_json(*c),
{
    match c {
        None => JsonValue::Null,
        Some(Content::Text(t)) => JsonValue::Str(t.clone()),
        Some(Content::Parts(ps)) => {
            let mut items = no_items();
            let mut i: usize = 0;
            while i < ps.len()
                invariant
                    i <= ps@.len(),
                    items_view(items@) == Seq::new(i as nat, |k: int| content_part_json(ps@[k])),
                decreases ps.len() - i,
            {
                let ghost before = items_view(items@);
                push_item(&mut items, content_part_to_json(&ps[i]));
                assert(items_view(items@) =~= Seq::new((i + 1) as nat, |k: int| content_part_json(ps@[k])));
                i = i + 1;
            }
            JsonValue::Array(items)
        },
    }
}

/// The JSON of a tool call.
pub fn tool_call_to_json(tc: &ToolCall) -> (r: JsonValue)
    ensures
        r@ == tool_call_json(*tc),
{
    proof {
        reveal_strlit("id");
        reveal_strlit("type");
        reveal_strlit("function");
        reveal_strlit("name");
        reveal_strlit("arguments");
    }
    let mut func = no_fields();
    push_field(&mut func, "name", JsonValue::Str(tc.function.name.clone()));
    push_field(&mut func, "arguments", JsonValue::Str(tc.function.arguments.clone()));
    let mut f = no_fields();
    push_field(&mut f, "id", JsonValue::Str(tc.id.clone()));
    push_field(&mut f, "type", JsonValue::Str(tc.tool_type.clone()));
    assert(fields_view(func@) =~= seq![
        ("name"@, JsonView::Str(tc.function.name@)),
        ("arguments"@, JsonView::Str(tc.function.arguments@)),
    ]);
    let fv = JsonValue::Object(func);
    assert(fv@ == JsonView::Object(
        seq![
            ("name"@, JsonView::Str(tc.function.name@)),
            ("arguments"@, JsonView::Str(tc.function.arguments@)),
        ],
    ));
    push_field(&mut f, "function", fv);
    assert(fields_view(f@) =~= seq![
        ("id"@, JsonView::Str(tc.id@)),
        ("type"@, JsonView::Str(tc.tool_type@)),
        ("function"@, fv@),
    ]);
    JsonValue::Object(f)
}

/// The JSON of a list of tool calls.
pub fn tool_calls_to_json(tcs: &Vec<ToolCall>) -> (r: JsonValue)
    ensures
        r@ == tool_calls_json(tcs@),
{
    let mut items = no_items();
    let mut i: usize = 0;
    while i < tcs.len()
        invariant
            i <= tcs@.len(),
            items_view(items@) == Seq::new(i as nat, |k: int| tool_call_json(tcs@[k])),
        decreases tcs.len() - i,
    {
        push_item(&mut items, tool_call_to_json(&tcs[i]));
        assert(items_view(items@) =~= Seq::new((i + 1) as nat, |k: int| tool_call_json(tcs@[k])));
        i = i + 1;
    }
    JsonValue::Array(items)
}

/// Convert a message to its OpenAI-format JSON.
pub fn convert_message(msg: &Message) -> (r: JsonValue)
    ensures
        r@ == message_json(*msg),
{
    proof {
        reveal_strlit("role");
        reveal_strlit("content");
        reveal_strlit("tool_calls");
        reveal_strlit("tool_call_id");
        reveal_strlit("name");
    }
    let mut f = no_fields();
    push_field(&mut f, "role", JsonValue::string(msg.role.as_str()));
    push_field(&mut f, "content", content_to_json(&msg.content));
    assert(fields_view(f@) =~= seq![("role"@, JsonView::Str(role_name(msg.role))), ("content"@, content_json(msg.content))]);
    match &msg.tool_calls {
        Some(tcs) => push_field(&mut f, "tool_calls", tool_calls_to_json(tcs)),
        None => {},
    }
    match &msg.tool_call_id {
        Some(id) => push_field(&mut f, "tool_call_id", JsonValue::Str(id.clone())),
        None => {},
    }
    match &msg.name {
        Some(n) => push_field(&mut f, "name", JsonValue::Str(n.clone())),
        None => {},
    }
    let r = JsonValue::Object(f);
    assert(r@ == JsonView::Object(fields_view(f@)));
    r
}

/// The JSON of a tool's function: `name`, then `description` and `parameters`
/// where set.
pub open spec fn tool_function_json(f: ToolFunction) -> JsonView {
    JsonView::Object(
        push_opt(
            push_opt(seq![("name"@, JsonView::Str(f.name@))], "description"@, opt_str(f.description)),
            "parameters"@,
            opt_json(f.parameters),
        ),
    )
}

/// The JSON of a tool: its `type` and its `function`.
pub open spec fn tool_json(t: Tool) -> JsonView {
    JsonView::Object(
        seq![("type"@, JsonView::Str(t.tool_type@)), ("function"@, tool_function_json(t.function))],
    )
}

/// The JSON of a list of tools.
pub open spec fn tools_json(ts: Seq<Tool>) -> JsonView {
    JsonView::Array(Seq::new(ts.len(), |i: int| tool_json(ts[i])))
}

/// The JSON of a tool choice: a mode as its string, a forced function as
/// `{"type": ..., "function": {"name": ...}}`.
pub open spec fn tool_choice_json(c: ToolChoice) -> JsonView {
    match c {
        ToolChoice::Mode(m) => JsonView::Str(m@),
        ToolChoice::Function { choice_type, function } => JsonView::Object(
            seq![
                ("type"@, JsonView::Str(choice_type@)),
                ("function"@, JsonView::Object(seq![("name"@, JsonView::Str(function.name@))])),
            ],
        ),
    }
}

/// The JSON array of a list of texts.
pub open spec fn texts_json(v: Seq<Seq<char>>) -> JsonView {
    JsonView::Array(Seq::new(v.len(), |i: int| JsonView::Str(v[i])))
}

/// The JSON of a tool.
fn tool_to_json(t: &Tool) -> (r: JsonValue)
    ensures
        r@ == tool_json(*t),
{
    proof {
        reveal_strlit("name");
        reveal_strlit("description");
        reveal_strlit("parameters");
        reveal_strlit("type");
        reveal_strlit("function");
    }
    let mut func = no_fields();
    push_field(&mut func, "name", JsonValue::Str(t.function.name.clone()));
    match &t.function.description {
        Some(d) => push_field(&mut func, "description", JsonValue::Str(d.clone())),
        None => {},
    }
    match &t.function.parameters {
        Some(p) => push_field(&mut func, "parameters", p.clone()),
        None => {},
    }
    let fv = JsonValue::Object(func);
    assert(fv@ == tool_function_json(t.function));
    let mut f = no_fields();
    push_field(&mut f, "type", JsonValue::Str(t.tool_type.clone()));
    push_field(&mut f, "function", fv);
    assert(fields_view(f@) =~= seq![("type"@, JsonView::Str(t.tool_type@)), ("function"@, fv@)]);
    JsonValue::Object(f)
}

/// The JSON of a list of tools.
fn tools_to_json(ts: &Vec<Tool>) -> (r: JsonValue)
    ensures
        r@ == tools_json(ts@),
{
    let mut items = no_items();
    let mut i: usize = 0;
    while i < ts.len()
        invariant
            i <= ts@.len(),
            items_view(items@) == Seq::new(i as nat, |k: int| tool_json(ts@[k])),
        decreases ts.len() - i,
    {
        push_item(&mut items, tool_to_json(&ts[i]));
        assert(items_view(items@) =~= Seq::new((i + 1) as nat, |k: int| tool_json(ts@[k])));
        i = i + 1;
    }
    JsonValue::Array(items)
}

/// The JSON of a tool choice.
fn tool_choice_to_json(c: &ToolChoice) -> (r: JsonValue)
    ensures
        r@ == tool_choice_json(*c),
{
    match c {
        ToolChoice::Mode(m) => JsonValue::Str(m.clone()),
        ToolChoice::Function { choice_type, function } => {
            proof {
                reveal_strlit("name");
                reveal_strlit("type");
                reveal_strlit("function");
            }
            let mut func = no_fields();
            push_field(&mut func, "name", JsonValue::Str(function.name.clone()));
            let fv = JsonValue::Object(func);
            assert(fields_view(func@) =~= seq![("name"@, JsonView::Str(function.name@))]);
            let mut f = no_fields();
            push_field(&mut f, "type", JsonValue::Str(choice_type.clone()));
            push_field(&mut f, "function", fv);
            assert(fields_view(f@) =~= seq![("type"@, JsonView::Str(choice_type@)), ("function"@, fv@)]);
            JsonValue::Object(f)
        },
    }
}

/// The JSON array of the stop sequences.
fn stop_to_json(s: &StopSequence) -> (r: JsonValue)
    ensures
        r@ == texts_json(stop_list(*s)),
{
    let v = s.to_vec();
    let ghost texts = stop_list(*s);
    assert(texts.len() == v@.len());
    let mut items = no_items();
    let mut i: usize = 0;
    while i < v.len()
        invariant
            i <= v@.len(),
            texts.len() == v@.len(),
            forall|k: int| 0 <= k < v@.len() ==> #[trigger] texts[k] == v@[k]@,
            items_view(items@) == Seq::new(i as nat, |k: int| JsonView::Str(texts[k])),
        decreases v.len() - i,
    {
        assert(texts[i as int] == v@[i as int]@);
        push_item(&mut items, JsonValue::Str(v[i].clone()));
        assert(items_view(items@) =~= Seq::new((i + 1) as nat, |k: int| JsonView::Str(texts[k])));
        i = i + 1;
    }
    JsonValue::Array(items)
}

/// Request body for the gateway's `/v1/chat/completions` endpoint, in the
/// OpenAI wire format.
#[derive(Debug)]
pub struct GatewayRequest {
    pub model: String,
    pub messages: Vec<JsonValue>,
    pub temperature: Option<Float32>,
    pub top_p: Option<Float32>,
    pub max_tokens: Option<u32>,
    pub n: Option<u32>,
    pub stop: Option<JsonValue>,
    pub presence_penalty: Option<Float32>,
    pub frequency_penalty: Option<Float32>,
    pub seed: Option<i64>,
    pub user: Option<String>,
    pub tools: Option<JsonValue>,
    pub tool_choice: Option<JsonValue>,
    pub parallel_tool_calls: Option<bool>,
    pub logprobs: Option<bool>,
    pub top_logprobs: Option<u32>,
    pub logit_bias: Option<Vec<(String, Float32)>>,
    pub response_format: Option<JsonValue>,
    pub reasoning_effort: Option<String>,
    pub stream: Option<bool>,
    pub stream_options: Option<JsonValue>,
}

/// The wire name of an optional reasoning effort.
pub open spec fn opt_effort(e: Option<ReasoningEffort>) -> Option<Seq<char>> {
    match e {
        Some(x) => Some(effort_name(x)),
        None => None,
    }
}

/// The texts of an optional string.
pub open spec fn opt_text(o: Option<String>) -> Option<Seq<char>> {
    match o {
        Some(s) => Some(s@),
        None => None,
    }
}

/// `r` is the wire form of `params`: every message in order, every parameter
/// carried over, the tools, tool choice and stop sequences as JSON, the
/// reasoning effort by its wire name, and no streaming.
pub open spec fn request_of(r: GatewayRequest, params: CompletionParams) -> bool {
    &&& r.model == params.model_id
    &&& r.messages@.len() == params.messages@.len()
    &&& forall|i: int|
        0 <= i < r.messages@.len() ==> #[trigger] r.messages@[i]@ == message_json(params.messages@[i])
    &&& r.temperature == params.temperature
    &&& r.top_p == params.top_p
    &&& r.max_tokens == params.max_tokens
    &&& r.n == params.n
    &&& opt_json(r.stop) == match params.stop {
        Some(s) => Some(texts_json(stop_list(s))),
        None => None,
    }
    &&& r.presence_penalty == params.presence_penalty
    &&& r.frequency_penalty == params.frequency_penalty
    &&& r.seed == params.seed
    &&& r.user == params.user
    &&& opt_json(r.tools) == match params.tools {
        Some(ts) => Some(tools_json(ts@)),
        None => None,
    }
    &&& opt_json(r.tool_choice) == match params.tool_choice {
        Some(c) => Some(tool_choice_json(c)),
        None => None,
    }
    &&& r.parallel_tool_calls == params.parallel_tool_calls
    &&& r.logprobs == params.logprobs
    &&& r.top_logprobs == params.top_logprobs
    &&& r.logit_bias == params.logit_bias
    &&& r.response_format == params.response_format
    &&& opt_text(r.reasoning_effort) == opt_effort(params.reasoning_effort)
    &&& r.stream is None
    &&& r.stream_options is None
}

/// The stream options the gateway is asked for: usage in the final chunk.
pub open spec fn include_usage_json() -> JsonView {
    JsonView::Object(seq![("include_usage"@, JsonView::Bool(true))])
}

impl GatewayRequest {
    /// Convert completion parameters to the gateway's request body.
    pub fn from_params(params: CompletionParams) -> (r: GatewayRequest)
        ensures
            request_of(r, params),
    {
        let ghost p0 = params;
        let mut messages: Vec<JsonValue> = Vec::new();
        let mut i: usize = 0;
        while i < params.messages.len()
            invariant
                i <= params.messages@.len(),
                messages@.len() == i,
                forall|k: int|
                    0 <= k < i ==> #[trigger] messages@[k]@ == message_json(params.messages@[k]),
            decreases params.messages.len() - i,
        {
            messages.push(convert_message(&params.messages[i]));
            i = i + 1;
        }
        let tools = match &params.tools {
            Some(ts) => Some(tools_to_json(ts)),
            None => None,
        };
        let tool_choice = match &params.tool_choice {
            Some(c) => Some(tool_choice_to_json(c)),
            None => None,
        };
        let stop = match &params.stop {
            Some(s) => Some(stop_to_json(s)),
            None => None,
        };
        let reasoning_effort = match params.reasoning_effort {
            Some(e) => Some(String::from_str(e.as_str())),
            None => None,
        };
        GatewayRequest {
            model: params.model_id,
            messages,
            temperature: params.temperature,
            top_p: params.top_p,
            max_tokens: params.max_tokens,
            n: params.n,
            stop,
            presence_penalty: params.presence_penalty,
            frequency_penalty: params.frequency_penalty,
            seed: params.seed,
            user: params.user,
            tools,
            tool_choice,
            parallel_tool_calls: params.parallel_tool_calls,
            logprobs: params.logprobs,
            top_logprobs: params.top_logprobs,
            logit_bias: params.logit_bias,
            response_format: params.response_format,
            reasoning_effort,
            stream: None,
            stream_options: None,
        }
    }

    /// Enable streaming and request usage in the final chunk.
    pub fn stream(self) -> (r: Self)
        ensures
            r.stream == Some(true),
            opt_json(r.stream_options) == Some(include_usage_json()),
            r.model == self.model && r.messages == self.messages,
            r.temperature == self.temperature && r.top_p == self.top_p,
            r.max_tokens == self.max_tokens && r.n == self.n && r.stop == self.stop,
            r.presence_penalty == self.presence_penalty,
            r.frequency_penalty == self.frequency_penalty,
            r.seed == self.seed && r.user == self.user && r.tools == self.tools,
            r.tool_choice == self.tool_choice,
            r.parallel_tool_calls == self.parallel_tool_calls,
            r.logprobs == self.logprobs && r.top_logprobs == self.top_logprobs,
            r.logit_bias == self.logit_bias && r.response_format == self.response_format,
            r.reasoning_effort == self.reasoning_effort,
    {
        proof {
            reveal_strlit("include_usage");
        }
        let mut f = no_fields();
        push_field(&mut f, "include_usage", JsonValue::Bool(true));
        let opts = JsonValue::Object(f);
        assert(opts@ == include_usage_json());
        GatewayRequest { stream: Some(true), stream_options: Some(opts), ..self }
    }
}

/// A copy of an optional string.
pub fn clone_opt(o: &Option<String>) -> (r: Option<String>)
    ensures
        opt_text(r) == opt_text(*o),
{
    match o {
        Some(s) => Some(s.clone()),
        None => None,
    }
}

/// A copy of an optional JSON value.
pub fn clone_opt_json(o: &Option<JsonValue>) -> (r: Option<JsonValue>)
    ensures
        opt_json(r) == opt_json(*o),
{
    match o {
        Some(v) => Some(v.clone()),
        None => None,
    }
}

/// The reasoning text a value carries: a non-empty string, or an object whose
/// `content` is a non-empty string.
pub open spec fn reasoning_in(v: JsonView) -> Option<Seq<char>> {
    match str_of(v) {
        Some(t) => if t.len() > 0 {
            Some(t)
        } else {
            None
        },
        None => match str_member(v, "content"@) {
            Some(c) => if c.len() > 0 {
                Some(c)
            } else {
                None
            },
            None => None,
        },
    }
}

/// The reasoning text under the member `name` of `extra`.
pub open spec fn reasoning_field(extra: Seq<(Seq<char>, JsonView)>, name: Seq<char>) -> Option<
    Seq<char>,
> {
    match member(extra, name) {
        Some(v) => reasoning_in(v),
        None => None,
    }
}

/// `a`, else `b`.
pub open spec fn or_else(a: Option<Seq<char>>, b: Option<Seq<char>>) -> Option<Seq<char>> {
    match a {
        Some(x) => Some(x),
        None => b,
    }
}

/// The reasoning text of a message's extra members: the first of `reasoning`,
/// `reasoning_content`, `thinking` and `think` that carries one.
pub open spec fn reasoning_of(extra: Seq<(Seq<char>, JsonView)>) -> Option<Seq<char>> {
    or_else(
        reasoning_field(extra, "reasoning"@),
        or_else(
            reasoning_field(extra, "reasoning_content"@),
            or_else(reasoning_field(extra, "thinking"@), reasoning_field(extra, "think"@)),
        ),
    )
}

/// The reasoning text a value carries.
fn reasoning_value(v: &JsonValue) -> (r: Option<String>)
    ensures
        opt_text(r) == reasoning_in(v@),
{
    match v.as_str() {
        Some(t) => if t.as_str().is_empty() {
            None
        } else {
            Some(t.clone())
        },
        None => match v.get_str("content") {
            Some(c) => if c.as_str().is_empty() {
                None
            } else {
                Some(c.clone())
            },
            None => None,
        },
    }
}

/// The reasoning text under the member `name` of `extra`.
fn reasoning_member(extra: &Vec<(String, JsonValue)>, name: &str) -> (r: Option<String>)
    ensures
        opt_text(r) == reasoning_field(fields_view(extra@), name@),
{
    match find_member(extra, name) {
        Some(v) => reasoning_value(v),
        None => None,
    }
}

/// The model of optional reasoning.
pub open spec fn opt_reasoning(r: Option<Reasoning>) -> Option<Seq<char>> {
    match r {
        Some(x) => Some(x.content@),
        None => None,
    }
}

/// Extract reasoning from a message's extra members, under the first of the
/// names providers use that carries one.
pub fn extract_reasoning(extra: &Vec<(String, JsonValue)>) -> (r: Option<Reasoning>)
    ensures
        opt_reasoning(r) == reasoning_of(fields_view(extra@)),
{
    proof {
        reveal_strlit("reasoning");
        reveal_strlit("reasoning_content");
        reveal_strlit("thinking");
        reveal_strlit("think");
    }
    let names = ["reasoning", "reasoning_content", "thinking", "think"];
    let mut i: usize = 0;
    while i < 4
        invariant
            i <= 4,
            names@ == seq!["reasoning", "reasoning_content", "thinking", "think"],
            reasoning_of(fields_view(extra@)) == (if i == 0 {
                reasoning_of(fields_view(extra@))
            } else if i == 1 {
                or_else(
                    reasoning_field(fields_view(extra@), "reasoning_content"@),
                    or_else(
                        reasoning_field(fields_view(extra@), "thinking"@),
                        reasoning_field(fields_view(extra@), "think"@),
                    ),
                )
            } else if i == 2 {
                or_else(
                    reasoning_field(fields_view(extra@), "thinking"@),
                    reasoning_field(fields_view(extra@), "think"@),
                )
            } else if i == 3 {
                reasoning_field(fields_view(extra@), "think"@)
            } else {
                None
            }),
        decreases 4 - i,
    {
        match reasoning_member(extra, names[i]) {
            Some(t) => return Some(Reasoning { content: t }),
            None => {},
        }
        i = i + 1;
    }
    None
}

/// The default object type of a completion response.
pub fn default_object() -> (r: String)
    ensures
        r@ == "chat.completion"@,
{
    String::from_str("chat.completion")
}

/// A function call in a gateway response.
#[derive(Debug, Clone)]
pub struct GatewayFunction {
    pub name: String,
    pub arguments: String,
}

/// A tool call in a gateway response.
#[derive(Debug, Clone)]
pub struct GatewayToolCall {
    pub id: String,
    pub tool_type: String,
    pub function: GatewayFunction,
}

/// A message in a gateway response, with the members the format does not
/// name kept in `extra`.
#[derive(Debug, Clone)]
pub struct GatewayMessage {
    pub role: Option<String>,
    pub content: Option<String>,
    pub tool_calls: Option<Vec<GatewayToolCall>>,
    pub refusal: Option<String>,
    pub extra: Vec<(String, JsonValue)>,
}

/// A choice in a gateway response.
#[derive(Debug, Clone)]
pub struct GatewayChoice {
    pub index: u32,
    pub message: GatewayMessage,
    pub finish_reason: Option<String>,
    pub logprobs: Option<JsonValue>,
}

/// Token usage in a gateway response.
#[derive(Debug, Clone, Copy)]
pub struct GatewayUsage {
    pub prompt_tokens: u32,
    pub completion_tokens: u32,
    pub total_tokens: u32,
}

/// A response from the gateway (OpenAI format).
#[derive(Debug, Clone)]
pub struct GatewayResponse {
    pub id: String,
    pub object: String,
    pub created: i64,
    pub model: String,
    pub choices: Vec<GatewayChoice>,
    pub usage: Option<GatewayUsage>,
    pub system_fingerprint: Option<String>,
}

/// `out` is the tool call `tc` carries.
pub open spec fn tool_call_from(out: ToolCall, tc: GatewayToolCall) -> bool {
    &&& out.id@ == tc.id@
    &&& out.tool_type@ == tc.tool_type@
    &&& out.function.name@ == tc.function.name@
    &&& out.function.arguments@ == tc.function.arguments@
}

/// `out` is the choice `c` carries: an assistant message with its content,
/// refusal, tool calls and the reasoning of its extra members.
pub open spec fn choice_from(out: Choice, c: GatewayChoice) -> bool {
    &&& out.index == c.index
    &&& out.message.role == Role::Assistant
    &&& opt_text(out.message.content) == opt_text(c.message.content)
    &&& opt_text(out.message.refusal) == opt_text(c.message.refusal)
    &&& opt_reasoning(out.message.reasoning) == reasoning_of(fields_view(c.message.extra@))
    &&& match c.message.tool_calls {
        None => out.message.tool_calls is None,
        Some(tcs) => out.message.tool_calls matches Some(o) && o@.len() == tcs@.len() && forall|
            j: int,
        |
            0 <= j < tcs@.len() ==> tool_call_from(#[trigger] o@[j], tcs@[j]),
    }
    &&& opt_text(out.finish_reason) == opt_text(c.finish_reason)
    &&& opt_json(out.logprobs) == opt_json(c.logprobs)
}

/// The usage a gateway usage block reports.
pub open spec fn usage_from(u: Option<GatewayUsage>) -> Option<CompletionUsage> {
    match u {
        Some(x) => Some(
            CompletionUsage {
                prompt_tokens: x.prompt_tokens,
                completion_tokens: x.completion_tokens,
                total_tokens: x.total_tokens,
            },
        ),
        None => None,
    }
}

/// `out` is the completion `resp` carries, choice by choice.
pub open spec fn completion_from(out: ChatCompletion, resp: GatewayResponse) -> bool {
    &&& out.id@ == resp.id@
    &&& out.object@ == resp.object@
    &&& out.created == resp.created
    &&& out.model@ == resp.model@
    &&& out.choices@.len() == resp.choices@.len()
    &&& forall|i: int|
        0 <= i < resp.choices@.len() ==> choice_from(#[trigger] out.choices@[i], resp.choices@[i])
    &&& out.usage == usage_from(resp.usage)
    &&& opt_text(out.system_fingerprint) == opt_text(resp.system_fingerprint)
}

/// Convert one gateway choice.
fn convert_choice(c: &GatewayChoice) -> (r: Choice)
    ensures
        choice_from(r, *c),
{
    let reasoning = extract_reasoning(&c.message.extra);
    let tool_calls = match &c.message.tool_calls {
        Some(tcs) => {
            let mut out: Vec<ToolCall> = Vec::new();
            let mut j: usize = 0;
            while j < tcs.len()
                invariant
                    j <= tcs@.len(),
                    out@.len() == j,
                    forall|k: int| 0 <= k < j ==> tool_call_from(#[trigger] out@[k], tcs@[k]),
                decreases tcs.len() - j,
            {
                let tc = &tcs[j];
                out.push(
                    ToolCall {
                        id: tc.id.clone(),
                        tool_type: tc.tool_type.clone(),
                        function: Function {
                            name: tc.function.name.clone(),
                            arguments: tc.function.arguments.clone(),
                        },
                    },
                );
                j = j + 1;
            }
            Some(out)
        },
        None => None,
    };
    Choice {
        index: c.index,
        message: ChatCompletionMessage {
            role: Role::Assistant,
            content: clone_opt(&c.message.content),
            tool_calls,
            reasoning,
            refusal: clone_opt(&c.message.refusal),
        },
        finish_reason: clone_opt(&c.finish_reason),
        logprobs: clone_opt_json(&c.logprobs),
    }
}

impl GatewayResponse {
    /// Convert the gateway's response to a completion.
    pub fn to_completion(&self) -> (r: ChatCompletion)
        ensures
            completion_from(r, *self),
    {
        let mut choices: Vec<Choice> = Vec::new();
        let mut i: usize = 0;
        while i < self.choices.len()
            invariant
                i <= self.choices@.len(),
                choices@.len() == i,
                forall|k: int| 0 <= k < i ==> choice_from(#[trigger] choices@[k], self.choices@[k]),
            decreases self.choices.len() - i,
        {
            choices.push(convert_choice(&self.choices[i]));
            i = i + 1;
        }
        let usage = match &self.usage {
            Some(u) => Some(
                CompletionUsage {
                    prompt_tokens: u.prompt_tokens,
                    completion_tokens: u.completion_tokens,
                    total_tokens: u.total_tokens,
                },
            ),
            None => None,
        };
        ChatCompletion {
            id: self.id.clone(),
            object: self.object.clone(),
            created: self.created,
            model: self.model.clone(),
            choices,
            usage,
            system_fingerprint: clone_opt(&self.system_fingerprint),
        }
    }
}

/// A function call delta in a raw stream chunk.
#[derive(Debug, Clone)]
pub struct RawFunctionDelta {
    pub name: Option<String>,
    pub arguments: Option<String>,
}

/// A tool call delta in a raw stream chunk.
#[derive(Debug, Clone)]
pub struct RawToolCallDelta {
    pub index: Option<u32>,
    pub id: Option<String>,
    pub tool_type: Option<String>,
    pub function: Option<RawFunctionDelta>,
}

/// A delta in a raw stream chunk, with the members the format does not name
/// kept in `extra`.
#[derive(Debug, Clone)]
pub struct RawDelta {
    pub role: Option<String>,
    pub content: Option<String>,
    pub tool_calls: Option<Vec<RawToolCallDelta>>,
    pub refusal: Option<String>,
    pub extra: Vec<(String, JsonValue)>,
}

/// A choice in a raw stream chunk.
#[derive(Debug, Clone)]
pub struct RawChunkChoice {
    pub index: Option<u32>,
    pub delta: Option<RawDelta>,
    pub finish_reason: Option<String>,
    pub logprobs: Option<JsonValue>,
}

/// Token usage in a raw stream chunk.
#[derive(Debug, Clone, Copy)]
pub struct RawUsage {
    pub prompt_tokens: Option<u32>,
    pub completion_tokens: Option<u32>,
    pub total_tokens: Option<u32>,
}

/// A raw streaming chunk from the gateway: the OpenAI chunk with every member
/// optional.
#[derive(Debug, Clone)]
pub struct GatewayChunkRaw {
    pub id: Option<String>,
    pub object: Option<String>,
    pub created: Option<i64>,
    pub model: Option<String>,
    pub choices: Option<Vec<RawChunkChoice>>,
    pub usage: Option<RawUsage>,
    pub system_fingerprint: Option<String>,
}

/// The role a wire name denotes, if it is one of the four.
pub open spec fn role_of(name: Seq<char>) -> Option<Role> {
    if name == "assistant"@ {
        Some(Role::Assistant)
    } else if name == "system"@ {
        Some(Role::System)
    } else if name == "user"@ {
        Some(Role::User)
    } else if name == "tool"@ {
        Some(Role::Tool)
    } else {
        None
    }
}

/// The role a wire name denotes.
pub fn parse_role(name: &str) -> (r: Option<Role>)
    ensures
        r == role_of(name@),
{
    let n = String::from_str(name);
    if n == String::from_str("assistant") {
        Some(Role::Assistant)
    } else if n == String::from_str("system") {
        Some(Role::System)
    } else if n == String::from_str("user") {
        Some(Role::User)
    } else if n == String::from_str("tool") {
        Some(Role::Tool)
    } else {
        None
    }
}

/// The value or `d`.
pub open spec fn or_u32(o: Option<u32>, d: u32) -> u32 {
    match o {
        Some(x) => x,
        None => d,
    }
}

/// The usage a raw usage block reports: missing counts are 0, and a missing
/// total is the sum of the other two.
pub open spec fn raw_usage_of(u: RawUsage) -> CompletionUsage {
    let prompt = or_u32(u.prompt_tokens, 0);
    let completion = or_u32(u.completion_tokens, 0);
    CompletionUsage {
        prompt_tokens: prompt,
        completion_tokens: completion,
        total_tokens: match u.total_tokens {
            Some(t) => t,
            None => (prompt + completion) as u32,
        },
    }
}

/// A raw usage block whose missing total can be computed without overflow.
pub open spec fn raw_usage_fits(u: RawUsage) -> bool {
    u.total_tokens is None ==> or_u32(u.prompt_tokens, 0) + or_u32(u.completion_tokens, 0)
        <= u32::MAX
}

/// `out` is the tool call delta `d` carries.
pub open spec fn tool_delta_from(out: ToolCallDelta, d: RawToolCallDelta) -> bool {
    &&& out.index == d.index
    &&& opt_text(out.id) == opt_text(d.id)
    &&& opt_text(out.tool_type) == opt_text(d.tool_type)
    &&& match d.function {
        None => out.function is None,
        Some(f) => out.function matches Some(g) && opt_text(g.name) == opt_text(f.name)
            && opt_text(g.arguments) == opt_text(f.arguments),
    }
}

/// `out` is the delta `d` carries: a recognised role, the content, refusal and
/// tool calls, and the reasoning of its extra members.
pub open spec fn delta_from(out: ChoiceDelta, d: RawDelta) -> bool {
    &&& out.role == match d.role {
        Some(r) => role_of(r@),
        None => None,
    }
    &&& opt_text(out.content) == opt_text(d.content)
    &&& opt_text(out.refusal) == opt_text(d.refusal)
    &&& opt_reasoning(out.reasoning) == reasoning_of(fields_view(d.extra@))
    &&& match d.tool_calls {
        None => out.tool_calls is None,
        Some(tcs) => out.tool_calls matches Some(o) && o@.len() == tcs@.len() && forall|j: int|
            0 <= j < tcs@.len() ==> tool_delta_from(#[trigger] o@[j], tcs@[j]),
    }
}

/// A delta that carries nothing.
pub open spec fn delta_empty(d: ChoiceDelta) -> bool {
    &&& d.role is None
    &&& d.content is None
    &&& d.tool_calls is None
    &&& d.reasoning is None
    &&& d.refusal is None
}

/// `out` is the chunk choice `c` carries: index 0 where it has none, an empty
/// delta where it has none.
pub open spec fn chunk_choice_from(out: ChunkChoice, c: RawChunkChoice) -> bool {
    &&& out.index == or_u32(c.index, 0)
    &&& match c.delta {
        Some(d) => delta_from(out.delta, d),
        None => delta_empty(out.delta),
    }
    &&& opt_text(out.finish_reason) == opt_text(c.finish_reason)
    &&& opt_json(out.logprobs) == opt_json(c.logprobs)
}

/// `out` is the chunk `raw` carries, with the defaults for what it lacks: an
/// empty id, the object `chat.completion.chunk`, creation time 0, the
/// fallback model, no choices.
pub open spec fn chunk_from(out: ChatCompletionChunk, raw: GatewayChunkRaw, fallback_model: Seq<
    char,
>) -> bool {
    &&& out.id@ == match raw.id {
        Some(x) => x@,
        None => Seq::empty(),
    }
    &&& out.object@ == match raw.object {
        Some(x) => x@,
        None => "chat.completion.chunk"@,
    }
    &&& out.created == match raw.created {
        Some(c) => c,
        None => 0,
    }
    &&& out.model@ == match raw.model {
        Some(x) => x@,
        None => fallback_model,
    }
    &&& match raw.choices {
        None => out.choices@.len() == 0,
        Some(cs) => out.choices@.len() == cs@.len() && forall|i: int|
            0 <= i < cs@.len() ==> chunk_choice_from(#[trigger] out.choices@[i], cs@[i]),
    }
    &&& out.usage == match raw.usage {
        Some(u) => Some(raw_usage_of(u)),
        None => None,
    }
    &&& opt_text(out.system_fingerprint) == opt_text(raw.system_fingerprint)
}

/// Convert one raw tool call delta.
fn convert_tool_delta(d: &RawToolCallDelta) -> (r: ToolCallDelta)
    ensures
        tool_delta_from(r, *d),
{
    ToolCallDelta {
        index: d.index,
        id: clone_opt(&d.id),
        tool_type: clone_opt(&d.tool_type),
        function: match &d.function {
            Some(f) => Some(
                FunctionDelta { name: clone_opt(&f.name), arguments: clone_opt(&f.arguments) },
            ),
            None => None,
        },
    }
}

/// Convert one raw delta.
fn convert_delta(d: &RawDelta) -> (r: ChoiceDelta)
    ensures
        delta_from(r, *d),
{
    let reasoning = extract_reasoning(&d.extra);
    let tool_calls = match &d.tool_calls {
        Some(tcs) => {
            let mut out: Vec<ToolCallDelta> = Vec::new();
            let mut j: usize = 0;
            while j < tcs.len()
                invariant
                    j <= tcs@.len(),
                    out@.len() == j,
                    forall|k: int| 0 <= k < j ==> tool_delta_from(#[trigger] out@[k], tcs@[k]),
                decreases tcs.len() - j,
            {
                out.push(convert_tool_delta(&tcs[j]));
                j = j + 1;
            }
            Some(out)
        },
        None => None,
    };
    let role = match &d.role {
        Some(r) => parse_role(r.as_str()),
        None => None,
    };
    ChoiceDelta {
        role,
        content: clone_opt(&d.content),
        tool_calls,
        reasoning,
        refusal: clone_opt(&d.refusal),
    }
}

/// Convert one raw chunk choice.
fn convert_chunk_choice(c: &RawChunkChoice) -> (r: ChunkChoice)
    ensures
        chunk_choice_from(r, *c),
{
    let delta = match &c.delta {
        Some(d) => convert_delta(d),
        None => ChoiceDelta::empty(),
    };
    ChunkChoice {
        index: match c.index {
            Some(i) => i,
            None => 0,
        },
        delta,
        finish_reason: clone_opt(&c.finish_reason),
        logprobs: clone_opt_json(&c.logprobs),
    }
}

impl GatewayChunkRaw {
    /// Convert a raw chunk to a completion chunk, taking `fallback_model`
    /// where the chunk names no model.
    pub fn into_chunk(&self, fallback_model: &str) -> (r: ChatCompletionChunk)
        requires
            self.usage matches Some(u) ==> raw_usage_fits(u),
        ensures
            chunk_from(r, *self, fallback_model@),
    {
        let mut choices: Vec<ChunkChoice> = Vec::new();
        match &self.choices {
            Some(cs) => {
                let mut i: usize = 0;
                while i < cs.len()
                    invariant
                        i <= cs@.len(),
                        choices@.len() == i,
                        forall|k: int|
                            0 <= k < i ==> chunk_choice_from(#[trigger] choices@[k], cs@[k]),
                    decreases cs.len() - i,
                {
                    choices.push(convert_chunk_choice(&cs[i]));
                    i = i + 1;
                }
            },
            None => {},
        }
        let usage = match &self.usage {
            Some(u) => {
                let prompt = match u.prompt_tokens {
                    Some(p) => p,
                    None => 0,
                };
                let completion = match u.completion_tokens {
                    Some(c) => c,
                    None => 0,
                };
                let total = match u.total_tokens {
                    Some(t) => t,
                    None => prompt + completion,
                };
                Some(
                    CompletionUsage {
                        prompt_tokens: prompt,
                        completion_tokens: completion,
                        total_tokens: total,
                    },
                )
            },
            None => None,
        };
        proof {
            reveal_strlit("chat.completion.chunk");
        }
        ChatCompletionChunk {
            id: match &self.id {
                Some(x) => x.clone(),
                None => String::new(),
            },
            object: match &self.object {
                Some(x) => x.clone(),
                None => String::from_str("chat.completion.chunk"),
            },
            created: match self.created {
                Some(c) => c,
                None => 0,
            },
            model: match &self.model {
                Some(x) => x.clone(),
                None => String::from_str(fallback_model),
            },
            choices,
            usage,
            system_fingerprint: clone_opt(&self.system_fingerprint),
        }
    }
}

/// The data of a stream event that ends the stream: `[DONE]`, surrounding
/// whitespace aside.
pub open spec fn is_done_data(data: Seq<char>) -> bool {
    trim_ws(data) == "[DONE]"@
}

/// Whether a stream event's data is the `[DONE]` sentinel that ends the stream.
pub fn is_done_sentinel(data: &str) -> (b: bool)
    ensures
        b == is_done_data(data@),
{
    let t = trim(data);
    t == String::from_str("[DONE]")
}

/// Whether a converted chunk is passed on to the caller: chunks with no
/// choices (such as the one for the connection-open event) are dropped.
pub fn keep_chunk(chunk: &ChatCompletionChunk) -> (b: bool)
    ensures
        b == (chunk.choices@.len() > 0),
{
    chunk.choices.len() > 0
}

/// Looking a key up in a tool function's JSON gives the function's name, its
/// description where it has one, and its parameters schema where it has one.
proof fn lemma_tool_function_members(f: ToolFunction)
    ensures
        ({
            let j = tool_function_json(f);
            &&& get_member(j, "name"@) == Some(JsonView::Str(f.name@))
            &&& get_member(j, "description"@) == opt_str(f.description)
            &&& get_member(j, "parameters"@) == opt_json(f.parameters)
        }),
{
    reveal_strlit("name");
    reveal_strlit("description");
    reveal_strlit("parameters");
    assert("name"@.len() != "description"@.len());
    assert("name"@.len() != "parameters"@.len());
    assert("description"@.len() != "parameters"@.len());
    reveal_with_fuel(member, 4);
    let base = seq![("name"@, JsonView::Str(f.name@))];
    let f1 = push_opt(base, "description"@, opt_str(f.description));
    let f2 = push_opt(f1, "parameters"@, opt_json(f.parameters));
    assert(base.subrange(1, 1) =~= Seq::<(Seq<char>, JsonView)>::empty());
    match f.description {
        Some(d) => {
            assert(f1.subrange(1, 2) =~= seq![("description"@, JsonView::Str(d@))]);
            assert(f1.subrange(1, 2).subrange(1, 1) =~= Seq::<(Seq<char>, JsonView)>::empty());
            match f.parameters {
                Some(p) => {
                    assert(f2.subrange(1, 3) =~= seq![
                        ("description"@, JsonView::Str(d@)),
                        ("parameters"@, p@),
                    ]);
                    assert(f2.subrange(1, 3).subrange(1, 2) =~= seq![("parameters"@, p@)]);
                    assert(f2.subrange(1, 3).subrange(1, 2).subrange(1, 1) =~= Seq::<
                        (Seq<char>, JsonView),
                    >::empty());
                },
                None => {},
            }
        },
        None => {
            match f.parameters {
                Some(p) => {
                    assert(f2.subrange(1, 2) =~= seq![("parameters"@, p@)]);
                    assert(f2.subrange(1, 2).subrange(1, 1) =~= Seq::<(Seq<char>, JsonView)>::empty());
                },
                None => {},
            }
        },
    }
}

/// Every tool of the parameters is sent, in order: its `type`, and a
/// `function` whose `name` is the function's name, whose `description` is
/// there exactly when the function has one, and whose `parameters` is the
/// function's JSON schema exactly when it has one.
pub proof fn law_tools_sent_whole(r: GatewayRequest, params: CompletionParams, i: int)
    requires
        request_of(r, params),
        params.tools is Some,
        0 <= i < params.tools->0@.len(),
    ensures
        ({
            let t = params.tools->0@[i];
            let tj = r.tools->0@;
            &&& r.tools is Some
            &&& tj is Array
            &&& tj->Array_0.len() == params.tools->0@.len()
            &&& get_member(tj->Array_0[i], "type"@) == Some(JsonView::Str(t.tool_type@))
            &&& get_member(tj->Array_0[i], "function"@) is Some
            &&& get_member(get_member(tj->Array_0[i], "function"@)->0, "name"@) == Some(
                JsonView::Str(t.function.name@),
            )
            &&& get_member(get_member(tj->Array_0[i], "function"@)->0, "description"@) == match t.function.description {
                Some(d) => Some(JsonView::Str(d@)),
                None => None,
            }
            &&& get_member(get_member(tj->Array_0[i], "function"@)->0, "parameters"@) == match t.function.parameters {
                Some(p) => Some(p@),
                None => None,
            }
        }),
{
    let t = params.tools->0@[i];
    reveal_strlit("type");
    reveal_strlit("function");
    assert("type"@.len() != "function"@.len());
    reveal_with_fuel(member, 3);
    let fields = seq![("type"@, JsonView::Str(t.tool_type@)), ("function"@, tool_function_json(t.function))];
    assert(fields.subrange(1, 2) =~= seq![("function"@, tool_function_json(t.function))]);
    assert(tools_json(params.tools->0@)->Array_0[i] == tool_json(t));
    lemma_tool_function_members(t.function);
}

/// A converted chunk's usage keeps the reported counts (missing ones as 0),
/// and its total is the reported total, or the sum of the two counts where the
/// gateway reports none.
pub proof fn law_chunk_usage_total(c: ChatCompletionChunk, raw: GatewayChunkRaw, model: Seq<char>)
    requires
        raw.usage matches Some(u) ==> raw_usage_fits(u),
        chunk_from(c, raw, model),
    ensures
        raw.usage is None ==> c.usage is None,
        raw.usage matches Some(u) ==> (c.usage matches Some(x) && x.prompt_tokens == or_u32(
            u.prompt_tokens,
            0,
        ) && x.completion_tokens == or_u32(u.completion_tokens, 0) && x.total_tokens == match u.total_tokens {
            Some(t) => t as int,
            None => x.prompt_tokens + x.completion_tokens,
        }),
{
}

} // verus!
