//! The Anthropic Messages API format: the request body built from completion
//! parameters (system prompt apart, tool results folded into user turns), and
//! the response and stream events converted back.

use vstd::prelude::*;

use crate::error::{ErrorView, OtariError};
use crate::gateway::{opt_json, opt_text, texts_json};
use crate::json::{
    JsonValue, JsonView, fields_view, get_member, items_view, json_parse, member, no_fields, no_items,
    parse_json, push_field, push_item, set_field, set_member,
};
use crate::text::{decimal, u64_to_decimal};
use crate::types::chunk::{ChatCompletionChunk, ChoiceDelta, ChunkChoice};
use crate::types::completion::{
    ChatCompletion, ChatCompletionMessage, Choice, CompletionParams, Float32, Reasoning,
    ReasoningEffort, stop_list,
};
use crate::types::message::{Content, ContentPart, Message, Role, base64_parts, content_text};
use crate::types::tool::{FunctionDelta, Tool, ToolCall, ToolCallDelta, ToolChoice};
use crate::types::usage::CompletionUsage;

verus! {

/// The provider name of the Anthropic API's errors.
pub open spec fn anthropic_name() -> Seq<char> {
    "anthropic"@
}

/// The default `max_tokens`, which the Anthropic API requires.
pub open spec fn default_max_tokens() -> u32 {
    8192
}

/// Where the Anthropic documentation explains how to get consistent output
/// without a response format.
pub open spec fn response_format_hint() -> Seq<char> {
    "See https://docs.anthropic.com/en/docs/test-and-evaluate/strengthen-guardrails/increase-consistency"@
}

/// The thinking budget, in tokens, of a reasoning effort.
pub open spec fn effort_budget(effort: ReasoningEffort) -> Option<u32> {
    match effort {
        ReasoningEffort::Disabled => None,
        ReasoningEffort::Minimal => Some(1024),
        ReasoningEffort::Low => Some(2048),
        ReasoningEffort::Medium => Some(8192),
        ReasoningEffort::High => Some(24576),
        ReasoningEffort::Auto => None,
    }
}

/// The thinking budget of a reasoning effort: none for `Disabled` and for
/// `Auto` (where Anthropic decides).
pub fn reasoning_effort_to_budget(effort: ReasoningEffort) -> (r: Option<u32>)
    ensures
        r == effort_budget(effort),
{
    match effort {
        ReasoningEffort::Disabled => None,
        ReasoningEffort::Minimal => Some(1024),
        ReasoningEffort::Low => Some(2048),
        ReasoningEffort::Medium => Some(8192),
        ReasoningEffort::High => Some(24576),
        ReasoningEffort::Auto => None,
    }
}

/// The texts of the system messages that have content, in order.
pub open spec fn system_texts(ms: Seq<Message>) -> Seq<Seq<char>>
    decreases ms.len(),
{
    if ms.len() == 0 {
        Seq::empty()
    } else {
        let init = system_texts(ms.drop_last());
        if ms.last().role == Role::System {
            match ms.last().content {
                Some(c) => init.push(content_text(c)),
                None => init,
            }
        } else {
            init
        }
    }
}

/// The messages that are not system messages, in order.
pub open spec fn non_system(ms: Seq<Message>) -> Seq<Message>
    decreases ms.len(),
{
    if ms.len() == 0 {
        Seq::empty()
    } else if ms.last().role == Role::System {
        non_system(ms.drop_last())
    } else {
        non_system(ms.drop_last()).push(ms.last())
    }
}

/// `parts` joined with a newline between each two.
pub open spec fn join_lines(parts: Seq<Seq<char>>) -> Seq<char>
    decreases parts.len(),
{
    if parts.len() == 0 {
        Seq::empty()
    } else if parts.len() == 1 {
        parts[0]
    } else {
        join_lines(parts.drop_last()) + "\n"@ + parts.last()
    }
}

/// The system prompt of a conversation: its system texts joined by newlines,
/// or none where there is none.
pub open spec fn system_prompt(ms: Seq<Message>) -> Option<Seq<char>> {
    if system_texts(ms).len() == 0 {
        None
    } else {
        Some(join_lines(system_texts(ms)))
    }
}

/// Split a conversation into its system prompt and its other messages.
pub fn extract_system_messages<'a>(messages: &'a Vec<Message>) -> (r: (Option<String>, Vec<&'a Message>))
    ensures
        opt_text(r.0) == system_prompt(messages@),
        r.1@.len() == non_system(messages@).len(),
        forall|i: int| 0 <= i < r.1@.len() ==> *#[trigger] r.1@[i] == non_system(messages@)[i],
{
    let mut system = String::new();
    let mut count: usize = 0;
    let mut filtered: Vec<&'a Message> = Vec::new();
    let mut i: usize = 0;
    proof {
        reveal_strlit("\n");
    }
    while i < messages.len()
        invariant
            i <= messages@.len(),
            count <= i,
            count == 0 ==> system@.len() == 0,
            count == system_texts(messages@.take(i as int)).len(),
            count > 0 ==> system@ == join_lines(system_texts(messages@.take(i as int))),
            filtered@.len() == non_system(messages@.take(i as int)).len(),
            forall|k: int|
                0 <= k < filtered@.len() ==> *#[trigger] filtered@[k] == non_system(
                    messages@.take(i as int),
                )[k],
        decreases messages.len() - i,
    {
        let ghost prev = messages@.take(i as int);
        assert(messages@.take(i + 1).drop_last() =~= prev);
        let msg = &messages[i];
        if msg.role == Role::System {
            match &msg.content {
                Some(c) => {
                    let text = c.extract_text();
                    if count > 0 {
                        system.append("\n");
                    }
                    system.append(text.as_str());
                    assert(count == 0 ==> system@ =~= text@);
                    assert(count > 0 ==> system@ =~= join_lines(system_texts(prev)) + "\n"@ + text@);
                    assert(system_texts(messages@.take(i + 1)) == system_texts(prev).push(text@));
                    assert(system_texts(prev).push(text@).drop_last() =~= system_texts(prev));
                    count = count + 1;
                },
                None => {},
            }
        } else {
            filtered.push(msg);
        }
        i = i + 1;
    }
    assert(messages@.take(messages@.len() as int) =~= messages@);
    let system = if count == 0 {
        None
    } else {
        Some(system)
    };
    (system, filtered)
}

/// An object from its members.
pub open spec fn obj(fields: Seq<(Seq<char>, JsonView)>) -> JsonView {
    JsonView::Object(fields)
}

/// A string value.
pub open spec fn jstr(s: Seq<char>) -> JsonView {
    JsonView::Str(s)
}

/// The Anthropic JSON of a content part: text as a text block; an image as an
/// image block whose source is the base64 data of a `data:` URL, else the URL.
pub open spec fn anthropic_part_json(p: ContentPart) -> JsonView {
    match p {
        ContentPart::Text { text } => obj(seq![("type"@, jstr("text"@)), ("text"@, jstr(text@))]),
        ContentPart::ImageUrl { image_url } => obj(
            seq![("type"@, jstr("image"@)), ("source"@, image_source_json(image_url.url@))],
        ),
    }
}

/// The source of an image block: the base64 data of a `data:` URL, else the URL.
pub open spec fn image_source_json(url: Seq<char>) -> JsonView {
    match base64_parts(url) {
        Some((media_type, data)) => obj(
            seq![("type"@, jstr("base64"@)), ("media_type"@, jstr(media_type)), ("data"@, jstr(data))],
        ),
        None => obj(seq![("type"@, jstr("url"@)), ("url"@, jstr(url))]),
    }
}

/// The Anthropic JSON of a message's content: an empty string for none, the
/// text as a string, the parts as an array of blocks.
pub open spec fn anthropic_content_json(c: Option<Content>) -> JsonView {
    match c {
        None => jstr(Seq::empty()),
        Some(Content::Text(t)) => jstr(t@),
        Some(Content::Parts(ps)) => JsonView::Array(
            Seq::new(ps@.len(), |i: int| anthropic_part_json(ps@[i])),
        ),
    }
}

/// The JSON of one content part.
fn part_to_json(p: &ContentPart) -> (r: JsonValue)
    ensures
        r@ == anthropic_part_json(*p),
{
    proof {
        reveal_strlit("type");
        reveal_strlit("text");
        reveal_strlit("image");
        reveal_strlit("source");
        reveal_strlit("base64");
        reveal_strlit("media_type");
        reveal_strlit("data");
        reveal_strlit("url");
    }
    match p {
        ContentPart::Text { text } => {
            let mut f = no_fields();
            push_field(&mut f, "type", JsonValue::string("text"));
            push_field(&mut f, "text", JsonValue::Str(text.clone()));
            assert(fields_view(f@) =~= seq![("type"@, jstr("text"@)), ("text"@, jstr(text@))]);
            let r = JsonValue::Object(f);
            assert(r@ == obj(seq![("type"@, jstr("text"@)), ("text"@, jstr(text@))]));
            r
        },
        ContentPart::ImageUrl { image_url } => {
            let mut src = no_fields();
            match image_url.parse_base64() {
                Some((media_type, data)) => {
                    push_field(&mut src, "type", JsonValue::string("base64"));
                    push_field(&mut src, "media_type", JsonValue::string(media_type));
                    push_field(&mut src, "data", JsonValue::string(data));
                },
                None => {
                    push_field(&mut src, "type", JsonValue::string("url"));
                    push_field(&mut src, "url", JsonValue::Str(image_url.url.clone()));
                },
            }
            let sv = JsonValue::Object(src);
            let ghost expect = image_source_json(image_url.url@);
            assert(fields_view(src@) =~= expect->Object_0);
            assert(sv@ == expect);
            let mut f = no_fields();
            push_field(&mut f, "type", JsonValue::string("image"));
            push_field(&mut f, "source", sv);
            assert(fields_view(f@) =~= seq![("type"@, jstr("image"@)), ("source"@, expect)]);
            let r = JsonValue::Object(f);
            assert(r@ == obj(seq![("type"@, jstr("image"@)), ("source"@, expect)]));
            r
        },
    }
}

/// Convert a message's content to the Anthropic format.
pub fn convert_content(content: &Option<Content>) -> (r: JsonValue)
    ensures
        r@ == anthropic_content_json(*content),
{
    match content {
        None => JsonValue::Str(String::new()),
        Some(Content::Text(t)) => JsonValue::Str(t.clone()),
        Some(Content::Parts(ps)) => {
            let mut items = no_items();
            let mut i: usize = 0;
            while i < ps.len()
                invariant
                    i <= ps@.len(),
                    items_view(items@) == Seq::new(i as nat, |k: int| anthropic_part_json(ps@[k])),
                decreases ps.len() - i,
            {
                push_item(&mut items, part_to_json(&ps[i]));
                assert(items_view(items@) =~= Seq::new((i + 1) as nat, |k: int| anthropic_part_json(ps@[k])));
                i = i + 1;
            }
            JsonValue::Array(items)
        },
    }
}

/// The `input` of a tool-use block: the call's arguments parsed as JSON, or an
/// empty object where they are not JSON.
pub open spec fn tool_input_json(args: Seq<char>) -> JsonView {
    match json_parse(args) {
        Some(v) => v,
        None => obj(Seq::empty()),
    }
}

/// The tool-use block of a tool call.
pub open spec fn tool_use_json(tc: ToolCall) -> JsonView {
    obj(
        seq![
            ("type"@, jstr("tool_use"@)),
            ("id"@, jstr(tc.id@)),
            ("name"@, jstr(tc.function.name@)),
            ("input"@, tool_input_json(tc.function.arguments@)),
        ],
    )
}

/// The text of an optional content; empty where there is none.
pub open spec fn text_or_empty(c: Option<Content>) -> Seq<char> {
    match c {
        Some(x) => content_text(x),
        None => Seq::empty(),
    }
}

/// The text of an optional string; empty where there is none.
pub open spec fn string_or_empty(o: Option<String>) -> Seq<char> {
    match o {
        Some(x) => x@,
        None => Seq::empty(),
    }
}

/// The tool-result block of a tool message.
pub open spec fn tool_result_json(m: Message) -> JsonView {
    obj(
        seq![
            ("type"@, jstr("tool_result"@)),
            ("tool_use_id"@, jstr(string_or_empty(m.tool_call_id))),
            ("content"@, jstr(text_or_empty(m.content))),
        ],
    )
}

/// A conversation turn.
pub open spec fn turn(role: Seq<char>, content: JsonView) -> JsonView {
    obj(seq![("role"@, jstr(role)), ("content"@, content)])
}

/// Whether a turn is a user turn whose content is an array that starts with a
/// tool-result block, so that a further tool result joins it.
pub open spec fn accepts_tool_result(last: JsonView) -> bool {
    &&& get_member(last, "role"@) == Some(jstr("user"@))
    &&& match get_member(last, "content"@) {
        Some(JsonView::Array(arr)) => arr.len() > 0 && get_member(arr[0], "type"@) == Some(
            jstr("tool_result"@),
        ),
        _ => false,
    }
}

/// A turn with a block appended to its content array.
pub open spec fn with_block(last: JsonView, block: JsonView) -> JsonView {
    match last {
        JsonView::Object(fields) => match get_member(last, "content"@) {
            Some(JsonView::Array(arr)) => JsonView::Object(
                set_member(fields, "content"@, JsonView::Array(arr.push(block))),
            ),
            _ => last,
        },
        _ => last,
    }
}

/// The Anthropic turn of an assistant message: its tool calls as tool-use
/// blocks, else its text.
pub open spec fn assistant_turn(m: Message) -> JsonView {
    match m.tool_calls {
        Some(tcs) => turn(
            "assistant"@,
            JsonView::Array(Seq::new(tcs@.len(), |i: int| tool_use_json(tcs@[i]))),
        ),
        None => turn("assistant"@, jstr(text_or_empty(m.content))),
    }
}

/// The turns after one more message: a user or assistant message is a turn of
/// its own, a tool result joins the previous user turn of tool results or
/// starts one, and a system message is left out.
pub open spec fn message_step(acc: Seq<JsonView>, m: Message) -> Seq<JsonView> {
    match m.role {
        Role::System => acc,
        Role::User => acc.push(turn("user"@, anthropic_content_json(m.content))),
        Role::Assistant => acc.push(assistant_turn(m)),
        Role::Tool => if acc.len() > 0 && accepts_tool_result(acc.last()) {
            acc.update(acc.len() - 1, with_block(acc.last(), tool_result_json(m)))
        } else {
            acc.push(turn("user"@, JsonView::Array(seq![tool_result_json(m)])))
        },
    }
}

/// The Anthropic turns of a conversation, message by message.
pub open spec fn anthropic_messages(ms: Seq<Message>) -> Seq<JsonView>
    decreases ms.len(),
{
    if ms.len() == 0 {
        Seq::empty()
    } else {
        message_step(anthropic_messages(ms.drop_last()), ms.last())
    }
}

/// A turn of the given role and content.
fn make_turn(role: &str, content: JsonValue) -> (r: JsonValue)
    ensures
        r@ == turn(role@, content@),
{
    proof {
        reveal_strlit("role");
        reveal_strlit("content");
    }
    let mut f = no_fields();
    push_field(&mut f, "role", JsonValue::string(role));
    push_field(&mut f, "content", content);
    assert(fields_view(f@) =~= seq![("role"@, jstr(role@)), ("content"@, content@)]);
    JsonValue::Object(f)
}

/// The tool-use block of a tool call.
fn tool_use_block(tc: &ToolCall) -> (r: JsonValue)
    ensures
        r@ == tool_use_json(*tc),
{
    proof {
        reveal_strlit("type");
        reveal_strlit("tool_use");
        reveal_strlit("id");
        reveal_strlit("name");
        reveal_strlit("input");
    }
    let input = match parse_json(tc.function.arguments.as_str()) {
        Some(v) => v,
        None => JsonValue::empty_object(),
    };
    let mut f = no_fields();
    push_field(&mut f, "type", JsonValue::string("tool_use"));
    push_field(&mut f, "id", JsonValue::Str(tc.id.clone()));
    push_field(&mut f, "name", JsonValue::Str(tc.function.name.clone()));
    push_field(&mut f, "input", input);
    assert(fields_view(f@) =~= seq![
        ("type"@, jstr("tool_use"@)),
        ("id"@, jstr(tc.id@)),
        ("name"@, jstr(tc.function.name@)),
        ("input"@, tool_input_json(tc.function.arguments@)),
    ]);
    JsonValue::Object(f)
}

/// The tool-result block of a tool message.
fn tool_result_block(m: &Message) -> (r: JsonValue)
    ensures
        r@ == tool_result_json(*m),
{
    proof {
        reveal_strlit("type");
        reveal_strlit("tool_result");
        reveal_strlit("tool_use_id");
        reveal_strlit("content");
    }
    let id = match &m.tool_call_id {
        Some(x) => x.clone(),
        None => String::new(),
    };
    let text = match &m.content {
        Some(c) => c.extract_text(),
        None => String::new(),
    };
    let mut f = no_fields();
    push_field(&mut f, "type", JsonValue::string("tool_result"));
    push_field(&mut f, "tool_use_id", JsonValue::Str(id));
    push_field(&mut f, "content", JsonValue::Str(text));
    assert(fields_view(f@) =~= seq![
        ("type"@, jstr("tool_result"@)),
        ("tool_use_id"@, jstr(string_or_empty(m.tool_call_id))),
        ("content"@, jstr(text_or_empty(m.content))),
    ]);
    JsonValue::Object(f)
}

/// The Anthropic turn of an assistant message.
fn assistant_turn_of(m: &Message) -> (r: JsonValue)
    ensures
        r@ == assistant_turn(*m),
{
    proof {
        reveal_strlit("assistant");
    }
    match &m.tool_calls {
        Some(tcs) => {
            let mut items = no_items();
            let mut j: usize = 0;
            while j < tcs.len()
                invariant
                    j <= tcs@.len(),
                    items_view(items@) == Seq::new(j as nat, |k: int| tool_use_json(tcs@[k])),
                decreases tcs.len() - j,
            {
                push_item(&mut items, tool_use_block(&tcs[j]));
                assert(items_view(items@) =~= Seq::new((j + 1) as nat, |k: int| tool_use_json(tcs@[k])));
                j = j + 1;
            }
            make_turn("assistant", JsonValue::Array(items))
        },
        None => {
            let text = match &m.content {
                Some(c) => c.extract_text(),
                None => String::new(),
            };
            make_turn("assistant", JsonValue::Str(text))
        },
    }
}

/// Whether a turn accepts a further tool result.
fn accepts_tool_result_exec(last: &JsonValue) -> (b: bool)
    ensures
        b == accepts_tool_result(last@),
{
    proof {
        reveal_strlit("role");
        reveal_strlit("user");
        reveal_strlit("content");
        reveal_strlit("type");
        reveal_strlit("tool_result");
    }
    let role_user = match last.get("role") {
        Some(r) => match r.as_str() {
            Some(s) => *s == String::from_str("user"),
            None => false,
        },
        None => false,
    };
    if !role_user {
        return false;
    }
    match last.get("content") {
        Some(JsonValue::Array(arr)) => {
            if arr.len() == 0 {
                return false;
            }
            proof {
                crate::json::lemma_items_view(arr@);
            }
            match arr[0].get("type") {
                Some(t) => match t.as_str() {
                    Some(s) => *s == String::from_str("tool_result"),
                    None => false,
                },
                None => false,
            }
        },
        _ => false,
    }
}

/// Append a block to a turn's content array.
fn add_block(last: JsonValue, block: JsonValue) -> (r: JsonValue)
    ensures
        r@ == with_block(last@, block@),
{
    proof {
        reveal_strlit("content");
    }
    match last {
        JsonValue::Object(fields) => {
            let mut fields = fields;
            let content = match crate::json::find_member(&fields, "content") {
                Some(c) => c.clone(),
                None => return JsonValue::Object(fields),
            };
            match content {
                JsonValue::Array(arr) => {
                    let mut arr = arr;
                    push_item(&mut arr, block);
                    set_field(&mut fields, "content", JsonValue::Array(arr));
                    JsonValue::Object(fields)
                },
                other => JsonValue::Object(fields),
            }
        },
        other => other,
    }
}

/// Convert the conversation (system messages apart) to Anthropic turns.
pub fn convert_messages(messages: &Vec<&Message>) -> (r: Vec<JsonValue>)
    ensures
        items_view(r@) == anthropic_messages(messages@.map_values(|m: &Message| *m)),
{
    let ghost ms = messages@.map_values(|m: &Message| *m);
    let mut result = no_items();
    let mut i: usize = 0;
    proof {
        reveal_strlit("user");
    }
    while i < messages.len()
        invariant
            i <= messages@.len(),
            ms == messages@.map_values(|m: &Message| *m),
            items_view(result@) == anthropic_messages(ms.take(i as int)),
        decreases messages.len() - i,
    {
        let msg: &Message = messages[i];
        let ghost acc = items_view(result@);
        assert(ms.take(i + 1).drop_last() =~= ms.take(i as int));
        assert(ms.take(i + 1).last() == *msg);
        match msg.role {
            Role::System => {},
            Role::User => {
                push_item(&mut result, make_turn("user", convert_content(&msg.content)));
            },
            Role::Assistant => {
                push_item(&mut result, assistant_turn_of(msg));
            },
            Role::Tool => {
                let tr = tool_result_block(msg);
                let n = result.len();
                proof {
                    crate::json::lemma_items_view(result@);
                }
                if n > 0 && accepts_tool_result_exec(&result[n - 1]) {
                    let last = result.pop().unwrap();
                    proof {
                        crate::json::lemma_items_view(result@);
                        assert(last@ == acc.last());
                    }
                    let merged = add_block(last, tr);
                    push_item(&mut result, merged);
                    proof {
                        crate::json::lemma_items_view(result@);
                        assert(items_view(result@) =~= acc.update(acc.len() - 1, with_block(acc.last(), tool_result_json(*msg))));
                    }
                } else {
                    let mut one = no_items();
                    push_item(&mut one, tr);
                    assert(items_view(one@) =~= seq![tool_result_json(*msg)]);
                    push_item(&mut result, make_turn("user", JsonValue::Array(one)));
                }
            },
        }
        i = i + 1;
    }
    assert(ms.take(messages@.len() as int) =~= ms);
    result
}

/// The value of member `key` of `v`, or `d` where there is none.
pub open spec fn member_or(v: JsonView, key: Seq<char>, d: JsonView) -> JsonView {
    match get_member(v, key) {
        Some(x) => x,
        None => d,
    }
}

/// The parameters schema of a tool, an empty object where it has none.
pub open spec fn tool_params(t: Tool) -> JsonView {
    match t.function.parameters {
        Some(p) => p@,
        None => obj(Seq::empty()),
    }
}

/// The input schema of an Anthropic tool: an object type with the schema's
/// `properties` (empty where missing) and `required` (empty where missing).
pub open spec fn input_schema_json(params: JsonView) -> JsonView {
    obj(
        seq![
            ("type"@, jstr("object"@)),
            ("properties"@, member_or(params, "properties"@, obj(Seq::empty()))),
            ("required"@, member_or(params, "required"@, JsonView::Array(Seq::empty()))),
        ],
    )
}

/// The Anthropic form of a function tool.
pub open spec fn anthropic_tool_json(t: Tool) -> JsonView {
    obj(
        seq![
            ("name"@, jstr(t.function.name@)),
            ("description"@, jstr(string_or_empty(t.function.description))),
            ("input_schema"@, input_schema_json(tool_params(t))),
        ],
    )
}

/// The Anthropic forms of the function tools among `ts`, in order; tools of
/// any other type are left out.
pub open spec fn anthropic_tools(ts: Seq<Tool>) -> Seq<JsonView>
    decreases ts.len(),
{
    if ts.len() == 0 {
        Seq::empty()
    } else if ts.last().tool_type@ == "function"@ {
        anthropic_tools(ts.drop_last()).push(anthropic_tool_json(ts.last()))
    } else {
        anthropic_tools(ts.drop_last())
    }
}

/// A copy of member `key` of `v`, or `d` where there is none.
fn member_or_exec(v: &JsonValue, key: &str, d: JsonValue) -> (r: JsonValue)
    ensures
        r@ == member_or(v@, key@, d@),
{
    match v.get(key) {
        Some(x) => x.clone(),
        None => d,
    }
}

/// The Anthropic form of a tool.
fn tool_to_json(t: &Tool) -> (r: JsonValue)
    ensures
        r@ == anthropic_tool_json(*t),
{
    proof {
        reveal_strlit("type");
        reveal_strlit("object");
        reveal_strlit("properties");
        reveal_strlit("required");
        reveal_strlit("name");
        reveal_strlit("description");
        reveal_strlit("input_schema");
    }
    let params = match &t.function.parameters {
        Some(p) => p.clone(),
        None => JsonValue::empty_object(),
    };
    let properties = member_or_exec(&params, "properties", JsonValue::empty_object());
    let required = member_or_exec(&params, "required", JsonValue::array(no_items()));
    let mut schema = no_fields();
    push_field(&mut schema, "type", JsonValue::string("object"));
    push_field(&mut schema, "properties", properties);
    push_field(&mut schema, "required", required);
    assert(fields_view(schema@) =~= seq![
        ("type"@, jstr("object"@)),
        ("properties"@, member_or(params@, "properties"@, obj(Seq::empty()))),
        ("required"@, member_or(params@, "required"@, JsonView::Array(Seq::empty()))),
    ]);
    let sv = JsonValue::Object(schema);
    let desc = match &t.function.description {
        Some(d) => d.clone(),
        None => String::new(),
    };
    let mut f = no_fields();
    push_field(&mut f, "name", JsonValue::Str(t.function.name.clone()));
    push_field(&mut f, "description", JsonValue::Str(desc));
    push_field(&mut f, "input_schema", sv);
    assert(fields_view(f@) =~= seq![
        ("name"@, jstr(t.function.name@)),
        ("description"@, jstr(string_or_empty(t.function.description))),
        ("input_schema"@, input_schema_json(tool_params(*t))),
    ]);
    JsonValue::Object(f)
}

/// Convert tools to the Anthropic format, keeping the function tools.
pub fn convert_tools(tools: &Vec<Tool>) -> (r: Vec<JsonValue>)
    ensures
        items_view(r@) == anthropic_tools(tools@),
{
    let mut out = no_items();
    let mut i: usize = 0;
    proof {
        reveal_strlit("function");
    }
    while i < tools.len()
        invariant
            i <= tools@.len(),
            items_view(out@) == anthropic_tools(tools@.take(i as int)),
        decreases tools.len() - i,
    {
        assert(tools@.take(i + 1).drop_last() =~= tools@.take(i as int));
        if tools[i].tool_type == String::from_str("function") {
            push_item(&mut out, tool_to_json(&tools[i]));
        }
        i = i + 1;
    }
    assert(tools@.take(tools@.len() as int) =~= tools@);
    out
}

/// The Anthropic tool-choice type of a mode: `none` and `auto` as they are,
/// `required` as `any`, anything else as `auto`.
pub open spec fn choice_type_for(mode: Seq<char>) -> Seq<char> {
    if mode == "none"@ {
        "none"@
    } else if mode == "auto"@ {
        "auto"@
    } else if mode == "required"@ {
        "any"@
    } else {
        "auto"@
    }
}

/// Whether parallel tool use is disabled: only where parallel tool calls are
/// explicitly refused.
pub open spec fn disable_parallel(ptc: Option<bool>) -> bool {
    match ptc {
        Some(b) => !b,
        None => false,
    }
}

/// The Anthropic form of a tool choice.
pub open spec fn anthropic_tool_choice(c: ToolChoice, ptc: Option<bool>) -> JsonView {
    match c {
        ToolChoice::Mode(m) => obj(
            seq![
                ("type"@, jstr(choice_type_for(m@))),
                ("disable_parallel_tool_use"@, JsonView::Bool(disable_parallel(ptc))),
            ],
        ),
        ToolChoice::Function { function, .. } => obj(
            seq![
                ("type"@, jstr("tool"@)),
                ("name"@, jstr(function.name@)),
                ("disable_parallel_tool_use"@, JsonView::Bool(disable_parallel(ptc))),
            ],
        ),
    }
}

/// Convert a tool choice to the Anthropic format.
pub fn convert_tool_choice(choice: &ToolChoice, parallel_tool_calls: Option<bool>) -> (r: JsonValue)
    ensures
        r@ == anthropic_tool_choice(*choice, parallel_tool_calls),
{
    proof {
        reveal_strlit("type");
        reveal_strlit("name");
        reveal_strlit("tool");
        reveal_strlit("disable_parallel_tool_use");
        reveal_strlit("none");
        reveal_strlit("auto");
        reveal_strlit("required");
        reveal_strlit("any");
    }
    let disable = match parallel_tool_calls {
        Some(b) => !b,
        None => false,
    };
    let mut f = no_fields();
    match choice {
        ToolChoice::Mode(mode) => {
            let t = if *mode == String::from_str("none") {
                "none"
            } else if *mode == String::from_str("auto") {
                "auto"
            } else if *mode == String::from_str("required") {
                "any"
            } else {
                "auto"
            };
            push_field(&mut f, "type", JsonValue::string(t));
            push_field(&mut f, "disable_parallel_tool_use", JsonValue::Bool(disable));
            assert(fields_view(f@) =~= seq![
                ("type"@, jstr(choice_type_for(mode@))),
                ("disable_parallel_tool_use"@, JsonView::Bool(disable_parallel(parallel_tool_calls))),
            ]);
        },
        ToolChoice::Function { function, .. } => {
            push_field(&mut f, "type", JsonValue::string("tool"));
            push_field(&mut f, "name", JsonValue::Str(function.name.clone()));
            push_field(&mut f, "disable_parallel_tool_use", JsonValue::Bool(disable));
            assert(fields_view(f@) =~= seq![
                ("type"@, jstr("tool"@)),
                ("name"@, jstr(function.name@)),
                ("disable_parallel_tool_use"@, JsonView::Bool(disable_parallel(parallel_tool_calls))),
            ]);
        },
    }
    JsonValue::Object(f)
}

/// The thinking configuration of a reasoning effort: disabled for `Disabled`,
/// none for `Auto` (Anthropic's default), else enabled with the effort's
/// budget.
pub open spec fn thinking_json(e: Option<ReasoningEffort>) -> Option<JsonView> {
    match e {
        None => None,
        Some(ReasoningEffort::Disabled) => Some(obj(seq![("type"@, jstr("disabled"@))])),
        Some(ReasoningEffort::Auto) => None,
        Some(x) => match effort_budget(x) {
            Some(b) => Some(
                obj(
                    seq![
                        ("type"@, jstr("enabled"@)),
                        ("budget_tokens"@, JsonView::Number(decimal(b as nat))),
                    ],
                ),
            ),
            None => None,
        },
    }
}

/// The tool choice sent: the converted choice, else (where only parallel tool
/// calls are set) `auto` with parallel use disabled as asked, else none.
pub open spec fn request_tool_choice(c: Option<ToolChoice>, ptc: Option<bool>) -> Option<JsonView> {
    match c {
        Some(x) => Some(anthropic_tool_choice(x, ptc)),
        None => match ptc {
            Some(p) => Some(
                obj(
                    seq![
                        ("type"@, jstr("auto"@)),
                        ("disable_parallel_tool_use"@, JsonView::Bool(!p)),
                    ],
                ),
            ),
            None => None,
        },
    }
}

/// Request body for the Anthropic Messages API.
#[derive(Debug)]
pub struct AnthropicRequest {
    pub model: String,
    pub messages: Vec<JsonValue>,
    pub max_tokens: u32,
    pub system: Option<String>,
    pub temperature: Option<Float32>,
    pub top_p: Option<Float32>,
    pub stop_sequences: Option<JsonValue>,
    pub tools: Option<Vec<JsonValue>>,
    pub tool_choice: Option<JsonValue>,
    pub reasoning: Option<JsonValue>,
    pub stream: Option<bool>,
}

/// `r` is the Anthropic request for `params`: the system prompt apart, the
/// other messages as turns, `max_tokens` defaulted, the function tools, the
/// tool choice and thinking configuration converted, no streaming.
pub open spec fn anthropic_request_of(r: AnthropicRequest, params: CompletionParams) -> bool {
    &&& r.model@ == params.model_id@
    &&& items_view(r.messages@) == anthropic_messages(non_system(params.messages@))
    &&& r.max_tokens == match params.max_tokens {
        Some(m) => m,
        None => default_max_tokens(),
    }
    &&& opt_text(r.system) == system_prompt(params.messages@)
    &&& r.temperature == params.temperature
    &&& r.top_p == params.top_p
    &&& opt_json(r.stop_sequences) == match params.stop {
        Some(s) => Some(texts_json(stop_list(s))),
        None => None,
    }
    &&& match params.tools {
        Some(ts) => r.tools matches Some(v) && items_view(v@) == anthropic_tools(ts@),
        None => r.tools is None,
    }
    &&& opt_json(r.tool_choice) == request_tool_choice(params.tool_choice, params.parallel_tool_calls)
    &&& opt_json(r.reasoning) == thinking_json(params.reasoning_effort)
    &&& r.stream is None
}

/// The error for a response format, which the Anthropic API does not take.
pub open spec fn response_format_error() -> ErrorView {
    ErrorView::UnsupportedParameter {
        param: "response_format"@,
        provider: anthropic_name(),
        hint: response_format_hint(),
    }
}

/// The thinking configuration of a reasoning effort.
fn thinking_of(e: Option<ReasoningEffort>) -> (r: Option<JsonValue>)
    ensures
        opt_json(r) == thinking_json(e),
{
    proof {
        reveal_strlit("type");
        reveal_strlit("disabled");
        reveal_strlit("enabled");
        reveal_strlit("budget_tokens");
    }
    match e {
        None => None,
        Some(ReasoningEffort::Disabled) => {
            let mut f = no_fields();
            push_field(&mut f, "type", JsonValue::string("disabled"));
            assert(fields_view(f@) =~= seq![("type"@, jstr("disabled"@))]);
            Some(JsonValue::Object(f))
        },
        Some(ReasoningEffort::Auto) => None,
        Some(x) => match reasoning_effort_to_budget(x) {
            Some(b) => {
                let mut f = no_fields();
                push_field(&mut f, "type", JsonValue::string("enabled"));
                push_field(&mut f, "budget_tokens", JsonValue::Number(u64_to_decimal(b as u64)));
                assert(fields_view(f@) =~= seq![
                    ("type"@, jstr("enabled"@)),
                    ("budget_tokens"@, JsonView::Number(decimal(b as nat))),
                ]);
                Some(JsonValue::Object(f))
            },
            None => None,
        },
    }
}

/// The JSON array of the stop sequences.
fn stop_json(s: &crate::types::completion::StopSequence) -> (r: JsonValue)
    ensures
        r@ == texts_json(stop_list(*s)),
{
    let v = s.to_vec();
    let ghost texts = stop_list(*s);
    assert(texts.len() == v@.len());
    let mut items = no_items();
    let mut i: usize = 0;
    while i < v.len()
        invariant
            i <= v@.len(),
            texts.len() == v@.len(),
            forall|k: int| 0 <= k < v@.len() ==> #[trigger] texts[k] == v@[k]@,
            items_view(items@) == Seq::new(i as nat, |k: int| JsonView::Str(texts[k])),
        decreases v.len() - i,
    {
        assert(texts[i as int] == v@[i as int]@);
        push_item(&mut items, JsonValue::Str(v[i].clone()));
        assert(items_view(items@) =~= Seq::new((i + 1) as nat, |k: int| JsonView::Str(texts[k])));
        i = i + 1;
    }
    JsonValue::Array(items)
}

impl AnthropicRequest {
    /// Convert completion parameters to an Anthropic request; a response
    /// format is refused.
    pub fn try_from(params: CompletionParams) -> (r: Result<AnthropicRequest, OtariError>)
        ensures
            params.response_format is Some ==> (r matches Err(e) && e@ == response_format_error()),
            params.response_format is None ==> (r matches Ok(req) && anthropic_request_of(
                req,
                params,
            )),
    {
        if params.response_format.is_some() {
            return Err(
                OtariError::UnsupportedParameter {
                    param: String::from_str("response_format"),
                    provider: String::from_str("anthropic"),
                    hint: String::from_str(
                        "See https://docs.anthropic.com/en/docs/test-and-evaluate/strengthen-guardrails/increase-consistency",
                    ),
                },
            );
        }
        let (system, filtered) = extract_system_messages(&params.messages);
        let messages = convert_messages(&filtered);
        proof {
            assert(filtered@.map_values(|m: &Message| *m) =~= non_system(params.messages@));
        }
        let max_tokens = match params.max_tokens {
            Some(m) => m,
            None => 8192,
        };
        let tools = match &params.tools {
            Some(ts) => Some(convert_tools(ts)),
            None => None,
        };
        proof {
            reveal_strlit("type");
            reveal_strlit("auto");
            reveal_strlit("disable_parallel_tool_use");
        }
        let tool_choice = match &params.tool_choice {
            Some(c) => Some(convert_tool_choice(c, params.parallel_tool_calls)),
            None => match params.parallel_tool_calls {
                Some(p) => {
                    let mut f = no_fields();
                    push_field(&mut f, "type", JsonValue::string("auto"));
                    push_field(&mut f, "disable_parallel_tool_use", JsonValue::Bool(!p));
                    assert(fields_view(f@) =~= seq![
                        ("type"@, jstr("auto"@)),
                        ("disable_parallel_tool_use"@, JsonView::Bool(!p)),
                    ]);
                    Some(JsonValue::Object(f))
                },
                None => None,
            },
        };
        let reasoning = thinking_of(params.reasoning_effort);
        let stop_sequences = match &params.stop {
            Some(s) => Some(stop_json(s)),
            None => None,
        };
        Ok(
            AnthropicRequest {
                model: params.model_id.clone(),
                messages,
                max_tokens,
                system,
                temperature: params.temperature,
                top_p: params.top_p,
                stop_sequences,
                tools,
                tool_choice,
                reasoning,
                stream: None,
            },
        )
    }

    /// Ask for a streamed response.
    pub fn stream(self) -> (r: Self)
        ensures
            r == (AnthropicRequest { stream: Some(true), ..self }),
    {
        AnthropicRequest { stream: Some(true), ..self }
    }
}

/// The error that a failed Anthropic API response maps to: 429 rate limit,
/// 401 authentication, 400 invalid request, 404 model not found (the model
/// unknown), anything else a provider error carrying the status and body.
pub open spec fn anthropic_error(status: u16, body: Seq<char>) -> ErrorView {
    if status == 429 {
        ErrorView::RateLimit { message: body, provider: anthropic_name() }
    } else if status == 401 {
        ErrorView::Authentication { message: body, provider: anthropic_name() }
    } else if status == 400 {
        ErrorView::InvalidRequest { message: body, provider: anthropic_name() }
    } else if status == 404 {
        ErrorView::ModelNotFound { model: "unknown"@, provider: anthropic_name() }
    } else {
        ErrorView::Provider {
            message: "Status "@ + decimal(status as nat) + ": "@ + body,
            provider: anthropic_name(),
        }
    }
}

/// Map a failed Anthropic API response to a typed error.
pub fn convert_error(status: u16, body: &str) -> (r: OtariError)
    ensures
        r@ == anthropic_error(status, body@),
{
    let provider = String::from_str("anthropic");
    if status == 429 {
        OtariError::RateLimit { message: String::from_str(body), provider }
    } else if status == 401 {
        OtariError::Authentication { message: String::from_str(body), provider }
    } else if status == 400 {
        OtariError::InvalidRequest { message: String::from_str(body), provider }
    } else if status == 404 {
        OtariError::ModelNotFound { model: String::from_str("unknown"), provider }
    } else {
        let head = crate::text::concat3("Status ", u64_to_decimal(status as u64).as_str(), ": ");
        OtariError::Provider { message: crate::text::concat2(head.as_str(), body), provider }
    }
}

/// A content block of an Anthropic response.
#[derive(Debug, Clone)]
pub struct ContentBlock {
    pub block_type: String,
    pub text: Option<String>,
    pub id: Option<String>,
    pub name: Option<String>,
    pub input: Option<JsonValue>,
    pub thinking: Option<String>,
}

/// The token usage of an Anthropic response.
#[derive(Debug, Clone, Copy)]
pub struct AnthropicUsage {
    pub input_tokens: u32,
    pub output_tokens: u32,
}

/// A response of the Anthropic Messages API.
#[derive(Debug, Clone)]
pub struct AnthropicResponse {
    pub id: String,
    pub model: String,
    pub content: Vec<ContentBlock>,
    pub stop_reason: Option<String>,
    pub usage: AnthropicUsage,
}

/// The texts of the text blocks that carry one, in order.
pub open spec fn block_texts(bs: Seq<ContentBlock>) -> Seq<Seq<char>>
    decreases bs.len(),
{
    if bs.len() == 0 {
        Seq::empty()
    } else {
        let init = block_texts(bs.drop_last());
        let b = bs.last();
        if b.block_type@ == "text"@ && b.text is Some {
            init.push(b.text->0@)
        } else {
            init
        }
    }
}

/// Texts joined with nothing between them.
pub open spec fn concat_all(parts: Seq<Seq<char>>) -> Seq<char>
    decreases parts.len(),
{
    if parts.len() == 0 {
        Seq::empty()
    } else {
        concat_all(parts.drop_last()) + parts.last()
    }
}

/// A tool call of the library, by its texts: id, type, name, arguments.
pub open spec fn call_texts(tc: ToolCall) -> (Seq<char>, Seq<char>, Seq<char>, Seq<char>) {
    (tc.id@, tc.tool_type@, tc.function.name@, tc.function.arguments@)
}

/// The tool calls of the tool-use blocks that carry an id, a name and an
/// input, in order; the arguments are the input's JSON text.
pub open spec fn block_tool_calls(bs: Seq<ContentBlock>) -> Seq<
    (Seq<char>, Seq<char>, Seq<char>, Seq<char>),
>
    decreases bs.len(),
{
    if bs.len() == 0 {
        Seq::empty()
    } else {
        let init = block_tool_calls(bs.drop_last());
        let b = bs.last();
        if b.block_type@ == "tool_use"@ && b.id is Some && b.name is Some && b.input is Some {
            init.push(
                (b.id->0@, "function"@, b.name->0@, crate::json::json_text(b.input->0@)),
            )
        } else {
            init
        }
    }
}

/// The thinking of the thinking blocks that carry some, joined; none where
/// there is none.
pub open spec fn block_thinking(bs: Seq<ContentBlock>) -> Option<Seq<char>>
    decreases bs.len(),
{
    if bs.len() == 0 {
        None
    } else {
        let init = block_thinking(bs.drop_last());
        let b = bs.last();
        if b.block_type@ == "thinking"@ && b.thinking is Some {
            match init {
                Some(x) => Some(x + b.thinking->0@),
                None => Some(b.thinking->0@),
            }
        } else {
            init
        }
    }
}

/// The library's finish reason for an Anthropic stop reason: `end_turn` is
/// `stop`, `max_tokens` is `length`, `tool_use` is `tool_calls`, any other
/// is kept.
pub open spec fn finish_reason_for(stop_reason: Seq<char>) -> Seq<char> {
    if stop_reason == "end_turn"@ {
        "stop"@
    } else if stop_reason == "max_tokens"@ {
        "length"@
    } else if stop_reason == "tool_use"@ {
        "tool_calls"@
    } else {
        stop_reason
    }
}

/// The library's finish reason for an Anthropic stop reason.
pub fn map_finish_reason(stop_reason: &str) -> (r: String)
    ensures
        r@ == finish_reason_for(stop_reason@),
{
    proof {
        reveal_strlit("end_turn");
        reveal_strlit("max_tokens");
        reveal_strlit("tool_use");
        reveal_strlit("stop");
        reveal_strlit("length");
        reveal_strlit("tool_calls");
    }
    let sr = String::from_str(stop_reason);
    if sr == String::from_str("end_turn") {
        String::from_str("stop")
    } else if sr == String::from_str("max_tokens") {
        String::from_str("length")
    } else if sr == String::from_str("tool_use") {
        String::from_str("tool_calls")
    } else {
        sr
    }
}

/// `out` is the completion `resp` carries: one assistant choice with the text
/// of the text blocks (none where there is no text block), the tool calls of
/// the tool-use blocks (none where there are none), the joined thinking, the
/// mapped finish reason, and the usage with its total.
pub open spec fn anthropic_completion_of(out: ChatCompletion, resp: AnthropicResponse) -> bool {
    &&& out.id@ == resp.id@
    &&& out.object@ == "chat.completion"@
    &&& out.created == 0
    &&& out.model@ == resp.model@
    &&& out.choices@.len() == 1
    &&& out.choices@[0].index == 0
    &&& out.choices@[0].message.role == Role::Assistant
    &&& opt_text(out.choices@[0].message.content) == (if block_texts(resp.content@).len() == 0 {
        None
    } else {
        Some(concat_all(block_texts(resp.content@)))
    })
    &&& match out.choices@[0].message.tool_calls {
        None => block_tool_calls(resp.content@).len() == 0,
        Some(v) => block_tool_calls(resp.content@).len() > 0 && v@.map_values(
            |tc: ToolCall| call_texts(tc),
        ) == block_tool_calls(resp.content@),
    }
    &&& crate::gateway::opt_reasoning(out.choices@[0].message.reasoning) == block_thinking(
        resp.content@,
    )
    &&& out.choices@[0].message.refusal is None
    &&& opt_text(out.choices@[0].finish_reason) == match resp.stop_reason {
        Some(s) => Some(finish_reason_for(s@)),
        None => None,
    }
    &&& out.choices@[0].logprobs is None
    &&& out.usage == Some(
        CompletionUsage {
            prompt_tokens: resp.usage.input_tokens,
            completion_tokens: resp.usage.output_tokens,
            total_tokens: (resp.usage.input_tokens + resp.usage.output_tokens) as u32,
        },
    )
    &&& out.system_fingerprint is None
}

impl AnthropicResponse {
    /// Convert the response to a completion.
    pub fn to_completion(&self) -> (r: ChatCompletion)
        requires
            self.usage.input_tokens + self.usage.output_tokens <= u32::MAX,
        ensures
            anthropic_completion_of(r, *self),
    {
        proof {
            reveal_strlit("text");
            reveal_strlit("tool_use");
            reveal_strlit("thinking");
            reveal_strlit("function");
            reveal_strlit("chat.completion");
        }
        let mut text = String::new();
        let mut text_count: usize = 0;
        let mut calls: Vec<ToolCall> = Vec::new();
        let mut thinking: Option<String> = None;
        let mut i: usize = 0;
        let bs = &self.content;
        while i < bs.len()
            invariant
                i <= bs@.len(),
                text_count == block_texts(bs@.take(i as int)).len(),
                text_count <= i,
                text@ == concat_all(block_texts(bs@.take(i as int))),
                calls@.map_values(|tc: ToolCall| call_texts(tc)) == block_tool_calls(bs@.take(i as int)),
                opt_text(thinking) == block_thinking(bs@.take(i as int)),
            decreases bs.len() - i,
        {
            let ghost prev = bs@.take(i as int);
            assert(bs@.take(i + 1).drop_last() =~= prev);
            let b = &bs[i];
            assert(bs@.take(i + 1).last() == *b);
            proof {
                reveal_strlit("text");
                reveal_strlit("tool_use");
                reveal_strlit("thinking");
                assert("text"@.len() == 4);
                assert("tool_use"@.len() == 8 && "tool_use"@[1] == 'o');
                assert("thinking"@.len() == 8 && "thinking"@[1] == 'h');
            }
            if b.block_type == String::from_str("text") {
                match &b.text {
                    Some(t) => {
                        text.append(t.as_str());
                        text_count = text_count + 1;
                        assert(block_texts(prev).push(t@).drop_last() =~= block_texts(prev));
                    },
                    None => {},
                }
            } else if b.block_type == String::from_str("tool_use") {
                match (&b.id, &b.name, &b.input) {
                    (Some(id), Some(name), Some(input)) => {
                        let ghost before = calls@;
                        calls.push(
                            ToolCall {
                                id: id.clone(),
                                tool_type: String::from_str("function"),
                                function: crate::types::tool::Function {
                                    name: name.clone(),
                                    arguments: crate::json::render_json(input),
                                },
                            },
                        );
                        assert(calls@.map_values(|tc: ToolCall| call_texts(tc)) =~= before.map_values(
                            |tc: ToolCall| call_texts(tc),
                        ).push(call_texts(calls@.last())));
                    },
                    _ => {},
                }
            } else if b.block_type == String::from_str("thinking") {
                match &b.thinking {
                    Some(t) => {
                        thinking = match thinking {
                            Some(x) => Some(crate::text::concat2(x.as_str(), t.as_str())),
                            None => Some(t.clone()),
                        };
                    },
                    None => {},
                }
            }
            i = i + 1;
        }
        assert(bs@.take(bs@.len() as int) =~= bs@);
        let finish_reason = match &self.stop_reason {
            Some(s) => Some(map_finish_reason(s.as_str())),
            None => None,
        };
        let content = if text_count == 0 {
            None
        } else {
            Some(text)
        };
        let tool_calls = if calls.len() == 0 {
            None
        } else {
            Some(calls)
        };
        let reasoning = match thinking {
            Some(t) => Some(Reasoning { content: t }),
            None => None,
        };
        let mut choices: Vec<Choice> = Vec::new();
        choices.push(
            Choice {
                index: 0,
                message: ChatCompletionMessage {
                    role: Role::Assistant,
                    content,
                    tool_calls,
                    reasoning,
                    refusal: None,
                },
                finish_reason,
                logprobs: None,
            },
        );
        ChatCompletion {
            id: self.id.clone(),
            object: String::from_str("chat.completion"),
            created: 0,
            model: self.model.clone(),
            choices,
            usage: Some(
                CompletionUsage {
                    prompt_tokens: self.usage.input_tokens,
                    completion_tokens: self.usage.output_tokens,
                    total_tokens: self.usage.input_tokens + self.usage.output_tokens,
                },
            ),
            system_fingerprint: None,
        }
    }
}

/// The content block that a `content_block_start` event opens.
#[derive(Debug, Clone)]
pub struct StreamContentBlock {
    pub block_type: String,
    pub id: Option<String>,
    pub name: Option<String>,
}

/// The delta of a `content_block_delta` or `message_delta` event.
#[derive(Debug, Clone)]
pub struct StreamDelta {
    pub delta_type: Option<String>,
    pub text: Option<String>,
    pub partial_json: Option<String>,
    pub thinking: Option<String>,
    pub stop_reason: Option<String>,
}

/// The usage a `message_delta` event reports.
#[derive(Debug, Clone, Copy)]
pub struct StreamUsage {
    pub input_tokens: Option<u32>,
    pub output_tokens: Option<u32>,
}

/// An event of the Anthropic streaming API.
#[derive(Debug, Clone)]
pub struct AnthropicStreamEvent {
    pub event_type: String,
    pub index: Option<u32>,
    pub content_block: Option<StreamContentBlock>,
    pub delta: Option<StreamDelta>,
    pub usage: Option<StreamUsage>,
}

/// The model of a tool call delta: id, type, name and arguments fragment.
pub struct ToolDeltaModel {
    pub id: Option<Seq<char>>,
    pub tool_type: Option<Seq<char>>,
    pub name: Option<Seq<char>>,
    pub arguments: Option<Seq<char>>,
}

/// The model of a chunk's delta: content, a tool call and reasoning.
pub struct DeltaModel {
    pub content: Option<Seq<char>>,
    pub tool: Option<ToolDeltaModel>,
    pub reasoning: Option<Seq<char>>,
}

/// A delta that carries nothing.
pub open spec fn no_delta() -> DeltaModel {
    DeltaModel { content: None, tool: None, reasoning: None }
}

/// The value or 0.
pub open spec fn or_zero(o: Option<u32>) -> u32 {
    match o {
        Some(x) => x,
        None => 0,
    }
}

/// What a `content_block_start` event carries: an empty text delta, a tool
/// call with its id, name and empty arguments, or an empty reasoning delta;
/// nothing for another block type.
pub open spec fn block_start_delta(b: StreamContentBlock) -> Option<DeltaModel> {
    if b.block_type@ == "text"@ {
        Some(DeltaModel { content: Some(Seq::empty()), ..no_delta() })
    } else if b.block_type@ == "tool_use"@ {
        if b.id is Some && b.name is Some {
            Some(
                DeltaModel {
                    tool: Some(
                        ToolDeltaModel {
                            id: Some(b.id->0@),
                            tool_type: Some("function"@),
                            name: Some(b.name->0@),
                            arguments: Some(Seq::empty()),
                        },
                    ),
                    ..no_delta()
                },
            )
        } else {
            Some(no_delta())
        }
    } else if b.block_type@ == "thinking"@ {
        Some(DeltaModel { reasoning: Some(Seq::empty()), ..no_delta() })
    } else {
        None
    }
}

/// What a `content_block_delta` event carries: text, a fragment of a tool
/// call's arguments, or reasoning; nothing for another delta type.
pub open spec fn block_delta_delta(d: StreamDelta) -> Option<DeltaModel> {
    match d.delta_type {
        Some(t) => if t@ == "text_delta"@ {
            Some(DeltaModel { content: opt_text(d.text), ..no_delta() })
        } else if t@ == "input_json_delta"@ {
            match d.partial_json {
                Some(pj) => Some(
                    DeltaModel {
                        tool: Some(
                            ToolDeltaModel {
                                id: None,
                                tool_type: None,
                                name: None,
                                arguments: Some(pj@),
                            },
                        ),
                        ..no_delta()
                    },
                ),
                None => Some(no_delta()),
            }
        } else if t@ == "thinking_delta"@ {
            match d.thinking {
                Some(th) => Some(DeltaModel { reasoning: Some(th@), ..no_delta() }),
                None => Some(no_delta()),
            }
        } else {
            None
        },
        None => None,
    }
}

/// What an event carries: the delta, the finish reason and the usage; none
/// for an event that yields no chunk.
pub open spec fn event_outcome(e: AnthropicStreamEvent) -> Option<
    (DeltaModel, Option<Seq<char>>, Option<CompletionUsage>),
> {
    if e.event_type@ == "content_block_start"@ {
        match e.content_block {
            Some(b) => match block_start_delta(b) {
                Some(d) => Some((d, None, None)),
                None => None,
            },
            None => Some((no_delta(), None, None)),
        }
    } else if e.event_type@ == "content_block_delta"@ {
        match e.delta {
            Some(d) => match block_delta_delta(d) {
                Some(x) => Some((x, None, None)),
                None => None,
            },
            None => Some((no_delta(), None, None)),
        }
    } else if e.event_type@ == "message_stop"@ {
        Some((no_delta(), Some("stop"@), None))
    } else if e.event_type@ == "message_delta"@ {
        Some(
            (
                no_delta(),
                match e.delta {
                    Some(d) => match d.stop_reason {
                        Some(sr) => Some(finish_reason_for(sr@)),
                        None => None,
                    },
                    None => None,
                },
                match e.usage {
                    Some(u) => Some(
                        CompletionUsage {
                            prompt_tokens: or_zero(u.input_tokens),
                            completion_tokens: or_zero(u.output_tokens),
                            total_tokens: (or_zero(u.input_tokens) + or_zero(u.output_tokens)) as u32,
                        },
                    ),
                    None => None,
                },
            ),
        )
    } else {
        None
    }
}

/// `out` is the tool call delta that `m` describes, at index 0.
pub open spec fn tool_delta_is(out: ToolCallDelta, m: ToolDeltaModel) -> bool {
    &&& out.index == Some(0u32)
    &&& opt_text(out.id) == m.id
    &&& opt_text(out.tool_type) == m.tool_type
    &&& out.function matches Some(f) && opt_text(f.name) == m.name && opt_text(f.arguments)
        == m.arguments
}

/// `out` is the delta that `m` describes.
pub open spec fn delta_is(out: ChoiceDelta, m: DeltaModel) -> bool {
    &&& out.role is None
    &&& opt_text(out.content) == m.content
    &&& match m.tool {
        None => out.tool_calls is None,
        Some(t) => out.tool_calls matches Some(v) && v@.len() == 1 && tool_delta_is(v@[0], t),
    }
    &&& crate::gateway::opt_reasoning(out.reasoning) == m.reasoning
    &&& out.refusal is None
}

/// `out` is the chunk for event `e` in a stream of `model`: id
/// `chatcmpl-<index>`, one choice at index 0 with the event's delta and finish
/// reason, and the event's usage.
pub open spec fn event_chunk(out: ChatCompletionChunk, e: AnthropicStreamEvent, model: Seq<char>) -> bool {
    match event_outcome(e) {
        None => false,
        Some((d, finish, usage)) => {
            &&& out.id@ == "chatcmpl-"@ + decimal(or_zero(e.index) as nat)
            &&& out.object@ == "chat.completion.chunk"@
            &&& out.created == 0
            &&& out.model@ == model
            &&& out.choices@.len() == 1
            &&& out.choices@[0].index == 0
            &&& delta_is(out.choices@[0].delta, d)
            &&& opt_text(out.choices@[0].finish_reason) == finish
            &&& out.choices@[0].logprobs is None
            &&& out.usage == usage
            &&& out.system_fingerprint is None
        },
    }
}

/// The usage of an event can be totalled without overflow.
pub open spec fn event_usage_fits(e: AnthropicStreamEvent) -> bool {
    e.usage matches Some(u) ==> or_zero(u.input_tokens) + or_zero(u.output_tokens) <= u32::MAX
}

/// A tool call delta at index 0.
fn tool_delta(id: Option<String>, tool_type: Option<String>, name: Option<String>, arguments: Option<String>) -> (r: Vec<ToolCallDelta>)
    ensures
        r@.len() == 1,
        tool_delta_is(
            r@[0],
            ToolDeltaModel {
                id: opt_text(id),
                tool_type: opt_text(tool_type),
                name: opt_text(name),
                arguments: opt_text(arguments),
            },
        ),
{
    let mut v: Vec<ToolCallDelta> = Vec::new();
    v.push(ToolCallDelta { index: Some(0), id, tool_type, function: Some(FunctionDelta { name, arguments }) });
    v
}

impl AnthropicStreamEvent {
    /// Convert the event to a chunk of a stream of `model`; none for an
    /// event that carries nothing for the caller.
    pub fn to_chat_completion_chunk(&self, model: &str) -> (r: Option<ChatCompletionChunk>)
        requires
            event_usage_fits(*self),
        ensures
            r is None <==> event_outcome(*self) is None,
            r matches Some(c) ==> event_chunk(c, *self, model@),
    {
        proof {
            reveal_strlit("content_block_start");
            reveal_strlit("content_block_delta");
            reveal_strlit("content_block_stop");
            reveal_strlit("message_stop");
            reveal_strlit("message_delta");
            reveal_strlit("text");
            reveal_strlit("tool_use");
            reveal_strlit("thinking");
            reveal_strlit("function");
            reveal_strlit("text_delta");
            reveal_strlit("input_json_delta");
            reveal_strlit("thinking_delta");
            reveal_strlit("stop");
            reveal_strlit("chat.completion.chunk");
            reveal_strlit("chatcmpl-");
            assert("tool_use"@[1] != "thinking"@[1]);
            assert("text_delta"@[2] != "thinking_delta"@[2]);
            assert("content_block_start"@[14] != "content_block_delta"@[14]);
            assert("message_stop"@[8] != "message_delta"@[8]);
        }
        let mut delta = ChoiceDelta::empty();
        let mut finish_reason: Option<String> = None;
        let mut usage: Option<CompletionUsage> = None;
        let et = &self.event_type;
        let ghost outcome = event_outcome(*self);
        if *et == String::from_str("content_block_start") {
            match &self.content_block {
                Some(b) => {
                    if b.block_type == String::from_str("text") {
                        delta.content = Some(String::new());
                    } else if b.block_type == String::from_str("tool_use") {
                        match (&b.id, &b.name) {
                            (Some(id), Some(name)) => {
                                delta.tool_calls = Some(
                                    tool_delta(
                                        Some(id.clone()),
                                        Some(String::from_str("function")),
                                        Some(name.clone()),
                                        Some(String::new()),
                                    ),
                                );
                            },
                            _ => {},
                        }
                    } else if b.block_type == String::from_str("thinking") {
                        delta.reasoning = Some(Reasoning { content: String::new() });
                    } else {
                        return None;
                    }
                },
                None => {},
            }
        } else if *et == String::from_str("content_block_delta") {
            match &self.delta {
                Some(d) => match &d.delta_type {
                    Some(t) => {
                        if *t == String::from_str("text_delta") {
                            delta.content = crate::gateway::clone_opt(&d.text);
                        } else if *t == String::from_str("input_json_delta") {
                            match &d.partial_json {
                                Some(pj) => {
                                    delta.tool_calls = Some(
                                        tool_delta(None, None, None, Some(pj.clone())),
                                    );
                                },
                                None => {},
                            }
                        } else if *t == String::from_str("thinking_delta") {
                            match &d.thinking {
                                Some(th) => {
                                    delta.reasoning = Some(Reasoning { content: th.clone() });
                                },
                                None => {},
                            }
                        } else {
                            return None;
                        }
                    },
                    None => {
                        return None;
                    },
                },
                None => {},
            }
        } else if *et == String::from_str("message_stop") {
            finish_reason = Some(String::from_str("stop"));
        } else if *et == String::from_str("message_delta") {
            match &self.delta {
                Some(d) => match &d.stop_reason {
                    Some(sr) => {
                        finish_reason = Some(map_finish_reason(sr.as_str()));
                    },
                    None => {},
                },
                None => {},
            }
            match &self.usage {
                Some(u) => {
                    let input = match u.input_tokens {
                        Some(x) => x,
                        None => 0,
                    };
                    let output = match u.output_tokens {
                        Some(x) => x,
                        None => 0,
                    };
                    usage = Some(
                        CompletionUsage {
                            prompt_tokens: input,
                            completion_tokens: output,
                            total_tokens: input + output,
                        },
                    );
                },
                None => {},
            }
        } else {
            return None;
        }
        let index = match self.index {
            Some(i) => i,
            None => 0,
        };
        let id = crate::text::concat2("chatcmpl-", u64_to_decimal(index as u64).as_str());
        let mut choices: Vec<ChunkChoice> = Vec::new();
        choices.push(ChunkChoice { index: 0, delta, finish_reason, logprobs: None });
        Some(
            ChatCompletionChunk {
                id,
                object: String::from_str("chat.completion.chunk"),
                created: 0,
                model: String::from_str(model),
                choices,
                usage,
                system_fingerprint: None,
            },
        )
    }
}

/// The thinking budget grows with the reasoning effort.
pub proof fn law_budget_grows_with_effort()
    ensures
        effort_budget(ReasoningEffort::Minimal)->0 < effort_budget(ReasoningEffort::Low)->0,
        effort_budget(ReasoningEffort::Low)->0 < effort_budget(ReasoningEffort::Medium)->0,
        effort_budget(ReasoningEffort::Medium)->0 < effort_budget(ReasoningEffort::High)->0,
        effort_budget(ReasoningEffort::Disabled) is None,
        effort_budget(ReasoningEffort::Auto) is None,
{
}

/// After a tool message, the last turn takes a further tool result.
proof fn lemma_tool_turn_accepts(acc: Seq<JsonView>, m: Message)
    requires
        m.role == Role::Tool,
    ensures
        message_step(acc, m).len() > 0,
        accepts_tool_result(message_step(acc, m).last()),
{
    reveal_strlit("role");
    reveal_strlit("content");
    reveal_strlit("type");
    let tr = tool_result_json(m);
    assert(get_member(tr, "type"@) == Some(jstr("tool_result"@)));
    if acc.len() > 0 && accepts_tool_result(acc.last()) {
        let last = acc.last();
        let fields = last->Object_0;
        let arr = get_member(last, "content"@)->Some_0->Array_0;
        lemma_set_member_keeps(fields, "content"@, JsonView::Array(arr.push(tr)));
        let merged = with_block(last, tr);
        assert(message_step(acc, m).last() == merged);
        assert(arr.push(tr)[0] == arr[0]);
    } else {
        let t = turn("user"@, JsonView::Array(seq![tr]));
        let f = seq![("role"@, jstr("user"@)), ("content"@, JsonView::Array(seq![tr]))];
        assert(f.subrange(1, 2) =~= seq![("content"@, JsonView::Array(seq![tr]))]);
        assert("role"@.len() != "content"@.len());
        assert(get_member(t, "role"@) == Some(jstr("user"@)));
        assert(crate::json::member(f.subrange(1, 2), "content"@) == Some(JsonView::Array(seq![tr])));
        assert(get_member(t, "content"@) == Some(JsonView::Array(seq![tr])));
    }
}

/// `set_member` puts the value under the key, and leaves the other keys as
/// they were.
proof fn lemma_set_member_keeps(fields: Seq<(Seq<char>, JsonView)>, key: Seq<char>, value: JsonView)
    ensures
        crate::json::member(set_member(fields, key, value), key) == Some(value),
        forall|k: Seq<char>|
            k != key ==> crate::json::member(#[trigger] set_member(fields, key, value), k)
                == crate::json::member(fields, k),
    decreases fields.len(),
{
    let s = set_member(fields, key, value);
    if fields.len() == 0 {
        assert(s.subrange(1, s.len() as int) =~= Seq::<(Seq<char>, JsonView)>::empty());
        assert forall|k: Seq<char>| k != key implies crate::json::member(
            #[trigger] set_member(fields, key, value),
            k,
        ) == crate::json::member(fields, k) by {
            assert(s.subrange(1, s.len() as int) =~= Seq::<(Seq<char>, JsonView)>::empty());
            assert(crate::json::member(Seq::<(Seq<char>, JsonView)>::empty(), k) is None);
            assert(s[0].0 == key);
        }
    } else if fields[0].0 != key {
        let rest = fields.subrange(1, fields.len() as int);
        lemma_set_member_keeps(rest, key, value);
        assert(s.subrange(1, s.len() as int) =~= set_member(rest, key, value));
        assert forall|k: Seq<char>| k != key implies crate::json::member(
            #[trigger] set_member(fields, key, value),
            k,
        ) == crate::json::member(fields, k) by {
            assert(crate::json::member(set_member(rest, key, value), k) == crate::json::member(
                rest,
                k,
            ));
        }
    } else {
        assert(s.subrange(1, s.len() as int) =~= fields.subrange(1, fields.len() as int));
        assert forall|k: Seq<char>| k != key implies crate::json::member(
            #[trigger] set_member(fields, key, value),
            k,
        ) == crate::json::member(fields, k) by {
            assert(s.subrange(1, s.len() as int) =~= fields.subrange(1, fields.len() as int));
        }
    }
}

/// Consecutive tool results fold into one user turn: a second tool message
/// adds no turn.
pub proof fn law_consecutive_tool_results_merge(ms: Seq<Message>, first: Message, second: Message)
    requires
        first.role == Role::Tool,
        second.role == Role::Tool,
    ensures
        anthropic_messages(ms.push(first).push(second)).len() == anthropic_messages(ms.push(first)).len(),
{
    let a = ms.push(first);
    let b = a.push(second);
    assert(b.drop_last() =~= a);
    assert(a.drop_last() =~= ms);
    lemma_tool_turn_accepts(anthropic_messages(ms), first);
}

/// A chunk converted from a stream event reports usage only for a
/// `message_delta` event that carries some, and then as the event's input and
/// output tokens, with their sum as the total.
pub proof fn law_stream_usage_totals(e: AnthropicStreamEvent, c: ChatCompletionChunk, model: Seq<char>)
    requires
        event_usage_fits(e),
        event_chunk(c, e, model),
    ensures
        c.usage matches Some(u) ==> u.total_tokens == u.prompt_tokens + u.completion_tokens,
        c.usage is Some ==> e.event_type@ == "message_delta"@ && e.usage is Some,
        (e.event_type@ == "message_delta"@ && e.usage is Some) ==> (c.usage matches Some(u)
            && u.prompt_tokens == or_zero(e.usage->0.input_tokens) && u.completion_tokens
            == or_zero(e.usage->0.output_tokens)),
{
    reveal_strlit("content_block_start");
    reveal_strlit("content_block_delta");
    reveal_strlit("message_stop");
    reveal_strlit("message_delta");
    if e.event_type@ == "message_delta"@ {
        assert(e.event_type@.len() != "content_block_start"@.len());
        assert(e.event_type@.len() != "content_block_delta"@.len());
        assert(e.event_type@.len() != "message_stop"@.len());
    }
}

/// An assistant message without tool calls adds exactly one turn after the
/// turns before it: the assistant's, whose content is the message's text
/// (empty only where it has no content).
pub proof fn law_assistant_text_turn(ms: Seq<Message>, m: Message)
    requires
        m.role == Role::Assistant,
        m.tool_calls is None,
    ensures
        ({
            let before = anthropic_messages(ms);
            let after = anthropic_messages(ms.push(m));
            &&& after.len() == before.len() + 1
            &&& after.subrange(0, before.len() as int) == before
            &&& get_member(after.last(), "role"@) == Some(JsonView::Str("assistant"@))
            &&& get_member(after.last(), "content"@) == Some(
                JsonView::Str(
                    match m.content {
                        Some(c) => content_text(c),
                        None => Seq::<char>::empty(),
                    },
                ),
            )
        }),
{
    let a = ms.push(m);
    assert(a.drop_last() =~= ms);
    let before = anthropic_messages(ms);
    let after = anthropic_messages(a);
    assert(after.subrange(0, before.len() as int) =~= before);
    reveal_strlit("role");
    reveal_strlit("content");
    let t = after.last();
    assert(t == obj(seq![("role"@, jstr("assistant"@)), ("content"@, jstr(text_or_empty(m.content)))]));
    let fields = seq![("role"@, jstr("assistant"@)), ("content"@, jstr(text_or_empty(m.content)))];
    assert(fields.subrange(1, 2) =~= seq![("content"@, jstr(text_or_empty(m.content)))]);
    assert(fields.subrange(1, 2).subrange(1, 1) =~= Seq::<(Seq<char>, JsonView)>::empty());
    assert("role"@ != "content"@) by {
        assert("role"@.len() != "content"@.len());
    }
    reveal_with_fuel(member, 3);
    assert(member(fields, "content"@) == Some(jstr(text_or_empty(m.content))));
}

/// A converted response reports the response's input and output tokens as
/// the prompt and completion tokens, and their sum as the total.
pub proof fn law_response_usage_totals(resp: AnthropicResponse, out: ChatCompletion)
    requires
        resp.usage.input_tokens + resp.usage.output_tokens <= u32::MAX,
        anthropic_completion_of(out, resp),
    ensures
        out.usage matches Some(u) && u.prompt_tokens == resp.usage.input_tokens
            && u.completion_tokens == resp.usage.output_tokens && u.total_tokens == u.prompt_tokens
            + u.completion_tokens,
{
}

/// Appending a system message with content extends the system prompt: its
/// text alone where there was no prompt, else after the prompt and a newline.
/// Any other message, or a system message without content, leaves the prompt
/// as it was.
pub proof fn law_system_prompt_grows(ms: Seq<Message>, m: Message)
    ensures
        (m.role == Role::System && m.content is Some) ==> system_prompt(ms.push(m)) == Some(
            match system_prompt(ms) {
                None => content_text(m.content->0),
                Some(p) => p + "\n"@ + content_text(m.content->0),
            },
        ),
        !(m.role == Role::System && m.content is Some) ==> system_prompt(ms.push(m))
            == system_prompt(ms),
{
    assert(ms.push(m).drop_last() =~= ms);
    let before = system_texts(ms);
    if m.role == Role::System && m.content is Some {
        let after = before.push(content_text(m.content->0));
        assert(after.drop_last() =~= before);
        if before.len() == 1 {
            assert(join_lines(before) == before[0]);
        }
    }
}

} // verus!
