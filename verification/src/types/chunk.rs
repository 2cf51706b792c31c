//! Streaming chunk types for chat completions, and the accumulator that folds a
//! stream of chunks into a complete response.

use vstd::prelude::*;

use crate::json::JsonValue;
use crate::types::completion::Reasoning;
use crate::types::message::Role;
use crate::types::tool::ToolCallDelta;
use crate::types::usage::CompletionUsage;

verus! {

/// A delta (partial update) in a streaming response.
#[derive(Debug, Clone)]
pub struct ChoiceDelta {
    /// The role of the message author (only in the first chunk).
    pub role: Option<Role>,
    /// Partial content.
    pub content: Option<String>,
    /// Partial tool calls.
    pub tool_calls: Option<Vec<ToolCallDelta>>,
    /// Partial reasoning content.
    pub reasoning: Option<Reasoning>,
    /// Optional refusal message.
    pub refusal: Option<String>,
}

impl ChoiceDelta {
    /// A delta that carries nothing.
    pub fn empty() -> (r: Self)
        ensures
            r.role is None,
            r.content is None,
            r.tool_calls is None,
            r.reasoning is None,
            r.refusal is None,
    {
        ChoiceDelta { role: None, content: None, tool_calls: None, reasoning: None, refusal: None }
    }
}

/// A choice in a streaming chunk.
#[derive(Debug, Clone)]
pub struct ChunkChoice {
    /// The index of this choice.
    pub index: u32,
    /// The delta (partial update).
    pub delta: ChoiceDelta,
    /// The reason the generation stopped (only in the final chunk).
    pub finish_reason: Option<String>,
    /// Log probabilities, if requested.
    pub logprobs: Option<JsonValue>,
}

/// A streaming chunk of a chat completion.
#[derive(Debug, Clone)]
pub struct ChatCompletionChunk {
    /// Unique identifier for this completion.
    pub id: String,
    /// The object type (always "chat.completion.chunk").
    pub object: String,
    /// Unix timestamp of when the chunk was created.
    pub created: i64,
    /// The model used for the completion.
    pub model: String,
    /// The partial choices.
    pub choices: Vec<ChunkChoice>,
    /// Token usage (only in the final chunk).
    pub usage: Option<CompletionUsage>,
    /// System fingerprint for reproducibility.
    pub system_fingerprint: Option<String>,
}

/// The first choice of a chunk, if any.
pub open spec fn first_chunk_choice(c: ChatCompletionChunk) -> Option<ChunkChoice> {
    if c.choices@.len() > 0 {
        Some(c.choices@[0])
    } else {
        None
    }
}

/// The content delta of the first choice.
pub open spec fn chunk_content(c: ChatCompletionChunk) -> Option<Seq<char>> {
    match first_chunk_choice(c) {
        Some(ch) => match ch.delta.content {
            Some(t) => Some(t@),
            None => None,
        },
        None => None,
    }
}

/// The reasoning delta of the first choice.
pub open spec fn chunk_reasoning(c: ChatCompletionChunk) -> Option<Seq<char>> {
    match first_chunk_choice(c) {
        Some(ch) => match ch.delta.reasoning {
            Some(t) => Some(t.content@),
            None => None,
        },
        None => None,
    }
}

/// The tool call deltas of the first choice.
pub open spec fn chunk_tool_calls(c: ChatCompletionChunk) -> Option<Seq<ToolCallDelta>> {
    match first_chunk_choice(c) {
        Some(ch) => match ch.delta.tool_calls {
            Some(t) => Some(t@),
            None => None,
        },
        None => None,
    }
}

/// The finish reason of the first choice.
pub open spec fn chunk_finish_reason(c: ChatCompletionChunk) -> Option<Seq<char>> {
    match first_chunk_choice(c) {
        Some(ch) => match ch.finish_reason {
            Some(t) => Some(t@),
            None => None,
        },
        None => None,
    }
}

/// The text "chat.completion.chunk".
pub open spec fn chunk_object() -> Seq<char> {
    "chat.completion.chunk"@
}

impl ChatCompletionChunk {
    /// A chunk with no choices, used for events that carry no delta.
    pub fn empty(model: &str) -> (r: Self)
        ensures
            r.id@ == Seq::<char>::empty(),
            r.object@ == chunk_object(),
            r.created == 0,
            r.model@ == model@,
            r.choices@.len() == 0,
            r.usage is None,
            r.system_fingerprint is None,
    {
        ChatCompletionChunk {
            id: String::new(),
            object: String::from_str("chat.completion.chunk"),
            created: 0,
            model: String::from_str(model),
            choices: Vec::new(),
            usage: None,
            system_fingerprint: None,
        }
    }

    /// The content delta of the first choice.
    pub fn content(&self) -> (r: Option<&str>)
        ensures
            r matches Some(s) ==> chunk_content(*self) == Some(s@),
            r is None ==> chunk_content(*self) is None,
    {
        if self.choices.len() == 0 {
            return None;
        }
        match &self.choices[0].delta.content {
            Some(t) => Some(t.as_str()),
            None => None,
        }
    }

    /// The reasoning delta of the first choice.
    pub fn reasoning(&self) -> (r: Option<&str>)
        ensures
            r matches Some(s) ==> chunk_reasoning(*self) == Some(s@),
            r is None ==> chunk_reasoning(*self) is None,
    {
        if self.choices.len() == 0 {
            return None;
        }
        match &self.choices[0].delta.reasoning {
            Some(t) => Some(t.content.as_str()),
            None => None,
        }
    }

    /// The tool call deltas of the first choice.
    pub fn tool_calls(&self) -> (r: Option<&[ToolCallDelta]>)
        ensures
            r matches Some(s) ==> chunk_tool_calls(*self) == Some(s@),
            r is None ==> chunk_tool_calls(*self) is None,
    {
        if self.choices.len() == 0 {
            return None;
        }
        match &self.choices[0].delta.tool_calls {
            Some(t) => Some(t.as_slice()),
            None => None,
        }
    }

    /// Whether this is the final chunk: its first choice carries a finish reason.
    pub fn is_final(&self) -> (b: bool)
        ensures
            b == (chunk_finish_reason(*self) is Some),
    {
        if self.choices.len() == 0 {
            return false;
        }
        self.choices[0].finish_reason.is_some()
    }

    /// The finish reason of the first choice.
    pub fn finish_reason(&self) -> (r: Option<&str>)
        ensures
            r matches Some(s) ==> chunk_finish_reason(*self) == Some(s@),
            r is None ==> chunk_finish_reason(*self) is None,
    {
        if self.choices.len() == 0 {
            return None;
        }
        match &self.choices[0].finish_reason {
            Some(t) => Some(t.as_str()),
            None => None,
        }
    }
}

/// An accumulated tool call from streaming.
#[derive(Debug, Clone)]
pub struct AccumulatedToolCall {
    /// The tool call ID.
    pub id: String,
    /// The tool type.
    pub tool_type: String,
    /// The function name.
    pub name: String,
    /// Accumulated arguments string.
    pub arguments: String,
}

/// Accumulator for streaming chunks into a complete response.
#[derive(Debug)]
pub struct ChunkAccumulator {
    /// Accumulated content.
    pub content: String,
    /// Accumulated reasoning.
    pub reasoning: String,
    /// Accumulated tool calls (by index).
    pub tool_calls: Vec<AccumulatedToolCall>,
    /// The finish reason from the final chunk.
    pub finish_reason: Option<String>,
    /// The model name.
    pub model: Option<String>,
    /// The completion ID.
    pub id: Option<String>,
    /// Token usage from the final chunk.
    pub usage: Option<CompletionUsage>,
}

/// The model of an accumulated tool call.
pub struct ToolAcc {
    pub id: Seq<char>,
    pub tool_type: Seq<char>,
    pub name: Seq<char>,
    pub arguments: Seq<char>,
}

/// The model of an accumulator.
pub struct AccView {
    pub content: Seq<char>,
    pub reasoning: Seq<char>,
    pub tool_calls: Seq<ToolAcc>,
    pub finish_reason: Option<Seq<char>>,
    pub model: Option<Seq<char>>,
    pub id: Option<Seq<char>>,
    pub usage: Option<CompletionUsage>,
}

/// A tool call with every field empty.
pub open spec fn empty_tool() -> ToolAcc {
    ToolAcc {
        id: Seq::empty(),
        tool_type: Seq::empty(),
        name: Seq::empty(),
        arguments: Seq::empty(),
    }
}

/// The model of an accumulated tool call.
pub open spec fn tool_acc_view(t: AccumulatedToolCall) -> ToolAcc {
    ToolAcc { id: t.id@, tool_type: t.tool_type@, name: t.name@, arguments: t.arguments@ }
}

/// The text of an optional string; empty where there is none.
pub open spec fn text_or_empty(o: Option<String>) -> Seq<char> {
    match o {
        Some(s) => s@,
        None => Seq::empty(),
    }
}

/// The slot that a tool call delta updates: its index, 0 where it has none.
pub open spec fn delta_slot(d: ToolCallDelta) -> int {
    match d.index {
        Some(i) => i as int,
        None => 0,
    }
}

/// `calls` extended with empty tool calls so that slot `idx` exists.
pub open spec fn pad_to(calls: Seq<ToolAcc>, idx: int) -> Seq<ToolAcc> {
    if calls.len() <= idx {
        calls + Seq::new((idx + 1 - calls.len()) as nat, |i: int| empty_tool())
    } else {
        calls
    }
}

/// A tool call after one delta: id, type and name replaced where given, the
/// arguments fragment appended.
pub open spec fn merge_tool_delta(cur: ToolAcc, d: ToolCallDelta) -> ToolAcc {
    ToolAcc {
        id: match d.id {
            Some(x) => x@,
            None => cur.id,
        },
        tool_type: match d.tool_type {
            Some(x) => x@,
            None => cur.tool_type,
        },
        name: match d.function {
            Some(f) => match f.name {
                Some(x) => x@,
                None => cur.name,
            },
            None => cur.name,
        },
        arguments: match d.function {
            Some(f) => cur.arguments + text_or_empty(f.arguments),
            None => cur.arguments,
        },
    }
}

/// The tool calls after one delta.
pub open spec fn apply_tool_delta(calls: Seq<ToolAcc>, d: ToolCallDelta) -> Seq<ToolAcc> {
    let idx = delta_slot(d);
    let padded = pad_to(calls, idx);
    padded.update(idx, merge_tool_delta(padded[idx], d))
}

/// The tool calls after a sequence of deltas, in order.
pub open spec fn apply_tool_deltas(calls: Seq<ToolAcc>, ds: Seq<ToolCallDelta>) -> Seq<ToolAcc>
    decreases ds.len(),
{
    if ds.len() == 0 {
        calls
    } else {
        apply_tool_delta(apply_tool_deltas(calls, ds.drop_last()), ds.last())
    }
}

/// The accumulator after one choice of a chunk.
pub open spec fn apply_choice(acc: AccView, c: ChunkChoice) -> AccView {
    AccView {
        content: acc.content + text_or_empty(c.delta.content),
        reasoning: acc.reasoning + match c.delta.reasoning {
            Some(r) => r.content@,
            None => Seq::empty(),
        },
        tool_calls: match c.delta.tool_calls {
            Some(v) => apply_tool_deltas(acc.tool_calls, v@),
            None => acc.tool_calls,
        },
        finish_reason: match c.finish_reason {
            Some(f) => Some(f@),
            None => acc.finish_reason,
        },
        ..acc
    }
}

/// The accumulator after the choices of a chunk, in order.
pub open spec fn apply_choices(acc: AccView, cs: Seq<ChunkChoice>) -> AccView
    decreases cs.len(),
{
    if cs.len() == 0 {
        acc
    } else {
        apply_choice(apply_choices(acc, cs.drop_last()), cs.last())
    }
}

/// The accumulator after a chunk: the id and model of the first chunk kept, the
/// choices applied, the usage of the chunk taken where it has one.
pub open spec fn add_chunk(acc: AccView, chunk: ChatCompletionChunk) -> AccView {
    let start = if acc.id is None {
        AccView { id: Some(chunk.id@), model: Some(chunk.model@), ..acc }
    } else {
        acc
    };
    let after = apply_choices(start, chunk.choices@);
    AccView {
        usage: match chunk.usage {
            Some(u) => Some(u),
            None => after.usage,
        },
        ..after
    }
}

/// The empty accumulator.
pub open spec fn empty_acc() -> AccView {
    AccView {
        content: Seq::empty(),
        reasoning: Seq::empty(),
        tool_calls: Seq::empty(),
        finish_reason: None,
        model: None,
        id: None,
        usage: None,
    }
}

/// The accumulator after a sequence of chunks, in order.
pub open spec fn add_chunks(acc: AccView, chunks: Seq<ChatCompletionChunk>) -> AccView
    decreases chunks.len(),
{
    if chunks.len() == 0 {
        acc
    } else {
        add_chunk(add_chunks(acc, chunks.drop_last()), chunks.last())
    }
}

impl View for ChunkAccumulator {
    type V = AccView;

    open spec fn view(&self) -> AccView {
        AccView {
            content: self.content@,
            reasoning: self.reasoning@,
            tool_calls: self.tool_calls@.map_values(|t: AccumulatedToolCall| tool_acc_view(t)),
            finish_reason: match self.finish_reason {
                Some(s) => Some(s@),
                None => None,
            },
            model: match self.model {
                Some(s) => Some(s@),
                None => None,
            },
            id: match self.id {
                Some(s) => Some(s@),
                None => None,
            },
            usage: self.usage,
        }
    }
}

impl AccumulatedToolCall {
    /// A tool call with every field empty.
    pub fn empty() -> (r: Self)
        ensures
            tool_acc_view(r) == empty_tool(),
    {
        AccumulatedToolCall {
            id: String::new(),
            tool_type: String::new(),
            name: String::new(),
            arguments: String::new(),
        }
    }
}

/// Apply one tool call delta to the accumulated tool calls.
fn apply_delta(calls: &mut Vec<AccumulatedToolCall>, tc: &ToolCallDelta)
    ensures
        final(calls)@.map_values(|t: AccumulatedToolCall| tool_acc_view(t)) == apply_tool_delta(
            old(calls)@.map_values(|t: AccumulatedToolCall| tool_acc_view(t)),
            *tc,
        ),
{
    let ghost before = old(calls)@.map_values(|t: AccumulatedToolCall| tool_acc_view(t));
    let index: usize = match tc.index {
        Some(i) => i as usize,
        None => 0,
    };
    assert(index as int == delta_slot(*tc));
    while calls.len() <= index
        invariant
            index as int == delta_slot(*tc),
            before.len() <= calls@.len(),
            calls@.len() <= before.len() || calls@.len() <= index + 1,
            forall|j: int|
                0 <= j < calls@.len() ==> #[trigger] tool_acc_view(calls@[j]) == (if j
                    < before.len() {
                    before[j]
                } else {
                    empty_tool()
                }),
        decreases index + 1 - calls.len(),
    {
        calls.push(AccumulatedToolCall::empty());
    }
    let ghost padded = pad_to(before, index as int);
    assert(calls@.map_values(|t: AccumulatedToolCall| tool_acc_view(t)) =~= padded);
    let mut cur = AccumulatedToolCall {
        id: calls[index].id.clone(),
        tool_type: calls[index].tool_type.clone(),
        name: calls[index].name.clone(),
        arguments: calls[index].arguments.clone(),
    };
    assert(tool_acc_view(cur) == padded[index as int]);
    if let Some(id) = &tc.id {
        cur.id = id.clone();
    }
    if let Some(tool_type) = &tc.tool_type {
        cur.tool_type = tool_type.clone();
    }
    if let Some(function) = &tc.function {
        if let Some(name) = &function.name {
            cur.name = name.clone();
        }
        if let Some(args) = &function.arguments {
            cur.arguments.append(args.as_str());
        } else {
            assert(cur.arguments@ + Seq::<char>::empty() =~= cur.arguments@);
        }
    }
    assert(tool_acc_view(cur) == merge_tool_delta(padded[index as int], *tc));
    calls.set(index, cur);
    assert(calls@.map_values(|t: AccumulatedToolCall| tool_acc_view(t)) =~= padded.update(
        index as int,
        merge_tool_delta(padded[index as int], *tc),
    ));
}

/// Apply a sequence of tool call deltas, in order, to the accumulated tool calls.
fn apply_deltas(calls: &mut Vec<AccumulatedToolCall>, ds: &Vec<ToolCallDelta>)
    ensures
        final(calls)@.map_values(|t: AccumulatedToolCall| tool_acc_view(t)) == apply_tool_deltas(
            old(calls)@.map_values(|t: AccumulatedToolCall| tool_acc_view(t)),
            ds@,
        ),
{
    let ghost before = calls@.map_values(|t: AccumulatedToolCall| tool_acc_view(t));
    let mut k: usize = 0;
    while k < ds.len()
        invariant
            k <= ds.len(),
            calls@.map_values(|t: AccumulatedToolCall| tool_acc_view(t)) == apply_tool_deltas(
                before,
                ds@.take(k as int),
            ),
        decreases ds.len() - k,
    {
        assert(ds@.take(k + 1).drop_last() =~= ds@.take(k as int));
        apply_delta(calls, &ds[k]);
        k = k + 1;
    }
    assert(ds@.take(ds@.len() as int) =~= ds@);
}

impl ChunkAccumulator {
    /// An accumulator that has seen nothing.
    pub fn new() -> (r: Self)
        ensures
            r@ == empty_acc(),
    {
        let r = ChunkAccumulator {
            content: String::new(),
            reasoning: String::new(),
            tool_calls: Vec::new(),
            finish_reason: None,
            model: None,
            id: None,
            usage: None,
        };
        assert(r@.tool_calls =~= Seq::<ToolAcc>::empty());
        r
    }

    /// Fold one chunk into the accumulator.
    pub fn add(&mut self, chunk: &ChatCompletionChunk)
        ensures
            final(self)@ == add_chunk(old(self)@, *chunk),
    {
        if self.id.is_none() {
            self.id = Some(chunk.id.clone());
            self.model = Some(chunk.model.clone());
        }
        let ghost start = self@;
        let mut i: usize = 0;
        while i < chunk.choices.len()
            invariant
                i <= chunk.choices.len(),
                self@ == apply_choices(start, chunk.choices@.take(i as int)),
                self.usage == old(self).usage,
            decreases chunk.choices.len() - i,
        {
            let choice = &chunk.choices[i];
            assert(chunk.choices@.take(i + 1).drop_last() =~= chunk.choices@.take(i as int));
            let ghost mid = self@;
            if let Some(content) = &choice.delta.content {
                self.content.append(content.as_str());
            } else {
                assert(self.content@ + Seq::<char>::empty() =~= self.content@);
            }
            if let Some(reasoning) = &choice.delta.reasoning {
                self.reasoning.append(reasoning.content.as_str());
            } else {
                assert(self.reasoning@ + Seq::<char>::empty() =~= self.reasoning@);
            }
            if let Some(tool_calls) = &choice.delta.tool_calls {
                apply_deltas(&mut self.tool_calls, tool_calls);
            }
            if let Some(reason) = &choice.finish_reason {
                self.finish_reason = Some(reason.clone());
            }
            i = i + 1;
        }
        assert(chunk.choices@.take(chunk.choices@.len() as int) =~= chunk.choices@);
        if let Some(usage) = &chunk.usage {
            self.usage = Some(*usage);
        }
    }

    /// Whether any content has been accumulated.
    pub fn has_content(&self) -> (b: bool)
        ensures
            b == (self@.content.len() > 0),
    {
        !self.content.as_str().is_empty()
    }

    /// Whether any reasoning has been accumulated.
    pub fn has_reasoning(&self) -> (b: bool)
        ensures
            b == (self@.reasoning.len() > 0),
    {
        !self.reasoning.as_str().is_empty()
    }

    /// Whether any tool call has been accumulated.
    pub fn has_tool_calls(&self) -> (b: bool)
        ensures
            b == (self@.tool_calls.len() > 0),
    {
        self.tool_calls.len() != 0
    }
}

/// The content deltas of a sequence of choices, joined in order.
pub open spec fn choices_text(cs: Seq<ChunkChoice>) -> Seq<char>
    decreases cs.len(),
{
    if cs.len() == 0 {
        Seq::empty()
    } else {
        choices_text(cs.drop_last()) + text_or_empty(cs.last().delta.content)
    }
}

/// The text of an optional reasoning delta; empty where there is none.
pub open spec fn reasoning_text(r: Option<Reasoning>) -> Seq<char> {
    match r {
        Some(x) => x.content@,
        None => Seq::empty(),
    }
}

/// The reasoning deltas of a chunk's choices, joined in order.
pub open spec fn choices_reasoning(cs: Seq<ChunkChoice>) -> Seq<char>
    decreases cs.len(),
{
    if cs.len() == 0 {
        Seq::empty()
    } else {
        choices_reasoning(cs.drop_last()) + reasoning_text(cs.last().delta.reasoning)
    }
}

/// The reasoning deltas of a stream of chunks, joined in order.
pub open spec fn stream_reasoning(chunks: Seq<ChatCompletionChunk>) -> Seq<char>
    decreases chunks.len(),
{
    if chunks.len() == 0 {
        Seq::empty()
    } else {
        stream_reasoning(chunks.drop_last()) + choices_reasoning(chunks.last().choices@)
    }
}

/// The content deltas of a stream of chunks, joined in order.
pub open spec fn stream_text(chunks: Seq<ChatCompletionChunk>) -> Seq<char>
    decreases chunks.len(),
{
    if chunks.len() == 0 {
        Seq::empty()
    } else {
        stream_text(chunks.drop_last()) + choices_text(chunks.last().choices@)
    }
}

/// The usage of the last chunk that reports one.
pub open spec fn last_usage(chunks: Seq<ChatCompletionChunk>) -> Option<CompletionUsage>
    decreases chunks.len(),
{
    if chunks.len() == 0 {
        None
    } else {
        match chunks.last().usage {
            Some(u) => Some(u),
            None => last_usage(chunks.drop_last()),
        }
    }
}

proof fn lemma_choices_keep(acc: AccView, cs: Seq<ChunkChoice>)
    ensures
        apply_choices(acc, cs).content == acc.content + choices_text(cs),
        apply_choices(acc, cs).reasoning == acc.reasoning + choices_reasoning(cs),
        apply_choices(acc, cs).id == acc.id,
        apply_choices(acc, cs).model == acc.model,
        apply_choices(acc, cs).usage == acc.usage,
    decreases cs.len(),
{
    if cs.len() == 0 {
        assert(acc.content + Seq::<char>::empty() =~= acc.content);
        assert(acc.reasoning + Seq::<char>::empty() =~= acc.reasoning);
    } else {
        lemma_choices_keep(acc, cs.drop_last());
        assert(acc.content + choices_text(cs.drop_last()) + text_or_empty(cs.last().delta.content)
            =~= acc.content + choices_text(cs));
        assert(acc.reasoning + choices_reasoning(cs.drop_last()) + reasoning_text(
            cs.last().delta.reasoning,
        ) =~= acc.reasoning + choices_reasoning(cs));
    }
}

/// The content accumulated from a stream is every content delta of the stream,
/// in order, after what was accumulated before.
pub proof fn law_accumulated_content(acc: AccView, chunks: Seq<ChatCompletionChunk>)
    ensures
        add_chunks(acc, chunks).content == acc.content + stream_text(chunks),
    decreases chunks.len(),
{
    if chunks.len() == 0 {
        assert(acc.content + Seq::<char>::empty() =~= acc.content);
    } else {
        let prev = add_chunks(acc, chunks.drop_last());
        law_accumulated_content(acc, chunks.drop_last());
        let start = if prev.id is None {
            AccView { id: Some(chunks.last().id@), model: Some(chunks.last().model@), ..prev }
        } else {
            prev
        };
        lemma_choices_keep(start, chunks.last().choices@);
        assert(acc.content + stream_text(chunks.drop_last()) + choices_text(chunks.last().choices@)
            =~= acc.content + stream_text(chunks));
    }
}

/// The finish reason of the last choice of a chunk that reports one.
pub open spec fn last_finish_in(cs: Seq<ChunkChoice>) -> Option<Seq<char>>
    decreases cs.len(),
{
    if cs.len() == 0 {
        None
    } else {
        match cs.last().finish_reason {
            Some(f) => Some(f@),
            None => last_finish_in(cs.drop_last()),
        }
    }
}

/// The finish reason of the last choice in a stream that reports one.
pub open spec fn last_finish(chunks: Seq<ChatCompletionChunk>) -> Option<Seq<char>>
    decreases chunks.len(),
{
    if chunks.len() == 0 {
        None
    } else {
        match last_finish_in(chunks.last().choices@) {
            Some(f) => Some(f),
            None => last_finish(chunks.drop_last()),
        }
    }
}

proof fn lemma_choices_finish(acc: AccView, cs: Seq<ChunkChoice>)
    ensures
        apply_choices(acc, cs).finish_reason == match last_finish_in(cs) {
            Some(f) => Some(f),
            None => acc.finish_reason,
        },
    decreases cs.len(),
{
    if cs.len() > 0 {
        lemma_choices_finish(acc, cs.drop_last());
    }
}

/// The finish reason held after a stream is the last one the stream reports,
/// or what was held before where it reports none.
pub proof fn law_last_finish_reason_wins(acc: AccView, chunks: Seq<ChatCompletionChunk>)
    ensures
        add_chunks(acc, chunks).finish_reason == match last_finish(chunks) {
            Some(f) => Some(f),
            None => acc.finish_reason,
        },
    decreases chunks.len(),
{
    if chunks.len() > 0 {
        let prev = add_chunks(acc, chunks.drop_last());
        law_last_finish_reason_wins(acc, chunks.drop_last());
        let start = if prev.id is None {
            AccView { id: Some(chunks.last().id@), model: Some(chunks.last().model@), ..prev }
        } else {
            prev
        };
        lemma_choices_finish(start, chunks.last().choices@);
    }
}

/// The reasoning accumulated from a stream is every reasoning delta of the
/// stream, in order, after what was accumulated before.
pub proof fn law_accumulated_reasoning(acc: AccView, chunks: Seq<ChatCompletionChunk>)
    ensures
        add_chunks(acc, chunks).reasoning == acc.reasoning + stream_reasoning(chunks),
    decreases chunks.len(),
{
    if chunks.len() == 0 {
        assert(acc.reasoning + Seq::<char>::empty() =~= acc.reasoning);
    } else {
        let prev = add_chunks(acc, chunks.drop_last());
        law_accumulated_reasoning(acc, chunks.drop_last());
        let start = if prev.id is None {
            AccView { id: Some(chunks.last().id@), model: Some(chunks.last().model@), ..prev }
        } else {
            prev
        };
        lemma_choices_keep(start, chunks.last().choices@);
        assert(acc.reasoning + stream_reasoning(chunks.drop_last()) + choices_reasoning(
            chunks.last().choices@,
        ) =~= acc.reasoning + stream_reasoning(chunks));
    }
}

/// After a non-empty stream, an empty accumulator holds the id and model of the
/// first chunk.
pub proof fn law_first_chunk_identifies(chunks: Seq<ChatCompletionChunk>)
    requires
        chunks.len() > 0,
    ensures
        add_chunks(empty_acc(), chunks).id == Some(chunks[0].id@),
        add_chunks(empty_acc(), chunks).model == Some(chunks[0].model@),
    decreases chunks.len(),
{
    let prev = add_chunks(empty_acc(), chunks.drop_last());
    if chunks.len() == 1 {
        assert(chunks.drop_last().len() == 0);
        lemma_choices_keep(
            AccView { id: Some(chunks[0].id@), model: Some(chunks[0].model@), ..empty_acc() },
            chunks[0].choices@,
        );
    } else {
        law_first_chunk_identifies(chunks.drop_last());
        lemma_choices_keep(prev, chunks.last().choices@);
    }
}

/// The usage held after a stream is that of the last chunk reporting one, or what
/// was held before where no chunk reports one.
pub proof fn law_last_usage_wins(acc: AccView, chunks: Seq<ChatCompletionChunk>)
    ensures
        add_chunks(acc, chunks).usage == match last_usage(chunks) {
            Some(u) => Some(u),
            None => acc.usage,
        },
    decreases chunks.len(),
{
    if chunks.len() > 0 {
        let prev = add_chunks(acc, chunks.drop_last());
        law_last_usage_wins(acc, chunks.drop_last());
        let start = if prev.id is None {
            AccView { id: Some(chunks.last().id@), model: Some(chunks.last().model@), ..prev }
        } else {
            prev
        };
        lemma_choices_keep(start, chunks.last().choices@);
    }
}

/// Two deltas for the same tool call concatenate their argument fragments in
/// order, and an id given by the first survives a second that gives none.
pub proof fn law_tool_arguments_concatenate(
    calls: Seq<ToolAcc>,
    first: ToolCallDelta,
    second: ToolCallDelta,
)
    requires
        delta_slot(first) == delta_slot(second),
        first.function is Some,
        second.function is Some,
    ensures
        ({
            let slot = delta_slot(first);
            let after = apply_tool_deltas(calls, seq![first, second]);
            &&& after.len() == pad_to(calls, slot).len()
            &&& after[slot].arguments == pad_to(calls, slot)[slot].arguments + text_or_empty(
                first.function->0.arguments,
            ) + text_or_empty(second.function->0.arguments)
            &&& (first.id is Some && second.id is None) ==> after[slot].id == first.id->0@
        }),
{
    let ds = seq![first, second];
    assert(ds.drop_last() =~= seq![first]);
    assert(seq![first].drop_last() =~= Seq::<ToolCallDelta>::empty());
    let one = apply_tool_deltas(calls, seq![first]);
    assert(apply_tool_deltas(calls, Seq::<ToolCallDelta>::empty()) == calls);
    assert(seq![first].last() == first);
    assert(ds.last() == second);
    assert(one == apply_tool_delta(calls, first));
    let slot = delta_slot(first);
    assert(pad_to(one, slot) == one);
}

} // verus!
