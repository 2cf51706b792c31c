//! Completion request and response types.

use vstd::prelude::*;

use crate::json::JsonValue;
use crate::types::message::{Message, Role};
use crate::types::tool::{Tool, ToolCall, ToolChoice};
use crate::types::usage::CompletionUsage;

verus! {

/// A 32-bit floating-point parameter, held as its IEEE-754 bit pattern
/// (`f32::to_bits`); the library forwards it and never computes with it.
#[derive(Debug, Clone, Copy, PartialEq, Eq, Structural)]
pub struct Float32(pub u32);

/// The level of reasoning effort for models that support extended thinking.
#[derive(Debug, Clone, Copy, PartialEq, Eq, Structural)]
pub enum ReasoningEffort {
    /// No reasoning - disable extended thinking.
    Disabled,
    /// Minimal reasoning effort.
    Minimal,
    /// Low reasoning effort.
    Low,
    /// Medium reasoning effort.
    Medium,
    /// High reasoning effort.
    High,
    /// Auto - let the provider decide.
    Auto,
}

/// The lowercase wire name of a reasoning effort.
pub open spec fn effort_name(e: ReasoningEffort) -> Seq<char> {
    match e {
        ReasoningEffort::Disabled => "none"@,
        ReasoningEffort::Minimal => "minimal"@,
        ReasoningEffort::Low => "low"@,
        ReasoningEffort::Medium => "medium"@,
        ReasoningEffort::High => "high"@,
        ReasoningEffort::Auto => "auto"@,
    }
}

impl ReasoningEffort {
    /// The default effort: `Auto`.
    pub fn default_effort() -> (r: Self)
        ensures
            r == ReasoningEffort::Auto,
    {
        ReasoningEffort::Auto
    }

    /// The lowercase wire name of the effort.
    pub fn as_str(&self) -> (r: &'static str)
        ensures
            r@ == effort_name(*self),
    {
        match self {
            ReasoningEffort::Disabled => "none",
            ReasoningEffort::Minimal => "minimal",
            ReasoningEffort::Low => "low",
            ReasoningEffort::Medium => "medium",
            ReasoningEffort::High => "high",
            ReasoningEffort::Auto => "auto",
        }
    }
}

impl Default for ReasoningEffort {
    fn default() -> (r: Self)
        ensures
            r == ReasoningEffort::Auto,
    {
        ReasoningEffort::Auto
    }
}

/// Stop sequence - a single string or several.
#[derive(Debug, Clone)]
pub enum StopSequence {
    /// A single stop sequence.
    Single(String),
    /// Multiple stop sequences.
    Multiple(Vec<String>),
}

/// The stop sequences as a list of texts.
pub open spec fn stop_list(s: StopSequence) -> Seq<Seq<char>> {
    match s {
        StopSequence::Single(x) => seq![x@],
        StopSequence::Multiple(v) => v@.map_values(|x: String| x@),
    }
}

/// A copy of the strings of `v`, with the same texts.
pub fn clone_strings(v: &Vec<String>) -> (r: Vec<String>)
    ensures
        r@.map_values(|x: String| x@) == v@.map_values(|x: String| x@),
{
    let mut r: Vec<String> = Vec::new();
    let mut i: usize = 0;
    while i < v.len()
        invariant
            i <= v.len(),
            r@.len() == i,
            forall|j: int| 0 <= j < i ==> #[trigger] r@[j]@ == v@[j]@,
        decreases v.len() - i,
    {
        r.push(v[i].clone());
        i = i + 1;
    }
    assert(r@.map_values(|x: String| x@) =~= v@.map_values(|x: String| x@));
    r
}

impl StopSequence {
    /// A single stop sequence.
    pub fn single(s: &str) -> (r: Self)
        ensures
            r matches StopSequence::Single(x) && x@ == s@,
    {
        StopSequence::Single(String::from_str(s))
    }

    /// Multiple stop sequences.
    pub fn multiple(sequences: Vec<String>) -> (r: Self)
        ensures
            r == StopSequence::Multiple(sequences),
    {
        StopSequence::Multiple(sequences)
    }

    /// The stop sequences as a vector of strings.
    pub fn to_vec(&self) -> (r: Vec<String>)
        ensures
            r@.map_values(|x: String| x@) == stop_list(*self),
    {
        match self {
            StopSequence::Single(s) => {
                let mut v: Vec<String> = Vec::new();
                v.push(s.clone());
                assert(v@.map_values(|x: String| x@) =~= seq![s@]);
                v
            },
            StopSequence::Multiple(v) => clone_strings(v),
        }
    }
}

/// Parameters for a completion request.
#[derive(Debug, Clone)]
pub struct CompletionParams {
    /// The model identifier.
    pub model_id: String,
    /// The messages in the conversation.
    pub messages: Vec<Message>,
    /// Tools available to the model.
    pub tools: Option<Vec<Tool>>,
    /// How the model should choose which tool to use.
    pub tool_choice: Option<ToolChoice>,
    /// Sampling temperature (0.0 to 2.0).
    pub temperature: Option<Float32>,
    /// Nucleus sampling parameter.
    pub top_p: Option<Float32>,
    /// Maximum tokens to generate.
    pub max_tokens: Option<u32>,
    /// Whether to stream the response.
    pub stream: Option<bool>,
    /// Number of completions to generate.
    pub n: Option<u32>,
    /// Stop sequences.
    pub stop: Option<StopSequence>,
    /// Presence penalty (-2.0 to 2.0).
    pub presence_penalty: Option<Float32>,
    /// Frequency penalty (-2.0 to 2.0).
    pub frequency_penalty: Option<Float32>,
    /// Random seed for reproducibility.
    pub seed: Option<i64>,
    /// User identifier for abuse detection.
    pub user: Option<String>,
    /// Whether to allow parallel tool calls.
    pub parallel_tool_calls: Option<bool>,
    /// Whether to return log probabilities.
    pub logprobs: Option<bool>,
    /// Number of top log probabilities to return.
    pub top_logprobs: Option<u32>,
    /// Logit bias for specific tokens, as (token, bias) pairs.
    pub logit_bias: Option<Vec<(String, Float32)>>,
    /// Response format (e.g., JSON mode).
    pub response_format: Option<JsonValue>,
    /// Reasoning effort for models that support extended thinking.
    pub reasoning_effort: Option<ReasoningEffort>,
}

/// Every optional parameter of `p` is unset.
pub open spec fn no_options(p: CompletionParams) -> bool {
    &&& p.tools is None
    &&& p.tool_choice is None
    &&& p.temperature is None
    &&& p.top_p is None
    &&& p.max_tokens is None
    &&& p.stream is None
    &&& p.n is None
    &&& p.stop is None
    &&& p.presence_penalty is None
    &&& p.frequency_penalty is None
    &&& p.seed is None
    &&& p.user is None
    &&& p.parallel_tool_calls is None
    &&& p.logprobs is None
    &&& p.top_logprobs is None
    &&& p.logit_bias is None
    &&& p.response_format is None
    &&& p.reasoning_effort is None
}

impl CompletionParams {
    /// Parameters with the given model and messages and nothing else set.
    pub fn new(model_id: &str, messages: Vec<Message>) -> (r: Self)
        ensures
            r.model_id@ == model_id@,
            r.messages == messages,
            no_options(r),
    {
        CompletionParams {
            model_id: String::from_str(model_id),
            messages,
            tools: None,
            tool_choice: None,
            temperature: None,
            top_p: None,
            max_tokens: None,
            stream: None,
            n: None,
            stop: None,
            presence_penalty: None,
            frequency_penalty: None,
            seed: None,
            user: None,
            parallel_tool_calls: None,
            logprobs: None,
            top_logprobs: None,
            logit_bias: None,
            response_format: None,
            reasoning_effort: None,
        }
    }

    /// Set the temperature.
    pub fn with_temperature(self, temperature: Float32) -> (r: Self)
        ensures
            r == (CompletionParams { temperature: Some(temperature), ..self }),
    {
        CompletionParams { temperature: Some(temperature), ..self }
    }

    /// Set the max tokens.
    pub fn with_max_tokens(self, max_tokens: u32) -> (r: Self)
        ensures
            r == (CompletionParams { max_tokens: Some(max_tokens), ..self }),
    {
        CompletionParams { max_tokens: Some(max_tokens), ..self }
    }

    /// Set streaming mode.
    pub fn with_stream(self, stream: bool) -> (r: Self)
        ensures
            r == (CompletionParams { stream: Some(stream), ..self }),
    {
        CompletionParams { stream: Some(stream), ..self }
    }

    /// Set tools.
    pub fn with_tools(self, tools: Vec<Tool>) -> (r: Self)
        ensures
            r == (CompletionParams { tools: Some(tools), ..self }),
    {
        CompletionParams { tools: Some(tools), ..self }
    }

    /// Set tool choice.
    pub fn with_tool_choice(self, tool_choice: ToolChoice) -> (r: Self)
        ensures
            r == (CompletionParams { tool_choice: Some(tool_choice), ..self }),
    {
        CompletionParams { tool_choice: Some(tool_choice), ..self }
    }

    /// Set reasoning effort.
    pub fn with_reasoning_effort(self, effort: ReasoningEffort) -> (r: Self)
        ensures
            r == (CompletionParams { reasoning_effort: Some(effort), ..self }),
    {
        CompletionParams { reasoning_effort: Some(effort), ..self }
    }
}

/// Extended thinking/reasoning content.
#[derive(Debug, Clone)]
pub struct Reasoning {
    /// The reasoning content.
    pub content: String,
}

impl Reasoning {
    /// Reasoning holding `content`.
    pub fn new(content: &str) -> (r: Self)
        ensures
            r.content@ == content@,
    {
        Reasoning { content: String::from_str(content) }
    }
}

/// A message in a completion response.
#[derive(Debug, Clone)]
pub struct ChatCompletionMessage {
    /// The role of the message author.
    pub role: Role,
    /// The content of the message.
    pub content: Option<String>,
    /// Tool calls made by the assistant.
    pub tool_calls: Option<Vec<ToolCall>>,
    /// Extended thinking/reasoning content.
    pub reasoning: Option<Reasoning>,
    /// Optional refusal message.
    pub refusal: Option<String>,
}

impl ChatCompletionMessage {
    /// An assistant message with nothing in it (the default message).
    pub fn empty() -> (r: Self)
        ensures
            r.role == Role::Assistant,
            r.content is None,
            r.tool_calls is None,
            r.reasoning is None,
            r.refusal is None,
    {
        ChatCompletionMessage {
            role: Role::Assistant,
            content: None,
            tool_calls: None,
            reasoning: None,
            refusal: None,
        }
    }
}

/// A choice in a completion response.
#[derive(Debug, Clone)]
pub struct Choice {
    /// The index of this choice.
    pub index: u32,
    /// The generated message.
    pub message: ChatCompletionMessage,
    /// The reason the generation stopped.
    pub finish_reason: Option<String>,
    /// Log probabilities, if requested.
    pub logprobs: Option<JsonValue>,
}

/// A chat completion response.
#[derive(Debug, Clone)]
pub struct ChatCompletion {
    /// Unique identifier for this completion.
    pub id: String,
    /// The object type (always "chat.completion").
    pub object: String,
    /// Unix timestamp of when the completion was created.
    pub created: i64,
    /// The model used for the completion.
    pub model: String,
    /// The generated choices.
    pub choices: Vec<Choice>,
    /// Token usage statistics.
    pub usage: Option<CompletionUsage>,
    /// System fingerprint for reproducibility.
    pub system_fingerprint: Option<String>,
}

/// The first choice of a completion, if any.
pub open spec fn first_choice(c: ChatCompletion) -> Option<Choice> {
    if c.choices@.len() > 0 {
        Some(c.choices@[0])
    } else {
        None
    }
}

/// The content of the first choice's message.
pub open spec fn first_content(c: ChatCompletion) -> Option<Seq<char>> {
    match first_choice(c) {
        Some(ch) => match ch.message.content {
            Some(t) => Some(t@),
            None => None,
        },
        None => None,
    }
}

/// The tool calls of the first choice's message.
pub open spec fn first_tool_calls(c: ChatCompletion) -> Option<Seq<ToolCall>> {
    match first_choice(c) {
        Some(ch) => match ch.message.tool_calls {
            Some(t) => Some(t@),
            None => None,
        },
        None => None,
    }
}

/// The reasoning of the first choice's message.
pub open spec fn first_reasoning(c: ChatCompletion) -> Option<Seq<char>> {
    match first_choice(c) {
        Some(ch) => match ch.message.reasoning {
            Some(t) => Some(t.content@),
            None => None,
        },
        None => None,
    }
}

/// The finish reason of the first choice.
pub open spec fn first_finish_reason(c: ChatCompletion) -> Option<Seq<char>> {
    match first_choice(c) {
        Some(ch) => match ch.finish_reason {
            Some(t) => Some(t@),
            None => None,
        },
        None => None,
    }
}

impl ChatCompletion {
    /// The first choice's message content.
    pub fn content(&self) -> (r: Option<&str>)
        ensures
            r matches Some(s) ==> first_content(*self) == Some(s@),
            r is None ==> first_content(*self) is None,
    {
        if self.choices.len() == 0 {
            return None;
        }
        match &self.choices[0].message.content {
            Some(t) => Some(t.as_str()),
            None => None,
        }
    }

    /// The first choice's tool calls.
    pub fn tool_calls(&self) -> (r: Option<&[ToolCall]>)
        ensures
            r matches Some(s) ==> first_tool_calls(*self) == Some(s@),
            r is None ==> first_tool_calls(*self) is None,
    {
        if self.choices.len() == 0 {
            return None;
        }
        match &self.choices[0].message.tool_calls {
            Some(t) => Some(t.as_slice()),
            None => None,
        }
    }

    /// The first choice's reasoning content.
    pub fn reasoning(&self) -> (r: Option<&str>)
        ensures
            r matches Some(s) ==> first_reasoning(*self) == Some(s@),
            r is None ==> first_reasoning(*self) is None,
    {
        if self.choices.len() == 0 {
            return None;
        }
        match &self.choices[0].message.reasoning {
            Some(t) => Some(t.content.as_str()),
            None => None,
        }
    }

    /// The finish reason of the first choice.
    pub fn finish_reason(&self) -> (r: Option<&str>)
        ensures
            r matches Some(s) ==> first_finish_reason(*self) == Some(s@),
            r is None ==> first_finish_reason(*self) is None,
    {
        if self.choices.len() == 0 {
            return None;
        }
        match &self.choices[0].finish_reason {
            Some(t) => Some(t.as_str()),
            None => None,
        }
    }
}

} // verus!
