//! The options of the one-call API functions, and how they become provider
//! configuration and request parameters.

use vstd::prelude::*;

use crate::config::{Config, Extras, ProviderConfig};
use crate::json::JsonValue;
use crate::types::completion::{CompletionParams, Float32, ReasoningEffort, StopSequence};
use crate::types::message::Message;
use crate::types::rerank::RerankParams;
use crate::types::tool::{Tool, ToolChoice};

verus! {

/// Options for completion requests.
#[derive(Debug, Clone)]
pub struct CompletionOptions {
    /// API key (if not set, the environment is consulted).
    pub api_key: Option<String>,
    /// API base URL (for custom endpoints/proxies).
    pub api_base: Option<String>,
    /// Tools available to the model.
    pub tools: Option<Vec<Tool>>,
    /// How the model should choose which tool to use.
    pub tool_choice: Option<ToolChoice>,
    /// Sampling temperature (0.0 to 2.0).
    pub temperature: Option<Float32>,
    /// Nucleus sampling parameter.
    pub top_p: Option<Float32>,
    /// Maximum tokens to generate.
    pub max_tokens: Option<u32>,
    /// Number of completions to generate.
    pub n: Option<u32>,
    /// Stop sequences.
    pub stop: Option<StopSequence>,
    /// Presence penalty (-2.0 to 2.0).
    pub presence_penalty: Option<Float32>,
    /// Frequency penalty (-2.0 to 2.0).
    pub frequency_penalty: Option<Float32>,
    /// Random seed for reproducibility.
    pub seed: Option<i64>,
    /// User identifier for abuse detection.
    pub user: Option<String>,
    /// Whether to allow parallel tool calls.
    pub parallel_tool_calls: Option<bool>,
    /// Whether to return log probabilities.
    pub logprobs: Option<bool>,
    /// Number of top log probabilities to return.
    pub top_logprobs: Option<u32>,
    /// Logit bias for specific tokens, as (token, bias) pairs.
    pub logit_bias: Option<Vec<(String, Float32)>>,
    /// Response format (e.g., JSON mode).
    pub response_format: Option<JsonValue>,
    /// Reasoning effort for models that support extended thinking.
    pub reasoning_effort: Option<ReasoningEffort>,
}

/// Every option is unset.
pub open spec fn no_completion_options(o: CompletionOptions) -> bool {
    &&& o.api_key is None
    &&& o.api_base is None
    &&& o.tools is None
    &&& o.tool_choice is None
    &&& o.temperature is None
    &&& o.top_p is None
    &&& o.max_tokens is None
    &&& o.n is None
    &&& o.stop is None
    &&& o.presence_penalty is None
    &&& o.frequency_penalty is None
    &&& o.seed is None
    &&& o.user is None
    &&& o.parallel_tool_calls is None
    &&& o.logprobs is None
    &&& o.top_logprobs is None
    &&& o.logit_bias is None
    &&& o.response_format is None
    &&& o.reasoning_effort is None
}

impl CompletionOptions {
    /// No option set.
    pub fn empty() -> (r: Self)
        ensures
            no_completion_options(r),
    {
        CompletionOptions {
            api_key: None,
            api_base: None,
            tools: None,
            tool_choice: None,
            temperature: None,
            top_p: None,
            max_tokens: None,
            n: None,
            stop: None,
            presence_penalty: None,
            frequency_penalty: None,
            seed: None,
            user: None,
            parallel_tool_calls: None,
            logprobs: None,
            top_logprobs: None,
            logit_bias: None,
            response_format: None,
            reasoning_effort: None,
        }
    }

    /// Options with an API key and nothing else.
    pub fn with_api_key(api_key: &str) -> (r: Self)
        ensures
            r.api_key matches Some(k) && k@ == api_key@,
            no_completion_options(CompletionOptions { api_key: None, ..r }),
    {
        CompletionOptions { api_key: Some(String::from_str(api_key)), ..Self::empty() }
    }

    /// Set the API base URL.
    pub fn api_base(self, api_base: &str) -> (r: Self)
        ensures
            r.api_base matches Some(b) && b@ == api_base@,
            (CompletionOptions { api_base: None, ..r }) == (CompletionOptions {
                api_base: None,
                ..self
            }),
    {
        CompletionOptions { api_base: Some(String::from_str(api_base)), ..self }
    }

    /// Set the temperature.
    pub fn temperature(self, temperature: Float32) -> (r: Self)
        ensures
            r == (CompletionOptions { temperature: Some(temperature), ..self }),
    {
        CompletionOptions { temperature: Some(temperature), ..self }
    }

    /// Set the max tokens.
    pub fn max_tokens(self, max_tokens: u32) -> (r: Self)
        ensures
            r == (CompletionOptions { max_tokens: Some(max_tokens), ..self }),
    {
        CompletionOptions { max_tokens: Some(max_tokens), ..self }
    }

    /// Set the tools.
    pub fn tools(self, tools: Vec<Tool>) -> (r: Self)
        ensures
            r == (CompletionOptions { tools: Some(tools), ..self }),
    {
        CompletionOptions { tools: Some(tools), ..self }
    }

    /// Set the tool choice.
    pub fn tool_choice(self, tool_choice: ToolChoice) -> (r: Self)
        ensures
            r == (CompletionOptions { tool_choice: Some(tool_choice), ..self }),
    {
        CompletionOptions { tool_choice: Some(tool_choice), ..self }
    }

    /// Set the reasoning effort.
    pub fn reasoning_effort(self, effort: ReasoningEffort) -> (r: Self)
        ensures
            r == (CompletionOptions { reasoning_effort: Some(effort), ..self }),
    {
        CompletionOptions { reasoning_effort: Some(effort), ..self }
    }

    /// The provider configuration these options carry: the API key and base
    /// URL, no extra settings.
    pub fn provider_config(&self) -> (r: ProviderConfig)
        ensures
            crate::gateway::opt_text(r.api_key) == crate::gateway::opt_text(self.api_key),
            crate::gateway::opt_text(r.api_base) == crate::gateway::opt_text(self.api_base),
            r.extra.settings() == Map::<Seq<char>, Seq<char>>::empty(),
    {
        ProviderConfig {
            api_key: crate::gateway::clone_opt(&self.api_key),
            api_base: crate::gateway::clone_opt(&self.api_base),
            extra: Extras::new(),
        }
    }

    /// The client configuration these options carry: the API key and base URL,
    /// no extra settings.
    pub fn client_config(&self) -> (r: Config)
        ensures
            crate::gateway::opt_text(r.api_key) == crate::gateway::opt_text(self.api_key),
            crate::gateway::opt_text(r.api_base) == crate::gateway::opt_text(self.api_base),
            r.extra.settings() == Map::<Seq<char>, Seq<char>>::empty(),
    {
        Config {
            api_key: crate::gateway::clone_opt(&self.api_key),
            api_base: crate::gateway::clone_opt(&self.api_base),
            extra: Extras::new(),
        }
    }

    /// The request parameters for `model` and `messages` with these options,
    /// streaming as asked.
    pub fn into_params(self, model: &str, messages: Vec<Message>, stream: bool) -> (r:
        CompletionParams)
        ensures
            r.model_id@ == model@,
            r.messages == messages,
            r.stream == Some(stream),
            r.tools == self.tools && r.tool_choice == self.tool_choice,
            r.temperature == self.temperature && r.top_p == self.top_p,
            r.max_tokens == self.max_tokens && r.n == self.n && r.stop == self.stop,
            r.presence_penalty == self.presence_penalty,
            r.frequency_penalty == self.frequency_penalty,
            r.seed == self.seed && r.user == self.user,
            r.parallel_tool_calls == self.parallel_tool_calls,
            r.logprobs == self.logprobs && r.top_logprobs == self.top_logprobs,
            r.logit_bias == self.logit_bias,
            r.response_format == self.response_format,
            r.reasoning_effort == self.reasoning_effort,
    {
        CompletionParams {
            model_id: String::from_str(model),
            messages,
            tools: self.tools,
            tool_choice: self.tool_choice,
            temperature: self.temperature,
            top_p: self.top_p,
            max_tokens: self.max_tokens,
            stream: Some(stream),
            n: self.n,
            stop: self.stop,
            presence_penalty: self.presence_penalty,
            frequency_penalty: self.frequency_penalty,
            seed: self.seed,
            user: self.user,
            parallel_tool_calls: self.parallel_tool_calls,
            logprobs: self.logprobs,
            top_logprobs: self.top_logprobs,
            logit_bias: self.logit_bias,
            response_format: self.response_format,
            reasoning_effort: self.reasoning_effort,
        }
    }
}

impl Default for CompletionOptions {
    fn default() -> (r: Self)
        ensures
            no_completion_options(r),
    {
        Self::empty()
    }
}

/// Options for a rerank request.
#[derive(Debug, Clone)]
pub struct RerankOptions {
    /// API key (if not set, the environment is consulted).
    pub api_key: Option<String>,
    /// API base URL (for custom endpoints/proxies).
    pub api_base: Option<String>,
    /// Maximum number of results to return.
    pub top_n: Option<u32>,
    /// Maximum tokens per document for truncation.
    pub max_tokens_per_doc: Option<u32>,
    /// User identifier for abuse detection.
    pub user: Option<String>,
}

impl Default for RerankOptions {
    fn default() -> (r: Self)
        ensures
            r.api_key is None && r.api_base is None && r.top_n is None,
            r.max_tokens_per_doc is None && r.user is None,
    {
        RerankOptions { api_key: None, api_base: None, top_n: None, max_tokens_per_doc: None, user: None }
    }
}

impl RerankOptions {
    /// The provider configuration these options carry.
    pub fn provider_config(&self) -> (r: ProviderConfig)
        ensures
            crate::gateway::opt_text(r.api_key) == crate::gateway::opt_text(self.api_key),
            crate::gateway::opt_text(r.api_base) == crate::gateway::opt_text(self.api_base),
            r.extra.settings() == Map::<Seq<char>, Seq<char>>::empty(),
    {
        ProviderConfig {
            api_key: crate::gateway::clone_opt(&self.api_key),
            api_base: crate::gateway::clone_opt(&self.api_base),
            extra: Extras::new(),
        }
    }

    /// The client configuration these options carry.
    pub fn client_config(&self) -> (r: Config)
        ensures
            crate::gateway::opt_text(r.api_key) == crate::gateway::opt_text(self.api_key),
            crate::gateway::opt_text(r.api_base) == crate::gateway::opt_text(self.api_base),
            r.extra.settings() == Map::<Seq<char>, Seq<char>>::empty(),
    {
        Config {
            api_key: crate::gateway::clone_opt(&self.api_key),
            api_base: crate::gateway::clone_opt(&self.api_base),
            extra: Extras::new(),
        }
    }

    /// The rerank parameters for `model`, `query` and `documents` with these
    /// options.
    pub fn into_params(self, model: &str, query: &str, documents: Vec<String>) -> (r: RerankParams)
        ensures
            r.model_id@ == model@,
            r.query@ == query@,
            r.documents == documents,
            r.top_n == self.top_n,
            r.max_tokens_per_doc == self.max_tokens_per_doc,
            r.user == self.user,
    {
        RerankParams {
            model_id: String::from_str(model),
            query: String::from_str(query),
            documents,
            top_n: self.top_n,
            max_tokens_per_doc: self.max_tokens_per_doc,
            user: self.user,
        }
    }
}

} // verus!
