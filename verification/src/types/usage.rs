//! Token usage tracking types.

use vstd::prelude::*;

verus! {

/// Token usage statistics for a completion.
#[derive(Debug, Clone, Copy, PartialEq, Eq, Structural)]
pub struct CompletionUsage {
    /// Number of tokens in the prompt.
    pub prompt_tokens: u32,
    /// Number of tokens in the completion.
    pub completion_tokens: u32,
    /// Total number of tokens used.
    pub total_tokens: u32,
}

impl CompletionUsage {
    /// Usage whose total is the sum of the prompt and completion tokens.
    pub fn new(prompt_tokens: u32, completion_tokens: u32) -> (r: Self)
        requires
            prompt_tokens + completion_tokens <= u32::MAX,
        ensures
            r.prompt_tokens == prompt_tokens,
            r.completion_tokens == completion_tokens,
            r.total_tokens == prompt_tokens + completion_tokens,
    {
        CompletionUsage {
            prompt_tokens,
            completion_tokens,
            total_tokens: prompt_tokens + completion_tokens,
        }
    }
}

impl Default for CompletionUsage {
    fn default() -> (r: Self)
        ensures
            r.prompt_tokens == 0,
            r.completion_tokens == 0,
            r.total_tokens == 0,
    {
        CompletionUsage { prompt_tokens: 0, completion_tokens: 0, total_tokens: 0 }
    }
}

} // verus!
