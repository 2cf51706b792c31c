//! What a provider declares it supports, and the checks a request passes
//! before it is sent to one.

use vstd::prelude::*;

use crate::error::{ErrorView, OtariError};
use crate::types::completion::CompletionParams;
use crate::types::message::{Content, ContentPart, Message};

verus! {

/// A provider's name, its API-key environment variable, and what it supports.
#[derive(Debug, Clone)]
pub struct ProviderCapabilities {
    /// The provider's name, which its errors carry.
    pub name: String,
    /// The environment variable its API key is read from.
    pub env_var: String,
    /// Whether it streams.
    pub supports_streaming: bool,
    /// Whether it takes tools.
    pub supports_tools: bool,
    /// Whether it takes images.
    pub supports_images: bool,
    /// Whether it takes a reasoning effort.
    pub supports_reasoning: bool,
}

/// Whether a message carries an image part.
pub open spec fn has_image(m: Message) -> bool {
    match m.content {
        Some(Content::Parts(ps)) => exists|j: int|
            0 <= j < ps@.len() && (#[trigger] ps@[j]) is ImageUrl,
        _ => false,
    }
}

/// Whether any message of a conversation carries an image part.
pub open spec fn any_image(ms: Seq<Message>) -> bool {
    exists|i: int| 0 <= i < ms.len() && has_image(#[trigger] ms[i])
}

/// The error of a request that asks for what the provider does not support:
/// tools, then images, then reasoning; none where it asks for nothing such.
pub open spec fn validation_error(caps: ProviderCapabilities, p: CompletionParams) -> Option<
    ErrorView,
> {
    if !caps.supports_tools && (p.tools is Some || p.tool_choice is Some) {
        Some(
            ErrorView::Provider {
                message: "Provider does not support tools"@,
                provider: caps.name@,
            },
        )
    } else if !caps.supports_images && any_image(p.messages@) {
        Some(
            ErrorView::Provider {
                message: "Provider does not support images"@,
                provider: caps.name@,
            },
        )
    } else if !caps.supports_reasoning && p.reasoning_effort is Some {
        Some(
            ErrorView::Provider {
                message: "Provider does not support reasoning"@,
                provider: caps.name@,
            },
        )
    } else {
        None
    }
}

/// A provider error carrying `name`.
fn provider_failure(name: &String, message: &str) -> (r: OtariError)
    ensures
        r@ == (ErrorView::Provider { message: message@, provider: name@ }),
{
    OtariError::Provider { message: String::from_str(message), provider: name.clone() }
}

/// Whether a message carries an image part.
fn message_has_image(m: &Message) -> (b: bool)
    ensures
        b == has_image(*m),
{
    match &m.content {
        Some(Content::Parts(ps)) => {
            let mut j: usize = 0;
            while j < ps.len()
                invariant
                    j <= ps@.len(),
                    m.content == Some(Content::Parts(*ps)),
                    forall|k: int| 0 <= k < j ==> !((#[trigger] ps@[k]) is ImageUrl),
                decreases ps.len() - j,
            {
                match &ps[j] {
                    ContentPart::ImageUrl { .. } => {
                        assert(ps@[j as int] is ImageUrl);
                        return true;
                    },
                    ContentPart::Text { .. } => {},
                }
                j = j + 1;
            }
            false
        },
        _ => false,
    }
}

/// Check a request against what the provider supports.
pub fn validate_completion_params(caps: &ProviderCapabilities, params: &CompletionParams) -> (r:
    Result<(), OtariError>)
    ensures
        match validation_error(*caps, *params) {
            None => r is Ok,
            Some(e) => r matches Err(x) && x@ == e,
        },
{
    if !caps.supports_tools && (params.tools.is_some() || params.tool_choice.is_some()) {
        return Err(provider_failure(&caps.name, "Provider does not support tools"));
    }
    if !caps.supports_images {
        let mut i: usize = 0;
        while i < params.messages.len()
            invariant
                i <= params.messages@.len(),
                !caps.supports_images,
                caps.supports_tools || (params.tools is None && params.tool_choice is None),
                forall|k: int| 0 <= k < i ==> !has_image(#[trigger] params.messages@[k]),
            decreases params.messages.len() - i,
        {
            if message_has_image(&params.messages[i]) {
                assert(has_image(params.messages@[i as int]));
                return Err(provider_failure(&caps.name, "Provider does not support images"));
            }
            i = i + 1;
        }
    }
    if !caps.supports_reasoning && params.reasoning_effort.is_some() {
        return Err(provider_failure(&caps.name, "Provider does not support reasoning"));
    }
    Ok(())
}

/// The error of a streamed request to a provider that does not stream, or of a
/// request it does not support; none where it can be sent.
pub open spec fn stream_validation_error(caps: ProviderCapabilities, p: CompletionParams) -> Option<
    ErrorView,
> {
    if !caps.supports_streaming {
        Some(
            ErrorView::Provider {
                message: "Provider does not support streaming"@,
                provider: caps.name@,
            },
        )
    } else {
        validation_error(caps, p)
    }
}

/// Check a streamed request against what the provider supports.
pub fn validate_stream_params(caps: &ProviderCapabilities, params: &CompletionParams) -> (r: Result<
    (),
    OtariError,
>)
    ensures
        match stream_validation_error(*caps, *params) {
            None => r is Ok,
            Some(e) => r matches Err(x) && x@ == e,
        },
{
    if !caps.supports_streaming {
        return Err(provider_failure(&caps.name, "Provider does not support streaming"));
    }
    validate_completion_params(caps, params)
}

/// The API key a provider uses: the configured one, else its environment
/// variable's value (read by the caller).
pub fn api_key(configured: &Option<String>, from_env: Option<String>) -> (r: Option<String>)
    ensures
        crate::gateway::opt_text(r) == match configured {
            Some(k) => Some(k@),
            None => crate::gateway::opt_text(from_env),
        },
{
    match configured {
        Some(k) => Some(k.clone()),
        None => from_env,
    }
}

} // verus!
