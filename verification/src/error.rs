//! The library's error type: a unified hierarchy onto which gateway errors map.

use vstd::prelude::*;

use crate::text::{concat2, concat3};

verus! {

#[verifier::external_type_specification]
#[verifier::external_body]
pub struct ExSerdeJsonError(serde_json::Error);

#[verifier::external_type_specification]
#[verifier::external_body]
pub struct ExReqwestError(reqwest::Error);

/// The main error type.
#[derive(Debug)]
pub enum OtariError {
    /// Rate limit exceeded - the provider is throttling requests.
    RateLimit { message: String, provider: String },
    /// Authentication failed - invalid or missing API key.
    Authentication { message: String, provider: String },
    /// Invalid request - the request parameters were invalid.
    InvalidRequest { message: String, provider: String },
    /// Provider error - a general error from the provider.
    Provider { message: String, provider: String },
    /// Model not found - the requested model doesn't exist.
    ModelNotFound { model: String, provider: String },
    /// Context length exceeded - the input was too long.
    ContextLengthExceeded { message: String, provider: String },
    /// Content filter triggered - the content was blocked.
    ContentFilter { message: String, provider: String },
    /// Missing API key - no API key was provided or found in the environment.
    MissingApiKey { provider: String, env_var: String },
    /// Unsupported provider - the provider is not supported.
    UnsupportedProvider { provider: String },
    /// Unsupported operation - the provider does not support this operation.
    Unsupported { provider: String, operation: String },
    /// Unsupported parameter - a parameter is not supported by the provider.
    UnsupportedParameter { param: String, provider: String, hint: String },
    /// Batch not yet complete - results cannot be retrieved.
    BatchNotComplete { batch_id: String, status: String, provider: String },
    /// Streaming error - an error occurred during streaming.
    Streaming { message: String, provider: String },
    /// Serialization error - failed to serialize or deserialize data.
    Serialization(serde_json::Error),
    /// HTTP error - a network or HTTP error occurred.
    Http(reqwest::Error),
}

/// The model of an error: its variant and the text of its fields.
pub enum ErrorView {
    RateLimit { message: Seq<char>, provider: Seq<char> },
    Authentication { message: Seq<char>, provider: Seq<char> },
    InvalidRequest { message: Seq<char>, provider: Seq<char> },
    Provider { message: Seq<char>, provider: Seq<char> },
    ModelNotFound { model: Seq<char>, provider: Seq<char> },
    ContextLengthExceeded { message: Seq<char>, provider: Seq<char> },
    ContentFilter { message: Seq<char>, provider: Seq<char> },
    MissingApiKey { provider: Seq<char>, env_var: Seq<char> },
    UnsupportedProvider { provider: Seq<char> },
    Unsupported { provider: Seq<char>, operation: Seq<char> },
    UnsupportedParameter { param: Seq<char>, provider: Seq<char>, hint: Seq<char> },
    BatchNotComplete { batch_id: Seq<char>, status: Seq<char>, provider: Seq<char> },
    Streaming { message: Seq<char>, provider: Seq<char> },
    Serialization,
    Http,
}

impl View for OtariError {
    type V = ErrorView;

    open spec fn view(&self) -> ErrorView {
        match self {
            OtariError::RateLimit { message, provider } => ErrorView::RateLimit {
                message: message@,
                provider: provider@,
            },
            OtariError::Authentication { message, provider } => ErrorView::Authentication {
                message: message@,
                provider: provider@,
            },
            OtariError::InvalidRequest { message, provider } => ErrorView::InvalidRequest {
                message: message@,
                provider: provider@,
            },
            OtariError::Provider { message, provider } => ErrorView::Provider {
                message: message@,
                provider: provider@,
            },
            OtariError::ModelNotFound { model, provider } => ErrorView::ModelNotFound {
                model: model@,
                provider: provider@,
            },
            OtariError::ContextLengthExceeded { message, provider } =>
                ErrorView::ContextLengthExceeded { message: message@, provider: provider@ },
            OtariError::ContentFilter { message, provider } => ErrorView::ContentFilter {
                message: message@,
                provider: provider@,
            },
            OtariError::MissingApiKey { provider, env_var } => ErrorView::MissingApiKey {
                provider: provider@,
                env_var: env_var@,
            },
            OtariError::UnsupportedProvider { provider } => ErrorView::UnsupportedProvider {
                provider: provider@,
            },
            OtariError::Unsupported { provider, operation } => ErrorView::Unsupported {
                provider: provider@,
                operation: operation@,
            },
            OtariError::UnsupportedParameter { param, provider, hint } =>
                ErrorView::UnsupportedParameter {
                param: param@,
                provider: provider@,
                hint: hint@,
            },
            OtariError::BatchNotComplete { batch_id, status, provider } =>
                ErrorView::BatchNotComplete {
                batch_id: batch_id@,
                status: status@,
                provider: provider@,
            },
            OtariError::Streaming { message, provider } => ErrorView::Streaming {
                message: message@,
                provider: provider@,
            },
            OtariError::Serialization(_) => ErrorView::Serialization,
            OtariError::Http(_) => ErrorView::Http,
        }
    }
}

/// The provider name that the library's own errors carry.
pub open spec fn provider_name() -> Seq<char> {
    seq!['o', 't', 'a', 'r', 'i']
}

/// The provider name that the library's own errors carry.
pub fn provider_name_string() -> (r: String)
    ensures
        r@ == provider_name(),
{
    let r = String::from_str("otari");
    proof {
        reveal_strlit("otari");
        assert(r@ =~= provider_name());
    }
    r
}

impl OtariError {
    /// A rate-limit error.
    pub fn rate_limit(message: &str) -> (r: Self)
        ensures
            r@ == (ErrorView::RateLimit { message: message@, provider: provider_name() }),
    {
        OtariError::RateLimit { message: String::from_str(message), provider: provider_name_string() }
    }

    /// An authentication error.
    pub fn authentication(message: &str) -> (r: Self)
        ensures
            r@ == (ErrorView::Authentication { message: message@, provider: provider_name() }),
    {
        OtariError::Authentication {
            message: String::from_str(message),
            provider: provider_name_string(),
        }
    }

    /// An invalid-request error.
    pub fn invalid_request(message: &str) -> (r: Self)
        ensures
            r@ == (ErrorView::InvalidRequest { message: message@, provider: provider_name() }),
    {
        OtariError::InvalidRequest {
            message: String::from_str(message),
            provider: provider_name_string(),
        }
    }

    /// A general provider error.
    pub fn provider_error(message: &str) -> (r: Self)
        ensures
            r@ == (ErrorView::Provider { message: message@, provider: provider_name() }),
    {
        OtariError::Provider { message: String::from_str(message), provider: provider_name_string() }
    }

    /// A model-not-found error.
    pub fn model_not_found(model: &str) -> (r: Self)
        ensures
            r@ == (ErrorView::ModelNotFound { model: model@, provider: provider_name() }),
    {
        OtariError::ModelNotFound { model: String::from_str(model), provider: provider_name_string() }
    }

    /// An unsupported-parameter error.
    pub fn unsupported_parameter(param: &str, hint: &str) -> (r: Self)
        ensures
            r@ == (ErrorView::UnsupportedParameter {
                param: param@,
                provider: provider_name(),
                hint: hint@,
            }),
    {
        OtariError::UnsupportedParameter {
            param: String::from_str(param),
            provider: provider_name_string(),
            hint: String::from_str(hint),
        }
    }

    /// An unsupported-operation error.
    pub fn unsupported(operation: &str) -> (r: Self)
        ensures
            r@ == (ErrorView::Unsupported { provider: provider_name(), operation: operation@ }),
    {
        OtariError::Unsupported {
            provider: provider_name_string(),
            operation: String::from_str(operation),
        }
    }

    /// An unsupported-operation error whose provider name is only known at run time
    /// (for example, parsed from an HTTP response body).
    pub fn unsupported_dynamic(provider: &str, operation: &str) -> (r: Self)
        ensures
            r@ == (ErrorView::Unsupported { provider: provider@, operation: operation@ }),
    {
        OtariError::Unsupported {
            provider: String::from_str(provider),
            operation: String::from_str(operation),
        }
    }
}

/// The message of an error, as the library displays it (for the variants
/// that carry text of the library's own).
pub open spec fn error_text(e: ErrorView) -> Seq<char> {
    match e {
        ErrorView::RateLimit { message, provider } => "Rate limit exceeded for "@ + provider
            + ": "@ + message,
        ErrorView::Authentication { message, provider } => "Authentication failed for "@
            + provider + ": "@ + message,
        ErrorView::InvalidRequest { message, provider } => "Invalid request for "@ + provider
            + ": "@ + message,
        ErrorView::Provider { message, provider } => "Provider error from "@ + provider + ": "@
            + message,
        ErrorView::ModelNotFound { model, provider } => "Model '"@ + model + "' not found for "@
            + provider,
        ErrorView::ContextLengthExceeded { message, provider } => "Context length exceeded for "@
            + provider + ": "@ + message,
        ErrorView::ContentFilter { message, provider } => "Content filtered by "@ + provider
            + ": "@ + message,
        ErrorView::MissingApiKey { provider, env_var } => "Missing API key for "@ + provider
            + ". Set the "@ + env_var + " environment variable or pass api_key in config."@,
        ErrorView::UnsupportedProvider { provider } => "Unsupported provider: '"@ + provider
            + "'."@,
        ErrorView::Unsupported { provider, operation } => "Operation '"@ + operation
            + "' is not supported by "@ + provider,
        ErrorView::UnsupportedParameter { param, provider, hint } => "Parameter '"@ + param
            + "' is not supported by "@ + provider + ". "@ + hint,
        ErrorView::BatchNotComplete { batch_id, status, .. } => "Batch '"@ + batch_id
            + "' is not yet complete (status: "@ + status
            + "). Check status with retrieve_batch()."@,
        ErrorView::Streaming { message, provider } => "Streaming error from "@ + provider + ": "@
            + message,
        ErrorView::Serialization => "Serialization error: "@,
        ErrorView::Http => "HTTP error: "@,
    }
}

/// The text of a JSON error, as it displays.
///
/// Trusted: calls `serde_json::Error`'s `Display` (through `to_string`);
/// nothing is promised of the text.
#[verifier::external_body]
pub(crate) fn serde_error_text(e: &serde_json::Error) -> String {
    e.to_string()
}

/// The text of an HTTP error, as it displays.
///
/// Trusted: calls `reqwest::Error`'s `Display` (through `to_string`);
/// nothing is promised of the text.
#[verifier::external_body]
fn http_error_text(e: &reqwest::Error) -> String {
    e.to_string()
}

impl OtariError {
    /// The error's message: the library's own text with its fields filled in;
    /// for a JSON or HTTP error, its prefix followed by the outside error's text.
    pub fn to_string(&self) -> (r: String)
        ensures
            !(self is Serialization || self is Http) ==> r@ == error_text(self@),
            self is Serialization || self is Http ==> r@.take(error_text(self@).len() as int)
                == error_text(self@),
    {
        let r = match self {
            OtariError::RateLimit { message, provider } => concat4(
                "Rate limit exceeded for ",
                provider.as_str(),
                ": ",
                message.as_str(),
            ),
            OtariError::Authentication { message, provider } => concat4(
                "Authentication failed for ",
                provider.as_str(),
                ": ",
                message.as_str(),
            ),
            OtariError::InvalidRequest { message, provider } => concat4(
                "Invalid request for ",
                provider.as_str(),
                ": ",
                message.as_str(),
            ),
            OtariError::Provider { message, provider } => concat4(
                "Provider error from ",
                provider.as_str(),
                ": ",
                message.as_str(),
            ),
            OtariError::ModelNotFound { model, provider } => concat4(
                "Model '",
                model.as_str(),
                "' not found for ",
                provider.as_str(),
            ),
            OtariError::ContextLengthExceeded { message, provider } => concat4(
                "Context length exceeded for ",
                provider.as_str(),
                ": ",
                message.as_str(),
            ),
            OtariError::ContentFilter { message, provider } => concat4(
                "Content filtered by ",
                provider.as_str(),
                ": ",
                message.as_str(),
            ),
            OtariError::MissingApiKey { provider, env_var } => {
                let head = concat4("Missing API key for ", provider.as_str(), ". Set the ", env_var.as_str());
                concat2(head.as_str(), " environment variable or pass api_key in config.")
            },
            OtariError::UnsupportedProvider { provider } => concat3(
                "Unsupported provider: '",
                provider.as_str(),
                "'.",
            ),
            OtariError::Unsupported { provider, operation } => concat4(
                "Operation '",
                operation.as_str(),
                "' is not supported by ",
                provider.as_str(),
            ),
            OtariError::UnsupportedParameter { param, provider, hint } => {
                let head = concat4("Parameter '", param.as_str(), "' is not supported by ", provider.as_str());
                concat3(head.as_str(), ". ", hint.as_str())
            },
            OtariError::BatchNotComplete { batch_id, status, .. } => {
                let head = concat4("Batch '", batch_id.as_str(), "' is not yet complete (status: ", status.as_str());
                concat2(head.as_str(), "). Check status with retrieve_batch().")
            },
            OtariError::Streaming { message, provider } => concat4(
                "Streaming error from ",
                provider.as_str(),
                ": ",
                message.as_str(),
            ),
            OtariError::Serialization(e) => {
                let t = serde_error_text(e);
                let r = concat2("Serialization error: ", t.as_str());
                assert(r@.take("Serialization error: "@.len() as int) =~= "Serialization error: "@);
                r
            },
            OtariError::Http(e) => {
                let t = http_error_text(e);
                let r = concat2("HTTP error: ", t.as_str());
                assert(r@.take("HTTP error: "@.len() as int) =~= "HTTP error: "@);
                r
            },
        };
        r
    }
}

/// The concatenation of four texts.
fn concat4(a: &str, b: &str, c: &str, d: &str) -> (r: String)
    ensures
        r@ == a@ + b@ + c@ + d@,
{
    let mut r = String::from_str(a);
    r.append(b);
    r.append(c);
    r.append(d);
    r
}

} // verus!
