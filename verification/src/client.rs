//! The decisions the gateway client makes before and after it talks HTTP:
//! which credentials and base URL a configuration resolves to, which header
//! carries them, and which typed error a failed response maps to.

use vstd::prelude::*;

use crate::config::Config;
use crate::error::{ErrorView, OtariError, provider_name, provider_name_string};
use crate::http_error::{
    batch_id_of, batch_status_of, extract_batch_id, extract_batch_status, failure_message,
    failure_message_of, parse_unsupported_provider, unsupported_marker, unsupported_provider_of,
    with_note, append_note,
};
use crate::json::{
    JsonValue, JsonView, get_member, json_parse, json_parse_bytes, parse_json, parse_json_bytes,
    str_member, str_of,
};
use crate::text::{
    concat2, concat3, decimal, has_substring, opt_string_view, opt_view, str_contains,
    trim_end, trim_end_char, u64_to_decimal, utf8_lossy, utf8_lossy_text,
};

verus! {

/// The canonical platform-token environment variable.
pub open spec fn otari_ai_token_env() -> Seq<char> {
    "OTARI_AI_TOKEN"@
}

/// The hosted gateway's base URL, the platform-mode default.
pub open spec fn hosted_api_base() -> Seq<char> {
    "https://api.otari.ai"@
}

/// The message of the error for a configuration that resolves to no base URL.
pub open spec fn api_base_required() -> Seq<char> {
    "api_base is required (set via config, GATEWAY_API_BASE env var, or OTARI_API_BASE legacy env var)"@
}

/// The User-Agent the client sends on every request.
pub open spec fn user_agent_text() -> Seq<char> {
    "otari-rust/0.1.0"@
}

/// The User-Agent string this library sends: `otari-rust/<version>`.
pub fn user_agent() -> (r: &'static str)
    ensures
        r@ == user_agent_text(),
{
    "otari-rust/0.1.0"
}

/// The values of the environment variables that the client consults, as read
/// by the caller.
#[derive(Debug, Clone)]
pub struct EnvVars {
    /// `OTARI_AI_TOKEN`: the canonical platform token.
    pub otari_ai_token: Option<String>,
    /// `OTARI_PLATFORM_TOKEN`: the legacy platform token.
    pub otari_platform_token: Option<String>,
    /// `GATEWAY_API_BASE`: the canonical base URL.
    pub gateway_api_base: Option<String>,
    /// `OTARI_API_BASE`: the legacy base URL.
    pub otari_api_base: Option<String>,
    /// `GATEWAY_API_KEY`: the canonical API key.
    pub gateway_api_key: Option<String>,
    /// `OTARI_API_KEY`: the legacy API key.
    pub otari_api_key: Option<String>,
}

impl EnvVars {
    /// No variable set.
    pub fn empty() -> (r: Self)
        ensures
            r.otari_ai_token is None,
            r.otari_platform_token is None,
            r.gateway_api_base is None,
            r.otari_api_base is None,
            r.gateway_api_key is None,
            r.otari_api_key is None,
    {
        EnvVars {
            otari_ai_token: None,
            otari_platform_token: None,
            gateway_api_base: None,
            otari_api_base: None,
            gateway_api_key: None,
            otari_api_key: None,
        }
    }
}

/// `a`, else `b`.
pub open spec fn first_some(a: Option<Seq<char>>, b: Option<Seq<char>>) -> Option<Seq<char>> {
    match a {
        Some(x) => Some(x),
        None => b,
    }
}

/// A copy of the first of two optional strings that is set.
fn first_of(a: &Option<String>, b: &Option<String>) -> (r: Option<String>)
    ensures
        opt_string_view(r) == first_some(opt_string_view(*a), opt_string_view(*b)),
{
    match a {
        Some(x) => Some(x.clone()),
        None => match b {
            Some(y) => Some(y.clone()),
            None => None,
        },
    }
}

/// The platform token from the environment: canonical first, then legacy.
pub fn platform_token_from_env(env: &EnvVars) -> (r: Option<String>)
    ensures
        opt_string_view(r) == first_some(
            opt_string_view(env.otari_ai_token),
            opt_string_view(env.otari_platform_token),
        ),
{
    first_of(&env.otari_ai_token, &env.otari_platform_token)
}

/// The base URL from the environment: canonical first, then legacy.
pub fn api_base_from_env(env: &EnvVars) -> (r: Option<String>)
    ensures
        opt_string_view(r) == first_some(
            opt_string_view(env.gateway_api_base),
            opt_string_view(env.otari_api_base),
        ),
{
    first_of(&env.gateway_api_base, &env.otari_api_base)
}

/// The API key from the environment: canonical first, then legacy.
pub fn api_key_from_env(env: &EnvVars) -> (r: Option<String>)
    ensures
        opt_string_view(r) == first_some(
            opt_string_view(env.gateway_api_key),
            opt_string_view(env.otari_api_key),
        ),
{
    first_of(&env.gateway_api_key, &env.otari_api_key)
}

/// A character that an HTTP header value may hold: a tab, or anything from
/// the space up but DEL (a non-ASCII character is sent as UTF-8 bytes, all
/// of which are at least 0x80).
pub open spec fn header_char_ok(c: char) -> bool {
    c == '\t' || ((c as u32) >= 32 && (c as u32) != 127)
}

/// Every character of `s` may stand in a header value.
pub open spec fn header_value_ok(s: Seq<char>) -> bool {
    forall|i: int| 0 <= i < s.len() ==> header_char_ok(#[trigger] s[i])
}

/// The text of the error that `HeaderValue::from_str` reports.
pub open spec fn header_value_error() -> Seq<char> {
    "failed to parse header value"@
}

/// Check that `s` can be sent as an HTTP header value.
///
/// Trusted: calls `reqwest::header::HeaderValue::from_str` (the `http`
/// crate), which accepts exactly the strings whose every byte is a tab or at
/// least 32 and not 127, and whose error displays as
/// "failed to parse header value".
#[verifier::external_body]
pub(crate) fn check_header_value(s: &str) -> (r: Result<(), String>)
    ensures
        r is Ok <==> header_value_ok(s@),
        r matches Err(m) ==> m@ == header_value_error(),
{
    match reqwest::header::HeaderValue::from_str(s) {
        Ok(_) => Ok(()),
        Err(e) => Err(e.to_string()),
    }
}

/// Which header carries the credentials.
#[derive(Debug, Clone, Copy, PartialEq, Eq, Structural)]
pub enum HeaderKind {
    /// `Authorization: Bearer <platform token>`.
    Authorization,
    /// `Otari-Key: Bearer <api key>`.
    OtariKey,
}

/// A credentials header: its kind and its value.
#[derive(Debug, Clone)]
pub struct AuthHeader {
    /// Which header.
    pub kind: HeaderKind,
    /// The header's value, `Bearer <secret>`.
    pub value: String,
}

/// The outcome of resolving authentication: the mode, and the header to send.
#[derive(Debug, Clone)]
pub struct ResolvedAuth {
    /// Whether the client runs in platform mode.
    pub platform_mode: bool,
    /// The credentials header, where there is one.
    pub header: Option<AuthHeader>,
}

/// The model of a resolved authentication.
pub open spec fn auth_view(a: ResolvedAuth) -> (bool, Option<(HeaderKind, Seq<char>)>) {
    (
        a.platform_mode,
        match a.header {
            Some(h) => Some((h.kind, h.value@)),
            None => None,
        },
    )
}

/// A header of the given kind holding `Bearer <secret>`, or the error the
/// header check gives, with `what` naming the secret.
pub open spec fn bearer_header(
    platform_mode: bool,
    kind: HeaderKind,
    secret: Seq<char>,
    what: Seq<char>,
) -> Result<(bool, Option<(HeaderKind, Seq<char>)>), ErrorView> {
    let value = "Bearer "@ + secret;
    if header_value_ok(value) {
        Ok((platform_mode, Some((kind, value))))
    } else {
        Err(
            ErrorView::Provider {
                message: "Invalid "@ + what + ": "@ + header_value_error(),
                provider: provider_name(),
            },
        )
    }
}

/// How authentication resolves.
///
/// 1. An explicit `platform_mode = true` is platform mode; its token is the
///    explicit platform token, else the API key, else the environment's
///    platform token, and without any of them the API key is missing.
/// 2. With no explicit mode and no API key, a platform token (explicit, else
///    from the environment) turns platform mode on.
/// 3. Otherwise the mode is non-platform, with an `Otari-Key` header where the
///    API key (explicit, else from the environment) is non-empty.
pub open spec fn auth_outcome(
    api_key: Option<Seq<char>>,
    platform_token: Option<Seq<char>>,
    platform_mode: Option<bool>,
    platform_token_env: Option<Seq<char>>,
    api_key_env: Option<Seq<char>>,
) -> Result<(bool, Option<(HeaderKind, Seq<char>)>), ErrorView> {
    if platform_mode == Some(true) {
        match first_some(platform_token, first_some(api_key, platform_token_env)) {
            Some(token) => bearer_header(true, HeaderKind::Authorization, token, "platform token"@),
            None => Err(
                ErrorView::MissingApiKey { provider: provider_name(), env_var: otari_ai_token_env() },
            ),
        }
    } else if platform_mode is None && api_key is None && first_some(
        platform_token,
        platform_token_env,
    ) is Some {
        bearer_header(
            true,
            HeaderKind::Authorization,
            first_some(platform_token, platform_token_env)->0,
            "platform token"@,
        )
    } else {
        let key = match first_some(api_key, api_key_env) {
            Some(k) => k,
            None => Seq::empty(),
        };
        if key.len() == 0 {
            Ok((false, None))
        } else {
            bearer_header(false, HeaderKind::OtariKey, key, "API key"@)
        }
    }
}

/// The result of resolving a value, as a result over models.
pub open spec fn auth_result_view(r: Result<ResolvedAuth, OtariError>) -> Result<
    (bool, Option<(HeaderKind, Seq<char>)>),
    ErrorView,
> {
    match r {
        Ok(a) => Ok(auth_view(a)),
        Err(e) => Err(e@),
    }
}

/// `Bearer <secret>` as a header of the given kind, checked.
fn make_bearer(platform_mode: bool, kind: HeaderKind, secret: &str, what: &str) -> (r: Result<
    ResolvedAuth,
    OtariError,
>)
    ensures
        auth_result_view(r) == bearer_header(platform_mode, kind, secret@, what@),
{
    let value = concat2("Bearer ", secret);
    proof {
        reveal_strlit("Bearer ");
    }
    match check_header_value(value.as_str()) {
        Ok(()) => Ok(
            ResolvedAuth { platform_mode, header: Some(AuthHeader { kind, value }) },
        ),
        Err(e) => {
            let head = concat3("Invalid ", what, ": ");
            Err(OtariError::provider_error(concat2(head.as_str(), e.as_str()).as_str()))
        },
    }
}

/// Resolve the authentication mode and the credentials header.
pub fn resolve_auth(
    api_key: Option<String>,
    platform_token: Option<String>,
    platform_mode: Option<bool>,
    platform_token_env: Option<String>,
    api_key_env: Option<String>,
) -> (r: Result<ResolvedAuth, OtariError>)
    ensures
        auth_result_view(r) == auth_outcome(
            opt_string_view(api_key),
            opt_string_view(platform_token),
            platform_mode,
            opt_string_view(platform_token_env),
            opt_string_view(api_key_env),
        ),
{
    proof {
        reveal_strlit("platform token");
        reveal_strlit("API key");
        reveal_strlit("OTARI_AI_TOKEN");
    }
    if platform_mode == Some(true) {
        let token = match first_of(&api_key, &platform_token_env) {
            Some(t) => match &platform_token {
                Some(p) => Some(p.clone()),
                None => Some(t),
            },
            None => match &platform_token {
                Some(p) => Some(p.clone()),
                None => None,
            },
        };
        return match token {
            Some(t) => make_bearer(true, HeaderKind::Authorization, t.as_str(), "platform token"),
            None => Err(
                OtariError::MissingApiKey {
                    provider: provider_name_string(),
                    env_var: String::from_str("OTARI_AI_TOKEN"),
                },
            ),
        };
    }
    if platform_mode.is_none() && api_key.is_none() {
        if let Some(token) = first_of(&platform_token, &platform_token_env) {
            return make_bearer(true, HeaderKind::Authorization, token.as_str(), "platform token");
        }
    }
    let key = match first_of(&api_key, &api_key_env) {
        Some(k) => k,
        None => String::new(),
    };
    if key.as_str().is_empty() {
        Ok(ResolvedAuth { platform_mode: false, header: None })
    } else {
        make_bearer(false, HeaderKind::OtariKey, key.as_str(), "API key")
    }
}

/// How the base URL resolves: the configured one, else the environment's,
/// else (in platform mode) the hosted gateway; with any trailing `/` removed.
pub open spec fn api_base_outcome(
    configured: Option<Seq<char>>,
    from_env: Option<Seq<char>>,
    platform_mode: bool,
) -> Result<Seq<char>, ErrorView> {
    let hosted = if platform_mode {
        Some(hosted_api_base())
    } else {
        None
    };
    match first_some(configured, first_some(from_env, hosted)) {
        Some(b) => Ok(trim_end_char(b, '/')),
        None => Err(ErrorView::Provider { message: api_base_required(), provider: provider_name() }),
    }
}

/// The result of resolving a text, as a result over models.
pub open spec fn text_result_view(r: Result<String, OtariError>) -> Result<Seq<char>, ErrorView> {
    match r {
        Ok(s) => Ok(s@),
        Err(e) => Err(e@),
    }
}

/// Resolve the base URL.
pub fn resolve_api_base(
    configured: Option<String>,
    from_env: Option<String>,
    platform_mode: bool,
) -> (r: Result<String, OtariError>)
    ensures
        text_result_view(r) == api_base_outcome(
            opt_string_view(configured),
            opt_string_view(from_env),
            platform_mode,
        ),
{
    let chosen = match configured {
        Some(b) => Some(b),
        None => match from_env {
            Some(b) => Some(b),
            None => if platform_mode {
                Some(String::from_str("https://api.otari.ai"))
            } else {
                None
            },
        },
    };
    match chosen {
        Some(b) => Ok(trim_end(b.as_str(), '/')),
        None => Err(
            OtariError::provider_error(
                "api_base is required (set via config, GATEWAY_API_BASE env var, or OTARI_API_BASE legacy env var)",
            ),
        ),
    }
}

/// What a client needs to talk to the gateway: the base URL, the mode and the
/// credentials header.
#[derive(Debug, Clone)]
pub struct GatewaySettings {
    /// The base URL, with no trailing `/`.
    pub api_base: String,
    /// Whether the client runs in platform mode.
    pub platform_mode: bool,
    /// The credentials header, where there is one.
    pub auth_header: Option<AuthHeader>,
}

/// The explicit platform mode a configuration asks for: its `platform_mode`
/// setting compared with `"true"`.
pub open spec fn explicit_mode(settings: Map<Seq<char>, Seq<char>>) -> Option<bool> {
    if settings.dom().contains("platform_mode"@) {
        Some(settings["platform_mode"@] == "true"@)
    } else {
        None
    }
}

/// The explicit platform token a configuration carries.
pub open spec fn explicit_token(settings: Map<Seq<char>, Seq<char>>) -> Option<Seq<char>> {
    if settings.dom().contains("platform_token"@) {
        Some(settings["platform_token"@])
    } else {
        None
    }
}

/// How a configuration and the environment resolve to client settings.
pub open spec fn settings_outcome(config: Config, env: EnvVars) -> Result<
    (Seq<char>, bool, Option<(HeaderKind, Seq<char>)>),
    ErrorView,
> {
    match auth_outcome(
        opt_string_view(config.api_key),
        explicit_token(config.extra.settings()),
        explicit_mode(config.extra.settings()),
        first_some(opt_string_view(env.otari_ai_token), opt_string_view(env.otari_platform_token)),
        first_some(opt_string_view(env.gateway_api_key), opt_string_view(env.otari_api_key)),
    ) {
        Err(e) => Err(e),
        Ok((mode, header)) => match api_base_outcome(
            opt_string_view(config.api_base),
            first_some(opt_string_view(env.gateway_api_base), opt_string_view(env.otari_api_base)),
            mode,
        ) {
            Err(e) => Err(e),
            Ok(base) => Ok((base, mode, header)),
        },
    }
}

/// The model of client settings.
pub open spec fn settings_view(s: GatewaySettings) -> (
    Seq<char>,
    bool,
    Option<(HeaderKind, Seq<char>)>,
) {
    (
        s.api_base@,
        s.platform_mode,
        match s.auth_header {
            Some(h) => Some((h.kind, h.value@)),
            None => None,
        },
    )
}

/// Resolve a configuration and the environment to client settings: the
/// authentication first, so that the base URL agrees on the mode.
pub fn resolve_settings(config: Config, env: &EnvVars) -> (r: Result<GatewaySettings, OtariError>)
    ensures
        match r {
            Ok(s) => settings_outcome(config, *env) == Ok::<_, ErrorView>(settings_view(s)),
            Err(e) => settings_outcome(config, *env) == Err::<
                (Seq<char>, bool, Option<(HeaderKind, Seq<char>)>),
                _,
            >(e@),
        },
{
    proof {
        reveal_strlit("platform_token");
        reveal_strlit("platform_mode");
        reveal_strlit("true");
    }
    let explicit_token_value = match config.extra.get("platform_token") {
        Some(t) => Some(t.clone()),
        None => None,
    };
    let true_text = String::from_str("true");
    let explicit_mode_value = match config.extra.get("platform_mode") {
        Some(v) => Some(*v == true_text),
        None => None,
    };
    let ghost cfg = config;
    let auth = resolve_auth(
        config.api_key,
        explicit_token_value,
        explicit_mode_value,
        platform_token_from_env(env),
        api_key_from_env(env),
    );
    let auth = match auth {
        Ok(a) => a,
        Err(e) => return Err(e),
    };
    let api_base = match resolve_api_base(config.api_base, api_base_from_env(env), auth.platform_mode) {
        Ok(b) => b,
        Err(e) => return Err(e),
    };
    Ok(GatewaySettings { api_base, platform_mode: auth.platform_mode, auth_header: auth.header })
}

/// The message of an OpenAI-style or FastAPI-style error body:
/// `{"error": {"message": "..."}}`, else `{"error": "..."}`, else
/// `{"detail": "..."}`.
pub open spec fn error_message_of(body: Seq<char>) -> Option<Seq<char>> {
    match json_parse(body) {
        None => None,
        Some(v) => {
            let from_error = match get_member(v, "error"@) {
                Some(e) => match str_member(e, "message"@) {
                    Some(m) => Some(m),
                    None => str_of(e),
                },
                None => None,
            };
            match from_error {
                Some(m) => Some(m),
                None => str_member(v, "detail"@),
            }
        },
    }
}

/// Extract the message from an OpenAI-style or FastAPI-style error body.
pub fn extract_error_message(body: &str) -> (r: Option<String>)
    ensures
        opt_string_view(r) == error_message_of(body@),
{
    let v = match parse_json(body) {
        Some(v) => v,
        None => return None,
    };
    if let Some(e) = v.get("error") {
        if let Some(m) = e.get_str("message") {
            return Some(m.clone());
        }
        if let Some(s) = e.as_str() {
            return Some(s.clone());
        }
    }
    match v.get_str("detail") {
        Some(d) => Some(d.clone()),
        None => None,
    }
}

/// The message of a failed response with its correlation id noted.
pub open spec fn noted_detail(status: u16, body: Seq<char>, correlation_id: Option<Seq<char>>) -> Seq<
    char,
> {
    with_note(
        failure_message(status, body, error_message_of(body)),
        "correlation_id"@,
        correlation_id,
    )
}

/// The error that a failed gateway response maps to.
///
/// The moderation-capability 400 is an unsupported operation; otherwise
/// 401/403 authentication, 402 insufficient funds, 404 model not found,
/// 429 rate limit, 502 upstream provider error, 504 gateway timeout, and
/// anything else a provider error carrying the status.
pub open spec fn client_error(
    status: u16,
    body: Seq<char>,
    correlation_id: Option<Seq<char>>,
    retry_after: Option<Seq<char>>,
) -> ErrorView {
    let detail = noted_detail(status, body, correlation_id);
    if status == 400 && has_substring(detail, unsupported_marker()) && has_substring(
        detail,
        "moderation"@,
    ) {
        ErrorView::Unsupported {
            provider: match unsupported_provider_of(detail) {
                Some(p) => p,
                None => "unknown"@,
            },
            operation: if has_substring(detail, "multimodal"@) {
                "multimodal_moderation"@
            } else {
                "moderation"@
            },
        }
    } else {
        let d = with_note(detail, "retry_after"@, retry_after);
        if status == 401 || status == 403 {
            ErrorView::Authentication { message: d, provider: provider_name() }
        } else if status == 402 {
            ErrorView::Provider { message: "Insufficient funds: "@ + d, provider: provider_name() }
        } else if status == 404 {
            ErrorView::ModelNotFound { model: d, provider: provider_name() }
        } else if status == 429 {
            ErrorView::RateLimit { message: d, provider: provider_name() }
        } else if status == 502 {
            ErrorView::Provider {
                message: "Upstream provider error: "@ + d,
                provider: provider_name(),
            }
        } else if status == 504 {
            ErrorView::Provider { message: "Gateway timeout: "@ + d, provider: provider_name() }
        } else {
            ErrorView::Provider {
                message: "HTTP "@ + decimal(status as nat) + ": "@ + d,
                provider: provider_name(),
            }
        }
    }
}

/// The message of a failed response with its correlation id noted.
fn noted_detail_of(status: u16, body: &str, correlation_id: Option<&str>) -> (r: String)
    ensures
        r@ == noted_detail(status, body@, opt_view(correlation_id)),
{
    let message = failure_message_of(status, body, extract_error_message(body));
    append_note(message, "correlation_id", correlation_id)
}

/// Map a failed gateway response (status, body and the optional
/// `x-correlation-id` / `retry-after` headers) to a typed error.
pub fn convert_error(
    status: u16,
    body: &str,
    correlation_id: Option<&str>,
    retry_after: Option<&str>,
) -> (r: OtariError)
    ensures
        r@ == client_error(status, body@, opt_view(correlation_id), opt_view(retry_after)),
{
    let detail = noted_detail_of(status, body, correlation_id);
    if status == 400 && str_contains(detail.as_str(), "does not support") && str_contains(
        detail.as_str(),
        "moderation",
    ) {
        let provider = match parse_unsupported_provider(detail.as_str()) {
            Some(p) => p,
            None => String::from_str("unknown"),
        };
        let operation = if str_contains(detail.as_str(), "multimodal") {
            "multimodal_moderation"
        } else {
            "moderation"
        };
        return OtariError::unsupported_dynamic(provider.as_str(), operation);
    }
    let d = append_note(detail, "retry_after", retry_after);
    if status == 401 || status == 403 {
        OtariError::authentication(d.as_str())
    } else if status == 402 {
        OtariError::provider_error(concat2("Insufficient funds: ", d.as_str()).as_str())
    } else if status == 404 {
        OtariError::model_not_found(d.as_str())
    } else if status == 429 {
        OtariError::rate_limit(d.as_str())
    } else if status == 502 {
        OtariError::provider_error(concat2("Upstream provider error: ", d.as_str()).as_str())
    } else if status == 504 {
        OtariError::provider_error(concat2("Gateway timeout: ", d.as_str()).as_str())
    } else {
        let head = concat3("HTTP ", u64_to_decimal(status as u64).as_str(), ": ");
        OtariError::provider_error(concat2(head.as_str(), d.as_str()).as_str())
    }
}

/// The error that a failed response from a batch endpoint maps to: 409 is a
/// batch that is not complete yet, 404 on a batch path a gateway without
/// batch support, anything else as `client_error` maps it.
pub open spec fn batch_error(
    status: u16,
    body: Seq<char>,
    correlation_id: Option<Seq<char>>,
    retry_after: Option<Seq<char>>,
    path: Seq<char>,
) -> ErrorView {
    let detail = noted_detail(status, body, correlation_id);
    if status == 409 {
        ErrorView::BatchNotComplete {
            batch_id: match batch_id_of(detail) {
                Some(id) => id,
                None => Seq::empty(),
            },
            status: match batch_status_of(detail) {
                Some(s) => s,
                None => "unknown"@,
            },
            provider: provider_name(),
        }
    } else if status == 404 && has_substring(path, "/v1/batches"@) {
        ErrorView::Provider {
            message: "This gateway does not support batch operations. Upgrade your gateway. ("@
                + detail + ")"@,
            provider: provider_name(),
        }
    } else {
        client_error(status, body, correlation_id, retry_after)
    }
}

/// Map a failed response from a batch endpoint at `path` to a typed error.
pub fn convert_batch_error(
    status: u16,
    body: &str,
    correlation_id: Option<&str>,
    retry_after: Option<&str>,
    path: &str,
) -> (r: OtariError)
    ensures
        r@ == batch_error(status, body@, opt_view(correlation_id), opt_view(retry_after), path@),
{
    if status == 409 || (status == 404 && str_contains(path, "/v1/batches")) {
        let detail = noted_detail_of(status, body, correlation_id);
        if status == 409 {
            let batch_id = match extract_batch_id(detail.as_str()) {
                Some(id) => id,
                None => String::new(),
            };
            let batch_status = match extract_batch_status(detail.as_str()) {
                Some(s) => s,
                None => String::from_str("unknown"),
            };
            return OtariError::BatchNotComplete {
                batch_id,
                status: batch_status,
                provider: provider_name_string(),
            };
        }
        let head = concat2(
            "This gateway does not support batch operations. Upgrade your gateway. (",
            detail.as_str(),
        );
        return OtariError::provider_error(concat2(head.as_str(), ")").as_str());
    }
    convert_error(status, body, correlation_id, retry_after)
}

/// The moderation endpoint's URL: `include_raw` travels as a query parameter.
pub open spec fn moderation_url_of(api_base: Seq<char>, include_raw: bool) -> Seq<char> {
    if include_raw {
        api_base + "/v1/moderations?include_raw=true"@
    } else {
        api_base + "/v1/moderations"@
    }
}

/// The URL of the moderation endpoint under `api_base`.
pub fn moderation_url(api_base: &str, include_raw: bool) -> (r: String)
    ensures
        r@ == moderation_url_of(api_base@, include_raw),
{
    if include_raw {
        concat2(api_base, "/v1/moderations?include_raw=true")
    } else {
        concat2(api_base, "/v1/moderations")
    }
}

/// Decode a successful response's JSON body; bytes that are not JSON give a
/// serialization error.
pub fn decode_json_body(body: &[u8]) -> (r: Result<JsonValue, OtariError>)
    ensures
        match r {
            Ok(v) => json_parse_bytes(body@) == Some(v@),
            Err(e) => json_parse_bytes(body@) is None && e@ is Serialization,
        },
{
    match parse_json_bytes(body) {
        Ok(v) => Ok(v),
        Err(e) => Err(OtariError::Serialization(e)),
    }
}

/// The response's content type names JSON: it holds `application/json`.
pub open spec fn is_json_content_type(ct: Option<Seq<char>>) -> bool {
    match ct {
        Some(c) => has_substring(c, "application/json"@),
        None => false,
    }
}

/// The result of a transcription, from its response's content type and body:
/// the parsed JSON for JSON formats; for the text formats (`text`, `srt`,
/// `vtt`), the body decoded as UTF-8 (invalid sequences replaced) as a JSON
/// string.
pub fn transcription_result(content_type: Option<&str>, body: &[u8]) -> (r: Result<JsonValue, OtariError>)
    ensures
        is_json_content_type(opt_view(content_type)) ==> match r {
            Ok(v) => json_parse_bytes(body@) == Some(v@),
            Err(e) => json_parse_bytes(body@) is None && e@ is Serialization,
        },
        !is_json_content_type(opt_view(content_type)) ==> (r matches Ok(v) && v@ == JsonView::Str(
            utf8_lossy(body@),
        )),
{
    let is_json = match content_type {
        Some(ct) => str_contains(ct, "application/json"),
        None => false,
    };
    if is_json {
        decode_json_body(body)
    } else {
        Ok(JsonValue::Str(utf8_lossy_text(body)))
    }
}

/// With a platform token (explicit or from the environment), no API key and no
/// explicit mode, the client runs in platform mode; with no base URL configured
/// anywhere it talks to the hosted gateway.
pub proof fn law_platform_token_defaults_to_hosted(config: Config, env: EnvVars, token: Seq<char>)
    requires
        config.api_key is None,
        config.api_base is None,
        explicit_mode(config.extra.settings()) is None,
        first_some(
            explicit_token(config.extra.settings()),
            first_some(opt_string_view(env.otari_ai_token), opt_string_view(env.otari_platform_token)),
        ) == Some(token),
        header_value_ok("Bearer "@ + token),
        env.gateway_api_base is None,
        env.otari_api_base is None,
    ensures
        settings_outcome(config, env) is Ok,
        settings_outcome(config, env)->Ok_0.0 == hosted_api_base(),
        settings_outcome(config, env)->Ok_0.1,
{
    reveal_strlit("https://api.otari.ai");
    assert(hosted_api_base().last() == 'i');
}

/// A configured base URL is used (without its trailing slashes) whatever the
/// mode, wherever authentication succeeds.
pub proof fn law_configured_base_wins(config: Config, env: EnvVars, base: Seq<char>)
    requires
        opt_string_view(config.api_base) == Some(base),
        settings_outcome(config, env) is Ok,
    ensures
        settings_outcome(config, env)->Ok_0.0 == trim_end_char(base, '/'),
{
}

/// Without an explicit platform mode, an API key means non-platform mode, and
/// the key travels in the `Otari-Key` header.
pub proof fn law_api_key_means_gateway_key(config: Config, env: EnvVars, key: Seq<char>)
    requires
        opt_string_view(config.api_key) == Some(key),
        key.len() > 0,
        explicit_mode(config.extra.settings()) != Some(true),
        settings_outcome(config, env) is Ok,
    ensures
        !settings_outcome(config, env)->Ok_0.1,
        settings_outcome(config, env)->Ok_0.2 == Some((HeaderKind::OtariKey, "Bearer "@ + key)),
{
}

/// With no credentials and no base URL anywhere, resolution fails for want of
/// a base URL.
pub proof fn law_no_base_no_token_fails(config: Config, env: EnvVars)
    requires
        config.api_key is None,
        config.api_base is None,
        explicit_mode(config.extra.settings()) != Some(true),
        explicit_token(config.extra.settings()) is None,
        env.otari_ai_token is None,
        env.otari_platform_token is None,
        env.gateway_api_base is None,
        env.otari_api_base is None,
        env.gateway_api_key is None,
        env.otari_api_key is None,
    ensures
        settings_outcome(config, env) is Err,
        settings_outcome(config, env)->Err_0 == (ErrorView::Provider {
            message: api_base_required(),
            provider: provider_name(),
        }),
{
}

/// The text an error carries: its message, or the model for a missing model.
pub open spec fn carried_text(e: ErrorView) -> Seq<char> {
    match e {
        ErrorView::RateLimit { message, .. } => message,
        ErrorView::Authentication { message, .. } => message,
        ErrorView::InvalidRequest { message, .. } => message,
        ErrorView::Provider { message, .. } => message,
        ErrorView::ModelNotFound { model, .. } => model,
        ErrorView::Streaming { message, .. } => message,
        _ => Seq::empty(),
    }
}

/// The note that records a correlation id.
pub open spec fn correlation_note(id: Seq<char>) -> Seq<char> {
    " (correlation_id="@ + id + ")"@
}

/// Whatever the status (but for the moderation-capability 400), the error a
/// failed response maps to names the response's correlation id.
pub proof fn law_correlation_id_noted(
    status: u16,
    body: Seq<char>,
    correlation_id: Seq<char>,
    retry_after: Option<Seq<char>>,
)
    requires
        status != 400,
    ensures
        has_substring(
            carried_text(client_error(status, body, Some(correlation_id), retry_after)),
            correlation_note(correlation_id),
        ),
{
    reveal_strlit(" (");
    reveal_strlit("correlation_id");
    reveal_strlit("=");
    reveal_strlit(")");
    reveal_strlit(" (correlation_id=");
    let fm = failure_message(status, body, error_message_of(body));
    let note = correlation_note(correlation_id);
    let detail = noted_detail(status, body, Some(correlation_id));
    assert(detail =~= fm + note);
    let tail = match retry_after {
        Some(x) => " ("@ + "retry_after"@ + "="@ + x + ")"@,
        None => Seq::empty(),
    };
    let d = with_note(detail, "retry_after"@, retry_after);
    assert(d =~= fm + note + tail);
    let e = client_error(status, body, Some(correlation_id), retry_after);
    let prefix = if status == 401 || status == 403 || status == 404 || status == 429 {
        Seq::<char>::empty()
    } else if status == 402 {
        "Insufficient funds: "@
    } else if status == 502 {
        "Upstream provider error: "@
    } else if status == 504 {
        "Gateway timeout: "@
    } else {
        "HTTP "@ + decimal(status as nat) + ": "@
    };
    assert(carried_text(e) =~= (prefix + fm) + note + tail);
    crate::text::lemma_occurs_in_concat(prefix + fm, note, tail);
}

/// The base URL comes from the configuration where it sets one, else from the
/// environment where it gives one (in either mode), else, in platform mode
/// only, the hosted gateway; with none of these it is an error. Trailing
/// slashes are removed.
pub proof fn law_api_base_precedence(
    configured: Option<Seq<char>>,
    from_env: Option<Seq<char>>,
    platform_mode: bool,
)
    ensures
        configured matches Some(b) ==> api_base_outcome(configured, from_env, platform_mode)
            == Ok::<Seq<char>, ErrorView>(trim_end_char(b, '/')),
        (configured is None && from_env is Some) ==> api_base_outcome(configured, from_env, platform_mode)
            == Ok::<Seq<char>, ErrorView>(trim_end_char(from_env->0, '/')),
        (configured is None && from_env is None && platform_mode) ==> api_base_outcome(
            configured,
            from_env,
            platform_mode,
        ) == Ok::<Seq<char>, ErrorView>("https://api.otari.ai"@),
        (configured is None && from_env is None && !platform_mode) ==> api_base_outcome(
            configured,
            from_env,
            platform_mode,
        ) is Err,
{
    reveal_strlit("https://api.otari.ai");
    assert(hosted_api_base().last() == 'i');
}

/// Whatever the mode, a client with no base URL configured but one in the
/// environment (`GATEWAY_API_BASE`, else `OTARI_API_BASE`) talks to the
/// environment's base URL; the hosted gateway is used only when neither gives
/// one.
pub proof fn law_env_base_wins_over_hosted(config: Config, env: EnvVars)
    requires
        config.api_base is None,
        settings_outcome(config, env) is Ok,
    ensures
        ({
            let env_base = first_some(
                opt_string_view(env.gateway_api_base),
                opt_string_view(env.otari_api_base),
            );
            let out = settings_outcome(config, env)->Ok_0;
            &&& env_base matches Some(b) ==> out.0 == trim_end_char(b, '/')
            &&& env_base is None ==> out.1 && out.0 == "https://api.otari.ai"@
        }),
{
    let env_base = first_some(opt_string_view(env.gateway_api_base), opt_string_view(env.otari_api_base));
    let auth = auth_outcome(
        opt_string_view(config.api_key),
        explicit_token(config.extra.settings()),
        explicit_mode(config.extra.settings()),
        first_some(opt_string_view(env.otari_ai_token), opt_string_view(env.otari_platform_token)),
        first_some(opt_string_view(env.gateway_api_key), opt_string_view(env.otari_api_key)),
    );
    law_api_base_precedence(None, env_base, auth->Ok_0.0);
}

} // verus!
