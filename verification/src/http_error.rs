//! The shared mapping from a gateway HTTP failure (status, body and the
//! optional correlation-id / retry-after headers) to a typed [`OtariError`].

use vstd::prelude::*;

use crate::error::{ErrorView, OtariError, provider_name, provider_name_string};
use crate::json::{get_member, json_parse, json_text, parse_json, render_json, str_member, str_of};
use crate::text::{
    chars_of, concat2, concat3, decimal, find, find_char, first_char, first_match, has_substring,
    is_alphanumeric, starts_with, str_contains, str_starts_with, substring, u64_to_decimal,
    unicode_alphanumeric, opt_view, opt_string_view,
};

verus! {

/// The phrasing the gateway uses when the selected provider does not support a
/// moderation request.
pub open spec fn unsupported_marker() -> Seq<char> {
    "does not support"@
}

/// The provider name in `"Provider <name> does not support ..."`.
pub open spec fn unsupported_provider_of(detail: Seq<char>) -> Option<Seq<char>> {
    let prefix = "Provider "@;
    if starts_with(detail, prefix) {
        let after = detail.subrange(prefix.len() as int, detail.len() as int);
        let before = match first_match(after, " does not"@) {
            Some(k) => after.subrange(0, k),
            None => after,
        };
        if before.len() == 0 {
            None
        } else {
            Some(before)
        }
    } else {
        None
    }
}

/// The quoted id in `"Batch '<id>' ..."` (either case of the leading `B`).
pub open spec fn batch_id_of(detail: Seq<char>) -> Option<Seq<char>> {
    let marker = "atch '"@;
    match first_match(detail, marker) {
        Some(start) => {
            let rest = detail.subrange(start + marker.len(), detail.len() as int);
            match first_char(rest, '\'') {
                Some(end) => if end == 0 {
                    None
                } else {
                    Some(rest.subrange(0, end))
                },
                None => None,
            }
        },
        None => None,
    }
}

/// A character that may stand in a status word.
pub open spec fn is_word_char(c: char) -> bool {
    unicode_alphanumeric(c) || c == '_'
}

/// The length of the run of word characters at the start of `s`.
pub open spec fn word_len(s: Seq<char>) -> nat
    decreases s.len(),
{
    if s.len() == 0 {
        0
    } else if is_word_char(s[0]) {
        1 + word_len(s.subrange(1, s.len() as int))
    } else {
        0
    }
}

/// The word in `"... (status: <word>) ..."`.
pub open spec fn batch_status_of(detail: Seq<char>) -> Option<Seq<char>> {
    let marker = "status: "@;
    match first_match(detail, marker) {
        Some(start) => {
            let rest = detail.subrange(start + marker.len(), detail.len() as int);
            let n = word_len(rest);
            if n == 0 {
                None
            } else {
                Some(rest.subrange(0, n as int))
            }
        },
        None => None,
    }
}

/// The gateway's human-readable detail in an error body: `{"detail": ...}`
/// (a string as is, any other value as its JSON text), else
/// `{"error": {"message": "..."}}`, else `{"error": "..."}`, else `{"message": "..."}`.
pub open spec fn detail_of(body: Seq<char>) -> Option<Seq<char>> {
    match json_parse(body) {
        None => None,
        Some(v) => match get_member(v, "detail"@) {
            Some(d) => match str_of(d) {
                Some(s) => Some(s),
                None => Some(json_text(d)),
            },
            None => {
                let from_error = match get_member(v, "error"@) {
                    Some(e) => match str_member(e, "message"@) {
                        Some(m) => Some(m),
                        None => str_of(e),
                    },
                    None => None,
                };
                match from_error {
                    Some(m) => Some(m),
                    None => str_member(v, "message"@),
                }
            },
        },
    }
}

/// The message of a failed response: the body's detail, else the body itself,
/// else `HTTP <status>` for an empty body.
pub open spec fn failure_message(status: u16, body: Seq<char>, detail: Option<Seq<char>>) -> Seq<
    char,
> {
    match detail {
        Some(d) => d,
        None => if body.len() == 0 {
            "HTTP "@ + decimal(status as nat)
        } else {
            body
        },
    }
}

/// `text` followed by ` (<label>=<value>)` when a value is present.
pub open spec fn with_note(text: Seq<char>, label: Seq<char>, value: Option<Seq<char>>) -> Seq<
    char,
> {
    match value {
        Some(x) => text + " ("@ + label + "="@ + x + ")"@,
        None => text,
    }
}

/// The error that a failed gateway response maps to.
///
/// 401/403 authentication, 402 insufficient funds, 404 model not found, 409 batch
/// not complete, 429 rate limit, 504 gateway timeout, other 5xx upstream provider
/// error, the moderation-capability 400 unsupported, anything else a provider
/// error carrying the status.
pub open spec fn response_error(
    status: u16,
    body: Seq<char>,
    correlation_id: Option<Seq<char>>,
    retry_after: Option<Seq<char>>,
) -> ErrorView {
    let detail = with_note(
        failure_message(status, body, detail_of(body)),
        "correlation_id"@,
        correlation_id,
    );
    if status == 400 && has_substring(detail, unsupported_marker()) && has_substring(
        detail,
        "moderation"@,
    ) {
        ErrorView::Unsupported {
            provider: match unsupported_provider_of(detail) {
                Some(p) => p,
                None => "unknown"@,
            },
            operation: if has_substring(detail, "multimodal"@) {
                "multimodal_moderation"@
            } else {
                "moderation"@
            },
        }
    } else {
        let d = with_note(detail, "retry_after"@, retry_after);
        if status == 401 || status == 403 {
            ErrorView::Authentication { message: d, provider: provider_name() }
        } else if status == 402 {
            ErrorView::Provider { message: "Insufficient funds: "@ + d, provider: provider_name() }
        } else if status == 404 {
            ErrorView::ModelNotFound { model: d, provider: provider_name() }
        } else if status == 409 {
            ErrorView::BatchNotComplete {
                batch_id: match batch_id_of(d) {
                    Some(id) => id,
                    None => Seq::empty(),
                },
                status: match batch_status_of(d) {
                    Some(s) => s,
                    None => "unknown"@,
                },
                provider: provider_name(),
            }
        } else if status == 429 {
            ErrorView::RateLimit { message: d, provider: provider_name() }
        } else if status == 504 {
            ErrorView::Provider { message: "Gateway timeout: "@ + d, provider: provider_name() }
        } else if 500 <= status <= 599 {
            ErrorView::Provider {
                message: "Upstream provider error: "@ + d,
                provider: provider_name(),
            }
        } else {
            ErrorView::Provider {
                message: "HTTP "@ + decimal(status as nat) + ": "@ + d,
                provider: provider_name(),
            }
        }
    }
}

/// Parse `"Provider <name> does not support ..."` into `<name>`.
pub fn parse_unsupported_provider(detail: &str) -> (r: Option<String>)
    ensures
        r matches Some(p) ==> unsupported_provider_of(detail@) == Some(p@),
        r is None ==> unsupported_provider_of(detail@) is None,
{
    let prefix = "Provider ";
    if !str_starts_with(detail, prefix) {
        return None;
    }
    proof {
        reveal_strlit("Provider ");
    }
    let n = detail.unicode_len();
    let after = substring(detail, 9, n);
    let av = chars_of(after.as_str());
    let pv = chars_of(" does not");
    let end = match find(&av, &pv) {
        Some(k) => k,
        None => av.len(),
    };
    if end == 0 {
        None
    } else {
        Some(substring(after.as_str(), 0, end))
    }
}

/// Extract `<id>` from `"Batch '<id>' ..."` (either case of the leading `B`).
pub fn extract_batch_id(detail: &str) -> (r: Option<String>)
    ensures
        r matches Some(id) ==> batch_id_of(detail@) == Some(id@),
        r is None ==> batch_id_of(detail@) is None,
{
    let dv = chars_of(detail);
    proof {
        reveal_strlit("atch '");
    }
    let mv = chars_of("atch '");
    assert(mv@.len() == 6);
    match find(&dv, &mv) {
        None => None,
        Some(start) => {
            let dlen = dv.len();
            let rest = substring(detail, start + 6, dlen);
            let rv = chars_of(rest.as_str());
            match find_char(&rv, '\'') {
                None => None,
                Some(end) => if end == 0 {
                    None
                } else {
                    Some(substring(rest.as_str(), 0, end))
                },
            }
        },
    }
}

/// Extract `<status>` from `"... (status: <status>) ..."`.
pub fn extract_batch_status(detail: &str) -> (r: Option<String>)
    ensures
        r matches Some(s) ==> batch_status_of(detail@) == Some(s@),
        r is None ==> batch_status_of(detail@) is None,
{
    let dv = chars_of(detail);
    proof {
        reveal_strlit("status: ");
    }
    let mv = chars_of("status: ");
    assert(mv@.len() == 8);
    match find(&dv, &mv) {
        None => None,
        Some(start) => {
            let dlen = dv.len();
            let rest = substring(detail, start + 8, dlen);
            let rv = chars_of(rest.as_str());
            let mut n: usize = 0;
            assert(rest@.subrange(0, rest@.len() as int) =~= rest@);
            while n < rv.len() && (is_alphanumeric(rv[n]) || rv[n] == '_')
                invariant
                    n <= rv.len(),
                    rv@ == rest@,
                    word_len(rest@) == n + word_len(rest@.subrange(n as int, rest@.len() as int)),
                decreases rv.len() - n,
            {
                let ghost tail = rest@.subrange(n as int, rest@.len() as int);
                assert(tail.subrange(1, tail.len() as int) =~= rest@.subrange(
                    n + 1,
                    rest@.len() as int,
                ));
                n = n + 1;
            }
            if n == 0 {
                None
            } else {
                Some(substring(rest.as_str(), 0, n))
            }
        },
    }
}

/// Pull the gateway's human-readable detail from an error body.
pub fn extract_detail(body: &str) -> (r: Option<String>)
    ensures
        r matches Some(d) ==> detail_of(body@) == Some(d@),
        r is None ==> detail_of(body@) is None,
{
    let v = match parse_json(body) {
        Some(v) => v,
        None => return None,
    };
    if let Some(d) = v.get("detail") {
        if let Some(s) = d.as_str() {
            return Some(s.clone());
        }
        return Some(render_json(d));
    }
    if let Some(e) = v.get("error") {
        if let Some(m) = e.get_str("message") {
            return Some(m.clone());
        }
        if let Some(s) = e.as_str() {
            return Some(s.clone());
        }
    }
    match v.get_str("message") {
        Some(m) => Some(m.clone()),
        None => None,
    }
}

/// `text` followed by ` (<label>=<value>)` when a value is present.
pub fn append_note(text: String, label: &str, value: Option<&str>) -> (r: String)
    ensures
        r@ == with_note(text@, label@, opt_view(value)),
{
    match value {
        Some(x) => {
            let mut r = text;
            r.append(" (");
            r.append(label);
            r.append("=");
            r.append(x);
            r.append(")");
            r
        },
        None => text,
    }
}

/// The message of a failed response: the body's detail, else the body, else
/// `HTTP <status>` for an empty body.
pub fn failure_message_of(status: u16, body: &str, detail: Option<String>) -> (r: String)
    ensures
        r@ == failure_message(status, body@, opt_string_view(detail)),
{
    match detail {
        Some(d) => d,
        None => if body.is_empty() {
            concat2("HTTP ", u64_to_decimal(status as u64).as_str())
        } else {
            String::from_str(body)
        },
    }
}

/// Map a status, a raw body and the optional correlation-id / retry-after
/// headers to a typed error.
pub fn map_response(
    status: u16,
    body: &str,
    correlation_id: Option<&str>,
    retry_after: Option<&str>,
) -> (r: OtariError)
    ensures
        r@ == response_error(status, body@, opt_view(correlation_id), opt_view(retry_after)),
{
    let message = failure_message_of(status, body, extract_detail(body));
    let detail = append_note(message, "correlation_id", correlation_id);
    if status == 400 && str_contains(detail.as_str(), "does not support") && str_contains(
        detail.as_str(),
        "moderation",
    ) {
        let provider = match parse_unsupported_provider(detail.as_str()) {
            Some(p) => p,
            None => String::from_str("unknown"),
        };
        let operation = if str_contains(detail.as_str(), "multimodal") {
            "multimodal_moderation"
        } else {
            "moderation"
        };
        return OtariError::unsupported_dynamic(provider.as_str(), operation);
    }
    let d = append_note(detail, "retry_after", retry_after);
    if status == 401 || status == 403 {
        OtariError::authentication(d.as_str())
    } else if status == 402 {
        OtariError::provider_error(concat2("Insufficient funds: ", d.as_str()).as_str())
    } else if status == 404 {
        OtariError::model_not_found(d.as_str())
    } else if status == 409 {
        let batch_id = match extract_batch_id(d.as_str()) {
            Some(id) => id,
            None => String::new(),
        };
        let batch_status = match extract_batch_status(d.as_str()) {
            Some(s) => s,
            None => String::from_str("unknown"),
        };
        OtariError::BatchNotComplete {
            batch_id,
            status: batch_status,
            provider: provider_name_string(),
        }
    } else if status == 429 {
        OtariError::rate_limit(d.as_str())
    } else if status == 504 {
        OtariError::provider_error(concat2("Gateway timeout: ", d.as_str()).as_str())
    } else if 500 <= status && status <= 599 {
        OtariError::provider_error(concat2("Upstream provider error: ", d.as_str()).as_str())
    } else {
        let head = concat3("HTTP ", u64_to_decimal(status as u64).as_str(), ": ");
        OtariError::provider_error(concat2(head.as_str(), d.as_str()).as_str())
    }
}

/// Whether `p` begins `s`.
pub open spec fn begins_with(s: Seq<char>, p: Seq<char>) -> bool {
    s.len() >= p.len() && s.take(p.len() as int) == p
}

/// Outside the moderation-capability 400, a failed response's status decides
/// the kind of error: 401 and 403 authentication, 402 insufficient funds, 404
/// model not found, 409 batch not complete, 429 rate limit, 504 gateway
/// timeout, any other 5xx an upstream provider error, and any other status a
/// provider error that names it; every one of them is the gateway's.
pub proof fn law_status_decides_kind(
    status: u16,
    body: Seq<char>,
    correlation_id: Option<Seq<char>>,
    retry_after: Option<Seq<char>>,
)
    requires
        status != 400,
    ensures
        ({
            let e = response_error(status, body, correlation_id, retry_after);
            &&& (status == 401 || status == 403) ==> (e matches ErrorView::Authentication {
                provider,
                ..
            } && provider == "otari"@)
            &&& status == 402 ==> (e matches ErrorView::Provider { message, provider }
                && provider == "otari"@ && begins_with(message, "Insufficient funds: "@))
            &&& status == 404 ==> (e matches ErrorView::ModelNotFound { provider, .. } && provider
                == "otari"@)
            &&& status == 409 ==> (e matches ErrorView::BatchNotComplete { provider, .. } && provider
                == "otari"@)
            &&& status == 429 ==> (e matches ErrorView::RateLimit { provider, .. } && provider
                == "otari"@)
            &&& status == 504 ==> (e matches ErrorView::Provider { message, provider }
                && provider == "otari"@ && begins_with(message, "Gateway timeout: "@))
            &&& (500 <= status <= 599 && status != 504) ==> (e matches ErrorView::Provider {
                message,
                provider,
            } && provider == "otari"@ && begins_with(message, "Upstream provider error: "@))
            &&& !(status == 401 || status == 402 || status == 403 || status == 404 || status == 409
                || status == 429 || 500 <= status <= 599) ==> (e matches ErrorView::Provider {
                message,
                provider,
            } && provider == "otari"@ && begins_with(message, "HTTP "@ + decimal(status as nat)))
        }),
{
    reveal_strlit("otari");
    assert(provider_name() =~= "otari"@);
    let detail = with_note(
        failure_message(status, body, detail_of(body)),
        "correlation_id"@,
        correlation_id,
    );
    let d = with_note(detail, "retry_after"@, retry_after);
    let p1 = "Insufficient funds: "@;
    assert((p1 + d).take(p1.len() as int) =~= p1);
    let p2 = "Gateway timeout: "@;
    assert((p2 + d).take(p2.len() as int) =~= p2);
    let p3 = "Upstream provider error: "@;
    assert((p3 + d).take(p3.len() as int) =~= p3);
    let p4 = "HTTP "@ + decimal(status as nat);
    assert((p4 + ": "@ + d).take(p4.len() as int) =~= p4);
}

} // verus!
