use otari::client::{convert_batch_error, convert_error, extract_error_message, moderation_url};
use otari::http_error::{
    extract_batch_id, extract_batch_status, extract_detail, map_response,
    parse_unsupported_provider,
};
use otari::OtariError;

#[test]
fn maps_status_codes() {
    assert!(matches!(
        map_response(401, r#"{"detail":"nope"}"#, None, None),
        OtariError::Authentication { .. }
    ));
    assert!(matches!(
        map_response(403, r#"{"detail":"nope"}"#, None, None),
        OtariError::Authentication { .. }
    ));
    assert!(matches!(
        map_response(404, r#"{"detail":"gone"}"#, None, None),
        OtariError::ModelNotFound { .. }
    ));
    assert!(matches!(
        map_response(429, r#"{"detail":"slow"}"#, None, None),
        OtariError::RateLimit { .. }
    ));
    assert!(matches!(
        map_response(
            409,
            r#"{"detail":"Batch 'b1' is not yet complete (status: in_progress)."}"#,
            None,
            None
        ),
        OtariError::BatchNotComplete { .. }
    ));
    assert!(matches!(map_response(502, "{}", None, None), OtariError::Provider { .. }));
    assert!(matches!(map_response(504, "{}", None, None), OtariError::Provider { .. }));
    assert!(matches!(map_response(418, "{}", None, None), OtariError::Provider { .. }));
}

#[test]
fn unsupported_moderation_in_any_mode() {
    let err = map_response(
        400,
        r#"{"detail":"Provider anthropic does not support moderation"}"#,
        None,
        None,
    );
    match err {
        OtariError::Unsupported { provider, operation } => {
            assert_eq!(provider, "anthropic");
            assert_eq!(operation, "moderation");
        },
        other => panic!("expected Unsupported, got {other:?}"),
    }
}

#[test]
fn batch_not_complete_extracts_fields() {
    let err = map_response(
        409,
        r#"{"detail":"Batch 'batch_abc' is not yet complete (status: validating)."}"#,
        None,
        None,
    );
    match err {
        OtariError::BatchNotComplete { batch_id, status, .. } => {
            assert_eq!(batch_id, "batch_abc");
            assert_eq!(status, "validating");
        },
        other => panic!("expected BatchNotComplete, got {other:?}"),
    }
}

#[test]
fn correlation_id_in_message() {
    let err = map_response(402, r#"{"detail":"no funds"}"#, Some("abc-123"), None);
    assert!(err.to_string().contains("abc-123"));
}

#[test]
fn map_response_messages_are_exact() {
    match map_response(402, r#"{"detail":"no funds"}"#, Some("abc-123"), Some("5")) {
        OtariError::Provider { message, provider } => {
            assert_eq!(message, "Insufficient funds: no funds (correlation_id=abc-123) (retry_after=5)");
            assert_eq!(provider, "otari");
        },
        other => panic!("unexpected {other:?}"),
    }
    match map_response(503, "", None, None) {
        OtariError::Provider { message, .. } => {
            assert_eq!(message, "Upstream provider error: HTTP 503")
        },
        other => panic!("unexpected {other:?}"),
    }
    match map_response(418, "plain text", None, None) {
        OtariError::Provider { message, .. } => assert_eq!(message, "HTTP 418: plain text"),
        other => panic!("unexpected {other:?}"),
    }
    match map_response(504, r#"{"error":{"message":"late"}}"#, None, None) {
        OtariError::Provider { message, .. } => assert_eq!(message, "Gateway timeout: late"),
        other => panic!("unexpected {other:?}"),
    }
}

#[test]
fn detail_extraction_shapes() {
    assert_eq!(extract_detail(r#"{"detail":"d"}"#), Some("d".to_string()));
    assert_eq!(extract_detail(r#"{"detail":{"x":1}}"#), Some(r#"{"x":1}"#.to_string()));
    assert_eq!(extract_detail(r#"{"error":{"message":"m"}}"#), Some("m".to_string()));
    assert_eq!(extract_detail(r#"{"error":"e"}"#), Some("e".to_string()));
    assert_eq!(extract_detail(r#"{"message":"top"}"#), Some("top".to_string()));
    assert_eq!(extract_detail("not json"), None);
    assert_eq!(extract_detail(r#"{"other":1}"#), None);
}

#[test]
fn extractors_parse_gateway_phrasing() {
    assert_eq!(
        parse_unsupported_provider("Provider mistral does not support multimodal moderation input"),
        Some("mistral".to_string())
    );
    assert_eq!(parse_unsupported_provider("provider x does not"), None);
    assert_eq!(parse_unsupported_provider("Provider  does not support"), None);
    assert_eq!(extract_batch_id("batch 'b-9' pending"), Some("b-9".to_string()));
    assert_eq!(extract_batch_id("Batch '' x"), None);
    assert_eq!(extract_batch_id("no marker"), None);
    assert_eq!(
        extract_batch_status("x (status: in_progress). y"),
        Some("in_progress".to_string())
    );
    assert_eq!(extract_batch_status("status: )"), None);
}

#[test]
fn client_error_table() {
    assert!(matches!(convert_error(401, r#"{"detail":"x"}"#, None, None), OtariError::Authentication { .. }));
    match convert_error(502, r#"{"error":"bad gateway"}"#, None, None) {
        OtariError::Provider { message, .. } => {
            assert_eq!(message, "Upstream provider error: bad gateway")
        },
        other => panic!("unexpected {other:?}"),
    }
    // Unlike the shared table, the client maps other 5xx codes to "HTTP <status>".
    match convert_error(500, "", None, None) {
        OtariError::Provider { message, .. } => assert_eq!(message, "HTTP 500: HTTP 500"),
        other => panic!("unexpected {other:?}"),
    }
    match convert_error(429, r#"{"detail":"slow down"}"#, Some("c1"), Some("5")) {
        OtariError::RateLimit { message, .. } => {
            assert_eq!(message, "slow down (correlation_id=c1) (retry_after=5)");
        },
        other => panic!("unexpected {other:?}"),
    }
    match convert_error(400, r#"{"detail":"This model does not support moderation"}"#, None, None) {
        OtariError::Unsupported { provider, operation } => {
            assert_eq!(provider, "unknown");
            assert_eq!(operation, "moderation");
        },
        other => panic!("unexpected {other:?}"),
    }
    match convert_error(400, r#"{"detail":"Provider mistral does not support multimodal moderation input"}"#, None, None) {
        OtariError::Unsupported { provider, operation } => {
            assert_eq!(provider, "mistral");
            assert_eq!(operation, "multimodal_moderation");
        },
        other => panic!("unexpected {other:?}"),
    }
}

#[test]
fn client_error_message_shapes() {
    assert_eq!(extract_error_message(r#"{"error":{"message":"m"}}"#), Some("m".to_string()));
    assert_eq!(extract_error_message(r#"{"error":"e"}"#), Some("e".to_string()));
    assert_eq!(extract_error_message(r#"{"detail":"d"}"#), Some("d".to_string()));
    assert_eq!(extract_error_message(r#"{"message":"top"}"#), None);
    assert_eq!(extract_error_message("nope"), None);
}

#[test]
fn batch_errors() {
    match convert_batch_error(
        409,
        r#"{"detail":"Batch 'batch_1' is not yet complete (status: in_progress)."}"#,
        None,
        None,
        "/v1/batches/batch_1/results",
    ) {
        OtariError::BatchNotComplete { batch_id, status, provider } => {
            assert_eq!(batch_id, "batch_1");
            assert_eq!(status, "in_progress");
            assert_eq!(provider, "otari");
        },
        other => panic!("unexpected {other:?}"),
    }
    match convert_batch_error(409, "conflict", None, None, "/v1/batches") {
        OtariError::BatchNotComplete { batch_id, status, .. } => {
            assert_eq!(batch_id, "");
            assert_eq!(status, "unknown");
        },
        other => panic!("unexpected {other:?}"),
    }
    match convert_batch_error(404, "", Some("cid"), None, "/v1/batches/x") {
        OtariError::Provider { message, .. } => assert_eq!(
            message,
            "This gateway does not support batch operations. Upgrade your gateway. (HTTP 404 (correlation_id=cid))"
        ),
        other => panic!("unexpected {other:?}"),
    }
    assert!(matches!(
        convert_batch_error(404, r#"{"detail":"no model"}"#, None, None, "/v1/chat/completions"),
        OtariError::ModelNotFound { .. }
    ));
}

#[test]
fn moderation_url_query() {
    assert_eq!(moderation_url("http://h", true), "http://h/v1/moderations?include_raw=true");
    assert_eq!(moderation_url("http://h", false), "http://h/v1/moderations");
}

#[test]
fn error_texts() {
    let e = OtariError::rate_limit("Too many requests");
    assert_eq!(e.to_string(), "Rate limit exceeded for otari: Too many requests");
    let e = OtariError::model_not_found("gpt-5");
    assert!(e.to_string().contains("not found"));
    assert!(e.to_string().contains("gpt-5"));
    let e = OtariError::unsupported_parameter("response_format", "Use tools");
    assert_eq!(e.to_string(), "Parameter 'response_format' is not supported by otari. Use tools");
    let e = OtariError::MissingApiKey { provider: "otari".into(), env_var: "OTARI_AI_TOKEN".into() };
    assert_eq!(
        e.to_string(),
        "Missing API key for otari. Set the OTARI_AI_TOKEN environment variable or pass api_key in config."
    );
}
