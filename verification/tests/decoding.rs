use otari::client::{decode_json_body, transcription_result};
use otari::json::JsonValue;
use otari::{ImageGenerationParams, OtariError};

#[test]
fn transcription_json_format_is_parsed() {
    let body = br#"{"text": "hello there"}"#;
    let v = transcription_result(Some("application/json"), body).unwrap();
    assert_eq!(v.get_str("text").map(|s| s.as_str()), Some("hello there"));
}

#[test]
fn transcription_json_with_charset_is_parsed() {
    let body = br#"{"text": "hi"}"#;
    let v = transcription_result(Some("application/json; charset=utf-8"), body).unwrap();
    assert_eq!(v.get_str("text").map(|s| s.as_str()), Some("hi"));
}

#[test]
fn transcription_text_format_is_a_string() {
    let v = transcription_result(Some("text/plain; charset=utf-8"), b"just the words").unwrap();
    assert!(matches!(v, JsonValue::Str(ref s) if s == "just the words"));
}

#[test]
fn transcription_without_content_type_is_a_string() {
    let v = transcription_result(None, b"{\"text\": \"x\"}").unwrap();
    assert!(matches!(v, JsonValue::Str(ref s) if s == "{\"text\": \"x\"}"));
}

#[test]
fn transcription_invalid_utf8_is_replaced() {
    let v = transcription_result(Some("text/vtt"), &[0x61, 0xff, 0x62]).unwrap();
    assert!(matches!(v, JsonValue::Str(ref s) if s == "a\u{fffd}b"));
}

#[test]
fn transcription_bad_json_is_a_serialization_error() {
    let r = transcription_result(Some("application/json"), b"not json");
    assert!(matches!(r, Err(OtariError::Serialization(_))));
}

#[test]
fn json_body_decodes_or_fails() {
    let v = decode_json_body(br#"{"data": [1, 2]}"#).unwrap();
    match v.get("data") {
        Some(JsonValue::Array(items)) => assert_eq!(items.len(), 2),
        other => panic!("unexpected {:?}", other),
    }
    assert!(matches!(decode_json_body(b"{"), Err(OtariError::Serialization(_))));
}

#[test]
fn image_body_holds_set_fields_in_order() {
    let params = ImageGenerationParams::new("openai:dall-e-3", "a red bicycle")
        .with_n(-2)
        .with_size("1024x1024");
    match params.body() {
        JsonValue::Object(fields) => {
            let keys: Vec<&str> = fields.iter().map(|(k, _)| k.as_str()).collect();
            assert_eq!(keys, vec!["model", "prompt", "n", "size"]);
            assert!(matches!(&fields[0].1, JsonValue::Str(s) if s == "openai:dall-e-3"));
            assert!(matches!(&fields[2].1, JsonValue::Number(n) if n == "-2"));
            assert!(matches!(&fields[3].1, JsonValue::Str(s) if s == "1024x1024"));
        }
        other => panic!("unexpected {:?}", other),
    }
}

#[test]
fn image_body_minimal() {
    let params = ImageGenerationParams::new("m", "p").with_n(3);
    match params.body() {
        JsonValue::Object(fields) => {
            assert_eq!(fields.len(), 3);
            assert!(matches!(&fields[2].1, JsonValue::Number(n) if n == "3"));
        }
        other => panic!("unexpected {:?}", other),
    }
}

#[test]
fn image_body_count_extremes() {
    for (n, text) in [(i32::MIN, "-2147483648"), (i32::MAX, "2147483647"), (0, "0"), (10, "10")] {
        match ImageGenerationParams::new("m", "p").with_n(n).body() {
            JsonValue::Object(fields) => {
                assert!(matches!(&fields[2].1, JsonValue::Number(t) if t == text));
            }
            other => panic!("unexpected {:?}", other),
        }
    }
}
