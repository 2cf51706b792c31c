use otari::client::{
    api_base_from_env, api_key_from_env, platform_token_from_env, resolve_auth, resolve_settings,
    user_agent, EnvVars, HeaderKind,
};
use otari::config::Extras;
use otari::{Config, OtariError, ProviderConfig};

const HOSTED_API_BASE: &str = "https://api.otari.ai";

fn env() -> EnvVars {
    EnvVars::empty()
}

#[test]
fn platform_token_env_defaults_to_hosted_base() {
    let mut e = env();
    e.otari_ai_token = Some("tk_hosted".to_string());
    let gw = resolve_settings(Config::default(), &e).unwrap();
    assert!(gw.platform_mode);
    assert_eq!(gw.api_base, HOSTED_API_BASE);
    assert_eq!(
        format!("{}/v1/chat/completions", gw.api_base),
        "https://api.otari.ai/v1/chat/completions"
    );
    let header = gw.auth_header.unwrap();
    assert_eq!(header.kind, HeaderKind::Authorization);
    assert_eq!(header.value, "Bearer tk_hosted");
}

#[test]
fn non_platform_no_credentials_no_base_errors() {
    let result = resolve_settings(Config::default(), &env());
    assert!(result.is_err());
}

#[test]
fn otari_ai_token_takes_precedence_over_legacy() {
    let mut e = env();
    e.otari_ai_token = Some("tk_canonical".to_string());
    e.otari_platform_token = Some("tk_legacy".to_string());
    assert_eq!(platform_token_from_env(&e).as_deref(), Some("tk_canonical"));
    let gw = resolve_settings(Config::default(), &e).unwrap();
    assert!(gw.platform_mode);
    assert_eq!(gw.api_base, HOSTED_API_BASE);
}

#[test]
fn legacy_platform_token_still_works() {
    let mut e = env();
    e.otari_platform_token = Some("tk_legacy".to_string());
    let gw = resolve_settings(Config::default(), &e).unwrap();
    assert!(gw.platform_mode);
    assert_eq!(gw.api_base, HOSTED_API_BASE);
}

#[test]
fn canonical_gateway_api_base_is_read() {
    let mut e = env();
    e.gateway_api_base = Some("http://canonical:8000".to_string());
    let gw = resolve_settings(Config::default(), &e).unwrap();
    assert!(!gw.platform_mode);
    assert_eq!(gw.api_base, "http://canonical:8000");
}

#[test]
fn canonical_gateway_api_base_takes_precedence_over_legacy() {
    let mut e = env();
    e.gateway_api_base = Some("http://canonical:8000".to_string());
    e.otari_api_base = Some("http://legacy:8000".to_string());
    assert_eq!(api_base_from_env(&e).as_deref(), Some("http://canonical:8000"));
}

#[test]
fn legacy_otari_api_base_still_works() {
    let mut e = env();
    e.otari_api_base = Some("http://legacy:8000".to_string());
    let gw = resolve_settings(Config::default(), &e).unwrap();
    assert_eq!(gw.api_base, "http://legacy:8000");
}

#[test]
fn canonical_gateway_api_key_takes_precedence_over_legacy() {
    let mut e = env();
    e.gateway_api_key = Some("canonical-key".to_string());
    e.otari_api_key = Some("legacy-key".to_string());
    assert_eq!(api_key_from_env(&e).as_deref(), Some("canonical-key"));
}

#[test]
fn legacy_otari_api_key_still_works() {
    let mut e = env();
    e.otari_api_key = Some("legacy-key".to_string());
    let config = Config::empty().with_api_base("http://example.com");
    let gw = resolve_settings(config, &e).unwrap();
    assert!(!gw.platform_mode);
    let header = gw.auth_header.unwrap();
    assert_eq!(header.kind, HeaderKind::OtariKey);
    assert_eq!(header.value, "Bearer legacy-key");
}

#[test]
fn explicit_base_overrides_hosted_default() {
    let mut e = env();
    e.otari_ai_token = Some("tk_hosted".to_string());
    let config = Config::empty().with_api_base("http://explicit:9000");
    let gw = resolve_settings(config, &e).unwrap();
    assert!(gw.platform_mode);
    assert_eq!(gw.api_base, "http://explicit:9000");
}

#[test]
fn config_extra_platform_token_defaults_to_hosted_base() {
    let config = Config::empty().with_extra("platform_token", "tk_extra");
    let gw = resolve_settings(config, &env()).unwrap();
    assert!(gw.platform_mode);
    assert_eq!(gw.api_base, HOSTED_API_BASE);
}

#[test]
fn gateway_requires_api_base() {
    assert!(resolve_settings(Config::default(), &env()).is_err());
}

#[test]
fn gateway_platform_mode_explicit() {
    let config = Config::empty()
        .with_api_base("http://example.com")
        .with_extra("platform_mode", "true")
        .with_extra("platform_token", "tk_abc");
    let gw = resolve_settings(config, &env()).unwrap();
    assert!(gw.platform_mode);
}

#[test]
fn gateway_platform_mode_requires_token() {
    let config = Config::empty()
        .with_api_base("http://example.com")
        .with_extra("platform_mode", "true");
    match resolve_settings(config, &env()) {
        Err(OtariError::MissingApiKey { provider, env_var }) => {
            assert_eq!(provider, "otari");
            assert_eq!(env_var, "OTARI_AI_TOKEN");
        },
        _ => panic!("expected a missing API key"),
    }
}

#[test]
fn gateway_non_platform_mode_with_api_key() {
    let config = Config::new("my-key").with_api_base("http://example.com");
    let gw = resolve_settings(config, &env()).unwrap();
    assert!(!gw.platform_mode);
}

#[test]
fn gateway_non_platform_mode_no_key_is_ok() {
    let config = Config::empty()
        .with_api_base("http://example.com")
        .with_extra("platform_mode", "false");
    let gw = resolve_settings(config, &env()).unwrap();
    assert!(!gw.platform_mode);
    assert!(gw.auth_header.is_none());
}

#[test]
fn gateway_strips_trailing_slash_from_api_base() {
    let config = Config::empty()
        .with_api_base("http://example.com//")
        .with_extra("platform_mode", "false");
    let gw = resolve_settings(config, &env()).unwrap();
    assert_eq!(gw.api_base, "http://example.com");
}

#[test]
fn explicit_platform_mode_uses_api_key_as_token() {
    let auth = resolve_auth(Some("key".to_string()), None, Some(true), Some("envtok".to_string()), None).unwrap();
    assert!(auth.platform_mode);
    assert_eq!(auth.header.unwrap().value, "Bearer key");
}

#[test]
fn invalid_header_values_are_refused() {
    match resolve_auth(Some("bad\nkey".to_string()), None, None, None, None) {
        Err(OtariError::Provider { message, .. }) => {
            assert_eq!(message, "Invalid API key: failed to parse header value")
        },
        _ => panic!("expected a provider error"),
    }
    match resolve_auth(None, Some("tok\u{7f}".to_string()), None, None, None) {
        Err(OtariError::Provider { message, .. }) => {
            assert_eq!(message, "Invalid platform token: failed to parse header value")
        },
        _ => panic!("expected a provider error"),
    }
}

#[test]
fn extra_settings_read_after_write() {
    let config = Config::new("k").with_extra("a", "1").with_extra("b", "2").with_extra("a", "3");
    assert_eq!(config.extra.get("a").map(|s| s.as_str()), Some("3"));
    assert_eq!(config.extra.get("b").map(|s| s.as_str()), Some("2"));
    assert_eq!(config.extra.get("c"), None);
    assert_eq!(config.extra.len(), 2);
    let copy = config.extra.clone();
    assert_eq!(copy.get("a").map(|s| s.as_str()), Some("3"));
    let mut e = Extras::new();
    e.insert("x".to_string(), "y".to_string());
    assert_eq!(e.len(), 1);
}

#[test]
fn provider_config_builders() {
    let c = ProviderConfig::new("test-api-key").with_api_base("https://custom.anthropic.com");
    assert_eq!(c.api_key, Some("test-api-key".to_string()));
    assert_eq!(c.api_base, Some("https://custom.anthropic.com".to_string()));
    let c = c.with_extra("k", "v");
    assert_eq!(c.extra.get("k").map(|s| s.as_str()), Some("v"));
}

#[test]
fn user_agent_names_the_library() {
    assert!(user_agent().starts_with("otari-rust/"));
}

#[test]
fn with_extra_counts_new_keys_once() {
    let c = Config::empty().with_extra("a", "1");
    assert_eq!(c.extra.len(), 1);
    let c = c.with_extra("b", "2");
    assert_eq!(c.extra.len(), 2);
    let c = c.with_extra("a", "3");
    assert_eq!(c.extra.len(), 2);
    assert_eq!(c.extra.get("a").map(|s| s.as_str()), Some("3"));
    let p = otari::ProviderConfig::empty().with_extra("k", "v").with_extra("k", "w");
    assert_eq!(p.extra.len(), 1);
}
