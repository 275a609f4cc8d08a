//! Tests for the SDK configuration, its builder, and the environment
//! override rules.

use serper_sdk::{SdkConfig, SdkConfigBuilder};
use serper_sdk::config::{is_true_text, parse_u64};
use serper_sdk::utils::collections::assoc_get;

#[test]
fn test_config_creation() {
    let config = SdkConfig::new("test-key".to_string());
    assert_eq!(config.api_key, "test-key");
    assert_eq!(config.base_url, "https://google.serper.dev");
    assert_eq!(config.timeout_secs, 30);
    assert!(config.validate().is_ok());
}

#[test]
fn test_config_builder() {
    let config = SdkConfigBuilder::new()
        .api_key("test-key")
        .base_url("https://custom.api.com")
        .timeout(60)
        .max_concurrent(10)
        .header("Custom", "Value")
        .user_agent("custom-agent")
        .enable_logging()
        .build()
        .unwrap();

    assert_eq!(config.api_key, "test-key");
    assert_eq!(config.base_url, "https://custom.api.com");
    assert_eq!(config.timeout_secs, 60);
    assert_eq!(config.max_concurrent_requests, 10);
    assert_eq!(config.user_agent, "custom-agent");
    assert!(config.enable_logging);
    assert_eq!(assoc_get(&config.default_headers, "Custom"), Some(&"Value".to_string()));
}

#[test]
fn test_config_validation() {
    let config = SdkConfig::new("valid-key".to_string());
    assert!(config.validate().is_ok());

    let config = SdkConfig::new("".to_string());
    assert!(config.validate().is_err());

    let config = SdkConfig::new("key".to_string()).with_base_url("invalid-url".to_string());
    assert!(config.validate().is_err());

    let config = SdkConfig::new("key".to_string()).with_timeout(0);
    assert!(config.validate().is_err());
}

#[test]
fn test_config_validation_zero_concurrency() {
    let config = SdkConfig::new("key".to_string()).with_max_concurrent(0);
    assert!(config.validate().is_err());
}

#[test]
fn mod_test_builder_missing_api_key() {
    let builder = SdkConfigBuilder::new();
    let result = builder.build();
    assert!(result.is_err());
}

#[test]
fn test_fluent_configuration() {
    let config = SdkConfig::new("key".to_string())
        .with_base_url("https://test.com".to_string())
        .with_timeout(45)
        .with_max_concurrent(8)
        .with_header("X-Test".to_string(), "value".to_string())
        .with_user_agent("test-agent".to_string())
        .with_logging(true);

    assert_eq!(config.base_url, "https://test.com");
    assert_eq!(config.timeout_secs, 45);
    assert_eq!(config.max_concurrent_requests, 8);
    assert_eq!(config.user_agent, "test-agent");
    assert!(config.enable_logging);
}

#[test]
fn test_config_module_functionality() {
    let config = SdkConfig::new("test-api-key".to_string());
    assert!(config.validate().is_ok());

    let invalid_config = SdkConfig::new("".to_string());
    assert!(invalid_config.validate().is_err());
}

#[test]
fn test_from_env_values_requires_key() {
    let result = SdkConfig::from_env_values(None, None, None, None, None, None);
    assert!(result.is_err());
}

#[test]
fn test_from_env_values_defaults() {
    let config =
        SdkConfig::from_env_values(Some("env-key".to_string()), None, None, None, None, None)
            .unwrap();
    assert_eq!(config.api_key, "env-key");
    assert_eq!(config.base_url, "https://google.serper.dev");
    assert_eq!(config.timeout_secs, 30);
    assert_eq!(config.max_concurrent_requests, 5);
    assert!(!config.enable_logging);
}

#[test]
fn test_from_env_values_overrides() {
    let config = SdkConfig::from_env_values(
        Some("env-key".to_string()),
        Some("http://localhost:9000".to_string()),
        Some("90".to_string()),
        Some("12".to_string()),
        Some("agent/2.0".to_string()),
        Some("TRUE".to_string()),
    )
    .unwrap();
    assert_eq!(config.base_url, "http://localhost:9000");
    assert_eq!(config.timeout_secs, 90);
    assert_eq!(config.max_concurrent_requests, 12);
    assert_eq!(config.user_agent, "agent/2.0");
    assert!(config.enable_logging);
}

#[test]
fn test_from_env_values_plus_signed_timeout() {
    let config = SdkConfig::from_env_values(
        Some("env-key".to_string()),
        None,
        Some("+60".to_string()),
        None,
        None,
        None,
    )
    .unwrap();
    assert_eq!(config.timeout_secs, 60);
}

#[test]
fn test_builder_invalid_values_fail() {
    let result = SdkConfigBuilder::new().api_key("key").timeout(0).build();
    assert!(result.is_err());
    let result = SdkConfigBuilder::new().api_key("key").base_url("no-scheme").build();
    assert!(result.is_err());
    let result = SdkConfigBuilder::new().api_key("   ").build();
    assert!(result.is_err());
}

#[test]
fn test_from_env_values_malformed_numbers_ignored() {
    let config = SdkConfig::from_env_values(
        Some("env-key".to_string()),
        None,
        Some("ninety".to_string()),
        Some("-3".to_string()),
        None,
        Some("yes".to_string()),
    )
    .unwrap();
    assert_eq!(config.timeout_secs, 30);
    assert_eq!(config.max_concurrent_requests, 5);
    assert!(!config.enable_logging);
}

#[test]
fn test_parse_u64_rules() {
    assert_eq!(parse_u64("0"), Some(0));
    assert_eq!(parse_u64("18446744073709551615"), Some(u64::MAX));
    assert_eq!(parse_u64("18446744073709551616"), None);
    assert_eq!(parse_u64(""), None);
    assert_eq!(parse_u64("12a"), None);
    assert_eq!(parse_u64("007"), Some(7));
    // A leading plus sign is accepted, as str::parse::<u64> accepts it.
    assert_eq!(parse_u64("+60"), Some(60));
    assert_eq!(parse_u64("+"), None);
    assert_eq!(parse_u64("++1"), None);
    assert_eq!(parse_u64("-1"), None);
    // Every answer agrees with the standard parser.
    for text in ["0", "18446744073709551615", "18446744073709551616", "", "12a", "007", "+60", "+", "++1", "-1"] {
        assert_eq!(parse_u64(text), text.parse::<u64>().ok());
    }
}

#[test]
fn test_is_true_text_rules() {
    assert!(is_true_text("true"));
    assert!(is_true_text("TRUE"));
    assert!(is_true_text("TrUe"));
    assert!(!is_true_text("false"));
    assert!(!is_true_text("truth"));
    assert!(!is_true_text(" true"));
}
