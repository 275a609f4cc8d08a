//! Tests for the error taxonomy.

use serper_sdk::{ResponseParser, SerperError};

#[test]
fn test_invalid_api_key_error_display() {
    let error = SerperError::InvalidApiKey;
    assert_eq!(error.describe(), "Invalid API key");
    assert!(error.is_auth_error());
}

#[test]
fn test_api_error_display() {
    let error = SerperError::Api { message: "Rate limit exceeded".to_string() };
    assert_eq!(error.describe(), "API error: Rate limit exceeded");
    assert!(error.is_api_error());
}

#[test]
fn test_error_variants() {
    let api_key_error = SerperError::InvalidApiKey;
    let api_error = SerperError::Api { message: "test".to_string() };

    match api_key_error {
        SerperError::InvalidApiKey => {},
        _ => panic!("Expected InvalidApiKey variant"),
    }

    match api_error {
        SerperError::Api { message } => {
            assert_eq!(message, "test");
        },
        _ => panic!("Expected Api variant"),
    }
}

#[test]
fn test_config_error() {
    let error = SerperError::config_error("Invalid timeout");
    match error {
        SerperError::Config { message } => {
            assert_eq!(message, "Invalid timeout");
        },
        _ => panic!("Expected Config error"),
    }
}

#[test]
fn test_validation_error() {
    let error = SerperError::validation_error("Empty query string");
    match error {
        SerperError::Validation { message } => {
            assert_eq!(message, "Empty query string");
        },
        _ => panic!("Expected Validation error"),
    }
}

#[test]
fn test_error_classification() {
    let auth_error = SerperError::InvalidApiKey;
    let parse_error = ResponseParser::parse_response("invalid json").unwrap_err();
    let api_error = SerperError::api_error("Not found");

    assert!(auth_error.is_auth_error());
    assert!(parse_error.is_parse_error());
    assert!(api_error.is_api_error());
}

#[test]
fn test_network_error_classification() {
    let error = SerperError::request_error("connection refused");
    assert!(error.is_network_error());
    assert!(!error.is_api_error());
    assert!(!error.is_auth_error());
    assert!(!error.is_parse_error());
}

#[test]
fn test_core_module_functionality() {
    let error = SerperError::validation_error("test error");
    assert!(matches!(error, SerperError::Validation { .. }));

    let success: Result<String, SerperError> = Ok("success".to_string());
    assert!(success.is_ok());
}
