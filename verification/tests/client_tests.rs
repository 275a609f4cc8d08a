//! Tests for the HTTP client, its builder, and the transport configuration.

use serper_sdk::http::client::{SerperHttpClient, SerperHttpClientBuilder};
use serper_sdk::http::transport::{HttpTransportBuilder, TransportConfig, check_status};
use serper_sdk::utils::collections::{assoc_get, assoc_has_key};
use serper_sdk::{ApiKey, BaseUrl};

#[test]
fn test_client_builder() {
    let api_key = ApiKey::new("test-key".to_string()).unwrap();
    let base_url = BaseUrl::new("https://test.api.com".to_string());

    let builder = SerperHttpClientBuilder::new()
        .api_key(api_key.clone())
        .base_url(base_url.clone())
        .timeout(60)
        .header("Custom".to_string(), "Value".to_string());

    let client = builder.build().unwrap();
    assert_eq!(client.api_key().as_str(), "test-key");
    assert_eq!(client.base_url().as_str(), "https://test.api.com");
    assert_eq!(client.transport_config().timeout_secs, 60);
}

#[test]
fn test_client_creation() {
    let api_key = ApiKey::new("test-key".to_string()).unwrap();
    let client = SerperHttpClient::new(api_key).unwrap();

    assert_eq!(client.api_key().as_str(), "test-key");
    assert_eq!(client.base_url().as_str(), "https://google.serper.dev");
}

#[test]
fn client_test_builder_missing_api_key() {
    let builder = SerperHttpClientBuilder::new();
    let result = builder.build();
    assert!(result.is_err());
}

#[test]
fn test_transport_config_creation() {
    let config = TransportConfig::new();
    assert_eq!(config.timeout_secs, 30);
    assert!(assoc_has_key(&config.default_headers, "Content-Type"));
}

#[test]
fn test_transport_config_builder() {
    let config = TransportConfig::new()
        .with_timeout(60)
        .with_header("Custom-Header".to_string(), "value".to_string())
        .with_user_agent("custom-agent".to_string());

    assert_eq!(config.timeout_secs, 60);
    assert_eq!(config.user_agent, "custom-agent");
    assert_eq!(assoc_get(&config.default_headers, "Custom-Header"), Some(&"value".to_string()));
}

#[test]
fn test_transport_builder() {
    let builder = HttpTransportBuilder::new()
        .timeout(45)
        .header("Test".to_string(), "Value".to_string())
        .user_agent("test-agent".to_string());

    let transport = builder.build().unwrap();
    assert_eq!(transport.config().timeout_secs, 45);
    assert_eq!(transport.config().user_agent, "test-agent");
}

#[test]
fn test_api_key_validation() {
    let result = ApiKey::new("valid-key".to_string());
    assert!(result.is_ok());

    let result = ApiKey::new("".to_string());
    assert!(result.is_err());
}

#[test]
fn test_header_override_keeps_one_value() {
    let config = TransportConfig::new()
        .with_header("X-Extra".to_string(), "one".to_string())
        .with_header("X-Extra".to_string(), "two".to_string());
    assert_eq!(assoc_get(&config.default_headers, "X-Extra"), Some(&"two".to_string()));
    let count = config.default_headers.iter().filter(|p| p.0 == "X-Extra").count();
    assert_eq!(count, 1);
}

#[test]
fn test_request_headers_layout() {
    let api_key = ApiKey::new("secret".to_string()).unwrap();
    let client = SerperHttpClient::with_config(
        api_key,
        BaseUrl::new("https://example.test".to_string()),
        TransportConfig::new().with_header("X-Extra".to_string(), "v".to_string()),
    )
    .unwrap();
    let headers = client.transport.request_headers(client.api_key());
    assert_eq!(headers.first(), Some(&("X-API-KEY".to_string(), "secret".to_string())));
    assert_eq!(
        headers.last(),
        Some(&("Content-Type".to_string(), "application/json".to_string()))
    );
    assert!(headers.contains(&("X-Extra".to_string(), "v".to_string())));
    // The configured content type is not doubled: only the final one stands.
    let count = headers.iter().filter(|p| p.0 == "Content-Type").count();
    assert_eq!(count, 1);
}

#[test]
fn test_get_request_headers_layout() {
    let api_key = ApiKey::new("secret".to_string()).unwrap();
    let client = SerperHttpClient::with_config(
        api_key,
        BaseUrl::new("https://example.test".to_string()),
        TransportConfig::new().with_header("X-Extra".to_string(), "v".to_string()),
    )
    .unwrap();
    let headers = client.transport.get_request_headers(client.api_key());
    // The key header, then the defaults without any content type.
    assert_eq!(
        headers,
        vec![
            ("X-API-KEY".to_string(), "secret".to_string()),
            ("X-Extra".to_string(), "v".to_string()),
        ]
    );
}

#[test]
fn test_check_status_ranges() {
    assert!(check_status(200, Some("OK")).is_ok());
    assert!(check_status(204, None).is_ok());
    assert!(check_status(299, None).is_ok());
    assert!(check_status(199, None).is_err());
    assert!(check_status(300, None).is_err());
    assert!(check_status(404, Some("Not Found")).is_err());
}

#[test]
fn test_check_status_message() {
    let err = check_status(500, Some("Internal Server Error")).unwrap_err();
    match err {
        serper_sdk::SerperError::Api { message } => {
            assert_eq!(message, "HTTP 500 - Internal Server Error");
        },
        _ => panic!("Expected Api error"),
    }
    let err = check_status(418, None).unwrap_err();
    match err {
        serper_sdk::SerperError::Api { message } => {
            assert_eq!(message, "HTTP 418 - Unknown error");
        },
        _ => panic!("Expected Api error"),
    }
}

#[test]
fn test_prepare_search_layout() {
    let api_key = ApiKey::new("secret".to_string()).unwrap();
    let client = SerperHttpClient::with_config(
        api_key,
        BaseUrl::new("https://example.test".to_string()),
        TransportConfig::new(),
    )
    .unwrap();
    let query = serper_sdk::SearchQuery::new("rust".to_string()).unwrap().with_page(2);
    let request = client.prepare_search(&query).unwrap();
    assert_eq!(request.url, "https://example.test/search");
    assert_eq!(request.body, "{\"q\":\"rust\",\"page\":2}");
    assert_eq!(request.headers[0], ("X-API-KEY".to_string(), "secret".to_string()));
}

#[test]
fn test_prepare_search_rejects_invalid_query() {
    let api_key = ApiKey::new("secret".to_string()).unwrap();
    let client = SerperHttpClient::new(api_key).unwrap();
    let query = serper_sdk::SearchQuery::new("rust".to_string()).unwrap().with_page(0);
    assert!(client.prepare_search(&query).is_err());
}
