//! Tests for the core value types.

use serper_sdk::{ApiKey, BaseUrl, Location, Pagination};

#[test]
fn test_api_key_creation() {
    let key = ApiKey::new("test-key".to_string()).unwrap();
    assert_eq!(key.as_str(), "test-key");
}

#[test]
fn test_api_key_empty_fails() {
    let result = ApiKey::new("".to_string());
    assert!(result.is_err());
}

#[test]
fn test_api_key_blank_fails() {
    let result = ApiKey::new("  \t ".to_string());
    assert!(result.is_err());
}

#[test]
fn test_api_key_into_string() {
    let key = ApiKey::new("abc".to_string()).unwrap();
    assert_eq!(key.into_string(), "abc");
}

#[test]
fn test_base_url() {
    let url = BaseUrl::new("https://example.com".to_string());
    assert_eq!(url.as_str(), "https://example.com");
}

#[test]
fn test_base_url_default() {
    assert_eq!(BaseUrl::new_default().as_str(), "https://google.serper.dev");
}

#[test]
fn test_pagination() {
    let pagination = Pagination::new().with_page(2).with_num_results(20);

    assert_eq!(pagination.page, Some(2));
    assert_eq!(pagination.num_results, Some(20));
}

#[test]
fn test_location() {
    let location = Location::new()
        .with_location("Paris".to_string())
        .with_country("fr".to_string())
        .with_language("en".to_string());

    assert_eq!(location.location, Some("Paris".to_string()));
    assert_eq!(location.country_code, Some("fr".to_string()));
    assert_eq!(location.language_code, Some("en".to_string()));
}
