//! Tests for the string, URL, and collection utilities.

use serper_sdk::utils::{collections, string, url};
use serper_sdk::utils::collections::assoc_get;

#[test]
fn test_validate_url() {
    assert!(url::validate_url("https://example.com").is_ok());
    assert!(url::validate_url("http://example.com").is_ok());
    assert!(url::validate_url("").is_err());
    assert!(url::validate_url("not-a-url").is_err());
}

#[test]
fn test_validate_https() {
    assert!(url::validate_https("https://example.com").is_ok());
    assert!(url::validate_https("http://example.com").is_err());
    assert!(url::validate_https("").is_err());
}

#[test]
fn test_extract_domain() {
    assert_eq!(url::extract_domain("https://example.com/path").unwrap(), "example.com");
    assert_eq!(url::extract_domain("http://sub.example.com").unwrap(), "sub.example.com");
    assert!(url::extract_domain("not-a-url").is_err());
}

#[test]
fn test_validate_non_empty() {
    assert!(string::validate_non_empty("test", "field").is_ok());
    assert!(string::validate_non_empty("", "field").is_err());
    assert!(string::validate_non_empty("   ", "field").is_err());
}

#[test]
fn test_validate_length() {
    assert!(string::validate_length("test", Some(3), Some(5), "field").is_ok());
    assert!(string::validate_length("te", Some(3), Some(5), "field").is_err());
    assert!(string::validate_length("toolong", Some(3), Some(5), "field").is_err());
}

#[test]
fn test_validate_length_messages() {
    match string::validate_length("te", Some(3), Some(5), "field") {
        Err(serper_sdk::SerperError::Validation { message }) => {
            assert_eq!(message, "field must be at least 3 characters");
        },
        _ => panic!("Expected a validation error for a short value"),
    }
    match string::validate_length("toolong", Some(3), Some(5), "field") {
        Err(serper_sdk::SerperError::Validation { message }) => {
            assert_eq!(message, "field must be at most 5 characters");
        },
        _ => panic!("Expected a validation error for a long value"),
    }
}

#[test]
fn test_sanitize() {
    assert_eq!(string::sanitize("test\x00string"), "teststring");
    assert_eq!(string::sanitize("test\nstring"), "test\nstring");
}

#[test]
fn test_truncate() {
    assert_eq!(string::truncate("short", 10), "short");
    assert_eq!(string::truncate("toolongstring", 8), "toolo...");
    assert_eq!(string::truncate("test", 3), "...");
}

#[test]
fn test_merge_hashmaps() {
    let base = vec![("a".to_string(), 1), ("b".to_string(), 2)];
    let overlay = vec![("b".to_string(), 3), ("c".to_string(), 4)];

    let result = collections::merge_hashmaps(base, overlay);
    assert_eq!(assoc_get(&result, "a"), Some(&1));
    assert_eq!(assoc_get(&result, "b"), Some(&3)); // Overlay wins
    assert_eq!(assoc_get(&result, "c"), Some(&4));
}

#[test]
fn test_filter_map_by_key() {
    let map = vec![
        ("keep".to_string(), 1),
        ("drop".to_string(), 2),
        ("keep-too".to_string(), 3),
    ];
    let result = collections::filter_map_by_key(map, |k: &String| k.starts_with("keep"));
    // Exactly the accepted pairs, once each, in their original order.
    assert_eq!(result, vec![("keep".to_string(), 1), ("keep-too".to_string(), 3)]);
    assert_eq!(assoc_get(&result, "drop"), None);
}

#[test]
fn test_utils_module_functionality() {
    assert!(string::validate_non_empty("test", "field").is_ok());
    assert!(string::validate_non_empty("", "field").is_err());

    let sanitized = string::sanitize("test\x00string");
    assert_eq!(sanitized, "teststring");

    assert!(url::validate_url("https://example.com").is_ok());
    assert!(url::validate_https("https://example.com").is_ok());
    assert!(url::validate_https("http://example.com").is_err());

    let base = vec![("a".to_string(), 1)];
    let overlay = vec![("b".to_string(), 2)];

    let merged = collections::merge_hashmaps(base, overlay);
    assert_eq!(merged.len(), 2);
}

#[test]
fn test_decimal_string() {
    assert_eq!(string::decimal_string(0), "0");
    assert_eq!(string::decimal_string(7), "7");
    assert_eq!(string::decimal_string(30210), "30210");
    assert_eq!(string::decimal_string(u64::MAX), "18446744073709551615");
}

#[test]
fn test_is_blank() {
    assert!(string::is_blank(""));
    assert!(string::is_blank(" \t\r\n"));
    assert!(string::is_blank("\u{00A0}\u{2003}"));
    assert!(!string::is_blank(" x "));
}
