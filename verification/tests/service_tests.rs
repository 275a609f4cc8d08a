//! Tests for the search service facade and the behaviour the spec asks of a
//! whole search: status mapping, malformed bodies, structural validation,
//! and batch aggregation.

use serper_sdk::search::service::{SearchService, SearchServiceBuilder};
use serper_sdk::{SearchQuery, SearchResponse, SerperError};

#[test]
fn test_service_builder() {
    let builder = SearchServiceBuilder::new()
        .api_key("test-key")
        .timeout(60)
        .user_agent("test-agent");

    let service = builder.build().unwrap();
    let info = service.info();

    assert_eq!(info.timeout_secs, 60);
    assert_eq!(info.user_agent, "test-agent");
    assert_eq!(info.base_url, "https://google.serper.dev");
}

#[test]
fn test_service_creation() {
    let service = SearchService::new("test-key".to_string()).unwrap();
    let info = service.info();

    assert_eq!(info.base_url, "https://google.serper.dev");
    assert_eq!(info.timeout_secs, 30);
}

#[test]
fn test_service_creation_blank_key_fails() {
    let result = SearchService::new("   ".to_string());
    assert!(matches!(result, Err(SerperError::InvalidApiKey)));
}

#[test]
fn service_test_builder_missing_api_key() {
    let builder = SearchServiceBuilder::new();
    let result = builder.build();
    assert!(result.is_err());
}

#[test]
fn test_query_builder() {
    let service = SearchService::new("test-key".to_string()).unwrap();
    let builder = service.query_builder();

    let query = builder.query("test").location("Paris").page(1).build().unwrap();

    assert_eq!(query.query(), "test");
    assert_eq!(query.location, Some("Paris".to_string()));
    assert_eq!(query.page, Some(1));
}

#[test]
fn test_search_module_functionality() {
    let query = SearchQuery::new("test query".to_string()).unwrap();
    assert_eq!(query.q, "test query");

    let response = SearchResponse::new();
    assert!(!response.has_results());
    assert_eq!(response.organic_count(), 0);
}

#[test]
fn test_modular_integration() {
    let config = serper_sdk::SdkConfig::new("test-key".to_string());
    assert!(config.validate().is_ok());

    let query_text = "rust programming";
    assert!(serper_sdk::utils::string::validate_non_empty(query_text, "query").is_ok());

    let query = SearchQuery::new(query_text.to_string()).unwrap();
    assert_eq!(query.q, query_text);

    let empty_query = SearchQuery::new("".to_string());
    assert!(empty_query.is_err());
    assert!(matches!(empty_query.unwrap_err(), SerperError::Validation { .. }));
}

#[test]
fn test_process_response_http_500() {
    let service = SearchService::new("test-key".to_string()).unwrap();
    let result = service.process_response(500, Some("Internal Server Error"), "{}");
    match result {
        Err(SerperError::Api { message }) => {
            assert!(message.contains("500"));
        },
        _ => panic!("Expected Api error for status 500"),
    }
}

#[test]
fn test_process_response_malformed_json_never_success() {
    let service = SearchService::new("test-key".to_string()).unwrap();
    for body in ["{ incomplete json", "not json at all", "", "{ \"key\": }"] {
        let result = service.process_response(200, Some("OK"), body);
        match result {
            Err(SerperError::Json { .. }) | Err(SerperError::Request { .. }) => {},
            Err(other) => panic!("Unexpected error kind for {:?}: {:?}", body, other),
            Ok(_) => panic!("Malformed body {:?} must never succeed", body),
        }
    }
}

#[test]
fn test_process_response_empty_title_fails_validation() {
    let service = SearchService::new("test-key".to_string()).unwrap();
    let body = r#"{
        "organic": [
            { "title": "", "link": "https://example.com", "position": 1 }
        ]
    }"#;
    let result = service.process_response(200, Some("OK"), body);
    assert!(matches!(result, Err(SerperError::Validation { .. })));
}

#[test]
fn test_process_response_success() {
    let service = SearchService::new("test-key".to_string()).unwrap();
    let body = r#"{
        "organic": [
            { "title": "A result", "link": "https://example.com", "position": 1 }
        ]
    }"#;
    let response = service.process_response(200, Some("OK"), body).unwrap();
    assert_eq!(response.organic_count(), 1);
    assert!(response.has_results());
}

fn response_with_title(title: &str) -> SearchResponse {
    let mut response = SearchResponse::new();
    response.organic = Some(vec![serper_sdk::OrganicResult::new(
        title.to_string(),
        "https://example.com".to_string(),
        1,
    )]);
    response
}

#[test]
fn test_collect_results_keeps_order() {
    let results: Vec<Result<SearchResponse, SerperError>> = vec![
        Ok(response_with_title("first")),
        Ok(response_with_title("second")),
        Ok(response_with_title("third")),
    ];
    let collected = SearchService::collect_results(results).unwrap();
    assert_eq!(collected.len(), 3);
    assert_eq!(collected[0].first_result().unwrap().title, "first");
    assert_eq!(collected[1].first_result().unwrap().title, "second");
    assert_eq!(collected[2].first_result().unwrap().title, "third");
}

#[test]
fn test_collect_results_first_error_wins_no_partial() {
    let results: Vec<Result<SearchResponse, SerperError>> = vec![
        Ok(response_with_title("first")),
        Err(SerperError::api_error("HTTP 500 - Internal Server Error")),
        Err(SerperError::api_error("HTTP 404 - Not Found")),
    ];
    match SearchService::collect_results(results) {
        Err(SerperError::Api { message }) => {
            assert!(message.contains("500"));
        },
        Err(_) => panic!("Expected the first Api error"),
        Ok(_) => panic!("A failing batch must not return partial results"),
    }
}

#[test]
fn test_service_prepare_search() {
    let service = SearchService::new("test-key".to_string()).unwrap();
    let query = SearchQuery::new("verified".to_string()).unwrap();
    let request = service.prepare_search(&query).unwrap();
    assert_eq!(request.url, "https://google.serper.dev/search");
    assert_eq!(request.body, "{\"q\":\"verified\"}");
}
