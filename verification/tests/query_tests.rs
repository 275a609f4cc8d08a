//! Tests for query construction, validation, and request-body framing.

use serper_sdk::{SearchQuery, SearchQueryBuilder};
use serper_sdk::types::{Location, Pagination};

#[test]
fn query_test_search_query_new() {
    let query = SearchQuery::new("test query".to_string()).unwrap();
    assert_eq!(query.q, "test query");
    assert_eq!(query.location, None);
    assert_eq!(query.gl, None);
    assert_eq!(query.hl, None);
    assert_eq!(query.page, None);
    assert_eq!(query.num, None);
}

#[test]
fn test_search_query_empty_fails() {
    let result = SearchQuery::new("".to_string());
    assert!(result.is_err());
}

#[test]
fn test_search_query_blank_fails() {
    let result = SearchQuery::new("   \t\n".to_string());
    assert!(result.is_err());
}

#[test]
fn test_search_query_keeps_text_untrimmed() {
    let query = SearchQuery::new("  padded query  ".to_string()).unwrap();
    assert_eq!(query.q, "  padded query  ");
}

#[test]
fn query_test_search_query_with_location() {
    let query = SearchQuery::new("test".to_string())
        .unwrap()
        .with_location("Paris".to_string());
    assert_eq!(query.location, Some("Paris".to_string()));
}

#[test]
fn test_search_query_builder() {
    let query = SearchQueryBuilder::new()
        .query("test query")
        .location("Paris")
        .country("fr")
        .language("en")
        .page(1)
        .num_results(10)
        .build()
        .unwrap();

    assert_eq!(query.q, "test query");
    assert_eq!(query.location, Some("Paris".to_string()));
    assert_eq!(query.gl, Some("fr".to_string()));
    assert_eq!(query.hl, Some("en".to_string()));
    assert_eq!(query.page, Some(1));
    assert_eq!(query.num, Some(10));
}

#[test]
fn test_search_query_builder_missing_query() {
    let result = SearchQueryBuilder::new().location("Paris").build();
    assert!(result.is_err());
}

#[test]
fn test_search_query_validation() {
    let query = SearchQuery::new("test".to_string()).unwrap().with_page(0);
    assert!(query.validate().is_err());

    let query = SearchQuery::new("test".to_string())
        .unwrap()
        .with_num_results(101);
    assert!(query.validate().is_err());
}

#[test]
fn test_search_query_validation_num_zero() {
    let query = SearchQuery::new("test".to_string())
        .unwrap()
        .with_num_results(0);
    assert!(query.validate().is_err());
}

#[test]
fn test_search_query_validation_in_range() {
    let query = SearchQuery::new("test".to_string())
        .unwrap()
        .with_page(1)
        .with_num_results(100);
    assert!(query.validate().is_ok());

    let query = SearchQuery::new("test".to_string())
        .unwrap()
        .with_num_results(1);
    assert!(query.validate().is_ok());
}

#[test]
fn test_search_query_helper_methods() {
    let query = SearchQuery::new("test".to_string())
        .unwrap()
        .with_location("Paris".to_string())
        .with_page(1);

    assert!(query.has_location_params());
    assert!(query.has_pagination_params());
    assert_eq!(query.query(), "test");
}

#[test]
fn models_test_search_query_new() {
    let query = SearchQuery::new("test query".to_string()).unwrap();
    assert_eq!(query.q, "test query");
    assert_eq!(query.location, None);
    assert_eq!(query.gl, None);
    assert_eq!(query.hl, None);
    assert_eq!(query.page, None);
    assert_eq!(query.num, None);
}

#[test]
fn models_test_search_query_with_location() {
    let query = SearchQuery::new("test".to_string())
        .unwrap()
        .with_location("Paris".to_string());
    assert_eq!(query.location, Some("Paris".to_string()));
}

#[test]
fn test_search_query_with_country() {
    let query = SearchQuery::new("test".to_string())
        .unwrap()
        .with_country("fr".to_string());
    assert_eq!(query.gl, Some("fr".to_string()));
}

#[test]
fn test_search_query_with_language() {
    let query = SearchQuery::new("test".to_string())
        .unwrap()
        .with_language("en".to_string());
    assert_eq!(query.hl, Some("en".to_string()));
}

#[test]
fn test_search_query_with_page() {
    let query = SearchQuery::new("test".to_string()).unwrap().with_page(2);
    assert_eq!(query.page, Some(2));
}

#[test]
fn test_search_query_with_num_results() {
    let query = SearchQuery::new("test".to_string()).unwrap().with_num_results(20);
    assert_eq!(query.num, Some(20));
}

#[test]
fn test_search_query_chaining() {
    let query = SearchQuery::new("test".to_string())
        .unwrap()
        .with_location("Paris".to_string())
        .with_country("fr".to_string())
        .with_language("en".to_string())
        .with_page(1)
        .with_num_results(10);

    assert_eq!(query.q, "test");
    assert_eq!(query.location, Some("Paris".to_string()));
    assert_eq!(query.gl, Some("fr".to_string()));
    assert_eq!(query.hl, Some("en".to_string()));
    assert_eq!(query.page, Some(1));
    assert_eq!(query.num, Some(10));
}

#[test]
fn test_search_query_serialize() {
    let query = SearchQuery::new("test query".to_string())
        .unwrap()
        .with_location("Paris".to_string());

    let json = query.to_json();
    assert!(json.contains("\"q\":\"test query\""));
    assert!(json.contains("\"location\":\"Paris\""));
}

#[test]
fn test_search_query_serialize_minimal() {
    let query = SearchQuery::new("test".to_string()).unwrap();
    let json = query.to_json();
    assert!(json.contains("\"q\":\"test\""));
    assert!(!json.contains("\"location\""));
    assert!(!json.contains("\"gl\""));
    assert!(!json.contains("\"hl\""));
    assert!(!json.contains("\"page\""));
    assert!(!json.contains("\"num\""));
}

#[test]
fn test_search_query_serialize_minimal_exact() {
    let query = SearchQuery::new("test".to_string()).unwrap();
    assert_eq!(query.to_json(), "{\"q\":\"test\"}");
}

#[test]
fn test_search_query_serialize_full_exact() {
    let query = SearchQuery::new("rust".to_string())
        .unwrap()
        .with_location("Paris".to_string())
        .with_country("fr".to_string())
        .with_language("en".to_string())
        .with_page(2)
        .with_num_results(25);
    assert_eq!(
        query.to_json(),
        "{\"q\":\"rust\",\"location\":\"Paris\",\"gl\":\"fr\",\"hl\":\"en\",\"page\":2,\"num\":25}"
    );
}

#[test]
fn test_search_query_serialize_escapes() {
    let query = SearchQuery::new("say \"hi\"\\\n".to_string()).unwrap();
    assert_eq!(query.to_json(), "{\"q\":\"say \\\"hi\\\"\\\\\\n\"}");
}

#[test]
fn test_search_query_serialize_control_escape() {
    let query = SearchQuery::new("a\u{1}b".to_string()).unwrap();
    assert_eq!(query.to_json(), "{\"q\":\"a\\u0001b\"}");
}

#[test]
fn test_search_query_location_config() {
    let location = Location::new()
        .with_location("Berlin".to_string())
        .with_country("de".to_string());
    let query = SearchQuery::new("test".to_string())
        .unwrap()
        .with_language("en".to_string())
        .with_location_config(location);
    assert_eq!(query.location, Some("Berlin".to_string()));
    assert_eq!(query.gl, Some("de".to_string()));
    assert_eq!(query.hl, Some("en".to_string()));
}

#[test]
fn test_search_query_pagination_config() {
    let pagination = Pagination::new().with_page(3).with_num_results(50);
    let query = SearchQuery::new("test".to_string())
        .unwrap()
        .with_pagination(pagination);
    assert_eq!(query.page, Some(3));
    assert_eq!(query.num, Some(50));
}
