//! Tests for response decoding, structural validation, and the response
//! accessors.

use serper_sdk::json::JsonValue;
use serper_sdk::{AnswerBox, OrganicResult, ResponseParser, SearchMetadata, SearchResponse};

fn parse_single_organic(body: &str) -> Result<OrganicResult, serper_sdk::SerperError> {
    let wrapped = format!(r#"{{ "organic": [ {} ] }}"#, body);
    let response = ResponseParser::parse_response(&wrapped)?;
    Ok(response.organic.unwrap().remove(0))
}

#[test]
fn test_search_response_creation() {
    let response = SearchResponse::new();
    assert!(!response.has_results());
    assert_eq!(response.organic_count(), 0);
}

#[test]
fn test_organic_result() {
    let result = OrganicResult::new("Test Title".to_string(), "https://example.com".to_string(), 1);

    assert_eq!(result.title, "Test Title");
    assert_eq!(result.position, 1);
    assert!(!result.has_snippet());
    assert_eq!(result.snippet_or_default(), "No description available");
}

#[test]
fn test_response_parsing() {
    let json_data = r#"{
        "search_metadata": {
            "id": "test-123",
            "status": "Success",
            "created_at": "2023-01-01T00:00:00Z",
            "request_time_taken": 0.5,
            "total_time_taken": 1.0
        },
        "organic": [
            {
                "title": "Test Result",
                "link": "https://example.com",
                "snippet": "Test snippet",
                "position": 1
            }
        ]
    }"#;

    let response = ResponseParser::parse_response(json_data).unwrap();
    assert!(response.has_results());
    assert_eq!(response.organic_count(), 1);

    let first = response.first_result().unwrap();
    assert_eq!(first.title, "Test Result");
}

#[test]
fn test_answer_box() {
    let answer_box = AnswerBox {
        answer: Some("42".to_string()),
        snippet: Some("The answer to everything".to_string()),
        title: None,
        link: None,
    };

    assert!(answer_box.has_answer());
    assert_eq!(answer_box.best_text(), Some("42"));
}

#[test]
fn test_response_validation() {
    let mut response = SearchResponse::new();

    assert!(ResponseParser::validate_response(&response).is_ok());

    response.organic = Some(vec![OrganicResult {
        title: "".to_string(),
        link: "https://example.com".to_string(),
        snippet: None,
        position: 1,
        extra: Vec::new(),
    }]);

    assert!(ResponseParser::validate_response(&response).is_err());
}

#[test]
fn test_response_validation_empty_link() {
    let mut response = SearchResponse::new();
    response.organic = Some(vec![OrganicResult {
        title: "A title".to_string(),
        link: "".to_string(),
        snippet: None,
        position: 1,
        extra: Vec::new(),
    }]);
    assert!(ResponseParser::validate_response(&response).is_err());
}

#[test]
fn test_response_validation_empty_metadata_id() {
    let mut response = SearchResponse::new();
    response.search_metadata = Some(SearchMetadata {
        id: "".to_string(),
        status: "ok".to_string(),
        created_at: "2023-01-01T00:00:00Z".to_string(),
        request_time_taken: "0.5".to_string(),
        total_time_taken: "1.0".to_string(),
    });
    assert!(ResponseParser::validate_response(&response).is_err());
}

#[test]
fn test_organic_result_deserialize() {
    let json = r#"
    {
        "title": "Test Title",
        "link": "https://example.com",
        "snippet": "Test snippet",
        "position": 1
    }
    "#;

    let result = parse_single_organic(json).unwrap();
    assert_eq!(result.title, "Test Title");
    assert_eq!(result.link, "https://example.com");
    assert_eq!(result.snippet, Some("Test snippet".to_string()));
    assert_eq!(result.position, 1);
}

#[test]
fn test_organic_result_deserialize_no_snippet() {
    let json = r#"
    {
        "title": "Test Title",
        "link": "https://example.com",
        "position": 1
    }
    "#;

    let result = parse_single_organic(json).unwrap();
    assert_eq!(result.snippet, None);
}

#[test]
fn test_organic_result_deserialize_keeps_extra_fields() {
    let json = r#"
    {
        "title": "Test Title",
        "link": "https://example.com",
        "position": 1,
        "sitelinks": ["a", "b"],
        "rating": 4
    }
    "#;

    let result = parse_single_organic(json).unwrap();
    assert_eq!(result.extra.len(), 2);
    // The parser hands object fields out sorted by key.
    assert_eq!(result.extra[0].0, "rating");
    assert_eq!(result.extra[0].1, JsonValue::NumU64(4));
    assert_eq!(result.extra[1].0, "sitelinks");
}

#[test]
fn test_organic_result_deserialize_missing_title_fails() {
    let json = r#"{ "link": "https://example.com", "position": 1 }"#;
    assert!(parse_single_organic(json).is_err());
}

#[test]
fn test_organic_result_deserialize_bad_position_fails() {
    let json = r#"{ "title": "t", "link": "l", "position": -1 }"#;
    assert!(parse_single_organic(json).is_err());
    let json = r#"{ "title": "t", "link": "l", "position": 1.5 }"#;
    assert!(parse_single_organic(json).is_err());
}

#[test]
fn test_search_response_deserialize_empty() {
    let response = ResponseParser::parse_response("{}").unwrap();
    assert_eq!(response.search_metadata, None);
    assert_eq!(response.organic, None);
    assert_eq!(response.answer_box, None);
    assert_eq!(response.knowledge_graph, None);
    assert!(!response.has_results());
    assert_eq!(response.organic_count(), 0);
}

#[test]
fn test_search_metadata_deserialize() {
    let json = r#"
    {
        "id": "test-id",
        "status": "success",
        "created_at": "2023-01-01T00:00:00Z",
        "request_time_taken": 0.5,
        "total_time_taken": 1.0
    }
    "#;

    let wrapped = format!(r#"{{ "search_metadata": {} }}"#, json);
    let response = ResponseParser::parse_response(&wrapped).unwrap();
    let metadata = response.search_metadata.unwrap();
    assert_eq!(metadata.id, "test-id");
    assert_eq!(metadata.status, "success");
    assert_eq!(metadata.request_time_taken, "0.5");
    assert_eq!(metadata.total_time_taken, "1.0");
}

#[test]
fn test_answer_box_deserialize() {
    let json = r#"
    {
        "answer": "Test answer",
        "snippet": "Test snippet"
    }
    "#;

    let wrapped = format!(r#"{{ "answer_box": {} }}"#, json);
    let response = ResponseParser::parse_response(&wrapped).unwrap();
    let answer_box = response.answer_box.unwrap();
    assert_eq!(answer_box.answer, Some("Test answer".to_string()));
    assert_eq!(answer_box.snippet, Some("Test snippet".to_string()));
}

#[test]
fn test_knowledge_graph_deserialize() {
    let json = r#"
    {
        "title": "Test Title",
        "description": "Test Description"
    }
    "#;

    let wrapped = format!(r#"{{ "knowledge_graph": {} }}"#, json);
    let response = ResponseParser::parse_response(&wrapped).unwrap();
    let kg = response.knowledge_graph.unwrap();
    assert_eq!(kg.title, Some("Test Title".to_string()));
    assert_eq!(kg.description, Some("Test Description".to_string()));
}

#[test]
fn test_knowledge_graph_type_field_and_attributes() {
    let json = r#"
    {
        "title": "Ada Lovelace",
        "type": "Person",
        "born": "1815"
    }
    "#;

    let wrapped = format!(r#"{{ "knowledge_graph": {} }}"#, json);
    let response = ResponseParser::parse_response(&wrapped).unwrap();
    let kg = response.knowledge_graph.unwrap();
    assert_eq!(kg.entity_type, Some("Person".to_string()));
    assert_eq!(kg.attributes.len(), 1);
    assert_eq!(kg.attributes[0].0, "born");
    assert_eq!(kg.attributes[0].1, JsonValue::Text("1815".to_string()));
}

#[test]
fn test_response_null_sections_absent() {
    let response = ResponseParser::parse_response(
        r#"{ "organic": null, "answer_box": null, "news": null }"#,
    )
    .unwrap();
    assert_eq!(response.organic, None);
    assert_eq!(response.answer_box, None);
    assert_eq!(response.news, None);
    assert!(!response.has_results());
}

#[test]
fn test_response_wrong_section_shape_fails() {
    let result = ResponseParser::parse_response(r#"{ "organic": "should be array" }"#);
    assert!(result.is_err());
    let result = ResponseParser::parse_response(r#"{ "organic": ["not an object"] }"#);
    assert!(result.is_err());
}

#[test]
fn test_extract_urls_in_order() {
    let response = ResponseParser::parse_response(
        r#"{
            "organic": [
                { "title": "One", "link": "https://one.example", "position": 1 },
                { "title": "Two", "link": "https://two.example", "position": 2 }
            ]
        }"#,
    )
    .unwrap();
    assert_eq!(response.extract_urls(), vec!["https://one.example", "https://two.example"]);
    assert_eq!(response.organic_results().len(), 2);
}

#[test]
fn test_organic_result_domain() {
    let result = OrganicResult::new(
        "Example".to_string(),
        "https://sub.example.com/path".to_string(),
        1,
    );
    assert_eq!(result.domain(), Some("sub.example.com".to_string()));

    let bad = OrganicResult::new("Example".to_string(), "not a url".to_string(), 1);
    assert_eq!(bad.domain(), None);
}
