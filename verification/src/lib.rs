//! A client library for the Serper web-search API.
//!
//! The library builds and validates outbound search queries, frames them as
//! JSON request bodies, maps HTTP status codes and JSON parse failures onto
//! an error taxonomy, and decodes the loosely structured JSON responses into
//! typed values. Every function here carries a contract checked by Verus;
//! the network itself is driven by a thin unverified shell around the crate.

pub mod config;
pub mod error;
pub mod http;
pub mod json;
pub mod search;
pub mod types;
pub mod utils;

pub use crate::config::{SdkConfig, SdkConfigBuilder};
pub use crate::error::SerperError;
pub use crate::search::query::{SearchQuery, SearchQueryBuilder};
pub use crate::search::response::{
    AnswerBox, KnowledgeGraph, NewsResult, OrganicResult, RelatedQuestion, ResponseParser,
    SearchMetadata, SearchResponse, ShoppingResult,
};
pub use crate::search::service::SearchService;
pub use crate::search::service::SearchService as SerperClient;
pub use crate::types::{ApiKey, BaseUrl, Location, Pagination};
