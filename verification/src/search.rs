//! Search query construction, response decoding, and the service facade.

pub mod query;
pub mod response;
pub mod service;
