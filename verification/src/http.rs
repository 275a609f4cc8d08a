//! HTTP transport policy and the request-building client.

pub mod client;
pub mod transport;
