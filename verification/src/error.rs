//! The error taxonomy of the library.
//!
//! Every fallible operation returns one of these variants; none is ever
//! swallowed. Transport and JSON failures are reported by the surrounding
//! shell and by the JSON layer as plain messages, so that the whole taxonomy
//! stays visible to the verifier.

use vstd::prelude::*;

verus! {

/// Main error type for the library.
///
/// The variants distinguish transport failures, non-2xx API answers, JSON
/// parse failures, a blank API key, configuration mistakes, and input or
/// response values that fail validation.
#[derive(Debug, Clone, PartialEq)]
pub enum SerperError {
    /// The HTTP round trip itself could not complete.
    Request { message: String },
    /// The response body was not valid JSON or did not match the expected shape.
    Json { message: String },
    /// The server answered with a non-success status code.
    Api { message: String },
    /// The supplied API key is empty or blank.
    InvalidApiKey,
    /// Building or validating a configuration failed.
    Config { message: String },
    /// An input value or a deserialized response failed its invariants.
    Validation { message: String },
}

/// The human-readable text of an error: a fixed phrase naming the kind,
/// followed by the carried message.
pub open spec fn spec_error_text(e: SerperError) -> Seq<char> {
    match e {
        SerperError::Request { message } => "HTTP request failed: "@ + message@,
        SerperError::Json { message } => "JSON parsing failed: "@ + message@,
        SerperError::Api { message } => "API error: "@ + message@,
        SerperError::InvalidApiKey => "Invalid API key"@,
        SerperError::Config { message } => "Configuration error: "@ + message@,
        SerperError::Validation { message } => "Validation error: "@ + message@,
    }
}

impl SerperError {
    /// Renders the error as text: a fixed phrase naming the kind, followed
    /// by the carried message.
    pub fn describe(&self) -> (r: String)
        ensures
            r@ == spec_error_text(*self),
    {
        match self {
            SerperError::Request { message } => {
                let mut text = "HTTP request failed: ".to_owned();
                text.append(message.as_str());
                text
            },
            SerperError::Json { message } => {
                let mut text = "JSON parsing failed: ".to_owned();
                text.append(message.as_str());
                text
            },
            SerperError::Api { message } => {
                let mut text = "API error: ".to_owned();
                text.append(message.as_str());
                text
            },
            SerperError::InvalidApiKey => "Invalid API key".to_owned(),
            SerperError::Config { message } => {
                let mut text = "Configuration error: ".to_owned();
                text.append(message.as_str());
                text
            },
            SerperError::Validation { message } => {
                let mut text = "Validation error: ".to_owned();
                text.append(message.as_str());
                text
            },
        }
    }

    /// Creates a new transport error with the given message.
    pub fn request_error(message: &str) -> (e: SerperError)
        ensures
            e matches SerperError::Request { message: m } && m@ == message@,
    {
        SerperError::Request { message: message.to_owned() }
    }

    /// Creates a new API error with the given message.
    pub fn api_error(message: &str) -> (e: SerperError)
        ensures
            e matches SerperError::Api { message: m } && m@ == message@,
    {
        SerperError::Api { message: message.to_owned() }
    }

    /// Creates a new configuration error with the given message.
    pub fn config_error(message: &str) -> (e: SerperError)
        ensures
            e matches SerperError::Config { message: m } && m@ == message@,
    {
        SerperError::Config { message: message.to_owned() }
    }

    /// Creates a new validation error with the given message.
    pub fn validation_error(message: &str) -> (e: SerperError)
        ensures
            e matches SerperError::Validation { message: m } && m@ == message@,
    {
        SerperError::Validation { message: message.to_owned() }
    }

    /// Checks whether the error is related to authentication.
    pub fn is_auth_error(&self) -> (r: bool)
        ensures
            r == (self is InvalidApiKey),
    {
        matches!(self, SerperError::InvalidApiKey)
    }

    /// Checks whether the error is related to network transport.
    pub fn is_network_error(&self) -> (r: bool)
        ensures
            r == (self is Request),
    {
        matches!(self, SerperError::Request { .. })
    }

    /// Checks whether the error is related to data parsing.
    pub fn is_parse_error(&self) -> (r: bool)
        ensures
            r == (self is Json),
    {
        matches!(self, SerperError::Json { .. })
    }

    /// Checks whether the error is an API error.
    pub fn is_api_error(&self) -> (r: bool)
        ensures
            r == (self is Api),
    {
        matches!(self, SerperError::Api { .. })
    }
}

} // verus!
