//! HTTP transport policy: configuration, header assembly, status mapping,
//! and response-body parsing.
//!
//! Everything here is decision logic: what headers a request carries, which
//! status codes count as success and what the error message says, and how a
//! body is parsed. The wire itself is driven by the unverified shell around
//! the crate, which hands status, reason and body back as plain values.

use vstd::prelude::*;
use crate::error::SerperError;
use crate::json::spec_json_parse;
use crate::search::response::{
    SearchResponse, ResponseParser, spec_response_ok, spec_response_matches,
};
use crate::types::ApiKey;
use crate::utils::collections::{spec_assoc_without, assoc_set};
use crate::utils::string::{spec_decimal, decimal_string};

verus! {

/// HTTP transport configuration.
#[derive(Debug, Clone)]
pub struct TransportConfig {
    /// Request timeout, in seconds.
    pub timeout_secs: u64,
    /// Default headers sent with every request, in insertion order, each key
    /// held once.
    pub default_headers: Vec<(String, String)>,
    /// User agent string.
    pub user_agent: String,
}

impl TransportConfig {
    /// Creates a configuration with the default values: a 30-second timeout,
    /// a JSON content-type header, and the library's own user agent.
    pub fn new() -> (r: Self)
        ensures
            r.timeout_secs == 30,
            r.default_headers@.len() == 1,
            r.default_headers@[0].0@ == "Content-Type"@,
            r.default_headers@[0].1@ == "application/json"@,
            r.user_agent@ == "serper-sdk/0.1.0"@,
    {
        let mut default_headers: Vec<(String, String)> = Vec::new();
        default_headers.push(("Content-Type".to_owned(), "application/json".to_owned()));
        TransportConfig {
            timeout_secs: 30,
            default_headers,
            user_agent: "serper-sdk/0.1.0".to_owned(),
        }
    }

    /// Sets the request timeout, in seconds.
    pub fn with_timeout(self, timeout_secs: u64) -> (r: Self)
        ensures
            r.timeout_secs == timeout_secs,
            r.default_headers == self.default_headers,
            r.user_agent == self.user_agent,
    {
        TransportConfig { timeout_secs, ..self }
    }

    /// Sets a default header, replacing any earlier value under the key.
    pub fn with_header(self, key: String, value: String) -> (r: Self)
        ensures
            r.default_headers@ == spec_assoc_without(self.default_headers@, key@).push((key, value)),
            r.timeout_secs == self.timeout_secs,
            r.user_agent == self.user_agent,
    {
        let default_headers = assoc_set(self.default_headers, key, value);
        TransportConfig { default_headers, ..self }
    }

    /// Sets the user agent.
    pub fn with_user_agent(self, user_agent: String) -> (r: Self)
        ensures
            r.user_agent == user_agent,
            r.timeout_secs == self.timeout_secs,
            r.default_headers == self.default_headers,
    {
        TransportConfig { user_agent, ..self }
    }
}

impl Default for TransportConfig {
    /// The default transport configuration.
    fn default() -> (r: Self)
        ensures
            r.timeout_secs == 30,
            r.default_headers@.len() == 1,
            r.default_headers@[0].0@ == "Content-Type"@,
            r.default_headers@[0].1@ == "application/json"@,
            r.user_agent@ == "serper-sdk/0.1.0"@,
    {
        TransportConfig::new()
    }
}

/// Whether a status code counts as success: the 2xx range.
pub open spec fn spec_status_success(status: u16) -> bool {
    200 <= status < 300
}

/// The message of the API error for a failed status: the numeric code and
/// the reason phrase, or a fixed text where no reason came.
pub open spec fn spec_status_message(status: u16, reason: Option<Seq<char>>) -> Seq<char> {
    "HTTP "@ + spec_decimal(status as nat) + " - "@ + (match reason {
        Some(t) => t,
        None => "Unknown error"@,
    })
}

/// Maps an HTTP status code onto the error taxonomy.
///
/// Succeeds exactly on the 2xx codes; any other code becomes an API error
/// whose message carries the numeric code and the reason phrase.
pub fn check_status(status: u16, reason: Option<&str>) -> (r: Result<(), SerperError>)
    ensures
        r is Ok <==> spec_status_success(status),
        !spec_status_success(status) ==> (r matches Err(e)
            && e matches SerperError::Api { message }
            && message@ == spec_status_message(status, match reason {
                Some(t) => Some(t@),
                None => None,
            })),
{
    if 200 <= status && status < 300 {
        return Ok(());
    }
    let mut message = "HTTP ".to_owned();
    let digits = decimal_string(status as u64);
    message.append(digits.as_str());
    message.append(" - ");
    match reason {
        Some(t) => message.append(t),
        None => message.append("Unknown error"),
    }
    Err(SerperError::Api { message })
}

/// How the headers of a bodyless request relate to a configuration and an
/// API key: the key header first, then the configured default headers
/// except any content type.
pub open spec fn spec_plain_headers(
    cfg_headers: Seq<(String, String)>,
    key: Seq<char>,
    headers: Seq<(String, String)>,
) -> bool {
    let mid = spec_assoc_without(cfg_headers, "Content-Type"@);
    &&& headers.len() == mid.len() + 1
    &&& headers[0].0@ == "X-API-KEY"@
    &&& headers[0].1@ == key
    &&& headers.subrange(1, headers.len() as int) == mid
}

/// How the headers of an outbound search request relate to a configuration
/// and an API key: the key header first, then the configured default headers
/// except any content type, then the JSON content type that the body
/// dictates.
pub open spec fn spec_request_headers(
    cfg_headers: Seq<(String, String)>,
    key: Seq<char>,
    headers: Seq<(String, String)>,
) -> bool {
    let mid = spec_assoc_without(cfg_headers, "Content-Type"@);
    &&& headers.len() == mid.len() + 2
    &&& headers[0].0@ == "X-API-KEY"@
    &&& headers[0].1@ == key
    &&& headers.subrange(1, headers.len() - 1) == mid
    &&& headers.last().0@ == "Content-Type"@
    &&& headers.last().1@ == "application/json"@
}

/// The HTTP transport: the configuration that every request is built from.
#[derive(Debug, Clone)]
pub struct HttpTransport {
    /// The transport configuration.
    pub config: TransportConfig,
}

impl HttpTransport {
    /// Creates a transport with the default configuration.
    pub fn new() -> (r: Result<Self, SerperError>)
        ensures
            r matches Ok(t) && t.config.timeout_secs == 30
                && t.config.default_headers@.len() == 1
                && t.config.default_headers@[0].0@ == "Content-Type"@
                && t.config.default_headers@[0].1@ == "application/json"@
                && t.config.user_agent@ == "serper-sdk/0.1.0"@,
    {
        Ok(HttpTransport { config: TransportConfig::new() })
    }

    /// Creates a transport with the given configuration.
    pub fn with_config(config: TransportConfig) -> (r: Result<Self, SerperError>)
        ensures
            r matches Ok(t) && t.config == config,
    {
        Ok(HttpTransport { config })
    }

    /// Returns the transport configuration.
    pub fn config(&self) -> (r: &TransportConfig)
        ensures
            r == &self.config,
    {
        &self.config
    }

    /// Assembles the headers of a bodyless request, as a plain `GET` sends
    /// them: the API key header, then the configured default headers except
    /// any content type.
    #[verifier::loop_isolation(false)]
    pub fn get_request_headers(&self, api_key: &ApiKey) -> (r: Vec<(String, String)>)
        ensures
            spec_plain_headers(self.config.default_headers@, api_key.chars(), r@),
    {
        let ghost cfg = self.config.default_headers@;
        let mut headers: Vec<(String, String)> = Vec::new();
        headers.push(("X-API-KEY".to_owned(), api_key.as_str().to_owned()));
        let source = &self.config.default_headers;
        let n = source.len();
        let mut i: usize = 0;
        while i < n
            invariant
                0 <= i <= n,
                headers@.len() >= 1,
                headers@[0].0@ == "X-API-KEY"@,
                headers@[0].1@ == api_key.chars(),
                headers@.subrange(1, headers@.len() as int)
                    == spec_assoc_without(cfg.take(i as int), "Content-Type"@),
            decreases n - i,
        {
            proof {
                assert(cfg.take(i + 1 as int).drop_last() =~= cfg.take(i as int));
                assert(cfg.take(i + 1 as int).last() == cfg[i as int]);
            }
            if !crate::utils::string::str_eq(source[i].0.as_str(), "Content-Type") {
                let pair = (source[i].0.clone(), source[i].1.clone());
                proof {
                    assert(pair == cfg[i as int]);
                }
                headers.push(pair);
                proof {
                    assert(headers@.subrange(1, headers@.len() as int) =~= spec_assoc_without(
                        cfg.take(i as int),
                        "Content-Type"@,
                    ).push(cfg[i as int]));
                }
            } else {
                proof {
                    assert(headers@.subrange(1, headers@.len() as int) == spec_assoc_without(
                        cfg.take(i + 1 as int),
                        "Content-Type"@,
                    ));
                }
            }
            i += 1;
        }
        proof {
            assert(cfg.take(n as int) =~= cfg);
        }
        headers
    }

    /// Assembles the headers of an outbound search request: the API key
    /// header, the configured default headers except any content type (the
    /// JSON body sets its own), and the JSON content type.
    pub fn request_headers(&self, api_key: &ApiKey) -> (r: Vec<(String, String)>)
        ensures
            spec_request_headers(self.config.default_headers@, api_key.chars(), r@),
    {
        let mut headers = self.get_request_headers(api_key);
        let ghost plain = headers@;
        headers.push(("Content-Type".to_owned(), "application/json".to_owned()));
        proof {
            assert(headers@.subrange(1, headers@.len() - 1) =~= plain.subrange(
                1,
                plain.len() as int,
            ));
        }
        headers
    }

    /// Parses a response body as a search response.
    pub fn parse_json(&self, body: &str) -> (r: Result<SearchResponse, SerperError>)
        ensures
            spec_json_parse(body@) is None ==> (r matches Err(e) && e is Json),
            spec_json_parse(body@) matches Some(v) ==> {
                &&& r is Ok <==> spec_response_ok(v)
                &&& (r matches Ok(resp) ==> spec_response_matches(v, resp))
                &&& (r matches Err(e) ==> e is Json)
            },
    {
        ResponseParser::parse_response(body)
    }
}

impl Default for HttpTransport {
    /// A transport with the default configuration.
    fn default() -> (r: Self)
        ensures
            r.config.timeout_secs == 30,
            r.config.user_agent@ == "serper-sdk/0.1.0"@,
    {
        HttpTransport { config: TransportConfig::new() }
    }
}

/// Builder for transports with custom configuration.
pub struct HttpTransportBuilder {
    /// The configuration collected so far.
    pub config: TransportConfig,
}

impl HttpTransportBuilder {
    /// Creates a builder starting from the default configuration.
    pub fn new() -> (r: Self)
        ensures
            r.config.timeout_secs == 30,
            r.config.user_agent@ == "serper-sdk/0.1.0"@,
    {
        HttpTransportBuilder { config: TransportConfig::new() }
    }

    /// Sets the request timeout, in seconds.
    pub fn timeout(self, timeout_secs: u64) -> (r: Self)
        ensures
            r.config.timeout_secs == timeout_secs,
            r.config.default_headers == self.config.default_headers,
            r.config.user_agent == self.config.user_agent,
    {
        HttpTransportBuilder { config: self.config.with_timeout(timeout_secs) }
    }

    /// Sets a default header, replacing any earlier value under the key.
    pub fn header(self, key: String, value: String) -> (r: Self)
        ensures
            r.config.default_headers@ == spec_assoc_without(self.config.default_headers@, key@)
                .push((key, value)),
            r.config.timeout_secs == self.config.timeout_secs,
            r.config.user_agent == self.config.user_agent,
    {
        HttpTransportBuilder { config: self.config.with_header(key, value) }
    }

    /// Sets the user agent.
    pub fn user_agent(self, user_agent: String) -> (r: Self)
        ensures
            r.config.user_agent == user_agent,
            r.config.timeout_secs == self.config.timeout_secs,
            r.config.default_headers == self.config.default_headers,
    {
        HttpTransportBuilder { config: self.config.with_user_agent(user_agent) }
    }

    /// Builds the transport.
    pub fn build(self) -> (r: Result<HttpTransport, SerperError>)
        ensures
            r matches Ok(t) && t.config == self.config,
    {
        HttpTransport::with_config(self.config)
    }
}

impl Default for HttpTransportBuilder {
    /// A builder starting from the default configuration.
    fn default() -> (r: Self)
        ensures
            r.config.timeout_secs == 30,
            r.config.user_agent@ == "serper-sdk/0.1.0"@,
    {
        HttpTransportBuilder::new()
    }
}

} // verus!
