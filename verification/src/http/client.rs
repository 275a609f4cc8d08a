//! The high-level client: prepares authenticated requests, interprets what
//! comes back, and aggregates batch outcomes.
//!
//! A round trip is split in two verified halves. `prepare_search` turns a
//! validated query into the exact request to send — URL, headers, JSON body.
//! `process_response` turns the raw answer — status code, reason phrase,
//! body text — into a decoded, structurally checked response or an error.
//! The unverified shell between the two only moves bytes.

use vstd::prelude::*;
use crate::error::SerperError;
use crate::http::transport::{
    HttpTransport, TransportConfig, spec_request_headers, spec_status_success,
    spec_status_message, check_status,
};
use crate::json::spec_json_parse;
use crate::search::query::{SearchQuery, spec_query_valid, spec_query_json};
use crate::search::response::{
    SearchResponse, ResponseParser, spec_response_ok, spec_response_matches,
    spec_response_sound, spec_decoded_sound, lemma_matches_sound,
};
use crate::types::{ApiKey, BaseUrl};

verus! {

/// One fully prepared outbound request: where to send it, with which
/// headers, and with what body.
#[derive(Debug)]
pub struct HttpRequest {
    /// The request URL.
    pub url: String,
    /// The request headers, in order.
    pub headers: Vec<(String, String)>,
    /// The JSON request body.
    pub body: String,
}

/// High-level client for the search API.
///
/// The client holds everything a request is built from: the transport
/// configuration, the API key, and the base URL.
#[derive(Debug, Clone)]
pub struct SerperHttpClient {
    /// The transport policy requests are built from.
    pub transport: HttpTransport,
    /// The API key sent with every request.
    pub api_key: ApiKey,
    /// The base URL of the service.
    pub base_url: BaseUrl,
}

impl SerperHttpClient {
    /// Creates a client for the default base URL with the default transport
    /// configuration.
    pub fn new(api_key: ApiKey) -> (r: Result<Self, SerperError>)
        ensures
            r matches Ok(c) && c.api_key == api_key
                && c.base_url.chars() == "https://google.serper.dev"@
                && c.transport.config.timeout_secs == 30
                && c.transport.config.user_agent@ == "serper-sdk/0.1.0"@,
    {
        let transport = match HttpTransport::new() {
            Ok(t) => t,
            Err(e) => { return Err(e); },
        };
        Ok(SerperHttpClient { transport, api_key, base_url: BaseUrl::new_default() })
    }

    /// Creates a client with a custom base URL and transport configuration.
    pub fn with_config(api_key: ApiKey, base_url: BaseUrl, config: TransportConfig) -> (r: Result<
        Self,
        SerperError,
    >)
        ensures
            r matches Ok(c) && c.api_key == api_key && c.base_url == base_url
                && c.transport.config == config,
    {
        let transport = match HttpTransport::with_config(config) {
            Ok(t) => t,
            Err(e) => { return Err(e); },
        };
        Ok(SerperHttpClient { transport, api_key, base_url })
    }

    /// Returns the API key.
    pub fn api_key(&self) -> (r: &ApiKey)
        ensures
            r == &self.api_key,
    {
        &self.api_key
    }

    /// Returns the base URL.
    pub fn base_url(&self) -> (r: &BaseUrl)
        ensures
            r == &self.base_url,
    {
        &self.base_url
    }

    /// Returns the transport configuration.
    pub fn transport_config(&self) -> (r: &TransportConfig)
        ensures
            r == &self.transport.config,
    {
        self.transport.config()
    }

    /// The URL that search requests go to: the search path under the base URL.
    pub fn search_url(&self) -> (r: String)
        ensures
            r@ == self.base_url.chars() + "/search"@,
    {
        let mut url = self.base_url.as_str().to_owned();
        url.append("/search");
        url
    }

    /// Prepares the outbound request for a query.
    ///
    /// Fails with the query's own validation error when the query is
    /// invalid; otherwise returns the search URL, the assembled headers, and
    /// the query framed as its JSON body.
    pub fn prepare_search(&self, query: &SearchQuery) -> (r: Result<HttpRequest, SerperError>)
        ensures
            r is Ok <==> spec_query_valid(*query),
            r matches Ok(req) ==> {
                &&& req.url@ == self.base_url.chars() + "/search"@
                &&& spec_request_headers(
                    self.transport.config.default_headers@,
                    self.api_key.chars(),
                    req.headers@,
                )
                &&& req.body@ == spec_query_json(*query)
            },
            r matches Err(e) ==> e is Validation,
    {
        match query.validate() {
            Ok(()) => {},
            Err(e) => { return Err(e); },
        }
        let url = self.search_url();
        let headers = self.transport.request_headers(&self.api_key);
        let body = query.to_json();
        Ok(HttpRequest { url, headers, body })
    }

    /// Interprets a raw HTTP answer: status mapping, body decoding, and the
    /// structural sanity checks, in that order.
    ///
    /// A non-success status becomes an API error carrying the code and the
    /// reason phrase; a body that is not valid JSON or not response-shaped a
    /// JSON error; a decoded response that fails the sanity checks a
    /// validation error.
    pub fn process_response(&self, status: u16, reason: Option<&str>, body: &str) -> (r: Result<
        SearchResponse,
        SerperError,
    >)
        ensures
            r is Ok ==> spec_status_success(status),
            !spec_status_success(status) ==> (r matches Err(e)
                && e matches SerperError::Api { message }
                && message@ == spec_status_message(status, match reason {
                    Some(t) => Some(t@),
                    None => None,
                })),
            (spec_status_success(status) && spec_json_parse(body@) is None) ==> (r matches Err(e)
                && e is Json),
            spec_status_success(status) ==> (spec_json_parse(body@) matches Some(v) ==> {
                &&& r is Ok <==> (spec_response_ok(v) && spec_decoded_sound(v))
                &&& (r matches Ok(resp) ==> spec_response_matches(v, resp)
                    && spec_response_sound(resp))
                &&& (r matches Err(e) ==> ((e is Json && !spec_response_ok(v)) || (e is Validation
                    && spec_response_ok(v) && !spec_decoded_sound(v))))
            }),
    {
        match check_status(status, reason) {
            Ok(()) => {},
            Err(e) => { return Err(e); },
        }
        let response = match self.transport.parse_json(body) {
            Ok(resp) => resp,
            Err(e) => { return Err(e); },
        };
        proof {
            lemma_matches_sound(spec_json_parse(body@)->0, response);
        }
        match ResponseParser::validate_response(&response) {
            Ok(()) => Ok(response),
            Err(e) => Err(e),
        }
    }

    /// Gathers the per-query outcomes of a batch into one all-or-nothing
    /// result: every response, in query order, or the first error.
    #[verifier::loop_isolation(false)]
    pub fn collect_results(results: Vec<Result<SearchResponse, SerperError>>) -> (r: Result<
        Vec<SearchResponse>,
        SerperError,
    >)
        ensures
            r is Ok <==> (forall|i: int| 0 <= i < results@.len() ==> (#[trigger] results@[i]) is Ok),
            r matches Ok(list) ==> list@.len() == results@.len()
                && (forall|i: int| 0 <= i < results@.len()
                    ==> ((#[trigger] results@[i]) matches Ok(resp) && list@[i] == resp)),
            r matches Err(e) ==> exists|i: int|
                0 <= i < results@.len() && (#[trigger] results@[i]) == Err::<
                    SearchResponse,
                    SerperError,
                >(e) && (forall|j: int| 0 <= j < i ==> (#[trigger] results@[j]) is Ok),
    {
        let ghost orig = results@;
        let mut rem = results;
        let mut out: Vec<SearchResponse> = Vec::new();
        while rem.len() > 0
            invariant
                out@.len() + rem@.len() == orig.len(),
                rem@ =~= orig.skip(out@.len() as int),
                forall|i: int| 0 <= i < out@.len()
                    ==> ((#[trigger] orig[i]) matches Ok(resp) && out@[i] == resp),
            decreases rem@.len(),
        {
            let ghost k = out@.len() as int;
            let v = rem.remove(0);
            proof {
                assert(v == orig[k]);
                assert(rem@ =~= orig.skip(k + 1));
            }
            match v {
                Ok(resp) => out.push(resp),
                Err(e) => {
                    proof {
                        assert(orig[k] == Err::<SearchResponse, SerperError>(e));
                    }
                    return Err(e);
                },
            }
        }
        Ok(out)
    }
}

/// Builder for clients with custom configuration.
pub struct SerperHttpClientBuilder {
    /// The API key collected so far.
    pub api_key: Option<ApiKey>,
    /// The base URL collected so far.
    pub base_url: Option<BaseUrl>,
    /// The transport configuration collected so far.
    pub transport_config: TransportConfig,
}

impl SerperHttpClientBuilder {
    /// Creates a builder with the default transport configuration and no key.
    pub fn new() -> (r: Self)
        ensures
            r.api_key is None && r.base_url is None,
            r.transport_config.timeout_secs == 30,
            r.transport_config.user_agent@ == "serper-sdk/0.1.0"@,
    {
        SerperHttpClientBuilder {
            api_key: None,
            base_url: None,
            transport_config: TransportConfig::new(),
        }
    }

    /// Sets the API key.
    pub fn api_key(self, api_key: ApiKey) -> (r: Self)
        ensures
            r.api_key == Some(api_key),
            r.base_url == self.base_url && r.transport_config == self.transport_config,
    {
        SerperHttpClientBuilder { api_key: Some(api_key), ..self }
    }

    /// Sets the base URL.
    pub fn base_url(self, base_url: BaseUrl) -> (r: Self)
        ensures
            r.base_url == Some(base_url),
            r.api_key == self.api_key && r.transport_config == self.transport_config,
    {
        SerperHttpClientBuilder { base_url: Some(base_url), ..self }
    }

    /// Sets the whole transport configuration.
    pub fn transport_config(self, config: TransportConfig) -> (r: Self)
        ensures
            r.transport_config == config,
            r.api_key == self.api_key && r.base_url == self.base_url,
    {
        SerperHttpClientBuilder { transport_config: config, ..self }
    }

    /// Sets the request timeout, in seconds.
    pub fn timeout(self, timeout_secs: u64) -> (r: Self)
        ensures
            r.transport_config.timeout_secs == timeout_secs,
            r.transport_config.default_headers == self.transport_config.default_headers,
            r.transport_config.user_agent == self.transport_config.user_agent,
            r.api_key == self.api_key && r.base_url == self.base_url,
    {
        SerperHttpClientBuilder {
            transport_config: self.transport_config.with_timeout(timeout_secs),
            ..self
        }
    }

    /// Sets a default header, replacing any earlier value under the key.
    pub fn header(self, key: String, value: String) -> (r: Self)
        ensures
            r.transport_config.default_headers@ == crate::utils::collections::spec_assoc_without(
                self.transport_config.default_headers@,
                key@,
            ).push((key, value)),
            r.transport_config.timeout_secs == self.transport_config.timeout_secs,
            r.transport_config.user_agent == self.transport_config.user_agent,
            r.api_key == self.api_key && r.base_url == self.base_url,
    {
        SerperHttpClientBuilder {
            transport_config: self.transport_config.with_header(key, value),
            ..self
        }
    }

    /// Builds the client.
    ///
    /// Fails with a configuration error exactly when no API key was set;
    /// without a base URL the default one is used.
    pub fn build(self) -> (r: Result<SerperHttpClient, SerperError>)
        ensures
            r is Ok <==> self.api_key is Some,
            r matches Ok(c) ==> {
                &&& Some(c.api_key) == self.api_key
                &&& c.base_url.chars() == (match self.base_url {
                    Some(b) => b.chars(),
                    None => "https://google.serper.dev"@,
                })
                &&& c.transport.config == self.transport_config
            },
            r matches Err(e) ==> e matches SerperError::Config { message }
                && message@ == "API key is required"@,
    {
        let api_key = match self.api_key {
            Some(k) => k,
            None => {
                return Err(SerperError::Config { message: "API key is required".to_owned() });
            },
        };
        let base_url = match self.base_url {
            Some(b) => b,
            None => BaseUrl::new_default(),
        };
        SerperHttpClient::with_config(api_key, base_url, self.transport_config)
    }
}

impl Default for SerperHttpClientBuilder {
    /// A builder with the default transport configuration and no key.
    fn default() -> (r: Self)
        ensures
            r.api_key is None && r.base_url is None,
            r.transport_config.timeout_secs == 30,
    {
        SerperHttpClientBuilder::new()
    }
}

} // verus!
