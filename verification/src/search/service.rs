//! The search service: the facade that composes query building, request
//! preparation, and response interpretation.
//!
//! The service holds the client that requests are built from. The network
//! round trip itself is asynchronous I/O and is driven by the unverified
//! shell, which calls `prepare_search` for what to send, performs the send,
//! and hands status, reason and body to `process_response`; batch outcomes
//! are gathered with `collect_results`.

use vstd::prelude::*;
use crate::error::SerperError;
use crate::http::client::{SerperHttpClient, HttpRequest};
use crate::http::transport::{
    TransportConfig, spec_request_headers, spec_status_success, spec_status_message,
};
use crate::json::spec_json_parse;
use crate::search::query::{SearchQuery, SearchQueryBuilder, spec_query_valid, spec_query_json};
use crate::search::response::{
    SearchResponse, spec_response_ok, spec_response_matches, spec_response_sound,
    spec_decoded_sound,
};
use crate::types::{ApiKey, BaseUrl};
use crate::utils::string::spec_is_blank;

verus! {

/// The main search service.
#[derive(Debug, Clone)]
pub struct SearchService {
    /// The client that every request is built from.
    pub http_client: SerperHttpClient,
}

impl SearchService {
    /// Creates a service for the default base URL.
    ///
    /// Fails with `InvalidApiKey` exactly when the key is empty or blank.
    pub fn new(api_key: String) -> (r: Result<Self, SerperError>)
        ensures
            r is Ok <==> !spec_is_blank(api_key@),
            r matches Ok(s) ==> {
                &&& s.http_client.api_key.chars() == api_key@
                &&& s.http_client.base_url.chars() == "https://google.serper.dev"@
                &&& s.http_client.transport.config.timeout_secs == 30
                &&& s.http_client.transport.config.user_agent@ == "serper-sdk/0.1.0"@
            },
            r matches Err(e) ==> e is InvalidApiKey,
    {
        let api_key = match ApiKey::new(api_key) {
            Ok(k) => k,
            Err(e) => { return Err(e); },
        };
        let http_client = match SerperHttpClient::new(api_key) {
            Ok(c) => c,
            Err(e) => { return Err(e); },
        };
        Ok(SearchService { http_client })
    }

    /// Creates a service with a custom base URL and transport configuration.
    ///
    /// Fails with `InvalidApiKey` exactly when the key is empty or blank.
    pub fn with_config(api_key: String, base_url: String, config: TransportConfig) -> (r: Result<
        Self,
        SerperError,
    >)
        ensures
            r is Ok <==> !spec_is_blank(api_key@),
            r matches Ok(s) ==> {
                &&& s.http_client.api_key.chars() == api_key@
                &&& s.http_client.base_url.chars() == base_url@
                &&& s.http_client.transport.config == config
            },
            r matches Err(e) ==> e is InvalidApiKey,
    {
        let api_key = match ApiKey::new(api_key) {
            Ok(k) => k,
            Err(e) => { return Err(e); },
        };
        let base_url = BaseUrl::new(base_url);
        let http_client = match SerperHttpClient::with_config(api_key, base_url, config) {
            Ok(c) => c,
            Err(e) => { return Err(e); },
        };
        Ok(SearchService { http_client })
    }

    /// Prepares the outbound request for a query: validation, URL, headers,
    /// and the JSON body.
    pub fn prepare_search(&self, query: &SearchQuery) -> (r: Result<HttpRequest, SerperError>)
        ensures
            r is Ok <==> spec_query_valid(*query),
            r matches Ok(req) ==> {
                &&& req.url@ == self.http_client.base_url.chars() + "/search"@
                &&& spec_request_headers(
                    self.http_client.transport.config.default_headers@,
                    self.http_client.api_key.chars(),
                    req.headers@,
                )
                &&& req.body@ == spec_query_json(*query)
            },
            r matches Err(e) ==> e is Validation,
    {
        self.http_client.prepare_search(query)
    }

    /// Interprets a raw HTTP answer: the status mapping, the body decoding,
    /// and the structural sanity checks over the decoded response.
    pub fn process_response(&self, status: u16, reason: Option<&str>, body: &str) -> (r: Result<
        SearchResponse,
        SerperError,
    >)
        ensures
            r is Ok ==> spec_status_success(status),
            !spec_status_success(status) ==> (r matches Err(e)
                && e matches SerperError::Api { message }
                && message@ == spec_status_message(status, match reason {
                    Some(t) => Some(t@),
                    None => None,
                })),
            (spec_status_success(status) && spec_json_parse(body@) is None) ==> (r matches Err(e)
                && e is Json),
            spec_status_success(status) ==> (spec_json_parse(body@) matches Some(v) ==> {
                &&& r is Ok <==> (spec_response_ok(v) && spec_decoded_sound(v))
                &&& (r matches Ok(resp) ==> spec_response_matches(v, resp)
                    && spec_response_sound(resp))
                &&& (r matches Err(e) ==> ((e is Json && !spec_response_ok(v)) || (e is Validation
                    && spec_response_ok(v) && !spec_decoded_sound(v))))
            }),
    {
        self.http_client.process_response(status, reason, body)
    }

    /// Gathers the per-query outcomes of a batch into one all-or-nothing
    /// result: every response, in query order, or the first error.
    pub fn collect_results(results: Vec<Result<SearchResponse, SerperError>>) -> (r: Result<
        Vec<SearchResponse>,
        SerperError,
    >)
        ensures
            r is Ok <==> (forall|i: int| 0 <= i < results@.len() ==> (#[trigger] results@[i]) is Ok),
            r matches Ok(list) ==> list@.len() == results@.len()
                && (forall|i: int| 0 <= i < results@.len()
                    ==> ((#[trigger] results@[i]) matches Ok(resp) && list@[i] == resp)),
            r matches Err(e) ==> exists|i: int|
                0 <= i < results@.len() && (#[trigger] results@[i]) == Err::<
                    SearchResponse,
                    SerperError,
                >(e) && (forall|j: int| 0 <= j < i ==> (#[trigger] results@[j]) is Ok),
    {
        SerperHttpClient::collect_results(results)
    }

    /// Creates a new query builder.
    pub fn query_builder(&self) -> (r: SearchQueryBuilder)
        ensures
            r.query is None && r.location is None && r.country is None,
            r.language is None && r.page is None && r.num_results is None,
    {
        SearchQueryBuilder::new()
    }

    /// Returns a summary of the service configuration.
    pub fn info(&self) -> (r: SearchServiceInfo)
        ensures
            r.base_url@ == self.http_client.base_url.chars(),
            r.timeout_secs == self.http_client.transport.config.timeout_secs,
            r.user_agent@ == self.http_client.transport.config.user_agent@,
    {
        SearchServiceInfo {
            base_url: self.http_client.base_url.as_str().to_owned(),
            timeout_secs: self.http_client.transport.config.timeout_secs,
            user_agent: self.http_client.transport.config.user_agent.clone(),
        }
    }
}

/// A summary of a service's configuration.
#[derive(Debug, Clone)]
pub struct SearchServiceInfo {
    /// The base URL used for API requests.
    pub base_url: String,
    /// The request timeout, in seconds.
    pub timeout_secs: u64,
    /// The user agent string.
    pub user_agent: String,
}

/// Builder for search services.
pub struct SearchServiceBuilder {
    /// The API key collected so far.
    pub api_key: Option<String>,
    /// The base URL collected so far.
    pub base_url: Option<String>,
    /// The transport configuration collected so far.
    pub transport_config: TransportConfig,
}

impl SearchServiceBuilder {
    /// Creates a builder with the default transport configuration.
    pub fn new() -> (r: Self)
        ensures
            r.api_key is None && r.base_url is None,
            r.transport_config.timeout_secs == 30,
            r.transport_config.user_agent@ == "serper-sdk/0.1.0"@,
    {
        SearchServiceBuilder {
            api_key: None,
            base_url: None,
            transport_config: TransportConfig::new(),
        }
    }

    /// Sets the API key.
    pub fn api_key(self, api_key: &str) -> (r: Self)
        ensures
            r.api_key matches Some(k) && k@ == api_key@,
            r.base_url == self.base_url && r.transport_config == self.transport_config,
    {
        SearchServiceBuilder { api_key: Some(api_key.to_owned()), ..self }
    }

    /// Sets the base URL.
    pub fn base_url(self, base_url: &str) -> (r: Self)
        ensures
            r.base_url matches Some(u) && u@ == base_url@,
            r.api_key == self.api_key && r.transport_config == self.transport_config,
    {
        SearchServiceBuilder { base_url: Some(base_url.to_owned()), ..self }
    }

    /// Sets the request timeout, in seconds.
    pub fn timeout(self, timeout_secs: u64) -> (r: Self)
        ensures
            r.transport_config.timeout_secs == timeout_secs,
            r.transport_config.default_headers == self.transport_config.default_headers,
            r.transport_config.user_agent == self.transport_config.user_agent,
            r.api_key == self.api_key && r.base_url == self.base_url,
    {
        SearchServiceBuilder {
            transport_config: self.transport_config.with_timeout(timeout_secs),
            ..self
        }
    }

    /// Sets a default header, replacing any earlier value under the key.
    pub fn header(self, key: &str, value: &str) -> (r: Self)
        ensures
            r.transport_config.timeout_secs == self.transport_config.timeout_secs,
            r.transport_config.user_agent == self.transport_config.user_agent,
            r.transport_config.default_headers@.len()
                == crate::utils::collections::spec_assoc_without(
                self.transport_config.default_headers@,
                key@,
            ).len() + 1,
            r.transport_config.default_headers@.subrange(
                0,
                r.transport_config.default_headers@.len() - 1,
            ) == crate::utils::collections::spec_assoc_without(
                self.transport_config.default_headers@,
                key@,
            ),
            r.transport_config.default_headers@.last().0@ == key@
                && r.transport_config.default_headers@.last().1@ == value@,
            r.api_key == self.api_key && r.base_url == self.base_url,
    {
        SearchServiceBuilder {
            transport_config: self.transport_config.with_header(key.to_owned(), value.to_owned()),
            ..self
        }
    }

    /// Sets the user agent.
    pub fn user_agent(self, user_agent: &str) -> (r: Self)
        ensures
            r.transport_config.user_agent@ == user_agent@,
            r.transport_config.timeout_secs == self.transport_config.timeout_secs,
            r.transport_config.default_headers == self.transport_config.default_headers,
            r.api_key == self.api_key && r.base_url == self.base_url,
    {
        SearchServiceBuilder {
            transport_config: self.transport_config.with_user_agent(user_agent.to_owned()),
            ..self
        }
    }

    /// Builds the service.
    ///
    /// Fails with a configuration error when no API key was collected, and
    /// with `InvalidApiKey` when the collected key is blank; without a base
    /// URL the default one is used.
    pub fn build(self) -> (r: Result<SearchService, SerperError>)
        ensures
            r is Ok <==> (self.api_key matches Some(k) && !spec_is_blank(k@)),
            r matches Ok(s) ==> {
                &&& (self.api_key matches Some(k) && s.http_client.api_key.chars() == k@)
                &&& s.http_client.base_url.chars() == (match self.base_url {
                    Some(u) => u@,
                    None => "https://google.serper.dev"@,
                })
                &&& s.http_client.transport.config == self.transport_config
            },
            r matches Err(e) ==> e is Config || e is InvalidApiKey,
            self.api_key is None ==> (r matches Err(e)
                && e matches SerperError::Config { message }
                && message@ == "API key is required"@),
    {
        let api_key = match self.api_key {
            Some(k) => k,
            None => {
                return Err(SerperError::Config { message: "API key is required".to_owned() });
            },
        };
        match self.base_url {
            Some(base_url) => SearchService::with_config(api_key, base_url, self.transport_config),
            None => {
                let key = match ApiKey::new(api_key) {
                    Ok(k) => k,
                    Err(e) => { return Err(e); },
                };
                let http_client = match SerperHttpClient::with_config(
                    key,
                    BaseUrl::new_default(),
                    self.transport_config,
                ) {
                    Ok(c) => c,
                    Err(e) => { return Err(e); },
                };
                Ok(SearchService { http_client })
            },
        }
    }
}

impl Default for SearchServiceBuilder {
    /// A builder with the default transport configuration and no key.
    fn default() -> (r: Self)
        ensures
            r.api_key is None && r.base_url is None,
            r.transport_config.timeout_secs == 30,
    {
        SearchServiceBuilder::new()
    }
}

} // verus!
