//! Core data types: API keys, base URLs, and common parameter bundles.

use vstd::prelude::*;
use crate::error::SerperError;
use crate::utils::string::spec_is_blank;
use crate::utils::string::is_blank;

verus! {

/// An API key for the search service. A key is never blank.
#[derive(Debug, Clone)]
pub struct ApiKey(String);

impl ApiKey {
    /// The characters of the key.
    pub closed spec fn chars(&self) -> Seq<char> {
        self.0@
    }

    /// What a well-formed key holds: at least one non-white-space character.
    pub open spec fn wf(&self) -> bool {
        !spec_is_blank(self.chars())
    }

    /// Creates a new API key from a string.
    ///
    /// Fails with `InvalidApiKey` exactly when the string is empty or blank;
    /// otherwise the key stores the string unchanged.
    pub fn new(key: String) -> (r: Result<Self, SerperError>)
        ensures
            r is Ok <==> !spec_is_blank(key@),
            r matches Ok(k) ==> k.chars() == key@ && k.wf(),
            r matches Err(e) ==> e is InvalidApiKey,
    {
        if is_blank(key.as_str()) {
            return Err(SerperError::InvalidApiKey);
        }
        Ok(ApiKey(key))
    }

    /// Returns the key as a string reference.
    pub fn as_str(&self) -> (r: &str)
        ensures
            r@ == self.chars(),
    {
        self.0.as_str()
    }

    /// Consumes the key and returns the inner string.
    pub fn into_string(self) -> (r: String)
        ensures
            r@ == self.chars(),
    {
        self.0
    }
}

/// A base URL for API requests.
#[derive(Debug, Clone)]
pub struct BaseUrl(String);

impl BaseUrl {
    /// The characters of the URL.
    pub closed spec fn chars(&self) -> Seq<char> {
        self.0@
    }

    /// Creates a new base URL.
    pub fn new(url: String) -> (r: Self)
        ensures
            r.chars() == url@,
    {
        BaseUrl(url)
    }

    /// Returns the URL as a string reference.
    pub fn as_str(&self) -> (r: &str)
        ensures
            r@ == self.chars(),
    {
        self.0.as_str()
    }

    /// Returns the default base URL of the search service.
    pub fn new_default() -> (r: Self)
        ensures
            r.chars() == "https://google.serper.dev"@,
    {
        BaseUrl("https://google.serper.dev".to_owned())
    }
}

impl Default for BaseUrl {
    /// The default base URL of the search service.
    fn default() -> (r: Self)
        ensures
            r.chars() == "https://google.serper.dev"@,
    {
        BaseUrl::new_default()
    }
}

/// Pagination parameters that can be applied to a query.
#[derive(Debug, Clone, PartialEq)]
pub struct Pagination {
    /// Page number (1-based).
    pub page: Option<u32>,
    /// Number of results per page.
    pub num_results: Option<u32>,
}

impl Pagination {
    /// Creates new pagination with no values set.
    pub fn new() -> (r: Self)
        ensures
            r.page is None && r.num_results is None,
    {
        Pagination { page: None, num_results: None }
    }

    /// Sets the page number.
    pub fn with_page(self, page: u32) -> (r: Self)
        ensures
            r.page == Some(page),
            r.num_results == self.num_results,
    {
        Pagination { page: Some(page), ..self }
    }

    /// Sets the number of results per page.
    pub fn with_num_results(self, num: u32) -> (r: Self)
        ensures
            r.num_results == Some(num),
            r.page == self.page,
    {
        Pagination { num_results: Some(num), ..self }
    }
}

impl Default for Pagination {
    /// Pagination with no values set.
    fn default() -> (r: Self)
        ensures
            r.page is None && r.num_results is None,
    {
        Pagination::new()
    }
}

/// Geographical location parameters that can be applied to a query.
#[derive(Debug, Clone, PartialEq)]
pub struct Location {
    /// Human-readable location, for example a city and a country.
    pub location: Option<String>,
    /// Country code, for example a two-letter code.
    pub country_code: Option<String>,
    /// Language code.
    pub language_code: Option<String>,
}

impl Location {
    /// Creates a new location with no values set.
    pub fn new() -> (r: Self)
        ensures
            r.location is None && r.country_code is None && r.language_code is None,
    {
        Location { location: None, country_code: None, language_code: None }
    }

    /// Sets the location string.
    pub fn with_location(self, location: String) -> (r: Self)
        ensures
            r.location == Some(location),
            r.country_code == self.country_code,
            r.language_code == self.language_code,
    {
        Location { location: Some(location), ..self }
    }

    /// Sets the country code.
    pub fn with_country(self, country: String) -> (r: Self)
        ensures
            r.country_code == Some(country),
            r.location == self.location,
            r.language_code == self.language_code,
    {
        Location { country_code: Some(country), ..self }
    }

    /// Sets the language code.
    pub fn with_language(self, language: String) -> (r: Self)
        ensures
            r.language_code == Some(language),
            r.location == self.location,
            r.country_code == self.country_code,
    {
        Location { language_code: Some(language), ..self }
    }
}

impl Default for Location {
    /// A location with no values set.
    fn default() -> (r: Self)
        ensures
            r.location is None && r.country_code is None && r.language_code is None,
    {
        Location::new()
    }
}

} // verus!
