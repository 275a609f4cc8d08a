//! Search query construction, validation, and request-body framing.

use vstd::prelude::*;
use crate::error::SerperError;
use crate::json::{spec_escape, append_escaped};
use crate::types::{Location, Pagination};
use crate::utils::string::{spec_is_blank, spec_decimal, is_blank, decimal_string};

verus! {

/// A search query with all possible parameters.
///
/// Only the query text is required; the other parameters are optional and
/// are left out of the request body when absent.
#[derive(Debug, Clone, PartialEq)]
pub struct SearchQuery {
    /// The search query string (required, never blank on a validated query).
    pub q: String,
    /// Optional location specification.
    pub location: Option<String>,
    /// Optional country code (the `gl` parameter).
    pub gl: Option<String>,
    /// Optional language code (the `hl` parameter).
    pub hl: Option<String>,
    /// Optional page number, 1-based.
    pub page: Option<u32>,
    /// Optional number of results per page.
    pub num: Option<u32>,
}

/// A query is valid when its text is not blank, its page, when present, is
/// at least 1, and its result count, when present, lies in `[1, 100]`.
pub open spec fn spec_query_valid(q: SearchQuery) -> bool {
    &&& !spec_is_blank(q.q@)
    &&& (q.page matches Some(p) ==> p >= 1)
    &&& (q.num matches Some(n) ==> 1 <= n && n <= 100)
}

/// The JSON request body of a query: the `q` field always, each optional
/// field exactly when it is set, in the order `q`, `location`, `gl`, `hl`,
/// `page`, `num`, with string values escaped.
pub open spec fn spec_query_json(q: SearchQuery) -> Seq<char> {
    "{\"q\":\""@ + spec_escape(q.q@) + "\""@ + (match q.location {
        Some(l) => ",\"location\":\""@ + spec_escape(l@) + "\""@,
        None => Seq::<char>::empty(),
    }) + (match q.gl {
        Some(g) => ",\"gl\":\""@ + spec_escape(g@) + "\""@,
        None => Seq::<char>::empty(),
    }) + (match q.hl {
        Some(h) => ",\"hl\":\""@ + spec_escape(h@) + "\""@,
        None => Seq::<char>::empty(),
    }) + (match q.page {
        Some(p) => ",\"page\":"@ + spec_decimal(p as nat),
        None => Seq::<char>::empty(),
    }) + (match q.num {
        Some(n) => ",\"num\":"@ + spec_decimal(n as nat),
        None => Seq::<char>::empty(),
    }) + "}"@
}

impl SearchQuery {
    /// Creates a new query with the given text and no optional parameters.
    ///
    /// Fails with a validation error exactly when the text is empty or
    /// blank; otherwise the text is stored unchanged, untrimmed.
    pub fn new(query: String) -> (r: Result<Self, SerperError>)
        ensures
            r is Ok <==> !spec_is_blank(query@),
            r matches Ok(q) ==> q == (SearchQuery {
                q: query,
                location: None,
                gl: None,
                hl: None,
                page: None,
                num: None,
            }),
            r matches Err(e) ==> e matches SerperError::Validation { message }
                && message@ == "Query string cannot be empty"@,
    {
        if is_blank(query.as_str()) {
            return Err(SerperError::Validation {
                message: "Query string cannot be empty".to_owned(),
            });
        }
        Ok(SearchQuery { q: query, location: None, gl: None, hl: None, page: None, num: None })
    }

    /// Sets the location of the query.
    pub fn with_location(self, location: String) -> (r: Self)
        ensures
            r == (SearchQuery { location: Some(location), ..self }),
    {
        SearchQuery { location: Some(location), ..self }
    }

    /// Sets the country code of the query.
    pub fn with_country(self, country: String) -> (r: Self)
        ensures
            r == (SearchQuery { gl: Some(country), ..self }),
    {
        SearchQuery { gl: Some(country), ..self }
    }

    /// Sets the language code of the query.
    pub fn with_language(self, language: String) -> (r: Self)
        ensures
            r == (SearchQuery { hl: Some(language), ..self }),
    {
        SearchQuery { hl: Some(language), ..self }
    }

    /// Sets the page number of the query.
    pub fn with_page(self, page: u32) -> (r: Self)
        ensures
            r == (SearchQuery { page: Some(page), ..self }),
    {
        SearchQuery { page: Some(page), ..self }
    }

    /// Sets the number of results per page.
    pub fn with_num_results(self, num: u32) -> (r: Self)
        ensures
            r == (SearchQuery { num: Some(num), ..self }),
    {
        SearchQuery { num: Some(num), ..self }
    }

    /// Applies every value set in a [`Location`] to the query.
    pub fn with_location_config(self, location: Location) -> (r: Self)
        ensures
            r.q == self.q && r.page == self.page && r.num == self.num,
            r.location == (if location.location is Some { location.location } else { self.location }),
            r.gl == (if location.country_code is Some { location.country_code } else { self.gl }),
            r.hl == (if location.language_code is Some { location.language_code } else { self.hl }),
    {
        let mut result = self;
        if let Some(loc) = location.location {
            result.location = Some(loc);
        }
        if let Some(country) = location.country_code {
            result.gl = Some(country);
        }
        if let Some(language) = location.language_code {
            result.hl = Some(language);
        }
        result
    }

    /// Applies every value set in a [`Pagination`] to the query.
    pub fn with_pagination(self, pagination: Pagination) -> (r: Self)
        ensures
            r.q == self.q && r.location == self.location && r.gl == self.gl && r.hl == self.hl,
            r.page == (if pagination.page is Some { pagination.page } else { self.page }),
            r.num == (if pagination.num_results is Some { pagination.num_results } else { self.num }),
    {
        let mut result = self;
        if let Some(page) = pagination.page {
            result.page = Some(page);
        }
        if let Some(num) = pagination.num_results {
            result.num = Some(num);
        }
        result
    }

    /// Validates the query parameters.
    ///
    /// Succeeds exactly when the text is not blank, the page, when present,
    /// is at least 1, and the result count, when present, is in `[1, 100]`.
    pub fn validate(&self) -> (r: Result<(), SerperError>)
        ensures
            r is Ok <==> spec_query_valid(*self),
            r matches Err(e) ==> e is Validation,
            spec_is_blank(self.q@) ==> (r matches Err(e)
                && e matches SerperError::Validation { message }
                && message@ == "Query string cannot be empty"@),
            !spec_is_blank(self.q@) && self.page == Some(0u32) ==> (r matches Err(e)
                && e matches SerperError::Validation { message }
                && message@ == "Page number must be greater than 0"@),
    {
        if is_blank(self.q.as_str()) {
            return Err(SerperError::Validation {
                message: "Query string cannot be empty".to_owned(),
            });
        }
        if let Some(page) = self.page {
            if page == 0 {
                return Err(SerperError::Validation {
                    message: "Page number must be greater than 0".to_owned(),
                });
            }
        }
        if let Some(num) = self.num {
            if num == 0 || num > 100 {
                return Err(SerperError::Validation {
                    message: "Number of results must be between 1 and 100".to_owned(),
                });
            }
        }
        Ok(())
    }

    /// Returns the query text.
    pub fn query(&self) -> (r: &str)
        ensures
            r@ == self.q@,
    {
        self.q.as_str()
    }

    /// Checks whether any location parameter is set.
    pub fn has_location_params(&self) -> (r: bool)
        ensures
            r == (self.location is Some || self.gl is Some || self.hl is Some),
    {
        self.location.is_some() || self.gl.is_some() || self.hl.is_some()
    }

    /// Checks whether any pagination parameter is set.
    pub fn has_pagination_params(&self) -> (r: bool)
        ensures
            r == (self.page is Some || self.num is Some),
    {
        self.page.is_some() || self.num.is_some()
    }

    /// Frames the query as its JSON request body.
    ///
    /// The body holds the `q` field always and each optional field exactly
    /// when it is set, under the wire names `q`, `location`, `gl`, `hl`,
    /// `page` and `num`, in that order.
    #[verifier::rlimit(50)]
    pub fn to_json(&self) -> (r: String)
        ensures
            r@ == spec_query_json(*self),
    {
        let ghost part_q = "{\"q\":\""@ + spec_escape(self.q@) + "\""@;
        let ghost part_location = part_q + (match &self.location {
            Some(l) => ",\"location\":\""@ + spec_escape(l@) + "\""@,
            None => Seq::<char>::empty(),
        });
        let ghost part_gl = part_location + (match &self.gl {
            Some(g) => ",\"gl\":\""@ + spec_escape(g@) + "\""@,
            None => Seq::<char>::empty(),
        });
        let ghost part_hl = part_gl + (match &self.hl {
            Some(h) => ",\"hl\":\""@ + spec_escape(h@) + "\""@,
            None => Seq::<char>::empty(),
        });
        let ghost part_page = part_hl + (match self.page {
            Some(p) => ",\"page\":"@ + spec_decimal(p as nat),
            None => Seq::<char>::empty(),
        });
        let ghost part_num = part_page + (match self.num {
            Some(n) => ",\"num\":"@ + spec_decimal(n as nat),
            None => Seq::<char>::empty(),
        });
        let mut out = String::new();
        out.append("{\"q\":\"");
        append_escaped(&mut out, self.q.as_str());
        out.append("\"");
        assert(out@ =~= part_q);
        if let Some(location) = &self.location {
            out.append(",\"location\":\"");
            append_escaped(&mut out, location.as_str());
            out.append("\"");
        }
        assert(out@ =~= part_location);
        if let Some(gl) = &self.gl {
            out.append(",\"gl\":\"");
            append_escaped(&mut out, gl.as_str());
            out.append("\"");
        }
        assert(out@ =~= part_gl);
        if let Some(hl) = &self.hl {
            out.append(",\"hl\":\"");
            append_escaped(&mut out, hl.as_str());
            out.append("\"");
        }
        assert(out@ =~= part_hl);
        if let Some(page) = self.page {
            out.append(",\"page\":");
            let digits = decimal_string(page as u64);
            out.append(digits.as_str());
        }
        assert(out@ =~= part_page);
        if let Some(num) = self.num {
            out.append(",\"num\":");
            let digits = decimal_string(num as u64);
            out.append(digits.as_str());
        }
        assert(out@ =~= part_num);
        out.append("}");
        assert(out@ =~= spec_query_json(*self));
        out
    }
}

/// A builder that collects query parameters across calls and produces a
/// validated [`SearchQuery`].
#[derive(Debug)]
pub struct SearchQueryBuilder {
    /// The query text collected so far.
    pub query: Option<String>,
    /// The location collected so far.
    pub location: Option<String>,
    /// The country code collected so far.
    pub country: Option<String>,
    /// The language code collected so far.
    pub language: Option<String>,
    /// The page number collected so far.
    pub page: Option<u32>,
    /// The result count collected so far.
    pub num_results: Option<u32>,
}

/// What `build` asks of the collected parameters: a query text was supplied
/// and is not blank, and page and result count, where supplied, are in range.
pub open spec fn spec_builder_ok(b: SearchQueryBuilder) -> bool {
    &&& b.query is Some
    &&& !spec_is_blank(b.query->0@)
    &&& (b.page matches Some(p) ==> p >= 1)
    &&& (b.num_results matches Some(n) ==> 1 <= n && n <= 100)
}

impl SearchQueryBuilder {
    /// Creates a new builder with nothing collected.
    pub fn new() -> (r: Self)
        ensures
            r.query is None && r.location is None && r.country is None,
            r.language is None && r.page is None && r.num_results is None,
    {
        SearchQueryBuilder {
            query: None,
            location: None,
            country: None,
            language: None,
            page: None,
            num_results: None,
        }
    }

    /// Sets the query text.
    pub fn query(self, query: &str) -> (r: Self)
        ensures
            r.query matches Some(s) && s@ == query@,
            r.location == self.location && r.country == self.country
                && r.language == self.language && r.page == self.page
                && r.num_results == self.num_results,
    {
        SearchQueryBuilder { query: Some(query.to_owned()), ..self }
    }

    /// Sets the location.
    pub fn location(self, location: &str) -> (r: Self)
        ensures
            r.location matches Some(s) && s@ == location@,
            r.query == self.query && r.country == self.country
                && r.language == self.language && r.page == self.page
                && r.num_results == self.num_results,
    {
        SearchQueryBuilder { location: Some(location.to_owned()), ..self }
    }

    /// Sets the country code.
    pub fn country(self, country: &str) -> (r: Self)
        ensures
            r.country matches Some(s) && s@ == country@,
            r.query == self.query && r.location == self.location
                && r.language == self.language && r.page == self.page
                && r.num_results == self.num_results,
    {
        SearchQueryBuilder { country: Some(country.to_owned()), ..self }
    }

    /// Sets the language code.
    pub fn language(self, language: &str) -> (r: Self)
        ensures
            r.language matches Some(s) && s@ == language@,
            r.query == self.query && r.location == self.location
                && r.country == self.country && r.page == self.page
                && r.num_results == self.num_results,
    {
        SearchQueryBuilder { language: Some(language.to_owned()), ..self }
    }

    /// Sets the page number.
    pub fn page(self, page: u32) -> (r: Self)
        ensures
            r.page == Some(page),
            r.query == self.query && r.location == self.location
                && r.country == self.country && r.language == self.language
                && r.num_results == self.num_results,
    {
        SearchQueryBuilder { page: Some(page), ..self }
    }

    /// Sets the number of results.
    pub fn num_results(self, num: u32) -> (r: Self)
        ensures
            r.num_results == Some(num),
            r.query == self.query && r.location == self.location
                && r.country == self.country && r.language == self.language
                && r.page == self.page,
    {
        SearchQueryBuilder { num_results: Some(num), ..self }
    }

    /// Builds the query, validating it.
    ///
    /// Fails with a validation error when no query text was supplied, when
    /// the text is blank, or when a supplied page or result count is out of
    /// range; otherwise returns the query holding exactly the collected
    /// parameters.
    pub fn build(self) -> (r: Result<SearchQuery, SerperError>)
        ensures
            r is Ok <==> spec_builder_ok(self),
            r matches Ok(q) ==> q == (SearchQuery {
                q: self.query->0,
                location: self.location,
                gl: self.country,
                hl: self.language,
                page: self.page,
                num: self.num_results,
            }),
            r matches Err(e) ==> e is Validation,
    {
        let query = match self.query {
            Some(query) => query,
            None => {
                return Err(SerperError::Validation {
                    message: "Query string is required".to_owned(),
                });
            },
        };
        let mut search_query = SearchQuery::new(query)?;
        if let Some(location) = self.location {
            search_query = search_query.with_location(location);
        }
        if let Some(country) = self.country {
            search_query = search_query.with_country(country);
        }
        if let Some(language) = self.language {
            search_query = search_query.with_language(language);
        }
        if let Some(page) = self.page {
            search_query = search_query.with_page(page);
        }
        if let Some(num) = self.num_results {
            search_query = search_query.with_num_results(num);
        }
        search_query.validate()?;
        Ok(search_query)
    }
}

/// A query with only the required field set frames as a body holding the
/// `q` field alone: every optional key is omitted.
pub proof fn lemma_minimal_query_body(q: SearchQuery)
    requires
        q.location is None && q.gl is None && q.hl is None && q.page is None && q.num is None,
    ensures
        spec_query_json(q) == "{\"q\":\""@ + spec_escape(q.q@) + "\""@ + "}"@,
{
    assert(spec_query_json(q) =~= "{\"q\":\""@ + spec_escape(q.q@) + "\""@ + "}"@);
}

/// A query with every optional field set frames as a body holding all six
/// fields under their exact wire names `q`, `location`, `gl`, `hl`, `page`,
/// `num`, in that order.
pub proof fn lemma_full_query_body(q: SearchQuery)
    requires
        q.location is Some && q.gl is Some && q.hl is Some && q.page is Some && q.num is Some,
    ensures
        spec_query_json(q) == "{\"q\":\""@ + spec_escape(q.q@) + "\""@ + ",\"location\":\""@
            + spec_escape(q.location->0@) + "\""@ + ",\"gl\":\""@ + spec_escape(q.gl->0@) + "\""@
            + ",\"hl\":\""@ + spec_escape(q.hl->0@) + "\""@ + ",\"page\":"@ + spec_decimal(
            q.page->0 as nat,
        ) + ",\"num\":"@ + spec_decimal(q.num->0 as nat) + "}"@,
{
    assert(spec_query_json(q) =~= "{\"q\":\""@ + spec_escape(q.q@) + "\""@ + ",\"location\":\""@
        + spec_escape(q.location->0@) + "\""@ + ",\"gl\":\""@ + spec_escape(q.gl->0@) + "\""@
        + ",\"hl\":\""@ + spec_escape(q.hl->0@) + "\""@ + ",\"page\":"@ + spec_decimal(
        q.page->0 as nat,
    ) + ",\"num\":"@ + spec_decimal(q.num->0 as nat) + "}"@);
}

impl Default for SearchQueryBuilder {
    /// A builder with nothing collected.
    fn default() -> (r: Self)
        ensures
            r.query is None && r.location is None && r.country is None,
            r.language is None && r.page is None && r.num_results is None,
    {
        SearchQueryBuilder::new()
    }
}

} // verus!
