//! Typed search responses and their verified decoding from JSON.
//!
//! The wire format is loosely structured: every top-level section may be
//! absent. Decoding works on the plain [`JsonValue`] model; for each record
//! the functions here state exactly which fields are read, what shape each
//! must have, and where the unrecognized remainder of an object goes.

use vstd::prelude::*;
use crate::error::SerperError;
use crate::json::{
    spec_json_parse, parse_json,
    JsonValue, spec_first_val, spec_remove_first, spec_number_text, lemma_remove_first_other,
    take_first, number_text,
};

verus! {

/// A record field must be a string: the first field of that name, when it
/// holds a string, else nothing.
pub open spec fn spec_req_text(pairs: Seq<(String, JsonValue)>, key: Seq<char>) -> Option<String> {
    match spec_first_val(pairs, key) {
        Some(JsonValue::Text(s)) => Some(s),
        _ => None,
    }
}

/// An optional string field decodes when it is absent, `null`, or a string.
pub open spec fn spec_opt_text_ok(pairs: Seq<(String, JsonValue)>, key: Seq<char>) -> bool {
    match spec_first_val(pairs, key) {
        None => true,
        Some(JsonValue::Null) => true,
        Some(JsonValue::Text(_)) => true,
        _ => false,
    }
}

/// The value of an optional string field: the string when present, nothing
/// when the field is absent or `null`.
pub open spec fn spec_opt_text(pairs: Seq<(String, JsonValue)>, key: Seq<char>) -> Option<String> {
    match spec_first_val(pairs, key) {
        Some(JsonValue::Text(s)) => Some(s),
        _ => None,
    }
}

/// A record field must be an unsigned 32-bit number: the first field of that
/// name, when it holds a non-negative integer that fits, else nothing.
pub open spec fn spec_req_u32(pairs: Seq<(String, JsonValue)>, key: Seq<char>) -> Option<u32> {
    match spec_first_val(pairs, key) {
        Some(JsonValue::NumU64(u)) => if u <= u32::MAX as u64 {
            Some(u as u32)
        } else {
            None
        },
        _ => None,
    }
}

/// A record field must be a number, kept as its decimal text: the text when
/// the first field of that name holds any number, else nothing.
pub open spec fn spec_req_num_text(pairs: Seq<(String, JsonValue)>, key: Seq<char>) -> Option<Seq<char>> {
    match spec_first_val(pairs, key) {
        Some(n) => spec_number_text(n),
        None => None,
    }
}

/// A decoding error: the body was well-formed JSON but did not have the
/// shape of the record being read.
fn shape_error() -> (e: SerperError)
    ensures
        e is Json,
{
    SerperError::Json { message: "response body does not match the expected shape".to_owned() }
}

/// Reads a required string field out of the value `take_first` returned.
fn as_req_text(v: Option<JsonValue>) -> (r: Result<String, SerperError>)
    ensures
        r is Ok <==> (v matches Some(JsonValue::Text(_))),
        r matches Ok(s) ==> v == Some(JsonValue::Text(s)),
        r matches Err(e) ==> e is Json,
{
    match v {
        Some(JsonValue::Text(s)) => Ok(s),
        _ => Err(shape_error()),
    }
}

/// Reads an optional string field out of the value `take_first` returned:
/// absent and `null` both decode to nothing.
fn as_opt_text(v: Option<JsonValue>) -> (r: Result<Option<String>, SerperError>)
    ensures
        r is Ok <==> (v is None || v matches Some(JsonValue::Null) || v matches Some(JsonValue::Text(_))),
        r matches Ok(s) ==> s == (match v {
            Some(JsonValue::Text(t)) => Some(t),
            _ => None::<String>,
        }),
        r matches Err(e) ==> e is Json,
{
    match v {
        None => Ok(None),
        Some(JsonValue::Null) => Ok(None),
        Some(JsonValue::Text(s)) => Ok(Some(s)),
        _ => Err(shape_error()),
    }
}

/// Reads a required unsigned 32-bit number field out of the value
/// `take_first` returned.
fn as_req_u32(v: Option<JsonValue>) -> (r: Result<u32, SerperError>)
    ensures
        r is Ok <==> (v matches Some(JsonValue::NumU64(u)) && u <= u32::MAX as u64),
        r matches Ok(u) ==> v == Some(JsonValue::NumU64(u as u64)),
        r matches Err(e) ==> e is Json,
{
    match v {
        Some(JsonValue::NumU64(u)) => {
            if u <= u32::MAX as u64 {
                Ok(u as u32)
            } else {
                Err(shape_error())
            }
        },
        _ => Err(shape_error()),
    }
}

/// Reads a required number field out of the value `take_first` returned,
/// keeping the number as its decimal text.
fn as_req_num_text(v: Option<JsonValue>) -> (r: Result<String, SerperError>)
    ensures
        r is Ok <==> (v matches Some(n) && spec_number_text(n) is Some),
        r matches Ok(s) ==> (v matches Some(n) && Some(s@) == spec_number_text(n)),
        r matches Err(e) ==> e is Json,
{
    match v {
        Some(n) => match number_text(n) {
            Some(s) => Ok(s),
            None => Err(shape_error()),
        },
        None => Err(shape_error()),
    }
}

/// One organic search result.
#[derive(Debug, PartialEq)]
pub struct OrganicResult {
    /// Title of the search result.
    pub title: String,
    /// URL of the search result.
    pub link: String,
    /// Text snippet from the page, when the API sent one.
    pub snippet: Option<String>,
    /// Position in the search results, 1-based.
    pub position: u32,
    /// The unrecognized fields of the record, kept in document order.
    pub extra: Vec<(String, JsonValue)>,
}

/// Whether a JSON value has the shape of an organic result: an object whose
/// `title` and `link` are strings, whose `snippet`, when present, is a string
/// or `null`, and whose `position` is an unsigned 32-bit number.
pub open spec fn spec_organic_ok(v: JsonValue) -> bool {
    match v {
        JsonValue::Obj(pairs) => {
            &&& spec_req_text(pairs@, "title"@) is Some
            &&& spec_req_text(pairs@, "link"@) is Some
            &&& spec_opt_text_ok(pairs@, "snippet"@)
            &&& spec_req_u32(pairs@, "position"@) is Some
        },
        _ => false,
    }
}

/// How a decoded organic result relates to the JSON value it was read from:
/// each known field holds the first value of its name, and `extra` holds the
/// remaining fields in order.
pub open spec fn spec_organic_matches(v: JsonValue, o: OrganicResult) -> bool {
    match v {
        JsonValue::Obj(pairs) => {
            &&& Some(o.title) == spec_req_text(pairs@, "title"@)
            &&& Some(o.link) == spec_req_text(pairs@, "link"@)
            &&& o.snippet == spec_opt_text(pairs@, "snippet"@)
            &&& Some(o.position) == spec_req_u32(pairs@, "position"@)
            &&& o.extra@ == spec_remove_first(
                spec_remove_first(
                    spec_remove_first(spec_remove_first(pairs@, "title"@), "link"@),
                    "snippet"@,
                ),
                "position"@,
            )
        },
        _ => false,
    }
}

impl OrganicResult {
    /// Creates a new organic result with no snippet and no extra fields.
    pub fn new(title: String, link: String, position: u32) -> (r: Self)
        ensures
            r.title == title && r.link == link && r.position == position,
            r.snippet is None && r.extra@ == Seq::<(String, JsonValue)>::empty(),
    {
        OrganicResult { title, link, snippet: None, position, extra: Vec::new() }
    }

    /// Decodes one organic result from a JSON value.
    pub fn from_json(v: JsonValue) -> (r: Result<OrganicResult, SerperError>)
        ensures
            r is Ok <==> spec_organic_ok(v),
            r matches Ok(o) ==> spec_organic_matches(v, o),
            r matches Err(e) ==> e is Json,
    {
        let mut pairs = match v {
            JsonValue::Obj(pairs) => pairs,
            _ => { return Err(shape_error()); },
        };
        let ghost ps = pairs@;
        proof {
            reveal_strlit("title");
            reveal_strlit("link");
            reveal_strlit("snippet");
            reveal_strlit("position");
            assert("title"@.len() == 5 && "link"@.len() == 4 && "snippet"@.len() == 7
                && "position"@.len() == 8);
            assert("title"@ != "link"@ && "title"@ != "snippet"@ && "title"@ != "position"@
                && "link"@ != "snippet"@ && "link"@ != "position"@ && "snippet"@ != "position"@);
        }
        let tv = take_first(&mut pairs, "title");
        proof {
            lemma_remove_first_other(ps, "title"@, "link"@);
            lemma_remove_first_other(ps, "title"@, "snippet"@);
            lemma_remove_first_other(ps, "title"@, "position"@);
        }
        let lv = take_first(&mut pairs, "link");
        proof {
            let ps1 = spec_remove_first(ps, "title"@);
            lemma_remove_first_other(ps1, "link"@, "snippet"@);
            lemma_remove_first_other(ps1, "link"@, "position"@);
        }
        let sv = take_first(&mut pairs, "snippet");
        proof {
            let ps2 = spec_remove_first(spec_remove_first(ps, "title"@), "link"@);
            lemma_remove_first_other(ps2, "snippet"@, "position"@);
        }
        let pv = take_first(&mut pairs, "position");
        let title = match as_req_text(tv) {
            Ok(s) => s,
            Err(e) => { return Err(e); },
        };
        let link = match as_req_text(lv) {
            Ok(s) => s,
            Err(e) => { return Err(e); },
        };
        let snippet = match as_opt_text(sv) {
            Ok(s) => s,
            Err(e) => { return Err(e); },
        };
        let position = match as_req_u32(pv) {
            Ok(u) => u,
            Err(e) => { return Err(e); },
        };
        Ok(OrganicResult { title, link, snippet, position, extra: pairs })
    }

    /// Checks whether the result has a snippet.
    pub fn has_snippet(&self) -> (r: bool)
        ensures
            r == (self.snippet is Some),
    {
        self.snippet.is_some()
    }

    /// Returns the host of the result's URL, where the link parses as a URL
    /// with a host.
    pub fn domain(&self) -> (r: Option<String>)
        ensures
            r is Some <==> (crate::utils::url::spec_url_accepts(self.link@)
                && crate::utils::url::spec_url_host(self.link@) is Some),
            r matches Some(host) ==> Some(host@) == crate::utils::url::spec_url_host(self.link@),
    {
        match crate::utils::url::extract_domain(self.link.as_str()) {
            Ok(host) => Some(host),
            Err(_) => None,
        }
    }

    /// Returns the snippet text, or a fixed message when there is none.
    pub fn snippet_or_default(&self) -> (r: &str)
        ensures
            self.snippet matches Some(s) ==> r@ == s@,
            self.snippet is None ==> r@ == "No description available"@,
    {
        match &self.snippet {
            Some(s) => s.as_str(),
            None => "No description available",
        }
    }
}

/// Metadata about a search request and its processing.
///
/// The two time fields are kept as decimal text: the parser's rendering of
/// the numbers it read.
#[derive(Debug, PartialEq)]
pub struct SearchMetadata {
    /// Unique identifier of this search.
    pub id: String,
    /// Status of the search request.
    pub status: String,
    /// Timestamp when the search was created.
    pub created_at: String,
    /// Time taken to process the request, in seconds, as decimal text.
    pub request_time_taken: String,
    /// Total time taken, including network overhead, as decimal text.
    pub total_time_taken: String,
}

/// Whether a JSON value has the shape of search metadata: an object whose
/// `id`, `status` and `created_at` are strings and whose two time fields are
/// numbers.
pub open spec fn spec_metadata_ok(v: JsonValue) -> bool {
    match v {
        JsonValue::Obj(pairs) => {
            &&& spec_req_text(pairs@, "id"@) is Some
            &&& spec_req_text(pairs@, "status"@) is Some
            &&& spec_req_text(pairs@, "created_at"@) is Some
            &&& spec_req_num_text(pairs@, "request_time_taken"@) is Some
            &&& spec_req_num_text(pairs@, "total_time_taken"@) is Some
        },
        _ => false,
    }
}

/// How decoded metadata relates to the JSON value it was read from.
pub open spec fn spec_metadata_matches(v: JsonValue, m: SearchMetadata) -> bool {
    match v {
        JsonValue::Obj(pairs) => {
            &&& Some(m.id) == spec_req_text(pairs@, "id"@)
            &&& Some(m.status) == spec_req_text(pairs@, "status"@)
            &&& Some(m.created_at) == spec_req_text(pairs@, "created_at"@)
            &&& Some(m.request_time_taken@) == spec_req_num_text(pairs@, "request_time_taken"@)
            &&& Some(m.total_time_taken@) == spec_req_num_text(pairs@, "total_time_taken"@)
        },
        _ => false,
    }
}

impl SearchMetadata {
    /// Decodes search metadata from a JSON value.
    pub fn from_json(v: JsonValue) -> (r: Result<SearchMetadata, SerperError>)
        ensures
            r is Ok <==> spec_metadata_ok(v),
            r matches Ok(m) ==> spec_metadata_matches(v, m),
            r matches Err(e) ==> e is Json,
    {
        let mut pairs = match v {
            JsonValue::Obj(pairs) => pairs,
            _ => { return Err(shape_error()); },
        };
        let ghost ps = pairs@;
        proof {
            reveal_strlit("id");
            reveal_strlit("status");
            reveal_strlit("created_at");
            reveal_strlit("request_time_taken");
            reveal_strlit("total_time_taken");
            assert("id"@.len() == 2 && "status"@.len() == 6 && "created_at"@.len() == 10
                && "request_time_taken"@.len() == 18 && "total_time_taken"@.len() == 16);
        }
        let iv = take_first(&mut pairs, "id");
        proof {
            lemma_remove_first_other(ps, "id"@, "status"@);
            lemma_remove_first_other(ps, "id"@, "created_at"@);
            lemma_remove_first_other(ps, "id"@, "request_time_taken"@);
            lemma_remove_first_other(ps, "id"@, "total_time_taken"@);
        }
        let sv = take_first(&mut pairs, "status");
        proof {
            let ps1 = spec_remove_first(ps, "id"@);
            lemma_remove_first_other(ps1, "status"@, "created_at"@);
            lemma_remove_first_other(ps1, "status"@, "request_time_taken"@);
            lemma_remove_first_other(ps1, "status"@, "total_time_taken"@);
        }
        let cv = take_first(&mut pairs, "created_at");
        proof {
            let ps2 = spec_remove_first(spec_remove_first(ps, "id"@), "status"@);
            lemma_remove_first_other(ps2, "created_at"@, "request_time_taken"@);
            lemma_remove_first_other(ps2, "created_at"@, "total_time_taken"@);
        }
        let rv = take_first(&mut pairs, "request_time_taken");
        proof {
            let ps3 = spec_remove_first(
                spec_remove_first(spec_remove_first(ps, "id"@), "status"@),
                "created_at"@,
            );
            lemma_remove_first_other(ps3, "request_time_taken"@, "total_time_taken"@);
        }
        let tv = take_first(&mut pairs, "total_time_taken");
        let id = match as_req_text(iv) {
            Ok(s) => s,
            Err(e) => { return Err(e); },
        };
        let status = match as_req_text(sv) {
            Ok(s) => s,
            Err(e) => { return Err(e); },
        };
        let created_at = match as_req_text(cv) {
            Ok(s) => s,
            Err(e) => { return Err(e); },
        };
        let request_time_taken = match as_req_num_text(rv) {
            Ok(s) => s,
            Err(e) => { return Err(e); },
        };
        let total_time_taken = match as_req_num_text(tv) {
            Ok(s) => s,
            Err(e) => { return Err(e); },
        };
        Ok(SearchMetadata { id, status, created_at, request_time_taken, total_time_taken })
    }
}

/// An answer box with a direct answer to the query.
#[derive(Debug, PartialEq)]
pub struct AnswerBox {
    /// Direct answer text.
    pub answer: Option<String>,
    /// Snippet providing context for the answer.
    pub snippet: Option<String>,
    /// Source title.
    pub title: Option<String>,
    /// Source link.
    pub link: Option<String>,
}

/// Whether a JSON value has the shape of an answer box: an object whose
/// four known fields, where present, are strings or `null`.
pub open spec fn spec_answer_box_ok(v: JsonValue) -> bool {
    match v {
        JsonValue::Obj(pairs) => {
            &&& spec_opt_text_ok(pairs@, "answer"@)
            &&& spec_opt_text_ok(pairs@, "snippet"@)
            &&& spec_opt_text_ok(pairs@, "title"@)
            &&& spec_opt_text_ok(pairs@, "link"@)
        },
        _ => false,
    }
}

/// How a decoded answer box relates to the JSON value it was read from.
pub open spec fn spec_answer_box_matches(v: JsonValue, a: AnswerBox) -> bool {
    match v {
        JsonValue::Obj(pairs) => {
            &&& a.answer == spec_opt_text(pairs@, "answer"@)
            &&& a.snippet == spec_opt_text(pairs@, "snippet"@)
            &&& a.title == spec_opt_text(pairs@, "title"@)
            &&& a.link == spec_opt_text(pairs@, "link"@)
        },
        _ => false,
    }
}

impl AnswerBox {
    /// Decodes an answer box from a JSON value.
    pub fn from_json(v: JsonValue) -> (r: Result<AnswerBox, SerperError>)
        ensures
            r is Ok <==> spec_answer_box_ok(v),
            r matches Ok(a) ==> spec_answer_box_matches(v, a),
            r matches Err(e) ==> e is Json,
    {
        let mut pairs = match v {
            JsonValue::Obj(pairs) => pairs,
            _ => { return Err(shape_error()); },
        };
        let ghost ps = pairs@;
        proof {
            reveal_strlit("answer");
            reveal_strlit("snippet");
            reveal_strlit("title");
            reveal_strlit("link");
            assert("answer"@.len() == 6 && "snippet"@.len() == 7 && "title"@.len() == 5
                && "link"@.len() == 4);
        }
        let av = take_first(&mut pairs, "answer");
        proof {
            lemma_remove_first_other(ps, "answer"@, "snippet"@);
            lemma_remove_first_other(ps, "answer"@, "title"@);
            lemma_remove_first_other(ps, "answer"@, "link"@);
        }
        let sv = take_first(&mut pairs, "snippet");
        proof {
            let ps1 = spec_remove_first(ps, "answer"@);
            lemma_remove_first_other(ps1, "snippet"@, "title"@);
            lemma_remove_first_other(ps1, "snippet"@, "link"@);
        }
        let tv = take_first(&mut pairs, "title");
        proof {
            let ps2 = spec_remove_first(spec_remove_first(ps, "answer"@), "snippet"@);
            lemma_remove_first_other(ps2, "title"@, "link"@);
        }
        let lv = take_first(&mut pairs, "link");
        let answer = match as_opt_text(av) {
            Ok(s) => s,
            Err(e) => { return Err(e); },
        };
        let snippet = match as_opt_text(sv) {
            Ok(s) => s,
            Err(e) => { return Err(e); },
        };
        let title = match as_opt_text(tv) {
            Ok(s) => s,
            Err(e) => { return Err(e); },
        };
        let link = match as_opt_text(lv) {
            Ok(s) => s,
            Err(e) => { return Err(e); },
        };
        Ok(AnswerBox { answer, snippet, title, link })
    }

    /// Checks whether the answer box has a direct answer.
    pub fn has_answer(&self) -> (r: bool)
        ensures
            r == (self.answer is Some),
    {
        self.answer.is_some()
    }

    /// Returns the best available text: the answer when present, else the
    /// snippet.
    pub fn best_text(&self) -> (r: Option<&str>)
        ensures
            self.answer matches Some(a) ==> (r matches Some(t) && t@ == a@),
            (self.answer is None && self.snippet is Some) ==> (r matches Some(t) && t@ == self.snippet->0@),
            self.answer is None && self.snippet is None ==> r is None,
    {
        match &self.answer {
            Some(a) => Some(a.as_str()),
            None => match &self.snippet {
                Some(s) => Some(s.as_str()),
                None => None,
            },
        }
    }
}

/// Knowledge graph information about an entity.
#[derive(Debug, PartialEq)]
pub struct KnowledgeGraph {
    /// Title of the entity.
    pub title: Option<String>,
    /// Description of the entity.
    pub description: Option<String>,
    /// Entity type; on the wire this field is named `type`.
    pub entity_type: Option<String>,
    /// Website URL.
    pub website: Option<String>,
    /// The unrecognized fields of the record, kept in document order.
    pub attributes: Vec<(String, JsonValue)>,
}

/// Whether a JSON value has the shape of a knowledge graph: an object whose
/// four known fields, where present, are strings or `null`.
pub open spec fn spec_knowledge_graph_ok(v: JsonValue) -> bool {
    match v {
        JsonValue::Obj(pairs) => {
            &&& spec_opt_text_ok(pairs@, "title"@)
            &&& spec_opt_text_ok(pairs@, "description"@)
            &&& spec_opt_text_ok(pairs@, "type"@)
            &&& spec_opt_text_ok(pairs@, "website"@)
        },
        _ => false,
    }
}

/// How a decoded knowledge graph relates to the JSON value it was read from:
/// the four known fields hold the first values of their names, and
/// `attributes` holds the remaining fields in order.
pub open spec fn spec_knowledge_graph_matches(v: JsonValue, k: KnowledgeGraph) -> bool {
    match v {
        JsonValue::Obj(pairs) => {
            &&& k.title == spec_opt_text(pairs@, "title"@)
            &&& k.description == spec_opt_text(pairs@, "description"@)
            &&& k.entity_type == spec_opt_text(pairs@, "type"@)
            &&& k.website == spec_opt_text(pairs@, "website"@)
            &&& k.attributes@ == spec_remove_first(
                spec_remove_first(
                    spec_remove_first(spec_remove_first(pairs@, "title"@), "description"@),
                    "type"@,
                ),
                "website"@,
            )
        },
        _ => false,
    }
}

impl KnowledgeGraph {
    /// Decodes a knowledge graph from a JSON value.
    pub fn from_json(v: JsonValue) -> (r: Result<KnowledgeGraph, SerperError>)
        ensures
            r is Ok <==> spec_knowledge_graph_ok(v),
            r matches Ok(k) ==> spec_knowledge_graph_matches(v, k),
            r matches Err(e) ==> e is Json,
    {
        let mut pairs = match v {
            JsonValue::Obj(pairs) => pairs,
            _ => { return Err(shape_error()); },
        };
        let ghost ps = pairs@;
        proof {
            reveal_strlit("title");
            reveal_strlit("description");
            reveal_strlit("type");
            reveal_strlit("website");
            assert("title"@.len() == 5 && "description"@.len() == 11 && "type"@.len() == 4
                && "website"@.len() == 7);
        }
        let tv = take_first(&mut pairs, "title");
        proof {
            lemma_remove_first_other(ps, "title"@, "description"@);
            lemma_remove_first_other(ps, "title"@, "type"@);
            lemma_remove_first_other(ps, "title"@, "website"@);
        }
        let dv = take_first(&mut pairs, "description");
        proof {
            let ps1 = spec_remove_first(ps, "title"@);
            lemma_remove_first_other(ps1, "description"@, "type"@);
            lemma_remove_first_other(ps1, "description"@, "website"@);
        }
        let ev = take_first(&mut pairs, "type");
        proof {
            let ps2 = spec_remove_first(spec_remove_first(ps, "title"@), "description"@);
            lemma_remove_first_other(ps2, "type"@, "website"@);
        }
        let wv = take_first(&mut pairs, "website");
        let title = match as_opt_text(tv) {
            Ok(s) => s,
            Err(e) => { return Err(e); },
        };
        let description = match as_opt_text(dv) {
            Ok(s) => s,
            Err(e) => { return Err(e); },
        };
        let entity_type = match as_opt_text(ev) {
            Ok(s) => s,
            Err(e) => { return Err(e); },
        };
        let website = match as_opt_text(wv) {
            Ok(s) => s,
            Err(e) => { return Err(e); },
        };
        Ok(KnowledgeGraph { title, description, entity_type, website, attributes: pairs })
    }
}

/// A related question from the "people also ask" section.
#[derive(Debug, PartialEq)]
pub struct RelatedQuestion {
    /// The question text.
    pub question: String,
    /// Snippet answering the question.
    pub snippet: Option<String>,
    /// Source title.
    pub title: Option<String>,
    /// Source link.
    pub link: Option<String>,
}

/// Whether a JSON value has the shape of a related question: an object whose
/// `question` is a string and whose other known fields, where present, are
/// strings or `null`.
pub open spec fn spec_related_question_ok(v: JsonValue) -> bool {
    match v {
        JsonValue::Obj(pairs) => {
            &&& spec_req_text(pairs@, "question"@) is Some
            &&& spec_opt_text_ok(pairs@, "snippet"@)
            &&& spec_opt_text_ok(pairs@, "title"@)
            &&& spec_opt_text_ok(pairs@, "link"@)
        },
        _ => false,
    }
}

/// How a decoded related question relates to the JSON value it was read from.
pub open spec fn spec_related_question_matches(v: JsonValue, q: RelatedQuestion) -> bool {
    match v {
        JsonValue::Obj(pairs) => {
            &&& Some(q.question) == spec_req_text(pairs@, "question"@)
            &&& q.snippet == spec_opt_text(pairs@, "snippet"@)
            &&& q.title == spec_opt_text(pairs@, "title"@)
            &&& q.link == spec_opt_text(pairs@, "link"@)
        },
        _ => false,
    }
}

impl RelatedQuestion {
    /// Decodes a related question from a JSON value.
    pub fn from_json(v: JsonValue) -> (r: Result<RelatedQuestion, SerperError>)
        ensures
            r is Ok <==> spec_related_question_ok(v),
            r matches Ok(q) ==> spec_related_question_matches(v, q),
            r matches Err(e) ==> e is Json,
    {
        let mut pairs = match v {
            JsonValue::Obj(pairs) => pairs,
            _ => { return Err(shape_error()); },
        };
        let ghost ps = pairs@;
        proof {
            reveal_strlit("question");
            reveal_strlit("snippet");
            reveal_strlit("title");
            reveal_strlit("link");
            assert("question"@.len() == 8 && "snippet"@.len() == 7 && "title"@.len() == 5
                && "link"@.len() == 4);
        }
        let qv = take_first(&mut pairs, "question");
        proof {
            lemma_remove_first_other(ps, "question"@, "snippet"@);
            lemma_remove_first_other(ps, "question"@, "title"@);
            lemma_remove_first_other(ps, "question"@, "link"@);
        }
        let sv = take_first(&mut pairs, "snippet");
        proof {
            let ps1 = spec_remove_first(ps, "question"@);
            lemma_remove_first_other(ps1, "snippet"@, "title"@);
            lemma_remove_first_other(ps1, "snippet"@, "link"@);
        }
        let tv = take_first(&mut pairs, "title");
        proof {
            let ps2 = spec_remove_first(spec_remove_first(ps, "question"@), "snippet"@);
            lemma_remove_first_other(ps2, "title"@, "link"@);
        }
        let lv = take_first(&mut pairs, "link");
        let question = match as_req_text(qv) {
            Ok(s) => s,
            Err(e) => { return Err(e); },
        };
        let snippet = match as_opt_text(sv) {
            Ok(s) => s,
            Err(e) => { return Err(e); },
        };
        let title = match as_opt_text(tv) {
            Ok(s) => s,
            Err(e) => { return Err(e); },
        };
        let link = match as_opt_text(lv) {
            Ok(s) => s,
            Err(e) => { return Err(e); },
        };
        Ok(RelatedQuestion { question, snippet, title, link })
    }
}

/// A shopping result for product searches.
#[derive(Debug, PartialEq)]
pub struct ShoppingResult {
    /// Product title.
    pub title: String,
    /// Product link.
    pub link: String,
    /// Product price.
    pub price: Option<String>,
    /// Product source or merchant.
    pub source: Option<String>,
    /// Product image URL.
    pub image: Option<String>,
    /// Position in the shopping results.
    pub position: u32,
}

/// Whether a JSON value has the shape of a shopping result.
pub open spec fn spec_shopping_ok(v: JsonValue) -> bool {
    match v {
        JsonValue::Obj(pairs) => {
            &&& spec_req_text(pairs@, "title"@) is Some
            &&& spec_req_text(pairs@, "link"@) is Some
            &&& spec_opt_text_ok(pairs@, "price"@)
            &&& spec_opt_text_ok(pairs@, "source"@)
            &&& spec_opt_text_ok(pairs@, "image"@)
            &&& spec_req_u32(pairs@, "position"@) is Some
        },
        _ => false,
    }
}

/// How a decoded shopping result relates to the JSON value it was read from.
pub open spec fn spec_shopping_matches(v: JsonValue, s: ShoppingResult) -> bool {
    match v {
        JsonValue::Obj(pairs) => {
            &&& Some(s.title) == spec_req_text(pairs@, "title"@)
            &&& Some(s.link) == spec_req_text(pairs@, "link"@)
            &&& s.price == spec_opt_text(pairs@, "price"@)
            &&& s.source == spec_opt_text(pairs@, "source"@)
            &&& s.image == spec_opt_text(pairs@, "image"@)
            &&& Some(s.position) == spec_req_u32(pairs@, "position"@)
        },
        _ => false,
    }
}

impl ShoppingResult {
    /// Decodes a shopping result from a JSON value.
    pub fn from_json(v: JsonValue) -> (r: Result<ShoppingResult, SerperError>)
        ensures
            r is Ok <==> spec_shopping_ok(v),
            r matches Ok(s) ==> spec_shopping_matches(v, s),
            r matches Err(e) ==> e is Json,
    {
        let mut pairs = match v {
            JsonValue::Obj(pairs) => pairs,
            _ => { return Err(shape_error()); },
        };
        let ghost ps = pairs@;
        proof {
            reveal_strlit("title");
            reveal_strlit("link");
            reveal_strlit("price");
            reveal_strlit("source");
            reveal_strlit("image");
            reveal_strlit("position");
            assert("title"@.len() == 5 && "link"@.len() == 4 && "price"@.len() == 5
                && "source"@.len() == 6 && "image"@.len() == 5 && "position"@.len() == 8);
            assert("title"@[0] == 't' && "price"@[0] == 'p' && "image"@[0] == 'i');
        }
        let tv = take_first(&mut pairs, "title");
        proof {
            lemma_remove_first_other(ps, "title"@, "link"@);
            lemma_remove_first_other(ps, "title"@, "price"@);
            lemma_remove_first_other(ps, "title"@, "source"@);
            lemma_remove_first_other(ps, "title"@, "image"@);
            lemma_remove_first_other(ps, "title"@, "position"@);
        }
        let lv = take_first(&mut pairs, "link");
        proof {
            let ps1 = spec_remove_first(ps, "title"@);
            lemma_remove_first_other(ps1, "link"@, "price"@);
            lemma_remove_first_other(ps1, "link"@, "source"@);
            lemma_remove_first_other(ps1, "link"@, "image"@);
            lemma_remove_first_other(ps1, "link"@, "position"@);
        }
        let pv = take_first(&mut pairs, "price");
        proof {
            let ps2 = spec_remove_first(spec_remove_first(ps, "title"@), "link"@);
            lemma_remove_first_other(ps2, "price"@, "source"@);
            lemma_remove_first_other(ps2, "price"@, "image"@);
            lemma_remove_first_other(ps2, "price"@, "position"@);
        }
        let sv = take_first(&mut pairs, "source");
        proof {
            let ps3 = spec_remove_first(
                spec_remove_first(spec_remove_first(ps, "title"@), "link"@),
                "price"@,
            );
            lemma_remove_first_other(ps3, "source"@, "image"@);
            lemma_remove_first_other(ps3, "source"@, "position"@);
        }
        let iv = take_first(&mut pairs, "image");
        proof {
            let ps4 = spec_remove_first(
                spec_remove_first(
                    spec_remove_first(spec_remove_first(ps, "title"@), "link"@),
                    "price"@,
                ),
                "source"@,
            );
            lemma_remove_first_other(ps4, "image"@, "position"@);
        }
        let ov = take_first(&mut pairs, "position");
        let title = match as_req_text(tv) {
            Ok(s) => s,
            Err(e) => { return Err(e); },
        };
        let link = match as_req_text(lv) {
            Ok(s) => s,
            Err(e) => { return Err(e); },
        };
        let price = match as_opt_text(pv) {
            Ok(s) => s,
            Err(e) => { return Err(e); },
        };
        let source = match as_opt_text(sv) {
            Ok(s) => s,
            Err(e) => { return Err(e); },
        };
        let image = match as_opt_text(iv) {
            Ok(s) => s,
            Err(e) => { return Err(e); },
        };
        let position = match as_req_u32(ov) {
            Ok(u) => u,
            Err(e) => { return Err(e); },
        };
        Ok(ShoppingResult { title, link, price, source, image, position })
    }
}

/// A news result for news searches.
#[derive(Debug, PartialEq)]
pub struct NewsResult {
    /// News article title.
    pub title: String,
    /// News article link.
    pub link: String,
    /// Article snippet.
    pub snippet: Option<String>,
    /// News source.
    pub source: Option<String>,
    /// Publication date.
    pub date: Option<String>,
    /// Position in the news results.
    pub position: u32,
}

/// Whether a JSON value has the shape of a news result.
pub open spec fn spec_news_ok(v: JsonValue) -> bool {
    match v {
        JsonValue::Obj(pairs) => {
            &&& spec_req_text(pairs@, "title"@) is Some
            &&& spec_req_text(pairs@, "link"@) is Some
            &&& spec_opt_text_ok(pairs@, "snippet"@)
            &&& spec_opt_text_ok(pairs@, "source"@)
            &&& spec_opt_text_ok(pairs@, "date"@)
            &&& spec_req_u32(pairs@, "position"@) is Some
        },
        _ => false,
    }
}

/// How a decoded news result relates to the JSON value it was read from.
pub open spec fn spec_news_matches(v: JsonValue, n: NewsResult) -> bool {
    match v {
        JsonValue::Obj(pairs) => {
            &&& Some(n.title) == spec_req_text(pairs@, "title"@)
            &&& Some(n.link) == spec_req_text(pairs@, "link"@)
            &&& n.snippet == spec_opt_text(pairs@, "snippet"@)
            &&& n.source == spec_opt_text(pairs@, "source"@)
            &&& n.date == spec_opt_text(pairs@, "date"@)
            &&& Some(n.position) == spec_req_u32(pairs@, "position"@)
        },
        _ => false,
    }
}

impl NewsResult {
    /// Decodes a news result from a JSON value.
    pub fn from_json(v: JsonValue) -> (r: Result<NewsResult, SerperError>)
        ensures
            r is Ok <==> spec_news_ok(v),
            r matches Ok(n) ==> spec_news_matches(v, n),
            r matches Err(e) ==> e is Json,
    {
        let mut pairs = match v {
            JsonValue::Obj(pairs) => pairs,
            _ => { return Err(shape_error()); },
        };
        let ghost ps = pairs@;
        proof {
            reveal_strlit("title");
            reveal_strlit("link");
            reveal_strlit("snippet");
            reveal_strlit("source");
            reveal_strlit("date");
            reveal_strlit("position");
            assert("title"@.len() == 5 && "link"@.len() == 4 && "snippet"@.len() == 7
                && "source"@.len() == 6 && "date"@.len() == 4 && "position"@.len() == 8);
            assert("link"@[0] == 'l' && "date"@[0] == 'd');
        }
        let tv = take_first(&mut pairs, "title");
        proof {
            lemma_remove_first_other(ps, "title"@, "link"@);
            lemma_remove_first_other(ps, "title"@, "snippet"@);
            lemma_remove_first_other(ps, "title"@, "source"@);
            lemma_remove_first_other(ps, "title"@, "date"@);
            lemma_remove_first_other(ps, "title"@, "position"@);
        }
        let lv = take_first(&mut pairs, "link");
        proof {
            let ps1 = spec_remove_first(ps, "title"@);
            lemma_remove_first_other(ps1, "link"@, "snippet"@);
            lemma_remove_first_other(ps1, "link"@, "source"@);
            lemma_remove_first_other(ps1, "link"@, "date"@);
            lemma_remove_first_other(ps1, "link"@, "position"@);
        }
        let sv = take_first(&mut pairs, "snippet");
        proof {
            let ps2 = spec_remove_first(spec_remove_first(ps, "title"@), "link"@);
            lemma_remove_first_other(ps2, "snippet"@, "source"@);
            lemma_remove_first_other(ps2, "snippet"@, "date"@);
            lemma_remove_first_other(ps2, "snippet"@, "position"@);
        }
        let ov = take_first(&mut pairs, "source");
        proof {
            let ps3 = spec_remove_first(
                spec_remove_first(spec_remove_first(ps, "title"@), "link"@),
                "snippet"@,
            );
            lemma_remove_first_other(ps3, "source"@, "date"@);
            lemma_remove_first_other(ps3, "source"@, "position"@);
        }
        let dv = take_first(&mut pairs, "date");
        proof {
            let ps4 = spec_remove_first(
                spec_remove_first(
                    spec_remove_first(spec_remove_first(ps, "title"@), "link"@),
                    "snippet"@,
                ),
                "source"@,
            );
            lemma_remove_first_other(ps4, "date"@, "position"@);
        }
        let pv = take_first(&mut pairs, "position");
        let title = match as_req_text(tv) {
            Ok(s) => s,
            Err(e) => { return Err(e); },
        };
        let link = match as_req_text(lv) {
            Ok(s) => s,
            Err(e) => { return Err(e); },
        };
        let snippet = match as_opt_text(sv) {
            Ok(s) => s,
            Err(e) => { return Err(e); },
        };
        let source = match as_opt_text(ov) {
            Ok(s) => s,
            Err(e) => { return Err(e); },
        };
        let date = match as_opt_text(dv) {
            Ok(s) => s,
            Err(e) => { return Err(e); },
        };
        let position = match as_req_u32(pv) {
            Ok(u) => u,
            Err(e) => { return Err(e); },
        };
        Ok(NewsResult { title, link, snippet, source, date, position })
    }
}

/// Decodes a JSON array of organic results, element by element.
#[verifier::loop_isolation(false)]
fn organic_list_from_json(items: Vec<JsonValue>) -> (r: Result<Vec<OrganicResult>, SerperError>)
    ensures
        r is Ok <==> (forall|i: int| 0 <= i < items@.len() ==> spec_organic_ok(#[trigger] items@[i])),
        r matches Ok(list) ==> list@.len() == items@.len()
            && (forall|i: int| 0 <= i < items@.len() ==> spec_organic_matches(#[trigger] items@[i], list@[i])),
        r matches Err(e) ==> e is Json,
{
    let ghost orig = items@;
    let mut rem = items;
    let mut out: Vec<OrganicResult> = Vec::new();
    while rem.len() > 0
        invariant
            out@.len() + rem@.len() == orig.len(),
            rem@ =~= orig.skip(out@.len() as int),
            forall|i: int| 0 <= i < out@.len() ==> spec_organic_ok(#[trigger] orig[i])
                && spec_organic_matches(orig[i], out@[i]),
        decreases rem@.len(),
    {
        let ghost k = out@.len() as int;
        let v = rem.remove(0);
        proof {
            assert(v == orig[k]);
            assert(rem@ =~= orig.skip(k + 1));
        }
        match OrganicResult::from_json(v) {
            Ok(o) => out.push(o),
            Err(e) => {
                proof {
                    assert(0 <= k < items@.len());
                    assert(items@[k] == orig[k]);
                    assert(!spec_organic_ok(items@[k]));
                }
                return Err(e);
            },
        }
    }
    Ok(out)
}

/// Decodes a JSON array of related questions, element by element.
#[verifier::loop_isolation(false)]
fn related_list_from_json(items: Vec<JsonValue>) -> (r: Result<Vec<RelatedQuestion>, SerperError>)
    ensures
        r is Ok <==> (forall|i: int| 0 <= i < items@.len() ==> spec_related_question_ok(#[trigger] items@[i])),
        r matches Ok(list) ==> list@.len() == items@.len()
            && (forall|i: int| 0 <= i < items@.len() ==> spec_related_question_matches(#[trigger] items@[i], list@[i])),
        r matches Err(e) ==> e is Json,
{
    let ghost orig = items@;
    let mut rem = items;
    let mut out: Vec<RelatedQuestion> = Vec::new();
    while rem.len() > 0
        invariant
            out@.len() + rem@.len() == orig.len(),
            rem@ =~= orig.skip(out@.len() as int),
            forall|i: int| 0 <= i < out@.len() ==> spec_related_question_ok(#[trigger] orig[i])
                && spec_related_question_matches(orig[i], out@[i]),
        decreases rem@.len(),
    {
        let ghost k = out@.len() as int;
        let v = rem.remove(0);
        proof {
            assert(v == orig[k]);
            assert(rem@ =~= orig.skip(k + 1));
        }
        match RelatedQuestion::from_json(v) {
            Ok(q) => out.push(q),
            Err(e) => {
                proof {
                    assert(0 <= k < items@.len());
                    assert(items@[k] == orig[k]);
                    assert(!spec_related_question_ok(items@[k]));
                }
                return Err(e);
            },
        }
    }
    Ok(out)
}

/// Decodes a JSON array of shopping results, element by element.
#[verifier::loop_isolation(false)]
fn shopping_list_from_json(items: Vec<JsonValue>) -> (r: Result<Vec<ShoppingResult>, SerperError>)
    ensures
        r is Ok <==> (forall|i: int| 0 <= i < items@.len() ==> spec_shopping_ok(#[trigger] items@[i])),
        r matches Ok(list) ==> list@.len() == items@.len()
            && (forall|i: int| 0 <= i < items@.len() ==> spec_shopping_matches(#[trigger] items@[i], list@[i])),
        r matches Err(e) ==> e is Json,
{
    let ghost orig = items@;
    let mut rem = items;
    let mut out: Vec<ShoppingResult> = Vec::new();
    while rem.len() > 0
        invariant
            out@.len() + rem@.len() == orig.len(),
            rem@ =~= orig.skip(out@.len() as int),
            forall|i: int| 0 <= i < out@.len() ==> spec_shopping_ok(#[trigger] orig[i])
                && spec_shopping_matches(orig[i], out@[i]),
        decreases rem@.len(),
    {
        let ghost k = out@.len() as int;
        let v = rem.remove(0);
        proof {
            assert(v == orig[k]);
            assert(rem@ =~= orig.skip(k + 1));
        }
        match ShoppingResult::from_json(v) {
            Ok(s) => out.push(s),
            Err(e) => {
                proof {
                    assert(0 <= k < items@.len());
                    assert(items@[k] == orig[k]);
                    assert(!spec_shopping_ok(items@[k]));
                }
                return Err(e);
            },
        }
    }
    Ok(out)
}

/// Decodes a JSON array of news results, element by element.
#[verifier::loop_isolation(false)]
fn news_list_from_json(items: Vec<JsonValue>) -> (r: Result<Vec<NewsResult>, SerperError>)
    ensures
        r is Ok <==> (forall|i: int| 0 <= i < items@.len() ==> spec_news_ok(#[trigger] items@[i])),
        r matches Ok(list) ==> list@.len() == items@.len()
            && (forall|i: int| 0 <= i < items@.len() ==> spec_news_matches(#[trigger] items@[i], list@[i])),
        r matches Err(e) ==> e is Json,
{
    let ghost orig = items@;
    let mut rem = items;
    let mut out: Vec<NewsResult> = Vec::new();
    while rem.len() > 0
        invariant
            out@.len() + rem@.len() == orig.len(),
            rem@ =~= orig.skip(out@.len() as int),
            forall|i: int| 0 <= i < out@.len() ==> spec_news_ok(#[trigger] orig[i])
                && spec_news_matches(orig[i], out@[i]),
        decreases rem@.len(),
    {
        let ghost k = out@.len() as int;
        let v = rem.remove(0);
        proof {
            assert(v == orig[k]);
            assert(rem@ =~= orig.skip(k + 1));
        }
        match NewsResult::from_json(v) {
            Ok(n) => out.push(n),
            Err(e) => {
                proof {
                    assert(0 <= k < items@.len());
                    assert(items@[k] == orig[k]);
                    assert(!spec_news_ok(items@[k]));
                }
                return Err(e);
            },
        }
    }
    Ok(out)
}

/// A complete search response.
///
/// Every section is optional: the API may omit any of them, and an omitted
/// or `null` section decodes to nothing.
#[derive(Debug, PartialEq)]
pub struct SearchResponse {
    /// Metadata about the search request and response.
    pub search_metadata: Option<SearchMetadata>,
    /// Organic search results.
    pub organic: Option<Vec<OrganicResult>>,
    /// Answer box information.
    pub answer_box: Option<AnswerBox>,
    /// Knowledge graph information.
    pub knowledge_graph: Option<KnowledgeGraph>,
    /// Related questions.
    pub related_questions: Option<Vec<RelatedQuestion>>,
    /// Shopping results.
    pub shopping: Option<Vec<ShoppingResult>>,
    /// News results.
    pub news: Option<Vec<NewsResult>>,
}

/// Whether a JSON value has the shape of a search response: an object each
/// of whose known sections, where present and not `null`, has the right
/// shape. Unknown fields are ignored.
pub open spec fn spec_response_ok(v: JsonValue) -> bool {
    match v {
        JsonValue::Obj(pairs) => {
            &&& (match spec_first_val(pairs@, "search_metadata"@) {
                None => true,
                Some(JsonValue::Null) => true,
                Some(w) => spec_metadata_ok(w),
            })
            &&& (match spec_first_val(pairs@, "organic"@) {
                None => true,
                Some(JsonValue::Null) => true,
                Some(JsonValue::Arr(items)) => forall|i: int|
                    0 <= i < items@.len() ==> spec_organic_ok(#[trigger] items@[i]),
                Some(_) => false,
            })
            &&& (match spec_first_val(pairs@, "answer_box"@) {
                None => true,
                Some(JsonValue::Null) => true,
                Some(w) => spec_answer_box_ok(w),
            })
            &&& (match spec_first_val(pairs@, "knowledge_graph"@) {
                None => true,
                Some(JsonValue::Null) => true,
                Some(w) => spec_knowledge_graph_ok(w),
            })
            &&& (match spec_first_val(pairs@, "related_questions"@) {
                None => true,
                Some(JsonValue::Null) => true,
                Some(JsonValue::Arr(items)) => forall|i: int|
                    0 <= i < items@.len() ==> spec_related_question_ok(#[trigger] items@[i]),
                Some(_) => false,
            })
            &&& (match spec_first_val(pairs@, "shopping"@) {
                None => true,
                Some(JsonValue::Null) => true,
                Some(JsonValue::Arr(items)) => forall|i: int|
                    0 <= i < items@.len() ==> spec_shopping_ok(#[trigger] items@[i]),
                Some(_) => false,
            })
            &&& (match spec_first_val(pairs@, "news"@) {
                None => true,
                Some(JsonValue::Null) => true,
                Some(JsonValue::Arr(items)) => forall|i: int|
                    0 <= i < items@.len() ==> spec_news_ok(#[trigger] items@[i]),
                Some(_) => false,
            })
        },
        _ => false,
    }
}

/// How a decoded search response relates to the JSON value it was read from:
/// each section holds the decoding of the first field of its name, and an
/// absent or `null` field decodes to nothing.
pub open spec fn spec_response_matches(v: JsonValue, r: SearchResponse) -> bool {
    match v {
        JsonValue::Obj(pairs) => {
            &&& (match spec_first_val(pairs@, "search_metadata"@) {
                None => r.search_metadata is None,
                Some(JsonValue::Null) => r.search_metadata is None,
                Some(w) => r.search_metadata matches Some(m) && spec_metadata_matches(w, m),
            })
            &&& (match spec_first_val(pairs@, "organic"@) {
                None => r.organic is None,
                Some(JsonValue::Null) => r.organic is None,
                Some(JsonValue::Arr(items)) => r.organic matches Some(list)
                    && list@.len() == items@.len()
                    && (forall|i: int| 0 <= i < items@.len()
                        ==> spec_organic_matches(#[trigger] items@[i], list@[i])),
                Some(_) => false,
            })
            &&& (match spec_first_val(pairs@, "answer_box"@) {
                None => r.answer_box is None,
                Some(JsonValue::Null) => r.answer_box is None,
                Some(w) => r.answer_box matches Some(a) && spec_answer_box_matches(w, a),
            })
            &&& (match spec_first_val(pairs@, "knowledge_graph"@) {
                None => r.knowledge_graph is None,
                Some(JsonValue::Null) => r.knowledge_graph is None,
                Some(w) => r.knowledge_graph matches Some(k) && spec_knowledge_graph_matches(w, k),
            })
            &&& (match spec_first_val(pairs@, "related_questions"@) {
                None => r.related_questions is None,
                Some(JsonValue::Null) => r.related_questions is None,
                Some(JsonValue::Arr(items)) => r.related_questions matches Some(list)
                    && list@.len() == items@.len()
                    && (forall|i: int| 0 <= i < items@.len()
                        ==> spec_related_question_matches(#[trigger] items@[i], list@[i])),
                Some(_) => false,
            })
            &&& (match spec_first_val(pairs@, "shopping"@) {
                None => r.shopping is None,
                Some(JsonValue::Null) => r.shopping is None,
                Some(JsonValue::Arr(items)) => r.shopping matches Some(list)
                    && list@.len() == items@.len()
                    && (forall|i: int| 0 <= i < items@.len()
                        ==> spec_shopping_matches(#[trigger] items@[i], list@[i])),
                Some(_) => false,
            })
            &&& (match spec_first_val(pairs@, "news"@) {
                None => r.news is None,
                Some(JsonValue::Null) => r.news is None,
                Some(JsonValue::Arr(items)) => r.news matches Some(list)
                    && list@.len() == items@.len()
                    && (forall|i: int| 0 <= i < items@.len()
                        ==> spec_news_matches(#[trigger] items@[i], list@[i])),
                Some(_) => false,
            })
        },
        _ => false,
    }
}

/// Whether a response carries any results: a non-empty organic, shopping or
/// news section, or an answer box or knowledge graph at all.
pub open spec fn spec_has_results(r: SearchResponse) -> bool {
    ||| (r.organic matches Some(o) && o@.len() > 0)
    ||| r.answer_box is Some
    ||| r.knowledge_graph is Some
    ||| (r.shopping matches Some(s) && s@.len() > 0)
    ||| (r.news matches Some(n) && n@.len() > 0)
}

impl SearchResponse {
    /// Creates a new, empty search response with every section absent.
    pub fn new() -> (r: Self)
        ensures
            r.search_metadata is None && r.organic is None && r.answer_box is None,
            r.knowledge_graph is None && r.related_questions is None,
            r.shopping is None && r.news is None,
    {
        SearchResponse {
            search_metadata: None,
            organic: None,
            answer_box: None,
            knowledge_graph: None,
            related_questions: None,
            shopping: None,
            news: None,
        }
    }

    /// Decodes a search response from a JSON value.
    #[verifier::rlimit(50)]
    pub fn from_json(v: JsonValue) -> (r: Result<SearchResponse, SerperError>)
        ensures
            r is Ok <==> spec_response_ok(v),
            r matches Ok(resp) ==> spec_response_matches(v, resp),
            r matches Err(e) ==> e is Json,
    {
        let mut pairs = match v {
            JsonValue::Obj(pairs) => pairs,
            _ => { return Err(shape_error()); },
        };
        let ghost ps = pairs@;
        proof {
            reveal_strlit("search_metadata");
            reveal_strlit("organic");
            reveal_strlit("answer_box");
            reveal_strlit("knowledge_graph");
            reveal_strlit("related_questions");
            reveal_strlit("shopping");
            reveal_strlit("news");
            assert("search_metadata"@.len() == 15 && "organic"@.len() == 7
                && "answer_box"@.len() == 10 && "knowledge_graph"@.len() == 15
                && "related_questions"@.len() == 17 && "shopping"@.len() == 8
                && "news"@.len() == 4);
            assert("search_metadata"@[0] == 's' && "knowledge_graph"@[0] == 'k');
        }
        let mv = take_first(&mut pairs, "search_metadata");
        proof {
            lemma_remove_first_other(ps, "search_metadata"@, "organic"@);
            lemma_remove_first_other(ps, "search_metadata"@, "answer_box"@);
            lemma_remove_first_other(ps, "search_metadata"@, "knowledge_graph"@);
            lemma_remove_first_other(ps, "search_metadata"@, "related_questions"@);
            lemma_remove_first_other(ps, "search_metadata"@, "shopping"@);
            lemma_remove_first_other(ps, "search_metadata"@, "news"@);
        }
        let ov = take_first(&mut pairs, "organic");
        proof {
            let ps1 = spec_remove_first(ps, "search_metadata"@);
            lemma_remove_first_other(ps1, "organic"@, "answer_box"@);
            lemma_remove_first_other(ps1, "organic"@, "knowledge_graph"@);
            lemma_remove_first_other(ps1, "organic"@, "related_questions"@);
            lemma_remove_first_other(ps1, "organic"@, "shopping"@);
            lemma_remove_first_other(ps1, "organic"@, "news"@);
        }
        let av = take_first(&mut pairs, "answer_box");
        proof {
            let ps2 = spec_remove_first(spec_remove_first(ps, "search_metadata"@), "organic"@);
            lemma_remove_first_other(ps2, "answer_box"@, "knowledge_graph"@);
            lemma_remove_first_other(ps2, "answer_box"@, "related_questions"@);
            lemma_remove_first_other(ps2, "answer_box"@, "shopping"@);
            lemma_remove_first_other(ps2, "answer_box"@, "news"@);
        }
        let kv = take_first(&mut pairs, "knowledge_graph");
        proof {
            let ps3 = spec_remove_first(
                spec_remove_first(spec_remove_first(ps, "search_metadata"@), "organic"@),
                "answer_box"@,
            );
            lemma_remove_first_other(ps3, "knowledge_graph"@, "related_questions"@);
            lemma_remove_first_other(ps3, "knowledge_graph"@, "shopping"@);
            lemma_remove_first_other(ps3, "knowledge_graph"@, "news"@);
        }
        let rv = take_first(&mut pairs, "related_questions");
        proof {
            let ps4 = spec_remove_first(
                spec_remove_first(
                    spec_remove_first(spec_remove_first(ps, "search_metadata"@), "organic"@),
                    "answer_box"@,
                ),
                "knowledge_graph"@,
            );
            lemma_remove_first_other(ps4, "related_questions"@, "shopping"@);
            lemma_remove_first_other(ps4, "related_questions"@, "news"@);
        }
        let sv = take_first(&mut pairs, "shopping");
        proof {
            let ps5 = spec_remove_first(
                spec_remove_first(
                    spec_remove_first(
                        spec_remove_first(spec_remove_first(ps, "search_metadata"@), "organic"@),
                        "answer_box"@,
                    ),
                    "knowledge_graph"@,
                ),
                "related_questions"@,
            );
            lemma_remove_first_other(ps5, "shopping"@, "news"@);
        }
        let nv = take_first(&mut pairs, "news");
        let search_metadata = match mv {
            None => None,
            Some(JsonValue::Null) => None,
            Some(w) => match SearchMetadata::from_json(w) {
                Ok(m) => Some(m),
                Err(e) => { return Err(e); },
            },
        };
        let organic = match ov {
            None => None,
            Some(JsonValue::Null) => None,
            Some(JsonValue::Arr(items)) => match organic_list_from_json(items) {
                Ok(l) => Some(l),
                Err(e) => { return Err(e); },
            },
            Some(_) => { return Err(shape_error()); },
        };
        let answer_box = match av {
            None => None,
            Some(JsonValue::Null) => None,
            Some(w) => match AnswerBox::from_json(w) {
                Ok(a) => Some(a),
                Err(e) => { return Err(e); },
            },
        };
        let knowledge_graph = match kv {
            None => None,
            Some(JsonValue::Null) => None,
            Some(w) => match KnowledgeGraph::from_json(w) {
                Ok(k) => Some(k),
                Err(e) => { return Err(e); },
            },
        };
        let related_questions = match rv {
            None => None,
            Some(JsonValue::Null) => None,
            Some(JsonValue::Arr(items)) => match related_list_from_json(items) {
                Ok(l) => Some(l),
                Err(e) => { return Err(e); },
            },
            Some(_) => { return Err(shape_error()); },
        };
        let shopping = match sv {
            None => None,
            Some(JsonValue::Null) => None,
            Some(JsonValue::Arr(items)) => match shopping_list_from_json(items) {
                Ok(l) => Some(l),
                Err(e) => { return Err(e); },
            },
            Some(_) => { return Err(shape_error()); },
        };
        let news = match nv {
            None => None,
            Some(JsonValue::Null) => None,
            Some(JsonValue::Arr(items)) => match news_list_from_json(items) {
                Ok(l) => Some(l),
                Err(e) => { return Err(e); },
            },
            Some(_) => { return Err(shape_error()); },
        };
        Ok(SearchResponse {
            search_metadata,
            organic,
            answer_box,
            knowledge_graph,
            related_questions,
            shopping,
            news,
        })
    }

    /// Checks whether the response carries any results.
    pub fn has_results(&self) -> (r: bool)
        ensures
            r == spec_has_results(*self),
    {
        let organic_nonempty = match &self.organic {
            Some(o) => o.len() > 0,
            None => false,
        };
        let shopping_nonempty = match &self.shopping {
            Some(s) => s.len() > 0,
            None => false,
        };
        let news_nonempty = match &self.news {
            Some(n) => n.len() > 0,
            None => false,
        };
        organic_nonempty || self.answer_box.is_some() || self.knowledge_graph.is_some()
            || shopping_nonempty || news_nonempty
    }

    /// Returns the number of organic results.
    pub fn organic_count(&self) -> (r: usize)
        ensures
            r == (match self.organic {
                Some(o) => o@.len(),
                None => 0,
            }),
    {
        match &self.organic {
            Some(o) => o.len(),
            None => 0,
        }
    }

    /// Returns the organic results as a slice, empty when the section is
    /// absent.
    pub fn organic_results(&self) -> (r: &[OrganicResult])
        ensures
            r@ == (match self.organic {
                Some(o) => o@,
                None => Seq::<OrganicResult>::empty(),
            }),
    {
        match &self.organic {
            Some(o) => o.as_slice(),
            None => &[],
        }
    }

    /// Returns the first organic result, if there is one.
    pub fn first_result(&self) -> (r: Option<&OrganicResult>)
        ensures
            (self.organic matches Some(o) && o@.len() > 0) ==> (r matches Some(first)
                && *first == self.organic->0@[0]),
            !(self.organic matches Some(o) && o@.len() > 0) ==> r is None,
    {
        match &self.organic {
            Some(o) => {
                if o.len() > 0 {
                    Some(&o[0])
                } else {
                    None
                }
            },
            None => None,
        }
    }

    /// Extracts the URLs of all organic results, in order.
    pub fn extract_urls(&self) -> (r: Vec<&str>)
        ensures
            r@.len() == (match self.organic {
                Some(o) => o@.len(),
                None => 0,
            }),
            self.organic matches Some(o) ==> forall|i: int|
                0 <= i < o@.len() ==> (#[trigger] r@[i])@ == o@[i].link@,
    {
        let mut urls: Vec<&str> = Vec::new();
        match &self.organic {
            Some(o) => {
                let n = o.len();
                let mut i: usize = 0;
                while i < n
                    invariant
                        0 <= i <= n,
                        n == o@.len(),
                        urls@.len() == i,
                        forall|j: int| 0 <= j < i ==> (#[trigger] urls@[j])@ == o@[j].link@,
                    decreases n - i,
                {
                    urls.push(o[i].link.as_str());
                    i += 1;
                }
            },
            None => {},
        }
        urls
    }
}

impl Default for SearchResponse {
    /// An empty search response with every section absent.
    fn default() -> (r: Self)
        ensures
            r.search_metadata is None && r.organic is None && r.answer_box is None,
            r.knowledge_graph is None && r.related_questions is None,
            r.shopping is None && r.news is None,
    {
        SearchResponse::new()
    }
}

/// A response is structurally sound when its metadata, where present, has a
/// non-empty id, and every organic result has a non-empty title and link.
pub open spec fn spec_response_sound(r: SearchResponse) -> bool {
    &&& (r.search_metadata matches Some(m) ==> m.id@.len() > 0)
    &&& (r.organic matches Some(list) ==> forall|i: int|
        0 <= i < list@.len() ==> (#[trigger] list@[i]).title@.len() > 0 && list@[i].link@.len() > 0)
}

/// Structural soundness of the metadata section, read off the JSON value:
/// where an `id` string is present it is non-empty.
pub open spec fn spec_metadata_sound_in(w: JsonValue) -> bool {
    match w {
        JsonValue::Obj(mp) => match spec_req_text(mp@, "id"@) {
            Some(s) => s@.len() > 0,
            None => true,
        },
        _ => true,
    }
}

/// Structural soundness of one organic result, read off the JSON value:
/// where title and link strings are present they are non-empty.
pub open spec fn spec_organic_sound_in(w: JsonValue) -> bool {
    match w {
        JsonValue::Obj(op) => {
            &&& (match spec_req_text(op@, "title"@) {
                Some(s) => s@.len() > 0,
                None => true,
            })
            &&& (match spec_req_text(op@, "link"@) {
                Some(s) => s@.len() > 0,
                None => true,
            })
        },
        _ => true,
    }
}

/// Structural soundness of a whole response, read off the JSON value it is
/// decoded from: the metadata id, where present, is non-empty, and every
/// organic result's title and link are non-empty.
pub open spec fn spec_decoded_sound(v: JsonValue) -> bool {
    match v {
        JsonValue::Obj(pairs) => {
            &&& (match spec_first_val(pairs@, "search_metadata"@) {
                Some(w) => spec_metadata_sound_in(w),
                None => true,
            })
            &&& (match spec_first_val(pairs@, "organic"@) {
                Some(JsonValue::Arr(items)) => forall|i: int|
                    0 <= i < items@.len() ==> spec_organic_sound_in(#[trigger] items@[i]),
                _ => true,
            })
        },
        _ => true,
    }
}

/// On a decoded response, the structural sanity checks agree with the
/// soundness read off the JSON value it was decoded from.
pub proof fn lemma_matches_sound(v: JsonValue, resp: SearchResponse)
    requires
        spec_response_matches(v, resp),
    ensures
        spec_response_sound(resp) <==> spec_decoded_sound(v),
{
    let pairs = v->Obj_0;
    let meta_sound_in = match spec_first_val(pairs@, "search_metadata"@) {
        Some(w) => spec_metadata_sound_in(w),
        None => true,
    };
    let meta_sound = resp.search_metadata matches Some(m) ==> m.id@.len() > 0;
    assert(meta_sound_in == meta_sound);
    match spec_first_val(pairs@, "organic"@) {
        Some(JsonValue::Arr(items)) => {
            let list = resp.organic->0;
            assert(resp.organic is Some && list@.len() == items@.len());
            let organic_sound_in = forall|i: int|
                0 <= i < items@.len() ==> spec_organic_sound_in(#[trigger] items@[i]);
            let organic_sound = forall|i: int|
                0 <= i < list@.len() ==> (#[trigger] list@[i]).title@.len() > 0
                    && list@[i].link@.len() > 0;
            if organic_sound {
                assert forall|i: int| 0 <= i < items@.len()
                    implies spec_organic_sound_in(#[trigger] items@[i]) by {
                    assert(spec_organic_matches(items@[i], list@[i]));
                    assert(list@[i].title@.len() > 0 && list@[i].link@.len() > 0);
                }
            }
            if organic_sound_in {
                assert forall|i: int| 0 <= i < list@.len()
                    implies (#[trigger] list@[i]).title@.len() > 0 && list@[i].link@.len() > 0 by {
                    assert(spec_organic_matches(items@[i], list@[i]));
                    assert(spec_organic_sound_in(items@[i]));
                }
            }
            assert(organic_sound_in == organic_sound);
        },
        _ => {
            assert(resp.organic is None);
        },
    }
}

/// Decoded from the empty JSON object, a response has every section absent,
/// reports no results, and counts zero organic results.
pub proof fn lemma_empty_object_response(v: JsonValue, resp: SearchResponse)
    requires
        v matches JsonValue::Obj(pairs) && pairs@.len() == 0,
        spec_response_matches(v, resp),
    ensures
        resp.search_metadata is None && resp.organic is None && resp.answer_box is None,
        resp.knowledge_graph is None && resp.related_questions is None,
        resp.shopping is None && resp.news is None,
        !spec_has_results(resp),
        (match resp.organic {
            Some(o) => o@.len(),
            None => 0,
        }) == 0,
{
}

/// A decoded response with an organic result whose title is empty fails the
/// structural sanity checks, although its decoding succeeded.
pub proof fn lemma_empty_title_unsound(v: JsonValue, resp: SearchResponse, i: int)
    requires
        spec_response_matches(v, resp),
        resp.organic matches Some(list) && 0 <= i < list@.len() && list@[i].title@.len() == 0,
    ensures
        !spec_response_sound(resp),
        !spec_decoded_sound(v),
{
    lemma_matches_sound(v, resp);
}

/// Decoding and structural validation of response bodies.
pub struct ResponseParser;

impl ResponseParser {
    /// Parses a JSON response body into a [`SearchResponse`].
    ///
    /// Fails with a JSON error when the body is not valid JSON or does not
    /// have the shape of a search response.
    pub fn parse_response(json_str: &str) -> (r: Result<SearchResponse, SerperError>)
        ensures
            spec_json_parse(json_str@) is None ==> (r matches Err(e) && e is Json),
            spec_json_parse(json_str@) matches Some(v) ==> {
                &&& r is Ok <==> spec_response_ok(v)
                &&& (r matches Ok(resp) ==> spec_response_matches(v, resp))
                &&& (r matches Err(e) ==> e is Json)
            },
    {
        let v = match parse_json(json_str) {
            Ok(v) => v,
            Err(message) => { return Err(SerperError::Json { message }); },
        };
        SearchResponse::from_json(v)
    }

    /// Runs the structural sanity checks over a decoded response: a present
    /// metadata id must be non-empty, and every organic result must have a
    /// non-empty title and link.
    #[verifier::loop_isolation(false)]
    pub fn validate_response(response: &SearchResponse) -> (r: Result<(), SerperError>)
        ensures
            r is Ok <==> spec_response_sound(*response),
            r matches Err(e) ==> e is Validation,
    {
        if let Some(metadata) = &response.search_metadata {
            if metadata.id.as_str().is_empty() {
                return Err(SerperError::Validation {
                    message: "Response metadata has empty ID".to_owned(),
                });
            }
        }
        if let Some(organic) = &response.organic {
            let n = organic.len();
            let mut i: usize = 0;
            while i < n
                invariant
                    0 <= i <= n,
                    n == organic@.len(),
                    forall|j: int| 0 <= j < i ==> (#[trigger] organic@[j]).title@.len() > 0
                        && organic@[j].link@.len() > 0,
                decreases n - i,
            {
                if organic[i].title.as_str().is_empty() {
                    proof {
                        assert(response.organic is Some);
                        assert(*organic == response.organic->0);
                        assert(organic@[i as int].title@.len() == 0);
                        assert(!spec_response_sound(*response));
                    }
                    let mut message = "Organic result ".to_owned();
                    let digits = crate::utils::string::decimal_string(i as u64);
                    message.append(digits.as_str());
                    message.append(" has empty title");
                    return Err(SerperError::Validation { message });
                }
                if organic[i].link.as_str().is_empty() {
                    proof {
                        assert(response.organic is Some);
                        assert(*organic == response.organic->0);
                        assert(organic@[i as int].link@.len() == 0);
                        assert(!spec_response_sound(*response));
                    }
                    let mut message = "Organic result ".to_owned();
                    let digits = crate::utils::string::decimal_string(i as u64);
                    message.append(digits.as_str());
                    message.append(" has empty link");
                    return Err(SerperError::Validation { message });
                }
                i += 1;
            }
        }
        Ok(())
    }
}

} // verus!
