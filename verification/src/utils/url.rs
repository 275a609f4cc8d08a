//! URL validation utilities.
//!
//! Whether a text is a well-formed URL, and what its host is, are decided by
//! the `url` crate; both are functions of the text alone and carry names
//! here. The checks around them — emptiness, the scheme prefix — are
//! verified.

use vstd::prelude::*;
use crate::error::SerperError;
use crate::utils::string::{spec_is_blank, is_blank, str_starts_with};

verus! {

/// Whether `url::Url::parse` accepts a text.
pub uninterp spec fn spec_url_accepts(s: Seq<char>) -> bool;

/// The host that `url::Url::host_str` reads out of a parsed URL, a function
/// of the URL text alone; `None` where the URL has no host.
pub uninterp spec fn spec_url_host(s: Seq<char>) -> Option<Seq<char>>;

/// Relies on `url::Url::parse` and `url::Url::host_str`: parses the text as
/// a URL and reads its host. The outer `None` means the text is not a valid
/// URL; the inner `None` a valid URL without a host.
#[verifier::external_body]
fn parse_url_host(s: &str) -> (r: Option<Option<String>>)
    ensures
        r is Some <==> spec_url_accepts(s@),
        r matches Some(h) ==> (h is Some <==> spec_url_host(s@) is Some),
        r matches Some(h) ==> (h matches Some(host) ==> Some(host@) == spec_url_host(s@)),
{
    match url::Url::parse(s) {
        Ok(u) => Some(u.host_str().map(|h| h.to_string())),
        Err(_) => None,
    }
}

/// Validates that a text is a well-formed URL.
///
/// Fails with a validation error when the text is blank or when the URL
/// parser rejects it.
pub fn validate_url(url: &str) -> (r: Result<(), SerperError>)
    ensures
        r is Ok <==> (!spec_is_blank(url@) && spec_url_accepts(url@)),
        r matches Err(e) ==> e is Validation,
{
    if is_blank(url) {
        return Err(SerperError::Validation { message: "URL cannot be empty".to_owned() });
    }
    match parse_url_host(url) {
        Some(_) => Ok(()),
        None => {
            let mut message = "Invalid URL: ".to_owned();
            message.append(url);
            Err(SerperError::Validation { message })
        },
    }
}

/// Validates that a text is a well-formed URL and uses the `https` scheme.
pub fn validate_https(url: &str) -> (r: Result<(), SerperError>)
    ensures
        r is Ok <==> (!spec_is_blank(url@) && spec_url_accepts(url@) && url@.len() >= 8
            && url@.subrange(0, 8) == "https://"@),
        r matches Err(e) ==> e is Validation,
{
    match validate_url(url) {
        Ok(()) => {},
        Err(e) => { return Err(e); },
    }
    proof {
        reveal_strlit("https://");
    }
    if !str_starts_with(url, "https://") {
        return Err(SerperError::Validation { message: "URL must use HTTPS".to_owned() });
    }
    Ok(())
}

/// Extracts the host from a URL.
///
/// Fails with a validation error when the text is not a valid URL or when
/// the URL has no host.
pub fn extract_domain(url: &str) -> (r: Result<String, SerperError>)
    ensures
        r is Ok <==> (spec_url_accepts(url@) && spec_url_host(url@) is Some),
        r matches Ok(host) ==> Some(host@) == spec_url_host(url@),
        r matches Err(e) ==> e is Validation,
{
    match parse_url_host(url) {
        Some(Some(host)) => Ok(host),
        Some(None) => Err(SerperError::Validation { message: "URL has no domain".to_owned() }),
        None => {
            let mut message = "Invalid URL: ".to_owned();
            message.append(url);
            Err(SerperError::Validation { message })
        },
    }
}

} // verus!
