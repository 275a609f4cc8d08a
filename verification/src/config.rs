//! SDK configuration: defaults, fluent updates, validation, and the rules
//! for overriding values from the environment.
//!
//! Reading the environment itself is I/O and lives in the unverified shell;
//! it hands the raw variable values in here, where every override rule —
//! which values parse, which are silently ignored — is verified.

use vstd::prelude::*;
use crate::error::SerperError;
use crate::utils::collections::{spec_assoc_without, assoc_set};
use crate::utils::string::{spec_is_blank, is_blank, str_starts_with};

verus! {

/// A decimal digit's numeric value.
pub open spec fn spec_digit_val(c: char) -> nat {
    ((c as u32) - 48) as nat
}

/// Whether every character of a text is a decimal digit.
pub open spec fn spec_all_digits(s: Seq<char>) -> bool {
    forall|i: int| 0 <= i < s.len() ==> '0' <= #[trigger] s[i] && s[i] <= '9'
}

/// The numeric value of a digit string.
pub open spec fn spec_digits_val(s: Seq<char>) -> nat
    decreases s.len(),
{
    if s.len() == 0 {
        0
    } else {
        spec_digits_val(s.drop_last()) * 10 + spec_digit_val(s.last())
    }
}

/// The digit part of a decimal text: everything after an optional leading
/// plus sign.
pub open spec fn spec_decimal_digits(s: Seq<char>) -> Seq<char> {
    if s.len() > 0 && s[0] == '+' {
        s.drop_first()
    } else {
        s
    }
}

/// What parsing a text as an unsigned 64-bit decimal number gives: after an
/// optional leading plus sign, the value when at least one digit follows,
/// every character is a digit, and the value fits; nothing otherwise.
pub open spec fn spec_parse_u64(s: Seq<char>) -> Option<u64> {
    let digits = spec_decimal_digits(s);
    if digits.len() > 0 && spec_all_digits(digits) && spec_digits_val(digits) <= u64::MAX {
        Some(spec_digits_val(digits) as u64)
    } else {
        None
    }
}

/// A longer digit prefix never has a smaller value.
proof fn lemma_digits_val_monotone(s: Seq<char>, i: int, k: int)
    requires
        0 <= i <= k <= s.len(),
    ensures
        spec_digits_val(s.take(i)) <= spec_digits_val(s.take(k)),
    decreases k - i,
{
    if i < k {
        lemma_digits_val_monotone(s, i, k - 1);
        assert(s.take(k).drop_last() =~= s.take(k - 1));
        assert(spec_digits_val(s.take(k)) == spec_digits_val(s.take(k - 1)) * 10 + spec_digit_val(
            s.take(k).last(),
        ));
    }
}

/// Parses a text as an unsigned 64-bit decimal number, the way
/// `str::parse::<u64>` reads it: an optional leading plus sign, then at
/// least one decimal digit, and the value must fit in 64 bits.
#[verifier::loop_isolation(false)]
pub fn parse_u64(s: &str) -> (r: Option<u64>)
    ensures
        r == spec_parse_u64(s@),
{
    let n = s.unicode_len();
    let start: usize = if n > 0 && s.get_char(0) == '+' {
        1
    } else {
        0
    };
    let ghost digits = spec_decimal_digits(s@);
    proof {
        assert(digits =~= s@.skip(start as int));
    }
    if n == start {
        return None;
    }
    let mut acc: u64 = 0;
    let mut i: usize = start;
    while i < n
        invariant
            start <= i <= n,
            spec_all_digits(digits.take(i - start)),
            acc == spec_digits_val(digits.take(i - start)),
        decreases n - i,
    {
        let c = s.get_char(i);
        proof {
            assert(digits[i - start] == s@[i as int]);
        }
        if c < '0' || c > '9' {
            return None;
        }
        let d: u64 = (c as u32 - 48) as u64;
        let wide: u128 = acc as u128 * 10 + d as u128;
        proof {
            assert(digits.take(i - start + 1).drop_last() =~= digits.take(i - start));
            assert(digits.take(i - start + 1).last() == digits[i - start]);
        }
        if wide > u64::MAX as u128 {
            proof {
                lemma_digits_val_monotone(digits, i - start + 1, n - start);
                assert(digits.take(n - start) =~= digits);
            }
            return None;
        }
        acc = wide as u64;
        i += 1;
    }
    proof {
        assert(digits.take(n - start) =~= digits);
    }
    Some(acc)
}

/// An ASCII upper-case letter lowered; any other character unchanged.
pub open spec fn spec_ascii_lower(c: char) -> char {
    if 'A' <= c && c <= 'Z' {
        (((c as u32) + 32) as char)
    } else {
        c
    }
}

/// Whether a text equals `true` up to ASCII case.
pub open spec fn spec_is_true_text(s: Seq<char>) -> bool {
    &&& s.len() == 4
    &&& spec_ascii_lower(s[0]) == 't'
    &&& spec_ascii_lower(s[1]) == 'r'
    &&& spec_ascii_lower(s[2]) == 'u'
    &&& spec_ascii_lower(s[3]) == 'e'
}

/// Checks whether a text equals `true` up to ASCII case.
pub fn is_true_text(s: &str) -> (r: bool)
    ensures
        r == spec_is_true_text(s@),
{
    let n = s.unicode_len();
    if n != 4 {
        return false;
    }
    let lower = |c: char| -> (l: char)
        ensures
            l == spec_ascii_lower(c),
        {
            if 'A' <= c && c <= 'Z' {
                ((c as u32 + 32) as u8) as char
            } else {
                c
            }
        };
    lower(s.get_char(0)) == 't' && lower(s.get_char(1)) == 'r' && lower(s.get_char(2)) == 'u'
        && lower(s.get_char(3)) == 'e'
}

/// The main SDK configuration.
#[derive(Debug, Clone)]
pub struct SdkConfig {
    /// API key for authentication.
    pub api_key: String,
    /// Base URL of the API.
    pub base_url: String,
    /// Request timeout, in seconds.
    pub timeout_secs: u64,
    /// Ceiling on the number of concurrent requests.
    pub max_concurrent_requests: usize,
    /// Default headers sent with every request, in insertion order.
    pub default_headers: Vec<(String, String)>,
    /// User agent string.
    pub user_agent: String,
    /// Whether request and response logging is on.
    pub enable_logging: bool,
}

/// A configuration is valid when the key and base URL are not blank, the
/// base URL names an HTTP scheme, and the timeout and concurrency ceiling
/// are positive.
pub open spec fn spec_config_valid(c: SdkConfig) -> bool {
    &&& !spec_is_blank(c.api_key@)
    &&& !spec_is_blank(c.base_url@)
    &&& ((c.base_url@.len() >= 7 && c.base_url@.subrange(0, 7) == "http://"@) || (c.base_url@.len()
        >= 8 && c.base_url@.subrange(0, 8) == "https://"@))
    &&& c.timeout_secs > 0
    &&& c.max_concurrent_requests > 0
}

/// What a fresh configuration holds for a given key: the default base URL,
/// a 30-second timeout, a ceiling of 5 concurrent requests, the JSON
/// content-type header, the library's user agent, and logging off.
pub open spec fn spec_default_config(c: SdkConfig, api_key: String) -> bool {
    &&& c.api_key == api_key
    &&& c.base_url@ == "https://google.serper.dev"@
    &&& c.timeout_secs == 30
    &&& c.max_concurrent_requests == 5
    &&& c.default_headers@.len() == 1
    &&& c.default_headers@[0].0@ == "Content-Type"@
    &&& c.default_headers@[0].1@ == "application/json"@
    &&& c.user_agent@ == "serper-sdk/0.1.0"@
    &&& c.enable_logging == false
}

impl SdkConfig {
    /// Creates a configuration with the given key and the default values.
    pub fn new(api_key: String) -> (r: Self)
        ensures
            spec_default_config(r, api_key),
    {
        let mut default_headers: Vec<(String, String)> = Vec::new();
        default_headers.push(("Content-Type".to_owned(), "application/json".to_owned()));
        SdkConfig {
            api_key,
            base_url: "https://google.serper.dev".to_owned(),
            timeout_secs: 30,
            max_concurrent_requests: 5,
            default_headers,
            user_agent: "serper-sdk/0.1.0".to_owned(),
            enable_logging: false,
        }
    }

    /// Builds a configuration from the values of the environment variables,
    /// handed in as plain optional strings.
    ///
    /// The key is required; a missing key is a configuration error. The
    /// other values override their defaults where present — the numeric ones
    /// only where they parse as decimal numbers, silently kept at their
    /// defaults otherwise — and logging turns on exactly when the flag value
    /// equals `true` up to ASCII case.
    pub fn from_env_values(
        api_key: Option<String>,
        base_url: Option<String>,
        timeout_secs: Option<String>,
        max_concurrent: Option<String>,
        user_agent: Option<String>,
        enable_logging: Option<String>,
    ) -> (r: Result<SdkConfig, SerperError>)
        ensures
            r is Ok <==> api_key is Some,
            api_key is None ==> (r matches Err(e) && e matches SerperError::Config { message }
                && message@ == "SERPER_API_KEY environment variable is required"@),
            r matches Ok(c) ==> {
                &&& (api_key matches Some(k) ==> c.api_key == k)
                &&& c.base_url@ == (match base_url {
                    Some(u) => u@,
                    None => "https://google.serper.dev"@,
                })
                &&& c.timeout_secs == (match timeout_secs {
                    Some(t) => match spec_parse_u64(t@) {
                        Some(v) => v,
                        None => 30u64,
                    },
                    None => 30u64,
                })
                &&& c.max_concurrent_requests == (match max_concurrent {
                    Some(t) => match spec_parse_u64(t@) {
                        Some(v) => if v <= usize::MAX as u64 {
                            v as usize
                        } else {
                            5usize
                        },
                        None => 5usize,
                    },
                    None => 5usize,
                })
                &&& c.user_agent@ == (match user_agent {
                    Some(u) => u@,
                    None => "serper-sdk/0.1.0"@,
                })
                &&& c.enable_logging == (match enable_logging {
                    Some(f) => spec_is_true_text(f@),
                    None => false,
                })
                &&& c.default_headers@.len() == 1
                &&& c.default_headers@[0].0@ == "Content-Type"@
                &&& c.default_headers@[0].1@ == "application/json"@
            },
    {
        let key = match api_key {
            Some(k) => k,
            None => {
                return Err(SerperError::Config {
                    message: "SERPER_API_KEY environment variable is required".to_owned(),
                });
            },
        };
        let mut config = SdkConfig::new(key);
        if let Some(url) = base_url {
            config.base_url = url;
        }
        if let Some(t) = timeout_secs {
            if let Some(v) = parse_u64(t.as_str()) {
                config.timeout_secs = v;
            }
        }
        if let Some(t) = max_concurrent {
            if let Some(v) = parse_u64(t.as_str()) {
                if v <= usize::MAX as u64 {
                    config.max_concurrent_requests = v as usize;
                }
            }
        }
        if let Some(u) = user_agent {
            config.user_agent = u;
        }
        if let Some(f) = enable_logging {
            config.enable_logging = is_true_text(f.as_str());
        }
        Ok(config)
    }

    /// Validates the configuration.
    ///
    /// Succeeds exactly when the key and base URL are not blank, the base
    /// URL starts with `http://` or `https://`, and the timeout and the
    /// concurrency ceiling are positive.
    pub fn validate(&self) -> (r: Result<(), SerperError>)
        ensures
            r is Ok <==> spec_config_valid(*self),
            r matches Err(e) ==> e is Config,
    {
        proof {
            reveal_strlit("http://");
            reveal_strlit("https://");
        }
        if is_blank(self.api_key.as_str()) {
            return Err(SerperError::Config { message: "API key cannot be empty".to_owned() });
        }
        if is_blank(self.base_url.as_str()) {
            return Err(SerperError::Config { message: "Base URL cannot be empty".to_owned() });
        }
        if !str_starts_with(self.base_url.as_str(), "http://") && !str_starts_with(
            self.base_url.as_str(),
            "https://",
        ) {
            return Err(SerperError::Config {
                message: "Base URL must start with http:// or https://".to_owned(),
            });
        }
        if self.timeout_secs == 0 {
            return Err(SerperError::Config {
                message: "Timeout must be greater than 0".to_owned(),
            });
        }
        if self.max_concurrent_requests == 0 {
            return Err(SerperError::Config {
                message: "Max concurrent requests must be greater than 0".to_owned(),
            });
        }
        Ok(())
    }

    /// Sets the base URL.
    pub fn with_base_url(self, base_url: String) -> (r: Self)
        ensures
            r == (SdkConfig { base_url, ..self }),
    {
        SdkConfig { base_url, ..self }
    }

    /// Sets the timeout, in seconds.
    pub fn with_timeout(self, timeout_secs: u64) -> (r: Self)
        ensures
            r == (SdkConfig { timeout_secs, ..self }),
    {
        SdkConfig { timeout_secs, ..self }
    }

    /// Sets the ceiling on concurrent requests.
    pub fn with_max_concurrent(self, max_concurrent: usize) -> (r: Self)
        ensures
            r == (SdkConfig { max_concurrent_requests: max_concurrent, ..self }),
    {
        SdkConfig { max_concurrent_requests: max_concurrent, ..self }
    }

    /// Sets a default header, replacing any earlier value under the key.
    pub fn with_header(self, key: String, value: String) -> (r: Self)
        ensures
            r.default_headers@ == spec_assoc_without(self.default_headers@, key@).push((key, value)),
            r.api_key == self.api_key && r.base_url == self.base_url,
            r.timeout_secs == self.timeout_secs,
            r.max_concurrent_requests == self.max_concurrent_requests,
            r.user_agent == self.user_agent && r.enable_logging == self.enable_logging,
    {
        let default_headers = assoc_set(self.default_headers, key, value);
        SdkConfig { default_headers, ..self }
    }

    /// Sets the user agent.
    pub fn with_user_agent(self, user_agent: String) -> (r: Self)
        ensures
            r == (SdkConfig { user_agent, ..self }),
    {
        SdkConfig { user_agent, ..self }
    }

    /// Turns logging on or off.
    pub fn with_logging(self, enable: bool) -> (r: Self)
        ensures
            r == (SdkConfig { enable_logging: enable, ..self }),
    {
        SdkConfig { enable_logging: enable, ..self }
    }
}

/// Builder for SDK configurations.
pub struct SdkConfigBuilder {
    /// The API key collected so far.
    pub api_key: Option<String>,
    /// The base URL collected so far.
    pub base_url: Option<String>,
    /// The timeout collected so far, in seconds.
    pub timeout_secs: Option<u64>,
    /// The concurrency ceiling collected so far.
    pub max_concurrent_requests: Option<usize>,
    /// The default headers collected so far.
    pub default_headers: Vec<(String, String)>,
    /// The user agent collected so far.
    pub user_agent: Option<String>,
    /// Whether logging was switched on.
    pub enable_logging: bool,
}

/// The configuration a builder assembles before validating it.
pub open spec fn spec_built_config(b: SdkConfigBuilder, c: SdkConfig) -> bool {
    &&& (b.api_key matches Some(k) ==> c.api_key == k)
    &&& b.api_key is Some
    &&& c.base_url@ == (match b.base_url {
        Some(u) => u@,
        None => "https://google.serper.dev"@,
    })
    &&& c.timeout_secs == (match b.timeout_secs {
        Some(t) => t,
        None => 30u64,
    })
    &&& c.max_concurrent_requests == (match b.max_concurrent_requests {
        Some(m) => m,
        None => 5usize,
    })
    &&& c.default_headers == b.default_headers
    &&& c.user_agent@ == (match b.user_agent {
        Some(u) => u@,
        None => "serper-sdk/0.1.0"@,
    })
    &&& c.enable_logging == b.enable_logging
}

/// What validation will say of the configuration a builder assembles: the
/// collected key is not blank, a collected base URL is not blank and names
/// an HTTP scheme (the default base URL always does), and collected timeout
/// and concurrency values are positive (the defaults always are).
pub open spec fn spec_builder_valid(b: SdkConfigBuilder) -> bool {
    &&& (b.api_key matches Some(k) ==> !spec_is_blank(k@))
    &&& (match b.base_url {
        Some(u) => !spec_is_blank(u@) && ((u@.len() >= 7 && u@.subrange(0, 7) == "http://"@) || (
        u@.len() >= 8 && u@.subrange(0, 8) == "https://"@)),
        None => true,
    })
    &&& (b.timeout_secs matches Some(t) ==> t > 0)
    &&& (b.max_concurrent_requests matches Some(m) ==> m > 0)
}

impl SdkConfigBuilder {
    /// Creates a builder holding only the JSON content-type header.
    pub fn new() -> (r: Self)
        ensures
            r.api_key is None && r.base_url is None && r.timeout_secs is None,
            r.max_concurrent_requests is None && r.user_agent is None,
            r.enable_logging == false,
            r.default_headers@.len() == 1,
            r.default_headers@[0].0@ == "Content-Type"@,
            r.default_headers@[0].1@ == "application/json"@,
    {
        let mut default_headers: Vec<(String, String)> = Vec::new();
        default_headers.push(("Content-Type".to_owned(), "application/json".to_owned()));
        SdkConfigBuilder {
            api_key: None,
            base_url: None,
            timeout_secs: None,
            max_concurrent_requests: None,
            default_headers,
            user_agent: None,
            enable_logging: false,
        }
    }

    /// Sets the API key.
    pub fn api_key(self, api_key: &str) -> (r: Self)
        ensures
            r.api_key matches Some(k) && k@ == api_key@,
            r.base_url == self.base_url && r.timeout_secs == self.timeout_secs,
            r.max_concurrent_requests == self.max_concurrent_requests,
            r.default_headers == self.default_headers,
            r.user_agent == self.user_agent && r.enable_logging == self.enable_logging,
    {
        SdkConfigBuilder { api_key: Some(api_key.to_owned()), ..self }
    }

    /// Sets the base URL.
    pub fn base_url(self, base_url: &str) -> (r: Self)
        ensures
            r.base_url matches Some(u) && u@ == base_url@,
            r.api_key == self.api_key && r.timeout_secs == self.timeout_secs,
            r.max_concurrent_requests == self.max_concurrent_requests,
            r.default_headers == self.default_headers,
            r.user_agent == self.user_agent && r.enable_logging == self.enable_logging,
    {
        SdkConfigBuilder { base_url: Some(base_url.to_owned()), ..self }
    }

    /// Sets the timeout, in seconds.
    pub fn timeout(self, timeout_secs: u64) -> (r: Self)
        ensures
            r.timeout_secs == Some(timeout_secs),
            r.api_key == self.api_key && r.base_url == self.base_url,
            r.max_concurrent_requests == self.max_concurrent_requests,
            r.default_headers == self.default_headers,
            r.user_agent == self.user_agent && r.enable_logging == self.enable_logging,
    {
        SdkConfigBuilder { timeout_secs: Some(timeout_secs), ..self }
    }

    /// Sets the ceiling on concurrent requests.
    pub fn max_concurrent(self, max_concurrent: usize) -> (r: Self)
        ensures
            r.max_concurrent_requests == Some(max_concurrent),
            r.api_key == self.api_key && r.base_url == self.base_url,
            r.timeout_secs == self.timeout_secs,
            r.default_headers == self.default_headers,
            r.user_agent == self.user_agent && r.enable_logging == self.enable_logging,
    {
        SdkConfigBuilder { max_concurrent_requests: Some(max_concurrent), ..self }
    }

    /// Sets a default header, replacing any earlier value under the key.
    pub fn header(self, key: &str, value: &str) -> (r: Self)
        ensures
            r.default_headers@.len() == spec_assoc_without(self.default_headers@, key@).len() + 1,
            r.default_headers@.subrange(0, r.default_headers@.len() - 1) == spec_assoc_without(
                self.default_headers@,
                key@,
            ),
            r.default_headers@.last().0@ == key@ && r.default_headers@.last().1@ == value@,
            r.api_key == self.api_key && r.base_url == self.base_url,
            r.timeout_secs == self.timeout_secs,
            r.max_concurrent_requests == self.max_concurrent_requests,
            r.user_agent == self.user_agent && r.enable_logging == self.enable_logging,
    {
        let default_headers = assoc_set(self.default_headers, key.to_owned(), value.to_owned());
        SdkConfigBuilder { default_headers, ..self }
    }

    /// Sets the user agent.
    pub fn user_agent(self, user_agent: &str) -> (r: Self)
        ensures
            r.user_agent matches Some(u) && u@ == user_agent@,
            r.api_key == self.api_key && r.base_url == self.base_url,
            r.timeout_secs == self.timeout_secs,
            r.max_concurrent_requests == self.max_concurrent_requests,
            r.default_headers == self.default_headers,
            r.enable_logging == self.enable_logging,
    {
        SdkConfigBuilder { user_agent: Some(user_agent.to_owned()), ..self }
    }

    /// Switches logging on.
    pub fn enable_logging(self) -> (r: Self)
        ensures
            r.enable_logging == true,
            r.api_key == self.api_key && r.base_url == self.base_url,
            r.timeout_secs == self.timeout_secs,
            r.max_concurrent_requests == self.max_concurrent_requests,
            r.default_headers == self.default_headers,
            r.user_agent == self.user_agent,
    {
        SdkConfigBuilder { enable_logging: true, ..self }
    }

    /// Builds and validates the configuration.
    ///
    /// Fails with a configuration error when no API key was collected or
    /// when the assembled configuration fails validation.
    pub fn build(self) -> (r: Result<SdkConfig, SerperError>)
        ensures
            r is Ok <==> (self.api_key is Some && spec_builder_valid(self)),
            r matches Ok(c) ==> spec_built_config(self, c) && spec_config_valid(c),
            r matches Err(e) ==> e is Config,
            self.api_key is None ==> (r matches Err(e)
                && e matches SerperError::Config { message }
                && message@ == "API key is required"@),
    {
        let api_key = match self.api_key {
            Some(k) => k,
            None => {
                return Err(SerperError::Config { message: "API key is required".to_owned() });
            },
        };
        let mut config = SdkConfig::new(api_key);
        if let Some(base_url) = self.base_url {
            config.base_url = base_url;
        }
        if let Some(timeout_secs) = self.timeout_secs {
            config.timeout_secs = timeout_secs;
        }
        if let Some(max_concurrent) = self.max_concurrent_requests {
            config.max_concurrent_requests = max_concurrent;
        }
        config.default_headers = self.default_headers;
        if let Some(user_agent) = self.user_agent {
            config.user_agent = user_agent;
        }
        config.enable_logging = self.enable_logging;
        proof {
            reveal_strlit("https://google.serper.dev");
            reveal_strlit("http://");
            reveal_strlit("https://");
            if self.base_url is None {
                assert(config.base_url@[0] == 'h');
                assert(!crate::utils::string::spec_is_whitespace('h'));
                assert(!spec_is_blank(config.base_url@));
                assert(config.base_url@.subrange(0, 8) =~= "https://"@);
            }
            assert(spec_config_valid(config) == spec_builder_valid(self));
        }
        match config.validate() {
            Ok(()) => Ok(config),
            Err(e) => Err(e),
        }
    }
}

impl Default for SdkConfigBuilder {
    /// A builder holding only the JSON content-type header.
    fn default() -> (r: Self)
        ensures
            r.api_key is None && r.base_url is None && r.timeout_secs is None,
            r.max_concurrent_requests is None && r.user_agent is None,
            r.enable_logging == false,
    {
        SdkConfigBuilder::new()
    }
}

} // verus!
