//! Resolved provider setup consumed by API clients: deployment location, request execution
//! policy, and the recognition of Azure-hosted Responses endpoints.

use std::time::Duration;
use vstd::prelude::*;

verus! {

#[verifier::external_type_specification]
#[verifier::external_body]
pub struct ExUrl(url::Url);

#[verifier::external_type_specification]
#[verifier::external_body]
pub struct ExUrlParseError(url::ParseError);

#[verifier::external_type_specification]
#[verifier::external_body]
#[verifier::reject_recursive_types(T)]
pub struct ExHeaderMap<T>(http::HeaderMap<T>);

#[verifier::external_type_specification]
#[verifier::external_body]
pub struct ExMethod(http::Method);

#[verifier::external_type_specification]
#[verifier::external_body]
pub struct ExHeaderValue(http::HeaderValue);

/// `http::Method`'s derived `Clone`: the copy equals the original.
pub assume_specification[<http::Method as Clone>::clone](method: &http::Method) -> (r: http::Method)
    ensures
        r == *method,
;

/// `http::HeaderMap`'s derived `Clone`, which the derived `Clone` of the structs below calls.
/// It clones every entry with `T::clone`, so for an arbitrary `T` nothing is promised of the
/// copy.
pub assume_specification<T: Clone>[<http::HeaderMap<T> as Clone>::clone](headers: &http::HeaderMap<T>) -> http::HeaderMap<T>;

/// Copies a header map with `http::HeaderMap`'s derived `Clone`. Every entry is a
/// `HeaderValue`, whose derived `Clone` copies its bytes and its sensitivity flag, so the copy
/// equals the original.
#[verifier::external_body]
fn clone_headers(headers: &http::HeaderMap<http::HeaderValue>) -> (r: http::HeaderMap<http::HeaderValue>)
    ensures
        r == *headers,
{
    headers.clone()
}

/// The result of `url::Url::parse` on a text.
pub uninterp spec fn url_parse_result(text: Seq<char>) -> Result<url::Url, url::ParseError>;

/// The scheme `url::Url::scheme` reports for a URL (lower case, without the `:`).
pub uninterp spec fn url_scheme_of(url: url::Url) -> Seq<char>;

/// The URL `url::Url::set_scheme` leaves behind when it accepts a new scheme, or `None` when it
/// refuses it.
pub uninterp spec fn url_with_scheme(url: url::Url, scheme: Seq<char>) -> Option<url::Url>;

/// Parses an absolute URL with `url::Url::parse`.
#[verifier::external_body]
fn parse_url(text: &str) -> (r: Result<url::Url, url::ParseError>)
    ensures
        r == url_parse_result(text@),
{
    url::Url::parse(text)
}

/// The scheme of a URL, as `url::Url::scheme` reports it.
#[verifier::external_body]
fn scheme_of(url: &url::Url) -> (r: String)
    ensures
        r@ == url_scheme_of(*url),
{
    url.scheme().to_owned()
}

/// Changes the scheme of a URL with `url::Url::set_scheme`. When the setter refuses the scheme
/// it returns before touching the URL, so a refused change leaves the URL as it was.
#[verifier::external_body]
fn set_url_scheme(url: &mut url::Url, scheme: &str) -> (r: bool)
    ensures
        r == url_with_scheme(*old(url), scheme@) is Some,
        r ==> *final(url) == url_with_scheme(*old(url), scheme@).unwrap(),
        !r ==> *final(url) == *old(url),
{
    url.set_scheme(scheme).is_ok()
}

/// Which failures the transport retries.
#[derive(Debug, Clone, Copy, PartialEq, Eq)]
pub struct RetryOn {
    pub retry_429: bool,
    pub retry_5xx: bool,
    pub retry_transport: bool,
}

/// Transport-level retry policy for unary and streaming calls.
#[derive(Debug, Clone, Copy)]
pub struct RetryPolicy {
    pub max_attempts: u64,
    pub base_delay: Duration,
    pub retry_on: RetryOn,
}

/// High-level retry configuration for a provider, converted into the transport's
/// `RetryPolicy`.
#[derive(Debug, Clone, Copy)]
pub struct RetryConfig {
    pub max_attempts: u64,
    pub base_delay: Duration,
    pub retry_429: bool,
    pub retry_5xx: bool,
    pub retry_transport: bool,
}

impl RetryConfig {
    /// The transport retry policy of this configuration.
    pub fn to_policy(&self) -> (r: RetryPolicy)
        ensures
            r.max_attempts == self.max_attempts,
            r.base_delay == self.base_delay,
            r.retry_on.retry_429 == self.retry_429,
            r.retry_on.retry_5xx == self.retry_5xx,
            r.retry_on.retry_transport == self.retry_transport,
    {
        RetryPolicy {
            max_attempts: self.max_attempts,
            base_delay: self.base_delay,
            retry_on: RetryOn {
                retry_429: self.retry_429,
                retry_5xx: self.retry_5xx,
                retry_transport: self.retry_transport,
            },
        }
    }
}

/// A text without its trailing `/` characters.
pub open spec fn trim_end_slashes(s: Seq<char>) -> Seq<char>
    decreases s.len(),
{
    if s.len() > 0 && s.last() == '/' {
        trim_end_slashes(s.drop_last())
    } else {
        s
    }
}

/// A text without its leading `/` characters.
pub open spec fn trim_start_slashes(s: Seq<char>) -> Seq<char>
    decreases s.len(),
{
    if s.len() > 0 && s[0] == '/' {
        trim_start_slashes(s.subrange(1, s.len() as int))
    } else {
        s
    }
}

/// Query parameters as `key=value` pairs joined by `&`.
pub open spec fn query_string(params: Seq<(String, String)>) -> Seq<char>
    decreases params.len(),
{
    if params.len() == 0 {
        Seq::empty()
    } else if params.len() == 1 {
        params[0].0@ + "="@ + params[0].1@
    } else {
        query_string(params.drop_last()) + "&"@ + params.last().0@ + "="@ + params.last().1@
    }
}

/// Resolved deployment information used to construct provider request targets: the deployment
/// base URL and the query parameters that apply to every operation against it, in the order in
/// which they are written.
#[derive(Debug, Clone)]
pub struct ApiDeployment {
    pub base_url: String,
    pub query_params: Option<Vec<(String, String)>>,
}

impl ApiDeployment {
    /// The URL of an operation path: the base URL and the path joined by exactly one `/`, then
    /// the deployment's query parameters, if it has any.
    pub open spec fn spec_url_for_path(&self, path: Seq<char>) -> Seq<char> {
        let base = trim_end_slashes(self.base_url@);
        let p = trim_start_slashes(path);
        let url = if p.len() == 0 { base } else { base + "/"@ + p };
        match self.query_params {
            Some(params) => if params@.len() > 0 { url + "?"@ + query_string(params@) } else { url },
            None => url,
        }
    }

    /// Builds the URL of an operation path.
    pub fn url_for_path(&self, path: &str) -> (r: String)
        ensures
            r@ == self.spec_url_for_path(path@),
    {
        let base = trim_end_slashes_exec(self.base_url.as_str());
        let p = trim_start_slashes_exec(path);
        let mut url = String::from_str(base);
        if p.unicode_len() != 0 {
            url.append("/");
            url.append(p);
        }
        if let Some(params) = &self.query_params {
            if params.len() > 0 {
                url.append("?");
                let ghost head = url@;
                let mut i: usize = 0;
                while i < params.len()
                    invariant
                        0 < params@.len(),
                        i <= params@.len(),
                        url@ == head + query_string(params@.subrange(0, i as int)),
                    decreases params.len() - i,
                {
                    let ghost before = url@;
                    if i > 0 {
                        url.append("&");
                    }
                    url.append(params[i].0.as_str());
                    url.append("=");
                    url.append(params[i].1.as_str());
                    proof {
                        let next = params@.subrange(0, i + 1);
                        assert(next.drop_last() =~= params@.subrange(0, i as int));
                        if i == 0 {
                            assert(url@ =~= head + query_string(next));
                        } else {
                            assert(url@ =~= head + query_string(next));
                        }
                    }
                    i += 1;
                }
                assert(params@.subrange(0, params@.len() as int) =~= params@);
            }
        }
        url
    }

    /// The WebSocket URL of an operation: the operation URL with `http` turned into `ws` and
    /// `https` into `wss`; any other scheme is kept.
    pub fn websocket_url_for_path(&self, path: &str) -> (r: Result<url::Url, url::ParseError>)
        ensures
            r == match url_parse_result(self.spec_url_for_path(path@)) {
                Err(e) => Err(e),
                Ok(u) => Ok(
                    if url_scheme_of(u) == "http"@ {
                        match url_with_scheme(u, "ws"@) {
                            Some(changed) => changed,
                            None => u,
                        }
                    } else if url_scheme_of(u) == "https"@ {
                        match url_with_scheme(u, "wss"@) {
                            Some(changed) => changed,
                            None => u,
                        }
                    } else {
                        u
                    },
                ),
            },
    {
        let text = self.url_for_path(path);
        let mut url = match parse_url(text.as_str()) {
            Ok(u) => u,
            Err(e) => return Err(e),
        };
        let scheme = scheme_of(&url);
        if crate::text::str_eq(scheme.as_str(), "http") {
            let _ = set_url_scheme(&mut url, "ws");
        } else if crate::text::str_eq(scheme.as_str(), "https") {
            let _ = set_url_scheme(&mut url, "wss");
        }
        Ok(url)
    }
}

fn trim_end_slashes_exec(s: &str) -> (r: &str)
    ensures
        r@ == trim_end_slashes(s@),
{
    let mut end = s.unicode_len();
    proof {
        assert(s@.subrange(0, end as int) =~= s@);
    }
    while end > 0 && s.get_char(end - 1) == '/'
        invariant
            end <= s@.len(),
            trim_end_slashes(s@) == trim_end_slashes(s@.subrange(0, end as int)),
        decreases end,
    {
        proof {
            assert(s@.subrange(0, end as int).drop_last() =~= s@.subrange(0, end - 1));
        }
        end -= 1;
    }
    s.substring_char(0, end)
}

fn trim_start_slashes_exec(s: &str) -> (r: &str)
    ensures
        r@ == trim_start_slashes(s@),
{
    let len = s.unicode_len();
    let mut start: usize = 0;
    proof {
        assert(s@.subrange(0, len as int) =~= s@);
    }
    while start < len && s.get_char(start) == '/'
        invariant
            len == s@.len(),
            start <= len,
            trim_start_slashes(s@) == trim_start_slashes(s@.subrange(start as int, len as int)),
        decreases len - start,
    {
        proof {
            let rest = s@.subrange(start as int, len as int);
            assert(rest.subrange(1, rest.len() as int) =~= s@.subrange(start + 1, len as int));
        }
        start += 1;
    }
    s.substring_char(start, len)
}

/// Request/stream execution policy for a resolved provider setup.
#[derive(Debug, Clone, Copy)]
pub struct RequestExecutionPolicy {
    pub retry: RetryConfig,
    pub stream_idle_timeout: Duration,
}

/// Body compression of a request.
#[derive(Debug, Clone, Copy, PartialEq, Eq)]
pub enum RequestCompression {
    Uncompressed,
    Zstd,
}

/// One HTTP request target with its decoration.
#[derive(Debug, Clone)]
pub struct Request {
    pub method: http::Method,
    pub url: String,
    pub headers: http::HeaderMap,
    pub body: Option<serde_json::Value>,
    pub compression: RequestCompression,
    pub timeout: Option<Duration>,
}

/// Resolved low-level provider setup consumed by API clients.
#[derive(Debug, Clone)]
pub struct Provider {
    pub name: String,
    pub deployment: ApiDeployment,
    pub headers: http::HeaderMap,
    pub request_policy: RequestExecutionPolicy,
}

impl Provider {
    /// A request for an operation path: the provider's URL for it and its default headers, with
    /// no body, no compression and no timeout of its own.
    pub fn build_request(&self, method: http::Method, path: &str) -> (r: Request)
        ensures
            r.method == method,
            r.url@ == self.deployment.spec_url_for_path(path@),
            r.headers == self.headers,
            r.body is None,
            r.compression == RequestCompression::Uncompressed,
            r.timeout is None,
    {
        Request {
            method,
            url: self.deployment.url_for_path(path),
            headers: clone_headers(&self.headers),
            body: None,
            compression: RequestCompression::Uncompressed,
            timeout: None,
        }
    }
}

/// Whether two characters are equal once the first is lowered to ASCII lower case (which maps
/// `A`..=`Z` to `a`..=`z` and keeps every other character).
pub open spec fn ascii_lower_eq(c: char, lower: char) -> bool {
    if 'A' <= c && c <= 'Z' {
        c as u32 + 32 == lower as u32
    } else {
        c == lower
    }
}

/// Whether `needle` occurs at position `i` of `text` lowered to ASCII lower case.
pub open spec fn occurs_lower_at(text: Seq<char>, needle: Seq<char>, i: int) -> bool {
    &&& 0 <= i
    &&& i + needle.len() <= text.len()
    &&& forall|j: int| 0 <= j < needle.len() ==> #[trigger] ascii_lower_eq(text[i + j], needle[j])
}

/// Whether `text`, lowered to ASCII lower case, contains `needle` (which is in lower case).
pub open spec fn contains_ascii_lower(text: Seq<char>, needle: Seq<char>) -> bool {
    exists|i: int| #[trigger] occurs_lower_at(text, needle, i)
}

/// Whether `text` equals `lower`, ignoring ASCII case.
pub open spec fn eq_ascii_lower(text: Seq<char>, lower: Seq<char>) -> bool {
    text.len() == lower.len() && forall|j: int| 0 <= j < lower.len() ==> #[trigger] ascii_lower_eq(text[j], lower[j])
}

/// The base-URL fragments that identify an Azure-hosted Responses endpoint.
pub open spec fn azure_markers() -> Seq<Seq<char>> {
    seq![
        "openai.azure."@,
        "cognitiveservices.azure."@,
        "aoai.azure."@,
        "azure-api."@,
        "azurefd."@,
        "windows.net/openai"@,
    ]
}

/// Whether a base URL names an Azure-hosted Responses endpoint: it contains, ignoring ASCII
/// case, one of the Azure markers.
pub open spec fn spec_matches_azure_base_url(base_url: Seq<char>) -> bool {
    exists|k: int| 0 <= k < azure_markers().len() && contains_ascii_lower(base_url, #[trigger] azure_markers()[k])
}

fn lower_char_matches(c: char, lower: char) -> (r: bool)
    ensures
        r == ascii_lower_eq(c, lower),
{
    if 'A' <= c && c <= 'Z' {
        (c as u32) + 32 == (lower as u32)
    } else {
        c == lower
    }
}

fn matches_at(text: &str, needle: &str, i: usize) -> (r: bool)
    requires
        i + needle@.len() <= text@.len(),
    ensures
        r == occurs_lower_at(text@, needle@, i as int),
{
    let n = needle.unicode_len();
    let len = text.unicode_len();
    let mut j: usize = 0;
    while j < n
        invariant
            n == needle@.len(),
            len == text@.len(),
            i + n <= text@.len(),
            j <= n,
            forall|k: int| 0 <= k < j ==> #[trigger] ascii_lower_eq(text@[i + k], needle@[k]),
        decreases n - j,
    {
        if !lower_char_matches(text.get_char(i + j), needle.get_char(j)) {
            return false;
        }
        j += 1;
    }
    true
}

fn contains_lower(text: &str, needle: &str) -> (r: bool)
    ensures
        r == contains_ascii_lower(text@, needle@),
{
    let len = text.unicode_len();
    let n = needle.unicode_len();
    if n > len {
        return false;
    }
    let mut i: usize = 0;
    while i <= len - n
        invariant
            len == text@.len(),
            n == needle@.len(),
            n <= len,
            i <= len - n + 1,
            forall|k: int| 0 <= k < i ==> !#[trigger] occurs_lower_at(text@, needle@, k),
        decreases len - i,
    {
        if matches_at(text, needle, i) {
            return true;
        }
        i += 1;
    }
    false
}

/// Whether a base URL names an Azure-hosted Responses endpoint.
pub fn matches_azure_responses_base_url(base_url: &str) -> (r: bool)
    ensures
        r == spec_matches_azure_base_url(base_url@),
{
    let found = contains_lower(base_url, "openai.azure.")
        || contains_lower(base_url, "cognitiveservices.azure.")
        || contains_lower(base_url, "aoai.azure.")
        || contains_lower(base_url, "azure-api.")
        || contains_lower(base_url, "azurefd.")
        || contains_lower(base_url, "windows.net/openai");
    proof {
        let m = azure_markers();
        assert(m[0] == "openai.azure."@);
        assert(m[1] == "cognitiveservices.azure."@);
        assert(m[2] == "aoai.azure."@);
        assert(m[3] == "azure-api."@);
        assert(m[4] == "azurefd."@);
        assert(m[5] == "windows.net/openai"@);
    }
    found
}

/// Whether a provider serves the Responses API from Azure: its name is `azure` in any ASCII
/// case, or its base URL names an Azure endpoint.
pub fn is_azure_responses_provider(name: &str, base_url: Option<&str>) -> (r: bool)
    ensures
        r == (eq_ascii_lower(name@, "azure"@) || match base_url {
            Some(url) => spec_matches_azure_base_url(url@),
            None => false,
        }),
{
    if equals_lower(name, "azure") {
        true
    } else if let Some(url) = base_url {
        matches_azure_responses_base_url(url)
    } else {
        false
    }
}

fn equals_lower(text: &str, lower: &str) -> (r: bool)
    ensures
        r == eq_ascii_lower(text@, lower@),
{
    if text.unicode_len() != lower.unicode_len() {
        return false;
    }
    let r = matches_at(text, lower, 0);
    proof {
        if r {
            assert forall|j: int| 0 <= j < lower@.len() implies #[trigger] ascii_lower_eq(text@[j], lower@[j]) by {
                assert(ascii_lower_eq(text@[0 + j], lower@[j]));
            }
        } else if eq_ascii_lower(text@, lower@) {
            assert forall|j: int| 0 <= j < lower@.len() implies #[trigger] ascii_lower_eq(text@[0 + j], lower@[j]) by {
                assert(ascii_lower_eq(text@[j], lower@[j]));
            }
        }
    }
    r
}

} // verus!
