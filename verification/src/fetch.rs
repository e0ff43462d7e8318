//! The gated fetch policy.
//!
//! The isolate may fetch only from origins on an explicit allowlist, and a
//! redirect is followed only when it stays on the origin of the original
//! request and that origin is still allowed. The functions here decide; the
//! host performs the actual HTTP exchange and feeds each response back.

use vstd::prelude::*;

use crate::loader::url_join;
use crate::loader::url_join_of;
use crate::text::eq_ignore_ascii_case;
use crate::text::lower_code;
use crate::text::str_eq;

verus! {

/// The origin of the URL `s` — its scheme, host and port, serialized in
/// ASCII — when `s` parses as a URL.
/// Named result of `url::Url::parse` followed by
/// `url::Url::origin().ascii_serialization()`.
pub uninterp spec fn origin_of(s: Seq<char>) -> Option<Seq<char>>;

/// Relies on `url::Url::parse` and `Origin::ascii_serialization`: a URL's
/// origin string is a pure function of the URL text.
#[verifier::external_body]
fn parse_origin(url: &str) -> (r: Option<String>)
    ensures
        match r {
            Some(o) => origin_of(url@) == Some(o@),
            None => origin_of(url@) is None,
        },
{
    match url::Url::parse(url) {
        Ok(u) => Some(u.origin().ascii_serialization()),
        Err(_) => None,
    }
}

/// `o` appears, character for character, in the list of origins.
pub open spec fn origins_contain(list: Seq<String>, o: Seq<char>) -> bool {
    exists|i: int| 0 <= i < list.len() && list[i]@ == o
}

/// The URL parses and its origin stands in the list.
pub open spec fn url_origin_allowed(url: Seq<char>, list: Seq<String>) -> bool {
    match origin_of(url) {
        Some(o) => origins_contain(list, o),
        None => false,
    }
}

/// Configuration for the fetch allowlist.
///
/// An origin is an exact scheme + host + port string, e.g.
/// `https://api.example.com`. An empty list disables fetch entirely.
pub struct FetchConfig {
    /// The allowed origins.
    pub allowed_origins: Vec<String>,
}

impl FetchConfig {
    /// Whether the URL's origin stands in the allowlist.
    /// An empty allowlist rejects every URL; so does one that fails to parse.
    pub fn is_origin_allowed(&self, url: &str) -> (r: bool)
        ensures
            r == url_origin_allowed(url@, self.allowed_origins@),
    {
        let origin = match parse_origin(url) {
            Some(o) => o,
            None => {
                return false;
            },
        };
        self.contains_origin(origin.as_str())
    }

    /// Whether `origin` itself stands in the allowlist.
    pub fn contains_origin(&self, origin: &str) -> (r: bool)
        ensures
            r == origins_contain(self.allowed_origins@, origin@),
    {
        let mut i: usize = 0;
        while i < self.allowed_origins.len()
            invariant
                i <= self.allowed_origins@.len(),
                forall|j: int| 0 <= j < i ==> self.allowed_origins@[j]@ != origin@,
            decreases self.allowed_origins@.len() - i,
        {
            if str_eq(self.allowed_origins[i].as_str(), origin) {
                return true;
            }
            i += 1;
        }
        false
    }
}

impl Default for FetchConfig {
    /// An empty allowlist: fetch disabled.
    fn default() -> (r: FetchConfig)
        ensures
            r.allowed_origins@.len() == 0,
    {
        FetchConfig { allowed_origins: Vec::new() }
    }
}

/// A fetch request as JS hands it over.
#[derive(Debug)]
pub struct FetchRequest {
    /// The request URL.
    pub url: String,
    /// The HTTP method; absent means GET.
    pub method: Option<String>,
    /// Request headers, name and value.
    pub headers: Vec<(String, String)>,
    /// The request body, if any.
    pub body: Option<String>,
}

/// A fetch response as it goes back to JS.
#[derive(Debug)]
pub struct FetchResponse {
    /// Whether the status is a success (2xx).
    pub ok: bool,
    /// The HTTP status code.
    pub status: u16,
    /// The status line's reason phrase.
    pub status_text: String,
    /// Response headers, name and value.
    pub headers: Vec<(String, String)>,
    /// The URL that produced this response.
    pub url: String,
    /// The response body as text.
    pub body: String,
}

/// Why the fetch policy refused a request or a redirect.
#[derive(Debug)]
pub enum FetchError {
    /// The request URL does not parse.
    InvalidUrl(String),
    /// The URL's origin is not on the allowlist.
    OriginNotAllowed(String),
    /// The HTTP method is not in the supported set.
    UnsupportedMethod(String),
    /// The redirect location does not resolve against the response URL.
    InvalidRedirectUrl,
    /// The redirect leaves the origin of the original request.
    CrossOriginRedirect(String),
    /// The redirect's origin is no longer on the allowlist.
    RedirectNotAllowed(String),
}

/// The text of a fetch policy error.
pub open spec fn fetch_error_chars(e: FetchError) -> Seq<char> {
    match e {
        FetchError::InvalidUrl(u) => "Invalid URL '"@ + u@ + "'"@,
        FetchError::OriginNotAllowed(o) => "Fetch blocked: origin '"@ + o@
            + "' is not in the allowlist"@,
        FetchError::UnsupportedMethod(m) => "Unsupported HTTP method: "@ + m@,
        FetchError::InvalidRedirectUrl => "Invalid redirect URL"@,
        FetchError::CrossOriginRedirect(o) => "Fetch blocked: redirect to different origin '"@
            + o@ + "'"@,
        FetchError::RedirectNotAllowed(o) => "Fetch blocked: redirect origin '"@ + o@
            + "' is not in the allowlist"@,
    }
}

impl FetchError {
    /// Render the error as a human-readable message.
    pub fn message(&self) -> (r: String)
        ensures
            r@ == fetch_error_chars(*self),
    {
        let mut s = String::new();
        match self {
            FetchError::InvalidUrl(u) => {
                s.append("Invalid URL '");
                s.append(u.as_str());
                s.append("'");
            },
            FetchError::OriginNotAllowed(o) => {
                s.append("Fetch blocked: origin '");
                s.append(o.as_str());
                s.append("' is not in the allowlist");
            },
            FetchError::UnsupportedMethod(m) => {
                s.append("Unsupported HTTP method: ");
                s.append(m.as_str());
            },
            FetchError::InvalidRedirectUrl => {
                s.append("Invalid redirect URL");
            },
            FetchError::CrossOriginRedirect(o) => {
                s.append("Fetch blocked: redirect to different origin '");
                s.append(o.as_str());
                s.append("'");
            },
            FetchError::RedirectNotAllowed(o) => {
                s.append("Fetch blocked: redirect origin '");
                s.append(o.as_str());
                s.append("' is not in the allowlist");
            },
        }
        proof {
            assert(s@ =~= fetch_error_chars(*self));
        }
        s
    }
}

/// The two method names match ignoring ASCII case.
pub open spec fn method_is(m: Seq<char>, t: Seq<char>) -> bool {
    m.len() == t.len() && forall|i: int| 0 <= i < m.len() ==> eq_ignore_ascii_case(m[i], t[i])
}

/// The method the request asks for; absent means GET.
pub open spec fn effective_method(m: Option<String>) -> Seq<char> {
    match m {
        Some(s) => s@,
        None => "GET"@,
    }
}

/// The supported HTTP methods.
pub open spec fn is_supported_method(m: Seq<char>) -> bool {
    method_is(m, "GET"@) || method_is(m, "POST"@) || method_is(m, "PUT"@) || method_is(
        m,
        "DELETE"@,
    ) || method_is(m, "PATCH"@) || method_is(m, "HEAD"@) || method_is(m, "OPTIONS"@)
}

/// The canonical (upper-case) spelling of a supported method.
pub open spec fn canonical_method(m: Seq<char>) -> Seq<char> {
    if method_is(m, "GET"@) {
        "GET"@
    } else if method_is(m, "POST"@) {
        "POST"@
    } else if method_is(m, "PUT"@) {
        "PUT"@
    } else if method_is(m, "DELETE"@) {
        "DELETE"@
    } else if method_is(m, "PATCH"@) {
        "PATCH"@
    } else if method_is(m, "HEAD"@) {
        "HEAD"@
    } else {
        "OPTIONS"@
    }
}

/// Compare two method names ignoring ASCII case.
fn method_matches(m: &str, t: &str) -> (r: bool)
    ensures
        r == method_is(m@, t@),
{
    let mlen = m.unicode_len();
    let tlen = t.unicode_len();
    if mlen != tlen {
        return false;
    }
    let mut i: usize = 0;
    while i < mlen
        invariant
            mlen == m@.len(),
            tlen == t@.len(),
            mlen == tlen,
            i <= mlen,
            forall|j: int| 0 <= j < i ==> eq_ignore_ascii_case(m@[j], t@[j]),
        decreases mlen - i,
    {
        let a = m.get_char(i);
        let b = t.get_char(i);
        let ac: u32 = if 'A' <= a && a <= 'Z' {
            a as u32 + 32
        } else {
            a as u32
        };
        let bc: u32 = if 'A' <= b && b <= 'Z' {
            b as u32 + 32
        } else {
            b as u32
        };
        assert(ac == lower_code(m@[i as int]) && bc == lower_code(t@[i as int]));
        if ac != bc {
            return false;
        }
        i += 1;
    }
    true
}

/// A request the policy has approved, ready for the host's HTTP client.
#[derive(Debug)]
pub struct FetchPlan {
    /// The request URL, exactly as asked.
    pub url: String,
    /// The URL's origin; redirects are checked against it.
    pub origin: String,
    /// The canonical spelling of the approved method.
    pub method: String,
    /// Request headers, passed through.
    pub headers: Vec<(String, String)>,
    /// The request body, passed through.
    pub body: Option<String>,
}

/// Check a fetch request against the policy, in order: the URL must parse,
/// its origin must stand in the allowlist, and the method must be one of
/// the supported seven. What comes back is the approved request.
pub fn plan_fetch(request: FetchRequest, config: &FetchConfig) -> (r: Result<
    FetchPlan,
    FetchError,
>)
    ensures
        r is Ok <==> (url_origin_allowed(request.url@, config.allowed_origins@)
            && is_supported_method(effective_method(request.method))),
        r matches Ok(p) ==> {
            &&& p.url == request.url
            &&& Some(p.origin@) == origin_of(request.url@)
            &&& p.method@ == canonical_method(effective_method(request.method))
            &&& p.headers == request.headers
            &&& p.body == request.body
        },
        r matches Err(FetchError::InvalidUrl(u)) ==> origin_of(request.url@) is None && u
            == request.url,
        origin_of(request.url@) is None ==> r matches Err(FetchError::InvalidUrl(_)),
        r matches Err(FetchError::OriginNotAllowed(o)) ==> origin_of(request.url@) == Some(o@)
            && !origins_contain(config.allowed_origins@, o@),
        r matches Err(FetchError::UnsupportedMethod(m)) ==> url_origin_allowed(
            request.url@,
            config.allowed_origins@,
        ) && !is_supported_method(effective_method(request.method)) && m@ == effective_method(
            request.method,
        ),
{
    let origin = match parse_origin(request.url.as_str()) {
        Some(o) => o,
        None => {
            return Err(FetchError::InvalidUrl(request.url));
        },
    };
    if !config.contains_origin(origin.as_str()) {
        return Err(FetchError::OriginNotAllowed(origin));
    }
    let named: &str = match &request.method {
        Some(m) => m.as_str(),
        None => "GET",
    };
    let canonical: &str = if method_matches(named, "GET") {
        "GET"
    } else if method_matches(named, "POST") {
        "POST"
    } else if method_matches(named, "PUT") {
        "PUT"
    } else if method_matches(named, "DELETE") {
        "DELETE"
    } else if method_matches(named, "PATCH") {
        "PATCH"
    } else if method_matches(named, "HEAD") {
        "HEAD"
    } else if method_matches(named, "OPTIONS") {
        "OPTIONS"
    } else {
        return Err(FetchError::UnsupportedMethod(String::from_str(named)));
    };
    Ok(
        FetchPlan {
            url: request.url,
            origin,
            method: String::from_str(canonical),
            headers: request.headers,
            body: request.body,
        },
    )
}

/// The status codes the policy treats as redirects.
pub fn is_redirect_status(status: u16) -> (r: bool)
    ensures
        r == (300 <= status < 400),
{
    300 <= status && status < 400
}

/// The status codes reported to JS as `ok`.
pub fn is_success_status(status: u16) -> (r: bool)
    ensures
        r == (200 <= status < 300),
{
    200 <= status && status < 300
}

/// The first header in the list whose name matches ignoring ASCII case.
pub open spec fn header_lookup(headers: Seq<(String, String)>, name: Seq<char>) -> Option<
    Seq<char>,
>
    decreases headers.len(),
{
    if headers.len() == 0 {
        None
    } else if method_is(headers[0].0@, name) {
        Some(headers[0].1@)
    } else {
        header_lookup(headers.skip(1), name)
    }
}

proof fn lemma_header_lookup_none(headers: Seq<(String, String)>, name: Seq<char>)
    requires
        forall|j: int| 0 <= j < headers.len() ==> !method_is(#[trigger] headers[j].0@, name),
    ensures
        header_lookup(headers, name) is None,
    decreases headers.len(),
{
    if headers.len() > 0 {
        assert(!method_is(headers[0].0@, name));
        assert(forall|j: int|
            0 <= j < headers.skip(1).len() ==> !method_is(
                #[trigger] headers.skip(1)[j].0@,
                name,
            ));
        lemma_header_lookup_none(headers.skip(1), name);
    }
}

proof fn lemma_header_lookup_step(headers: Seq<(String, String)>, name: Seq<char>, i: int)
    requires
        0 <= i < headers.len(),
        forall|j: int| 0 <= j < i ==> !method_is(headers[j].0@, name),
    ensures
        header_lookup(headers, name) == header_lookup(headers.skip(i), name),
    decreases i,
{
    if i > 0 {
        assert(!method_is(headers[0].0@, name));
        lemma_header_lookup_step(headers.skip(1), name, i - 1);
        assert(headers.skip(1).skip(i - 1) =~= headers.skip(i));
    } else {
        assert(headers.skip(0) =~= headers);
    }
}

/// Find a header by name, ignoring ASCII case in the name.
pub fn find_header(headers: &Vec<(String, String)>, name: &str) -> (r: Option<String>)
    ensures
        match r {
            Some(v) => header_lookup(headers@, name@) == Some(v@),
            None => header_lookup(headers@, name@) is None,
        },
{
    let mut i: usize = 0;
    while i < headers.len()
        invariant
            i <= headers@.len(),
            forall|j: int| 0 <= j < i ==> !method_is(headers@[j].0@, name@),
        decreases headers@.len() - i,
    {
        if method_matches(headers[i].0.as_str(), name) {
            let v = headers[i].1.clone();
            proof {
                lemma_header_lookup_step(headers@, name@, i as int);
                assert(headers@.skip(i as int)[0] == headers@[i as int]);
            }
            return Some(v);
        }
        i += 1;
    }
    proof {
        lemma_header_lookup_none(headers@, name@);
    }
    None
}

/// Decide a redirect. Given the origin of the original request, the URL
/// that answered, and the `Location` header it sent, the follow-up request
/// comes back exactly when the redirect resolves, stays on the original
/// origin, and that origin is still allowed. The follow-up is a GET with
/// the original headers and no body.
pub fn handle_redirect(
    original_origin: &str,
    response_url: &str,
    location: &str,
    headers: Vec<(String, String)>,
    config: &FetchConfig,
) -> (r: Result<FetchRequest, FetchError>)
    ensures
        url_join_of(response_url@, location@) is None ==> r matches Err(
            FetchError::InvalidRedirectUrl,
        ),
        r matches Err(FetchError::InvalidRedirectUrl) ==> (url_join_of(
            response_url@,
            location@,
        ) is None || (url_join_of(response_url@, location@) matches Some(u) && origin_of(u)
            is None)),
        r matches Ok(req) ==> {
            &&& url_join_of(response_url@, location@) matches Some(u) && req.url@ == u
            &&& origin_of(req.url@) == Some(original_origin@)
            &&& origins_contain(config.allowed_origins@, original_origin@)
            &&& req.method matches Some(m) && m@ == "GET"@
            &&& req.headers == headers
            &&& req.body is None
        },
        r matches Err(FetchError::CrossOriginRedirect(o)) ==> (url_join_of(
            response_url@,
            location@,
        ) matches Some(u) && origin_of(u) == Some(o@) && o@ != original_origin@),
        r matches Err(FetchError::RedirectNotAllowed(o)) ==> o@ == original_origin@
            && !origins_contain(config.allowed_origins@, o@),
        url_join_of(response_url@, location@) matches Some(u) ==> (origin_of(u) matches Some(o)
            ==> (o != original_origin@ ==> r matches Err(FetchError::CrossOriginRedirect(_)))),
        url_join_of(response_url@, location@) matches Some(u) ==> (origin_of(u) == Some(
            original_origin@,
        ) && !origins_contain(config.allowed_origins@, original_origin@) ==> r matches Err(
            FetchError::RedirectNotAllowed(_),
        )),
        url_join_of(response_url@, location@) matches Some(u) ==> (origin_of(u) == Some(
            original_origin@,
        ) && origins_contain(config.allowed_origins@, original_origin@) ==> r is Ok),
{
    let redirect_url = match url_join(response_url, location) {
        Some(u) => u,
        None => {
            return Err(FetchError::InvalidRedirectUrl);
        },
    };
    let redirect_origin = match parse_origin(redirect_url.as_str()) {
        Some(o) => o,
        None => {
            return Err(FetchError::InvalidRedirectUrl);
        },
    };
    if !str_eq(redirect_origin.as_str(), original_origin) {
        return Err(FetchError::CrossOriginRedirect(redirect_origin));
    }
    if !config.contains_origin(redirect_origin.as_str()) {
        return Err(FetchError::RedirectNotAllowed(redirect_origin));
    }
    let mut get = String::new();
    get.append("GET");
    Ok(FetchRequest { url: redirect_url, method: Some(get), headers, body: None })
}

/// Assemble the response JS sees from the pieces the HTTP client reported;
/// `ok` is derived from the status code.
pub fn build_fetch_response(
    status: u16,
    status_text: String,
    headers: Vec<(String, String)>,
    url: String,
    body: String,
) -> (r: FetchResponse)
    ensures
        r.ok == (200 <= status < 300),
        r.status == status,
        r.status_text == status_text,
        r.headers == headers,
        r.url == url,
        r.body == body,
{
    let ok = is_success_status(status);
    FetchResponse { ok, status, status_text, headers, url, body }
}

} // verus!
