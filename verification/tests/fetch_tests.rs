use ssr_sandbox::fetch::build_fetch_response;
use ssr_sandbox::fetch::find_header;
use ssr_sandbox::fetch::handle_redirect;
use ssr_sandbox::fetch::is_redirect_status;
use ssr_sandbox::fetch::is_success_status;
use ssr_sandbox::fetch::plan_fetch;
use ssr_sandbox::fetch::FetchConfig;
use ssr_sandbox::fetch::FetchRequest;

fn s(text: &str) -> String {
    text.to_string()
}

fn two_origin_config() -> FetchConfig {
    FetchConfig {
        allowed_origins: vec![s("https://api.example.com"), s("http://localhost:3000")],
    }
}

fn request(url: &str) -> FetchRequest {
    FetchRequest { url: s(url), method: None, headers: vec![], body: None }
}

#[test]
fn fetch_test_origin_matching() {
    let config = two_origin_config();

    // Allowed
    assert!(config.is_origin_allowed("https://api.example.com/users"));
    assert!(config.is_origin_allowed("https://api.example.com/"));
    assert!(config.is_origin_allowed("http://localhost:3000/api"));

    // Not allowed
    assert!(!config.is_origin_allowed("https://evil.com/api"));
    assert!(!config.is_origin_allowed("http://api.example.com/users")); // http vs https
    assert!(!config.is_origin_allowed("https://api.example.com:8080/")); // different port
}

#[test]
fn ops_test_origin_matching() {
    let config = two_origin_config();

    // Allowed
    assert!(config.is_origin_allowed("https://api.example.com/users"));
    assert!(config.is_origin_allowed("https://api.example.com/"));
    assert!(config.is_origin_allowed("http://localhost:3000/api"));

    // Not allowed
    assert!(!config.is_origin_allowed("https://evil.com/api"));
    assert!(!config.is_origin_allowed("http://api.example.com/users"));
    assert!(!config.is_origin_allowed("https://api.example.com:8080/"));
}

#[test]
fn fetch_test_empty_allowlist() {
    let config = FetchConfig { allowed_origins: vec![] };
    assert!(!config.is_origin_allowed("https://anything.com"));
}

#[test]
fn ops_test_empty_allowlist() {
    let config = FetchConfig { allowed_origins: vec![] };
    assert!(!config.is_origin_allowed("https://anything.com"));
}

#[test]
fn plan_fetch_allows_listed_origin() {
    let config = FetchConfig { allowed_origins: vec![s("https://api.example.com")] };
    let plan = plan_fetch(request("https://api.example.com/x"), &config).unwrap();
    assert_eq!(plan.url, "https://api.example.com/x");
    assert_eq!(plan.origin, "https://api.example.com");
    assert_eq!(plan.method, "GET");
}

#[test]
fn plan_fetch_blocks_unlisted_origin() {
    let config = FetchConfig { allowed_origins: vec![s("https://api.example.com")] };
    let err = plan_fetch(request("https://evil.com/x"), &config).unwrap_err();
    assert!(err.message().contains("allowlist"));
}

#[test]
fn plan_fetch_rejects_invalid_url() {
    let config = FetchConfig { allowed_origins: vec![s("https://api.example.com")] };
    let err = plan_fetch(request("not a url"), &config).unwrap_err();
    assert!(err.message().contains("Invalid URL"));
}

#[test]
fn plan_fetch_normalizes_method_case() {
    let config = FetchConfig { allowed_origins: vec![s("https://api.example.com")] };
    let mut req = request("https://api.example.com/x");
    req.method = Some(s("post"));
    let plan = plan_fetch(req, &config).unwrap();
    assert_eq!(plan.method, "POST");
}

#[test]
fn plan_fetch_rejects_unknown_method() {
    let config = FetchConfig { allowed_origins: vec![s("https://api.example.com")] };
    let mut req = request("https://api.example.com/x");
    req.method = Some(s("TRACE"));
    let err = plan_fetch(req, &config).unwrap_err();
    assert_eq!(err.message(), "Unsupported HTTP method: TRACE");
}

#[test]
fn redirect_same_origin_allowed() {
    let config = FetchConfig { allowed_origins: vec![s("https://api.example.com")] };
    let next = handle_redirect(
        "https://api.example.com",
        "https://api.example.com/a",
        "/b",
        vec![(s("x-key"), s("v"))],
        &config,
    )
    .unwrap();
    assert_eq!(next.url, "https://api.example.com/b");
    assert_eq!(next.method, Some(s("GET")));
    assert_eq!(next.headers, vec![(s("x-key"), s("v"))]);
    assert!(next.body.is_none());
}

#[test]
fn redirect_cross_origin_blocked() {
    let config = FetchConfig {
        allowed_origins: vec![s("https://api.example.com"), s("https://evil.com")],
    };
    let err = handle_redirect(
        "https://api.example.com",
        "https://api.example.com/a",
        "https://evil.com/x",
        vec![],
        &config,
    )
    .unwrap_err();
    assert!(err.message().contains("different origin"));
}

#[test]
fn redirect_requires_origin_still_allowed() {
    let config = FetchConfig { allowed_origins: vec![] };
    let err = handle_redirect(
        "https://api.example.com",
        "https://api.example.com/a",
        "/b",
        vec![],
        &config,
    )
    .unwrap_err();
    assert!(err.message().contains("allowlist"));
}

#[test]
fn redirect_status_range() {
    assert!(!is_redirect_status(299));
    assert!(is_redirect_status(300));
    assert!(is_redirect_status(301));
    assert!(is_redirect_status(399));
    assert!(!is_redirect_status(400));
    assert!(is_success_status(200));
    assert!(!is_success_status(301));
}

#[test]
fn find_header_ignores_name_case() {
    let headers = vec![(s("Location"), s("/next")), (s("X-Other"), s("y"))];
    assert_eq!(find_header(&headers, "location"), Some(s("/next")));
    assert_eq!(find_header(&headers, "x-other"), Some(s("y")));
    assert_eq!(find_header(&headers, "missing"), None);
    // The first matching header wins.
    let headers = vec![(s("Location"), s("/first")), (s("location"), s("/second"))];
    assert_eq!(find_header(&headers, "Location"), Some(s("/first")));
}

#[test]
fn fetch_response_ok_follows_status() {
    let r = build_fetch_response(204, s("No Content"), vec![], s("https://a/x"), s(""));
    assert!(r.ok);
    assert_eq!(r.status, 204);
    let r = build_fetch_response(404, s("Not Found"), vec![], s("https://a/x"), s("nope"));
    assert!(!r.ok);
    assert_eq!(r.body, "nope");
}
