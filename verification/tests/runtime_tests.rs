use ssr_sandbox::json::to_json;
use ssr_sandbox::json::JsonValue;
use ssr_sandbox::loader::SandboxedLoader;
use ssr_sandbox::runtime::apply_timeout_policy;
use ssr_sandbox::runtime::build_render_call;
use ssr_sandbox::runtime::entry_specifier;
use ssr_sandbox::runtime::interpret_render_value;
use ssr_sandbox::runtime::response_poisons;
use ssr_sandbox::runtime::RenderError;
use ssr_sandbox::runtime::RenderOutcome;
use ssr_sandbox::runtime::RenderSession;
use ssr_sandbox::runtime::SandboxConfig;

fn s(text: &str) -> String {
    text.to_string()
}

fn obj(fields: Vec<(&str, JsonValue)>) -> JsonValue {
    JsonValue::Obj(fields.into_iter().map(|(k, v)| (s(k), v)).collect())
}

#[test]
fn default_config_values() {
    let c = SandboxConfig::default();
    assert_eq!(c.chunks_dir, "./chunks");
    assert_eq!(c.max_heap_size, Some(64 * 1024 * 1024));
    assert_eq!(c.timeout_ms, Some(30_000));
    assert!(c.allowed_origins.is_empty());
}

#[test]
fn json_serialization_exact() {
    assert_eq!(to_json(&JsonValue::Null), "null");
    assert_eq!(to_json(&JsonValue::Bool(true)), "true");
    assert_eq!(to_json(&JsonValue::Num(s("42"))), "42");
    assert_eq!(to_json(&JsonValue::Str(s("hi"))), "\"hi\"");
    let v = obj(vec![
        ("title", JsonValue::Str(s("hi"))),
        ("items", JsonValue::Arr(vec![JsonValue::Num(s("1")), JsonValue::Null])),
    ]);
    assert_eq!(to_json(&v), "{\"title\":\"hi\",\"items\":[1,null]}");
}

#[test]
fn json_serialization_escapes() {
    assert_eq!(to_json(&JsonValue::Str(s("a\"b"))), "\"a\\\"b\"");
    assert_eq!(to_json(&JsonValue::Str(s("a\\b"))), "\"a\\\\b\"");
    assert_eq!(to_json(&JsonValue::Str(s("a\nb"))), "\"a\\u000ab\"");
    assert_eq!(to_json(&JsonValue::Str(s("\u{0001}"))), "\"\\u0001\"");
}

#[test]
fn render_call_shape() {
    let props = obj(vec![("title", JsonValue::Str(s("hi")))]);
    let call = build_render_call("file:///srv/chunks/entry.js", &props);
    assert_eq!(
        call,
        "globalThis.__ssr_internal_render__(\"file:///srv/chunks/entry.js\", {\"title\":\"hi\"})"
    );
}

#[test]
fn interpret_outcomes() {
    assert_eq!(
        interpret_render_value(RenderOutcome::FulfilledString(s("<h1>hi</h1>"))).unwrap(),
        "<h1>hi</h1>"
    );
    assert_eq!(
        interpret_render_value(RenderOutcome::PlainString(s("x"))).unwrap(),
        "x"
    );
    let err = interpret_render_value(RenderOutcome::Rejected(s("boom"))).unwrap_err();
    assert_eq!(err.message(), "Render function threw: boom");
    let err = interpret_render_value(RenderOutcome::PendingPromise).unwrap_err();
    assert_eq!(err.message(), "Render function returned unresolved promise");
    let err = interpret_render_value(RenderOutcome::FulfilledOther).unwrap_err();
    assert_eq!(err.message(), "Render function must return a string");
    let err = interpret_render_value(RenderOutcome::OtherValue).unwrap_err();
    assert_eq!(err.message(), "Render function must return a string");
}

#[test]
fn timeout_policy_rewrites_termination_errors() {
    let e = apply_timeout_policy(RenderError::Threw(s("Uncaught Error: execution terminated")), 100);
    assert_eq!(e.message(), "Render timed out after 100ms");
    let e = apply_timeout_policy(RenderError::UnresolvedPromise, 100);
    assert_eq!(e.message(), "Render timed out after 100ms");
    let e = apply_timeout_policy(RenderError::Threw(s("undefined is not a function")), 100);
    assert_eq!(e.message(), "Render function threw: undefined is not a function");
}

#[test]
fn timeout_poisons_session_and_recovery_restores_it() {
    let mut session = RenderSession::new();
    assert!(!session.poisoned);

    // A request times out.
    let msg = RenderError::TimedOut(100).message();
    assert_eq!(msg, "Render timed out after 100ms");
    session.record_request(response_poisons(&msg));
    assert!(session.poisoned);

    // Before the next request the isolate is rebuilt; the session is then
    // exactly a fresh one.
    let rebuilt = session.ensure_ready();
    assert!(rebuilt);
    assert!(!session.poisoned);

    // An ordinary error keeps the isolate warm.
    let msg = RenderError::Threw(s("boom")).message();
    session.record_request(response_poisons(&msg));
    assert!(!session.poisoned);
    assert!(!session.ensure_ready());
}

#[test]
fn entry_specifier_checks_containment() {
    let loader = SandboxedLoader::new(".").unwrap();
    let err = entry_specifier(&loader, "/proc/self/status").unwrap_err();
    assert!(err.message().contains("Invalid entry point"));

    let loader = SandboxedLoader::new("/proc/self").unwrap();
    let url = entry_specifier(&loader, "/proc/self/status").unwrap();
    assert!(url.starts_with("file://"));
    assert!(url.ends_with("/status"));
}
