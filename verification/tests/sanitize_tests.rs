use ssr_sandbox::json::JsonValue;
use ssr_sandbox::sanitize::sanitize_props;

fn s(text: &str) -> String {
    text.to_string()
}

fn obj(fields: Vec<(&str, JsonValue)>) -> JsonValue {
    JsonValue::Obj(fields.into_iter().map(|(k, v)| (s(k), v)).collect())
}

fn safe_props() -> JsonValue {
    obj(vec![
        ("page", JsonValue::Str(s("home"))),
        (
            "user",
            obj(vec![
                ("name", JsonValue::Str(s("Alice"))),
                ("settings", obj(vec![("theme", JsonValue::Str(s("dark")))])),
            ]),
        ),
        (
            "items",
            JsonValue::Arr(vec![
                JsonValue::Num(s("1")),
                JsonValue::Num(s("2")),
                obj(vec![("nested", JsonValue::Bool(true))]),
            ]),
        ),
    ])
}

#[test]
fn test_safe_props() {
    let result = sanitize_props(safe_props());
    assert!(result.is_ok());
    assert_eq!(result.unwrap(), safe_props());
}

#[test]
fn test_blocks_proto() {
    let props = obj(vec![("__proto__", obj(vec![("polluted", JsonValue::Bool(true))]))]);
    let result = sanitize_props(props);
    assert!(result.is_err());
    assert!(result.unwrap_err().message().contains("__proto__"));
}

#[test]
fn test_blocks_constructor() {
    let props = obj(vec![("constructor", obj(vec![("prototype", obj(vec![]))]))]);
    let result = sanitize_props(props);
    assert!(result.is_err());
    assert!(result.unwrap_err().message().contains("constructor"));
}

#[test]
fn test_blocks_nested_proto() {
    let props = obj(vec![(
        "safe",
        obj(vec![(
            "nested",
            obj(vec![("__proto__", obj(vec![("polluted", JsonValue::Bool(true))]))]),
        )]),
    )]);
    let result = sanitize_props(props);
    assert!(result.is_err());
}

#[test]
fn test_blocks_proto_in_array() {
    let props = obj(vec![(
        "items",
        JsonValue::Arr(vec![
            obj(vec![("safe", JsonValue::Bool(true))]),
            obj(vec![("__proto__", obj(vec![("polluted", JsonValue::Bool(true))]))]),
        ]),
    )]);
    let result = sanitize_props(props);
    assert!(result.is_err());
}

#[test]
fn test_depth_limit() {
    let mut value = obj(vec![("leaf", JsonValue::Bool(true))]);
    for _ in 0..35 {
        value = obj(vec![("nested", value)]);
    }
    let result = sanitize_props(value);
    assert!(result.is_err());
    assert!(result.unwrap_err().message().contains("too deep"));
}

#[test]
fn test_blocks_prototype_key() {
    let props = obj(vec![("prototype", JsonValue::Null)]);
    let result = sanitize_props(props);
    assert!(result.is_err());
    assert!(result.unwrap_err().message().contains("prototype"));
}

#[test]
fn test_depth_exactly_at_limit_passes() {
    // 32 wrappers put the innermost object at depth 32, the deepest level
    // the sanitizer admits.
    let mut value = JsonValue::Bool(true);
    for _ in 0..32 {
        value = obj(vec![("nested", value)]);
    }
    let result = sanitize_props(value);
    assert!(result.is_ok());
}

#[test]
fn test_depth_just_past_limit_fails() {
    let mut value = obj(vec![("x", JsonValue::Null)]);
    for _ in 0..33 {
        value = obj(vec![("nested", value)]);
    }
    let result = sanitize_props(value);
    assert!(result.is_err());
    assert!(result.unwrap_err().message().contains("too deep"));
}

#[test]
fn test_primitives_pass_through() {
    assert_eq!(sanitize_props(JsonValue::Null).unwrap(), JsonValue::Null);
    assert_eq!(
        sanitize_props(JsonValue::Num(s("42"))).unwrap(),
        JsonValue::Num(s("42"))
    );
    assert_eq!(
        sanitize_props(JsonValue::Str(s("__proto__"))).unwrap(),
        JsonValue::Str(s("__proto__"))
    );
}
