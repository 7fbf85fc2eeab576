use openclaw_linux::json::{
    JsonValue, child_object, empty_object, json_equal, merge_into, object_insert, object_remove,
};

fn s(x: &str) -> String {
    x.to_string()
}

fn obj(members: Vec<(&str, JsonValue)>) -> JsonValue {
    JsonValue::Object(members.into_iter().map(|(k, v)| (k.to_string(), v)).collect())
}

#[test]
fn insert_then_get_reads_the_value() {
    let mut o = obj(vec![("a", JsonValue::Bool(true)), ("b", JsonValue::Null)]);
    object_insert(&mut o, "b", JsonValue::Str(s("x")));
    assert_eq!(o.get("b"), Some(&JsonValue::Str(s("x"))));
    assert_eq!(o.get("a"), Some(&JsonValue::Bool(true)));
    object_insert(&mut o, "c", JsonValue::Number(s("1")));
    assert_eq!(o, obj(vec![
        ("a", JsonValue::Bool(true)),
        ("b", JsonValue::Str(s("x"))),
        ("c", JsonValue::Number(s("1"))),
    ]));
    let mut n = JsonValue::Null;
    object_insert(&mut n, "k", JsonValue::Bool(false));
    assert_eq!(n, obj(vec![("k", JsonValue::Bool(false))]));
}

#[test]
fn remove_then_get_reads_nothing() {
    let mut o = obj(vec![("a", JsonValue::Bool(true)), ("b", JsonValue::Null), ("a", JsonValue::Null)]);
    object_remove(&mut o, "a");
    assert_eq!(o.get("a"), None);
    assert_eq!(o, obj(vec![("b", JsonValue::Null)]));
}

#[test]
fn merge_lays_overlay_over_base() {
    let mut base = obj(vec![
        ("gateway", obj(vec![("mode", JsonValue::Str(s("local"))), ("port", JsonValue::Number(s("1")))])),
        ("other", JsonValue::Bool(true)),
    ]);
    let overlay = obj(vec![
        ("gateway", obj(vec![("mode", JsonValue::Str(s("remote")))])),
        ("extra", JsonValue::Null),
    ]);
    merge_into(&mut base, overlay);
    assert_eq!(
        base,
        obj(vec![
            ("gateway", obj(vec![("mode", JsonValue::Str(s("remote"))), ("port", JsonValue::Number(s("1")))])),
            ("other", JsonValue::Bool(true)),
            ("extra", JsonValue::Null),
        ])
    );
    let mut scalar = JsonValue::Number(s("3"));
    merge_into(&mut scalar, obj(vec![]));
    assert_eq!(scalar, obj(vec![]));
}

#[test]
fn child_objects_and_equality() {
    let o = obj(vec![("g", JsonValue::Str(s("x"))), ("h", obj(vec![("k", JsonValue::Null)]))]);
    assert_eq!(child_object(&o, "g"), empty_object());
    assert_eq!(child_object(&o, "h"), obj(vec![("k", JsonValue::Null)]));
    assert_eq!(child_object(&o, "missing"), empty_object());
    assert!(json_equal(&o, &o.clone()));
    assert!(!json_equal(&o, &empty_object()));
    assert_eq!(JsonValue::Number(s("18789")).as_u64(), Some(18789));
    assert_eq!(JsonValue::Number(s("-1")).as_u64(), None);
    assert_eq!(JsonValue::Str(s("x")).as_str(), Some(&s("x")));
    assert_eq!(JsonValue::Bool(true).as_bool(), Some(true));
}

#[test]
fn numbers_compare_as_numbers() {
    assert!(json_equal(&JsonValue::Number(s("-0.0")), &JsonValue::Number(s("0.0"))));
    assert!(json_equal(&JsonValue::Number(s("0.0")), &JsonValue::Number(s("-0.0"))));
    assert!(json_equal(&JsonValue::Number(s("1.5")), &JsonValue::Number(s("1.5"))));
    assert!(!json_equal(&JsonValue::Number(s("1")), &JsonValue::Number(s("1.0"))));
    assert!(!json_equal(&JsonValue::Number(s("0")), &JsonValue::Number(s("0.0"))));
    let a = obj(vec![("k", JsonValue::Array(vec![JsonValue::Number(s("-0.0"))]))]);
    let b = obj(vec![("k", JsonValue::Array(vec![JsonValue::Number(s("0.0"))]))]);
    assert!(json_equal(&a, &b));
}
