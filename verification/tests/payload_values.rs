use sensocto::json::JsonValue;
use sensocto::text::u64_to_string;

#[test]
fn object_lookup_finds_first_binding() {
    let v = JsonValue::Obj(vec![
        ("a".to_owned(), JsonValue::Int(1)),
        ("b".to_owned(), JsonValue::Int(2)),
        ("a".to_owned(), JsonValue::Int(3)),
    ]);
    assert!(matches!(v.get("a"), Some(JsonValue::Int(1))));
    assert!(matches!(v.get("b"), Some(JsonValue::Int(2))));
    assert!(v.get("c").is_none());
    assert!(JsonValue::Null.get("a").is_none());
}

#[test]
fn accessors_discriminate_shapes() {
    assert_eq!(JsonValue::Bool(true).as_bool(), Some(true));
    assert!(JsonValue::Bool(true).as_str().is_none());
    assert_eq!(JsonValue::Int(-5).as_int(), Some(-5));
    let s = JsonValue::Str("x".to_owned());
    assert_eq!(s.as_str().map(|v| v.as_str()), Some("x"));
    let arr = JsonValue::Arr(vec![JsonValue::Null]);
    assert_eq!(arr.as_array().map(|a| a.len()), Some(1));
    assert!(arr.as_obj().is_none());
    let obj = JsonValue::Obj(vec![]);
    assert!(obj.as_obj().is_some());
    assert!(obj.as_array().is_none());
}

#[test]
fn deep_clone_copies_nested_structure() {
    let v = JsonValue::Obj(vec![
        (
            "outer".to_owned(),
            JsonValue::Arr(vec![
                JsonValue::Int(1),
                JsonValue::Obj(vec![("inner".to_owned(), JsonValue::Str("deep".to_owned()))]),
            ]),
        ),
        ("flag".to_owned(), JsonValue::Bool(false)),
    ]);
    let c = v.deep_clone();
    let outer = c.get("outer").unwrap().as_array().unwrap();
    assert!(matches!(outer[0], JsonValue::Int(1)));
    assert!(matches!(outer[1].get("inner"), Some(JsonValue::Str(s)) if s == "deep"));
    assert!(matches!(c.get("flag"), Some(JsonValue::Bool(false))));
}

#[test]
fn decimal_formatting() {
    assert_eq!(u64_to_string(0), "0");
    assert_eq!(u64_to_string(7), "7");
    assert_eq!(u64_to_string(10), "10");
    assert_eq!(u64_to_string(8443), "8443");
    assert_eq!(u64_to_string(u64::MAX), "18446744073709551615");
}
