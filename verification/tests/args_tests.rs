use std::collections::BTreeMap;
use std::collections::HashMap;

use convex::Value;

use convex_mobile::args::parse_json_args;
use convex_mobile::ClientError;

#[test]
fn test_boolean_values_in_json_args() {
    let mut m = HashMap::new();
    m.insert(String::from("a"), String::from("false"));

    assert_eq!(
        parse_json_args(m).unwrap().get(&String::from("a")),
        Some(&Value::Boolean(false))
    )
}

#[test]
fn test_number_values_in_json_args() {
    let mut m = HashMap::new();
    m.insert(String::from("a"), String::from("42"));
    m.insert(String::from("b"), String::from("42.42"));

    let result = parse_json_args(m).unwrap();
    assert_eq!(result.get(&String::from("a")), Some(&Value::Float64(42.0)));
    assert_eq!(result.get(&String::from("b")), Some(&Value::Float64(42.42)))
}

#[test]
fn test_list_values_in_json_args() {
    let mut m = HashMap::new();
    m.insert(String::from("a"), String::from("[1,2,3]"));
    m.insert(String::from("b"), String::from("[\"a\",\"b\",\"c\"]"));

    let result = parse_json_args(m).unwrap();
    assert_eq!(
        result.get(&String::from("a")),
        Some(&Value::Array(vec![
            Value::Float64(1.0),
            Value::Float64(2.0),
            Value::Float64(3.0)
        ]))
    );
    assert_eq!(
        result.get(&String::from("b")),
        Some(&Value::Array(vec![
            Value::String(String::from("a")),
            Value::String(String::from("b")),
            Value::String(String::from("c"))
        ]))
    );
}

#[test]
fn test_object_values_in_json_args() {
    let mut m = HashMap::new();
    m.insert(String::from("a"), String::from("{\"a\":1,\"b\":\"foo\"}"));

    let result = parse_json_args(m);
    let mut expected = BTreeMap::new();
    expected.insert(String::from("a"), Value::Float64(1.0));
    expected.insert(String::from("b"), Value::String(String::from("foo")));
    assert_eq!(
        result.unwrap().get(&String::from("a")),
        Some(&Value::Object(expected))
    );
}

#[test]
fn test_malformed_json_is_internal_error() {
    let mut m = HashMap::new();
    m.insert(String::from("a"), String::from("{not json"));

    match parse_json_args(m) {
        Err(ClientError::InternalError { .. }) => (),
        other => panic!("expected InternalError, got {other:?}"),
    }
}

#[test]
fn test_missing_key_is_none() {
    let mut m = HashMap::new();
    m.insert(String::from("a"), String::from("1"));

    let result = parse_json_args(m).unwrap();
    assert_eq!(result.get(&String::from("b")), None);
}

#[test]
fn test_arg_entries_are_sorted_by_name() {
    let mut m = HashMap::new();
    m.insert(String::from("zeta"), String::from("1"));
    m.insert(String::from("alpha"), String::from("2"));
    m.insert(String::from("mid"), String::from("3"));

    let result = parse_json_args(m).unwrap();
    assert_eq!(result.len(), 3);
    let entries = result.into_entries();
    let names: Vec<&str> = entries.iter().map(|e| e.0.as_str()).collect();
    assert_eq!(names, vec!["alpha", "mid", "zeta"]);
}

#[test]
fn test_null_and_nested_values() {
    let mut m = HashMap::new();
    m.insert(String::from("n"), String::from("null"));
    m.insert(String::from("deep"), String::from("[{\"x\":true}]"));

    let result = parse_json_args(m).unwrap();
    assert_eq!(result.get(&String::from("n")), Some(&Value::Null));
    let mut obj = BTreeMap::new();
    obj.insert(String::from("x"), Value::Boolean(true));
    assert_eq!(
        result.get(&String::from("deep")),
        Some(&Value::Array(vec![Value::Object(obj)]))
    );
}

#[test]
fn test_sort_order_matches_backend_map_order() {
    // Multi-byte names order by their UTF-8 bytes, exactly as the
    // backend's own ordered argument map orders its keys.
    let mut m = HashMap::new();
    m.insert(String::from("\u{e9}"), String::from("1"));
    m.insert(String::from("z"), String::from("2"));
    let entries = parse_json_args(m).unwrap().into_entries();
    let names: Vec<&str> = entries.iter().map(|e| e.0.as_str()).collect();
    assert_eq!(names, vec!["z", "\u{e9}"]);

    let mut b = BTreeMap::new();
    b.insert(String::from("\u{e9}"), 1);
    b.insert(String::from("z"), 2);
    let backend_order: Vec<&str> = b.keys().map(|k| k.as_str()).collect();
    assert_eq!(backend_order, names);
}
