use poa_node::json::{rename_uncles_to_ommers, JsonValue};

fn text(x: &str) -> JsonValue {
    JsonValue::String(x.to_string())
}

fn arr(items: Vec<JsonValue>) -> JsonValue {
    JsonValue::Array(items)
}

fn obj(entries: Vec<(&str, JsonValue)>) -> JsonValue {
    JsonValue::Object(entries.into_iter().map(|(k, v)| (k.to_string(), v)).collect())
}

fn field<'a>(v: &'a JsonValue, key: &str) -> &'a JsonValue {
    v.get(key).unwrap()
}

#[test]
fn test_rename_uncles_to_ommers() {
    let input = obj(vec![
        ("number", text("0x1")),
        ("hash", text("0x123")),
        ("uncles", arr(vec![text("0xabc"), text("0xdef")])),
    ]);

    let result = rename_uncles_to_ommers(input);

    assert!(result.get("ommers").is_some());
    assert!(result.get("uncles").is_none());
    assert_eq!(*field(&result, "ommers"), arr(vec![text("0xabc"), text("0xdef")]));
}

#[test]
fn test_rename_uncles_nested() {
    let input = obj(vec![
        ("header", obj(vec![("number", text("0x1")), ("uncles", arr(vec![text("0x111")]))])),
        (
            "body",
            obj(vec![
                ("transactions", arr(vec![])),
                ("uncles", arr(vec![text("0x222"), text("0x333")])),
            ]),
        ),
        ("uncles", arr(vec![text("0x444")])),
    ]);

    let result = rename_uncles_to_ommers(input);

    assert!(result.get("ommers").is_some());
    assert!(result.get("uncles").is_none());
    assert_eq!(*field(&result, "ommers"), arr(vec![text("0x444")]));

    assert!(field(&result, "header").get("ommers").is_some());
    assert!(field(&result, "header").get("uncles").is_none());
    assert_eq!(*field(field(&result, "header"), "ommers"), arr(vec![text("0x111")]));

    assert!(field(&result, "body").get("ommers").is_some());
    assert!(field(&result, "body").get("uncles").is_none());
    assert_eq!(
        *field(field(&result, "body"), "ommers"),
        arr(vec![text("0x222"), text("0x333")])
    );
}

#[test]
fn test_rename_uncles_array() {
    let input = arr(vec![
        obj(vec![("number", text("0x1")), ("uncles", arr(vec![text("0xaaa")]))]),
        obj(vec![("number", text("0x2")), ("uncles", arr(vec![text("0xbbb")]))]),
    ]);

    let result = rename_uncles_to_ommers(input);

    let array = result.as_array().unwrap();
    assert!(array[0].get("ommers").is_some());
    assert!(array[0].get("uncles").is_none());
    assert!(array[1].get("ommers").is_some());
    assert!(array[1].get("uncles").is_none());
}

#[test]
fn test_no_uncles_field() {
    let make = || obj(vec![("number", text("0x1")), ("hash", text("0x123")), ("transactions", arr(vec![]))]);
    let input = make();
    let expected = make();
    let result = rename_uncles_to_ommers(input);

    assert_eq!(result, expected);
}

#[test]
fn normalize_twice_equals_once() {
    let make = || {
        obj(vec![
            ("uncles", arr(vec![obj(vec![("uncles", arr(vec![text("0x1")]))])])),
            ("ommers", text("old")),
            ("n", JsonValue::Number("7".to_string())),
        ])
    };
    let once = rename_uncles_to_ommers(make());
    let twice = rename_uncles_to_ommers(rename_uncles_to_ommers(make()));
    assert_eq!(once, twice);
}

#[test]
fn normalize_renames_deep_field_and_keeps_siblings() {
    let input = obj(vec![(
        "a",
        arr(vec![obj(vec![(
            "b",
            obj(vec![("c", arr(vec![obj(vec![("x", JsonValue::Bool(true)), ("uncles", arr(vec![]))])]))]),
        )])]),
    )]);
    let expected = obj(vec![(
        "a",
        arr(vec![obj(vec![(
            "b",
            obj(vec![("c", arr(vec![obj(vec![("x", JsonValue::Bool(true)), ("ommers", arr(vec![]))])]))]),
        )])]),
    )]);
    assert_eq!(rename_uncles_to_ommers(input), expected);
}

#[test]
fn normalize_replaces_existing_ommers_entry() {
    let input = obj(vec![("ommers", text("stale")), ("number", text("0x1")), ("uncles", arr(vec![text("0x9")]))]);
    let expected = obj(vec![("number", text("0x1")), ("ommers", arr(vec![text("0x9")]))]);
    assert_eq!(rename_uncles_to_ommers(input), expected);
}

#[test]
fn normalize_leaves_scalars_alone() {
    assert_eq!(rename_uncles_to_ommers(JsonValue::Null), JsonValue::Null);
    assert_eq!(rename_uncles_to_ommers(text("uncles")), text("uncles"));
    assert_eq!(rename_uncles_to_ommers(arr(vec![])), arr(vec![]));
    assert_eq!(rename_uncles_to_ommers(obj(vec![])), obj(vec![]));
}

#[test]
fn get_returns_first_entry_and_as_array_rejects_objects() {
    let v = obj(vec![("k", text("1")), ("k", text("2"))]);
    assert_eq!(v.get("k"), Some(&text("1")));
    assert_eq!(v.get("missing"), None);
    assert!(v.as_array().is_none());
    assert_eq!(text("k").get("k"), None);
}
