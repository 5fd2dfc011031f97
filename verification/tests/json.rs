use mathimage::json::is_number;
use mathimage::JsonValue;

#[test]
fn a_document_is_read_into_a_tree() {
    let tree = JsonValue::parse("{\"b\": [1, 2.5, \"x\", null, true], \"a\": {\"k\": -3}}").unwrap();
    let expected = JsonValue::Object(vec![
        (
            "a".to_string(),
            JsonValue::Object(vec![("k".to_string(), JsonValue::Number("-3".to_string()))]),
        ),
        (
            "b".to_string(),
            JsonValue::Array(vec![
                JsonValue::Number("1".to_string()),
                JsonValue::Number("2.5".to_string()),
                JsonValue::Text("x".to_string()),
                JsonValue::Null,
                JsonValue::Bool(true),
            ]),
        ),
    ]);
    assert_eq!(tree, expected);
}

#[test]
fn a_text_that_is_no_document_is_refused() {
    assert!(JsonValue::parse("{").is_none());
    assert!(JsonValue::parse("").is_none());
    assert!(JsonValue::parse("[DONE]").is_none());
    assert!(JsonValue::parse("{} {}").is_none());
}

#[test]
fn a_tree_is_written_as_text() {
    let tree = JsonValue::Object(vec![
        ("model".to_string(), JsonValue::text("m")),
        ("n".to_string(), JsonValue::Number("1".to_string())),
        ("ok".to_string(), JsonValue::Bool(false)),
        ("list".to_string(), JsonValue::Array(vec![JsonValue::Null])),
    ]);
    assert_eq!(tree.render(), "{\"list\":[null],\"model\":\"m\",\"n\":1,\"ok\":false}");
    assert_eq!(
        JsonValue::Array(vec![JsonValue::text("a\"b")]).render_pretty(),
        "[\n  \"a\\\"b\"\n]"
    );
}

#[test]
fn written_text_reads_back_as_the_same_tree() {
    let tree = JsonValue::parse("{\"a\": [\"x\", {\"b\": null}], \"c\": 12}").unwrap();
    assert_eq!(JsonValue::parse(&tree.render()), Some(JsonValue::parse("{\"a\":[\"x\",{\"b\":null}],\"c\":12}").unwrap()));
    assert_eq!(JsonValue::parse(&tree.render_pretty()).unwrap(), tree);
}

#[test]
fn lookups_find_the_first_member_under_a_key() {
    let tree = JsonValue::parse("{\"name\": \"n\", \"on\": true, \"items\": [1, 2]}").unwrap();
    assert_eq!(tree.text_at("name"), Some(&"n".to_string()));
    assert_eq!(tree.text_at("on"), None);
    assert_eq!(tree.text_at("missing"), None);
    assert_eq!(tree.bool_at("on"), Some(true));
    assert_eq!(tree.bool_at("name"), None);
    assert_eq!(tree.array_at("items").map(|items| items.len()), Some(2));
    assert!(tree.get("items").is_some());
    assert!(JsonValue::Null.get("name").is_none());
    assert!(JsonValue::text("x").as_str().is_some());
}

#[test]
fn a_number_is_written_as_its_text_says() {
    let numbers = JsonValue::Array(vec![
        JsonValue::Number("1".to_string()),
        JsonValue::Number("-2.5".to_string()),
        JsonValue::Number("1e3".to_string()),
        JsonValue::Number("18446744073709551615".to_string()),
        JsonValue::Number("true".to_string()),
        JsonValue::Number("[1]".to_string()),
        JsonValue::Number(String::new()),
        JsonValue::Number(" 1".to_string()),
        JsonValue::Number("1e999".to_string()),
    ]);
    assert_eq!(
        numbers.render(),
        "[1,-2.5,1000.0,18446744073709551615,null,null,null,null,null]"
    );
}

#[test]
fn of_two_members_under_one_key_the_first_is_found_and_the_later_written() {
    let twice = JsonValue::Object(vec![
        ("k".to_string(), JsonValue::text("first")),
        ("k".to_string(), JsonValue::text("later")),
    ]);
    assert_eq!(twice.text_at("k"), Some(&"first".to_string()));
    assert_eq!(twice.render(), "{\"k\":\"later\"}");
    assert_eq!(
        JsonValue::parse("{\"k\": 1, \"k\": 2}"),
        Some(JsonValue::Object(vec![("k".to_string(), JsonValue::Number("2".to_string()))]))
    );
}

#[test]
fn the_form_of_a_number_is_told() {
    let long = "9".repeat(200);
    for text in [
        "0", "-0", "1", "10", "-12.5", "1e3", "1E+3", "1.5e-10", "0.0", "0e0", "123.456e78",
        "18446744073709551615", long.as_str(),
    ] {
        assert!(is_number(text), "{}", text);
    }
    let longer = "9".repeat(201);
    for text in [
        "", "-", "01", "-01", "1.", ".5", "1e", "1e+", "1e-", "1e123", "+1", " 1", "1 ", "0x1",
        "1.5.2", "1e1.5", "1ee1", "--1", "true", "null", "NaN", "Infinity", "１", "1,5", "e5",
        "-.5", "1.e5", longer.as_str(),
    ] {
        assert!(!is_number(text), "{}", text);
    }
}

#[test]
fn every_number_that_is_told_is_read_by_the_parser() {
    let long = "9".repeat(200);
    for text in [
        "0", "-0", "1", "10", "-12.5", "1e3", "1E+3", "1.5e-10", "0.0", "0e0", "123.456e78",
        "1e99", "-1e-99", "18446744073709551615",
    ] {
        assert!(is_number(text));
        let read = JsonValue::parse(text).unwrap();
        assert!(matches!(read, JsonValue::Number(_)), "{}", text);
        assert_ne!(JsonValue::Number(text.to_string()).render(), "null", "{}", text);
    }
    let largest = format!("{}e99", long);
    assert!(is_number(&largest));
    assert_ne!(JsonValue::Number(largest).render(), "null");
}

#[test]
fn what_is_written_holds_no_text_that_is_no_number() {
    let tree = JsonValue::Object(vec![
        ("a".to_string(), JsonValue::Array(vec![
            JsonValue::Number("1".to_string()),
            JsonValue::Number("one".to_string()),
            JsonValue::Object(vec![("n".to_string(), JsonValue::Number("01".to_string()))]),
        ])),
        ("t".to_string(), JsonValue::text("01")),
        ("b".to_string(), JsonValue::Bool(true)),
        ("z".to_string(), JsonValue::Null),
    ]);
    let expected = JsonValue::Object(vec![
        ("a".to_string(), JsonValue::Array(vec![
            JsonValue::Number("1".to_string()),
            JsonValue::Null,
            JsonValue::Object(vec![("n".to_string(), JsonValue::Null)]),
        ])),
        ("t".to_string(), JsonValue::text("01")),
        ("b".to_string(), JsonValue::Bool(true)),
        ("z".to_string(), JsonValue::Null),
    ]);
    assert_eq!(tree.written(), expected);
    assert_eq!(expected.written(), expected);
    assert_eq!(tree.render(), "{\"a\":[1,null,{\"n\":null}],\"b\":true,\"t\":\"01\",\"z\":null}");
}
