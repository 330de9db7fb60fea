use electrs_json_rpc::json_codec::{
    from_outside, read_json, read_json_bytes, to_outside, write_json,
};
use electrs_json_rpc::json_value::{JsonMap, JsonValue};
use electrs_json_rpc::text::{
    decimal, is_wrapped_in, join, join3, text_eq, text_order, white_space, TextOrder,
};

fn json(text: &str) -> JsonValue {
    read_json(text).unwrap()
}

#[test]
fn texts_are_ordered_by_code_points() {
    assert_eq!(text_order("a", "b"), TextOrder::Before);
    assert_eq!(text_order("b", "a"), TextOrder::After);
    assert_eq!(text_order("abc", "abc"), TextOrder::Same);
    assert_eq!(text_order("ab", "abc"), TextOrder::Before);
    assert_eq!(text_order("", ""), TextOrder::Same);
    assert_eq!(text_order("Z", "a"), TextOrder::Before);
    assert_eq!(text_order("\u{ffff}", "\u{10000}"), TextOrder::Before);
    assert!(text_eq("2.0", "2.0"));
    assert!(!text_eq("2.0", "2.00"));
}

#[test]
fn numerals_and_joins() {
    assert_eq!(decimal(0), "0");
    assert_eq!(decimal(7), "7");
    assert_eq!(decimal(1234567890), "1234567890");
    assert_eq!(join("a", "b"), "ab");
    assert_eq!(join3("a", "", "c"), "ac");
}

#[test]
fn white_space_around_brackets() {
    assert!(is_wrapped_in("  [1, 2]\n", '[', ']'));
    assert!(is_wrapped_in("\u{2003}[\u{a0}", '[', '[') && !is_wrapped_in("", '[', ']'));
    assert!(!is_wrapped_in("[1, 2", '[', ']'));
    assert!(!is_wrapped_in("x[1]", '[', ']'));
    assert!(!is_wrapped_in("   ", '[', ']'));
    assert!(white_space('\t') && white_space('\u{3000}') && !white_space('x'));
}

#[test]
fn map_keeps_the_last_value_of_a_name() {
    let mut map = JsonMap::new();
    assert!(map.is_empty());
    map.insert("b".to_owned(), JsonValue::from_i64(1));
    map.insert("a".to_owned(), JsonValue::from_i64(2));
    map.insert("b".to_owned(), JsonValue::from_i64(3));
    assert_eq!(map.len(), 2);
    assert_eq!(map.get("b"), Some(&JsonValue::from_i64(3)));
    assert_eq!(map.first_key(), Some("a".to_owned()));
    assert_eq!(map.remove("a"), Some(JsonValue::from_i64(2)));
    assert_eq!(map.remove("a"), None);
    assert!(!map.contains_key("a"));
    assert_eq!(map.first_key(), Some("b".to_owned()));
}

#[test]
fn map_entries_come_in_order() {
    let map = JsonMap::from_entries(vec![
        ("c".to_owned(), JsonValue::Null),
        ("a".to_owned(), JsonValue::Bool(true)),
        ("c".to_owned(), JsonValue::Bool(false)),
    ]);
    let entries = map.into_entries();
    assert_eq!(
        entries,
        vec![
            ("a".to_owned(), JsonValue::Bool(true)),
            ("c".to_owned(), JsonValue::Bool(false)),
        ]
    );
}

#[test]
fn values_are_read_and_written() {
    let text = "{\"a\":[1,-2,18446744073709551615],\"b\":{\"c\":null},\"d\":\"x\\ny\",\"e\":true}";
    let value = json(text);
    assert_eq!(write_json(value.clone()), text.as_bytes().to_vec());
    assert_eq!(read_json_bytes(text.as_bytes()).unwrap(), value);
    let outside = to_outside(value.clone());
    assert_eq!(outside.to_string(), text);
    assert_eq!(from_outside(outside), value);
}

#[test]
fn numbers_are_told_apart() {
    assert_eq!(json("5"), JsonValue::from_i64(5));
    assert_eq!(json("5"), JsonValue::from_u64(5));
    assert_eq!(json("-5"), JsonValue::from_i64(-5));
    assert_eq!(json("18446744073709551615"), JsonValue::from_u64(u64::MAX));
    assert_ne!(json("5.0"), JsonValue::from_i64(5));
}

#[test]
fn text_that_is_no_json_is_refused() {
    assert_eq!(
        read_json("{").unwrap_err().message,
        "EOF while parsing an object at line 1 column 1"
    );
    assert_eq!(
        read_json_bytes(b"[1,]").unwrap_err().message,
        "trailing comma at line 1 column 4"
    );
    assert!(read_json_bytes(&[0xff]).is_err());
}

#[test]
fn nesting_has_a_limit() {
    let fits = format!("{}{}", "[".repeat(127), "]".repeat(127));
    let value = json(&fits);
    assert_eq!(write_json(value), fits.as_bytes().to_vec());
    let too_deep = format!("{}{}", "[".repeat(128), "]".repeat(128));
    assert!(read_json(&too_deep).is_err());
}
