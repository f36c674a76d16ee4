use crypto_exc_all::json::{
    first_item, first_string_field, first_u64, json_first_string_field, json_first_u64_field,
    non_empty_value, owned_items, value_string_at, value_u64_at, JsonValue,
};
use crypto_exc_all::exchange::ExchangeId;

fn text(s: &str) -> JsonValue {
    JsonValue::String(s.to_string())
}

fn number(s: &str) -> JsonValue {
    JsonValue::Number(s.to_string())
}

#[test]
fn non_empty_value_keeps_existing_adapter_semantics() {
    assert_eq!(non_empty_value(&text("BTC-USDT")), Some("BTC-USDT".to_string()));
    assert_eq!(non_empty_value(&number("42")), Some("42".to_string()));
    assert_eq!(non_empty_value(&JsonValue::Bool(true)), Some("true".to_string()));
    assert_eq!(non_empty_value(&text("")), None);
    assert_eq!(non_empty_value(&JsonValue::Null), None);
    assert_eq!(non_empty_value(&JsonValue::Array(vec![])), None);
}

#[test]
fn shared_field_helpers_keep_existing_adapter_semantics() {
    let object = vec![
        ("symbol".to_string(), text("BTC-USDT")),
        ("empty".to_string(), text("")),
        ("id".to_string(), text("42")),
        ("numeric_id".to_string(), number("7")),
        ("enabled".to_string(), JsonValue::Bool(true)),
    ];
    let value = JsonValue::Object(object.clone());

    assert_eq!(
        first_string_field(&object, &["missing", "symbol"]),
        Some("BTC-USDT".to_string())
    );
    assert_eq!(first_string_field(&object, &["empty"]), None);
    assert_eq!(
        first_string_field(&object, &["enabled"]),
        Some("true".to_string())
    );
    assert_eq!(first_u64(&object, &["id"]), Some(42));
    assert_eq!(first_u64(&object, &["numeric_id"]), Some(7));
    assert_eq!(first_u64(&object, &["symbol"]), None);

    assert_eq!(
        json_first_string_field(&value, &["missing", "symbol"]),
        Some("BTC-USDT".to_string())
    );
    assert_eq!(json_first_u64_field(&value, &["id"]), Some(42));
    assert_eq!(value_string_at(&vec![text("x")], 0), Some("x".to_string()));
    assert_eq!(value_u64_at(&vec![text("42")], 0), Some(42));
}

#[test]
fn numbers_read_as_u64_only_when_whole_and_in_range() {
    let object = vec![
        ("a".to_string(), number("18446744073709551615")),
        ("b".to_string(), number("18446744073709551616")),
        ("c".to_string(), number("1.5")),
        ("d".to_string(), number("-1")),
    ];
    assert_eq!(first_u64(&object, &["a"]), Some(u64::MAX));
    assert_eq!(first_u64(&object, &["b"]), None);
    assert_eq!(first_u64(&object, &["c"]), None);
    assert_eq!(first_u64(&object, &["d"]), None);
}

#[test]
fn response_items_accept_arrays_and_single_objects() {
    let single = JsonValue::Object(vec![("k".to_string(), text("v"))]);
    assert_eq!(owned_items(single.clone(), ExchangeId::Okx, "x").unwrap(), vec![single.clone()]);
    let err = owned_items(JsonValue::Null, ExchangeId::Okx, "OKX thing").unwrap_err();
    assert_eq!(err.to_text(), "交易所适配器错误: okx: OKX thing is neither an array nor an object");
    let err = first_item(JsonValue::Array(vec![]), ExchangeId::Okx, "OKX thing").unwrap_err();
    assert!(err.to_text().contains("OKX thing is empty"));
    assert_eq!(first_item(JsonValue::Array(vec![text("a"), text("b")]), ExchangeId::Okx, "x").unwrap(), text("a"));
}
