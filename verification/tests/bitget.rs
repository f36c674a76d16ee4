use crypto_exc_all::bitget::account::bitget_positions_from_value;
use crypto_exc_all::bitget::trade::{
    bitget_apply_attached_stop_loss, bitget_force, bitget_margin_mode,
    bitget_place_order_request, BitgetNewOrderRequest,
};
use crypto_exc_all::instrument::Instrument;
use crypto_exc_all::json::JsonValue;
use crypto_exc_all::margin::MarginMode;
use crypto_exc_all::trade::{OrderSide, OrderType, PlaceOrderRequest, TimeInForce};

fn to_json(value: serde_json::Value) -> JsonValue {
    match value {
        serde_json::Value::Null => JsonValue::Null,
        serde_json::Value::Bool(b) => JsonValue::Bool(b),
        serde_json::Value::Number(n) => JsonValue::Number(n.to_string()),
        serde_json::Value::String(s) => JsonValue::String(s),
        serde_json::Value::Array(items) => JsonValue::Array(items.into_iter().map(to_json).collect()),
        serde_json::Value::Object(map) => {
            JsonValue::Object(map.into_iter().map(|(k, v)| (k, to_json(v))).collect())
        }
    }
}

fn parse(text: &str) -> JsonValue {
    to_json(serde_json::from_str(text).expect("valid JSON"))
}

#[test]
fn bitget_attached_stop_loss_maps_to_preset_stop_loss_price() {
    let source =
        PlaceOrderRequest::market(Instrument::perp("ETH", "USDT"), OrderSide::Buy, "0.1")
            .with_attached_stop_loss_price("2200.5");
    let target = BitgetNewOrderRequest::market(
        "ETHUSDT",
        "USDT-FUTURES",
        "isolated",
        "USDT",
        "0.1",
        "buy",
    );

    let mapped = bitget_apply_attached_stop_loss(target, &source);

    assert_eq!(mapped.preset_stop_loss_price.as_deref(), Some("2200.5"));
}

#[test]
fn blank_attached_stop_loss_is_ignored() {
    let source = PlaceOrderRequest::market(Instrument::perp("ETH", "USDT"), OrderSide::Buy, "0.1")
        .with_attached_stop_loss_price("  ");
    let target = BitgetNewOrderRequest::market("ETHUSDT", "USDT-FUTURES", "isolated", "USDT", "0.1", "buy");
    let mapped = bitget_apply_attached_stop_loss(target.clone(), &source);
    assert_eq!(mapped, target);
}

#[test]
fn place_order_request_follows_the_order() {
    let request = PlaceOrderRequest::limit(Instrument::perp("ETH", "USDT"), OrderSide::Sell, "2", "3000")
        .with_margin_mode("isolated")
        .with_time_in_force(TimeInForce::PostOnly)
        .with_reduce_only(true)
        .with_client_order_id("c1")
        .with_attached_stop_loss_price("3100");
    let target = bitget_place_order_request(&request, "USDT-FUTURES").unwrap();
    assert_eq!(target.symbol, "ETHUSDT");
    assert_eq!(target.order_type, "limit");
    assert_eq!(target.price.as_deref(), Some("3000"));
    assert_eq!(target.side, "sell");
    assert_eq!(target.margin_mode, "isolated");
    assert_eq!(target.margin_coin, "USDT");
    assert_eq!(target.force.as_deref(), Some("post_only"));
    assert_eq!(target.reduce_only.as_deref(), Some("YES"));
    assert_eq!(target.client_oid.as_deref(), Some("c1"));
    assert_eq!(target.preset_stop_loss_price.as_deref(), Some("3100"));

    let mut missing_price = PlaceOrderRequest::market(Instrument::perp("ETH", "USDT"), OrderSide::Buy, "1");
    missing_price.order_type = OrderType::Limit;
    let err = bitget_place_order_request(&missing_price, "USDT-FUTURES").unwrap_err();
    assert!(err.to_text().contains("limit orders require price"));

    let settled = PlaceOrderRequest::market(Instrument::perp("BTC", "USD").with_settlement("btc"), OrderSide::Buy, "1");
    let target = bitget_place_order_request(&settled, "COIN-FUTURES").unwrap();
    assert_eq!(target.margin_coin, "BTC");
    assert_eq!(target.margin_mode, "crossed");
    assert_eq!(target.price, None);
}

#[test]
fn bitget_modes_and_force_names() {
    assert_eq!(bitget_margin_mode(None), "crossed");
    assert_eq!(bitget_margin_mode(Some(&MarginMode::Isolated)), "isolated");
    assert_eq!(bitget_force(Some(TimeInForce::Gtc)), Some("gtc"));
    assert_eq!(bitget_force(None), None);
}

#[test]
fn positions_keep_only_the_asked_symbol() {
    let raw = parse(
        r#"[
            {"symbol": "BTCUSDT", "holdSide": "long", "total": "0.5", "openPriceAvg": "60000", "marginMode": "crossed", "leverage": "10"},
            {"symbol": "ETHUSDT", "holdSide": "short", "available": "2"}
        ]"#,
    );
    let all = bitget_positions_from_value(raw.clone(), None).unwrap();
    assert_eq!(all.len(), 2);
    assert_eq!(all[1].instrument, Instrument::perp("ETH", "USDT"));
    assert_eq!(all[1].size, "2");
    let btc = Instrument::perp("BTC", "USDT");
    let some = bitget_positions_from_value(raw, Some(&btc)).unwrap();
    assert_eq!(some.len(), 1);
    assert_eq!(some[0].side.as_deref(), Some("long"));
    assert_eq!(some[0].entry_price.as_deref(), Some("60000"));
    assert!(bitget_positions_from_value(parse("[1]"), None).is_err());
}
