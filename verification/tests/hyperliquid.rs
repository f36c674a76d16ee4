use crypto_exc_all::hyperliquid::spot::{
    spot_asset_context_from_value, spot_exchange_symbol_from_universe_item,
    spot_instrument_from_symbol,
};
use crypto_exc_all::hyperliquid::{hyperliquid_positions_from_state, position_side};
use crypto_exc_all::instrument::{Instrument, MarketType};
use crypto_exc_all::json::JsonValue;

fn to_json(value: serde_json::Value) -> JsonValue {
    match value {
        serde_json::Value::Null => JsonValue::Null,
        serde_json::Value::Bool(b) => JsonValue::Bool(b),
        serde_json::Value::Number(n) => JsonValue::Number(n.to_string()),
        serde_json::Value::String(s) => JsonValue::String(s),
        serde_json::Value::Array(items) => JsonValue::Array(items.into_iter().map(to_json).collect()),
        serde_json::Value::Object(map) => {
            JsonValue::Object(map.into_iter().map(|(k, v)| (k, to_json(v))).collect())
        }
    }
}

fn parse(text: &str) -> JsonValue {
    to_json(serde_json::from_str(text).expect("valid JSON"))
}

#[test]
fn position_sides_follow_the_sign_of_the_size() {
    assert_eq!(position_side(" -0.5").as_deref(), Some("short"));
    assert_eq!(position_side("0.5").as_deref(), Some("long"));
    assert_eq!(position_side(" 0 "), None);
    assert_eq!(position_side(""), None);
}

#[test]
fn clearinghouse_positions_map_and_filter_by_coin() {
    let raw = parse(
        r#"{"assetPositions": [
            {"position": {"coin": "BTC", "szi": "-0.1", "entryPx": "60000", "leverage": {"type": "cross", "value": 5}, "liquidationPx": "70000", "unrealizedPnl": "1"}},
            {"position": {"coin": "ETH", "szi": "2"}}
        ]}"#,
    );
    let all = hyperliquid_positions_from_state(raw.clone(), None).unwrap();
    assert_eq!(all.len(), 2);
    assert_eq!(all[0].side.as_deref(), Some("short"));
    assert_eq!(all[0].leverage.as_deref(), Some("5"));
    assert_eq!(all[0].margin_mode.as_deref(), Some("cross"));
    assert_eq!(all[1].instrument, Instrument::perp("ETH", "USDC"));
    let eth = Instrument::perp("ETH", "USDC");
    let only = hyperliquid_positions_from_state(raw, Some(&eth)).unwrap();
    assert_eq!(only.len(), 1);
    assert_eq!(only[0].exchange_symbol, "ETH");
    let err = hyperliquid_positions_from_state(parse(r#"{"assetPositions": [{}]}"#), None).unwrap_err();
    assert!(err.to_text().contains("Hyperliquid assetPosition missing position"));
    let err = hyperliquid_positions_from_state(parse("[]"), None).unwrap_err();
    assert!(err.to_text().contains("is not an object"));
}

fn spot_meta_and_contexts() -> JsonValue {
    parse(
        r#"[
            {
                "tokens": [
                    {"name": "USDC", "index": 0},
                    {"name": "PURR", "index": 1},
                    {"name": "HYPE", "index": 150}
                ],
                "universe": [
                    {"name": "PURR/USDC", "tokens": [1, 0], "index": 0},
                    {"name": "@107", "tokens": [150, 0], "index": 107}
                ]
            },
            [
                {"markPx": "0.2", "coin": "PURR/USDC"},
                {"markPx": "35.5", "coin": "@107"}
            ]
        ]"#,
    )
}

#[test]
fn spot_asset_context_finds_the_pair() {
    let hype = Instrument::spot("HYPE", "USDC");
    let (symbol, ctx) = spot_asset_context_from_value(&spot_meta_and_contexts(), &hype).unwrap();
    assert_eq!(symbol, "@107");
    assert_eq!(ctx, parse(r#"{"markPx": "35.5", "coin": "@107"}"#));
    let purr = Instrument::spot("PURR", "USDC");
    let (symbol, _) = spot_asset_context_from_value(&spot_meta_and_contexts(), &purr).unwrap();
    assert_eq!(symbol, "PURR/USDC");
    let missing = Instrument::spot("DOGE", "USDC");
    let err = spot_asset_context_from_value(&spot_meta_and_contexts(), &missing).unwrap_err();
    assert!(err.to_text().contains("Hyperliquid spotMetaAndAssetCtxs asset not found: DOGE/USDC"));
    let err = spot_asset_context_from_value(&parse("{}"), &purr).unwrap_err();
    assert!(err.to_text().contains("missing meta"));
}

#[test]
fn spot_symbols_and_instruments() {
    let i = spot_instrument_from_symbol("purr/usdc");
    assert_eq!((i.base.as_str(), i.quote.as_str(), i.market_type), ("PURR", "USDC", MarketType::Spot));
    let i = spot_instrument_from_symbol("HYPE");
    assert_eq!((i.base.as_str(), i.quote.as_str()), ("HYPE", "USDC"));
    assert_eq!(
        spot_exchange_symbol_from_universe_item(&parse(r#"{"name": "HYPE/USDC", "index": 107}"#)).as_deref(),
        Some("@107")
    );
    assert_eq!(
        spot_exchange_symbol_from_universe_item(&parse(r#"{"name": "HYPE/USDC"}"#)).as_deref(),
        Some("HYPE/USDC")
    );
}
