use crypto_exc_all::error::Error;
use crypto_exc_all::exchange::ExchangeId;
use crypto_exc_all::instrument::Instrument;
use crypto_exc_all::json::JsonValue;
use crypto_exc_all::okx::account::{
    map_account_order_permission, map_margin_summary, okx_account_identity_from_config,
    okx_sourced_balances, OkxAccountBalance, OkxBalanceDetail,
};
use crypto_exc_all::okx::history::{
    okx_account_bills_from_value, okx_fill_role, okx_fills_from_value,
    okx_position_history_from_value,
};
use crypto_exc_all::okx::leverage::{
    okx_leverage_info_from_value, okx_position_mode_from_config,
};
use crypto_exc_all::okx::orders::{
    okx_algo_order_from_value, okx_order_ack_from_response, order_type, OkxOrderResult,
};
use crypto_exc_all::okx::{instrument_from_okx_symbol, okx_inst_type_for_instrument};
use crypto_exc_all::trade::{OrderSide, PlaceOrderRequest, TimeInForce};

fn to_json(value: serde_json::Value) -> JsonValue {
    match value {
        serde_json::Value::Null => JsonValue::Null,
        serde_json::Value::Bool(b) => JsonValue::Bool(b),
        serde_json::Value::Number(n) => JsonValue::Number(n.to_string()),
        serde_json::Value::String(s) => JsonValue::String(s),
        serde_json::Value::Array(items) => JsonValue::Array(items.into_iter().map(to_json).collect()),
        serde_json::Value::Object(map) => {
            JsonValue::Object(map.into_iter().map(|(k, v)| (k, to_json(v))).collect())
        }
    }
}

fn parse(text: &str) -> JsonValue {
    to_json(serde_json::from_str(text).expect("valid JSON"))
}

fn detail_fixture() -> OkxBalanceDetail {
    OkxBalanceDetail {
        ccy: "USDT".to_owned(),
        eq: "100.5".to_owned(),
        cash_bal: "95".to_owned(),
        avail_eq: "80.25".to_owned(),
        avail_bal: "90".to_owned(),
        frozen_bal: String::new(),
        imr: "20.25".to_owned(),
        raw: JsonValue::Null,
    }
}

fn account_fixture() -> OkxAccountBalance {
    OkxAccountBalance {
        u_time: "1597026383085".to_owned(),
        total_eq: "100.5".to_owned(),
        details: vec![detail_fixture()],
    }
}

#[test]
fn uses_currency_equity_and_available_equity_not_available_balance() {
    let summary = map_margin_summary(vec![account_fixture()], "USDT")
        .expect("USDT currency margin summary");

    assert_eq!(summary.account_equity, "100.5");
    assert_eq!(summary.available_margin, "80.25");
    assert_ne!(summary.available_margin, "90");
    assert_eq!(summary.initial_margin.as_deref(), Some("20.25"));
    assert_eq!(summary.position_initial_margin, None);
    assert_eq!(summary.open_order_initial_margin, None);
    assert_eq!(summary.source_updated_at_ms, 1_597_026_383_085);
}

#[test]
fn margin_summary_needs_one_usdt_detail() {
    let mut account = account_fixture();
    account.details.push(detail_fixture());
    let err = map_margin_summary(vec![account], "USDT").unwrap_err();
    assert!(err.to_text().contains("no unique USDT detail"));
    let mut account = account_fixture();
    account.u_time = "0".to_owned();
    assert!(map_margin_summary(vec![account], "USDT").unwrap_err().to_text().contains("missing uTime"));
    let mut account = account_fixture();
    account.details[0].avail_eq = String::new();
    assert!(map_margin_summary(vec![account], "USDT").unwrap_err().to_text().contains("missing eq or availEq"));
    assert!(map_margin_summary(vec![], "USDT").unwrap_err().to_text().contains("one account summary"));
}

#[test]
fn sourced_balances_prefer_available_balance_and_stamp_account_time() {
    let mut second = detail_fixture();
    second.ccy = "BTC".to_owned();
    second.avail_bal = String::new();
    second.frozen_bal = "0.1".to_owned();
    let mut account = account_fixture();
    account.details.push(second);
    let balances = okx_sourced_balances(&vec![account]).unwrap();
    assert_eq!(balances.len(), 2);
    assert_eq!(balances[0].balance.available, "90");
    assert_eq!(balances[1].balance.available, "80.25");
    assert_eq!(balances[1].balance.frozen.as_deref(), Some("0.1"));
    assert_eq!(balances[1].source_updated_at_ms, 1_597_026_383_085);
    let mut bad = account_fixture();
    bad.u_time = String::new();
    assert!(okx_sourced_balances(&vec![bad]).is_err());
}

#[test]
fn isolated_long_short_leverage_info_keeps_each_position_side() {
    let settings = okx_leverage_info_from_value(
        ExchangeId::Okx,
        Instrument::perp("ETH", "USDT"),
        "ETH-USDT-SWAP".to_owned(),
        "isolated",
        parse(
            r#"[
                {"instId": "ETH-USDT-SWAP", "mgnMode": "isolated", "posSide": "long", "lever": "1"},
                {"instId": "ETH-USDT-SWAP", "mgnMode": "isolated", "posSide": "short", "lever": "2"}
            ]"#,
        ),
    )
    .expect("valid isolated leverage settings");

    assert_eq!(settings.len(), 2);
    assert_eq!(settings[0].position_side.as_deref(), Some("long"));
    assert_eq!(settings[0].leverage, "1");
    assert_eq!(settings[1].position_side.as_deref(), Some("short"));
    assert_eq!(settings[1].leverage, "2");
}

#[test]
fn leverage_info_outside_the_scope_fails() {
    let err = okx_leverage_info_from_value(
        ExchangeId::Okx,
        Instrument::perp("ETH", "USDT"),
        "ETH-USDT-SWAP".to_owned(),
        "cross",
        parse(r#"[{"instId": "ETH-USDT-SWAP", "mgnMode": "isolated", "lever": "1"}]"#),
    )
    .unwrap_err();
    assert!(err.to_text().contains("OKX leverage info scope mismatch"));
    let err = okx_leverage_info_from_value(
        ExchangeId::Okx,
        Instrument::perp("ETH", "USDT"),
        "ETH-USDT-SWAP".to_owned(),
        "cross",
        parse("[]"),
    )
    .unwrap_err();
    assert!(err.to_text().contains("is empty"));
}

#[test]
fn maps_okx_algo_order_detail_to_protective_order() {
    let protective_client_order_id = format!("rq{}", "1".repeat(30));
    let order = okx_algo_order_from_value(
        ExchangeId::Okx,
        Some(Instrument::perp("ETH", "USDT")),
        Some("ETH-USDT-SWAP".to_owned()),
        parse(&format!(
            r#"{{
                "algoId": "2510789768709120",
                "algoClOrdId": "{protective_client_order_id}",
                "instId": "ETH-USDT-SWAP",
                "ordType": "conditional",
                "side": "sell",
                "slTriggerPx": "2200.5",
                "sz": "1",
                "actualSz": "0",
                "state": "live",
                "cTime": "1779023785699",
                "uTime": "1779023785700",
                "reduceOnly": "true",
                "failCode": ""
            }}"#
        )),
    )
    .expect("valid protective order");

    assert_eq!(order.order_id.as_deref(), Some("2510789768709120"));
    assert_eq!(
        order.client_order_id.as_deref(),
        Some(protective_client_order_id.as_str())
    );
    assert_eq!(order.status.as_deref(), Some("live"));
    assert_eq!(order.price.as_deref(), Some("2200.5"));
    assert_eq!(order.size.as_deref(), Some("1"));
    assert_eq!(order.side.as_deref(), Some("sell"));
}

#[test]
fn okx_account_bills_map_only_matching_instrument_items() {
    let bills = okx_account_bills_from_value(
        ExchangeId::Okx,
        Some(Instrument::perp("BTC", "USDT")),
        Some("BTC-USDT-SWAP".to_string()),
        parse(
            r#"[
                {
                    "billId": "bill-1", "instId": "BTC-USDT-SWAP", "ccy": "USDT", "balChg": "9.7",
                    "bal": "8211.49", "fee": "-0.3", "pnl": "10", "type": "2", "subType": "1",
                    "ordId": "order-1", "tradeId": "fill-1", "ts": "1773810600000"
                },
                {"billId": "bill-transfer", "ccy": "USDT", "balChg": "100", "ts": "1773810600000"},
                {"billId": "bill-eth", "instId": "ETH-USDT-SWAP", "ccy": "USDT", "balChg": "1", "ts": "1773810600000"}
            ]"#,
        ),
    )
    .expect("map account bills");

    assert_eq!(bills.len(), 1);
    assert_eq!(bills[0].bill_id.as_deref(), Some("bill-1"));
    assert_eq!(bills[0].exchange_symbol.as_deref(), Some("BTC-USDT-SWAP"));
    assert_eq!(bills[0].balance_change.as_deref(), Some("9.7"));
    assert_eq!(bills[0].fee.as_deref(), Some("-0.3"));
    assert_eq!(bills[0].pnl.as_deref(), Some("10"));
}

#[test]
fn okx_position_history_maps_closed_position_fields() {
    let history = okx_position_history_from_value(
        ExchangeId::Okx,
        Some(Instrument::perp("ASTER", "USDT")),
        Some("ASTER-USDT-SWAP".to_string()),
        parse(
            r#"{
                "posId": "okx-position-1", "instId": "ASTER-USDT-SWAP", "instType": "SWAP",
                "posSide": "long", "direction": "long", "mgnMode": "cross", "lever": "3",
                "openAvgPx": "0.6208", "closeAvgPx": "0.6047", "openMaxPos": "1",
                "closeTotalPos": "1", "realizedPnl": "-0.01", "pnl": "-0.01",
                "pnlRatio": "-0.0817", "fee": "-0.0002", "fundingFee": "0", "liqPenalty": "0",
                "type": "2", "cTime": "1780980141000", "uTime": "1781122152000"
            }"#,
        ),
    )
    .expect("map position history");

    assert_eq!(history.exchange_symbol, "ASTER-USDT-SWAP");
    assert_eq!(history.position_id.as_deref(), Some("okx-position-1"));
    assert_eq!(history.side.as_deref(), Some("long"));
    assert_eq!(history.direction.as_deref(), Some("long"));
    assert_eq!(history.leverage.as_deref(), Some("3"));
    assert_eq!(history.margin_mode.as_deref(), Some("cross"));
    assert_eq!(history.open_avg_price.as_deref(), Some("0.6208"));
    assert_eq!(history.close_avg_price.as_deref(), Some("0.6047"));
    assert_eq!(history.open_max_position.as_deref(), Some("1"));
    assert_eq!(history.close_total_position.as_deref(), Some("1"));
    assert_eq!(history.realized_pnl.as_deref(), Some("-0.01"));
    assert_eq!(history.pnl_ratio.as_deref(), Some("-0.0817"));
    assert_eq!(history.close_type.as_deref(), Some("2"));
    assert_eq!(history.open_time, Some(1_780_980_141_000));
    assert_eq!(history.close_time, Some(1_781_122_152_000));
}

#[test]
fn okx_order_ack_rejects_nonzero_order_s_code() {
    let order = OkxOrderResult {
        ord_id: String::new(),
        cl_ord_id: Some("rq-okx-1".to_string()),
        tag: None,
        ts: "1710000000000".to_string(),
        s_code: "51076".to_string(),
        s_msg: Some("Attached TP/SL parameter error".to_string()),
        raw: JsonValue::Null,
    };

    let error = okx_order_ack_from_response(
        Instrument::perp("ETH", "USDT"),
        "ETH-USDT-SWAP".to_string(),
        order,
    )
    .unwrap_err();

    assert!(matches!(
        &error,
        Error::Api {
            status: Some(200),
            code,
            ..
        } if code == "51076"
    ));
    assert!(error.to_text().contains("51076"));
    assert!(error.to_text().contains("Attached TP/SL parameter error"));
}

#[test]
fn okx_order_ack_accepts_code_zero() {
    let order = OkxOrderResult {
        ord_id: "123".to_string(),
        cl_ord_id: Some(String::new()),
        tag: None,
        ts: "1".to_string(),
        s_code: " 0 ".to_string(),
        s_msg: None,
        raw: JsonValue::Null,
    };
    let ack = okx_order_ack_from_response(Instrument::perp("ETH", "USDT"), "ETH-USDT-SWAP".to_string(), order).unwrap();
    assert_eq!(ack.order_id.as_deref(), Some("123"));
    assert_eq!(ack.client_order_id, None);
    assert_eq!(ack.status.as_deref(), Some(" 0 "));
}

#[test]
fn fills_map_roles_and_fall_back_to_the_hint() {
    let fills = okx_fills_from_value(
        ExchangeId::Okx,
        None,
        Some("BTC-USDT-SWAP".to_string()),
        parse(r#"[{"tradeId": "t1", "fillPx": "1", "fillSz": "2", "execType": "m", "fillTime": "9"}]"#),
        "OKX fills response",
    )
    .unwrap();
    assert_eq!(fills[0].exchange_symbol, "BTC-USDT-SWAP");
    assert_eq!(fills[0].instrument, Instrument::perp("BTC", "USDT"));
    assert_eq!(fills[0].role.as_deref(), Some("maker"));
    assert_eq!(fills[0].timestamp, Some(9));
    assert_eq!(okx_fill_role(Some("Taker".to_string())).as_deref(), Some("taker"));
    assert_eq!(okx_fill_role(Some("Other".to_string())).as_deref(), Some("other"));
    assert_eq!(okx_fill_role(None), None);
}

#[test]
fn account_config_maps_identity_and_permission() {
    let raw = parse(r#"[{"uid": "101", "mainUid": "100", "acctLv": "2", "posMode": "net_mode", "perm": "read_only, trade"}]"#);
    let identity = okx_account_identity_from_config(&raw).unwrap();
    assert_eq!(identity.provider_account_id, "101");
    assert_eq!(identity.parent_account_id.as_deref(), Some("100"));
    assert_eq!(identity.margin_mode, "futures");
    assert_eq!(identity.position_mode, "net_mode");
    assert!(map_account_order_permission(&raw).unwrap().can_create_orders);
    let read_only = parse(r#"{"perm": "read_only,withdraw"}"#);
    assert!(!map_account_order_permission(&read_only).unwrap().can_create_orders);
    let unknown = parse(r#"{"uid": "1", "acctLv": "9", "posMode": "net_mode"}"#);
    assert!(okx_account_identity_from_config(&unknown).unwrap_err().to_text().contains("unknown acctLv"));
    assert_eq!(okx_position_mode_from_config(raw, ExchangeId::Okx).unwrap().as_deref(), Some("net_mode"));
}

#[test]
fn order_types_and_symbols_follow_okx_names() {
    let market = PlaceOrderRequest::market(Instrument::perp("ETH", "USDT"), OrderSide::Buy, "1");
    assert_eq!(order_type(&market), "market");
    assert_eq!(order_type(&market.clone().with_time_in_force(TimeInForce::Ioc)), "ioc");
    let limit = PlaceOrderRequest::limit(Instrument::perp("ETH", "USDT"), OrderSide::Buy, "1", "2")
        .with_time_in_force(TimeInForce::PostOnly);
    assert_eq!(order_type(&limit), "post_only");
    let i = instrument_from_okx_symbol("BTC-USDT-SWAP");
    assert_eq!((i.base.as_str(), i.quote.as_str()), ("BTC", "USDT"));
    let i = instrument_from_okx_symbol("BTC");
    assert_eq!((i.base.as_str(), i.quote.as_str()), ("BTC", "USDT"));
    assert_eq!(okx_inst_type_for_instrument(&Instrument::spot("BTC", "USDT")), "SPOT");
}
