use crypto_exc_all::binance::account::{
    is_zero_decimal_text, map_account_identity, map_account_order_permission,
    map_sourced_balance, BinanceAccountBalance,
};
use crypto_exc_all::binance::bills::{
    binance_account_bills_from_value, binance_bill_source, binance_income_bills_from_value,
    BinanceBillSource,
};
use crypto_exc_all::binance::instrument_from_linear_symbol;
use crypto_exc_all::binance::leverage::from_symbol_config;
use crypto_exc_all::binance::margin::map_margin_summary;
use crypto_exc_all::binance::protective::{
    binance_open_algo_orders_from_value, binance_protective_order_request,
};
use crypto_exc_all::account::AccountBillQuery;
use crypto_exc_all::error::Error;
use crypto_exc_all::exchange::ExchangeId;
use crypto_exc_all::instrument::{Instrument, MarketType};
use crypto_exc_all::json::JsonValue;
use crypto_exc_all::trade::{OrderSide, ProtectiveOrderRequest, ProtectiveOrderWorkingType};

fn to_json(value: serde_json::Value) -> JsonValue {
    match value {
        serde_json::Value::Null => JsonValue::Null,
        serde_json::Value::Bool(b) => JsonValue::Bool(b),
        serde_json::Value::Number(n) => JsonValue::Number(n.to_string()),
        serde_json::Value::String(s) => JsonValue::String(s),
        serde_json::Value::Array(items) => JsonValue::Array(items.into_iter().map(to_json).collect()),
        serde_json::Value::Object(map) => {
            JsonValue::Object(map.into_iter().map(|(k, v)| (k, to_json(v))).collect())
        }
    }
}

fn parse(text: &str) -> JsonValue {
    to_json(serde_json::from_str(text).expect("valid JSON"))
}

fn balance_row(balance: &str, available: &str, update_time: u64) -> BinanceAccountBalance {
    BinanceAccountBalance {
        account_alias: "account-alias".to_owned(),
        asset: "USDT".to_owned(),
        balance: balance.to_owned(),
        cross_wallet_balance: balance.to_owned(),
        cross_un_pnl: "0.00000000".to_owned(),
        available_balance: available.to_owned(),
        max_withdraw_amount: balance.to_owned(),
        margin_available: true,
        update_time,
        raw: JsonValue::Null,
    }
}

#[test]
fn ignores_uninitialized_balance_row_without_synthesizing_source_time() {
    let mut row = balance_row("0.00000000", "42.00000000", 0);
    row.asset = "BNB".to_owned();
    let mapped = map_sourced_balance(row).expect("valid unused asset row");
    assert_eq!(mapped, None);
}

#[test]
fn rejects_wallet_balance_without_provider_update_time() {
    let row = balance_row("1.00000000", "1.00000000", 0);
    let error = map_sourced_balance(row).expect_err("missing source time");
    assert!(matches!(
        error,
        Error::Adapter {
            exchange: ExchangeId::Binance,
            ..
        }
    ));
    assert!(!error.to_text().contains("1.00000000"));
}

#[test]
fn timed_balance_row_keeps_its_provider_time() {
    let row = balance_row("1.5", "1.25", 1_700_000_000_000);
    let mapped = map_sourced_balance(row).expect("valid row").expect("a balance");
    assert_eq!(mapped.source_updated_at_ms, 1_700_000_000_000);
    assert_eq!(mapped.balance.total, "1.5");
    assert_eq!(mapped.balance.available, "1.25");
    assert_eq!(mapped.balance.frozen.as_deref(), Some("0.00000000"));
}

#[test]
fn zero_decimal_text_is_read_strictly() {
    assert!(is_zero_decimal_text("0"));
    assert!(is_zero_decimal_text(" -0.000 "));
    assert!(is_zero_decimal_text("+.0"));
    assert!(!is_zero_decimal_text("."));
    assert!(!is_zero_decimal_text(""));
    assert!(!is_zero_decimal_text("0.0.0"));
    assert!(!is_zero_decimal_text("0.001"));
    assert!(!is_zero_decimal_text("--0"));
}

#[test]
fn flat_symbol_config_maps_to_hedge_long_and_short_settings() {
    let instrument = Instrument::perp("ETH", "USDT");
    let settings = from_symbol_config(
        instrument.clone(),
        parse(r#"[{"symbol": "ETHUSDT", "marginType": "ISOLATED", "leverage": 5}]"#),
    )
    .expect("valid Binance symbol configuration");
    assert_eq!(settings.len(), 2);
    assert_eq!(settings[0].position_side.as_deref(), Some("long"));
    assert_eq!(settings[1].position_side.as_deref(), Some("short"));
    assert!(settings.iter().all(|setting| {
        setting.instrument == instrument
            && setting.exchange_symbol == "ETHUSDT"
            && setting.leverage == "5"
            && setting.margin_mode.as_deref() == Some("isolated")
    }));
}

#[test]
fn crossed_symbol_config_preserves_actual_mode() {
    let settings = from_symbol_config(
        Instrument::perp("ETH", "USDT"),
        parse(r#"[{"symbol": "ETHUSDT", "marginType": "CROSSED", "leverage": "3"}]"#),
    )
    .expect("valid Binance cross configuration");
    assert!(settings
        .iter()
        .all(|setting| setting.margin_mode.as_deref() == Some("cross")));
}

#[test]
fn missing_duplicate_or_mismatched_symbol_config_fails_closed() {
    let instrument = Instrument::perp("ETH", "USDT");
    let valid = r#"{"symbol": "ETHUSDT", "marginType": "ISOLATED", "leverage": 5}"#;
    assert!(from_symbol_config(instrument.clone(), parse("[]")).is_err());
    assert!(from_symbol_config(instrument.clone(), parse(&format!("[{valid}, {valid}]"))).is_err());
    assert!(from_symbol_config(
        instrument,
        parse(r#"[{"symbol": "BTCUSDT", "marginType": "ISOLATED", "leverage": 5}]"#)
    )
    .is_err());
}

#[test]
fn malformed_leverage_or_margin_mode_fails_closed() {
    let instrument = Instrument::perp("ETH", "USDT");
    for raw in [
        r#"[{"symbol": "ETHUSDT", "marginType": "ISOLATED", "leverage": 0}]"#,
        r#"[{"symbol": "ETHUSDT", "marginType": "ISOLATED", "leverage": "2.5"}]"#,
        r#"[{"symbol": "ETHUSDT", "marginType": "UNKNOWN", "leverage": 5}]"#,
        r#"[{"symbol": "ETHUSDT", "leverage": 5}]"#,
    ] {
        assert!(from_symbol_config(instrument.clone(), parse(raw)).is_err());
    }
}

#[test]
fn symbol_config_errors_name_the_failed_check() {
    let instrument = Instrument::perp("ETH", "USDT");
    let err = from_symbol_config(instrument.clone(), parse("{}")).unwrap_err();
    assert!(err.to_text().contains("Binance symbolConfig response is not an array"));
    let err = from_symbol_config(instrument.clone(), parse("[1]")).unwrap_err();
    assert!(err.to_text().contains("Binance symbolConfig item is not an object"));
    let err = from_symbol_config(instrument, parse(r#"[{"symbol": "ETHUSDT", "marginType": "UNKNOWN", "leverage": 5}]"#)).unwrap_err();
    assert!(err.to_text().contains("invalid marginType"));
}

fn account_fixture(multi_assets_margin: bool) -> JsonValue {
    parse(&format!(
        r#"{{
            "multiAssetsMargin": {multi_assets_margin},
            "totalMarginBalance": "126.72469206",
            "availableBalance": "120.00000000",
            "totalInitialMargin": "6.72469206",
            "totalPositionInitialMargin": "5",
            "totalOpenOrderInitialMargin": "1.72469206",
            "assets": [{{"asset": "USDT", "updateTime": 1625474304765}}],
            "positions": [{{"symbol": "ETHUSDT", "updateTime": 1625474304766}}]
        }}"#
    ))
}

#[test]
fn maps_single_asset_usdt_totals_and_latest_provider_time() {
    let summary =
        map_margin_summary(account_fixture(false), "USDT").expect("single-asset USDT summary");
    assert_eq!(summary.account_equity, "126.72469206");
    assert_eq!(summary.available_margin, "120.00000000");
    assert_eq!(summary.initial_margin.as_deref(), Some("6.72469206"));
    assert_eq!(summary.position_initial_margin.as_deref(), Some("5"));
    assert_eq!(
        summary.open_order_initial_margin.as_deref(),
        Some("1.72469206")
    );
    assert_eq!(summary.source_updated_at_ms, 1_625_474_304_766);
}

#[test]
fn rejects_multi_assets_totals_instead_of_labeling_usd_as_usdt() {
    let error = map_margin_summary(account_fixture(true), "USDT")
        .expect_err("multi-assets totals are USD-denominated");
    assert!(error.to_text().contains("USD-denominated"));
}

#[test]
fn margin_summary_refuses_other_quotes_and_missing_times() {
    let err = map_margin_summary(account_fixture(false), "USDC").unwrap_err();
    assert!(err.to_text().contains("only supports USDT"));
    let no_time = parse(
        r#"{"multiAssetsMargin": false, "totalMarginBalance": "1", "availableBalance": "1",
            "totalInitialMargin": "0", "totalPositionInitialMargin": "0",
            "totalOpenOrderInitialMargin": "0", "assets": [], "positions": []}"#,
    );
    let err = map_margin_summary(no_time, "USDT").unwrap_err();
    assert!(err.to_text().contains("no provider updateTime"));
    let missing = parse(r#"{"multiAssetsMargin": false}"#);
    let err = map_margin_summary(missing, "USDT").unwrap_err();
    assert!(err.to_text().contains("missing totalMarginBalance"));
}

fn stop_market() -> ProtectiveOrderRequest {
    ProtectiveOrderRequest::stop_market(Instrument::perp("ETH", "USDT"), OrderSide::Sell, "2200")
}

#[test]
fn maps_protective_stop_market_request_to_binance_algo_order_params() {
    let request = stop_market()
        .with_position_side("LONG")
        .with_close_position(true)
        .with_working_type(ProtectiveOrderWorkingType::MarkPrice)
        .with_price_protect(true)
        .with_client_order_id("sl-rqethopen3");

    let mapped = binance_protective_order_request(&request).expect("valid close-all request");
    let params = mapped.to_params();

    assert_eq!(mapped.order_type, "STOP_MARKET");
    assert!(params.contains(&("algoType", "CONDITIONAL".to_string())));
    assert!(params.contains(&("symbol", "ETHUSDT".to_string())));
    assert!(params.contains(&("side", "SELL".to_string())));
    assert!(params.contains(&("type", "STOP_MARKET".to_string())));
    assert!(params.contains(&("triggerPrice", "2200".to_string())));
    assert!(params.contains(&("positionSide", "LONG".to_string())));
    assert!(!params.iter().any(|(key, _)| *key == "reduceOnly"));
    assert!(params.contains(&("closePosition", "true".to_string())));
    assert!(params.contains(&("workingType", "MARK_PRICE".to_string())));
    assert!(params.contains(&("priceProtect", "true".to_string())));
    assert!(params.contains(&("clientAlgoId", "sl-rqethopen3".to_string())));
}

#[test]
fn maps_fixed_size_protective_stop_market_request_to_binance_algo_order_params() {
    let request = stop_market()
        .with_position_side("LONG")
        .with_quantity("0.012")
        .with_working_type(ProtectiveOrderWorkingType::MarkPrice)
        .with_price_protect(true)
        .with_client_order_id("sl-rqethopen3");

    let params = binance_protective_order_request(&request)
        .expect("valid fixed-size request")
        .to_params();

    assert!(params.contains(&("quantity", "0.012".to_string())));
    assert!(!params.iter().any(|(key, _)| *key == "reduceOnly"));
    assert!(!params.iter().any(|(key, _)| *key == "closePosition"));
}

#[test]
fn maps_one_way_fixed_size_protection_with_reduce_only() {
    let request = stop_market()
        .with_position_side("BOTH")
        .with_quantity("0.012")
        .with_reduce_only(true)
        .with_working_type(ProtectiveOrderWorkingType::MarkPrice)
        .with_price_protect(true)
        .with_client_order_id("sl-rqethopen4");

    let params = binance_protective_order_request(&request)
        .expect("valid one-way fixed-size request")
        .to_params();

    assert!(params.contains(&("positionSide", "BOTH".to_string())));
    assert!(params.contains(&("quantity", "0.012".to_string())));
    assert!(params.contains(&("reduceOnly", "true".to_string())));
    assert!(!params.iter().any(|(key, _)| *key == "closePosition"));
}

#[test]
fn protective_request_checks_fail_in_order() {
    let bad_side = stop_market().with_position_side("SIDEWAYS").with_quantity("1");
    assert!(binance_protective_order_request(&bad_side).unwrap_err().to_text().contains("must be BOTH, LONG, or SHORT"));
    let both = stop_market().with_quantity("1").with_close_position(true);
    assert!(binance_protective_order_request(&both).unwrap_err().to_text().contains("mutually exclusive"));
    let neither = stop_market();
    assert!(binance_protective_order_request(&neither).unwrap_err().to_text().contains("exactly one of quantity"));
    let close_reduce = stop_market().with_close_position(true).with_reduce_only(true);
    assert!(binance_protective_order_request(&close_reduce).unwrap_err().to_text().contains("close-all STOP_MARKET protective order rejects"));
    let hedge_reduce = stop_market().with_position_side("short").with_quantity("1").with_reduce_only(true);
    assert!(binance_protective_order_request(&hedge_reduce).unwrap_err().to_text().contains("Hedge Mode STOP_MARKET protective order rejects"));
    let wrong_side = stop_market().with_position_side("short").with_quantity("1");
    assert!(binance_protective_order_request(&wrong_side).unwrap_err().to_text().contains("fixed-size STOP_MARKET side cannot close"));
    let one_way = stop_market().with_quantity("1");
    assert!(binance_protective_order_request(&one_way).unwrap_err().to_text().contains("requires reduceOnly=true"));
    let lower = stop_market().with_position_side("long").with_quantity("1");
    let params = binance_protective_order_request(&lower).unwrap().to_params();
    assert!(params.contains(&("positionSide", "LONG".to_string())));
}

fn open_algo_order(order_type: &str) -> String {
    format!(
        r#"{{
            "algoId": 2000000953242572,
            "clientAlgoId": "sl-rqethopen3",
            "algoStatus": "NEW",
            "orderType": "{order_type}",
            "symbol": "ETHUSDT",
            "side": "SELL",
            "positionSide": "LONG",
            "triggerPrice": "2200",
            "quantity": "0",
            "closePosition": true,
            "createTime": 1779023785699,
            "updateTime": 1779023785699
        }}"#
    )
}

#[test]
fn maps_every_open_algo_order_without_filtering_unknown_activity() {
    let orders = binance_open_algo_orders_from_value(parse(&format!(
        "[{}, {}]",
        open_algo_order("STOP_MARKET"),
        open_algo_order("PROVIDER_FUTURE_ALGO_TYPE")
    )))
    .expect("all well-formed open algo orders");

    assert_eq!(orders.len(), 2);
    assert_eq!(orders[0].order_id.as_deref(), Some("2000000953242572"));
    assert_eq!(orders[0].client_order_id.as_deref(), Some("sl-rqethopen3"));
    assert_eq!(orders[0].status.as_deref(), Some("NEW"));
    assert_eq!(orders[0].price.as_deref(), Some("2200"));
    assert_eq!(orders[0].size.as_deref(), Some("0"));
    assert_eq!(orders[0].created_at, Some(1_779_023_785_699));
    assert_eq!(
        orders[1].order_type.as_deref(),
        Some("PROVIDER_FUTURE_ALGO_TYPE")
    );
    assert_eq!(orders[0].instrument, Instrument::perp("ETH", "USDT"));
}

#[test]
fn rejects_any_missing_required_open_algo_order_field() {
    for field in [
        "algoId",
        "clientAlgoId",
        "algoStatus",
        "orderType",
        "symbol",
        "side",
        "positionSide",
        "triggerPrice",
        "quantity",
        "closePosition",
        "createTime",
        "updateTime",
    ] {
        let mut value: serde_json::Value =
            serde_json::from_str(&open_algo_order("STOP_MARKET")).expect("fixture");
        value.as_object_mut().expect("object").remove(field);
        let raw = to_json(serde_json::Value::Array(vec![value]));

        let error = binance_open_algo_orders_from_value(raw)
            .expect_err("missing provider field must fail closed");

        assert!(error.to_text().contains(field), "field={field}");
    }
}

#[test]
fn linear_symbols_split_on_the_first_known_quote() {
    let i = instrument_from_linear_symbol("BTCUSDT");
    assert_eq!((i.base.as_str(), i.quote.as_str()), ("BTC", "USDT"));
    let i = instrument_from_linear_symbol("ETHUSDC");
    assert_eq!((i.base.as_str(), i.quote.as_str()), ("ETH", "USDC"));
    let i = instrument_from_linear_symbol("btcusd");
    assert_eq!((i.base.as_str(), i.quote.as_str()), ("BTCUSD", "USDT"));
    let i = instrument_from_linear_symbol("SOLBUSD");
    assert_eq!((i.base.as_str(), i.quote.as_str()), ("SOL", "BUSD"));
    let i = instrument_from_linear_symbol("XRPUSD");
    assert_eq!((i.base.as_str(), i.quote.as_str()), ("XRP", "USD"));
    assert_eq!(i.market_type, MarketType::Perpetual);
}

#[test]
fn account_config_maps_permission_and_identity() {
    let raw = parse(r#"{"canTrade": true, "multiAssetsMargin": false, "dualSidePosition": true}"#);
    let permission = map_account_order_permission(&raw).unwrap();
    assert!(permission.can_create_orders);
    assert_eq!(permission.source_revision, "binance-usdm-account-config-v1");
    let identity = map_account_identity("42".to_string(), &raw).unwrap();
    assert_eq!(identity.margin_mode, "single_asset");
    assert_eq!(identity.position_mode, "hedge");
    assert_eq!(identity.parent_account_id, None);
    let missing = parse(r#"{"multiAssetsMargin": true}"#);
    assert!(map_account_identity("42".to_string(), &missing).unwrap_err().to_text().contains("dualSidePosition"));
    assert!(map_account_order_permission(&missing).unwrap_err().to_text().contains("canTrade"));
}

#[test]
fn income_bills_keep_only_the_asked_asset_and_symbol() {
    let query = AccountBillQuery::for_instrument(Instrument::perp("BTC", "USDT")).with_asset("USDT");
    let raw = parse(
        r#"[
            {"symbol": "BTCUSDT", "asset": "USDT", "income": "-0.1", "incomeType": "FUNDING_FEE", "tranId": 7, "time": 1700000000000},
            {"symbol": "ETHUSDT", "asset": "USDT", "income": "1"},
            {"symbol": "BTCUSDT", "asset": "BNB", "income": "2"}
        ]"#,
    );
    let bills = binance_income_bills_from_value(raw, &query).unwrap();
    assert_eq!(bills.len(), 1);
    assert_eq!(bills[0].bill_id.as_deref(), Some("7"));
    assert_eq!(bills[0].balance_change.as_deref(), Some("-0.1"));
    assert_eq!(bills[0].bill_type.as_deref(), Some("FUNDING_FEE"));
    assert_eq!(bills[0].timestamp, Some(1_700_000_000_000));
    assert!(binance_income_bills_from_value(parse("[1]"), &AccountBillQuery::new()).is_err());
}

#[test]
fn asset_bills_read_rows_and_fall_back_to_the_history_type() {
    let raw = parse(r#"{"rows": [{"tranId": 5, "asset": "USDT", "amount": "3", "timestamp": 11}]}"#);
    let bills = binance_account_bills_from_value(raw, "MAIN_UMFUTURE", &["tranId", "id"]).unwrap();
    assert_eq!(bills.len(), 1);
    assert_eq!(bills[0].bill_id.as_deref(), Some("5"));
    assert_eq!(bills[0].bill_type.as_deref(), Some("MAIN_UMFUTURE"));
    assert_eq!(bills[0].timestamp, Some(11));
    let err = binance_account_bills_from_value(parse(r#"{"total": 0}"#), "deposit", &["id"]).unwrap_err();
    assert!(err.to_text().contains("Binance account bills response does not contain rows"));
}

#[test]
fn bill_queries_choose_their_history() {
    assert_eq!(binance_bill_source(&AccountBillQuery::new()).unwrap(), BinanceBillSource::DepositsAndWithdrawals);
    assert_eq!(
        binance_bill_source(&AccountBillQuery::new().with_bill_type(" Funding_Fee ")).unwrap(),
        BinanceBillSource::Income(Some("FUNDING_FEE"))
    );
    assert_eq!(
        binance_bill_source(&AccountBillQuery::new().with_bill_type("MAIN_UMFUTURE")).unwrap(),
        BinanceBillSource::Transfers("MAIN_UMFUTURE".to_string())
    );
    let err = binance_bill_source(&AccountBillQuery::new().with_bill_type("transfer")).unwrap_err();
    assert!(matches!(err, Error::Unsupported { capability: "account bills transfer type", .. }));
    let err = binance_bill_source(&AccountBillQuery::new().with_bill_type("income").with_archive(true)).unwrap_err();
    assert!(matches!(err, Error::Unsupported { capability: "futures income history filters", .. }));
    let err = binance_bill_source(&AccountBillQuery::for_instrument(Instrument::perp("BTC", "USDT"))).unwrap_err();
    assert!(matches!(err, Error::Unsupported { capability: "account bills filters", .. }));
}
