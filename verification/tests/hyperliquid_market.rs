use crypto_exc_all::account::{AccountBill, AccountBillQuery};
use crypto_exc_all::error::Error;
use crypto_exc_all::exchange::ExchangeId;
use crypto_exc_all::hyperliquid::bills::{
    hyperliquid_bill_from_value, hyperliquid_bill_plan, hyperliquid_bills_from_value,
    hyperliquid_ordered_bills, HyperliquidLedgers,
};
use crypto_exc_all::hyperliquid::market::{
    asset_context_from_response, hyperliquid_balances_from_states, hyperliquid_candle_window,
    hyperliquid_candles_from_value, hyperliquid_funding_history_from_value,
    hyperliquid_funding_rate_from_context, hyperliquid_funding_start, hyperliquid_mark_price_from_context,
    hyperliquid_open_interest_from_context, hyperliquid_orderbook_from_value,
    hyperliquid_perp_tickers_from_value, hyperliquid_spot_tickers_from_value, predicted_funding_for_coin,
    ticker_from_context, universe_and_contexts_with_label,
};
use crypto_exc_all::hyperliquid::orders::{
    hyperliquid_order_from_history_item, hyperliquid_order_from_status_response,
    hyperliquid_order_from_value, hyperliquid_order_sizes,
};
use crypto_exc_all::hyperliquid::spot::{
    hyperliquid_direct_coin, hyperliquid_instrument_for_coin, spot_instrument_from_exchange_symbol,
    spot_market_data_coin_from_meta,
};
use crypto_exc_all::instrument::Instrument;
use crypto_exc_all::json::JsonValue;
use crypto_exc_all::market::{CandleQuery, FundingRateQuery};

fn to_json(value: serde_json::Value) -> JsonValue {
    match value {
        serde_json::Value::Null => JsonValue::Null,
        serde_json::Value::Bool(b) => JsonValue::Bool(b),
        serde_json::Value::Number(n) => JsonValue::Number(n.to_string()),
        serde_json::Value::String(s) => JsonValue::String(s),
        serde_json::Value::Array(items) => JsonValue::Array(items.into_iter().map(to_json).collect()),
        serde_json::Value::Object(map) => {
            JsonValue::Object(map.into_iter().map(|(k, v)| (k, to_json(v))).collect())
        }
    }
}

fn parse(text: &str) -> JsonValue {
    to_json(serde_json::from_str(text).expect("valid JSON"))
}

fn meta_and_contexts() -> JsonValue {
    parse(
        r#"[
            {"universe": [{"name": "BTC"}, {"name": "ETH"}, {"szDecimals": 2}]},
            [{"midPx": "60000", "markPx": "60010", "oraclePx": "59990", "dayNtlVlm": "123", "funding": "0.0001", "openInterest": "42"},
             {"markPx": "3000", "prevDayPx": "2900"},
             {"midPx": "1"}]
        ]"#,
    )
}

#[test]
fn universe_and_contexts_report_each_missing_part() {
    let raw = meta_and_contexts();
    let (universe, contexts) = universe_and_contexts_with_label(&raw, ExchangeId::Hyperliquid, "X").unwrap();
    assert_eq!(universe.len(), 3);
    assert_eq!(contexts.len(), 3);
    let err = universe_and_contexts_with_label(&parse("{}"), ExchangeId::Hyperliquid, "X").unwrap_err();
    assert_eq!(err.to_text(), "交易所适配器错误: hyperliquid: X response is not an array");
    let err = universe_and_contexts_with_label(&parse("[]"), ExchangeId::Hyperliquid, "X").unwrap_err();
    assert!(err.to_text().ends_with("X missing meta"));
    let err = universe_and_contexts_with_label(&parse("[{}]"), ExchangeId::Hyperliquid, "X").unwrap_err();
    assert!(err.to_text().ends_with("X missing universe"));
    let err = universe_and_contexts_with_label(&parse(r#"[{"universe": []}]"#), ExchangeId::Hyperliquid, "X").unwrap_err();
    assert!(err.to_text().ends_with("X missing contexts"));
}

#[test]
fn asset_context_is_found_by_name() {
    let raw = meta_and_contexts();
    let (meta, ctx) = asset_context_from_response(&raw, ExchangeId::Hyperliquid, "ETH", "L").unwrap();
    assert_eq!(meta, parse(r#"{"name": "ETH"}"#));
    assert_eq!(ctx, parse(r#"{"markPx": "3000", "prevDayPx": "2900"}"#));
    let err = asset_context_from_response(&raw, ExchangeId::Hyperliquid, "SOL", "L").unwrap_err();
    assert!(err.to_text().ends_with("L asset not found: SOL"));
    let short = parse(r#"[{"universe": [{"name": "BTC"}]}, []]"#);
    let err = asset_context_from_response(&short, ExchangeId::Hyperliquid, "BTC", "L").unwrap_err();
    assert!(err.to_text().ends_with("L context missing asset: BTC"));
}

#[test]
fn tickers_take_mid_then_mark_then_oracle_price() {
    let ctx = parse(r#"{"markPx": "3000", "oraclePx": "2999", "dayNtlVlm": "9"}"#);
    let t = ticker_from_context(ExchangeId::Hyperliquid, Instrument::perp("ETH", "USDC"), "ETH".to_string(), ctx).unwrap();
    assert_eq!(t.last_price, "3000");
    assert_eq!(t.volume_24h.as_deref(), Some("9"));
    let err = ticker_from_context(ExchangeId::Hyperliquid, Instrument::perp("ETH", "USDC"), "ETH".to_string(), parse("[]")).unwrap_err();
    assert!(err.to_text().ends_with("Hyperliquid asset context is not an object"));
    let tickers = hyperliquid_perp_tickers_from_value(meta_and_contexts()).unwrap();
    assert_eq!(tickers.len(), 2);
    assert_eq!(tickers[0].last_price, "60000");
    assert_eq!(tickers[0].instrument, Instrument::perp("BTC", "USDC"));
    assert_eq!(tickers[1].exchange_symbol, "ETH");
    assert_eq!(tickers[1].last_price, "3000");
    let bad = parse(r#"[{"universe": [1]}, [{}]]"#);
    let err = hyperliquid_perp_tickers_from_value(bad).unwrap_err();
    assert!(err.to_text().ends_with("Hyperliquid universe item is not an object"));
}

#[test]
fn spot_tickers_use_token_pairs_and_symbols() {
    let raw = parse(
        r#"[
            {"tokens": [{"index": 0, "name": "USDC"}, {"index": 1, "name": "PURR"}, {"index": 2, "name": "HYPE"}],
             "universe": [{"name": "PURR/USDC", "tokens": [1, 0], "index": 0}, {"name": "@107", "tokens": [2, 0], "index": 107}, {"name": "x"}]},
            [{"midPx": "0.2"}, {"markPx": "30"}]
        ]"#,
    );
    let tickers = hyperliquid_spot_tickers_from_value(raw).unwrap();
    assert_eq!(tickers.len(), 2);
    assert_eq!(tickers[0].exchange_symbol, "PURR/USDC");
    assert_eq!(tickers[0].instrument, Instrument::spot("PURR", "USDC"));
    assert_eq!(tickers[1].exchange_symbol, "@107");
    assert_eq!(tickers[1].instrument, Instrument::spot("HYPE", "USDC"));
    assert_eq!(tickers[1].last_price, "30");
    let err = hyperliquid_spot_tickers_from_value(parse(r#"[{"universe": []}, []]"#)).unwrap_err();
    assert!(err.to_text().ends_with("Hyperliquid spotMetaAndAssetCtxs missing tokens"));
}

#[test]
fn orderbook_sides_are_cut_to_the_limit() {
    let raw = parse(
        r#"{"coin": "BTC", "time": 7, "levels": [[{"px": "1", "sz": "2"}, {"px": "0.9", "sz": "3"}], [{"px": "1.1", "sz": "4"}]]}"#,
    );
    let book = hyperliquid_orderbook_from_value(raw.clone(), Instrument::perp("BTC", "USDC"), "BTC".to_string(), Some(1)).unwrap();
    assert_eq!(book.bids.len(), 1);
    assert_eq!(book.bids[0].price, "1");
    assert_eq!(book.bids[0].size, "2");
    assert_eq!(book.asks[0].price, "1.1");
    assert_eq!(book.timestamp, Some(7));
    let full = hyperliquid_orderbook_from_value(raw, Instrument::perp("BTC", "USDC"), "BTC".to_string(), None).unwrap();
    assert_eq!(full.bids.len(), 2);
    let err = hyperliquid_orderbook_from_value(parse("{}"), Instrument::perp("BTC", "USDC"), "BTC".to_string(), None).unwrap_err();
    assert!(err.to_text().ends_with("Hyperliquid l2Book response missing levels"));
    let err = hyperliquid_orderbook_from_value(parse(r#"{"levels": [[1]]}"#), Instrument::perp("BTC", "USDC"), "BTC".to_string(), None).unwrap_err();
    assert!(err.to_text().ends_with("Hyperliquid orderbook level is not an object"));
}

#[test]
fn candles_need_a_window_and_respect_the_limit() {
    let instrument = Instrument::perp("BTC", "USDC");
    let query = CandleQuery::new(instrument.clone(), "1m");
    assert!(hyperliquid_candle_window(&query).unwrap_err().to_text().ends_with("requires start_time"));
    let query = query.with_start_time(10);
    assert!(hyperliquid_candle_window(&query).unwrap_err().to_text().ends_with("requires end_time"));
    assert_eq!(hyperliquid_candle_window(&query.with_end_time(20)).unwrap(), (10, 20));
    let raw = parse(
        r#"[{"s": "BTC", "t": 1, "T": 2, "o": "1", "h": "3", "l": "0.5", "c": "2", "v": "10"}, {"s": "BTC", "t": 3}]"#,
    );
    let candles = hyperliquid_candles_from_value(&raw, &instrument, Some(1)).unwrap();
    assert_eq!(candles.len(), 1);
    assert_eq!(candles[0].open_time, Some(1));
    assert_eq!(candles[0].close_time, Some(2));
    assert_eq!(candles[0].high, "3");
    assert_eq!(hyperliquid_candles_from_value(&raw, &instrument, None).unwrap().len(), 2);
    let err = hyperliquid_candles_from_value(&parse("[1]"), &instrument, None).unwrap_err();
    assert!(err.to_text().ends_with("Hyperliquid candle item is not an object"));
}

#[test]
fn funding_rates_read_contexts_and_predictions() {
    let predicted = parse(
        r#"[["BTC", [["BinPerp", {"fundingRate": "0.2"}], ["HlPerp", {"fundingRate": "0.0001", "nextFundingTime": 1700}]]], ["ETH", []]]"#,
    );
    let (rate, time) = predicted_funding_for_coin(&predicted, ExchangeId::Hyperliquid, "BTC").unwrap();
    assert_eq!(rate.as_deref(), Some("0.0001"));
    assert_eq!(time, Some(1700));
    assert_eq!(predicted_funding_for_coin(&predicted, ExchangeId::Hyperliquid, "ETH").unwrap(), (None, None));
    assert_eq!(predicted_funding_for_coin(&predicted, ExchangeId::Hyperliquid, "SOL").unwrap(), (None, None));
    let err = predicted_funding_for_coin(&parse(r#"[["BTC"]]"#), ExchangeId::Hyperliquid, "BTC").unwrap_err();
    assert!(err.to_text().ends_with("Hyperliquid predictedFundings missing venues for BTC"));
    let err = predicted_funding_for_coin(&parse("[1]"), ExchangeId::Hyperliquid, "BTC").unwrap_err();
    assert!(err.to_text().ends_with("Hyperliquid predictedFundings item is not an array"));
    let ctx = parse(r#"{"funding": "0.00005", "markPx": "60010", "oraclePx": "59990", "openInterest": "42"}"#);
    let instrument = Instrument::perp("BTC", "USDC");
    let f = hyperliquid_funding_rate_from_context(instrument.clone(), "BTC".to_string(), ctx.clone(), (rate, time)).unwrap();
    assert_eq!(f.funding_rate, "0.00005");
    assert_eq!(f.next_funding_rate.as_deref(), Some("0.0001"));
    assert_eq!(f.next_funding_time, Some(1700));
    assert_eq!(f.mark_price.as_deref(), Some("60010"));
    let m = hyperliquid_mark_price_from_context(instrument.clone(), "BTC".to_string(), ctx.clone()).unwrap();
    assert_eq!(m.mark_price, "60010");
    assert_eq!(m.index_price.as_deref(), Some("59990"));
    let o = hyperliquid_open_interest_from_context(instrument.clone(), "BTC".to_string(), ctx).unwrap();
    assert_eq!(o.open_interest, "42");
    let query = FundingRateQuery::new(instrument.clone());
    assert!(hyperliquid_funding_start(&query).unwrap_err().to_text().ends_with("Hyperliquid fundingHistory requires start_time"));
    assert_eq!(hyperliquid_funding_start(&query.with_start_time(5)).unwrap(), 5);
    let history = parse(r#"[{"coin": "BTC", "fundingRate": "0.1", "time": 5}, {"fundingRate": "0.2"}]"#);
    let rates = hyperliquid_funding_history_from_value(&history, &instrument, "BTC", None).unwrap();
    assert_eq!(rates.len(), 2);
    assert_eq!(rates[0].funding_time, Some(5));
    assert_eq!(rates[1].exchange_symbol, "BTC");
    assert_eq!(rates[1].funding_rate, "0.2");
}

#[test]
fn balances_put_margin_first_then_spot_coins() {
    let state = parse(r#"{"marginSummary": {"accountValue": "100", "totalMarginUsed": "10"}, "withdrawable": "90"}"#);
    let spot = parse(r#"{"balances": [{"coin": "HYPE", "total": "5", "hold": "1"}]}"#);
    let balances = hyperliquid_balances_from_states(state, &spot).unwrap();
    assert_eq!(balances.len(), 2);
    assert_eq!(balances[0].asset, "USDC");
    assert_eq!(balances[0].total, "100");
    assert_eq!(balances[0].available, "90");
    assert_eq!(balances[0].frozen.as_deref(), Some("10"));
    assert_eq!(balances[1].asset, "HYPE");
    assert_eq!(balances[1].available, "5");
    assert_eq!(balances[1].frozen.as_deref(), Some("1"));
    let err = hyperliquid_balances_from_states(parse("{}"), &spot).unwrap_err();
    assert!(err.to_text().ends_with("Hyperliquid clearinghouseState missing marginSummary"));
    let state = parse(r#"{"marginSummary": {}}"#);
    let err = hyperliquid_balances_from_states(state, &parse("{}")).unwrap_err();
    assert!(err.to_text().ends_with("Hyperliquid spotClearinghouseState missing balances"));
}

#[test]
fn spot_symbols_resolve_through_spot_meta() {
    let meta = parse(
        r#"{"tokens": [{"index": 0, "name": "USDC"}, {"index": 2, "name": "HYPE"}],
            "universe": [{"name": "@107", "tokens": [2, 0], "index": 107}]}"#,
    );
    assert_eq!(spot_instrument_from_exchange_symbol(&meta, "@107").unwrap(), Instrument::spot("HYPE", "USDC"));
    let err = spot_instrument_from_exchange_symbol(&meta, "@1").unwrap_err();
    assert!(err.to_text().ends_with("Hyperliquid spot asset not found: @1"));
    let hype = Instrument::spot("HYPE", "USDC");
    assert_eq!(spot_market_data_coin_from_meta(&meta, &hype, "HYPE/USDC").unwrap(), "@107");
    let err = spot_market_data_coin_from_meta(&meta, &Instrument::spot("X", "USDC"), "X/USDC").unwrap_err();
    assert!(err.to_text().ends_with("Hyperliquid spot asset not found: X/USDC"));
    let err = spot_market_data_coin_from_meta(&parse("[]"), &hype, "HYPE/USDC").unwrap_err();
    assert!(err.to_text().ends_with("Hyperliquid spotMeta response is not an object"));
    assert_eq!(hyperliquid_direct_coin(&Instrument::perp("BTC", "USDC")).as_deref(), Some("BTC"));
    assert_eq!(hyperliquid_direct_coin(&Instrument::spot("PURR", "USDC")).as_deref(), Some("PURR/USDC"));
    assert_eq!(hyperliquid_direct_coin(&hype), None);
    assert_eq!(hyperliquid_instrument_for_coin(None, "PURR/USDC"), Some(Instrument::spot("PURR", "USDC")));
    assert_eq!(hyperliquid_instrument_for_coin(None, "ETH"), Some(Instrument::perp("ETH", "USDC")));
    assert_eq!(hyperliquid_instrument_for_coin(None, "@107"), None);
    assert_eq!(hyperliquid_instrument_for_coin(Some(hype.clone()), "@107"), Some(hype));
}

#[test]
fn orders_take_status_and_filled_size_from_their_caller() {
    let item = parse(r#"{"coin": "BTC", "oid": 9, "side": "B", "limitPx": "50000", "origSz": "2", "sz": "0.5", "timestamp": 1, "tif": "Gtc"}"#);
    let (original, resting) = hyperliquid_order_sizes(&item);
    assert_eq!(original.as_deref(), Some("2"));
    assert_eq!(resting.as_deref(), Some("0.5"));
    let order = hyperliquid_order_from_value(ExchangeId::Hyperliquid, None, Some("open".to_string()), Some("1.5".to_string()), item).unwrap();
    assert_eq!(order.side.as_deref(), Some("buy"));
    assert_eq!(order.size.as_deref(), Some("2"));
    assert_eq!(order.filled_size.as_deref(), Some("1.5"));
    assert_eq!(order.order_type.as_deref(), Some("Gtc"));
    assert_eq!(order.instrument, Instrument::perp("BTC", "USDC"));
    let status = parse(r#"{"status": "order", "order": {"coin": "ETH", "oid": 1, "side": "A"}}"#);
    let o = hyperliquid_order_from_status_response(ExchangeId::Hyperliquid, Instrument::perp("ETH", "USDC"), &status, None).unwrap();
    assert_eq!(o.status.as_deref(), Some("order"));
    assert_eq!(o.side.as_deref(), Some("sell"));
    let err = hyperliquid_order_from_status_response(ExchangeId::Hyperliquid, Instrument::perp("ETH", "USDC"), &parse("{}"), None).unwrap_err();
    assert!(err.to_text().ends_with("Hyperliquid orderStatus response missing order"));
    let history = parse(r#"{"status": "filled", "statusTimestamp": 99, "order": {"coin": "ETH", "timestamp": 5, "statusTimestamp": 6}}"#);
    let h = hyperliquid_order_from_history_item(ExchangeId::Hyperliquid, None, &history, None).unwrap();
    assert_eq!(h.updated_at, Some(99));
    assert_eq!(h.created_at, Some(5));
    assert_eq!(h.raw, history);
}

fn bill(time: Option<u64>, id: &str) -> AccountBill {
    AccountBill {
        exchange: ExchangeId::Hyperliquid,
        instrument: None,
        exchange_symbol: None,
        bill_id: Some(id.to_string()),
        asset: None,
        balance_change: None,
        balance_after: None,
        fee: None,
        pnl: None,
        bill_type: None,
        bill_sub_type: None,
        order_id: None,
        trade_id: None,
        timestamp: time,
        raw: JsonValue::Null,
    }
}

#[test]
fn ledger_bills_come_in_time_order_and_stay_stable() {
    let bills = vec![bill(Some(5), "a"), bill(None, "b"), bill(Some(1), "c"), bill(Some(5), "d"), bill(Some(3), "e")];
    let ordered = hyperliquid_ordered_bills(bills.clone(), None);
    let ids: Vec<_> = ordered.iter().map(|b| b.bill_id.clone().unwrap()).collect();
    assert_eq!(ids, vec!["c", "e", "a", "d", "b"]);
    let cut = hyperliquid_ordered_bills(bills, Some(2));
    let ids: Vec<_> = cut.iter().map(|b| b.bill_id.clone().unwrap()).collect();
    assert_eq!(ids, vec!["c", "e"]);
}

#[test]
fn ledger_entries_read_their_delta() {
    let raw = parse(r#"{"time": 7, "hash": "0x1", "delta": {"type": "funding", "coin": "BTC", "usdc": "-0.5"}}"#);
    let b = hyperliquid_bill_from_value(ExchangeId::Hyperliquid, &raw).unwrap();
    assert_eq!(b.bill_type.as_deref(), Some("funding"));
    assert_eq!(b.balance_change.as_deref(), Some("-0.5"));
    assert_eq!(b.instrument, Some(Instrument::perp("BTC", "USDC")));
    assert_eq!(b.asset.as_deref(), Some("USDC"));
    assert_eq!(b.timestamp, Some(7));
    let all = hyperliquid_bills_from_value(&parse(r#"[{"time": 1}]"#), "L").unwrap();
    assert_eq!(all.len(), 1);
    let err = hyperliquid_bills_from_value(&parse("{}"), "Hyperliquid userFunding response").unwrap_err();
    assert!(err.to_text().ends_with("Hyperliquid userFunding response is not an array"));
}

#[test]
fn bill_queries_need_a_start_and_a_user() {
    let query = AccountBillQuery::new();
    let err = hyperliquid_bill_plan(&query, Some("0xabc")).unwrap_err();
    assert!(err.to_text().ends_with("Hyperliquid account bills require start_time"));
    let query = query.with_start_time(10);
    match hyperliquid_bill_plan(&query, None).unwrap_err() {
        Error::Config(m) => assert_eq!(m, "HYPERLIQUID_USER_ADDRESS is required for Hyperliquid account bills"),
        other => panic!("unexpected {other:?}"),
    }
    let (start, user, ledgers) = hyperliquid_bill_plan(&query, Some("0xabc")).unwrap();
    assert_eq!((start, user.as_str(), ledgers), (10, "0xabc", HyperliquidLedgers::Both));
    let funding = query.clone().with_bill_type(" Funding ");
    assert_eq!(hyperliquid_bill_plan(&funding, Some("u")).unwrap().2, HyperliquidLedgers::Funding);
    let ledger = query.clone().with_bill_type("ledger");
    assert_eq!(hyperliquid_bill_plan(&ledger, Some("u")).unwrap().2, HyperliquidLedgers::NonFunding);
    let other = query.with_bill_type("trade");
    assert!(matches!(hyperliquid_bill_plan(&other, Some("u")), Err(Error::Unsupported { .. })));
}
