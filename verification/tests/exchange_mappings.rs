use crypto_exc_all::account::{AccountBillQuery, MaxOrderSizeRequest, PositionMode, SetLeverageRequest, SetPositionModeRequest};
use crypto_exc_all::binance::market::{
    binance_candles_from_value, binance_funding_rate_from_response, binance_long_short_ratios_from_value,
    binance_orderbook_from_value, binance_ticker_from_value,
};
use crypto_exc_all::binance::trade::{
    binance_announcement_events, binance_cancel_request, binance_fill_request, binance_fills_from_value,
    binance_leverage_value, binance_order_history_request, binance_orders_from_value,
    binance_place_order_request, binance_position_mode_setting, binance_positions_from_value,
    ensure_binance_announcements_query, parse_u64_filter,
};
use crypto_exc_all::bitget::market::{bitget_funding_rate_from_response, bitget_funding_rates_from_value};
use crypto_exc_all::bitget::orders::{
    bitget_candles_from_value, bitget_fills_from_value, bitget_leverage_setting_from_value,
    bitget_orderbook_from_value, bitget_orders_from_value, bitget_position_mode_setting_from_value,
    order_ack_from_value,
};
use crypto_exc_all::bitget::requests::{
    announcement_events, bitget_account_bill_request, bitget_account_bills_from_value,
    bitget_balance_from_account, bitget_cancel_order_request, bitget_order_query_request,
    bitget_ticker_from_answer, BitgetAccount, BitgetTicker,
};
use crypto_exc_all::bybit::account::{bybit_bill_kind, bybit_deposit_bills, bybit_platform_events, BybitAccountBillKind};
use crypto_exc_all::bybit::stats::{bybit_long_short_ratios_from_value, bybit_open_interest_from_value};
use crypto_exc_all::bybit::trade::{bybit_place_order_request, bybit_positions_from_value};
use crypto_exc_all::bybit::{bybit_candle_interval, bybit_candles_from_value, bybit_orderbook_from_value, bybit_stats_period, bybit_ticker_from_value};
use crypto_exc_all::error::Error;
use crypto_exc_all::exchange::ExchangeId;
use crypto_exc_all::gate::{
    gate_account_book_request, gate_bills_from_value, gate_candles_from_value, gate_funding_rate_from_item,
    gate_instrument_from_symbol, gate_place_order_request, gate_tickers_from_value, seconds_to_millis,
    signed_gate_size,
};
use crypto_exc_all::instrument::Instrument;
use crypto_exc_all::json::JsonValue;
use crypto_exc_all::margin::MarginMode;
use crypto_exc_all::okx::market::{
    first_object_value, okx_book_levels, okx_candle_from_dto, okx_long_short_ratio_from_values,
    okx_max_order_size_from_dto, okx_ticker_from_dto, parse_i64_filter, OkxCandle, OkxMaxSize, OkxTicker,
};
use crypto_exc_all::order::OrderListQuery;
use crypto_exc_all::fill::FillListQuery;
use crypto_exc_all::platform::PlatformEventQuery;
use crypto_exc_all::trade::{CancelOrderRequest, OrderSide, PlaceOrderRequest, TimeInForce};

fn to_json(value: serde_json::Value) -> JsonValue {
    match value {
        serde_json::Value::Null => JsonValue::Null,
        serde_json::Value::Bool(b) => JsonValue::Bool(b),
        serde_json::Value::Number(n) => JsonValue::Number(n.to_string()),
        serde_json::Value::String(s) => JsonValue::String(s),
        serde_json::Value::Array(items) => JsonValue::Array(items.into_iter().map(to_json).collect()),
        serde_json::Value::Object(map) => {
            JsonValue::Object(map.into_iter().map(|(k, v)| (k, to_json(v))).collect())
        }
    }
}

fn parse(text: &str) -> JsonValue {
    to_json(serde_json::from_str(text).expect("valid JSON"))
}

fn btc() -> Instrument {
    Instrument::perp("BTC", "USDT")
}

#[test]
fn bitget_metrics_read_lists_and_hints() {
    let raw = parse(r#"{"fundingRateList": [{"fundingRate": "0.0001", "fundingTime": "5"}, {"symbol": "ETHUSDT", "rate": "0.2"}]}"#);
    let rates = bitget_funding_rates_from_value(&btc(), Some("BTCUSDT".to_string()), raw).unwrap();
    assert_eq!(rates.len(), 2);
    assert_eq!(rates[0].exchange_symbol, "BTCUSDT");
    assert_eq!(rates[0].funding_time, Some(5));
    assert_eq!(rates[1].exchange_symbol, "ETHUSDT");
    assert_eq!(rates[1].funding_rate, "0.2");
    let err = bitget_funding_rate_from_response(btc(), "BTCUSDT".to_string(), parse("[]")).unwrap_err();
    assert!(err.to_text().ends_with("Bitget funding rate response is empty"));
    let err = bitget_funding_rates_from_value(&btc(), None, parse("[1]")).unwrap_err();
    assert!(err.to_text().ends_with("Bitget funding rate item is not an object"));
}

#[test]
fn bitget_orders_fills_books_and_candles() {
    let orders = bitget_orders_from_value(&None, None, parse(r#"{"entrustedList": [{"symbol": "ETHUSDT", "orderId": "1", "baseVolume": "0.5", "cTime": "3"}]}"#), "Bitget open orders response").unwrap();
    assert_eq!(orders[0].instrument, Instrument::perp("ETH", "USDT"));
    assert_eq!(orders[0].filled_size.as_deref(), Some("0.5"));
    assert_eq!(orders[0].created_at, Some(3));
    let err = bitget_orders_from_value(&None, None, parse(r#"["x"]"#), "Bitget order history response").unwrap_err();
    assert!(err.to_text().ends_with("Bitget order item is not an object"));
    let fills = bitget_fills_from_value(&Some(btc()), Some("BTCUSDT".to_string()), parse(r#"[{"tradeId": "t", "ts": 9, "feeCoin": "USDT"}]"#), "Bitget fills response").unwrap();
    assert_eq!(fills[0].timestamp, Some(9));
    assert_eq!(fills[0].fee_asset.as_deref(), Some("USDT"));
    assert_eq!(fills[0].exchange_symbol, "BTCUSDT");
    let book = bitget_orderbook_from_value(btc(), "BTCUSDT".to_string(), parse(r#"{"bids": [["1", "2"]], "asks": [["3", 4]], "ts": "8"}"#)).unwrap();
    assert_eq!(book.bids[0].price, "1");
    assert_eq!(book.asks[0].size, "4");
    assert_eq!(book.timestamp, Some(8));
    let err = bitget_orderbook_from_value(btc(), "BTCUSDT".to_string(), parse(r#"{"bids": [1], "asks": []}"#)).unwrap_err();
    assert!(err.to_text().ends_with("Bitget orderbook bids level is not an array"));
    let err = bitget_orderbook_from_value(btc(), "BTCUSDT".to_string(), parse(r#"{"bids": []}"#)).unwrap_err();
    assert!(err.to_text().ends_with("Bitget orderbook asks is not an array"));
    let candles = bitget_candles_from_value(&btc(), "BTCUSDT", parse(r#"[["1", "2", "3", "1", "2", "10", "20"]]"#)).unwrap();
    assert_eq!(candles[0].open_time, Some(1));
    assert_eq!(candles[0].quote_volume.as_deref(), Some("20"));
    let err = bitget_candles_from_value(&btc(), "BTCUSDT", parse("{}")).unwrap_err();
    assert!(err.to_text().ends_with("Bitget candles response is not an array"));
    let ack = order_ack_from_value(btc(), "BTCUSDT".to_string(), "Bitget order response", parse(r#"{"orderId": "7", "clientOid": "c"}"#)).unwrap();
    assert_eq!(ack.order_id.as_deref(), Some("7"));
    let err = order_ack_from_value(btc(), "BTCUSDT".to_string(), "Bitget cancel response", parse("1")).unwrap_err();
    assert!(err.to_text().ends_with("Bitget cancel response is not an object"));
}

#[test]
fn bitget_settings_fall_back_to_what_was_asked() {
    let request = SetLeverageRequest::new(btc(), "5").with_margin_mode(MarginMode::Isolated).with_margin_coin("USDT");
    let setting = bitget_leverage_setting_from_value(btc(), "BTCUSDT".to_string(), request, parse(r#"{"longLeverage": "5"}"#)).unwrap();
    assert_eq!(setting.leverage, "5");
    assert_eq!(setting.margin_mode.as_deref(), Some("isolated"));
    assert_eq!(setting.margin_coin.as_deref(), Some("USDT"));
    assert_eq!(setting.exchange_symbol, "BTCUSDT");
    let mode = bitget_position_mode_setting_from_value(SetPositionModeRequest::new(PositionMode::Hedge), "USDT-FUTURES".to_string(), parse("{}")).unwrap();
    assert_eq!(mode.raw_mode.as_deref(), Some("hedge_mode"));
    assert_eq!(mode.product_type.as_deref(), Some("USDT-FUTURES"));
}

#[test]
fn bitget_requests_and_records() {
    let query = OrderListQuery::new().with_status("live").with_before("9").with_limit(3);
    let request = bitget_order_query_request("USDT-FUTURES", &query, Some("BTCUSDT"));
    assert_eq!(request.symbol.as_deref(), Some("BTCUSDT"));
    assert_eq!(request.id_less_than.as_deref(), Some("9"));
    assert_eq!(request.limit, Some(3));
    let cancel = bitget_cancel_order_request(&CancelOrderRequest::new(btc()).with_client_order_id("c1"), "USDT-FUTURES").unwrap();
    assert_eq!(cancel.client_oid.as_deref(), Some("c1"));
    assert_eq!(cancel.margin_coin, "USDT");
    let err = bitget_cancel_order_request(&CancelOrderRequest::new(btc()), "USDT-FUTURES").unwrap_err();
    assert!(err.to_text().ends_with("cancel_order requires order_id or client_order_id"));
    let account = BitgetAccount {
        margin_coin: "USDT".to_string(),
        account_equity: "".to_string(),
        usdt_equity: "12".to_string(),
        available: "10".to_string(),
        locked: "".to_string(),
    };
    let balance = bitget_balance_from_account(account, JsonValue::Null);
    assert_eq!(balance.total, "12");
    assert_eq!(balance.frozen, None);
    let ticker = BitgetTicker {
        last_price: "1".to_string(),
        bid_price: "".to_string(),
        ask_price: "2".to_string(),
        quote_volume: "".to_string(),
        base_volume: "5".to_string(),
        ts: "77".to_string(),
    };
    let t = bitget_ticker_from_answer(btc(), "BTCUSDT".to_string(), vec![ticker], JsonValue::Null).unwrap();
    assert_eq!(t.bid_price, None);
    assert_eq!(t.volume_24h.as_deref(), Some("5"));
    assert_eq!(t.timestamp, Some(77));
    let err = bitget_ticker_from_answer(btc(), "BTCUSDT".to_string(), vec![], JsonValue::Null).unwrap_err();
    assert!(err.to_text().ends_with("Bitget ticker response is empty for BTCUSDT"));
    let bills_query = AccountBillQuery::new().with_asset("USDT");
    let bill_request = bitget_account_bill_request(&bills_query, "USDT-FUTURES").unwrap();
    assert_eq!(bill_request.product_type, "USDT-FUTURES");
    assert_eq!(bill_request.coin.as_deref(), Some("USDT"));
    assert!(matches!(bitget_account_bill_request(&bills_query.with_archive(true), "X"), Err(Error::Unsupported { .. })));
    let bills = bitget_account_bills_from_value(parse(r#"{"bills": [{"billId": "b", "amount": "-1", "cTime": "4", "businessType": "fee"}]}"#)).unwrap();
    assert_eq!(bills[0].bill_id.as_deref(), Some("b"));
    assert_eq!(bills[0].timestamp, Some(4));
    let err = bitget_account_bills_from_value(parse("{}")).unwrap_err();
    assert!(err.to_text().ends_with("Bitget account bills response does not contain bills"));
    let events = announcement_events(parse(r#"{"announcements": [{"annId": "1", "annTitle": "Hi", "cTime": "5"}]}"#));
    assert_eq!(events[0].event_id.as_deref(), Some("1"));
    assert_eq!(events[0].published_at, Some(5));
}

#[test]
fn binance_market_data() {
    let t = binance_ticker_from_value(btc(), "BTCUSDT".to_string(), parse(r#"{"lastPrice": "1", "volume": "9", "closeTime": 3}"#)).unwrap();
    assert_eq!(t.last_price, "1");
    assert_eq!(t.timestamp, Some(3));
    let book = binance_orderbook_from_value(btc(), "BTCUSDT".to_string(), parse(r#"{"bids": [["1", "2"]], "asks": [], "T": 6}"#)).unwrap();
    assert_eq!(book.timestamp, Some(6));
    let candles = binance_candles_from_value(&btc(), "BTCUSDT", parse(r#"[[1, "1", "2", "0.5", "1.5", "9", 2, "90"]]"#)).unwrap();
    assert_eq!(candles[0].close_time, Some(2));
    assert_eq!(candles[0].quote_volume.as_deref(), Some("90"));
    let f = binance_funding_rate_from_response(btc(), "BTCUSDT".to_string(), parse(r#"{"lastFundingRate": "0.1", "nextFundingTime": 8}"#)).unwrap();
    assert_eq!(f.funding_rate, "0.1");
    assert_eq!(f.next_funding_time, Some(8));
    let ratios = binance_long_short_ratios_from_value(&btc(), Some("BTCUSDT".to_string()), "5m".to_string(), parse(r#"[{"longShortRatio": "1.2", "longAccount": "0.6", "timestamp": 1}]"#)).unwrap();
    assert_eq!(ratios[0].ratio, "1.2");
    assert_eq!(ratios[0].long_ratio.as_deref(), Some("0.6"));
    assert_eq!(ratios[0].period, "5m");
}

#[test]
fn binance_requests_orders_and_positions() {
    let limit = PlaceOrderRequest::limit(btc(), OrderSide::Buy, "1", "100").with_position_side("long").with_time_in_force(TimeInForce::PostOnly);
    let request = binance_place_order_request(&limit).unwrap();
    assert_eq!(request.side, "BUY");
    assert_eq!(request.time_in_force.as_deref(), Some("GTX"));
    assert_eq!(request.position_side.as_deref(), Some("LONG"));
    let market = binance_place_order_request(&PlaceOrderRequest::market(btc(), OrderSide::Sell, "2")).unwrap();
    assert_eq!(market.order_type, "MARKET");
    let guarded = PlaceOrderRequest::market(btc(), OrderSide::Buy, "1").with_attached_stop_loss_price("90");
    let err = binance_place_order_request(&guarded).unwrap_err();
    assert!(matches!(
        err,
        Error::Unsupported { exchange: ExchangeId::Binance, capability: "attached stop loss on place_order" }
    ));
    assert_eq!(market.price, None);
    let err = binance_cancel_request(&CancelOrderRequest::new(btc()).with_order_id("x1")).unwrap_err();
    assert!(err.to_text().ends_with("Binance order_id must be numeric: x1"));
    assert_eq!(binance_cancel_request(&CancelOrderRequest::new(btc()).with_order_id("12")).unwrap().order_id, Some(12));
    let err = parse_u64_filter("after", "abc").unwrap_err();
    assert!(err.to_text().ends_with("Binance after filter must be numeric: abc"));
    let err = binance_order_history_request(&OrderListQuery::new()).unwrap_err();
    assert!(err.to_text().ends_with("Binance order history requires an instrument"));
    let (_, history) = binance_order_history_request(&OrderListQuery::new().with_instrument(btc()).with_after("5")).unwrap();
    assert_eq!(history.from_id, Some(5));
    let err = binance_fill_request(&FillListQuery::new()).unwrap_err();
    assert!(err.to_text().ends_with("Binance fills require an instrument"));
    let (_, fills) = binance_fill_request(&FillListQuery::new().with_instrument(btc()).with_order_id("7")).unwrap();
    assert_eq!(fills.order_id, Some(7));
    let err = binance_leverage_value(&SetLeverageRequest::new(btc(), "2.5")).unwrap_err();
    assert!(err.to_text().ends_with("Binance leverage must be a positive integer: 2.5"));
    assert_eq!(binance_leverage_value(&SetLeverageRequest::new(btc(), "20")).unwrap(), 20);
    let mode = binance_position_mode_setting(SetPositionModeRequest::new(PositionMode::Hedge), JsonValue::Null);
    assert_eq!(mode.raw_mode.as_deref(), Some("true"));
    let orders = binance_orders_from_value(&None, None, parse(r#"[{"symbol": "ETHUSDC", "executedQty": "1", "time": 4}]"#), "Binance open orders response").unwrap();
    assert_eq!(orders[0].instrument, Instrument::perp("ETH", "USDC"));
    assert_eq!(orders[0].created_at, Some(4));
    let fills = binance_fills_from_value(&btc(), "BTCUSDT".to_string(), parse(r#"[{"id": 1, "maker": true, "commission": "0.1"}]"#), "Binance fills response").unwrap();
    assert_eq!(fills[0].role.as_deref(), Some("maker"));
    assert_eq!(fills[0].trade_id.as_deref(), Some("1"));
    let positions = binance_positions_from_value(parse(r#"[{"symbol": "BTCUSDT", "positionAmt": "1", "marginType": "cross"}, {"symbol": "ETHUSDT"}]"#), Some(&btc())).unwrap();
    assert_eq!(positions.len(), 1);
    assert_eq!(positions[0].margin_mode.as_deref(), Some("cross"));
    assert!(matches!(ensure_binance_announcements_query(&PlatformEventQuery::new().with_locale("en")), Err(Error::Unsupported { .. })));
    let events = binance_announcement_events(parse(r#"{"data": {"articles": [{"id": 3, "title": "T", "releaseDate": 9}]}}"#));
    assert_eq!(events[0].event_id.as_deref(), Some("3"));
    assert_eq!(events[0].published_at, Some(9));
}

#[test]
fn okx_records_and_helpers() {
    let ticker = OkxTicker {
        inst_id: "".to_string(),
        last: "10".to_string(),
        bid_px: "9".to_string(),
        ask_px: "".to_string(),
        vol24h: "100".to_string(),
        ts: "42".to_string(),
    };
    let t = okx_ticker_from_dto(None, Some("ETH-USDT-SWAP".to_string()), ticker, JsonValue::Null);
    assert_eq!(t.exchange_symbol, "ETH-USDT-SWAP");
    assert_eq!(t.instrument, Instrument::perp("ETH", "USDT"));
    assert_eq!(t.ask_price, None);
    assert_eq!(t.timestamp, Some(42));
    let levels = okx_book_levels(vec![vec!["1".to_string(), "2".to_string(), "0".to_string()], vec![]]);
    assert_eq!(levels[0].price, "1");
    assert_eq!(levels[1].price, "");
    assert_eq!(levels[0].raw, parse(r#"["1", "2", "0"]"#));
    let candle = OkxCandle {
        ts: "1".to_string(),
        o: "1".to_string(),
        h: "2".to_string(),
        l: "0".to_string(),
        c: "1".to_string(),
        v: "5".to_string(),
        vol_ccy_quote: "".to_string(),
        confirm: "0".to_string(),
    };
    let c = okx_candle_from_dto(&btc(), "BTC-USDT-SWAP", candle, JsonValue::Null);
    assert_eq!(c.closed, Some(false));
    assert_eq!(c.quote_volume, None);
    let ratio = okx_long_short_ratio_from_values(btc(), "BTC".to_string(), "5m".to_string(), vec!["7".to_string(), "1.5".to_string()]);
    assert_eq!(ratio.ratio, "1.5");
    assert_eq!(ratio.timestamp, Some(7));
    let err = parse_i64_filter("after", "x").unwrap_err();
    assert!(err.to_text().ends_with("OKX after filter must be numeric: x"));
    let err = first_object_value(parse("[]"), "OKX thing").unwrap_err();
    assert!(err.to_text().ends_with("OKX thing is empty"));
    let size = okx_max_order_size_from_dto(
        btc(),
        "BTC-USDT-SWAP".to_string(),
        MaxOrderSizeRequest::new(btc(), MarginMode::Cross).with_margin_coin("USDT"),
        OkxMaxSize { inst_id: "".to_string(), ccy: "".to_string(), max_buy: "3".to_string(), max_sell: "4".to_string() },
        JsonValue::Null,
    );
    assert_eq!(size.margin_coin.as_deref(), Some("USDT"));
    assert_eq!(size.max_sell, "4");
}

#[test]
fn bybit_answers_and_requests() {
    assert_eq!(bybit_candle_interval(" 15m "), "15");
    assert_eq!(bybit_candle_interval("1M"), "M");
    assert_eq!(bybit_candle_interval("4H"), "240");
    assert_eq!(bybit_candle_interval("1Dutc"), "D");
    assert_eq!(bybit_candle_interval("1w"), "W");
    assert_eq!(bybit_stats_period("5m"), "5min");
    assert_eq!(bybit_stats_period("1h"), "1h");
    let t = bybit_ticker_from_value(btc(), "BTCUSDT".to_string(), parse(r#"{"list": [{"lastPrice": "5", "volume24h": "7", "bid1Price": true}]}"#)).unwrap();
    assert_eq!(t.last_price, "5");
    assert_eq!(t.volume_24h.as_deref(), Some("7"));
    assert_eq!(t.bid_price, None);
    let err = bybit_ticker_from_value(btc(), "BTCUSDT".to_string(), parse(r#"{"list": []}"#)).unwrap_err();
    assert!(err.to_text().ends_with("Bybit ticker response is empty"));
    let book = bybit_orderbook_from_value(btc(), "BTCUSDT".to_string(), parse(r#"{"b": [["1", "2"], [1, "2"]], "a": [["3", "4"]], "ts": 5}"#));
    assert_eq!(book.bids.len(), 1);
    assert_eq!(book.asks[0].size, "4");
    let candles = bybit_candles_from_value(&btc(), "BTCUSDT", parse(r#"{"list": [["1", "1", "2", "0", "1", "9", "99"], ["2", 1]]}"#));
    assert_eq!(candles.len(), 1);
    assert_eq!(candles[0].quote_volume.as_deref(), Some("99"));
    let positions = bybit_positions_from_value(parse(r#"{"list": [{"symbol": "ETHUSDT", "size": "1", "side": "Buy"}]}"#), None);
    assert_eq!(positions[0].instrument, Instrument::perp("ETH", "USDT"));
    let oi = bybit_open_interest_from_value(btc(), "BTCUSDT".to_string(), parse(r#"{"list": [{"openInterest": "12", "timestamp": "9"}]}"#)).unwrap();
    assert_eq!(oi.open_interest, "12");
    assert_eq!(oi.timestamp, Some(9));
    let ratios = bybit_long_short_ratios_from_value(
        &btc(),
        "BTCUSDT",
        "5m",
        parse(r#"{"list": [{"buyRatio": "0.6", "sellRatio": "0.4"}, {"ratio": "2"}]}"#),
        &vec![Some("1.5".to_string())],
    );
    assert_eq!(ratios[0].ratio, "1.5");
    assert_eq!(ratios[1].ratio, "2");
    let err = bybit_place_order_request(&PlaceOrderRequest::market(btc(), OrderSide::Buy, "1").with_attached_stop_loss_price("1"), "linear").unwrap_err();
    assert!(matches!(err, Error::Unsupported { .. }));
    let request = bybit_place_order_request(&PlaceOrderRequest::limit(btc(), OrderSide::Sell, "1", "2").with_time_in_force(TimeInForce::PostOnly), "linear").unwrap();
    assert_eq!(request.side, "Sell");
    assert_eq!(request.time_in_force.as_deref(), Some("PostOnly"));
    assert_eq!(bybit_bill_kind(&AccountBillQuery::new().with_bill_type("Deposit")).unwrap(), BybitAccountBillKind::Deposit);
    assert!(matches!(bybit_bill_kind(&AccountBillQuery::new().with_bill_type("x")), Err(Error::Unsupported { .. })));
    let bills = bybit_deposit_bills(parse(r#"{"rows": [{"id": "d1", "coin": "USDT", "amount": "5", "successAt": "100"}]}"#));
    assert_eq!(bills[0].bill_type.as_deref(), Some("deposit"));
    assert_eq!(bills[0].timestamp, Some(100));
    let events = bybit_platform_events(parse(r#"{"list": [{"title": "T", "dateTimestamp": 5}]}"#), true);
    assert_eq!(events[0].event_type, "announcement");
    assert_eq!(events[0].published_at, Some(5));
}

#[test]
fn gate_answers_and_requests() {
    assert_eq!(gate_instrument_from_symbol("BTC_USDT"), Instrument::perp("BTC", "USDT"));
    assert_eq!(seconds_to_millis(5), 5000);
    assert_eq!(signed_gate_size(OrderSide::Sell, "3").unwrap(), -3);
    assert_eq!(signed_gate_size(OrderSide::Buy, "-3").unwrap(), 3);
    let err = signed_gate_size(OrderSide::Buy, "1.5").unwrap_err();
    assert!(err.to_text().ends_with("Gate futures size must be integer contracts: 1.5"));
    let request = gate_place_order_request(&PlaceOrderRequest::market(Instrument::perp("BTC", "USDT"), OrderSide::Sell, "2")).unwrap();
    assert_eq!(request.size, -2);
    assert_eq!(request.price.as_deref(), Some("0"));
    let tickers = gate_tickers_from_value(&parse(r#"[{"contract": "ETH_USDT", "last": "3"}, {"last": "1"}]"#));
    assert_eq!(tickers.len(), 1);
    assert_eq!(tickers[0].instrument, Instrument::perp("ETH", "USDT"));
    let candles = gate_candles_from_value(&btc(), "BTC_USDT", parse(r#"[{"t": 1, "o": "1", "sum": "9"}]"#));
    assert_eq!(candles[0].quote_volume.as_deref(), Some("9"));
    let f = gate_funding_rate_from_item(btc(), "BTC_USDT".to_string(), parse(r#"{"funding_rate": "0.1", "funding_next_apply": 60}"#));
    assert_eq!(f.next_funding_time, Some(60000));
    let book_request = gate_account_book_request(&AccountBillQuery::new().with_start_time(5500)).unwrap();
    assert_eq!(book_request.from, Some(5));
    let bills = gate_bills_from_value("usdt", parse(r#"[{"time": 2, "change": "1", "type": "fee"}]"#));
    assert_eq!(bills[0].asset.as_deref(), Some("USDT"));
    assert_eq!(bills[0].timestamp, Some(2000));
}

#[test]
fn orders_refuse_fields_their_exchange_cannot_send() {
    let hedged = PlaceOrderRequest::market(btc(), OrderSide::Buy, "1").with_margin_mode(MarginMode::Isolated);
    let err = bybit_place_order_request(&hedged, "linear").unwrap_err();
    assert!(matches!(err, Error::Unsupported { exchange: ExchangeId::Bybit, capability: "margin mode on place_order" }));
    let sided = PlaceOrderRequest::market(btc(), OrderSide::Buy, "1").with_position_side("long");
    let err = gate_place_order_request(&sided).unwrap_err();
    assert!(matches!(err, Error::Unsupported { exchange: ExchangeId::Gate, capability: "position side on place_order" }));
    let err = crypto_exc_all::bitget::trade::bitget_place_order_request(&sided, "USDT-FUTURES").unwrap_err();
    assert!(matches!(err, Error::Unsupported { exchange: ExchangeId::Bitget, capability: "position side on place_order" }));
    let closing = PlaceOrderRequest::market(btc(), OrderSide::Sell, "1").with_trade_side("close");
    let err = bybit_place_order_request(&closing, "linear").unwrap_err();
    assert!(matches!(err, Error::Unsupported { capability: "trade side on place_order", .. }));
}

#[test]
fn bitget_product_type_defaults_to_usdt_futures() {
    let mut config = crypto_exc_all::config::BitgetExchangeConfig {
        api_key: "k".to_string(),
        api_secret: "s".to_string(),
        passphrase: "p".to_string(),
        api_url: None,
        api_timeout_ms: None,
        proxy_url: None,
        product_type: None,
    };
    assert_eq!(crypto_exc_all::bitget::bitget_product_type(&config), "USDT-FUTURES");
    config.product_type = Some("COIN-FUTURES".to_string());
    assert_eq!(crypto_exc_all::bitget::bitget_product_type(&config), "COIN-FUTURES");
}

#[test]
fn margin_modes_read_from_owned_text() {
    assert_eq!(MarginMode::from("Crossed".to_string()), MarginMode::Cross);
    assert_eq!(MarginMode::from("ISOLATED".to_string()), MarginMode::Isolated);
    assert_eq!(MarginMode::from("portfolio".to_string()), MarginMode::Raw("portfolio".to_string()));
}
