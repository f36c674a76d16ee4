use crypto_exc_all::error::Error;
use crypto_exc_all::exchange::ExchangeId;
use crypto_exc_all::json::JsonValue;
use crypto_exc_all::private_account_stream::{
    parse_private_account_stream_frame, PrivateAccountStreamChange, PrivateAccountStreamFrame,
};

fn to_json(value: serde_json::Value) -> JsonValue {
    match value {
        serde_json::Value::Null => JsonValue::Null,
        serde_json::Value::Bool(b) => JsonValue::Bool(b),
        serde_json::Value::Number(n) => JsonValue::Number(n.to_string()),
        serde_json::Value::String(s) => JsonValue::String(s),
        serde_json::Value::Array(items) => JsonValue::Array(items.into_iter().map(to_json).collect()),
        serde_json::Value::Object(map) => {
            JsonValue::Object(map.into_iter().map(|(k, v)| (k, to_json(v))).collect())
        }
    }
}

fn parse(text: &str) -> JsonValue {
    to_json(serde_json::from_str(text).expect("valid JSON"))
}

fn adapter_message(err: Error) -> String {
    match err {
        Error::Adapter { message, .. } => message,
        other => panic!("unexpected error {other:?}"),
    }
}

#[test]
fn okx_control_answers_are_control_frames() {
    let frame = parse_private_account_stream_frame(ExchangeId::Okx, parse(r#"{"event": "login", "code": "0"}"#)).unwrap();
    assert_eq!(frame, PrivateAccountStreamFrame::Control { exchange: ExchangeId::Okx, event: "login".to_string() });
    let err = parse_private_account_stream_frame(ExchangeId::Okx, parse(r#"{"event": "error"}"#)).unwrap_err();
    assert_eq!(adapter_message(err), "unknown OKX private control event");
}

#[test]
fn okx_account_frames_give_one_record_per_currency() {
    let raw = parse(
        r#"{"arg": {"channel": "account"}, "data": [{"uTime": "1700", "details": [
            {"ccy": "USDT", "eq": "100.5", "availBal": "90", "uTime": "1800"},
            {"ccy": " BTC ", "eq": "1", "availEq": "0.5"}
        ]}]}"#,
    );
    let frame = parse_private_account_stream_frame(ExchangeId::Okx, raw).unwrap();
    let records = match frame {
        PrivateAccountStreamFrame::Records(records) => records,
        other => panic!("unexpected frame {other:?}"),
    };
    assert_eq!(records.len(), 2);
    assert_eq!(records[0].event_identity, "account:USDT:1800");
    assert_eq!(records[0].provider_event_time_ms, 1800);
    assert_eq!(records[1].event_identity, "account:BTC:1700");
    match &records[1].change {
        PrivateAccountStreamChange::Balance(b) => {
            assert_eq!(b.asset, "BTC");
            assert_eq!(b.total, "1");
            assert_eq!(b.available.as_deref(), Some("0.5"));
            assert_eq!(b.source_updated_at_ms, 1700);
        }
        other => panic!("unexpected change {other:?}"),
    }
}

#[test]
fn okx_account_frames_need_a_time() {
    let raw = parse(r#"{"arg": {"channel": "account"}, "data": [{"details": [{"ccy": "USDT", "eq": "1"}]}]}"#);
    let err = parse_private_account_stream_frame(ExchangeId::Okx, raw).unwrap_err();
    assert_eq!(adapter_message(err), "OKX account frame missing uTime");
    let raw = parse(r#"{"arg": {"channel": "account"}, "data": [{"uTime": "0", "details": []}]}"#);
    let err = parse_private_account_stream_frame(ExchangeId::Okx, raw).unwrap_err();
    assert_eq!(adapter_message(err), "invalid OKX private timestamp");
}

#[test]
fn okx_position_frames_are_named_by_position() {
    let raw = parse(
        r#"{"arg": {"channel": "positions"}, "data": [
            {"instId": "BTC-USDT-SWAP", "posSide": "long", "pos": "2", "avgPx": "100", "uTime": 5, "pTime": "6"},
            {"posId": "p9", "instId": "ETH-USDT-SWAP", "pos": "0", "uTime": "7"}
        ]}"#,
    );
    let records = match parse_private_account_stream_frame(ExchangeId::Okx, raw).unwrap() {
        PrivateAccountStreamFrame::Records(records) => records,
        other => panic!("unexpected frame {other:?}"),
    };
    assert_eq!(records[0].event_identity, "position:BTC-USDT-SWAP:long:5:6");
    assert_eq!(records[0].provider_event_time_ms, 6);
    assert_eq!(records[0].provider_transaction_time_ms, Some(5));
    assert_eq!(records[1].event_identity, "position:p9:7:7");
    let raw = parse(r#"{"arg": {"channel": "positions"}, "data": [{"pos": "1", "uTime": "5"}]}"#);
    let err = parse_private_account_stream_frame(ExchangeId::Okx, raw).unwrap_err();
    assert_eq!(adapter_message(err), "OKX position frame missing business identity");
}

#[test]
fn okx_order_frames_keep_order_and_trade() {
    let raw = parse(
        r#"{"arg": {"channel": "orders"}, "data": [
            {"ordId": "1", "instId": "BTC-USDT-SWAP", "uTime": "9", "state": "filled", "tradeId": "t1", "cTime": "8", "px": ""}
        ]}"#,
    );
    let records = match parse_private_account_stream_frame(ExchangeId::Okx, raw).unwrap() {
        PrivateAccountStreamFrame::Records(records) => records,
        other => panic!("unexpected frame {other:?}"),
    };
    assert_eq!(records[0].event_identity, "order:BTC-USDT-SWAP:1:t1:9");
    match &records[0].change {
        PrivateAccountStreamChange::Order(o) => {
            assert_eq!(o.status, "filled");
            assert_eq!(o.created_at_ms, Some(8));
            assert_eq!(o.price, None);
        }
        other => panic!("unexpected change {other:?}"),
    }
    let raw = parse(r#"{"arg": {"channel": "orders"}, "data": [{"ordId": "1", "instId": "X", "uTime": "9"}]}"#);
    let err = parse_private_account_stream_frame(ExchangeId::Okx, raw).unwrap_err();
    assert_eq!(adapter_message(err), "private account frame missing identity");
    let raw = parse(r#"{"arg": {"channel": "balance_and_position"}, "data": []}"#);
    let err = parse_private_account_stream_frame(ExchangeId::Okx, raw).unwrap_err();
    assert_eq!(adapter_message(err), "unsupported OKX private account channel");
    let err = parse_private_account_stream_frame(ExchangeId::Okx, parse(r#"{"arg": {"channel": "orders"}}"#)).unwrap_err();
    assert_eq!(adapter_message(err), "OKX private frame missing data");
}

#[test]
fn binance_order_updates_give_one_record() {
    let raw = parse(
        r#"{"e": "ORDER_TRADE_UPDATE", "E": 1000, "T": 999, "o": {
            "s": "BTCUSDT", "c": "cid", "S": "BUY", "o": "LIMIT", "q": "0.1", "p": "100",
            "x": "TRADE", "X": "PARTIALLY_FILLED", "i": 42, "z": "0.05", "t": 7, "O": 990
        }}"#,
    );
    let records = match parse_private_account_stream_frame(ExchangeId::Binance, raw).unwrap() {
        PrivateAccountStreamFrame::Records(records) => records,
        other => panic!("unexpected frame {other:?}"),
    };
    assert_eq!(records.len(), 1);
    assert_eq!(records[0].event_identity, "order:BTCUSDT:42:7:999:TRADE");
    assert_eq!(records[0].provider_event_time_ms, 1000);
    match &records[0].change {
        PrivateAccountStreamChange::Order(o) => {
            assert_eq!(o.order_id, "42");
            assert_eq!(o.filled_size.as_deref(), Some("0.05"));
            assert_eq!(o.created_at_ms, Some(990));
            assert_eq!(o.status, "PARTIALLY_FILLED");
        }
        other => panic!("unexpected change {other:?}"),
    }
}

#[test]
fn binance_account_updates_give_balances_then_positions() {
    let raw = parse(
        r#"{"stream": "key", "data": {"e": "ACCOUNT_UPDATE", "E": 20, "T": 19, "a": {"m": "ORDER",
            "B": [{"a": "USDT", "wb": "50", "cw": "40"}],
            "P": [{"s": "BTCUSDT", "pa": "1", "ep": "100", "up": "2", "mt": "cross", "ps": "BOTH"}]}}}"#,
    );
    let records = match parse_private_account_stream_frame(ExchangeId::Binance, raw).unwrap() {
        PrivateAccountStreamFrame::Records(records) => records,
        other => panic!("unexpected frame {other:?}"),
    };
    assert_eq!(records.len(), 2);
    assert_eq!(records[0].event_identity, "balance:USDT:19:ORDER");
    assert_eq!(records[1].event_identity, "position:BTCUSDT:BOTH:19:ORDER");
    match &records[0].change {
        PrivateAccountStreamChange::Balance(b) => assert_eq!(b.available, None),
        other => panic!("unexpected change {other:?}"),
    }
    let raw = parse(r#"{"e": "ACCOUNT_UPDATE", "E": 1, "T": 1, "a": {"m": "X", "B": {}}}"#);
    let err = parse_private_account_stream_frame(ExchangeId::Binance, raw).unwrap_err();
    assert_eq!(adapter_message(err), "Binance account update balances is not an array");
}

#[test]
fn binance_expired_keys_and_other_exchanges() {
    let frame = parse_private_account_stream_frame(ExchangeId::Binance, parse(r#"{"e": "listenKeyExpired", "E": "77"}"#)).unwrap();
    assert_eq!(frame, PrivateAccountStreamFrame::Expired { exchange: ExchangeId::Binance, provider_event_time_ms: 77 });
    let err = parse_private_account_stream_frame(ExchangeId::Binance, parse(r#"{"e": "MARGIN_CALL"}"#)).unwrap_err();
    assert_eq!(adapter_message(err), "unsupported Binance private account event");
    let err = parse_private_account_stream_frame(ExchangeId::Gate, parse("{}")).unwrap_err();
    assert!(matches!(err, Error::Unsupported { exchange: ExchangeId::Gate, capability: "private_account_stream" }));
}
