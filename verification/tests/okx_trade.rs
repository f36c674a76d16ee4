use crypto_exc_all::config::OkxExchangeConfig;
use crypto_exc_all::error::Error;
use crypto_exc_all::exchange::ExchangeId;
use crypto_exc_all::fill::FillListQuery;
use crypto_exc_all::instrument::Instrument;
use crypto_exc_all::json::JsonValue;
use crypto_exc_all::margin::MarginMode;
use crypto_exc_all::okx::okx_private_stream_allowed;
use crypto_exc_all::okx::orders::{
    okx_order_from_detail, okx_order_from_pending, OkxOrderDetail, OkxPendingOrder, OkxRawOrderType,
};
use crypto_exc_all::okx::trade::{
    okx_pending_protective_page, okx_protective_history_page, okx_protective_history_states,
    okx_attached_stop_loss, okx_cancel_ack_from_value, okx_cancel_algo_ack_from_value, okx_fills_request,
    okx_order_history_request, okx_place_order_request, okx_protective_algo_id, okx_require_cancel_id,
    okx_require_order_query_id,
};
use crypto_exc_all::order::OrderListQuery;
use crypto_exc_all::trade::{CancelOrderRequest, OrderSide, PlaceOrderRequest, TimeInForce};

fn to_json(value: serde_json::Value) -> JsonValue {
    match value {
        serde_json::Value::Null => JsonValue::Null,
        serde_json::Value::Bool(b) => JsonValue::Bool(b),
        serde_json::Value::Number(n) => JsonValue::Number(n.to_string()),
        serde_json::Value::String(s) => JsonValue::String(s),
        serde_json::Value::Array(items) => JsonValue::Array(items.into_iter().map(to_json).collect()),
        serde_json::Value::Object(map) => {
            JsonValue::Object(map.into_iter().map(|(k, v)| (k, to_json(v))).collect())
        }
    }
}

fn parse(text: &str) -> JsonValue {
    to_json(serde_json::from_str(text).expect("valid JSON"))
}

fn eth() -> Instrument {
    Instrument::perp("ETH", "USDT")
}

#[test]
fn okx_order_request_carries_every_field_and_the_stop_loss() {
    let request = PlaceOrderRequest::limit(eth(), OrderSide::Buy, "0.1", "2000")
        .with_margin_mode(MarginMode::Isolated)
        .with_position_side("LONG")
        .with_client_order_id("c1")
        .with_attached_stop_loss_price("1900.5");
    let order = okx_place_order_request(&request).unwrap();
    assert_eq!(order.inst_id, "ETH-USDT-SWAP");
    assert_eq!(order.td_mode, "isolated");
    assert_eq!(order.side, "buy");
    assert_eq!(order.pos_side.as_deref(), Some("long"));
    assert_eq!(order.ord_type, "limit");
    assert_eq!(order.sz, "0.1");
    assert_eq!(order.px.as_deref(), Some("2000"));
    assert_eq!(order.cl_ord_id.as_deref(), Some("c1"));
    let stop = order.attached_stop_loss.unwrap();
    assert_eq!(stop.sl_trigger_px, "1900.5");
    assert_eq!(stop.sl_ord_px, "-1");
    assert_eq!(stop.sl_trigger_px_type, "mark");
}

#[test]
fn okx_order_request_defaults_and_refusals() {
    let market = okx_place_order_request(&PlaceOrderRequest::market(eth(), OrderSide::Sell, "1")).unwrap();
    assert_eq!(market.td_mode, "cross");
    assert_eq!(market.ord_type, "market");
    assert_eq!(market.px, None);
    assert!(market.attached_stop_loss.is_none());
    let ioc = PlaceOrderRequest::market(eth(), OrderSide::Sell, "1").with_time_in_force(TimeInForce::Ioc);
    let err = okx_place_order_request(&ioc).unwrap_err();
    assert!(matches!(err, Error::Adapter { exchange: ExchangeId::Okx, ref message } if message == "limit orders require price"));
    let post = PlaceOrderRequest::limit(eth(), OrderSide::Buy, "1", "10").with_time_in_force(TimeInForce::PostOnly);
    assert_eq!(okx_place_order_request(&post).unwrap().ord_type, "post_only");
    let blank = PlaceOrderRequest::market(eth(), OrderSide::Buy, "1").with_attached_stop_loss_price("  ");
    assert!(okx_attached_stop_loss(&blank).is_none());
}

#[test]
fn okx_cancellations_name_their_order() {
    assert!(okx_require_cancel_id(&CancelOrderRequest::new(eth())).is_err());
    assert!(okx_require_cancel_id(&CancelOrderRequest::by_client_order_id(eth(), "c")).is_ok());
    assert!(okx_require_order_query_id(&None, &None).is_err());
    assert!(okx_require_order_query_id(&Some("1".to_string()), &None).is_ok());
    let err = okx_protective_algo_id(&CancelOrderRequest::new(eth())).unwrap_err();
    assert!(err.to_text().ends_with("OKX protective cancellation requires algo order id"));
    assert_eq!(okx_protective_algo_id(&CancelOrderRequest::by_order_id(eth(), "77")).unwrap(), "77");
}

#[test]
fn okx_cancel_answers_become_acknowledgements() {
    let raw = parse(r#"[{"ordId": "9", "clOrdId": "c9", "sCode": "0"}]"#);
    let ack = okx_cancel_ack_from_value(eth(), "ETH-USDT-SWAP".to_string(), raw).unwrap();
    assert_eq!(ack.order_id.as_deref(), Some("9"));
    assert_eq!(ack.client_order_id.as_deref(), Some("c9"));
    assert_eq!(ack.status.as_deref(), Some("0"));
    let err = okx_cancel_ack_from_value(eth(), "ETH-USDT-SWAP".to_string(), parse("[]")).unwrap_err();
    assert!(err.to_text().ends_with("OKX cancel response is empty"));
    let err = okx_cancel_ack_from_value(eth(), "ETH-USDT-SWAP".to_string(), parse("[3]")).unwrap_err();
    assert!(err.to_text().ends_with("OKX cancel response item is not an object"));
}

#[test]
fn okx_algo_cancellation_rejections_are_api_errors() {
    let raw = parse(r#"[{"sCode": "51000", "sMsg": "bad algo"}]"#);
    let err = okx_cancel_algo_ack_from_value(eth(), "ETH-USDT-SWAP".to_string(), "5".to_string(), None, raw)
        .unwrap_err();
    assert!(matches!(err, Error::Api { exchange: ExchangeId::Okx, status: Some(200), ref code, ref message }
        if code == "51000" && message == "bad algo"));
    let raw = parse(r#"{"sCode": "0"}"#);
    let ack = okx_cancel_algo_ack_from_value(eth(), "ETH-USDT-SWAP".to_string(), "5".to_string(), Some("c".to_string()), raw)
        .unwrap();
    assert_eq!(ack.order_id.as_deref(), Some("5"));
    assert_eq!(ack.client_order_id.as_deref(), Some("c"));
    let raw = parse(r#"{}"#);
    let err = okx_cancel_algo_ack_from_value(eth(), "ETH-USDT-SWAP".to_string(), "5".to_string(), None, raw)
        .unwrap_err();
    assert!(matches!(err, Error::Api { ref message, .. } if message == "OKX cancel algo order rejected"));
}

#[test]
fn okx_history_and_fills_requests_choose_the_archive_by_time() {
    let (request, archive) = okx_order_history_request(&OrderListQuery::for_instrument(eth()).with_limit(5));
    assert_eq!(request.inst_type, "SWAP");
    assert_eq!(request.inst_id.as_deref(), Some("ETH-USDT-SWAP"));
    assert_eq!(request.limit, Some(5));
    assert!(!archive);
    let mut query = OrderListQuery::new();
    query.start_time = Some(1700000000000);
    let (request, archive) = okx_order_history_request(&query);
    assert_eq!(request.begin.as_deref(), Some("1700000000000"));
    assert!(archive);
    let mut fills = FillListQuery::new();
    fills.end_time = Some(42);
    fills.order_id = Some("o".to_string());
    let (request, history) = okx_fills_request(&fills);
    assert_eq!(request.end.as_deref(), Some("42"));
    assert_eq!(request.ord_id.as_deref(), Some("o"));
    assert!(history);
}

#[test]
fn okx_order_details_fall_back_to_the_hint() {
    let detail = OkxOrderDetail {
        inst_id: String::new(),
        ord_id: "5".to_string(),
        cl_ord_id: String::new(),
        side: "sell".to_string(),
        ord_type: "limit".to_string(),
        px: "10".to_string(),
        sz: "2".to_string(),
        acc_fill_sz: "1".to_string(),
        avg_px: String::new(),
        state: "partially_filled".to_string(),
        c_time: "100".to_string(),
        u_time: String::new(),
        raw: JsonValue::Null,
    };
    let order = okx_order_from_detail(ExchangeId::Okx, None, Some("SOL-USDT-SWAP".to_string()), detail);
    assert_eq!(order.exchange_symbol, "SOL-USDT-SWAP");
    assert_eq!(order.instrument, Instrument::perp("SOL", "USDT"));
    assert_eq!(order.client_order_id, None);
    assert_eq!(order.average_price, None);
    assert_eq!(order.created_at, Some(100));
    assert_eq!(order.updated_at, None);
}

#[test]
fn okx_pending_orders_name_side_and_type_in_okx_words() {
    let pending = OkxPendingOrder {
        inst_id: "ETH-USDT-SWAP".to_string(),
        order_id: "8".to_string(),
        client_order_id: Some(String::new()),
        side: OrderSide::Buy,
        order_type: OkxRawOrderType::PostOnly,
        px: "3000".to_string(),
        sz: "1".to_string(),
        filled_size: Some("0.5".to_string()),
        filled_price: None,
        state: "live".to_string(),
        creation_time: "7".to_string(),
        update_time: Some("9".to_string()),
        raw: JsonValue::Null,
    };
    let order = okx_order_from_pending(ExchangeId::Okx, Some(eth()), None, pending);
    assert_eq!(order.side.as_deref(), Some("buy"));
    assert_eq!(order.order_type.as_deref(), Some("post_only"));
    assert_eq!(order.client_order_id, None);
    assert_eq!(order.filled_size.as_deref(), Some("0.5"));
    assert_eq!(order.updated_at, Some(9));
    assert_eq!(order.instrument, eth());
}

#[test]
fn full_protective_pages_are_not_evidence() {
    assert!(okx_pending_protective_page(99).is_ok());
    let err = okx_pending_protective_page(100).unwrap_err();
    assert!(err.to_text().ends_with("OKX pending protective order result reached page limit"));
    assert_eq!(okx_protective_history_states(), vec!["effective", "canceled", "order_failed"]);
    let err = okx_protective_history_page("canceled", 100).unwrap_err();
    assert!(err.to_text().ends_with("reached page limit for canceled"));
    assert!(okx_protective_history_page("canceled", 3).is_ok());
}

#[test]
fn attached_exit_prices_map_to_one_market_algo_order() {
    let request = PlaceOrderRequest::market(Instrument::perp("ETH", "USDT"), OrderSide::Buy, "0.1")
        .with_attached_stop_loss_price("2200.5");

    let attached = okx_attached_stop_loss(&request).expect("attached exit mapping");
    assert_eq!(attached.sl_trigger_px, "2200.5");
    assert_eq!(attached.sl_ord_px, "-1");
    assert_eq!(attached.sl_trigger_px_type, "mark");
}

#[test]
fn simulated_credentials_cannot_silently_open_the_production_private_stream() {
    let config = OkxExchangeConfig {
        api_key: "demo-key".to_owned(),
        api_secret: "demo-secret".to_owned(),
        passphrase: "demo-passphrase".to_owned(),
        simulated: true,
        api_url: None,
        request_expiration_ms: None,
    };

    assert!(matches!(
        okx_private_stream_allowed(&config),
        Err(Error::Unsupported { exchange: ExchangeId::Okx, capability: "simulated private account stream" })
    ));
    let production = OkxExchangeConfig { simulated: false, ..config };
    assert!(okx_private_stream_allowed(&production).is_ok());
}
