use crypto_exc_all::instrument::Instrument;
use crypto_exc_all::order::OrderQuery;
use crypto_exc_all::trade::{
    OrderSide, PlaceOrderRequest, ProtectiveOrderQuery, ProtectiveOrderRequest,
    ProtectiveOrderWorkingType,
};

#[test]
fn protective_order_request_captures_stop_market_contract() {
    let request = ProtectiveOrderRequest::stop_market(
        Instrument::perp("ETH", "USDT"),
        OrderSide::Sell,
        "2200",
    )
    .with_position_side("LONG")
    .with_reduce_only(true)
    .with_close_position(false)
    .with_working_type(ProtectiveOrderWorkingType::MarkPrice)
    .with_price_protect(true)
    .with_client_order_id("sl-rqethopen3");

    assert_eq!(request.instrument, Instrument::perp("ETH", "USDT"));
    assert_eq!(request.side, OrderSide::Sell);
    assert_eq!(request.stop_price, "2200");
    assert_eq!(request.position_side.as_deref(), Some("LONG"));
    assert_eq!(request.reduce_only, Some(true));
    assert_eq!(request.close_position, Some(false));
    assert_eq!(
        request.working_type,
        Some(ProtectiveOrderWorkingType::MarkPrice)
    );
    assert_eq!(request.price_protect, Some(true));
    assert_eq!(request.client_order_id.as_deref(), Some("sl-rqethopen3"));
}

#[test]
fn place_order_request_carries_attached_stop_loss_price() {
    let request =
        PlaceOrderRequest::market(Instrument::perp("ETH", "USDT"), OrderSide::Buy, "0.1")
            .with_attached_stop_loss_price("2200.5");

    assert_eq!(request.attached_stop_loss_price.as_deref(), Some("2200.5"));
}

#[test]
fn protective_order_query_reuses_standard_order_identity_contract() {
    let query = ProtectiveOrderQuery::by_client_order_id(
        Instrument::perp("ETH", "USDT"),
        "sl-rqethopen3",
    );
    let order_query: OrderQuery = query.into_order_query();

    assert_eq!(order_query.instrument, Instrument::perp("ETH", "USDT"));
    assert_eq!(order_query.order_id, None);
    assert_eq!(
        order_query.client_order_id.as_deref(),
        Some("sl-rqethopen3")
    );
}

#[test]
fn order_side_and_working_type_use_exchange_spellings() {
    assert_eq!(OrderSide::Buy.lower(), "buy");
    assert_eq!(OrderSide::Sell.upper(), "SELL");
    assert_eq!(ProtectiveOrderWorkingType::MarkPrice.binance_value(), "MARK_PRICE");
    assert_eq!(ProtectiveOrderWorkingType::ContractPrice.binance_value(), "CONTRACT_PRICE");
}

#[test]
fn limit_order_request_carries_price_and_size() {
    let request = PlaceOrderRequest::limit(Instrument::spot("btc", "usdt"), OrderSide::Buy, "1", "50000")
        .with_client_order_id("cid-1")
        .with_reduce_only(false);
    assert_eq!(request.instrument.base, "BTC");
    assert_eq!(request.size, "1");
    assert_eq!(request.price.as_deref(), Some("50000"));
    assert_eq!(request.client_order_id.as_deref(), Some("cid-1"));
    assert_eq!(request.reduce_only, Some(false));
    assert_eq!(request.attached_stop_loss_price, None);
}
