use crypto_exc_all::exchange::ExchangeId;
use crypto_exc_all::fill::Fill;
use crypto_exc_all::hyperliquid::select::{hyperliquid_select_fills, hyperliquid_select_orders};
use crypto_exc_all::instrument::Instrument;
use crypto_exc_all::json::JsonValue;
use crypto_exc_all::order::Order;

fn order(coin: &str, id: &str) -> Order {
    Order {
        exchange: ExchangeId::Hyperliquid,
        instrument: Instrument::perp(coin, "USDC"),
        exchange_symbol: coin.to_string(),
        order_id: Some(id.to_string()),
        client_order_id: None,
        side: None,
        order_type: None,
        price: None,
        size: None,
        filled_size: None,
        average_price: None,
        status: None,
        created_at: None,
        updated_at: None,
        raw: JsonValue::Null,
    }
}

fn fill(coin: &str, order_id: Option<&str>) -> Fill {
    Fill {
        exchange: ExchangeId::Hyperliquid,
        instrument: Instrument::perp(coin, "USDC"),
        exchange_symbol: coin.to_string(),
        trade_id: None,
        order_id: order_id.map(str::to_string),
        side: None,
        price: None,
        size: None,
        fee: None,
        fee_asset: None,
        role: None,
        timestamp: None,
        raw: JsonValue::Null,
    }
}

fn ids(orders: &[Order]) -> Vec<&str> {
    orders.iter().map(|o| o.order_id.as_deref().unwrap()).collect()
}

#[test]
fn orders_are_picked_by_coin_in_order_up_to_the_limit() {
    let all = vec![order("BTC", "1"), order("ETH", "2"), order("BTC", "3"), order("BTC", "4")];
    let picked = hyperliquid_select_orders(all.clone(), Some("BTC".to_string()), Some(2));
    assert_eq!(ids(&picked), vec!["1", "3"]);
    let picked = hyperliquid_select_orders(all.clone(), None, None);
    assert_eq!(ids(&picked), vec!["1", "2", "3", "4"]);
    let picked = hyperliquid_select_orders(all.clone(), Some("SOL".to_string()), None);
    assert!(picked.is_empty());
}

#[test]
fn a_zero_limit_still_gives_one_order() {
    let all = vec![order("BTC", "1"), order("BTC", "2")];
    let picked = hyperliquid_select_orders(all, None, Some(0));
    assert_eq!(ids(&picked), vec!["1"]);
}

#[test]
fn fills_are_picked_by_coin_and_order() {
    let all = vec![fill("BTC", Some("7")), fill("BTC", None), fill("ETH", Some("7")), fill("BTC", Some("7"))];
    let picked = hyperliquid_select_fills(all.clone(), Some("BTC".to_string()), Some("7".to_string()), None);
    assert_eq!(picked.len(), 2);
    assert!(picked.iter().all(|f| f.exchange_symbol == "BTC" && f.order_id.as_deref() == Some("7")));
    let picked = hyperliquid_select_fills(all, None, Some("7".to_string()), Some(1));
    assert_eq!(picked.len(), 1);
    assert_eq!(picked[0].exchange_symbol, "BTC");
}
