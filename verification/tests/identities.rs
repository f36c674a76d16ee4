use crypto_exc_all::exchange::ExchangeId;
use crypto_exc_all::gate::{millis_to_seconds, seconds_to_millis};
use crypto_exc_all::instrument::Instrument;

const ALL: [ExchangeId; 6] = [
    ExchangeId::Okx,
    ExchangeId::Binance,
    ExchangeId::Bitget,
    ExchangeId::Bybit,
    ExchangeId::Gate,
    ExchangeId::Hyperliquid,
];

#[test]
fn exchange_names_read_back() {
    for exchange in ALL {
        assert_eq!(ExchangeId::from_name(exchange.as_str()), Some(exchange));
        assert_eq!(exchange.as_str().parse::<ExchangeId>(), Ok(exchange));
    }
    assert_eq!(ExchangeId::from_name("  OKX "), Some(ExchangeId::Okx));
    assert_eq!(ExchangeId::parse_name("Kraken"), Err("unsupported exchange: kraken".to_string()));
}

#[test]
fn perpetual_symbols_follow_each_exchange() {
    let btc = Instrument::perp("BTC", "USDT");
    assert_eq!(btc.symbol_for(ExchangeId::Binance), "BTCUSDT");
    assert_eq!(btc.symbol_for(ExchangeId::Okx), "BTC-USDT-SWAP");
    assert_eq!(btc.symbol_for(ExchangeId::Bitget), "BTCUSDT");
    assert_eq!(btc.symbol_for(ExchangeId::Bybit), "BTCUSDT");
    assert_eq!(btc.symbol_for(ExchangeId::Gate), "BTC_USDT");
    assert_eq!(btc.symbol_for(ExchangeId::Hyperliquid), "BTC");
    assert_eq!(Instrument::spot("purr", "usdc").symbol_for(ExchangeId::Hyperliquid), "PURR/USDC");
}

#[test]
fn seconds_survive_a_trip_through_milliseconds() {
    assert_eq!(seconds_to_millis(1_700_000_000), 1_700_000_000_000);
    assert_eq!(millis_to_seconds(seconds_to_millis(1_700_000_000)), 1_700_000_000);
    assert_eq!(millis_to_seconds(1_999), 1);
}

#[test]
fn exchange_symbols_read_back_as_their_perpetuals() {
    let eth = Instrument::perp("eth", "usdt");
    let okx = crypto_exc_all::okx::instrument_from_okx_symbol(&eth.symbol_for(ExchangeId::Okx));
    assert_eq!(okx, eth);
    let gate = crypto_exc_all::gate::gate_instrument_from_symbol(&eth.symbol_for(ExchangeId::Gate));
    assert_eq!(gate, eth);
}
