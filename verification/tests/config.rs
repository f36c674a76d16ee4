use crypto_exc_all::config::{parse_boolish, SdkConfig};
use crypto_exc_all::exchange::ExchangeId;

#[test]
fn reads_configured_exchanges_from_lookup() {
    let config = SdkConfig::from_lookup(|key| match key {
        "OKX_API_KEY" => Some("okx-key".to_string()),
        "OKX_API_SECRET" => Some("okx-secret".to_string()),
        "OKX_PASSPHRASE" => Some("okx-pass".to_string()),
        "BINANCE_API_KEY" => Some("binance-key".to_string()),
        "BINANCE_API_SECRET" => Some("binance-secret".to_string()),
        "BINANCE_PROXY_URL" => Some("socks5h://127.0.0.1:7897".to_string()),
        "BITGET_API_KEY" => Some("bitget-key".to_string()),
        "BITGET_API_SECRET" => Some("bitget-secret".to_string()),
        "bitget_PASSPHRASE" => Some("bitget-pass".to_string()),
        "BITGET_PRODUCT_TYPE" => Some("USDT-FUTURES".to_string()),
        "BYBIT_API_KEY" => Some("bybit-key".to_string()),
        "BYBIT_API_SECRET" => Some("bybit-secret".to_string()),
        "BYBIT_CATEGORY" => Some("linear".to_string()),
        "GATE_API_KEY" => Some("gate-key".to_string()),
        "GATE_API_SECRET" => Some("gate-secret".to_string()),
        "GATE_SETTLE" => Some("usdt".to_string()),
        _ => None,
    });

    assert_eq!(
        config.configured_exchanges(),
        vec![
            ExchangeId::Okx,
            ExchangeId::Binance,
            ExchangeId::Bitget,
            ExchangeId::Bybit,
            ExchangeId::Gate
        ]
    );
    assert_eq!(
        config.binance.unwrap().proxy_url.as_deref(),
        Some("socks5h://127.0.0.1:7897")
    );
    let bitget = config.bitget.unwrap();
    assert_eq!(bitget.passphrase, "bitget-pass");
    assert_eq!(bitget.product_type.as_deref(), Some("USDT-FUTURES"));
    assert_eq!(bitget.proxy_url, None);
    assert_eq!(config.bybit.unwrap().category.as_deref(), Some("linear"));
    assert_eq!(config.gate.unwrap().settle.as_deref(), Some("usdt"));
}

#[test]
fn reads_okx_simulated_credentials_when_real_key_is_absent() {
    let config = SdkConfig::from_lookup(|key| match key {
        "OKX_SIMULATED_API_KEY" => Some("sim-key".to_string()),
        "OKX_SIMULATED_API_SECRET" => Some("sim-secret".to_string()),
        "OKX_SIMULATED_PASSPHRASE" => Some("sim-pass".to_string()),
        _ => None,
    });

    let okx = config.okx.unwrap();
    assert_eq!(okx.api_key, "sim-key");
    assert!(okx.simulated);
}

#[test]
fn live_okx_credentials_win_over_simulated_ones() {
    let config = SdkConfig::from_lookup(|key| match key {
        "OKX_API_KEY" => Some("live-key".to_string()),
        "OKX_API_SECRET" => Some("live-secret".to_string()),
        "OKX_PASSPHRASE" => Some("live-pass".to_string()),
        "OKX_SIMULATED_API_KEY" => Some("sim-key".to_string()),
        "OKX_SIMULATED_TRADING" => Some(" Yes ".to_string()),
        "OKX_REQUEST_EXPIRATION_MS" => Some("-1500".to_string()),
        _ => None,
    });
    let okx = config.okx.unwrap();
    assert_eq!(okx.api_key, "live-key");
    assert!(okx.simulated);
    assert_eq!(okx.request_expiration_ms, Some(-1500));
}

#[test]
fn hyperliquid_is_configured_only_when_enabled_or_addressed() {
    let none = SdkConfig::from_lookup(|_| None);
    assert!(none.configured_exchanges().is_empty());
    assert_eq!(none.hyperliquid, None);

    let enabled = SdkConfig::from_lookup(|key| match key {
        "hyperliquid_enabled" => Some("on".to_string()),
        "HYPERLIQUID_API_TIMEOUT_MS" => Some("2500".to_string()),
        _ => None,
    });
    assert_eq!(enabled.configured_exchanges(), vec![ExchangeId::Hyperliquid]);
    assert_eq!(enabled.hyperliquid.unwrap().api_timeout_ms, Some(2500));

    let disabled = SdkConfig::from_lookup(|key| match key {
        "HYPERLIQUID_ENABLED" => Some("0".to_string()),
        _ => None,
    });
    assert_eq!(disabled.hyperliquid, None);
}

#[test]
fn upper_case_setting_names_win_and_bad_numbers_are_dropped() {
    let config = SdkConfig::from_lookup(|key| match key {
        "BINANCE_API_KEY" => Some("upper".to_string()),
        "binance_api_key" => Some("lower".to_string()),
        "binance_api_secret" => Some("secret".to_string()),
        "BINANCE_RECV_WINDOW_MS" => Some("abc".to_string()),
        "binance_api_timeout_ms" => Some("+7".to_string()),
        _ => None,
    });
    let binance = config.binance.unwrap();
    assert_eq!(binance.api_key, "upper");
    assert_eq!(binance.api_secret, "secret");
    assert_eq!(binance.recv_window_ms, None);
    assert_eq!(binance.api_timeout_ms, Some(7));
}

#[test]
fn flag_values_are_read_loosely() {
    assert!(parse_boolish(" TRUE "));
    assert!(parse_boolish("y"));
    assert!(!parse_boolish("no"));
    assert!(!parse_boolish(""));
}
