use crypto_exc_all::okx::{
    non_empty, okx_account_mode, okx_candle_interval, okx_parent_account_id, parse_u64_string,
};

#[test]
fn okx_shared_helpers_preserve_empty_value_contract() {
    assert_eq!(non_empty(String::new()), None);
    assert_eq!(
        non_empty("BTC-USDT".to_string()),
        Some("BTC-USDT".to_string())
    );
    assert_eq!(parse_u64_string(""), None);
    assert_eq!(parse_u64_string("1710000000000"), Some(1_710_000_000_000));
    assert_eq!(parse_u64_string("bad"), None);
}

#[test]
fn okx_account_level_uses_current_official_mode_names() {
    assert_eq!(okx_account_mode("1"), Some("spot"));
    assert_eq!(okx_account_mode("2"), Some("futures"));
    assert_eq!(okx_account_mode("3"), Some("multi_currency_margin"));
    assert_eq!(okx_account_mode("4"), Some("portfolio_margin"));
    assert_eq!(okx_account_mode("5"), None);
}

#[test]
fn okx_main_account_does_not_report_itself_as_parent() {
    assert_eq!(okx_parent_account_id("100", Some("100".to_owned())), None);
    assert_eq!(
        okx_parent_account_id("101", Some("100".to_owned())),
        Some("100".to_owned())
    );
}

#[test]
fn okx_candle_interval_uses_okx_bar_case() {
    assert_eq!(okx_candle_interval("4h"), "4H");
    assert_eq!(okx_candle_interval("1h"), "1H");
    assert_eq!(okx_candle_interval("1d"), "1D");
    assert_eq!(okx_candle_interval("1Dutc"), "1Dutc");
    assert_eq!(okx_candle_interval("1m"), "1m");
}
