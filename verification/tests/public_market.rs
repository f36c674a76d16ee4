use crypto_exc_all::public_market::{
    validate_query, OkxCandleRow, OkxPublicCandle, OkxPublicCandleQuery,
    OKX_MAX_CANDLE_PAGE_SIZE,
};

#[test]
fn oversized_page_is_rejected_before_network_io() {
    let query = OkxPublicCandleQuery::new("BTC-USDT-SWAP", "1m").with_limit(301);

    let error = validate_query(&query).expect_err("oversized page must fail");

    assert!(error.to_text().contains("超过上限 300"));
}

#[test]
fn candle_query_limits_and_instrument_ids_are_checked() {
    assert_eq!(OKX_MAX_CANDLE_PAGE_SIZE, 300);
    assert!(validate_query(&OkxPublicCandleQuery::new("BTC-USDT-SWAP", "1m").with_limit(300)).is_ok());
    assert!(validate_query(&OkxPublicCandleQuery::new("BTC-USDT-SWAP", "1m")).is_ok());
    let zero = validate_query(&OkxPublicCandleQuery::new("BTC-USDT-SWAP", "1m").with_limit(0))
        .expect_err("zero page");
    assert!(zero.to_text().contains("必须大于零"));
    let blank = validate_query(&OkxPublicCandleQuery::new("BTC USDT", "1m")).expect_err("space");
    assert!(blank.to_text().contains("instId"));
    assert!(validate_query(&OkxPublicCandleQuery::new("", "1m")).is_err());
    let oversized = validate_query(&OkxPublicCandleQuery::new("ETH-USDT", "1H").with_limit(1000))
        .expect_err("oversized");
    assert!(oversized.to_text().contains("OKX candle limit 1000 超过上限 300"));
}

#[test]
fn candle_rows_keep_every_field() {
    let candle = OkxPublicCandle::from_row(OkxCandleRow {
        ts: "1".to_string(),
        o: "2".to_string(),
        h: "3".to_string(),
        l: "4".to_string(),
        c: "5".to_string(),
        v: "6".to_string(),
        vol_ccy: "7".to_string(),
        vol_ccy_quote: "8".to_string(),
        confirm: "1".to_string(),
    });
    assert_eq!(candle.timestamp, "1");
    assert_eq!(candle.quote_volume, "8");
    assert_eq!(candle.volume_currency, "7");
}
