use crypto_exc_all::error::Error;
use crypto_exc_all::exchange::ExchangeId;
use crypto_exc_all::failure::{error_from_binance, error_from_okx, error_from_okx_mutation, BinanceFailure, OkxFailure};

#[test]
fn okx_rejections_keep_code_and_sub_message() {
    let api = OkxFailure::Api { code: "51008".to_owned(), message: "Order failed".to_owned(), smg: String::new() };
    assert!(matches!(
        error_from_okx(api.clone()),
        Error::Api { exchange: ExchangeId::Okx, status: None, ref code, ref message } if code == "51008" && message == "Order failed"
    ));
    assert!(matches!(error_from_okx_mutation(api), Error::Api { status: Some(200), .. }));
    let transport = OkxFailure::Api { code: "1".to_owned(), message: "busy".to_owned(), smg: String::new() };
    assert!(matches!(error_from_okx_mutation(transport), Error::Api { status: None, .. }));
    let with_detail = OkxFailure::Api { code: "1".to_owned(), message: "m".to_owned(), smg: "detail".to_owned() };
    assert!(matches!(
        error_from_okx_mutation(with_detail),
        Error::Api { status: Some(200), ref message, .. } if message == "m: detail"
    ));
    let unknown = OkxFailure::WebSocket { category: "weird".to_owned(), text: "ws weird".to_owned() };
    assert!(matches!(error_from_okx(unknown), Error::Adapter { ref message, .. } if message == "ws weird"));
    assert!(matches!(error_from_okx(OkxFailure::Config("bad key".to_owned())), Error::Config(ref m) if m == "bad key"));
}

#[test]
fn binance_failures_keep_status_and_credentials() {
    let api = BinanceFailure::Api { status: Some(400), code: "-2019".to_owned(), message: "Margin is insufficient.".to_owned() };
    assert!(matches!(
        error_from_binance(api),
        Error::Api { exchange: ExchangeId::Binance, status: Some(400), ref code, .. } if code == "-2019"
    ));
    assert!(matches!(error_from_binance(BinanceFailure::MissingCredentials), Error::MissingCredentials(ExchangeId::Binance)));
    assert!(matches!(
        error_from_binance(BinanceFailure::WebSocketReceive { category: "odd".to_owned() }),
        Error::PrivateStreamLifecycle { phase: "receive_other", .. }
    ));
}
