use crypto_exc_all::error::{binance_stream_error, okx_stream_error, Error};
use crypto_exc_all::exchange::ExchangeId;

#[test]
fn maps_okx_receive_error_to_safe_private_stream_phase() {
    let error = okx_stream_error("connection_reset", "WebSocket error: connection_reset".to_owned());

    assert!(matches!(
        error,
        Error::PrivateStreamLifecycle {
            exchange: ExchangeId::Okx,
            phase: "receive_connection_reset"
        }
    ));
}

#[test]
fn maps_binance_receive_error_to_safe_private_stream_phase() {
    let error = binance_stream_error("connection_reset");

    assert!(matches!(
        error,
        Error::PrivateStreamLifecycle {
            exchange: ExchangeId::Binance,
            phase: "receive_connection_reset"
        }
    ));
}

#[test]
fn unknown_stream_failures_stay_distinct() {
    let okx = okx_stream_error("handshake", "handshake failed".to_owned());
    assert!(matches!(okx, Error::Adapter { exchange: ExchangeId::Okx, ref message } if message == "handshake failed"));
    let binance = binance_stream_error("handshake");
    assert!(matches!(
        binance,
        Error::PrivateStreamLifecycle { exchange: ExchangeId::Binance, phase: "receive_other" }
    ));
}

#[test]
fn error_texts_name_the_exchange() {
    let error = Error::Unsupported { exchange: ExchangeId::Gate, capability: "position history" };
    assert!(error.to_text().contains("gate"));
    assert!(error.to_text().contains("position history"));
    let api = Error::Api {
        exchange: ExchangeId::Okx,
        status: Some(200),
        code: "51000".to_string(),
        message: "bad".to_string(),
    };
    assert!(api.to_text().contains("51000"));
    assert!(api.to_text().contains("Some(200)"));
}
