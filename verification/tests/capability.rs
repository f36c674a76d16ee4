use crypto_exc_all::capability::{
    account_capabilities, is_supported, require_supported, trade_capabilities, Operation,
};
use crypto_exc_all::error::Error;
use crypto_exc_all::exchange::ExchangeId;

const ALL: [ExchangeId; 6] = [
    ExchangeId::Okx,
    ExchangeId::Binance,
    ExchangeId::Bitget,
    ExchangeId::Bybit,
    ExchangeId::Gate,
    ExchangeId::Hyperliquid,
];

#[test]
fn unsupported_operations_name_their_capability() {
    let err = require_supported(ExchangeId::Hyperliquid, Operation::PlaceOrder).unwrap_err();
    assert!(matches!(err, Error::Unsupported { exchange: ExchangeId::Hyperliquid, capability: "place order" }));
    let err = require_supported(ExchangeId::Gate, Operation::PlatformAnnouncements).unwrap_err();
    assert!(matches!(err, Error::Unsupported { capability: "platform announcements", .. }));
    assert!(require_supported(ExchangeId::Okx, Operation::PositionHistory).is_ok());
    assert!(require_supported(ExchangeId::Binance, Operation::PositionHistory).is_err());
    assert!(require_supported(ExchangeId::Bybit, Operation::OpenInterestHistory).is_ok());
}

#[test]
fn reported_capabilities_match_what_is_offered() {
    for exchange in ALL {
        let trade = trade_capabilities(exchange);
        assert_eq!(trade.protective_order, is_supported(exchange, Operation::ProtectiveOrder));
        let account = account_capabilities(exchange);
        assert_eq!(account.set_leverage, is_supported(exchange, Operation::SetLeverage));
        assert_eq!(account.set_position_mode, is_supported(exchange, Operation::SetPositionMode));
        assert_eq!(
            account.set_symbol_margin_mode,
            is_supported(exchange, Operation::SetSymbolMarginMode)
        );
    }
    assert!(trade_capabilities(ExchangeId::Okx).attached_stop_loss_on_place_order);
    assert!(trade_capabilities(ExchangeId::Bitget).attached_stop_loss_on_place_order);
    assert!(!trade_capabilities(ExchangeId::Gate).attached_stop_loss_on_place_order);
    assert!(account_capabilities(ExchangeId::Bitget).order_level_margin_mode);
    assert!(!account_capabilities(ExchangeId::Okx).set_symbol_margin_mode);
}

#[test]
fn adapters_word_some_refusals_their_own_way() {
    let err = require_supported(ExchangeId::Okx, Operation::SetSymbolMarginMode).unwrap_err();
    assert!(matches!(err, Error::Unsupported { exchange: ExchangeId::Okx, capability: "set_symbol_margin_mode" }));
    let err = require_supported(ExchangeId::Gate, Operation::LongShortRatio).unwrap_err();
    assert!(matches!(err, Error::Unsupported { capability: "long short ratio", .. }));
    let err = require_supported(ExchangeId::Bybit, Operation::Fills).unwrap_err();
    assert!(matches!(err, Error::Unsupported { exchange: ExchangeId::Bybit, capability: "fills" }));
    assert!(require_supported(ExchangeId::Bybit, Operation::LongShortRatio).is_ok());
    assert!(require_supported(ExchangeId::Hyperliquid, Operation::Balances).is_ok());
    assert!(require_supported(ExchangeId::Bitget, Operation::TopTraderPositionRatio).is_err());
}
