use crypto_exc_all::account::{
    EnsureOrderMarginModeResult, LeverageSetting, MarginModeApplyMethod, PositionMode,
    PositionModeSetting, PrepareOrderSettingsRequest,
};
use crypto_exc_all::exchange::ExchangeId;
use crypto_exc_all::instrument::Instrument;
use crypto_exc_all::json::JsonValue;
use crypto_exc_all::margin::MarginMode;
use crypto_exc_all::preparation::{
    OrderSettingsPreparation, PreparationAction, PreparationEvent, PreparationPhase,
};

#[test]
fn nothing_requested_finishes_at_once() {
    let request = PrepareOrderSettingsRequest::new(Instrument::perp("ETH", "USDT"));
    let (state, action) = OrderSettingsPreparation::start(ExchangeId::Okx, request);
    assert_eq!(state.phase, PreparationPhase::Finished);
    match action {
        PreparationAction::Finish(result) => {
            assert_eq!(result.exchange_symbol, "ETH-USDT-SWAP");
            assert!(result.position_mode.is_none());
            assert!(result.margin_mode.is_none());
            assert!(result.leverage.is_none());
        }
        other => panic!("unexpected action {other:?}"),
    }
}

#[test]
fn settings_are_applied_in_order_and_collected() {
    let instrument = Instrument::perp("ETH", "USDT");
    let request = PrepareOrderSettingsRequest::new(instrument.clone())
        .with_position_mode(PositionMode::Hedge)
        .with_margin_mode("isolated")
        .with_leverage("5")
        .with_position_side("long");
    let (state, action) = OrderSettingsPreparation::start(ExchangeId::Binance, request);
    match &action {
        PreparationAction::SetPositionMode(r) => assert_eq!(r.mode, PositionMode::Hedge),
        other => panic!("unexpected action {other:?}"),
    }
    let (state, action) = state.advance(PreparationEvent::PositionModeSet(PositionModeSetting {
        exchange: ExchangeId::Binance,
        mode: PositionMode::Hedge,
        raw_mode: None,
        product_type: None,
        raw: JsonValue::Null,
    }));
    match &action {
        PreparationAction::EnsureMarginMode(r) => assert_eq!(r.mode, MarginMode::Isolated),
        other => panic!("unexpected action {other:?}"),
    }
    let (state, action) = state.advance(PreparationEvent::MarginModeEnsured(EnsureOrderMarginModeResult {
        exchange: ExchangeId::Binance,
        instrument: instrument.clone(),
        exchange_symbol: "ETHUSDT".to_string(),
        mode: MarginMode::Isolated,
        apply_method: MarginModeApplyMethod::SymbolConfiguration,
        raw_mode: None,
        product_type: None,
        margin_coin: None,
        raw: JsonValue::Null,
    }));
    match &action {
        PreparationAction::SetLeverage(r) => {
            assert_eq!(r.leverage, "5");
            assert_eq!(r.margin_mode, Some(MarginMode::Isolated));
            assert_eq!(r.position_side.as_deref(), Some("long"));
        }
        other => panic!("unexpected action {other:?}"),
    }
    let (state, action) = state.advance(PreparationEvent::LeverageSet(LeverageSetting {
        exchange: ExchangeId::Binance,
        instrument: instrument.clone(),
        exchange_symbol: "ETHUSDT".to_string(),
        leverage: "5".to_string(),
        margin_mode: None,
        margin_coin: None,
        position_side: None,
        raw: JsonValue::Null,
    }));
    assert_eq!(state.phase, PreparationPhase::Finished);
    match action {
        PreparationAction::Finish(result) => {
            assert_eq!(result.exchange_symbol, "ETHUSDT");
            assert_eq!(result.position_mode.unwrap().mode, PositionMode::Hedge);
            assert_eq!(result.margin_mode.unwrap().mode, MarginMode::Isolated);
            assert_eq!(result.leverage.unwrap().leverage, "5");
        }
        other => panic!("unexpected action {other:?}"),
    }
}

#[test]
fn leverage_alone_skips_the_other_steps() {
    let request = PrepareOrderSettingsRequest::new(Instrument::perp("BTC", "USDT")).with_leverage("3");
    let (state, action) = OrderSettingsPreparation::start(ExchangeId::Bitget, request);
    assert_eq!(state.phase, PreparationPhase::Leverage);
    assert!(matches!(action, PreparationAction::SetLeverage(_)));
}
