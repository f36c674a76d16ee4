//! Preparing the account settings of an instrument before orders are placed.
//!
//! The settings are applied one after another: the position mode, then the
//! order margin mode, then the leverage, each only when it was requested. The
//! caller performs each requested action against the exchange and hands the
//! answer back; the first failure ends the preparation with that error.
use crate::account::{
    EnsureOrderMarginModeRequest, EnsureOrderMarginModeResult, LeverageSetting,
    PositionModeSetting, PrepareOrderSettingsRequest, PrepareOrderSettingsResult,
    SetLeverageRequest, SetPositionModeRequest,
};
use crate::exchange::ExchangeId;
use crate::margin::{MarginMode, MarginModeView};
use crate::text::{copy_opt, copy_string, opt_view};
use vstd::prelude::*;

verus! {

/// The setting a preparation is about to apply.
#[derive(Debug, Clone, Copy, PartialEq, Eq, Structural)]
pub enum PreparationPhase {
    PositionMode,
    MarginMode,
    Leverage,
    Finished,
}

/// What the caller is asked to do next.
#[derive(Debug)]
pub enum PreparationAction {
    SetPositionMode(SetPositionModeRequest),
    EnsureMarginMode(EnsureOrderMarginModeRequest),
    SetLeverage(SetLeverageRequest),
    /// All requested settings were applied.
    Finish(PrepareOrderSettingsResult),
}

/// The exchange's answer to the last action.
#[derive(Debug)]
pub enum PreparationEvent {
    PositionModeSet(PositionModeSetting),
    MarginModeEnsured(EnsureOrderMarginModeResult),
    LeverageSet(LeverageSetting),
}

/// A preparation in progress.
#[derive(Debug)]
pub struct OrderSettingsPreparation {
    pub exchange: ExchangeId,
    pub request: PrepareOrderSettingsRequest,
    /// The setting whose action was handed out last.
    pub phase: PreparationPhase,
    pub position_mode: Option<PositionModeSetting>,
    pub margin_mode: Option<EnsureOrderMarginModeResult>,
    pub leverage: Option<LeverageSetting>,
}

pub open spec fn mode_view_of(mode: Option<MarginMode>) -> Option<MarginModeView> {
    match mode {
        Some(m) => Some(m.view_mode()),
        None => None,
    }
}

pub open spec fn phase_rank(phase: PreparationPhase) -> int {
    match phase {
        PreparationPhase::PositionMode => 0,
        PreparationPhase::MarginMode => 1,
        PreparationPhase::Leverage => 2,
        PreparationPhase::Finished => 3,
    }
}

/// The first requested setting at or after `from`, in the order position
/// mode, margin mode, leverage; `Finished` when none is left.
pub open spec fn pending_from(request: PrepareOrderSettingsRequest, from: PreparationPhase) -> PreparationPhase {
    if phase_rank(from) <= 0 && request.position_mode is Some {
        PreparationPhase::PositionMode
    } else if phase_rank(from) <= 1 && request.margin_mode is Some {
        PreparationPhase::MarginMode
    } else if phase_rank(from) <= 2 && request.leverage is Some {
        PreparationPhase::Leverage
    } else {
        PreparationPhase::Finished
    }
}

/// Each answer moves a preparation to a later phase, so one finishes after
/// at most three answers.
pub proof fn preparation_moves_forward(request: PrepareOrderSettingsRequest, phase: PreparationPhase)
    requires
        phase != PreparationPhase::Finished,
    ensures
        phase_rank(pending_from(request, after(phase))) > phase_rank(phase),
{
}

/// No requested setting is passed over: from any phase at or before a
/// requested setting, the next phase is at or before it.
pub proof fn preparation_skips_no_requested_setting(
    request: PrepareOrderSettingsRequest,
    from: PreparationPhase,
)
    ensures
        request.position_mode is Some && phase_rank(from) <= 0 ==> pending_from(request, from)
            == PreparationPhase::PositionMode,
        request.margin_mode is Some && phase_rank(from) <= 1 ==> phase_rank(pending_from(request, from))
            <= 1,
        request.leverage is Some && phase_rank(from) <= 2 ==> phase_rank(pending_from(request, from)) <= 2,
        pending_from(request, from) == PreparationPhase::Finished ==> (phase_rank(from) > 0
            || request.position_mode is None) && (phase_rank(from) > 1 || request.margin_mode is None)
            && (phase_rank(from) > 2 || request.leverage is None),
{
}

/// The phase that follows `phase`.
pub open spec fn after(phase: PreparationPhase) -> PreparationPhase {
    match phase {
        PreparationPhase::PositionMode => PreparationPhase::MarginMode,
        PreparationPhase::MarginMode => PreparationPhase::Leverage,
        _ => PreparationPhase::Finished,
    }
}

impl OrderSettingsPreparation {
    /// `action` is the one this preparation asks for in its phase.
    pub open spec fn asks(self, action: PreparationAction) -> bool {
        let request = self.request;
        match self.phase {
            PreparationPhase::PositionMode => action matches PreparationAction::SetPositionMode(r)
                && request.position_mode == Some(r.mode) && opt_view(r.product_type) == opt_view(
                request.product_type,
            ),
            PreparationPhase::MarginMode => action matches PreparationAction::EnsureMarginMode(r)
                && r.instrument.same_as(request.instrument) && mode_view_of(request.margin_mode)
                == Some(r.mode.view_mode()) && opt_view(r.product_type) == opt_view(
                request.product_type,
            ) && opt_view(r.margin_coin) == opt_view(request.margin_coin),
            PreparationPhase::Leverage => action matches PreparationAction::SetLeverage(r)
                && r.instrument.same_as(request.instrument) && request.leverage is Some
                && r.leverage@ == request.leverage->0@ && mode_view_of(r.margin_mode)
                == mode_view_of(request.margin_mode) && opt_view(r.margin_coin) == opt_view(
                request.margin_coin,
            ) && opt_view(r.position_side) == opt_view(request.position_side),
            PreparationPhase::Finished => false,
        }
    }

    /// Whether `event` answers the action of the current phase.
    pub open spec fn awaits(self, event: PreparationEvent) -> bool {
        match self.phase {
            PreparationPhase::PositionMode => event is PositionModeSet,
            PreparationPhase::MarginMode => event is MarginModeEnsured,
            PreparationPhase::Leverage => event is LeverageSet,
            PreparationPhase::Finished => false,
        }
    }

    /// `action` finishes the preparation with the settings gathered.
    pub open spec fn finishes(
        exchange: ExchangeId,
        request: PrepareOrderSettingsRequest,
        position_mode: Option<PositionModeSetting>,
        margin_mode: Option<EnsureOrderMarginModeResult>,
        leverage: Option<LeverageSetting>,
        action: PreparationAction,
    ) -> bool {
        action matches PreparationAction::Finish(result) && result.exchange == exchange
            && result.instrument.same_as(request.instrument) && result.exchange_symbol@
            == request.instrument.symbol_spec(exchange) && result.position_mode == position_mode
            && result.margin_mode == margin_mode && result.leverage == leverage
    }

    /// Hands out the action of the first requested setting at or after `from`.
    fn settle(
        exchange: ExchangeId,
        request: PrepareOrderSettingsRequest,
        from: PreparationPhase,
        position_mode: Option<PositionModeSetting>,
        margin_mode: Option<EnsureOrderMarginModeResult>,
        leverage: Option<LeverageSetting>,
    ) -> (r: (OrderSettingsPreparation, PreparationAction))
        ensures
            r.0.exchange == exchange,
            r.0.request == request,
            r.0.phase == pending_from(request, from),
            r.0.phase != PreparationPhase::Finished ==> {
                &&& r.0.position_mode == position_mode
                &&& r.0.margin_mode == margin_mode
                &&& r.0.leverage == leverage
                &&& r.0.asks(r.1)
            },
            r.0.phase == PreparationPhase::Finished ==> Self::finishes(
                exchange,
                request,
                position_mode,
                margin_mode,
                leverage,
                r.1,
            ),
    {
        let rank: u8 = match from {
            PreparationPhase::PositionMode => 0,
            PreparationPhase::MarginMode => 1,
            PreparationPhase::Leverage => 2,
            PreparationPhase::Finished => 3,
        };
        if rank == 0 {
            if let Some(mode) = request.position_mode {
                let action = PreparationAction::SetPositionMode(
                    SetPositionModeRequest { mode, product_type: copy_opt(&request.product_type) },
                );
                let state = OrderSettingsPreparation {
                    exchange,
                    request,
                    phase: PreparationPhase::PositionMode,
                    position_mode,
                    margin_mode,
                    leverage,
                };
                return (state, action);
            }
        }
        if rank <= 1 {
            let mode = match &request.margin_mode {
                Some(m) => Some(m.duplicate()),
                None => None,
            };
            if let Some(mode) = mode {
                let action = PreparationAction::EnsureMarginMode(
                    EnsureOrderMarginModeRequest {
                        instrument: request.instrument.duplicate(),
                        mode,
                        product_type: copy_opt(&request.product_type),
                        margin_coin: copy_opt(&request.margin_coin),
                    },
                );
                let state = OrderSettingsPreparation {
                    exchange,
                    request,
                    phase: PreparationPhase::MarginMode,
                    position_mode,
                    margin_mode,
                    leverage,
                };
                return (state, action);
            }
        }
        if rank <= 2 {
            let leverage_text = match &request.leverage {
                Some(l) => Some(copy_string(l)),
                None => None,
            };
            if let Some(leverage_text) = leverage_text {
                let mode = match &request.margin_mode {
                    Some(m) => Some(m.duplicate()),
                    None => None,
                };
                let action = PreparationAction::SetLeverage(
                    SetLeverageRequest {
                        instrument: request.instrument.duplicate(),
                        leverage: leverage_text,
                        margin_mode: mode,
                        margin_coin: copy_opt(&request.margin_coin),
                        position_side: copy_opt(&request.position_side),
                    },
                );
                let state = OrderSettingsPreparation {
                    exchange,
                    request,
                    phase: PreparationPhase::Leverage,
                    position_mode,
                    margin_mode,
                    leverage,
                };
                return (state, action);
            }
        }
        let instrument = request.instrument.duplicate();
        let exchange_symbol = instrument.symbol_for(exchange);
        let result = PrepareOrderSettingsResult {
            exchange,
            instrument,
            exchange_symbol,
            position_mode,
            margin_mode,
            leverage,
        };
        let state = OrderSettingsPreparation {
            exchange,
            request,
            phase: PreparationPhase::Finished,
            position_mode: None,
            margin_mode: None,
            leverage: None,
        };
        (state, PreparationAction::Finish(result))
    }

    /// Starts preparing `request` on `exchange`: the first requested setting's
    /// action, or the finished result when nothing was requested.
    pub fn start(exchange: ExchangeId, request: PrepareOrderSettingsRequest) -> (r: (
        OrderSettingsPreparation,
        PreparationAction,
    ))
        ensures
            r.0.exchange == exchange,
            r.0.request == request,
            r.0.phase == pending_from(request, PreparationPhase::PositionMode),
            r.0.phase != PreparationPhase::Finished ==> {
                &&& r.0.position_mode is None
                &&& r.0.margin_mode is None
                &&& r.0.leverage is None
                &&& r.0.asks(r.1)
            },
            r.0.phase == PreparationPhase::Finished ==> Self::finishes(
                exchange,
                request,
                None,
                None,
                None,
                r.1,
            ),
    {
        Self::settle(exchange, request, PreparationPhase::PositionMode, None, None, None)
    }

    /// Records the answer to the current action and hands out the next one.
    pub fn advance(self, event: PreparationEvent) -> (r: (OrderSettingsPreparation, PreparationAction))
        requires
            self.awaits(event),
        ensures
            r.0.exchange == self.exchange,
            r.0.request == self.request,
            r.0.phase == pending_from(self.request, after(self.phase)),
            ({
                let position_mode = match event {
                    PreparationEvent::PositionModeSet(s) => Some(s),
                    _ => self.position_mode,
                };
                let margin_mode = match event {
                    PreparationEvent::MarginModeEnsured(s) => Some(s),
                    _ => self.margin_mode,
                };
                let leverage = match event {
                    PreparationEvent::LeverageSet(s) => Some(s),
                    _ => self.leverage,
                };
                &&& r.0.phase != PreparationPhase::Finished ==> {
                    &&& r.0.position_mode == position_mode
                    &&& r.0.margin_mode == margin_mode
                    &&& r.0.leverage == leverage
                    &&& r.0.asks(r.1)
                }
                &&& r.0.phase == PreparationPhase::Finished ==> Self::finishes(
                    self.exchange,
                    self.request,
                    position_mode,
                    margin_mode,
                    leverage,
                    r.1,
                )
            }),
    {
        let OrderSettingsPreparation { exchange, request, phase, position_mode, margin_mode, leverage } =
            self;
        match event {
            PreparationEvent::PositionModeSet(s) => Self::settle(
                exchange,
                request,
                PreparationPhase::MarginMode,
                Some(s),
                margin_mode,
                leverage,
            ),
            PreparationEvent::MarginModeEnsured(s) => Self::settle(
                exchange,
                request,
                PreparationPhase::Leverage,
                position_mode,
                Some(s),
                leverage,
            ),
            PreparationEvent::LeverageSet(s) => Self::settle(
                exchange,
                request,
                PreparationPhase::Finished,
                position_mode,
                margin_mode,
                Some(s),
            ),
        }
    }
}

} // verus!
