//! Which operations each exchange offers, and the capabilities it reports.
use crate::account::AccountCapabilities;
use crate::error::Error;
use crate::exchange::ExchangeId;
use crate::trade::{PlaceOrderRequest, TradeCapabilities};
use vstd::prelude::*;

verus! {

/// An operation that not every exchange offers.
#[derive(Debug, Clone, Copy, PartialEq, Eq, Structural)]
pub enum Operation {
    PrivateAccountStream,
    SourcedBalances,
    MarginSummary,
    AccountIdentity,
    AccountOrderPermission,
    AccountOrderPermissionWithIdentity,
    SetLeverage,
    LeverageInfo,
    SetPositionMode,
    SetSymbolMarginMode,
    EnsureOrderMarginMode,
    MaxOrderSize,
    SourcedPositions,
    PositionHistory,
    PlaceOrder,
    ProtectiveOrder,
    CancelOrder,
    ProtectiveOrderCancellation,
    ProtectiveOrderDetail,
    PlatformSystemStatus,
    PlatformAnnouncements,
    OpenInterestHistory,
    LongShortRatio,
    TopTraderPositionRatio,
    TakerBuySellVolume,
    Balances,
    OpenOrders,
    OrderHistory,
    Fills,
}

impl Operation {
    /// The capability named in the `Unsupported` error of this operation.
    pub open spec fn capability_spec(self) -> &'static str {
        match self {
            Operation::PrivateAccountStream => "private_account_stream",
            Operation::SourcedBalances => "sourced account balances",
            Operation::MarginSummary => "account margin summary",
            Operation::AccountIdentity => "account identity",
            Operation::AccountOrderPermission => "account order permission",
            Operation::AccountOrderPermissionWithIdentity => "account order permission with identity",
            Operation::SetLeverage => "set leverage",
            Operation::LeverageInfo => "read leverage info",
            Operation::SetPositionMode => "set position mode",
            Operation::SetSymbolMarginMode => "set symbol margin mode",
            Operation::EnsureOrderMarginMode => "ensure order margin mode",
            Operation::MaxOrderSize => "account max order size",
            Operation::SourcedPositions => "sourced account positions",
            Operation::PositionHistory => "position history",
            Operation::PlaceOrder => "place order",
            Operation::ProtectiveOrder => "protective order",
            Operation::CancelOrder => "cancel order",
            Operation::ProtectiveOrderCancellation => "protective order cancellation",
            Operation::ProtectiveOrderDetail => "protective order detail",
            Operation::PlatformSystemStatus => "platform system status",
            Operation::PlatformAnnouncements => "platform announcements",
            Operation::OpenInterestHistory => "open interest history",
            Operation::LongShortRatio => "long-short ratio",
            Operation::TopTraderPositionRatio => "top trader position ratio",
            Operation::TakerBuySellVolume => "taker buy-sell volume",
            Operation::Balances => "balances",
            Operation::OpenOrders => "open orders",
            Operation::OrderHistory => "order history",
            Operation::Fills => "fills",
        }
    }

    /// The capability named in the `Unsupported` error of this operation.
    pub fn capability(self) -> (r: &'static str)
        ensures
            r == self.capability_spec(),
    {
        match self {
            Operation::PrivateAccountStream => "private_account_stream",
            Operation::SourcedBalances => "sourced account balances",
            Operation::MarginSummary => "account margin summary",
            Operation::AccountIdentity => "account identity",
            Operation::AccountOrderPermission => "account order permission",
            Operation::AccountOrderPermissionWithIdentity => "account order permission with identity",
            Operation::SetLeverage => "set leverage",
            Operation::LeverageInfo => "read leverage info",
            Operation::SetPositionMode => "set position mode",
            Operation::SetSymbolMarginMode => "set symbol margin mode",
            Operation::EnsureOrderMarginMode => "ensure order margin mode",
            Operation::MaxOrderSize => "account max order size",
            Operation::SourcedPositions => "sourced account positions",
            Operation::PositionHistory => "position history",
            Operation::PlaceOrder => "place order",
            Operation::ProtectiveOrder => "protective order",
            Operation::CancelOrder => "cancel order",
            Operation::ProtectiveOrderCancellation => "protective order cancellation",
            Operation::ProtectiveOrderDetail => "protective order detail",
            Operation::PlatformSystemStatus => "platform system status",
            Operation::PlatformAnnouncements => "platform announcements",
            Operation::OpenInterestHistory => "open interest history",
            Operation::LongShortRatio => "long-short ratio",
            Operation::TopTraderPositionRatio => "top trader position ratio",
            Operation::TakerBuySellVolume => "taker buy-sell volume",
            Operation::Balances => "balances",
            Operation::OpenOrders => "open orders",
            Operation::OrderHistory => "order history",
            Operation::Fills => "fills",
        }
    }
}

/// Whether `exchange` offers `op`: whether a call of it reaches the exchange
/// rather than being answered `Unsupported`.
pub open spec fn supports(exchange: ExchangeId, op: Operation) -> bool {
    match op {
        Operation::PrivateAccountStream
        | Operation::SourcedBalances
        | Operation::MarginSummary
        | Operation::AccountIdentity
        | Operation::AccountOrderPermission
        | Operation::AccountOrderPermissionWithIdentity
        | Operation::LeverageInfo
        | Operation::SourcedPositions
        | Operation::ProtectiveOrderCancellation
        | Operation::TopTraderPositionRatio => exchange == ExchangeId::Okx || exchange
            == ExchangeId::Binance,
        Operation::MaxOrderSize | Operation::PositionHistory => exchange == ExchangeId::Okx,
        Operation::ProtectiveOrder => exchange == ExchangeId::Binance,
        Operation::OpenInterestHistory => exchange == ExchangeId::Binance || exchange
            == ExchangeId::Bybit,
        Operation::PlatformSystemStatus | Operation::PlatformAnnouncements => exchange
            != ExchangeId::Gate && exchange != ExchangeId::Hyperliquid,
        Operation::SetLeverage
        | Operation::SetPositionMode
        | Operation::EnsureOrderMarginMode
        | Operation::TakerBuySellVolume => exchange == ExchangeId::Okx || exchange
            == ExchangeId::Binance || exchange == ExchangeId::Bitget,
        Operation::SetSymbolMarginMode => exchange == ExchangeId::Binance || exchange
            == ExchangeId::Bitget,
        Operation::LongShortRatio => exchange != ExchangeId::Gate && exchange
            != ExchangeId::Hyperliquid,
        Operation::Balances
        | Operation::OpenOrders
        | Operation::OrderHistory
        | Operation::Fills => exchange != ExchangeId::Bybit && exchange != ExchangeId::Gate,
        Operation::PlaceOrder
        | Operation::CancelOrder
        | Operation::ProtectiveOrderDetail => exchange != ExchangeId::Hyperliquid,
    }
}

/// Whether `exchange` offers `op`.
pub fn is_supported(exchange: ExchangeId, op: Operation) -> (r: bool)
    ensures
        r == supports(exchange, op),
{
    match op {
        Operation::PrivateAccountStream
        | Operation::SourcedBalances
        | Operation::MarginSummary
        | Operation::AccountIdentity
        | Operation::AccountOrderPermission
        | Operation::AccountOrderPermissionWithIdentity
        | Operation::LeverageInfo
        | Operation::SourcedPositions
        | Operation::ProtectiveOrderCancellation
        | Operation::TopTraderPositionRatio => match exchange {
            ExchangeId::Okx | ExchangeId::Binance => true,
            _ => false,
        },
        Operation::MaxOrderSize | Operation::PositionHistory => match exchange {
            ExchangeId::Okx => true,
            _ => false,
        },
        Operation::ProtectiveOrder => match exchange {
            ExchangeId::Binance => true,
            _ => false,
        },
        Operation::OpenInterestHistory => match exchange {
            ExchangeId::Binance | ExchangeId::Bybit => true,
            _ => false,
        },
        Operation::PlatformSystemStatus | Operation::PlatformAnnouncements => match exchange {
            ExchangeId::Gate | ExchangeId::Hyperliquid => false,
            _ => true,
        },
        Operation::SetLeverage
        | Operation::SetPositionMode
        | Operation::EnsureOrderMarginMode
        | Operation::TakerBuySellVolume => match exchange {
            ExchangeId::Okx | ExchangeId::Binance | ExchangeId::Bitget => true,
            _ => false,
        },
        Operation::SetSymbolMarginMode => match exchange {
            ExchangeId::Binance | ExchangeId::Bitget => true,
            _ => false,
        },
        Operation::LongShortRatio => match exchange {
            ExchangeId::Gate | ExchangeId::Hyperliquid => false,
            _ => true,
        },
        Operation::Balances
        | Operation::OpenOrders
        | Operation::OrderHistory
        | Operation::Fills => match exchange {
            ExchangeId::Bybit | ExchangeId::Gate => false,
            _ => true,
        },
        Operation::PlaceOrder
        | Operation::CancelOrder
        | Operation::ProtectiveOrderDetail => match exchange {
            ExchangeId::Hyperliquid => false,
            _ => true,
        },
    }
}

/// The capability that the `Unsupported` answer of `exchange` to `op` names:
/// the operation's own name, but for the few answers that an exchange words
/// in its own way.
pub open spec fn refusal_capability_spec(exchange: ExchangeId, op: Operation) -> &'static str {
    match (exchange, op) {
        (ExchangeId::Okx, Operation::SetSymbolMarginMode) => "set_symbol_margin_mode",
        (ExchangeId::Bybit, Operation::TakerBuySellVolume) => "taker buy sell volume",
        (ExchangeId::Gate, Operation::TakerBuySellVolume) => "taker buy sell volume",
        (ExchangeId::Gate, Operation::LongShortRatio) => "long short ratio",
        _ => op.capability_spec(),
    }
}

/// The capability that the `Unsupported` answer of `exchange` to `op` names.
pub fn refusal_capability(exchange: ExchangeId, op: Operation) -> (r: &'static str)
    ensures
        r == refusal_capability_spec(exchange, op),
{
    match (exchange, op) {
        (ExchangeId::Okx, Operation::SetSymbolMarginMode) => "set_symbol_margin_mode",
        (ExchangeId::Bybit, Operation::TakerBuySellVolume) => "taker buy sell volume",
        (ExchangeId::Gate, Operation::TakerBuySellVolume) => "taker buy sell volume",
        (ExchangeId::Gate, Operation::LongShortRatio) => "long short ratio",
        _ => op.capability(),
    }
}

/// `Ok` when `exchange` offers `op`, else the `Unsupported` error that names
/// the exchange and the capability it refuses.
pub fn require_supported(exchange: ExchangeId, op: Operation) -> (r: Result<(), Error>)
    ensures
        r is Ok <==> supports(exchange, op),
        r matches Err(e) ==> e.is_unsupported(exchange, refusal_capability_spec(exchange, op)@),
{
    if is_supported(exchange, op) {
        Ok(())
    } else {
        Err(Error::Unsupported { exchange, capability: refusal_capability(exchange, op) })
    }
}

/// The account capabilities each exchange reports.
pub open spec fn account_capabilities_spec(exchange: ExchangeId) -> AccountCapabilities {
    match exchange {
        ExchangeId::Okx => AccountCapabilities {
            set_leverage: true,
            set_position_mode: true,
            set_symbol_margin_mode: false,
            order_level_margin_mode: true,
        },
        ExchangeId::Binance => AccountCapabilities {
            set_leverage: true,
            set_position_mode: true,
            set_symbol_margin_mode: true,
            order_level_margin_mode: false,
        },
        ExchangeId::Bitget => AccountCapabilities {
            set_leverage: true,
            set_position_mode: true,
            set_symbol_margin_mode: true,
            order_level_margin_mode: true,
        },
        _ => AccountCapabilities {
            set_leverage: false,
            set_position_mode: false,
            set_symbol_margin_mode: false,
            order_level_margin_mode: false,
        },
    }
}

/// The account capabilities `exchange` reports.
pub fn account_capabilities(exchange: ExchangeId) -> (r: AccountCapabilities)
    ensures
        r == account_capabilities_spec(exchange),
{
    match exchange {
        ExchangeId::Okx => AccountCapabilities {
            set_leverage: true,
            set_position_mode: true,
            set_symbol_margin_mode: false,
            order_level_margin_mode: true,
        },
        ExchangeId::Binance => AccountCapabilities {
            set_leverage: true,
            set_position_mode: true,
            set_symbol_margin_mode: true,
            order_level_margin_mode: false,
        },
        ExchangeId::Bitget => AccountCapabilities {
            set_leverage: true,
            set_position_mode: true,
            set_symbol_margin_mode: true,
            order_level_margin_mode: true,
        },
        _ => AccountCapabilities {
            set_leverage: false,
            set_position_mode: false,
            set_symbol_margin_mode: false,
            order_level_margin_mode: false,
        },
    }
}

/// The trade capabilities each exchange reports: OKX and Bitget attach a
/// stop loss to a new order, Binance places separate protective orders.
pub open spec fn trade_capabilities_spec(exchange: ExchangeId) -> TradeCapabilities {
    TradeCapabilities {
        attached_stop_loss_on_place_order: exchange == ExchangeId::Okx || exchange
            == ExchangeId::Bitget,
        protective_order: exchange == ExchangeId::Binance,
    }
}

/// The trade capabilities `exchange` reports.
pub fn trade_capabilities(exchange: ExchangeId) -> (r: TradeCapabilities)
    ensures
        r == trade_capabilities_spec(exchange),
{
    match exchange {
        ExchangeId::Okx | ExchangeId::Bitget => TradeCapabilities {
            attached_stop_loss_on_place_order: true,
            protective_order: false,
        },
        ExchangeId::Binance => TradeCapabilities {
            attached_stop_loss_on_place_order: false,
            protective_order: true,
        },
        _ => TradeCapabilities { attached_stop_loss_on_place_order: false, protective_order: false },
    }
}

/// An exchange that reports protective orders offers them, and one that does
/// not answers a protective order with `Unsupported`.
pub proof fn protective_order_capability_is_honest(exchange: ExchangeId)
    ensures
        trade_capabilities_spec(exchange).protective_order <==> supports(
            exchange,
            Operation::ProtectiveOrder,
        ),
{
}

/// An exchange reports an account setting as settable exactly when it offers
/// it: one that reports it as not settable answers it with `Unsupported`.
pub proof fn account_capabilities_are_honest(exchange: ExchangeId)
    ensures
        account_capabilities_spec(exchange).set_leverage <==> supports(
            exchange,
            Operation::SetLeverage,
        ),
        account_capabilities_spec(exchange).set_position_mode <==> supports(
            exchange,
            Operation::SetPositionMode,
        ),
        account_capabilities_spec(exchange).set_symbol_margin_mode <==> supports(
            exchange,
            Operation::SetSymbolMarginMode,
        ),
{
}

/// The first field of an order request that an exchange taking no margin
/// mode, margin coin, position side or trade side with an order would have
/// to drop, named as the capability it refuses.
pub open spec fn unmapped_order_field(request: PlaceOrderRequest) -> Option<Seq<char>> {
    if request.margin_mode is Some {
        Some("margin mode on place_order"@)
    } else if request.margin_coin is Some {
        Some("margin coin on place_order"@)
    } else if request.position_side is Some {
        Some("position side on place_order"@)
    } else if request.trade_side is Some {
        Some("trade side on place_order"@)
    } else {
        None
    }
}

/// Refuses, as unsupported on `exchange`, an order request carrying a
/// field that exchange's order cannot express (see `unmapped_order_field`),
/// rather than sending the order without it.
pub fn refuse_unmapped_order_fields(exchange: ExchangeId, request: &PlaceOrderRequest) -> (r: Result<(), Error>)
    ensures
        match unmapped_order_field(*request) {
            Some(c) => r matches Err(e) && e.is_unsupported(exchange, c),
            None => r is Ok,
        },
{
    if request.margin_mode.is_some() {
        return Err(Error::Unsupported { exchange, capability: "margin mode on place_order" });
    }
    if request.margin_coin.is_some() {
        return Err(Error::Unsupported { exchange, capability: "margin coin on place_order" });
    }
    if request.position_side.is_some() {
        return Err(Error::Unsupported { exchange, capability: "position side on place_order" });
    }
    if request.trade_side.is_some() {
        return Err(Error::Unsupported { exchange, capability: "trade side on place_order" });
    }
    Ok(())
}

} // verus!
