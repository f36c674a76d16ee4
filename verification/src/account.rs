//! Account balances, bills, leverage and margin settings.
use crate::exchange::ExchangeId;
use crate::instrument::Instrument;
use crate::json::JsonValue;
use crate::margin::{IntoMarginMode, MarginMode};
use crate::text::{opt_view, IntoText};
use vstd::prelude::*;

verus! {

/// One asset balance of an account.
#[derive(Debug, Clone, PartialEq)]
pub struct Balance {
    pub exchange: ExchangeId,
    pub asset: String,
    pub total: String,
    pub available: String,
    pub frozen: Option<String>,
    pub raw: JsonValue,
}

/// A balance with the time the exchange last updated it.
#[derive(Debug, Clone, PartialEq)]
pub struct SourcedBalance {
    /// The balance itself.
    pub balance: Balance,
    /// The exchange's update time of the balance (Unix milliseconds).
    pub source_updated_at_ms: u64,
}

/// Margin figures of one quote currency, all from one signed account read.
#[derive(Debug, Clone, PartialEq, Eq)]
pub struct AccountMarginSummary {
    pub exchange: ExchangeId,
    /// The currency every amount is given in.
    pub quote_currency: String,
    /// Account equity including unrealised PnL.
    pub account_equity: String,
    /// Margin the exchange reports as available.
    pub available_margin: String,
    /// Total initial margin, when the exchange reports it.
    pub initial_margin: Option<String>,
    /// Initial margin held by positions, when reported.
    pub position_initial_margin: Option<String>,
    /// Initial margin held by open orders, when reported.
    pub open_order_initial_margin: Option<String>,
    /// The latest update time the exchange shows for the account (Unix ms).
    pub source_updated_at_ms: u64,
    /// The fixed name of the mapping that produced the summary.
    pub source_revision: String,
}

/// The account identity and account-level modes the exchange reports.
#[derive(Debug, Clone, PartialEq, Eq)]
pub struct AccountIdentity {
    pub exchange: ExchangeId,
    /// The exchange's account id.
    pub provider_account_id: String,
    /// The parent account of a sub-account; none for a main account.
    pub parent_account_id: Option<String>,
    /// The account-level margin mode.
    pub margin_mode: String,
    /// The account position mode.
    pub position_mode: String,
    /// The settlement asset of the products covered.
    pub settlement_asset: String,
}

/// Whether the account's credentials may create orders.
#[derive(Debug, Clone, PartialEq, Eq)]
pub struct AccountOrderPermission {
    pub exchange: ExchangeId,
    pub can_create_orders: bool,
    /// The fixed name of the mapping that produced the answer.
    pub source_revision: String,
}

/// Identity and order permission read from one account-configuration answer.
#[derive(Debug, Clone, PartialEq, Eq)]
pub struct AccountOrderPermissionWithIdentity {
    pub identity: AccountIdentity,
    pub order_permission: AccountOrderPermission,
}

/// One entry of the account ledger.
#[derive(Debug, Clone, PartialEq)]
pub struct AccountBill {
    pub exchange: ExchangeId,
    pub instrument: Option<Instrument>,
    pub exchange_symbol: Option<String>,
    pub bill_id: Option<String>,
    pub asset: Option<String>,
    pub balance_change: Option<String>,
    pub balance_after: Option<String>,
    pub fee: Option<String>,
    pub pnl: Option<String>,
    pub bill_type: Option<String>,
    pub bill_sub_type: Option<String>,
    pub order_id: Option<String>,
    pub trade_id: Option<String>,
    pub timestamp: Option<u64>,
    pub raw: JsonValue,
}

/// Filters for reading account bills.
#[derive(Debug, Clone, Default, PartialEq, Eq)]
pub struct AccountBillQuery {
    pub instrument: Option<Instrument>,
    pub asset: Option<String>,
    pub inst_type: Option<String>,
    pub bill_type: Option<String>,
    pub limit: Option<u32>,
    pub start_time: Option<u64>,
    pub end_time: Option<u64>,
    pub archive: bool,
}

impl AccountBillQuery {
    /// A query without filters.
    pub fn new() -> (r: Self)
        ensures
            r.instrument is None,
            r.asset is None,
            r.inst_type is None,
            r.bill_type is None,
            r.limit is None,
            r.start_time is None,
            r.end_time is None,
            !r.archive,
    {
        AccountBillQuery {
            instrument: None,
            asset: None,
            inst_type: None,
            bill_type: None,
            limit: None,
            start_time: None,
            end_time: None,
            archive: false,
        }
    }

    /// A query for one instrument.
    pub fn for_instrument(instrument: Instrument) -> (r: Self)
        ensures
            r.instrument == Some(instrument),
            r.asset is None,
            r.inst_type is None,
            r.bill_type is None,
            r.limit is None,
            r.start_time is None,
            r.end_time is None,
            !r.archive,
    {
        Self::new().with_instrument(instrument)
    }

    pub fn with_instrument(self, value: Instrument) -> (r: Self)
        ensures
            r == (Self { instrument: Some(value), ..self }),
    {
        Self { instrument: Some(value), ..self }
    }

    pub fn with_asset<T: IntoText>(self, value: T) -> (r: Self)
        ensures
            opt_view(r.asset) == Some(value.text_view()),
            r == (Self { asset: r.asset, ..self }),
    {
        Self { asset: Some(value.into_text()), ..self }
    }

    pub fn with_inst_type<T: IntoText>(self, value: T) -> (r: Self)
        ensures
            opt_view(r.inst_type) == Some(value.text_view()),
            r == (Self { inst_type: r.inst_type, ..self }),
    {
        Self { inst_type: Some(value.into_text()), ..self }
    }

    pub fn with_bill_type<T: IntoText>(self, value: T) -> (r: Self)
        ensures
            opt_view(r.bill_type) == Some(value.text_view()),
            r == (Self { bill_type: r.bill_type, ..self }),
    {
        Self { bill_type: Some(value.into_text()), ..self }
    }

    pub fn with_limit(self, value: u32) -> (r: Self)
        ensures
            r == (Self { limit: Some(value), ..self }),
    {
        Self { limit: Some(value), ..self }
    }

    pub fn with_start_time(self, value: u64) -> (r: Self)
        ensures
            r == (Self { start_time: Some(value), ..self }),
    {
        Self { start_time: Some(value), ..self }
    }

    pub fn with_end_time(self, value: u64) -> (r: Self)
        ensures
            r == (Self { end_time: Some(value), ..self }),
    {
        Self { end_time: Some(value), ..self }
    }

    pub fn with_archive(self, value: bool) -> (r: Self)
        ensures
            r == (Self { archive: value, ..self }),
    {
        Self { archive: value, ..self }
    }
}

/// A request to set the leverage of an instrument.
#[derive(Debug, Clone, PartialEq, Eq)]
pub struct SetLeverageRequest {
    pub instrument: Instrument,
    pub leverage: String,
    pub margin_mode: Option<MarginMode>,
    pub margin_coin: Option<String>,
    pub position_side: Option<String>,
}

impl SetLeverageRequest {
    pub fn new<T: IntoText>(instrument: Instrument, leverage: T) -> (r: Self)
        ensures
            r.instrument == instrument,
            r.leverage@ == leverage.text_view(),
            r.margin_mode is None,
            r.margin_coin is None,
            r.position_side is None,
    {
        SetLeverageRequest {
            instrument,
            leverage: leverage.into_text(),
            margin_mode: None,
            margin_coin: None,
            position_side: None,
        }
    }

    pub fn with_margin_mode<M: IntoMarginMode>(self, value: M) -> (r: Self)
        ensures
            r.margin_mode matches Some(m) && m.view_mode() == value.mode_view(),
            r == (Self { margin_mode: r.margin_mode, ..self }),
    {
        Self { margin_mode: Some(value.into_margin_mode()), ..self }
    }

    pub fn with_margin_coin<T: IntoText>(self, value: T) -> (r: Self)
        ensures
            opt_view(r.margin_coin) == Some(value.text_view()),
            r == (Self { margin_coin: r.margin_coin, ..self }),
    {
        Self { margin_coin: Some(value.into_text()), ..self }
    }

    pub fn with_position_side<T: IntoText>(self, value: T) -> (r: Self)
        ensures
            opt_view(r.position_side) == Some(value.text_view()),
            r == (Self { position_side: r.position_side, ..self }),
    {
        Self { position_side: Some(value.into_text()), ..self }
    }
}

/// The leverage an exchange applied or reports.
#[derive(Debug, Clone, PartialEq)]
pub struct LeverageSetting {
    pub exchange: ExchangeId,
    pub instrument: Instrument,
    pub exchange_symbol: String,
    pub leverage: String,
    pub margin_mode: Option<String>,
    pub margin_coin: Option<String>,
    pub position_side: Option<String>,
    pub raw: JsonValue,
}

/// A query for the current leverage of an instrument in one margin mode.
#[derive(Debug, Clone, PartialEq, Eq)]
pub struct LeverageInfoQuery {
    pub instrument: Instrument,
    pub margin_mode: MarginMode,
}

impl LeverageInfoQuery {
    pub fn new<M: IntoMarginMode>(instrument: Instrument, margin_mode: M) -> (r: Self)
        ensures
            r.instrument == instrument,
            r.margin_mode.view_mode() == margin_mode.mode_view(),
    {
        LeverageInfoQuery { instrument, margin_mode: margin_mode.into_margin_mode() }
    }
}

/// A query for the largest order the account can place now.
#[derive(Debug, Clone, PartialEq, Eq)]
pub struct MaxOrderSizeRequest {
    /// The instrument to be traded.
    pub instrument: Instrument,
    /// The trade mode; OKX reads it as `tdMode`.
    pub margin_mode: MarginMode,
    /// The margin currency, where the exchange needs it.
    pub margin_coin: Option<String>,
    /// A reference price for the order.
    pub price: Option<String>,
    /// The leverage in use.
    pub leverage: Option<String>,
}

impl MaxOrderSizeRequest {
    pub fn new(instrument: Instrument, margin_mode: MarginMode) -> (r: Self)
        ensures
            r.instrument == instrument,
            r.margin_mode == margin_mode,
            r.margin_coin is None,
            r.price is None,
            r.leverage is None,
    {
        MaxOrderSizeRequest { instrument, margin_mode, margin_coin: None, price: None, leverage: None }
    }

    pub fn with_margin_coin<T: IntoText>(self, value: T) -> (r: Self)
        ensures
            opt_view(r.margin_coin) == Some(value.text_view()),
            r == (Self { margin_coin: r.margin_coin, ..self }),
    {
        Self { margin_coin: Some(value.into_text()), ..self }
    }

    pub fn with_price<T: IntoText>(self, value: T) -> (r: Self)
        ensures
            opt_view(r.price) == Some(value.text_view()),
            r == (Self { price: r.price, ..self }),
    {
        Self { price: Some(value.into_text()), ..self }
    }

    pub fn with_leverage<T: IntoText>(self, value: T) -> (r: Self)
        ensures
            opt_view(r.leverage) == Some(value.text_view()),
            r == (Self { leverage: r.leverage, ..self }),
    {
        Self { leverage: Some(value.into_text()), ..self }
    }
}

/// The largest buy and sell order sizes, in the exchange's order units.
#[derive(Debug, Clone, PartialEq)]
pub struct MaxOrderSize {
    pub exchange: ExchangeId,
    pub instrument: Instrument,
    pub exchange_symbol: String,
    pub margin_mode: MarginMode,
    pub margin_coin: Option<String>,
    pub max_buy: String,
    pub max_sell: String,
    pub raw: JsonValue,
}

/// Which account settings an exchange lets the SDK change.
#[derive(Debug, Clone, Copy, PartialEq, Eq, Structural)]
pub struct AccountCapabilities {
    pub set_leverage: bool,
    pub set_position_mode: bool,
    pub set_symbol_margin_mode: bool,
    pub order_level_margin_mode: bool,
}

/// A request to set the margin mode of one symbol.
#[derive(Debug, Clone, PartialEq, Eq)]
pub struct SetSymbolMarginModeRequest {
    pub instrument: Instrument,
    pub mode: MarginMode,
    pub product_type: Option<String>,
    pub margin_coin: Option<String>,
}

impl SetSymbolMarginModeRequest {
    pub fn new(instrument: Instrument, mode: MarginMode) -> (r: Self)
        ensures
            r.instrument == instrument,
            r.mode == mode,
            r.product_type is None,
            r.margin_coin is None,
    {
        SetSymbolMarginModeRequest { instrument, mode, product_type: None, margin_coin: None }
    }

    pub fn with_product_type<T: IntoText>(self, value: T) -> (r: Self)
        ensures
            opt_view(r.product_type) == Some(value.text_view()),
            r == (Self { product_type: r.product_type, ..self }),
    {
        Self { product_type: Some(value.into_text()), ..self }
    }

    pub fn with_margin_coin<T: IntoText>(self, value: T) -> (r: Self)
        ensures
            opt_view(r.margin_coin) == Some(value.text_view()),
            r == (Self { margin_coin: r.margin_coin, ..self }),
    {
        Self { margin_coin: Some(value.into_text()), ..self }
    }
}

/// The margin mode an exchange applied to a symbol.
#[derive(Debug, Clone, PartialEq)]
pub struct SymbolMarginModeSetting {
    pub exchange: ExchangeId,
    pub instrument: Instrument,
    pub exchange_symbol: String,
    pub mode: MarginMode,
    pub raw_mode: Option<String>,
    pub product_type: Option<String>,
    pub margin_coin: Option<String>,
    pub raw: JsonValue,
}

/// How a margin mode takes effect on an exchange.
#[derive(Debug, Clone, Copy, PartialEq, Eq, Structural)]
pub enum MarginModeApplyMethod {
    /// Set once per symbol in the account configuration.
    SymbolConfiguration,
    /// Sent with every order.
    OrderLevel,
}

/// A request to make orders of an instrument use a margin mode.
#[derive(Debug, Clone, PartialEq, Eq)]
pub struct EnsureOrderMarginModeRequest {
    pub instrument: Instrument,
    pub mode: MarginMode,
    pub product_type: Option<String>,
    pub margin_coin: Option<String>,
}

impl EnsureOrderMarginModeRequest {
    pub fn new(instrument: Instrument, mode: MarginMode) -> (r: Self)
        ensures
            r.instrument == instrument,
            r.mode == mode,
            r.product_type is None,
            r.margin_coin is None,
    {
        EnsureOrderMarginModeRequest { instrument, mode, product_type: None, margin_coin: None }
    }

    pub fn with_product_type<T: IntoText>(self, value: T) -> (r: Self)
        ensures
            opt_view(r.product_type) == Some(value.text_view()),
            r == (Self { product_type: r.product_type, ..self }),
    {
        Self { product_type: Some(value.into_text()), ..self }
    }

    pub fn with_margin_coin<T: IntoText>(self, value: T) -> (r: Self)
        ensures
            opt_view(r.margin_coin) == Some(value.text_view()),
            r == (Self { margin_coin: r.margin_coin, ..self }),
    {
        Self { margin_coin: Some(value.into_text()), ..self }
    }

    /// The same request as a symbol-level margin-mode change.
    pub fn into_set_symbol_request(self) -> (r: SetSymbolMarginModeRequest)
        ensures
            r.instrument == self.instrument,
            r.mode == self.mode,
            r.product_type == self.product_type,
            r.margin_coin == self.margin_coin,
    {
        SetSymbolMarginModeRequest {
            instrument: self.instrument,
            mode: self.mode,
            product_type: self.product_type,
            margin_coin: self.margin_coin,
        }
    }
}

/// How an exchange ensured a margin mode for an instrument.
#[derive(Debug, Clone, PartialEq)]
pub struct EnsureOrderMarginModeResult {
    pub exchange: ExchangeId,
    pub instrument: Instrument,
    pub exchange_symbol: String,
    pub mode: MarginMode,
    pub apply_method: MarginModeApplyMethod,
    pub raw_mode: Option<String>,
    pub product_type: Option<String>,
    pub margin_coin: Option<String>,
    pub raw: JsonValue,
}

impl EnsureOrderMarginModeResult {
    /// The result of a symbol-level margin-mode change.
    pub fn from_symbol_setting(setting: SymbolMarginModeSetting) -> (r: Self)
        ensures
            r.exchange == setting.exchange,
            r.instrument == setting.instrument,
            r.exchange_symbol == setting.exchange_symbol,
            r.mode == setting.mode,
            r.apply_method == MarginModeApplyMethod::SymbolConfiguration,
            r.raw_mode == setting.raw_mode,
            r.product_type == setting.product_type,
            r.margin_coin == setting.margin_coin,
            r.raw == setting.raw,
    {
        EnsureOrderMarginModeResult {
            exchange: setting.exchange,
            instrument: setting.instrument,
            exchange_symbol: setting.exchange_symbol,
            mode: setting.mode,
            apply_method: MarginModeApplyMethod::SymbolConfiguration,
            raw_mode: setting.raw_mode,
            product_type: setting.product_type,
            margin_coin: setting.margin_coin,
            raw: setting.raw,
        }
    }
}

/// The account settings to prepare before placing orders of an instrument.
#[derive(Debug, Clone, PartialEq, Eq)]
pub struct PrepareOrderSettingsRequest {
    pub instrument: Instrument,
    pub margin_mode: Option<MarginMode>,
    pub leverage: Option<String>,
    pub position_mode: Option<PositionMode>,
    pub product_type: Option<String>,
    pub margin_coin: Option<String>,
    pub position_side: Option<String>,
}

impl PrepareOrderSettingsRequest {
    pub fn new(instrument: Instrument) -> (r: Self)
        ensures
            r.instrument == instrument,
            r.margin_mode is None,
            r.leverage is None,
            r.position_mode is None,
            r.product_type is None,
            r.margin_coin is None,
            r.position_side is None,
    {
        PrepareOrderSettingsRequest {
            instrument,
            margin_mode: None,
            leverage: None,
            position_mode: None,
            product_type: None,
            margin_coin: None,
            position_side: None,
        }
    }

    pub fn with_margin_mode<M: IntoMarginMode>(self, value: M) -> (r: Self)
        ensures
            r.margin_mode matches Some(m) && m.view_mode() == value.mode_view(),
            r == (Self { margin_mode: r.margin_mode, ..self }),
    {
        Self { margin_mode: Some(value.into_margin_mode()), ..self }
    }

    pub fn with_leverage<T: IntoText>(self, value: T) -> (r: Self)
        ensures
            opt_view(r.leverage) == Some(value.text_view()),
            r == (Self { leverage: r.leverage, ..self }),
    {
        Self { leverage: Some(value.into_text()), ..self }
    }

    pub fn with_position_mode(self, value: PositionMode) -> (r: Self)
        ensures
            r == (Self { position_mode: Some(value), ..self }),
    {
        Self { position_mode: Some(value), ..self }
    }

    pub fn with_product_type<T: IntoText>(self, value: T) -> (r: Self)
        ensures
            opt_view(r.product_type) == Some(value.text_view()),
            r == (Self { product_type: r.product_type, ..self }),
    {
        Self { product_type: Some(value.into_text()), ..self }
    }

    pub fn with_margin_coin<T: IntoText>(self, value: T) -> (r: Self)
        ensures
            opt_view(r.margin_coin) == Some(value.text_view()),
            r == (Self { margin_coin: r.margin_coin, ..self }),
    {
        Self { margin_coin: Some(value.into_text()), ..self }
    }

    pub fn with_position_side<T: IntoText>(self, value: T) -> (r: Self)
        ensures
            opt_view(r.position_side) == Some(value.text_view()),
            r == (Self { position_side: r.position_side, ..self }),
    {
        Self { position_side: Some(value.into_text()), ..self }
    }
}

/// The settings applied for an instrument, one per requested setting.
#[derive(Debug, Clone, PartialEq)]
pub struct PrepareOrderSettingsResult {
    pub exchange: ExchangeId,
    pub instrument: Instrument,
    pub exchange_symbol: String,
    pub position_mode: Option<PositionModeSetting>,
    pub margin_mode: Option<EnsureOrderMarginModeResult>,
    pub leverage: Option<LeverageSetting>,
}

/// Whether an account holds one net position per symbol or long and short
/// positions side by side.
#[derive(Debug, Clone, Copy, PartialEq, Eq, Structural)]
pub enum PositionMode {
    OneWay,
    Hedge,
}

/// A request to set the account position mode.
#[derive(Debug, Clone, PartialEq, Eq)]
pub struct SetPositionModeRequest {
    pub mode: PositionMode,
    pub product_type: Option<String>,
}

impl SetPositionModeRequest {
    pub fn new(mode: PositionMode) -> (r: Self)
        ensures
            r.mode == mode,
            r.product_type is None,
    {
        SetPositionModeRequest { mode, product_type: None }
    }

    pub fn with_product_type<T: IntoText>(self, value: T) -> (r: Self)
        ensures
            opt_view(r.product_type) == Some(value.text_view()),
            r.mode == self.mode,
    {
        Self { product_type: Some(value.into_text()), ..self }
    }
}

/// The position mode an exchange applied.
#[derive(Debug, Clone, PartialEq)]
pub struct PositionModeSetting {
    pub exchange: ExchangeId,
    pub mode: PositionMode,
    pub raw_mode: Option<String>,
    pub product_type: Option<String>,
    pub raw: JsonValue,
}

} // verus!
