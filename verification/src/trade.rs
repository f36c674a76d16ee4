//! Order placement and cancellation requests.
use crate::exchange::ExchangeId;
use crate::instrument::Instrument;
use crate::json::JsonValue;
use crate::margin::{IntoMarginMode, MarginMode};
use crate::order::OrderQuery;
use crate::text::{opt_view, IntoText};
use vstd::prelude::*;

verus! {

/// The side of an order.
#[derive(Debug, Clone, Copy, PartialEq, Eq, Structural)]
pub enum OrderSide {
    Buy,
    Sell,
}

impl OrderSide {
    pub open spec fn lower_spec(self) -> Seq<char> {
        match self {
            OrderSide::Buy => "buy"@,
            OrderSide::Sell => "sell"@,
        }
    }

    pub open spec fn upper_spec(self) -> Seq<char> {
        match self {
            OrderSide::Buy => "BUY"@,
            OrderSide::Sell => "SELL"@,
        }
    }

    /// The side in lower case (`buy`, `sell`).
    pub fn lower(self) -> (r: &'static str)
        ensures
            r@ == self.lower_spec(),
    {
        match self {
            OrderSide::Buy => "buy",
            OrderSide::Sell => "sell",
        }
    }

    /// The side in upper case (`BUY`, `SELL`).
    pub fn upper(self) -> (r: &'static str)
        ensures
            r@ == self.upper_spec(),
    {
        match self {
            OrderSide::Buy => "BUY",
            OrderSide::Sell => "SELL",
        }
    }
}

/// The price type of an order.
#[derive(Debug, Clone, Copy, PartialEq, Eq, Structural)]
pub enum OrderType {
    Limit,
    Market,
}

/// How long a limit order stays working.
#[derive(Debug, Clone, Copy, PartialEq, Eq, Structural)]
pub enum TimeInForce {
    Gtc,
    Ioc,
    Fok,
    PostOnly,
}

/// A request to place an order.
#[derive(Debug, Clone, PartialEq)]
pub struct PlaceOrderRequest {
    pub instrument: Instrument,
    pub side: OrderSide,
    pub order_type: OrderType,
    pub size: String,
    pub price: Option<String>,
    pub margin_mode: Option<MarginMode>,
    pub margin_coin: Option<String>,
    pub position_side: Option<String>,
    pub trade_side: Option<String>,
    pub client_order_id: Option<String>,
    pub reduce_only: Option<bool>,
    pub time_in_force: Option<TimeInForce>,
    /// A stop-loss trigger price to attach to the order where the exchange allows it.
    pub attached_stop_loss_price: Option<String>,
}

/// The price a protective order watches.
#[derive(Debug, Clone, Copy, PartialEq, Eq, Structural)]
pub enum ProtectiveOrderWorkingType {
    MarkPrice,
    ContractPrice,
}

impl ProtectiveOrderWorkingType {
    pub open spec fn binance_spec(self) -> Seq<char> {
        match self {
            ProtectiveOrderWorkingType::MarkPrice => "MARK_PRICE"@,
            ProtectiveOrderWorkingType::ContractPrice => "CONTRACT_PRICE"@,
        }
    }

    /// Binance's name of the working type.
    pub fn binance_value(self) -> (r: &'static str)
        ensures
            r@ == self.binance_spec(),
    {
        match self {
            ProtectiveOrderWorkingType::MarkPrice => "MARK_PRICE",
            ProtectiveOrderWorkingType::ContractPrice => "CONTRACT_PRICE",
        }
    }
}

/// Which protective features an exchange adapter offers.
#[derive(Debug, Clone, Copy, PartialEq, Eq, Structural)]
pub struct TradeCapabilities {
    pub attached_stop_loss_on_place_order: bool,
    pub protective_order: bool,
}

/// A stop-market order that protects a position.
#[derive(Debug, Clone, PartialEq, Eq)]
pub struct ProtectiveOrderRequest {
    pub instrument: Instrument,
    pub side: OrderSide,
    pub stop_price: String,
    pub quantity: Option<String>,
    pub position_side: Option<String>,
    pub reduce_only: Option<bool>,
    pub close_position: Option<bool>,
    pub working_type: Option<ProtectiveOrderWorkingType>,
    pub price_protect: Option<bool>,
    pub client_order_id: Option<String>,
}

impl ProtectiveOrderRequest {
    /// A stop-market order at `stop_price`, with no option set.
    pub fn stop_market<T: IntoText>(instrument: Instrument, side: OrderSide, stop_price: T) -> (r: Self)
        ensures
            r.instrument == instrument,
            r.side == side,
            r.stop_price@ == stop_price.text_view(),
            r.quantity is None,
            r.position_side is None,
            r.reduce_only is None,
            r.close_position is None,
            r.working_type is None,
            r.price_protect is None,
            r.client_order_id is None,
    {
        ProtectiveOrderRequest {
            instrument,
            side,
            stop_price: stop_price.into_text(),
            quantity: None,
            position_side: None,
            reduce_only: None,
            close_position: None,
            working_type: None,
            price_protect: None,
            client_order_id: None,
        }
    }

    pub fn with_position_side<T: IntoText>(self, value: T) -> (r: Self)
        ensures
            opt_view(r.position_side) == Some(value.text_view()),
            r == (Self { position_side: r.position_side, ..self }),
    {
        Self { position_side: Some(value.into_text()), ..self }
    }

    pub fn with_quantity<T: IntoText>(self, value: T) -> (r: Self)
        ensures
            opt_view(r.quantity) == Some(value.text_view()),
            r == (Self { quantity: r.quantity, ..self }),
    {
        Self { quantity: Some(value.into_text()), ..self }
    }

    pub fn with_reduce_only(self, value: bool) -> (r: Self)
        ensures
            r == (Self { reduce_only: Some(value), ..self }),
    {
        Self { reduce_only: Some(value), ..self }
    }

    pub fn with_close_position(self, value: bool) -> (r: Self)
        ensures
            r == (Self { close_position: Some(value), ..self }),
    {
        Self { close_position: Some(value), ..self }
    }

    pub fn with_working_type(self, value: ProtectiveOrderWorkingType) -> (r: Self)
        ensures
            r == (Self { working_type: Some(value), ..self }),
    {
        Self { working_type: Some(value), ..self }
    }

    pub fn with_price_protect(self, value: bool) -> (r: Self)
        ensures
            r == (Self { price_protect: Some(value), ..self }),
    {
        Self { price_protect: Some(value), ..self }
    }

    pub fn with_client_order_id<T: IntoText>(self, value: T) -> (r: Self)
        ensures
            opt_view(r.client_order_id) == Some(value.text_view()),
            r == (Self { client_order_id: r.client_order_id, ..self }),
    {
        Self { client_order_id: Some(value.into_text()), ..self }
    }
}

/// Names one protective order, by exchange id or by client id.
#[derive(Debug, Clone, PartialEq, Eq)]
pub struct ProtectiveOrderQuery {
    pub instrument: Instrument,
    pub order_id: Option<String>,
    pub client_order_id: Option<String>,
}

impl ProtectiveOrderQuery {
    pub fn new(instrument: Instrument) -> (r: Self)
        ensures
            r.instrument == instrument,
            r.order_id is None,
            r.client_order_id is None,
    {
        ProtectiveOrderQuery { instrument, order_id: None, client_order_id: None }
    }

    pub fn by_order_id<T: IntoText>(instrument: Instrument, order_id: T) -> (r: Self)
        ensures
            r.instrument == instrument,
            opt_view(r.order_id) == Some(order_id.text_view()),
            r.client_order_id is None,
    {
        Self::new(instrument).with_order_id(order_id)
    }

    pub fn by_client_order_id<T: IntoText>(instrument: Instrument, client_order_id: T) -> (r: Self)
        ensures
            r.instrument == instrument,
            r.order_id is None,
            opt_view(r.client_order_id) == Some(client_order_id.text_view()),
    {
        Self::new(instrument).with_client_order_id(client_order_id)
    }

    pub fn with_order_id<T: IntoText>(self, value: T) -> (r: Self)
        ensures
            opt_view(r.order_id) == Some(value.text_view()),
            r == (Self { order_id: r.order_id, ..self }),
    {
        Self { order_id: Some(value.into_text()), ..self }
    }

    pub fn with_client_order_id<T: IntoText>(self, value: T) -> (r: Self)
        ensures
            opt_view(r.client_order_id) == Some(value.text_view()),
            r == (Self { client_order_id: r.client_order_id, ..self }),
    {
        Self { client_order_id: Some(value.into_text()), ..self }
    }

    /// The same identity as a standard order query (no margin coin).
    pub fn into_order_query(self) -> (r: OrderQuery)
        ensures
            r.instrument == self.instrument,
            r.order_id == self.order_id,
            r.client_order_id == self.client_order_id,
            r.margin_coin is None,
    {
        let ProtectiveOrderQuery { instrument, order_id, client_order_id } = self;
        OrderQuery { instrument, order_id, client_order_id, margin_coin: None }
    }
}

impl PlaceOrderRequest {
    /// An order of `size` with no option set.
    pub fn new<T: IntoText>(
        instrument: Instrument,
        side: OrderSide,
        order_type: OrderType,
        size: T,
    ) -> (r: Self)
        ensures
            r.instrument == instrument,
            r.side == side,
            r.order_type == order_type,
            r.size@ == size.text_view(),
            r.price is None,
            r.margin_mode is None,
            r.margin_coin is None,
            r.position_side is None,
            r.trade_side is None,
            r.client_order_id is None,
            r.reduce_only is None,
            r.time_in_force is None,
            r.attached_stop_loss_price is None,
    {
        PlaceOrderRequest {
            instrument,
            side,
            order_type,
            size: size.into_text(),
            price: None,
            margin_mode: None,
            margin_coin: None,
            position_side: None,
            trade_side: None,
            client_order_id: None,
            reduce_only: None,
            time_in_force: None,
            attached_stop_loss_price: None,
        }
    }

    /// A limit order at `price`.
    pub fn limit<S: IntoText, P: IntoText>(instrument: Instrument, side: OrderSide, size: S, price: P) -> (r: Self)
        ensures
            r.instrument == instrument,
            r.side == side,
            r.order_type == OrderType::Limit,
            r.size@ == size.text_view(),
            opt_view(r.price) == Some(price.text_view()),
            r.margin_mode is None,
            r.margin_coin is None,
            r.position_side is None,
            r.trade_side is None,
            r.client_order_id is None,
            r.reduce_only is None,
            r.time_in_force is None,
            r.attached_stop_loss_price is None,
    {
        Self::new(instrument, side, OrderType::Limit, size).with_price(price)
    }

    /// A market order.
    pub fn market<S: IntoText>(instrument: Instrument, side: OrderSide, size: S) -> (r: Self)
        ensures
            r.instrument == instrument,
            r.side == side,
            r.order_type == OrderType::Market,
            r.size@ == size.text_view(),
            r.price is None,
            r.margin_mode is None,
            r.margin_coin is None,
            r.position_side is None,
            r.trade_side is None,
            r.client_order_id is None,
            r.reduce_only is None,
            r.time_in_force is None,
            r.attached_stop_loss_price is None,
    {
        Self::new(instrument, side, OrderType::Market, size)
    }

    pub fn with_price<T: IntoText>(self, value: T) -> (r: Self)
        ensures
            opt_view(r.price) == Some(value.text_view()),
            r == (Self { price: r.price, ..self }),
    {
        Self { price: Some(value.into_text()), ..self }
    }

    pub fn with_margin_mode<M: IntoMarginMode>(self, value: M) -> (r: Self)
        ensures
            r.margin_mode matches Some(m) && m.view_mode() == value.mode_view(),
            r == (Self { margin_mode: r.margin_mode, ..self }),
    {
        Self { margin_mode: Some(value.into_margin_mode()), ..self }
    }

    pub fn with_margin_coin<T: IntoText>(self, value: T) -> (r: Self)
        ensures
            opt_view(r.margin_coin) == Some(value.text_view()),
            r == (Self { margin_coin: r.margin_coin, ..self }),
    {
        Self { margin_coin: Some(value.into_text()), ..self }
    }

    pub fn with_position_side<T: IntoText>(self, value: T) -> (r: Self)
        ensures
            opt_view(r.position_side) == Some(value.text_view()),
            r == (Self { position_side: r.position_side, ..self }),
    {
        Self { position_side: Some(value.into_text()), ..self }
    }

    pub fn with_trade_side<T: IntoText>(self, value: T) -> (r: Self)
        ensures
            opt_view(r.trade_side) == Some(value.text_view()),
            r == (Self { trade_side: r.trade_side, ..self }),
    {
        Self { trade_side: Some(value.into_text()), ..self }
    }

    pub fn with_client_order_id<T: IntoText>(self, value: T) -> (r: Self)
        ensures
            opt_view(r.client_order_id) == Some(value.text_view()),
            r == (Self { client_order_id: r.client_order_id, ..self }),
    {
        Self { client_order_id: Some(value.into_text()), ..self }
    }

    pub fn with_reduce_only(self, value: bool) -> (r: Self)
        ensures
            r == (Self { reduce_only: Some(value), ..self }),
    {
        Self { reduce_only: Some(value), ..self }
    }

    pub fn with_time_in_force(self, value: TimeInForce) -> (r: Self)
        ensures
            r == (Self { time_in_force: Some(value), ..self }),
    {
        Self { time_in_force: Some(value), ..self }
    }

    pub fn with_attached_stop_loss_price<T: IntoText>(self, value: T) -> (r: Self)
        ensures
            opt_view(r.attached_stop_loss_price) == Some(value.text_view()),
            r == (Self { attached_stop_loss_price: r.attached_stop_loss_price, ..self }),
    {
        Self { attached_stop_loss_price: Some(value.into_text()), ..self }
    }
}

/// A request to cancel one order.
#[derive(Debug, Clone, PartialEq)]
pub struct CancelOrderRequest {
    pub instrument: Instrument,
    pub order_id: Option<String>,
    pub client_order_id: Option<String>,
    pub margin_coin: Option<String>,
}

impl CancelOrderRequest {
    pub fn new(instrument: Instrument) -> (r: Self)
        ensures
            r.instrument == instrument,
            r.order_id is None,
            r.client_order_id is None,
            r.margin_coin is None,
    {
        CancelOrderRequest { instrument, order_id: None, client_order_id: None, margin_coin: None }
    }

    pub fn by_order_id<T: IntoText>(instrument: Instrument, order_id: T) -> (r: Self)
        ensures
            r.instrument == instrument,
            opt_view(r.order_id) == Some(order_id.text_view()),
            r.client_order_id is None,
            r.margin_coin is None,
    {
        Self::new(instrument).with_order_id(order_id)
    }

    pub fn by_client_order_id<T: IntoText>(instrument: Instrument, client_order_id: T) -> (r: Self)
        ensures
            r.instrument == instrument,
            r.order_id is None,
            opt_view(r.client_order_id) == Some(client_order_id.text_view()),
            r.margin_coin is None,
    {
        Self::new(instrument).with_client_order_id(client_order_id)
    }

    pub fn with_order_id<T: IntoText>(self, value: T) -> (r: Self)
        ensures
            opt_view(r.order_id) == Some(value.text_view()),
            r == (Self { order_id: r.order_id, ..self }),
    {
        Self { order_id: Some(value.into_text()), ..self }
    }

    pub fn with_client_order_id<T: IntoText>(self, value: T) -> (r: Self)
        ensures
            opt_view(r.client_order_id) == Some(value.text_view()),
            r == (Self { client_order_id: r.client_order_id, ..self }),
    {
        Self { client_order_id: Some(value.into_text()), ..self }
    }

    pub fn with_margin_coin<T: IntoText>(self, value: T) -> (r: Self)
        ensures
            opt_view(r.margin_coin) == Some(value.text_view()),
            r == (Self { margin_coin: r.margin_coin, ..self }),
    {
        Self { margin_coin: Some(value.into_text()), ..self }
    }
}

/// The exchange's answer to an order request.
#[derive(Debug, Clone, PartialEq)]
pub struct OrderAck {
    pub exchange: ExchangeId,
    pub instrument: Instrument,
    pub exchange_symbol: String,
    pub order_id: Option<String>,
    pub client_order_id: Option<String>,
    pub status: Option<String>,
    pub raw: JsonValue,
}

} // verus!
