//! Orders as the exchanges report them, and the queries that find them.
use crate::exchange::ExchangeId;
use crate::instrument::Instrument;
use crate::json::JsonValue;
use crate::text::{opt_view, IntoText};
use vstd::prelude::*;

verus! {

/// One order in exchange-neutral form.
#[derive(Debug, Clone, PartialEq)]
pub struct Order {
    pub exchange: ExchangeId,
    pub instrument: Instrument,
    pub exchange_symbol: String,
    pub order_id: Option<String>,
    pub client_order_id: Option<String>,
    pub side: Option<String>,
    pub order_type: Option<String>,
    pub price: Option<String>,
    pub size: Option<String>,
    pub filled_size: Option<String>,
    pub average_price: Option<String>,
    pub status: Option<String>,
    pub created_at: Option<u64>,
    pub updated_at: Option<u64>,
    pub raw: JsonValue,
}

/// Names one order of an instrument, by exchange id or by client id.
#[derive(Debug, Clone, PartialEq, Eq)]
pub struct OrderQuery {
    pub instrument: Instrument,
    pub order_id: Option<String>,
    pub client_order_id: Option<String>,
    pub margin_coin: Option<String>,
}

impl OrderQuery {
    /// A query that names no order yet.
    pub fn new(instrument: Instrument) -> (r: Self)
        ensures
            r.instrument == instrument,
            r.order_id is None,
            r.client_order_id is None,
            r.margin_coin is None,
    {
        OrderQuery { instrument, order_id: None, client_order_id: None, margin_coin: None }
    }

    /// The order with exchange id `order_id`.
    pub fn by_order_id<T: IntoText>(instrument: Instrument, order_id: T) -> (r: Self)
        ensures
            r.instrument == instrument,
            opt_view(r.order_id) == Some(order_id.text_view()),
            r.client_order_id is None,
            r.margin_coin is None,
    {
        Self::new(instrument).with_order_id(order_id)
    }

    /// The order with client id `client_order_id`.
    pub fn by_client_order_id<T: IntoText>(instrument: Instrument, client_order_id: T) -> (r: Self)
        ensures
            r.instrument == instrument,
            r.order_id is None,
            opt_view(r.client_order_id) == Some(client_order_id.text_view()),
            r.margin_coin is None,
    {
        Self::new(instrument).with_client_order_id(client_order_id)
    }

    pub fn with_order_id<T: IntoText>(self, value: T) -> (r: Self)
        ensures
            opt_view(r.order_id) == Some(value.text_view()),
            r == (Self { order_id: r.order_id, ..self }),
    {
        Self { order_id: Some(value.into_text()), ..self }
    }

    pub fn with_client_order_id<T: IntoText>(self, value: T) -> (r: Self)
        ensures
            opt_view(r.client_order_id) == Some(value.text_view()),
            r == (Self { client_order_id: r.client_order_id, ..self }),
    {
        Self { client_order_id: Some(value.into_text()), ..self }
    }

    pub fn with_margin_coin<T: IntoText>(self, value: T) -> (r: Self)
        ensures
            opt_view(r.margin_coin) == Some(value.text_view()),
            r == (Self { margin_coin: r.margin_coin, ..self }),
    {
        Self { margin_coin: Some(value.into_text()), ..self }
    }
}

/// Filters for listing open orders or order history.
#[derive(Debug, Clone, Default, PartialEq, Eq)]
pub struct OrderListQuery {
    pub instrument: Option<Instrument>,
    pub limit: Option<u32>,
    pub after: Option<String>,
    pub before: Option<String>,
    pub start_time: Option<u64>,
    pub end_time: Option<u64>,
    pub status: Option<String>,
}

impl OrderListQuery {
    /// A query without filters.
    pub fn new() -> (r: Self)
        ensures
            r.instrument is None,
            r.limit is None,
            r.after is None,
            r.before is None,
            r.start_time is None,
            r.end_time is None,
            r.status is None,
    {
        OrderListQuery {
            instrument: None,
            limit: None,
            after: None,
            before: None,
            start_time: None,
            end_time: None,
            status: None,
        }
    }

    /// A query for one instrument.
    pub fn for_instrument(instrument: Instrument) -> (r: Self)
        ensures
            r.instrument == Some(instrument),
            r.limit is None,
            r.after is None,
            r.before is None,
            r.start_time is None,
            r.end_time is None,
            r.status is None,
    {
        Self::new().with_instrument(instrument)
    }

    pub fn with_instrument(self, value: Instrument) -> (r: Self)
        ensures
            r == (Self { instrument: Some(value), ..self }),
    {
        Self { instrument: Some(value), ..self }
    }

    pub fn with_limit(self, value: u32) -> (r: Self)
        ensures
            r == (Self { limit: Some(value), ..self }),
    {
        Self { limit: Some(value), ..self }
    }

    pub fn with_after<T: IntoText>(self, value: T) -> (r: Self)
        ensures
            opt_view(r.after) == Some(value.text_view()),
            r == (Self { after: r.after, ..self }),
    {
        Self { after: Some(value.into_text()), ..self }
    }

    pub fn with_before<T: IntoText>(self, value: T) -> (r: Self)
        ensures
            opt_view(r.before) == Some(value.text_view()),
            r == (Self { before: r.before, ..self }),
    {
        Self { before: Some(value.into_text()), ..self }
    }

    pub fn with_start_time(self, value: u64) -> (r: Self)
        ensures
            r == (Self { start_time: Some(value), ..self }),
    {
        Self { start_time: Some(value), ..self }
    }

    pub fn with_end_time(self, value: u64) -> (r: Self)
        ensures
            r == (Self { end_time: Some(value), ..self }),
    {
        Self { end_time: Some(value), ..self }
    }

    pub fn with_status<T: IntoText>(self, value: T) -> (r: Self)
        ensures
            opt_view(r.status) == Some(value.text_view()),
            r == (Self { status: r.status, ..self }),
    {
        Self { status: Some(value.into_text()), ..self }
    }
}

} // verus!
