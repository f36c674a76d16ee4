//! Trade fills (executions) and the query that lists them.
use crate::exchange::ExchangeId;
use crate::instrument::Instrument;
use crate::json::JsonValue;
use crate::text::{opt_view, IntoText};
use vstd::prelude::*;

verus! {

/// One execution of an order.
#[derive(Debug, Clone, PartialEq)]
pub struct Fill {
    pub exchange: ExchangeId,
    pub instrument: Instrument,
    pub exchange_symbol: String,
    pub trade_id: Option<String>,
    pub order_id: Option<String>,
    pub side: Option<String>,
    pub price: Option<String>,
    pub size: Option<String>,
    pub fee: Option<String>,
    pub fee_asset: Option<String>,
    pub role: Option<String>,
    pub timestamp: Option<u64>,
    pub raw: JsonValue,
}

/// Filters for listing fills.
#[derive(Debug, Clone, Default, PartialEq, Eq)]
pub struct FillListQuery {
    pub instrument: Option<Instrument>,
    pub order_id: Option<String>,
    pub limit: Option<u32>,
    pub after: Option<String>,
    pub before: Option<String>,
    pub start_time: Option<u64>,
    pub end_time: Option<u64>,
}

impl FillListQuery {
    /// A query without filters.
    pub fn new() -> (r: Self)
        ensures
            r.instrument is None,
            r.order_id is None,
            r.limit is None,
            r.after is None,
            r.before is None,
            r.start_time is None,
            r.end_time is None,
    {
        Self {
            instrument: None,
            order_id: None,
            limit: None,
            after: None,
            before: None,
            start_time: None,
            end_time: None,
        }
    }

    /// A query for one instrument.
    pub fn for_instrument(instrument: Instrument) -> (r: Self)
        ensures
            r.instrument == Some(instrument),
            r.order_id is None,
            r.limit is None,
            r.after is None,
            r.before is None,
            r.start_time is None,
            r.end_time is None,
    {
        Self::new().with_instrument(instrument)
    }

    pub fn with_instrument(self, value: Instrument) -> (r: Self)
        ensures
            r == (Self { instrument: Some(value), ..self }),
    {
        Self { instrument: Some(value), ..self }
    }

    pub fn with_order_id<T: IntoText>(self, value: T) -> (r: Self)
        ensures
            opt_view(r.order_id) == Some(value.text_view()),
            r == (Self { order_id: r.order_id, ..self }),
    {
        Self { order_id: Some(value.into_text()), ..self }
    }

    pub fn with_limit(self, value: u32) -> (r: Self)
        ensures
            r == (Self { limit: Some(value), ..self }),
    {
        Self { limit: Some(value), ..self }
    }

    pub fn with_after<T: IntoText>(self, value: T) -> (r: Self)
        ensures
            opt_view(r.after) == Some(value.text_view()),
            r == (Self { after: r.after, ..self }),
    {
        Self { after: Some(value.into_text()), ..self }
    }

    pub fn with_before<T: IntoText>(self, value: T) -> (r: Self)
        ensures
            opt_view(r.before) == Some(value.text_view()),
            r == (Self { before: r.before, ..self }),
    {
        Self { before: Some(value.into_text()), ..self }
    }

    pub fn with_start_time(self, value: u64) -> (r: Self)
        ensures
            r == (Self { start_time: Some(value), ..self }),
    {
        Self { start_time: Some(value), ..self }
    }

    pub fn with_end_time(self, value: u64) -> (r: Self)
        ensures
            r == (Self { end_time: Some(value), ..self }),
    {
        Self { end_time: Some(value), ..self }
    }
}

} // verus!
