//! Open positions and closed-position history.
use crate::exchange::ExchangeId;
use crate::instrument::Instrument;
use crate::json::JsonValue;
use crate::text::{opt_view, IntoText};
use vstd::prelude::*;

verus! {

/// One open position.
#[derive(Debug, Clone, PartialEq)]
pub struct Position {
    pub exchange: ExchangeId,
    pub instrument: Instrument,
    pub exchange_symbol: String,
    pub side: Option<String>,
    pub size: String,
    pub entry_price: Option<String>,
    pub mark_price: Option<String>,
    pub unrealized_pnl: Option<String>,
    pub leverage: Option<String>,
    pub margin_mode: Option<String>,
    pub liquidation_price: Option<String>,
    pub raw: JsonValue,
}

/// A position with the time the exchange last updated it.
#[derive(Debug, Clone, PartialEq)]
pub struct SourcedPosition {
    /// The position itself.
    pub position: Position,
    /// The exchange's update time of the position (Unix milliseconds).
    pub source_updated_at_ms: u64,
}

/// Filters for reading closed positions.
#[derive(Debug, Clone, Default, PartialEq, Eq)]
pub struct PositionHistoryQuery {
    pub instrument: Option<Instrument>,
    pub instrument_type: Option<String>,
    pub margin_mode: Option<String>,
    pub close_type: Option<String>,
    pub position_id: Option<String>,
    pub after: Option<String>,
    pub before: Option<String>,
    pub limit: Option<u32>,
}

impl PositionHistoryQuery {
    /// A query without filters.
    pub fn new() -> (r: Self)
        ensures
            r.instrument is None,
            r.instrument_type is None,
            r.margin_mode is None,
            r.close_type is None,
            r.position_id is None,
            r.after is None,
            r.before is None,
            r.limit is None,
    {
        Self {
            instrument: None,
            instrument_type: None,
            margin_mode: None,
            close_type: None,
            position_id: None,
            after: None,
            before: None,
            limit: None,
        }
    }

    /// A query for one instrument.
    pub fn for_instrument(instrument: Instrument) -> (r: Self)
        ensures
            r.instrument == Some(instrument),
            r.instrument_type is None,
            r.margin_mode is None,
            r.close_type is None,
            r.position_id is None,
            r.after is None,
            r.before is None,
            r.limit is None,
    {
        Self::new().with_instrument(instrument)
    }

    pub fn with_instrument(self, value: Instrument) -> (r: Self)
        ensures
            r == (Self { instrument: Some(value), ..self }),
    {
        Self { instrument: Some(value), ..self }
    }

    pub fn with_instrument_type<T: IntoText>(self, value: T) -> (r: Self)
        ensures
            opt_view(r.instrument_type) == Some(value.text_view()),
            r == (Self { instrument_type: r.instrument_type, ..self }),
    {
        Self { instrument_type: Some(value.into_text()), ..self }
    }

    pub fn with_margin_mode<T: IntoText>(self, value: T) -> (r: Self)
        ensures
            opt_view(r.margin_mode) == Some(value.text_view()),
            r == (Self { margin_mode: r.margin_mode, ..self }),
    {
        Self { margin_mode: Some(value.into_text()), ..self }
    }

    pub fn with_close_type<T: IntoText>(self, value: T) -> (r: Self)
        ensures
            opt_view(r.close_type) == Some(value.text_view()),
            r == (Self { close_type: r.close_type, ..self }),
    {
        Self { close_type: Some(value.into_text()), ..self }
    }

    pub fn with_position_id<T: IntoText>(self, value: T) -> (r: Self)
        ensures
            opt_view(r.position_id) == Some(value.text_view()),
            r == (Self { position_id: r.position_id, ..self }),
    {
        Self { position_id: Some(value.into_text()), ..self }
    }

    pub fn with_after<T: IntoText>(self, value: T) -> (r: Self)
        ensures
            opt_view(r.after) == Some(value.text_view()),
            r == (Self { after: r.after, ..self }),
    {
        Self { after: Some(value.into_text()), ..self }
    }

    pub fn with_before<T: IntoText>(self, value: T) -> (r: Self)
        ensures
            opt_view(r.before) == Some(value.text_view()),
            r == (Self { before: r.before, ..self }),
    {
        Self { before: Some(value.into_text()), ..self }
    }

    pub fn with_limit(self, value: u32) -> (r: Self)
        ensures
            r == (Self { limit: Some(value), ..self }),
    {
        Self { limit: Some(value), ..self }
    }
}

/// One closed position.
#[derive(Debug, Clone, PartialEq)]
pub struct PositionHistory {
    pub exchange: ExchangeId,
    pub instrument: Instrument,
    pub exchange_symbol: String,
    pub position_id: Option<String>,
    pub side: Option<String>,
    pub direction: Option<String>,
    pub leverage: Option<String>,
    pub margin_mode: Option<String>,
    pub open_avg_price: Option<String>,
    pub close_avg_price: Option<String>,
    pub open_max_position: Option<String>,
    pub close_total_position: Option<String>,
    pub realized_pnl: Option<String>,
    pub pnl: Option<String>,
    pub pnl_ratio: Option<String>,
    pub fee: Option<String>,
    pub funding_fee: Option<String>,
    pub liquidation_penalty: Option<String>,
    pub close_type: Option<String>,
    pub open_time: Option<u64>,
    pub close_time: Option<u64>,
    pub raw: JsonValue,
}

} // verus!
