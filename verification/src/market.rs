//! Market data: tickers, order books, candles, funding and statistics.
use crate::exchange::ExchangeId;
use crate::instrument::Instrument;
use crate::json::JsonValue;
use crate::text::{opt_view, IntoText};
use vstd::prelude::*;

verus! {

/// The latest price summary of an instrument.
#[derive(Debug, Clone, PartialEq)]
pub struct Ticker {
    pub exchange: ExchangeId,
    pub instrument: Instrument,
    pub exchange_symbol: String,
    pub last_price: String,
    pub bid_price: Option<String>,
    pub ask_price: Option<String>,
    pub volume_24h: Option<String>,
    pub timestamp: Option<u64>,
    pub raw: JsonValue,
}

/// One price level of an order book.
#[derive(Debug, Clone, PartialEq)]
pub struct OrderBookLevel {
    pub price: String,
    pub size: String,
    pub raw: JsonValue,
}

/// Bids and asks of an instrument.
#[derive(Debug, Clone, PartialEq)]
pub struct OrderBook {
    pub exchange: ExchangeId,
    pub instrument: Instrument,
    pub exchange_symbol: String,
    pub bids: Vec<OrderBookLevel>,
    pub asks: Vec<OrderBookLevel>,
    pub timestamp: Option<u64>,
    pub raw: JsonValue,
}

/// Which order book to read, and how deep.
#[derive(Debug, Clone, PartialEq, Eq)]
pub struct OrderBookQuery {
    pub instrument: Instrument,
    pub limit: Option<u32>,
}

impl OrderBookQuery {
    /// A query with the exchange's default depth.
    pub fn new(instrument: Instrument) -> (r: Self)
        ensures
            r.instrument == instrument,
            r.limit is None,
    {
        Self {
            instrument,
            limit: None,
        }
    }

    pub fn with_limit(self, value: u32) -> (r: Self)
        ensures
            r == (Self { limit: Some(value), ..self }),
    {
        Self { limit: Some(value), ..self }
    }
}

/// One candlestick.
#[derive(Debug, Clone, PartialEq)]
pub struct Candle {
    pub exchange: ExchangeId,
    pub instrument: Instrument,
    pub exchange_symbol: String,
    pub open_time: Option<u64>,
    pub close_time: Option<u64>,
    pub open: String,
    pub high: String,
    pub low: String,
    pub close: String,
    pub volume: String,
    pub quote_volume: Option<String>,
    pub closed: Option<bool>,
    pub raw: JsonValue,
}

/// Which candles to read.
#[derive(Debug, Clone, PartialEq, Eq)]
pub struct CandleQuery {
    pub instrument: Instrument,
    pub interval: String,
    pub limit: Option<u32>,
    pub after: Option<String>,
    pub before: Option<String>,
    pub start_time: Option<u64>,
    pub end_time: Option<u64>,
}

impl CandleQuery {
    /// Candles of `interval` with no range set.
    pub fn new<T: IntoText>(instrument: Instrument, interval: T) -> (r: Self)
        ensures
            r.instrument == instrument,
            r.interval@ == interval.text_view(),
            r.limit is None,
            r.after is None,
            r.before is None,
            r.start_time is None,
            r.end_time is None,
    {
        Self {
            instrument,
            interval: interval.into_text(),
            limit: None,
            after: None,
            before: None,
            start_time: None,
            end_time: None,
        }
    }

    pub fn with_limit(self, value: u32) -> (r: Self)
        ensures
            r == (Self { limit: Some(value), ..self }),
    {
        Self { limit: Some(value), ..self }
    }

    pub fn with_after<T: IntoText>(self, value: T) -> (r: Self)
        ensures
            opt_view(r.after) == Some(value.text_view()),
            r == (Self { after: r.after, ..self }),
    {
        Self { after: Some(value.into_text()), ..self }
    }

    pub fn with_before<T: IntoText>(self, value: T) -> (r: Self)
        ensures
            opt_view(r.before) == Some(value.text_view()),
            r == (Self { before: r.before, ..self }),
    {
        Self { before: Some(value.into_text()), ..self }
    }

    pub fn with_start_time(self, value: u64) -> (r: Self)
        ensures
            r == (Self { start_time: Some(value), ..self }),
    {
        Self { start_time: Some(value), ..self }
    }

    pub fn with_end_time(self, value: u64) -> (r: Self)
        ensures
            r == (Self { end_time: Some(value), ..self }),
    {
        Self { end_time: Some(value), ..self }
    }
}

/// A funding rate of a perpetual instrument.
#[derive(Debug, Clone, PartialEq)]
pub struct FundingRate {
    pub exchange: ExchangeId,
    pub instrument: Instrument,
    pub exchange_symbol: String,
    pub funding_rate: String,
    pub funding_time: Option<u64>,
    pub next_funding_rate: Option<String>,
    pub next_funding_time: Option<u64>,
    pub mark_price: Option<String>,
    pub raw: JsonValue,
}

/// Which funding rates to read.
#[derive(Debug, Clone, PartialEq, Eq)]
pub struct FundingRateQuery {
    pub instrument: Instrument,
    pub limit: Option<u32>,
    pub start_time: Option<u64>,
    pub end_time: Option<u64>,
    pub after: Option<String>,
    pub before: Option<String>,
}

impl FundingRateQuery {
    /// Funding history with no range set.
    pub fn new(instrument: Instrument) -> (r: Self)
        ensures
            r.instrument == instrument,
            r.limit is None,
            r.start_time is None,
            r.end_time is None,
            r.after is None,
            r.before is None,
    {
        Self {
            instrument,
            limit: None,
            start_time: None,
            end_time: None,
            after: None,
            before: None,
        }
    }

    pub fn with_limit(self, value: u32) -> (r: Self)
        ensures
            r == (Self { limit: Some(value), ..self }),
    {
        Self { limit: Some(value), ..self }
    }

    pub fn with_start_time(self, value: u64) -> (r: Self)
        ensures
            r == (Self { start_time: Some(value), ..self }),
    {
        Self { start_time: Some(value), ..self }
    }

    pub fn with_end_time(self, value: u64) -> (r: Self)
        ensures
            r == (Self { end_time: Some(value), ..self }),
    {
        Self { end_time: Some(value), ..self }
    }

    pub fn with_after<T: IntoText>(self, value: T) -> (r: Self)
        ensures
            opt_view(r.after) == Some(value.text_view()),
            r == (Self { after: r.after, ..self }),
    {
        Self { after: Some(value.into_text()), ..self }
    }

    pub fn with_before<T: IntoText>(self, value: T) -> (r: Self)
        ensures
            opt_view(r.before) == Some(value.text_view()),
            r == (Self { before: r.before, ..self }),
    {
        Self { before: Some(value.into_text()), ..self }
    }
}

/// The mark price of an instrument.
#[derive(Debug, Clone, PartialEq)]
pub struct MarkPrice {
    pub exchange: ExchangeId,
    pub instrument: Instrument,
    pub exchange_symbol: String,
    pub mark_price: String,
    pub index_price: Option<String>,
    pub funding_rate: Option<String>,
    pub next_funding_time: Option<u64>,
    pub timestamp: Option<u64>,
    pub raw: JsonValue,
}

/// The open interest of an instrument.
#[derive(Debug, Clone, PartialEq)]
pub struct OpenInterest {
    pub exchange: ExchangeId,
    pub instrument: Instrument,
    pub exchange_symbol: String,
    pub open_interest: String,
    pub open_interest_value: Option<String>,
    pub timestamp: Option<u64>,
    pub raw: JsonValue,
}

/// Which trading statistics to read.
#[derive(Debug, Clone, PartialEq, Eq)]
pub struct MarketStatsQuery {
    pub instrument: Instrument,
    pub period: String,
    pub limit: Option<u32>,
    pub start_time: Option<u64>,
    pub end_time: Option<u64>,
}

impl MarketStatsQuery {
    /// Statistics of `period` with no range set.
    pub fn new<T: IntoText>(instrument: Instrument, period: T) -> (r: Self)
        ensures
            r.instrument == instrument,
            r.period@ == period.text_view(),
            r.limit is None,
            r.start_time is None,
            r.end_time is None,
    {
        Self {
            instrument,
            period: period.into_text(),
            limit: None,
            start_time: None,
            end_time: None,
        }
    }

    pub fn with_limit(self, value: u32) -> (r: Self)
        ensures
            r == (Self { limit: Some(value), ..self }),
    {
        Self { limit: Some(value), ..self }
    }

    pub fn with_start_time(self, value: u64) -> (r: Self)
        ensures
            r == (Self { start_time: Some(value), ..self }),
    {
        Self { start_time: Some(value), ..self }
    }

    pub fn with_end_time(self, value: u64) -> (r: Self)
        ensures
            r == (Self { end_time: Some(value), ..self }),
    {
        Self { end_time: Some(value), ..self }
    }
}

/// The long/short account ratio of one period.
#[derive(Debug, Clone, PartialEq)]
pub struct LongShortRatio {
    pub exchange: ExchangeId,
    pub instrument: Instrument,
    pub exchange_symbol: String,
    pub period: String,
    pub ratio: String,
    pub long_ratio: Option<String>,
    pub short_ratio: Option<String>,
    pub timestamp: Option<u64>,
    pub raw: JsonValue,
}

/// Taker buy and sell volume of one period.
#[derive(Debug, Clone, PartialEq)]
pub struct TakerBuySellVolume {
    pub exchange: ExchangeId,
    pub instrument: Instrument,
    pub exchange_symbol: String,
    pub period: String,
    pub buy_volume: String,
    pub sell_volume: String,
    pub buy_sell_ratio: Option<String>,
    pub timestamp: Option<u64>,
    pub raw: JsonValue,
}

} // verus!
