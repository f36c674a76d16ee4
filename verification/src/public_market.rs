//! Credential-free OKX candle queries and the rows they return.
use crate::error::{Error, Result};
use crate::exchange::ExchangeId;
use crate::text::{concat, decimal, opt_view, owned, u64_to_text, IntoText};
use vstd::prelude::*;

verus! {

/// The most candles one OKX candle page holds.
pub const OKX_MAX_CANDLE_PAGE_SIZE: u32 = 300;

/// Which OKX candle dataset a query reads.
#[derive(Debug, Clone, Copy, PartialEq, Eq, Structural)]
pub enum OkxCandleDataset {
    /// The recent candles (at most 1,440).
    Recent,
    /// The longer history.
    History,
}

/// Settings of the public market client; it holds no credentials.
#[derive(Debug, Clone, Default, PartialEq, Eq)]
pub struct OkxPublicMarketConfig {
    /// An API base address other than the default, if any.
    pub api_url: Option<String>,
}

/// Settings of the public Binance USDⓈ-M kline and mark-price clients; they
/// hold no credentials.
#[derive(Debug, Clone, Default, PartialEq, Eq)]
pub struct BinanceUsdmPublicKlineConfig {
    /// An API base address other than the default, if any.
    pub api_url: Option<String>,
}

/// One page of OKX candles, with the time bounds the caller chose.
#[derive(Debug, Clone, PartialEq, Eq)]
pub struct OkxPublicCandleQuery {
    instrument_id: String,
    interval: String,
    limit: Option<u32>,
    after: Option<String>,
    before: Option<String>,
}

impl OkxPublicCandleQuery {
    pub closed spec fn instrument_id_view(&self) -> Seq<char> {
        self.instrument_id@
    }

    pub closed spec fn interval_view(&self) -> Seq<char> {
        self.interval@
    }

    pub closed spec fn limit_view(&self) -> Option<u32> {
        self.limit
    }

    pub closed spec fn after_view(&self) -> Option<Seq<char>> {
        opt_view(self.after)
    }

    pub closed spec fn before_view(&self) -> Option<Seq<char>> {
        opt_view(self.before)
    }

    /// A query of the OKX instrument id `instrument_id` (passed as given) with
    /// no page size and no bounds.
    pub fn new<I: IntoText, T: IntoText>(instrument_id: I, interval: T) -> (r: Self)
        ensures
            r.instrument_id_view() == instrument_id.text_view(),
            r.interval_view() == interval.text_view(),
            r.limit_view() is None,
            r.after_view() is None,
            r.before_view() is None,
    {
        OkxPublicCandleQuery {
            instrument_id: instrument_id.into_text(),
            interval: interval.into_text(),
            limit: None,
            after: None,
            before: None,
        }
    }

    /// Sets the page size.
    pub fn with_limit(self, value: u32) -> (r: Self)
        ensures
            r.limit_view() == Some(value),
            r.instrument_id_view() == self.instrument_id_view(),
            r.interval_view() == self.interval_view(),
            r.after_view() == self.after_view(),
            r.before_view() == self.before_view(),
    {
        Self { limit: Some(value), ..self }
    }

    /// Sets OKX's `after` bound, passed on as given.
    pub fn with_after<T: IntoText>(self, value: T) -> (r: Self)
        ensures
            r.after_view() == Some(value.text_view()),
            r.instrument_id_view() == self.instrument_id_view(),
            r.interval_view() == self.interval_view(),
            r.limit_view() == self.limit_view(),
            r.before_view() == self.before_view(),
    {
        Self { after: Some(value.into_text()), ..self }
    }

    /// Sets OKX's `before` bound, passed on as given.
    pub fn with_before<T: IntoText>(self, value: T) -> (r: Self)
        ensures
            r.before_view() == Some(value.text_view()),
            r.instrument_id_view() == self.instrument_id_view(),
            r.interval_view() == self.interval_view(),
            r.limit_view() == self.limit_view(),
            r.after_view() == self.after_view(),
    {
        Self { before: Some(value.into_text()), ..self }
    }
}

/// A printable ASCII character other than the space.
pub open spec fn is_ascii_graphic(c: char) -> bool {
    '!' <= c && c <= '~'
}

/// Why a candle query is refused before any request; none when it is valid.
pub open spec fn candle_query_rejection(query: OkxPublicCandleQuery) -> Option<Seq<char>> {
    let id = query.instrument_id_view();
    if id.len() == 0 || exists|k: int| 0 <= k < id.len() && !is_ascii_graphic(#[trigger] id[k]) {
        Some("OKX candle instId 必须是非空、无空白的可打印 ASCII"@)
    } else {
        match query.limit_view() {
            Some(limit) => if limit == 0 {
                Some("OKX candle limit 必须大于零"@)
            } else if limit > OKX_MAX_CANDLE_PAGE_SIZE {
                Some(
                    "OKX candle limit "@ + decimal(limit as nat) + " 超过上限 "@ + decimal(
                        OKX_MAX_CANDLE_PAGE_SIZE as nat,
                    ),
                )
            } else {
                None
            },
            None => None,
        }
    }
}

/// Refuses a query the client cannot send faithfully: an instrument id that is
/// empty or not printable ASCII, or a page size of zero or above the maximum.
pub fn validate_query(query: &OkxPublicCandleQuery) -> (r: Result<()>)
    ensures
        match candle_query_rejection(*query) {
            Some(message) => r matches Err(e) && e.is_adapter(ExchangeId::Okx, message),
            None => r is Ok,
        },
{
    let id = crate::text::chars_of(query.instrument_id.as_str());
    let mut printable = id.len() > 0;
    let mut i: usize = 0;
    while i < id.len()
        invariant
            i <= id.len(),
            id@ == query.instrument_id_view(),
            printable <==> (id@.len() > 0 && forall|k: int| 0 <= k < i ==> is_ascii_graphic(#[trigger] id@[k])),
        decreases id.len() - i,
    {
        if !('!' <= id[i] && id[i] <= '~') {
            printable = false;
        }
        i += 1;
    }
    if !printable {
        return Err(
            Error::Adapter {
                exchange: ExchangeId::Okx,
                message: owned("OKX candle instId 必须是非空、无空白的可打印 ASCII"),
            },
        );
    }
    if let Some(limit) = query.limit {
        if limit == 0 {
            return Err(
                Error::Adapter {
                    exchange: ExchangeId::Okx,
                    message: owned("OKX candle limit 必须大于零"),
                },
            );
        }
        if limit > OKX_MAX_CANDLE_PAGE_SIZE {
            let head = concat("OKX candle limit ", u64_to_text(limit as u64).as_str());
            let tail = concat(" 超过上限 ", u64_to_text(OKX_MAX_CANDLE_PAGE_SIZE as u64).as_str());
            assert(head@ + tail@ =~= "OKX candle limit "@ + decimal(limit as nat) + " 超过上限 "@
                + decimal(OKX_MAX_CANDLE_PAGE_SIZE as nat));
            return Err(
                Error::Adapter { exchange: ExchangeId::Okx, message: concat(head.as_str(), tail.as_str()) },
            );
        }
    }
    Ok(())
}

/// One OKX candle row as the candle endpoints return it.
#[derive(Debug, Clone, PartialEq, Eq)]
pub struct OkxCandleRow {
    pub ts: String,
    pub o: String,
    pub h: String,
    pub l: String,
    pub c: String,
    pub v: String,
    pub vol_ccy: String,
    pub vol_ccy_quote: String,
    pub confirm: String,
}

/// One OKX candle with every field OKX sends, volumes in their own units.
#[derive(Debug, Clone, PartialEq, Eq)]
pub struct OkxPublicCandle {
    /// Start of the candle, Unix milliseconds as text.
    pub timestamp: String,
    pub open: String,
    pub high: String,
    pub low: String,
    pub close: String,
    /// OKX `vol`.
    pub volume: String,
    /// OKX `volCcy`.
    pub volume_currency: String,
    /// OKX `volCcyQuote`.
    pub quote_volume: String,
    /// OKX `confirm`.
    pub confirm: String,
}

impl OkxPublicCandle {
    /// The candle of one row, all nine fields kept.
    pub fn from_row(row: OkxCandleRow) -> (r: Self)
        ensures
            r.timestamp == row.ts,
            r.open == row.o,
            r.high == row.h,
            r.low == row.l,
            r.close == row.c,
            r.volume == row.v,
            r.volume_currency == row.vol_ccy,
            r.quote_volume == row.vol_ccy_quote,
            r.confirm == row.confirm,
    {
        OkxPublicCandle {
            timestamp: row.ts,
            open: row.o,
            high: row.h,
            low: row.l,
            close: row.c,
            volume: row.v,
            volume_currency: row.vol_ccy,
            quote_volume: row.vol_ccy_quote,
            confirm: row.confirm,
        }
    }
}

} // verus!
