//! OKX market data: tickers, order books, candles, funding, mark prices,
//! open interest and trading statistics, and the queries of platform events.
use crate::error::{Error, Result};
use crate::exchange::ExchangeId;
use crate::instrument::Instrument;
use crate::json::{first_str_field, first_string_field, or_else, or_empty, u64_field, u64_field_spec, JsonValue};
use crate::market::{Candle, FundingRate, LongShortRatio, MarkPrice, OpenInterest, OrderBookLevel, TakerBuySellVolume, Ticker};
use crate::okx::{instrument_from_okx_symbol, is_okx_symbol_instrument, non_empty, parse_u64_string};
use crate::account::{MaxOrderSize, MaxOrderSizeRequest};
use crate::platform::{PlatformEvent, PlatformEventQuery};
use crate::text::{concat, copy_string, opt_view, owned, parse_i64, parse_i64_spec, parse_u64_spec, text_eq};
use vstd::prelude::*;

verus! {

broadcast use vstd::std_specs::vec::group_vec_axioms;

/// `o` is the markprice read from an item (see `okx_mark_price_from_value`).
pub open spec fn okx_mark_price_from_value_of(
    instrument: Instrument,
    symbol_hint: Option<String>,
    raw: JsonValue,
    o: MarkPrice,
) -> bool {
    match raw {
        JsonValue::Object(e) => {
            &&& o.exchange == ExchangeId::Okx
            &&& o.instrument == instrument
            &&& o.exchange_symbol@ == or_empty(or_else(first_str_field(e@, seq!["instId", "inst_id"]), opt_view(symbol_hint)))
            &&& o.mark_price@ == or_empty(first_str_field(e@, seq!["markPx", "markPrice"]))
            &&& opt_view(o.index_price) == first_str_field(e@, seq!["idxPx", "indexPrice", "indexPx"])
            &&& opt_view(o.funding_rate) == first_str_field(e@, seq!["fundingRate", "lastFundingRate"])
            &&& o.next_funding_time == u64_field_spec(e@, "nextFundingTime"@)
            &&& o.timestamp == u64_field_spec(e@, "ts"@)
            &&& o.raw == raw
        },
        _ => false,
    }
}

/// One OKX mark-price item.
pub fn okx_mark_price_from_value(
    instrument: Instrument,
    symbol_hint: Option<String>,
    raw: JsonValue,
) -> (r: Result<MarkPrice>)
    ensures
        raw is Object ==> (r matches Ok(o) && okx_mark_price_from_value_of(instrument, symbol_hint, raw, o)),
        !(raw is Object) ==> (r matches Err(err) && err.is_adapter(ExchangeId::Okx, "OKX mark price item is not an object"@)),
{
    let e = match &raw {
        JsonValue::Object(e) => e,
        _ => return Err(Error::Adapter { exchange: ExchangeId::Okx, message: owned("OKX mark price item is not an object") }),
    };
    let exchange_symbol = match { let k = ["instId", "inst_id"]; assert(k@ =~= seq!["instId", "inst_id"]); first_string_field(e, &k) } {
        Some(s) => s,
        None => match symbol_hint {
            Some(h) => h,
            None => String::new(),
        },
    };
    let exchange = ExchangeId::Okx;
    let instrument = instrument;
    let exchange_symbol = exchange_symbol;
    let mark_price = match { let k = ["markPx", "markPrice"]; assert(k@ =~= seq!["markPx", "markPrice"]); first_string_field(e, &k) } { Some(s) => s, None => String::new() };
    let index_price = { let k = ["idxPx", "indexPrice", "indexPx"]; assert(k@ =~= seq!["idxPx", "indexPrice", "indexPx"]); first_string_field(e, &k) };
    let funding_rate = { let k = ["fundingRate", "lastFundingRate"]; assert(k@ =~= seq!["fundingRate", "lastFundingRate"]); first_string_field(e, &k) };
    let next_funding_time = u64_field(e, "nextFundingTime");
    let timestamp = u64_field(e, "ts");
    Ok(MarkPrice { exchange, instrument, exchange_symbol, mark_price, index_price, funding_rate, next_funding_time, timestamp, raw: raw })
}

/// `o` is the openinterest read from an item (see `okx_open_interest_from_value`).
pub open spec fn okx_open_interest_from_value_of(
    instrument: Instrument,
    symbol_hint: Option<String>,
    raw: JsonValue,
    o: OpenInterest,
) -> bool {
    match raw {
        JsonValue::Object(e) => {
            &&& o.exchange == ExchangeId::Okx
            &&& o.instrument == instrument
            &&& o.exchange_symbol@ == or_empty(or_else(first_str_field(e@, seq!["instId", "inst_id"]), opt_view(symbol_hint)))
            &&& o.open_interest@ == or_empty(first_str_field(e@, seq!["oi", "openInterest"]))
            &&& opt_view(o.open_interest_value) == first_str_field(e@, seq!["oiCcy", "oiUsd", "openInterestValue"])
            &&& o.timestamp == u64_field_spec(e@, "ts"@)
            &&& o.raw == raw
        },
        _ => false,
    }
}

/// One OKX open-interest item.
pub fn okx_open_interest_from_value(
    instrument: Instrument,
    symbol_hint: Option<String>,
    raw: JsonValue,
) -> (r: Result<OpenInterest>)
    ensures
        raw is Object ==> (r matches Ok(o) && okx_open_interest_from_value_of(instrument, symbol_hint, raw, o)),
        !(raw is Object) ==> (r matches Err(err) && err.is_adapter(ExchangeId::Okx, "OKX open interest item is not an object"@)),
{
    let e = match &raw {
        JsonValue::Object(e) => e,
        _ => return Err(Error::Adapter { exchange: ExchangeId::Okx, message: owned("OKX open interest item is not an object") }),
    };
    let exchange_symbol = match { let k = ["instId", "inst_id"]; assert(k@ =~= seq!["instId", "inst_id"]); first_string_field(e, &k) } {
        Some(s) => s,
        None => match symbol_hint {
            Some(h) => h,
            None => String::new(),
        },
    };
    let exchange = ExchangeId::Okx;
    let instrument = instrument;
    let exchange_symbol = exchange_symbol;
    let open_interest = match { let k = ["oi", "openInterest"]; assert(k@ =~= seq!["oi", "openInterest"]); first_string_field(e, &k) } { Some(s) => s, None => String::new() };
    let open_interest_value = { let k = ["oiCcy", "oiUsd", "openInterestValue"]; assert(k@ =~= seq!["oiCcy", "oiUsd", "openInterestValue"]); first_string_field(e, &k) };
    let timestamp = u64_field(e, "ts");
    Ok(OpenInterest { exchange, instrument, exchange_symbol, open_interest, open_interest_value, timestamp, raw: raw })
}

/// A text that is not empty.
pub open spec fn filled(value: Seq<char>) -> Option<Seq<char>> {
    if value.len() > 0 {
        Some(value)
    } else {
        None
    }
}

/// An OKX ticker, as the ticker answer gives it.
#[derive(Debug, Clone, PartialEq, Eq)]
pub struct OkxTicker {
    pub inst_id: String,
    pub last: String,
    pub bid_px: String,
    pub ask_px: String,
    pub vol24h: String,
    pub ts: String,
}

/// The ticker of an OKX ticker record: its instrument id (else `symbol`);
/// the instrument asked for, else the perpetual that id stands for; `raw`
/// is the record as the answer wrote it.
pub fn okx_ticker_from_dto(instrument: Option<Instrument>, symbol: Option<String>, ticker: OkxTicker, raw: JsonValue) -> (r:
    Ticker)
    ensures
        r.exchange == ExchangeId::Okx,
        r.exchange_symbol@ == (if ticker.inst_id@.len() == 0 {
            or_empty(opt_view(symbol))
        } else {
            ticker.inst_id@
        }),
        match instrument {
            Some(i) => r.instrument == i,
            None => is_okx_symbol_instrument(r.instrument, r.exchange_symbol@),
        },
        r.last_price == ticker.last,
        opt_view(r.bid_price) == filled(ticker.bid_px@),
        opt_view(r.ask_price) == filled(ticker.ask_px@),
        opt_view(r.volume_24h) == filled(ticker.vol24h@),
        r.timestamp == parse_u64_spec(ticker.ts@),
        r.raw == raw,
{
    let exchange_symbol = if crate::text::text_is_empty(ticker.inst_id.as_str()) {
        match symbol {
            Some(s) => s,
            None => String::new(),
        }
    } else {
        ticker.inst_id
    };
    let instrument = match instrument {
        Some(i) => i,
        None => instrument_from_okx_symbol(exchange_symbol.as_str()),
    };
    Ticker {
        exchange: ExchangeId::Okx,
        instrument,
        exchange_symbol,
        last_price: ticker.last,
        bid_price: non_empty(ticker.bid_px),
        ask_price: non_empty(ticker.ask_px),
        volume_24h: non_empty(ticker.vol24h),
        timestamp: parse_u64_string(ticker.ts.as_str()),
        raw,
    }
}

/// The first ticker of an OKX ticker answer for `symbol`; an answer without
/// one is refused.
pub fn okx_first_ticker(tickers: Vec<OkxTicker>, symbol: &str) -> (r: Result<OkxTicker>)
    ensures
        tickers@.len() == 0 ==> (r matches Err(e) && e.is_adapter(
            ExchangeId::Okx,
            "OKX ticker response is empty for "@ + symbol@,
        )),
        tickers@.len() > 0 ==> r == Ok::<OkxTicker, Error>(tickers@[0]),
{
    let mut tickers = tickers;
    if tickers.len() == 0 {
        return Err(
            Error::Adapter { exchange: ExchangeId::Okx, message: concat("OKX ticker response is empty for ", symbol) },
        );
    }
    Ok(tickers.remove(0))
}

/// `raw` is a JSON array of the strings of `level`.
pub open spec fn strings_json(level: Seq<String>, raw: JsonValue) -> bool {
    &&& raw is Array
    &&& raw->Array_0@.len() == level.len()
    &&& forall|i: int|
        0 <= i < level.len() ==> ((#[trigger] raw->Array_0@[i]) matches JsonValue::String(s) && s@
            == level[i]@)
}

/// The first element of a row that is there, as text.
pub open spec fn row_text(level: Seq<String>, i: int) -> Seq<char> {
    if 0 <= i < level.len() {
        level[i]@
    } else {
        Seq::empty()
    }
}

/// The levels of one side of an OKX book: rows of strings `[price, size, ...]`.
pub fn okx_book_levels(levels: Vec<Vec<String>>) -> (r: Vec<OrderBookLevel>)
    ensures
        r@.len() == levels@.len(),
        forall|i: int|
            0 <= i < levels@.len() ==> {
                &&& (#[trigger] r@[i]).price@ == row_text(levels@[i]@, 0)
                &&& r@[i].size@ == row_text(levels@[i]@, 1)
                &&& strings_json(levels@[i]@, r@[i].raw)
            },
{
    let mut out: Vec<OrderBookLevel> = Vec::new();
    let mut i: usize = 0;
    while i < levels.len()
        invariant
            i <= levels.len(),
            out@.len() == i,
            forall|k: int|
                0 <= k < i ==> {
                    &&& (#[trigger] out@[k]).price@ == row_text(levels@[k]@, 0)
                    &&& out@[k].size@ == row_text(levels@[k]@, 1)
                    &&& strings_json(levels@[k]@, out@[k].raw)
                },
        decreases levels.len() - i,
    {
        let level = &levels[i];
        let price = if level.len() > 0 {
            copy_string(&level[0])
        } else {
            String::new()
        };
        let size = if level.len() > 1 {
            copy_string(&level[1])
        } else {
            String::new()
        };
        let mut values: Vec<JsonValue> = Vec::new();
        let mut j: usize = 0;
        while j < level.len()
            invariant
                j <= level.len(),
                values@.len() == j,
                forall|k: int|
                    0 <= k < j ==> ((#[trigger] values@[k]) matches JsonValue::String(s) && s@
                        == level@[k]@),
            decreases level.len() - j,
        {
            values.push(JsonValue::String(copy_string(&level[j])));
            j += 1;
        }
        out.push(OrderBookLevel { price, size, raw: JsonValue::Array(values) });
        i += 1;
    }
    out
}

/// An OKX candle, as the candle answer gives it.
#[derive(Debug, Clone, PartialEq, Eq)]
pub struct OkxCandle {
    pub ts: String,
    pub o: String,
    pub h: String,
    pub l: String,
    pub c: String,
    pub v: String,
    pub vol_ccy_quote: String,
    pub confirm: String,
}

/// The candle of an OKX candle record (`confirm` `1` is closed, `0` open);
/// `raw` is the record as the answer wrote it.
pub fn okx_candle_from_dto(instrument: &Instrument, exchange_symbol: &str, candle: OkxCandle, raw: JsonValue) -> (r:
    Candle)
    ensures
        r.exchange == ExchangeId::Okx,
        r.instrument.same_as(*instrument),
        r.exchange_symbol@ == exchange_symbol@,
        r.open_time == parse_u64_spec(candle.ts@),
        r.close_time is None,
        r.open == candle.o,
        r.high == candle.h,
        r.low == candle.l,
        r.close == candle.c,
        r.volume == candle.v,
        opt_view(r.quote_volume) == filled(candle.vol_ccy_quote@),
        r.closed == (if candle.confirm@ == "1"@ {
            Some(true)
        } else if candle.confirm@ == "0"@ {
            Some(false)
        } else {
            None
        }),
        r.raw == raw,
{
    let closed = if text_eq(candle.confirm.as_str(), "1") {
        Some(true)
    } else if text_eq(candle.confirm.as_str(), "0") {
        Some(false)
    } else {
        None
    };
    Candle {
        exchange: ExchangeId::Okx,
        instrument: instrument.duplicate(),
        exchange_symbol: owned(exchange_symbol),
        open_time: parse_u64_string(candle.ts.as_str()),
        close_time: None,
        open: candle.o,
        high: candle.h,
        low: candle.l,
        close: candle.c,
        volume: candle.v,
        quote_volume: non_empty(candle.vol_ccy_quote),
        closed,
        raw,
    }
}

/// An OKX funding-rate record (current rate, or a history entry, which has
/// no next rate or time).
#[derive(Debug, Clone, PartialEq, Eq)]
pub struct OkxFundingRate {
    pub inst_id: String,
    pub funding_rate: String,
    pub funding_time: String,
    pub next_funding_rate: String,
    pub next_funding_time: String,
}

/// The funding rate of an OKX current funding-rate record.
pub fn okx_funding_rate_from_dto(instrument: Instrument, symbol_hint: Option<String>, item: OkxFundingRate, raw: JsonValue) -> (r:
    FundingRate)
    ensures
        r.exchange == ExchangeId::Okx,
        r.instrument == instrument,
        r.exchange_symbol@ == (if item.inst_id@.len() == 0 {
            or_empty(opt_view(symbol_hint))
        } else {
            item.inst_id@
        }),
        r.funding_rate == item.funding_rate,
        r.funding_time == parse_u64_spec(item.funding_time@),
        opt_view(r.next_funding_rate) == filled(item.next_funding_rate@),
        r.next_funding_time == parse_u64_spec(item.next_funding_time@),
        r.mark_price is None,
        r.raw == raw,
{
    let exchange_symbol = if crate::text::text_is_empty(item.inst_id.as_str()) {
        match symbol_hint {
            Some(s) => s,
            None => String::new(),
        }
    } else {
        item.inst_id
    };
    FundingRate {
        exchange: ExchangeId::Okx,
        instrument,
        exchange_symbol,
        funding_rate: item.funding_rate,
        funding_time: parse_u64_string(item.funding_time.as_str()),
        next_funding_rate: non_empty(item.next_funding_rate),
        next_funding_time: parse_u64_string(item.next_funding_time.as_str()),
        mark_price: None,
        raw,
    }
}

/// The funding rate of an OKX funding history record.
pub fn okx_funding_rate_from_history_dto(instrument: Instrument, symbol_hint: Option<String>, item: OkxFundingRate, raw: JsonValue) -> (r:
    FundingRate)
    ensures
        r.exchange == ExchangeId::Okx,
        r.instrument == instrument,
        r.exchange_symbol@ == (if item.inst_id@.len() == 0 {
            or_empty(opt_view(symbol_hint))
        } else {
            item.inst_id@
        }),
        r.funding_rate == item.funding_rate,
        r.funding_time == parse_u64_spec(item.funding_time@),
        r.next_funding_rate is None,
        r.next_funding_time is None,
        r.mark_price is None,
        r.raw == raw,
{
    let exchange_symbol = if crate::text::text_is_empty(item.inst_id.as_str()) {
        match symbol_hint {
            Some(s) => s,
            None => String::new(),
        }
    } else {
        item.inst_id
    };
    FundingRate {
        exchange: ExchangeId::Okx,
        instrument,
        exchange_symbol,
        funding_rate: item.funding_rate,
        funding_time: parse_u64_string(item.funding_time.as_str()),
        next_funding_rate: None,
        next_funding_time: None,
        mark_price: None,
        raw,
    }
}

/// The first funding record of an OKX answer for `symbol`; an answer
/// without one is refused.
pub fn okx_first_funding_rate(items: Vec<OkxFundingRate>, symbol: &str) -> (r: Result<OkxFundingRate>)
    ensures
        items@.len() == 0 ==> (r matches Err(e) && e.is_adapter(
            ExchangeId::Okx,
            "OKX funding rate response is empty for "@ + symbol@,
        )),
        items@.len() > 0 ==> r == Ok::<OkxFundingRate, Error>(items@[0]),
{
    let mut items = items;
    if items.len() == 0 {
        return Err(
            Error::Adapter { exchange: ExchangeId::Okx, message: concat("OKX funding rate response is empty for ", symbol) },
        );
    }
    Ok(items.remove(0))
}

/// A signed numeric filter of an OKX query; other text is refused.
pub fn parse_i64_filter(field: &str, value: &str) -> (r: Result<i64>)
    ensures
        match parse_i64_spec(value@) {
            Some(n) => r == Ok::<i64, Error>(n),
            None => r matches Err(e) && e.is_adapter(
                ExchangeId::Okx,
                "OKX "@ + field@ + " filter must be numeric: "@ + value@,
            ),
        },
{
    match parse_i64(value) {
        Some(n) => Ok(n),
        None => {
            let a = concat("OKX ", field);
            let b = concat(a.as_str(), " filter must be numeric: ");
            Err(Error::Adapter { exchange: ExchangeId::Okx, message: concat(b.as_str(), value) })
        },
    }
}

/// The first item of an OKX answer: the first element of an array, or an
/// object itself.
pub fn first_object_value(raw: JsonValue, label: &str) -> (r: Result<JsonValue>)
    ensures
        match raw {
            JsonValue::Array(v) => if v@.len() > 0 {
                r == Ok::<JsonValue, Error>(v@[0])
            } else {
                r matches Err(e) && e.is_adapter(ExchangeId::Okx, label@ + " is empty"@)
            },
            JsonValue::Object(_) => r == Ok::<JsonValue, Error>(raw),
            _ => r matches Err(e) && e.is_adapter(
                ExchangeId::Okx,
                label@ + " is neither an array nor an object"@,
            ),
        },
{
    match raw {
        JsonValue::Array(mut values) => {
            if values.len() == 0 {
                return Err(Error::Adapter { exchange: ExchangeId::Okx, message: concat(label, " is empty") });
            }
            Ok(values.remove(0))
        },
        JsonValue::Object(_) => Ok(raw),
        _ => Err(
            Error::Adapter {
                exchange: ExchangeId::Okx,
                message: concat(label, " is neither an array nor an object"),
            },
        ),
    }
}

/// Element `i` of a row of strings when it is not empty.
pub open spec fn okx_string_at_spec(values: Seq<String>, i: int) -> Option<Seq<char>> {
    if 0 <= i < values.len() && values[i]@.len() > 0 {
        Some(values[i]@)
    } else {
        None
    }
}

/// Element `i` of a row of strings when it is not empty.
pub fn okx_string_at(values: &Vec<String>, index: usize) -> (r: Option<String>)
    ensures
        opt_view(r) == okx_string_at_spec(values@, index as int),
{
    if index < values.len() && !crate::text::text_is_empty(values[index].as_str()) {
        Some(copy_string(&values[index]))
    } else {
        None
    }
}

/// Element `i` of a row of strings as a number.
pub open spec fn okx_u64_at_spec(values: Seq<String>, i: int) -> Option<u64> {
    if 0 <= i < values.len() {
        parse_u64_spec(values[i]@)
    } else {
        None
    }
}

/// Element `i` of a row of strings as a number.
pub fn okx_u64_at(values: &Vec<String>, index: usize) -> (r: Option<u64>)
    ensures
        r == okx_u64_at_spec(values@, index as int),
{
    if index < values.len() {
        crate::text::parse_u64(values[index].as_str())
    } else {
        None
    }
}

fn strings_to_json(values: &Vec<String>) -> (r: JsonValue)
    ensures
        strings_json(values@, r),
{
    let mut out: Vec<JsonValue> = Vec::new();
    let mut j: usize = 0;
    while j < values.len()
        invariant
            j <= values.len(),
            out@.len() == j,
            forall|k: int| 0 <= k < j ==> ((#[trigger] out@[k]) matches JsonValue::String(s) && s@ == values@[k]@),
        decreases values.len() - j,
    {
        out.push(JsonValue::String(copy_string(&values[j])));
        j += 1;
    }
    JsonValue::Array(out)
}

/// The long/short ratio of an OKX statistics row `[ts, ratio]`.
pub fn okx_long_short_ratio_from_values(instrument: Instrument, exchange_symbol: String, period: String, values: Vec<String>) -> (r:
    LongShortRatio)
    ensures
        r.exchange == ExchangeId::Okx,
        r.instrument == instrument,
        r.exchange_symbol == exchange_symbol,
        r.period == period,
        r.ratio@ == or_empty(okx_string_at_spec(values@, 1)),
        r.long_ratio is None,
        r.short_ratio is None,
        r.timestamp == okx_u64_at_spec(values@, 0),
        strings_json(values@, r.raw),
{
    let raw = strings_to_json(&values);
    let ratio = match okx_string_at(&values, 1) {
        Some(v) => v,
        None => String::new(),
    };
    LongShortRatio {
        exchange: ExchangeId::Okx,
        instrument,
        exchange_symbol,
        period,
        ratio,
        long_ratio: None,
        short_ratio: None,
        timestamp: okx_u64_at(&values, 0),
        raw,
    }
}

/// The taker volume of an OKX statistics row `[ts, sell volume, buy volume]`.
pub fn okx_taker_volume_from_values(instrument: Instrument, exchange_symbol: String, period: String, values: Vec<String>) -> (r:
    TakerBuySellVolume)
    ensures
        r.exchange == ExchangeId::Okx,
        r.instrument == instrument,
        r.exchange_symbol == exchange_symbol,
        r.period == period,
        r.buy_volume@ == or_empty(okx_string_at_spec(values@, 2)),
        r.sell_volume@ == or_empty(okx_string_at_spec(values@, 1)),
        r.buy_sell_ratio is None,
        r.timestamp == okx_u64_at_spec(values@, 0),
        strings_json(values@, r.raw),
{
    let raw = strings_to_json(&values);
    let buy = match okx_string_at(&values, 2) {
        Some(v) => v,
        None => String::new(),
    };
    let sell = match okx_string_at(&values, 1) {
        Some(v) => v,
        None => String::new(),
    };
    TakerBuySellVolume {
        exchange: ExchangeId::Okx,
        instrument,
        exchange_symbol,
        period,
        buy_volume: buy,
        sell_volume: sell,
        buy_sell_ratio: None,
        timestamp: okx_u64_at(&values, 0),
        raw,
    }
}

/// An OKX maximum order size record.
#[derive(Debug, Clone, PartialEq, Eq)]
pub struct OkxMaxSize {
    pub inst_id: String,
    pub ccy: String,
    pub max_buy: String,
    pub max_sell: String,
}

/// The maximum order size of an OKX record, in the units OKX gives; the
/// margin coin is the record's, else the one asked for.
pub fn okx_max_order_size_from_dto(instrument: Instrument, symbol_hint: String, request: MaxOrderSizeRequest, item: OkxMaxSize, raw: JsonValue) -> (r:
    MaxOrderSize)
    ensures
        r.exchange == ExchangeId::Okx,
        r.instrument == instrument,
        r.exchange_symbol@ == (if item.inst_id@.len() == 0 {
            symbol_hint@
        } else {
            item.inst_id@
        }),
        r.margin_mode == request.margin_mode,
        opt_view(r.margin_coin) == (if item.ccy@.len() > 0 {
            Some(item.ccy@)
        } else {
            opt_view(request.margin_coin)
        }),
        r.max_buy == item.max_buy,
        r.max_sell == item.max_sell,
        r.raw == raw,
{
    let exchange_symbol = if crate::text::text_is_empty(item.inst_id.as_str()) {
        symbol_hint
    } else {
        item.inst_id
    };
    let margin_coin = match non_empty(item.ccy) {
        Some(c) => Some(c),
        None => request.margin_coin,
    };
    MaxOrderSize {
        exchange: ExchangeId::Okx,
        instrument,
        exchange_symbol,
        margin_mode: request.margin_mode,
        margin_coin,
        max_buy: item.max_buy,
        max_sell: item.max_sell,
        raw,
    }
}

/// OKX's margin mode of a position or setting.
#[derive(Debug, Clone, Copy, PartialEq, Eq)]
pub enum OkxMarginMode {
    Cross,
    Isolated,
}

/// The name of an OKX margin mode.
pub fn okx_margin_mode_from_enum(value: OkxMarginMode) -> (r: &'static str)
    ensures
        r@ == (match value {
            OkxMarginMode::Cross => "cross"@,
            OkxMarginMode::Isolated => "isolated"@,
        }),
{
    match value {
        OkxMarginMode::Cross => "cross",
        OkxMarginMode::Isolated => "isolated",
    }
}

/// OKX system status takes no filter.
pub fn ensure_system_status_query(query: &PlatformEventQuery) -> (r: Result<()>)
    ensures
        (query.locale is Some || query.event_type is Some || query.tag is Some || query.page is Some
            || query.limit is Some || query.id is Some || query.state is Some) ==> (r matches Err(e)
            && e.is_unsupported(ExchangeId::Okx, "platform system status filters"@)),
        !(query.locale is Some || query.event_type is Some || query.tag is Some || query.page is Some
            || query.limit is Some || query.id is Some || query.state is Some) ==> r is Ok,
{
    if query.locale.is_some() || query.event_type.is_some() || query.tag.is_some() || query.page.is_some()
        || query.limit.is_some() || query.id.is_some() || query.state.is_some() {
        return Err(
            Error::Unsupported { exchange: ExchangeId::Okx, capability: "platform system status filters" },
        );
    }
    Ok(())
}

/// The languages of OKX announcements.
#[derive(Debug, Clone, Copy, PartialEq, Eq)]
pub enum OkxLanguage {
    EnUs,
    ZhCn,
}

/// The OKX announcement language of a query's locale: English for `en-US`
/// or `en`, Chinese for `zh-CN` or `zh`, none without a locale; any other
/// locale is unsupported.
pub fn announcement_language(query: &PlatformEventQuery) -> (r: Result<Option<OkxLanguage>>)
    ensures
        match query.locale {
            None => r == Ok::<Option<OkxLanguage>, Error>(None),
            Some(l) => if l@ == "en-US"@ || l@ == "en"@ {
                r == Ok::<Option<OkxLanguage>, Error>(Some(OkxLanguage::EnUs))
            } else if l@ == "zh-CN"@ || l@ == "zh"@ {
                r == Ok::<Option<OkxLanguage>, Error>(Some(OkxLanguage::ZhCn))
            } else {
                r matches Err(e) && e.is_unsupported(ExchangeId::Okx, "platform announcements locale"@)
            },
        },
{
    match &query.locale {
        None => Ok(None),
        Some(l) => {
            let s = l.as_str();
            if text_eq(s, "en-US") || text_eq(s, "en") {
                Ok(Some(OkxLanguage::EnUs))
            } else if text_eq(s, "zh-CN") || text_eq(s, "zh") {
                Ok(Some(OkxLanguage::ZhCn))
            } else {
                Err(Error::Unsupported { exchange: ExchangeId::Okx, capability: "platform announcements locale" })
            }
        },
    }
}

/// OKX announcements take no tag, limit, id or state filter.
pub fn ensure_okx_announcements_query(query: &PlatformEventQuery) -> (r: Result<()>)
    ensures
        (query.tag is Some || query.limit is Some || query.id is Some || query.state is Some) ==> (r matches Err(e)
            && e.is_unsupported(ExchangeId::Okx, "platform announcements filters"@)),
        !(query.tag is Some || query.limit is Some || query.id is Some || query.state is Some) ==> r is Ok,
{
    if query.tag.is_some() || query.limit.is_some() || query.id.is_some() || query.state.is_some() {
        return Err(
            Error::Unsupported { exchange: ExchangeId::Okx, capability: "platform announcements filters" },
        );
    }
    Ok(())
}

/// An OKX system status record.
#[derive(Debug, Clone, PartialEq, Eq)]
pub struct OkxSystemStatus {
    pub system: Option<String>,
    pub title: String,
    pub state: String,
    pub href: Option<String>,
    pub begin: Option<String>,
    pub end: Option<String>,
}

/// A text that is there and not empty.
pub open spec fn filled_opt(value: Option<String>) -> Option<Seq<char>> {
    match value {
        Some(v) => filled(v@),
        None => None,
    }
}

/// A time that is there and numeric.
pub open spec fn time_opt(value: Option<String>) -> Option<u64> {
    match value {
        Some(v) => parse_u64_spec(v@),
        None => None,
    }
}

fn non_empty_opt(value: Option<String>) -> (r: Option<String>)
    ensures
        opt_view(r) == filled_opt(value),
{
    match value {
        Some(v) => non_empty(v),
        None => None,
    }
}

fn time_of(value: &Option<String>) -> (r: Option<u64>)
    ensures
        r == time_opt(*value),
{
    match value {
        Some(v) => parse_u64_string(v.as_str()),
        None => None,
    }
}

/// The event of an OKX system status record; `raw` is the record as the
/// answer wrote it.
pub fn system_status_event(status: OkxSystemStatus, raw: JsonValue) -> (r: PlatformEvent)
    ensures
        r.exchange == ExchangeId::Okx,
        r.event_type@ == "system_status"@,
        opt_view(r.event_id) == filled_opt(status.system),
        opt_view(r.title) == filled(status.title@),
        opt_view(r.status) == filled(status.state@),
        opt_view(r.url) == filled_opt(status.href),
        r.start_time == time_opt(status.begin),
        r.end_time == time_opt(status.end),
        r.published_at is None,
        r.raw == raw,
{
    let start_time = time_of(&status.begin);
    let end_time = time_of(&status.end);
    PlatformEvent {
        exchange: ExchangeId::Okx,
        event_type: owned("system_status"),
        event_id: non_empty_opt(status.system),
        title: non_empty(status.title),
        status: non_empty(status.state),
        url: non_empty_opt(status.href),
        start_time,
        end_time,
        published_at: None,
        raw,
    }
}

/// An OKX announcement record.
#[derive(Debug, Clone, PartialEq, Eq)]
pub struct OkxAnnouncement {
    pub title: String,
    pub ann_type: String,
    pub url: String,
    pub p_time: String,
}

/// The event of an OKX announcement record; `raw` is the record as the
/// answer wrote it.
pub fn okx_announcement_event(detail: OkxAnnouncement, raw: JsonValue) -> (r: PlatformEvent)
    ensures
        r.exchange == ExchangeId::Okx,
        r.event_type@ == "announcement"@,
        r.event_id is None,
        opt_view(r.title) == filled(detail.title@),
        opt_view(r.status) == filled(detail.ann_type@),
        opt_view(r.url) == filled(detail.url@),
        r.start_time is None,
        r.end_time is None,
        r.published_at == parse_u64_spec(detail.p_time@),
        r.raw == raw,
{
    let published_at = parse_u64_string(detail.p_time.as_str());
    PlatformEvent {
        exchange: ExchangeId::Okx,
        event_type: owned("announcement"),
        event_id: None,
        title: non_empty(detail.title),
        status: non_empty(detail.ann_type),
        url: non_empty(detail.url),
        start_time: None,
        end_time: None,
        published_at,
        raw,
    }
}

} // verus!
