//! Bybit V5: the fields of Bybit answers, intervals and periods, and market
//! data.
pub mod account;
pub mod stats;
pub mod trade;

use crate::error::{Error, Result};
use crate::exchange::ExchangeId;
use crate::instrument::Instrument;
use crate::json::{list_member, obj_lookup, plain_str, plain_string_field, plain_u64, plain_u64_field, take_list, u64_of, JsonValue};
use crate::market::{Candle, OrderBook, OrderBookLevel, Ticker};
use crate::text::{
    ascii_lower, ascii_upper, chars_of, chars_slice_text, concat, copy_string, ends_with, opt_view,
    owned, text_eq, trim, trim_text, eq_ignore_ascii_case, decimal, lower_char,
};
use vstd::prelude::*;

verus! {

broadcast use vstd::std_specs::vec::group_vec_axioms;

/// The first element of an answer's `list`; none is the adapter error
/// "`context` is empty".
pub fn first_list_item<'a>(raw: &'a JsonValue, context: &str) -> (r: Result<&'a JsonValue>)
    ensures
        list_member(*raw, "list"@).len() > 0 ==> r == Ok::<&JsonValue, Error>(&list_member(*raw, "list"@)[0]),
        list_member(*raw, "list"@).len() == 0 ==> (r matches Err(e) && e.is_adapter(
            ExchangeId::Bybit,
            context@ + " is empty"@,
        )),
{
    let e = match raw {
        JsonValue::Object(e) => e,
        _ => return Err(Error::Adapter { exchange: ExchangeId::Bybit, message: concat(context, " is empty") }),
    };
    match obj_lookup(e, "list") {
        Some(JsonValue::Array(items)) => {
            if items.len() > 0 {
                Ok(&items[0])
            } else {
                Err(Error::Adapter { exchange: ExchangeId::Bybit, message: concat(context, " is empty") })
            }
        },
        _ => Err(Error::Adapter { exchange: ExchangeId::Bybit, message: concat(context, " is empty") }),
    }
}

/// The Bybit kline interval of a candle interval: minutes as a number,
/// hours in minutes, `D`, `W` and `M` for a day, a week and a month.
pub open spec fn bybit_interval_spec(interval: Seq<char>) -> Seq<char> {
    let t = trim(interval);
    if t == "1M"@ {
        "M"@
    } else if t.len() > 0 && (t.last() == 'm' || t.last() == 'M') {
        t.drop_last()
    } else if same_ci(t, "1h"@) {
        "60"@
    } else if same_ci(t, "2h"@) {
        "120"@
    } else if same_ci(t, "4h"@) {
        "240"@
    } else if same_ci(t, "6h"@) {
        "360"@
    } else if same_ci(t, "12h"@) {
        "720"@
    } else if same_ci(t, "1d"@) || same_ci(t, "1Dutc"@) {
        "D"@
    } else if same_ci(t, "1w"@) {
        "W"@
    } else {
        t
    }
}

/// A candle interval of whole hours that Bybit has a kline for (1, 2, 4, 6
/// or 12 hours; `h` in any case, surrounding white space ignored) is sent as
/// the same span in minutes.
pub proof fn bybit_hour_intervals_keep_their_span(interval: Seq<char>, hours: nat)
    requires
        hours == 1 || hours == 2 || hours == 4 || hours == 6 || hours == 12,
        same_ci(trim(interval), decimal(hours) + "h"@),
    ensures
        bybit_interval_spec(interval) == decimal(hours * 60),
{
    reveal_strlit("h");
    reveal_strlit("1M");
    reveal_strlit("1h");
    reveal_strlit("2h");
    reveal_strlit("4h");
    reveal_strlit("6h");
    reveal_strlit("12h");
    reveal_strlit("60");
    reveal_strlit("120");
    reveal_strlit("240");
    reveal_strlit("360");
    reveal_strlit("720");
    reveal_with_fuel(decimal, 4);
    let t = trim(interval);
    let want = decimal(hours) + "h"@;
    assert(ascii_lower(t) == ascii_lower(want));
    assert(ascii_lower(t).len() == t.len());
    assert(t.len() == want.len());
    let n = t.len() - 1;
    assert(ascii_lower(t)[n] == lower_char(t[n]));
    assert(ascii_lower(want)[n] == lower_char(want[n]));
    assert(want[n] == 'h');
    assert(t.last() != 'm' && t.last() != 'M');
    assert(t != "1M"@);
    let lw = ascii_lower(want);
    if hours == 1 {
        assert(want =~= seq!['1', 'h']);
        assert(lw =~= ascii_lower("1h"@));
        assert(decimal(60) =~= "60"@);
    } else if hours == 2 {
        assert(want =~= seq!['2', 'h']);
        assert(lw =~= seq!['2', 'h']);
        assert(ascii_lower("1h"@) =~= seq!['1', 'h']);
        assert(lw =~= ascii_lower("2h"@));
        assert(decimal(120) =~= "120"@);
    } else if hours == 4 {
        assert(want =~= seq!['4', 'h']);
        assert(lw =~= seq!['4', 'h']);
        assert(ascii_lower("1h"@) =~= seq!['1', 'h']);
        assert(ascii_lower("2h"@) =~= seq!['2', 'h']);
        assert(lw =~= ascii_lower("4h"@));
        assert(decimal(240) =~= "240"@);
    } else if hours == 6 {
        assert(want =~= seq!['6', 'h']);
        assert(lw =~= seq!['6', 'h']);
        assert(ascii_lower("1h"@) =~= seq!['1', 'h']);
        assert(ascii_lower("2h"@) =~= seq!['2', 'h']);
        assert(ascii_lower("4h"@) =~= seq!['4', 'h']);
        assert(lw =~= ascii_lower("6h"@));
        assert(decimal(360) =~= "360"@);
    } else {
        assert(want =~= seq!['1', '2', 'h']);
        assert(lw =~= seq!['1', '2', 'h']);
        assert(ascii_lower("1h"@) =~= seq!['1', 'h']);
        assert(ascii_lower("2h"@) =~= seq!['2', 'h']);
        assert(ascii_lower("4h"@) =~= seq!['4', 'h']);
        assert(ascii_lower("6h"@) =~= seq!['6', 'h']);
        assert(lw =~= ascii_lower("12h"@));
        assert(decimal(720) =~= "720"@);
    }
}

/// A candle interval of a whole number of minutes (`m`, surrounding white
/// space ignored) is sent to Bybit as that number of minutes.
pub proof fn bybit_minute_intervals_keep_their_span(interval: Seq<char>)
    requires
        trim(interval).len() >= 2,
        trim(interval).last() == 'm',
        crate::text::all_digits(trim(interval).drop_last()),
    ensures
        bybit_interval_spec(interval) == trim(interval).drop_last(),
{
    reveal_strlit("1M");
    assert("1M"@.last() == 'M');
}

/// Equal texts, ASCII case ignored.
pub open spec fn same_ci(a: Seq<char>, b: Seq<char>) -> bool {
    ascii_lower(a) == ascii_lower(b)
}

/// The Bybit kline interval of a candle interval.
pub fn bybit_candle_interval(interval: &str) -> (r: String)
    ensures
        r@ == bybit_interval_spec(interval@),
{
    let t = trim_text(interval);
    let s = t.as_str();
    if text_eq(s, "1M") {
        return owned("M");
    }
    let v = chars_of(s);
    let n = v.len();
    if n > 0 && (v[n - 1] == 'm' || v[n - 1] == 'M') {
        let head = chars_slice_text(v.as_slice(), 0, n - 1);
        assert(head@ =~= t@.drop_last());
        return head;
    }
    if eq_ignore_ascii_case(s, "1h") {
        owned("60")
    } else if eq_ignore_ascii_case(s, "2h") {
        owned("120")
    } else if eq_ignore_ascii_case(s, "4h") {
        owned("240")
    } else if eq_ignore_ascii_case(s, "6h") {
        owned("360")
    } else if eq_ignore_ascii_case(s, "12h") {
        owned("720")
    } else if eq_ignore_ascii_case(s, "1d") || eq_ignore_ascii_case(s, "1Dutc") {
        owned("D")
    } else if eq_ignore_ascii_case(s, "1w") {
        owned("W")
    } else {
        t
    }
}

/// The Bybit statistics period of a period: minutes written `min`.
pub open spec fn bybit_period_spec(period: Seq<char>) -> Seq<char> {
    let t = trim(period);
    if t == "5m"@ {
        "5min"@
    } else if t == "15m"@ {
        "15min"@
    } else if t == "30m"@ {
        "30min"@
    } else {
        t
    }
}

/// A statistics period of 5, 15 or 30 minutes (`m`) is sent to Bybit as the
/// same number of minutes written with `min`.
pub proof fn bybit_minute_periods_keep_their_span(period: Seq<char>, minutes: nat)
    requires
        minutes == 5 || minutes == 15 || minutes == 30,
        trim(period) == decimal(minutes) + "m"@,
    ensures
        bybit_period_spec(period) == decimal(minutes) + "min"@,
{
    reveal_strlit("m");
    reveal_strlit("min");
    reveal_strlit("5m");
    reveal_strlit("15m");
    reveal_strlit("30m");
    reveal_strlit("5min");
    reveal_strlit("15min");
    reveal_strlit("30min");
    reveal_with_fuel(decimal, 3);
    if minutes == 5 {
        assert(trim(period) =~= "5m"@);
        assert(decimal(5) + "min"@ =~= "5min"@);
    } else if minutes == 15 {
        assert(trim(period) =~= "15m"@);
        assert(trim(period) != "5m"@);
        assert(decimal(15) + "min"@ =~= "15min"@);
    } else {
        assert(trim(period) =~= "30m"@);
        assert(trim(period) != "5m"@);
        assert(trim(period)[0] != "15m"@[0]);
        assert(decimal(30) + "min"@ =~= "30min"@);
    }
}

/// The Bybit statistics period of a period.
pub fn bybit_stats_period(period: &str) -> (r: String)
    ensures
        r@ == bybit_period_spec(period@),
{
    let t = trim_text(period);
    if text_eq(t.as_str(), "5m") {
        owned("5min")
    } else if text_eq(t.as_str(), "15m") {
        owned("15min")
    } else if text_eq(t.as_str(), "30m") {
        owned("30min")
    } else {
        t
    }
}

/// The perpetual of a Bybit linear symbol: the symbol less `USDT`, quoted in
/// USDT.
pub open spec fn bybit_symbol_base(symbol: Seq<char>) -> Seq<char> {
    if ends_with(symbol, "USDT"@) {
        symbol.subrange(0, symbol.len() - 4)
    } else {
        symbol
    }
}

/// The perpetual of a Bybit linear symbol.
pub fn instrument_from_symbol(symbol: &str) -> (r: Instrument)
    ensures
        r.base@ == ascii_upper(bybit_symbol_base(symbol@)),
        r.quote@ == ascii_upper("USDT"@),
        r.market_type == crate::instrument::MarketType::Perpetual,
        r.settlement is None,
{
    let v = chars_of(symbol);
    let q = chars_of("USDT");
    proof {
        reveal_strlit("USDT");
    }
    if crate::text::chars_end_with(v.as_slice(), q.as_slice()) {
        let base = chars_slice_text(v.as_slice(), 0, v.len() - 4);
        return Instrument::perp(base, "USDT");
    }
    Instrument::perp(symbol, "USDT")
}

/// The ticker of `symbol` from the first item of a Bybit ticker answer.
pub fn bybit_ticker_from_value(instrument: Instrument, symbol: String, raw: JsonValue) -> (r: Result<Ticker>)
    ensures
        list_member(raw, "list"@).len() == 0 ==> (r matches Err(e) && e.is_adapter(
            ExchangeId::Bybit,
            "Bybit ticker response"@ + " is empty"@,
        )),
        list_member(raw, "list"@).len() > 0 ==> (r matches Ok(t) && {
            let item = list_member(raw, "list"@)[0];
            &&& t.exchange == ExchangeId::Bybit
            &&& t.instrument == instrument
            &&& t.exchange_symbol == symbol
            &&& t.last_price@ == crate::json::or_empty(plain_str(item, "lastPrice"@))
            &&& opt_view(t.bid_price) == plain_str(item, "bid1Price"@)
            &&& opt_view(t.ask_price) == plain_str(item, "ask1Price"@)
            &&& opt_view(t.volume_24h) == crate::json::or_else(
                plain_str(item, "turnover24h"@),
                plain_str(item, "volume24h"@),
            )
            &&& t.timestamp is None
            &&& t.raw == raw
        }),
{
    let (last_price, bid_price, ask_price, volume_24h) = {
        let item = match first_list_item(&raw, "Bybit ticker response") {
            Ok(item) => item,
            Err(e) => return Err(e),
        };
        let last_price = match plain_string_field(item, "lastPrice") {
            Some(v) => v,
            None => String::new(),
        };
        let volume_24h = match plain_string_field(item, "turnover24h") {
            Some(v) => Some(v),
            None => plain_string_field(item, "volume24h"),
        };
        (last_price, plain_string_field(item, "bid1Price"), plain_string_field(item, "ask1Price"), volume_24h)
    };
    Ok(
        Ticker {
            exchange: ExchangeId::Bybit,
            instrument,
            exchange_symbol: symbol,
            last_price,
            bid_price,
            ask_price,
            volume_24h,
            timestamp: None,
            raw,
        },
    )
}

/// A book row that Bybit writes as `[price, size]` strings.
pub open spec fn bybit_level_row(row: JsonValue) -> bool {
    &&& row is Array
    &&& row->Array_0@.len() > 1
    &&& row->Array_0@[0] is String
    &&& row->Array_0@[1] is String
}

/// `l` is the level of a book row.
pub open spec fn bybit_level_of(row: JsonValue, l: OrderBookLevel) -> bool {
    &&& l.price@ == row->Array_0@[0]->String_0@
    &&& l.size@ == row->Array_0@[1]->String_0@
    &&& l.raw.model() == row.model()
}

/// The rows among the first `n` that are levels.
pub open spec fn bybit_level_rows(rows: Seq<JsonValue>, n: int) -> Seq<JsonValue>
    decreases n,
{
    if n <= 0 || n > rows.len() {
        Seq::empty()
    } else if bybit_level_row(rows[n - 1]) {
        bybit_level_rows(rows, n - 1).push(rows[n - 1])
    } else {
        bybit_level_rows(rows, n - 1)
    }
}

/// The levels of one side of a Bybit book; rows that are not `[price, size]`
/// strings are passed over.
pub fn bybit_levels(value: Option<&JsonValue>) -> (r: Vec<OrderBookLevel>)
    ensures
        ({
            let rows = match value {
                Some(JsonValue::Array(v)) => v@,
                _ => Seq::empty(),
            };
            let kept = bybit_level_rows(rows, rows.len() as int);
            &&& r@.len() == kept.len()
            &&& forall|i: int| 0 <= i < kept.len() ==> bybit_level_of(kept[i], #[trigger] r@[i])
        }),
{
    let rows = match value {
        Some(JsonValue::Array(v)) => v,
        _ => return Vec::new(),
    };
    let mut out: Vec<OrderBookLevel> = Vec::new();
    let mut i: usize = 0;
    while i < rows.len()
        invariant
            i <= rows.len(),
            value matches Some(JsonValue::Array(v)) && v@ == rows@,
            out@.len() == bybit_level_rows(rows@, i as int).len(),
            forall|k: int|
                0 <= k < out@.len() ==> bybit_level_of(
                    #[trigger] bybit_level_rows(rows@, i as int)[k],
                    out@[k],
                ),
        decreases rows.len() - i,
    {
        let ghost before = bybit_level_rows(rows@, i as int);
        let ghost old_out = out@;
        if let JsonValue::Array(values) = &rows[i] {
            if values.len() > 1 {
                if let (JsonValue::String(p), JsonValue::String(s)) = (&values[0], &values[1]) {
                    out.push(OrderBookLevel { price: copy_string(p), size: copy_string(s), raw: rows[i].copy() });
                    assert(bybit_level_rows(rows@, i + 1) == before.push(rows@[i as int]));
                    assert forall|k: int| 0 <= k < out@.len() implies bybit_level_of(
                        #[trigger] bybit_level_rows(rows@, i + 1)[k],
                        out@[k],
                    ) by {
                        if k < old_out.len() {
                            assert(bybit_level_rows(rows@, i + 1)[k] == before[k]);
                        }
                    }
                }
            }
        }
        assert(out@.len() == bybit_level_rows(rows@, i + 1).len());
        i += 1;
    }
    out
}

/// The order book of a Bybit book answer (`b` bids, `a` asks, `ts`).
pub fn bybit_orderbook_from_value(instrument: Instrument, symbol: String, raw: JsonValue) -> (r: OrderBook)
    ensures
        r.exchange == ExchangeId::Bybit,
        r.instrument == instrument,
        r.exchange_symbol == symbol,
        ({
            let rows = list_member(raw, "b"@);
            let kept = bybit_level_rows(rows, rows.len() as int);
            &&& r.bids@.len() == kept.len()
            &&& forall|i: int| 0 <= i < kept.len() ==> bybit_level_of(kept[i], #[trigger] r.bids@[i])
        }),
        ({
            let rows = list_member(raw, "a"@);
            let kept = bybit_level_rows(rows, rows.len() as int);
            &&& r.asks@.len() == kept.len()
            &&& forall|i: int| 0 <= i < kept.len() ==> bybit_level_of(kept[i], #[trigger] r.asks@[i])
        }),
        r.timestamp == plain_u64(raw, "ts"@),
        r.raw == raw,
{
    let (bids, asks, timestamp) = {
        let (b, a) = match &raw {
            JsonValue::Object(e) => (obj_lookup(e, "b"), obj_lookup(e, "a")),
            _ => (None, None),
        };
        (bybit_levels(b), bybit_levels(a), plain_u64_field(&raw, "ts"))
    };
    OrderBook { exchange: ExchangeId::Bybit, instrument, exchange_symbol: symbol, bids, asks, timestamp, raw }
}

/// A kline row that Bybit writes with strings from index 1 to 5.
pub open spec fn bybit_candle_row(row: JsonValue) -> bool {
    &&& row is Array
    &&& row->Array_0@.len() > 5
    &&& forall|i: int| 1 <= i <= 5 ==> (#[trigger] row->Array_0@[i]) is String
}

/// The string at index `i` of a row.
pub open spec fn row_string(row: JsonValue, i: int) -> Seq<char> {
    row->Array_0@[i]->String_0@
}

/// `c` is the candle of a kline row.
pub open spec fn bybit_candle_of(instrument: Instrument, symbol: Seq<char>, row: JsonValue, c: Candle) -> bool {
    let v = row->Array_0@;
    &&& c.exchange == ExchangeId::Bybit
    &&& c.instrument.same_as(instrument)
    &&& c.exchange_symbol@ == symbol
    &&& c.open_time == u64_of(v[0])
    &&& c.close_time is None
    &&& c.open@ == row_string(row, 1)
    &&& c.high@ == row_string(row, 2)
    &&& c.low@ == row_string(row, 3)
    &&& c.close@ == row_string(row, 4)
    &&& c.volume@ == row_string(row, 5)
    &&& opt_view(c.quote_volume) == (if v.len() > 6 && v[6] is String {
        Some(v[6]->String_0@)
    } else {
        None
    })
    &&& c.closed is None
    &&& c.raw == row
}

/// The rows among the first `n` that are candles.
pub open spec fn bybit_candle_rows(rows: Seq<JsonValue>, n: int) -> Seq<JsonValue>
    decreases n,
{
    if n <= 0 || n > rows.len() {
        Seq::empty()
    } else if bybit_candle_row(rows[n - 1]) {
        bybit_candle_rows(rows, n - 1).push(rows[n - 1])
    } else {
        bybit_candle_rows(rows, n - 1)
    }
}

fn string_at(values: &Vec<JsonValue>, i: usize) -> (r: Option<String>)
    ensures
        (i < values@.len() && values@[i as int] is String) ==> (r matches Some(s) && s@ == values@[i as int]->String_0@),
        !(i < values@.len() && values@[i as int] is String) ==> r is None,
{
    if i < values.len() {
        match &values[i] {
            JsonValue::String(s) => Some(copy_string(s)),
            _ => None,
        }
    } else {
        None
    }
}

/// The candles of a Bybit kline answer's `list`; rows that are not candles
/// are passed over.
pub fn bybit_candles_from_value(instrument: &Instrument, symbol: &str, raw: JsonValue) -> (r: Vec<Candle>)
    ensures
        ({
            let rows = list_member(raw, "list"@);
            let kept = bybit_candle_rows(rows, rows.len() as int);
            &&& r@.len() == kept.len()
            &&& forall|i: int| 0 <= i < kept.len() ==> bybit_candle_of(*instrument, symbol@, kept[i], #[trigger] r@[i])
        }),
{
    let ghost all = list_member(raw, "list"@);
    let mut rows = take_list(raw, "list");
    let mut out: Vec<Candle> = Vec::new();
    let mut k: usize = 0;
    let n0 = rows.len();
    assert(all.skip(0) =~= all);
    while rows.len() > 0
        invariant
            all == list_member(raw, "list"@),
            n0 == all.len(),
            k + rows@.len() == all.len(),
            rows@ == all.skip(k as int),
            out@.len() == bybit_candle_rows(all, k as int).len(),
            forall|j: int|
                0 <= j < out@.len() ==> bybit_candle_of(*instrument, symbol@, #[trigger] bybit_candle_rows(all, k as int)[j], out@[j]),
        decreases rows@.len(),
    {
        let row = rows.remove(0);
        assert(row == all[k as int]);
        let ghost before = bybit_candle_rows(all, k as int);
        let ghost old_out = out@;
        let fields = match &row {
            JsonValue::Array(values) => {
                match (string_at(values, 1), string_at(values, 2), string_at(values, 3), string_at(values, 4), string_at(values, 5)) {
                    (Some(o), Some(h), Some(l), Some(c), Some(v)) => {
                        let open_time = if values.len() > 0 {
                            crate::json::value_as_u64(&values[0])
                        } else {
                            None
                        };
                        Some((open_time, o, h, l, c, v, string_at(values, 6)))
                    },
                    _ => None,
                }
            },
            _ => None,
        };
        match fields {
            Some((open_time, open, high, low, close, volume, quote_volume)) => {
                proof {
                    assert(bybit_candle_row(row));
                }
                out.push(
                    Candle {
                        exchange: ExchangeId::Bybit,
                        instrument: instrument.duplicate(),
                        exchange_symbol: owned(symbol),
                        open_time,
                        close_time: None,
                        open,
                        high,
                        low,
                        close,
                        volume,
                        quote_volume,
                        closed: None,
                        raw: row,
                    },
                );
                assert(bybit_candle_rows(all, k + 1) == before.push(all[k as int]));
                assert forall|j: int| 0 <= j < out@.len() implies bybit_candle_of(
                    *instrument,
                    symbol@,
                    #[trigger] bybit_candle_rows(all, k + 1)[j],
                    out@[j],
                ) by {
                    if j < old_out.len() {
                        assert(bybit_candle_rows(all, k + 1)[j] == before[j]);
                    }
                }
            },
            None => {
                assert(!bybit_candle_row(all[k as int]));
                assert(bybit_candle_rows(all, k + 1) == before);
            },
        }
        k += 1;
        assert(rows@ =~= all.skip(k as int));
    }
    out
}

} // verus!
