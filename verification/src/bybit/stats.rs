//! Bybit funding, mark prices, open interest and long/short ratios.
use crate::bybit::first_list_item;
use crate::json::{list_member, plain_str, plain_string_field, plain_u64, plain_u64_field, take_list};
use crate::error::{Error, Result};
use crate::exchange::ExchangeId;
use crate::instrument::Instrument;
use crate::json::{or_else, or_empty, JsonValue};
use crate::market::{FundingRate, FundingRateQuery, LongShortRatio, MarkPrice, OpenInterest};
use crate::text::{copy_opt, opt_view, owned};
use vstd::prelude::*;

verus! {

broadcast use vstd::std_specs::vec::group_vec_axioms;

/// The funding rate of `symbol` from a Bybit ticker item.
pub fn bybit_funding_rate_from_item(instrument: Instrument, symbol: String, item: JsonValue) -> (r: FundingRate)
    ensures
        r.exchange == ExchangeId::Bybit,
        r.instrument == instrument,
        r.exchange_symbol == symbol,
        r.funding_rate@ == or_empty(plain_str(item, "fundingRate"@)),
        r.funding_time is None,
        r.next_funding_rate is None,
        r.next_funding_time == plain_u64(item, "nextFundingTime"@),
        opt_view(r.mark_price) == plain_str(item, "markPrice"@),
        r.raw == item,
{
    let funding_rate = match plain_string_field(&item, "fundingRate") {
        Some(v) => v,
        None => String::new(),
    };
    let next_funding_time = plain_u64_field(&item, "nextFundingTime");
    let mark_price = plain_string_field(&item, "markPrice");
    FundingRate {
        exchange: ExchangeId::Bybit,
        instrument,
        exchange_symbol: symbol,
        funding_rate,
        funding_time: None,
        next_funding_rate: None,
        next_funding_time,
        mark_price,
        raw: item,
    }
}

/// The mark price of `symbol` from a Bybit ticker item.
pub fn bybit_mark_price_from_item(instrument: Instrument, symbol: String, item: JsonValue) -> (r: MarkPrice)
    ensures
        r.exchange == ExchangeId::Bybit,
        r.instrument == instrument,
        r.exchange_symbol == symbol,
        r.mark_price@ == or_empty(plain_str(item, "markPrice"@)),
        opt_view(r.index_price) == plain_str(item, "indexPrice"@),
        opt_view(r.funding_rate) == plain_str(item, "fundingRate"@),
        r.next_funding_time == plain_u64(item, "nextFundingTime"@),
        r.timestamp is None,
        r.raw == item,
{
    let mark_price = match plain_string_field(&item, "markPrice") {
        Some(v) => v,
        None => String::new(),
    };
    let index_price = plain_string_field(&item, "indexPrice");
    let funding_rate = plain_string_field(&item, "fundingRate");
    let next_funding_time = plain_u64_field(&item, "nextFundingTime");
    MarkPrice {
        exchange: ExchangeId::Bybit,
        instrument,
        exchange_symbol: symbol,
        mark_price,
        index_price,
        funding_rate,
        next_funding_time,
        timestamp: None,
        raw: item,
    }
}

/// The first item of a Bybit ticker answer, as the funding and mark price
/// read it.
pub fn bybit_ticker_item(raw: &JsonValue) -> (r: Result<JsonValue>)
    ensures
        list_member(*raw, "list"@).len() > 0 ==> (r matches Ok(item) && item.model()
            == list_member(*raw, "list"@)[0].model()),
        list_member(*raw, "list"@).len() == 0 ==> (r matches Err(e) && e.is_adapter(
            ExchangeId::Bybit,
            "Bybit ticker response"@ + " is empty"@,
        )),
{
    match first_list_item(raw, "Bybit ticker response") {
        Ok(item) => Ok(item.copy()),
        Err(e) => Err(e),
    }
}

/// Bybit funding history takes no cursor.
pub fn ensure_bybit_funding_history_query(query: &FundingRateQuery) -> (r: Result<()>)
    ensures
        (query.after is Some || query.before is Some) ==> (r matches Err(e) && e.is_unsupported(
            ExchangeId::Bybit,
            "funding rate history cursor"@,
        )),
        !(query.after is Some || query.before is Some) ==> r is Ok,
{
    if query.after.is_some() || query.before.is_some() {
        return Err(Error::Unsupported { exchange: ExchangeId::Bybit, capability: "funding rate history cursor" });
    }
    Ok(())
}

/// `f` is the funding rate of a Bybit funding history row.
pub open spec fn bybit_funding_row_of(instrument: Instrument, symbol: Seq<char>, row: JsonValue, f: FundingRate) -> bool {
    &&& f.exchange == ExchangeId::Bybit
    &&& f.instrument.same_as(instrument)
    &&& f.exchange_symbol@ == (match plain_str(row, "symbol"@) {
        Some(s) => s,
        None => symbol,
    })
    &&& f.funding_rate@ == or_empty(plain_str(row, "fundingRate"@))
    &&& f.funding_time == plain_u64(row, "fundingRateTimestamp"@)
    &&& f.next_funding_rate is None
    &&& f.next_funding_time is None
    &&& f.mark_price is None
    &&& f.raw == row
}

/// The funding rates of a Bybit funding history answer's `list`.
pub fn bybit_funding_history_from_value(instrument: &Instrument, symbol: &str, raw: JsonValue) -> (r: Vec<FundingRate>)
    ensures
        r@.len() == list_member(raw, "list"@).len(),
        forall|i: int|
            0 <= i < r@.len() ==> bybit_funding_row_of(*instrument, symbol@, list_member(raw, "list"@)[i], #[trigger] r@[i]),
{
    let ghost all = list_member(raw, "list"@);
    let mut rows = take_list(raw, "list");
    let mut out: Vec<FundingRate> = Vec::new();
    let mut k: usize = 0;
    let n0 = rows.len();
    assert(all.skip(0) =~= all);
    while rows.len() > 0
        invariant
            all == list_member(raw, "list"@),
            n0 == all.len(),
            k + rows@.len() == all.len(),
            rows@ == all.skip(k as int),
            out@.len() == k,
            forall|j: int| 0 <= j < k ==> bybit_funding_row_of(*instrument, symbol@, all[j], #[trigger] out@[j]),
        decreases rows@.len(),
    {
        let row = rows.remove(0);
        assert(row == all[k as int]);
        let exchange_symbol = match plain_string_field(&row, "symbol") {
            Some(s) => s,
            None => owned(symbol),
        };
        let funding_rate = match plain_string_field(&row, "fundingRate") {
            Some(v) => v,
            None => String::new(),
        };
        let funding_time = plain_u64_field(&row, "fundingRateTimestamp");
        out.push(
            FundingRate {
                exchange: ExchangeId::Bybit,
                instrument: instrument.duplicate(),
                exchange_symbol,
                funding_rate,
                funding_time,
                next_funding_rate: None,
                next_funding_time: None,
                mark_price: None,
                raw: row,
            },
        );
        k += 1;
        assert(rows@ =~= all.skip(k as int));
    }
    out
}

/// The open interest of `symbol` from the first item of a Bybit open
/// interest answer; the raw value is the whole answer.
pub fn bybit_open_interest_from_value(instrument: Instrument, symbol: String, raw: JsonValue) -> (r: Result<OpenInterest>)
    ensures
        list_member(raw, "list"@).len() == 0 ==> (r matches Err(e) && e.is_adapter(
            ExchangeId::Bybit,
            "Bybit open interest response"@ + " is empty"@,
        )),
        list_member(raw, "list"@).len() > 0 ==> (r matches Ok(o) && {
            let item = list_member(raw, "list"@)[0];
            &&& o.exchange == ExchangeId::Bybit
            &&& o.instrument == instrument
            &&& o.exchange_symbol == symbol
            &&& o.open_interest@ == or_empty(plain_str(item, "openInterest"@))
            &&& o.open_interest_value is None
            &&& o.timestamp == plain_u64(item, "timestamp"@)
            &&& o.raw == raw
        }),
{
    let (open_interest, timestamp) = {
        let item = match first_list_item(&raw, "Bybit open interest response") {
            Ok(item) => item,
            Err(e) => return Err(e),
        };
        let open_interest = match plain_string_field(item, "openInterest") {
            Some(v) => v,
            None => String::new(),
        };
        (open_interest, plain_u64_field(item, "timestamp"))
    };
    Ok(
        OpenInterest {
            exchange: ExchangeId::Bybit,
            instrument,
            exchange_symbol: symbol,
            open_interest,
            open_interest_value: None,
            timestamp,
            raw,
        },
    )
}

/// `o` is the open interest of a Bybit open interest history row.
pub open spec fn bybit_open_interest_row_of(instrument: Instrument, symbol: Seq<char>, row: JsonValue, o: OpenInterest) -> bool {
    &&& o.exchange == ExchangeId::Bybit
    &&& o.instrument.same_as(instrument)
    &&& o.exchange_symbol@ == (match plain_str(row, "symbol"@) {
        Some(s) => s,
        None => symbol,
    })
    &&& o.open_interest@ == or_empty(plain_str(row, "openInterest"@))
    &&& o.open_interest_value is None
    &&& o.timestamp == plain_u64(row, "timestamp"@)
    &&& o.raw == row
}

/// The open interest history of a Bybit answer's `list`.
pub fn bybit_open_interest_history_from_value(instrument: &Instrument, symbol: &str, raw: JsonValue) -> (r: Vec<OpenInterest>)
    ensures
        r@.len() == list_member(raw, "list"@).len(),
        forall|i: int|
            0 <= i < r@.len() ==> bybit_open_interest_row_of(*instrument, symbol@, list_member(raw, "list"@)[i], #[trigger] r@[i]),
{
    let ghost all = list_member(raw, "list"@);
    let mut rows = take_list(raw, "list");
    let mut out: Vec<OpenInterest> = Vec::new();
    let mut k: usize = 0;
    let n0 = rows.len();
    assert(all.skip(0) =~= all);
    while rows.len() > 0
        invariant
            all == list_member(raw, "list"@),
            n0 == all.len(),
            k + rows@.len() == all.len(),
            rows@ == all.skip(k as int),
            out@.len() == k,
            forall|j: int| 0 <= j < k ==> bybit_open_interest_row_of(*instrument, symbol@, all[j], #[trigger] out@[j]),
        decreases rows@.len(),
    {
        let row = rows.remove(0);
        assert(row == all[k as int]);
        let exchange_symbol = match plain_string_field(&row, "symbol") {
            Some(s) => s,
            None => owned(symbol),
        };
        let open_interest = match plain_string_field(&row, "openInterest") {
            Some(v) => v,
            None => String::new(),
        };
        let timestamp = plain_u64_field(&row, "timestamp");
        out.push(
            OpenInterest {
                exchange: ExchangeId::Bybit,
                instrument: instrument.duplicate(),
                exchange_symbol,
                open_interest,
                open_interest_value: None,
                timestamp,
                raw: row,
            },
        );
        k += 1;
        assert(rows@ =~= all.skip(k as int));
    }
    out
}

/// The buy and sell ratios of each row of a Bybit long/short ratio answer,
/// from which a ratio is worked out where a row has none.
pub fn bybit_ratio_sides(raw: &JsonValue) -> (r: Vec<(Option<String>, Option<String>)>)
    ensures
        r@.len() == list_member(*raw, "list"@).len(),
        forall|i: int|
            0 <= i < r@.len() ==> opt_view((#[trigger] r@[i]).0) == plain_str(list_member(*raw, "list"@)[i], "buyRatio"@)
                && opt_view(r@[i].1) == plain_str(list_member(*raw, "list"@)[i], "sellRatio"@),
{
    let empty: Vec<JsonValue> = Vec::new();
    let rows = match raw {
        JsonValue::Object(e) => match crate::json::obj_lookup(e, "list") {
            Some(JsonValue::Array(v)) => v,
            _ => &empty,
        },
        _ => &empty,
    };
    assert(rows@ == list_member(*raw, "list"@));
    let mut out: Vec<(Option<String>, Option<String>)> = Vec::new();
    let mut i: usize = 0;
    while i < rows.len()
        invariant
            i <= rows.len(),
            rows@ == list_member(*raw, "list"@),
            out@.len() == i,
            forall|k: int|
                0 <= k < i ==> opt_view((#[trigger] out@[k]).0) == plain_str(rows@[k], "buyRatio"@)
                    && opt_view(out@[k].1) == plain_str(rows@[k], "sellRatio"@),
        decreases rows.len() - i,
    {
        out.push((plain_string_field(&rows[i], "buyRatio"), plain_string_field(&rows[i], "sellRatio")));
        i += 1;
    }
    out
}

/// `l` is the long/short ratio of a Bybit row: its `ratio`, else the ratio
/// worked out from its sides (`worked_out`).
pub open spec fn bybit_ratio_row_of(
    instrument: Instrument,
    symbol: Seq<char>,
    period: Seq<char>,
    row: JsonValue,
    worked_out: Option<Seq<char>>,
    l: LongShortRatio,
) -> bool {
    &&& l.exchange == ExchangeId::Bybit
    &&& l.instrument.same_as(instrument)
    &&& l.exchange_symbol@ == (match plain_str(row, "symbol"@) {
        Some(s) => s,
        None => symbol,
    })
    &&& l.period@ == period
    &&& l.ratio@ == or_empty(or_else(plain_str(row, "ratio"@), worked_out))
    &&& opt_view(l.long_ratio) == plain_str(row, "buyRatio"@)
    &&& opt_view(l.short_ratio) == plain_str(row, "sellRatio"@)
    &&& l.timestamp == plain_u64(row, "timestamp"@)
    &&& l.raw == row
}

/// The ratio worked out for row `i`, if the caller gave one.
pub open spec fn worked_out_at(worked_out: Seq<Option<String>>, i: int) -> Option<Seq<char>> {
    if 0 <= i < worked_out.len() {
        opt_view(worked_out[i])
    } else {
        None
    }
}

/// The long/short ratios of a Bybit answer's `list`; `worked_out[i]` is the
/// ratio of the sides of row `i` (buy over sell), which the caller works out
/// (see `bybit_ratio_sides`) for rows without one.
pub fn bybit_long_short_ratios_from_value(
    instrument: &Instrument,
    symbol: &str,
    period: &str,
    raw: JsonValue,
    worked_out: &Vec<Option<String>>,
) -> (r: Vec<LongShortRatio>)
    ensures
        r@.len() == list_member(raw, "list"@).len(),
        forall|i: int|
            0 <= i < r@.len() ==> bybit_ratio_row_of(
                *instrument,
                symbol@,
                period@,
                list_member(raw, "list"@)[i],
                worked_out_at(worked_out@, i),
                #[trigger] r@[i],
            ),
{
    let ghost all = list_member(raw, "list"@);
    let mut rows = take_list(raw, "list");
    let mut out: Vec<LongShortRatio> = Vec::new();
    let mut k: usize = 0;
    let n0 = rows.len();
    assert(all.skip(0) =~= all);
    while rows.len() > 0
        invariant
            all == list_member(raw, "list"@),
            n0 == all.len(),
            k + rows@.len() == all.len(),
            rows@ == all.skip(k as int),
            out@.len() == k,
            forall|j: int|
                0 <= j < k ==> bybit_ratio_row_of(
                    *instrument,
                    symbol@,
                    period@,
                    all[j],
                    worked_out_at(worked_out@, j),
                    #[trigger] out@[j],
                ),
        decreases rows@.len(),
    {
        let row = rows.remove(0);
        assert(row == all[k as int]);
        let exchange_symbol = match plain_string_field(&row, "symbol") {
            Some(s) => s,
            None => owned(symbol),
        };
        let ratio = match plain_string_field(&row, "ratio") {
            Some(v) => v,
            None => {
                let fallback = if k < worked_out.len() {
                    copy_opt(&worked_out[k])
                } else {
                    None
                };
                match fallback {
                    Some(v) => v,
                    None => String::new(),
                }
            },
        };
        let long_ratio = plain_string_field(&row, "buyRatio");
        let short_ratio = plain_string_field(&row, "sellRatio");
        let timestamp = plain_u64_field(&row, "timestamp");
        out.push(
            LongShortRatio {
                exchange: ExchangeId::Bybit,
                instrument: instrument.duplicate(),
                exchange_symbol,
                period: owned(period),
                ratio,
                long_ratio,
                short_ratio,
                timestamp,
                raw: row,
            },
        );
        k += 1;
        assert(rows@ =~= all.skip(k as int));
    }
    out
}

} // verus!
