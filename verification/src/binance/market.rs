//! Binance USD-M futures market data: tickers, order books, candles,
//! funding, mark prices, open interest and trading statistics.
use crate::bitget::orders::all_arrays;
use crate::error::{Error, Result};
use crate::exchange::ExchangeId;
use crate::instrument::Instrument;
use crate::json::{
    first_item, first_rejected, first_str_field, first_string_field, first_u64, first_u64_field,
    items_spec, obj_get, obj_lookup, object_rejections, or_else, or_empty, owned_items, rejected,
    str_field, string_field, text_at, u64_at, u64_field, u64_field_spec, value_string_at,
    value_u64_at, JsonValue,
};
use crate::market::{
    Candle, CandleQuery, FundingRate, LongShortRatio, MarkPrice, MarketStatsQuery, OpenInterest,
    OrderBook, OrderBookLevel, TakerBuySellVolume, Ticker,
};
use crate::text::{concat3, copy_opt, copy_string, opt_view, owned};
use vstd::prelude::*;

verus! {

broadcast use vstd::std_specs::vec::group_vec_axioms;

/// `o` is the fundingrate read from an item (see `binance_funding_rate_from_value`).
pub open spec fn binance_funding_rate_from_value_of(
    instrument: Instrument,
    symbol_hint: Option<String>,
    raw: JsonValue,
    o: FundingRate,
) -> bool {
    match raw {
        JsonValue::Object(e) => {
            &&& o.exchange == ExchangeId::Binance
            &&& o.instrument.same_as(instrument)
            &&& o.exchange_symbol@ == or_empty(or_else(str_field(e@, "symbol"@), opt_view(symbol_hint)))
            &&& o.funding_rate@ == or_empty(first_str_field(e@, seq!["lastFundingRate", "fundingRate"]))
            &&& o.funding_time == first_u64_field(e@, seq!["fundingTime", "time"])
            &&& opt_view(o.next_funding_rate) == str_field(e@, "nextFundingRate"@)
            &&& o.next_funding_time == u64_field_spec(e@, "nextFundingTime"@)
            &&& opt_view(o.mark_price) == str_field(e@, "markPrice"@)
            &&& o.raw == raw
        },
        _ => false,
    }
}

/// One Binance funding-rate item (premium index or funding history).
pub fn binance_funding_rate_from_value(
    instrument: Instrument,
    symbol_hint: Option<String>,
    raw: JsonValue,
) -> (r: Result<FundingRate>)
    ensures
        raw is Object ==> (r matches Ok(o) && binance_funding_rate_from_value_of(instrument, symbol_hint, raw, o)),
        !(raw is Object) ==> (r matches Err(err) && err.is_adapter(ExchangeId::Binance, "Binance funding rate item is not an object"@)),
{
    let e = match &raw {
        JsonValue::Object(e) => e,
        _ => return Err(Error::Adapter { exchange: ExchangeId::Binance, message: owned("Binance funding rate item is not an object") }),
    };
    let exchange_symbol = match string_field(e, "symbol") {
        Some(s) => s,
        None => match symbol_hint {
            Some(h) => h,
            None => String::new(),
        },
    };
    let exchange = ExchangeId::Binance;
    let instrument = instrument;
    let exchange_symbol = exchange_symbol;
    let funding_rate = match { let k = ["lastFundingRate", "fundingRate"]; assert(k@ =~= seq!["lastFundingRate", "fundingRate"]); first_string_field(e, &k) } { Some(s) => s, None => String::new() };
    let funding_time = { let k = ["fundingTime", "time"]; assert(k@ =~= seq!["fundingTime", "time"]); first_u64(e, &k) };
    let next_funding_rate = string_field(e, "nextFundingRate");
    let next_funding_time = u64_field(e, "nextFundingTime");
    let mark_price = string_field(e, "markPrice");
    Ok(FundingRate { exchange, instrument, exchange_symbol, funding_rate, funding_time, next_funding_rate, next_funding_time, mark_price, raw: raw })
}

/// `o` is the markprice read from an item (see `binance_mark_price_from_value`).
pub open spec fn binance_mark_price_from_value_of(
    instrument: Instrument,
    symbol_hint: Option<String>,
    raw: JsonValue,
    o: MarkPrice,
) -> bool {
    match raw {
        JsonValue::Object(e) => {
            &&& o.exchange == ExchangeId::Binance
            &&& o.instrument.same_as(instrument)
            &&& o.exchange_symbol@ == or_empty(or_else(str_field(e@, "symbol"@), opt_view(symbol_hint)))
            &&& o.mark_price@ == or_empty(first_str_field(e@, seq!["markPrice", "markPx"]))
            &&& opt_view(o.index_price) == str_field(e@, "indexPrice"@)
            &&& opt_view(o.funding_rate) == first_str_field(e@, seq!["lastFundingRate", "fundingRate"])
            &&& o.next_funding_time == u64_field_spec(e@, "nextFundingTime"@)
            &&& o.timestamp == first_u64_field(e@, seq!["time", "ts"])
            &&& o.raw == raw
        },
        _ => false,
    }
}

/// One Binance mark-price item.
pub fn binance_mark_price_from_value(
    instrument: Instrument,
    symbol_hint: Option<String>,
    raw: JsonValue,
) -> (r: Result<MarkPrice>)
    ensures
        raw is Object ==> (r matches Ok(o) && binance_mark_price_from_value_of(instrument, symbol_hint, raw, o)),
        !(raw is Object) ==> (r matches Err(err) && err.is_adapter(ExchangeId::Binance, "Binance mark price item is not an object"@)),
{
    let e = match &raw {
        JsonValue::Object(e) => e,
        _ => return Err(Error::Adapter { exchange: ExchangeId::Binance, message: owned("Binance mark price item is not an object") }),
    };
    let exchange_symbol = match string_field(e, "symbol") {
        Some(s) => s,
        None => match symbol_hint {
            Some(h) => h,
            None => String::new(),
        },
    };
    let exchange = ExchangeId::Binance;
    let instrument = instrument;
    let exchange_symbol = exchange_symbol;
    let mark_price = match { let k = ["markPrice", "markPx"]; assert(k@ =~= seq!["markPrice", "markPx"]); first_string_field(e, &k) } { Some(s) => s, None => String::new() };
    let index_price = string_field(e, "indexPrice");
    let funding_rate = { let k = ["lastFundingRate", "fundingRate"]; assert(k@ =~= seq!["lastFundingRate", "fundingRate"]); first_string_field(e, &k) };
    let next_funding_time = u64_field(e, "nextFundingTime");
    let timestamp = { let k = ["time", "ts"]; assert(k@ =~= seq!["time", "ts"]); first_u64(e, &k) };
    Ok(MarkPrice { exchange, instrument, exchange_symbol, mark_price, index_price, funding_rate, next_funding_time, timestamp, raw: raw })
}

/// `o` is the openinterest read from an item (see `binance_open_interest_from_value`).
pub open spec fn binance_open_interest_from_value_of(
    instrument: Instrument,
    symbol_hint: Option<String>,
    raw: JsonValue,
    o: OpenInterest,
) -> bool {
    match raw {
        JsonValue::Object(e) => {
            &&& o.exchange == ExchangeId::Binance
            &&& o.instrument.same_as(instrument)
            &&& o.exchange_symbol@ == or_empty(or_else(str_field(e@, "symbol"@), opt_view(symbol_hint)))
            &&& o.open_interest@ == or_empty(first_str_field(e@, seq!["openInterest", "oi"]))
            &&& opt_view(o.open_interest_value) == first_str_field(e@, seq!["openInterestValue", "sumOpenInterestValue", "oiCcy"])
            &&& o.timestamp == first_u64_field(e@, seq!["time", "ts"])
            &&& o.raw == raw
        },
        _ => false,
    }
}

/// One Binance open-interest item.
pub fn binance_open_interest_from_value(
    instrument: Instrument,
    symbol_hint: Option<String>,
    raw: JsonValue,
) -> (r: Result<OpenInterest>)
    ensures
        raw is Object ==> (r matches Ok(o) && binance_open_interest_from_value_of(instrument, symbol_hint, raw, o)),
        !(raw is Object) ==> (r matches Err(err) && err.is_adapter(ExchangeId::Binance, "Binance open interest item is not an object"@)),
{
    let e = match &raw {
        JsonValue::Object(e) => e,
        _ => return Err(Error::Adapter { exchange: ExchangeId::Binance, message: owned("Binance open interest item is not an object") }),
    };
    let exchange_symbol = match string_field(e, "symbol") {
        Some(s) => s,
        None => match symbol_hint {
            Some(h) => h,
            None => String::new(),
        },
    };
    let exchange = ExchangeId::Binance;
    let instrument = instrument;
    let exchange_symbol = exchange_symbol;
    let open_interest = match { let k = ["openInterest", "oi"]; assert(k@ =~= seq!["openInterest", "oi"]); first_string_field(e, &k) } { Some(s) => s, None => String::new() };
    let open_interest_value = { let k = ["openInterestValue", "sumOpenInterestValue", "oiCcy"]; assert(k@ =~= seq!["openInterestValue", "sumOpenInterestValue", "oiCcy"]); first_string_field(e, &k) };
    let timestamp = { let k = ["time", "ts"]; assert(k@ =~= seq!["time", "ts"]); first_u64(e, &k) };
    Ok(OpenInterest { exchange, instrument, exchange_symbol, open_interest, open_interest_value, timestamp, raw: raw })
}

/// `o` is the longshortratio read from an item (see `binance_long_short_ratio_from_value`).
pub open spec fn binance_long_short_ratio_from_value_of(
    instrument: Instrument,
    symbol_hint: Option<String>,
    period: String,
    raw: JsonValue,
    o: LongShortRatio,
) -> bool {
    match raw {
        JsonValue::Object(e) => {
            &&& o.exchange == ExchangeId::Binance
            &&& o.instrument.same_as(instrument)
            &&& o.exchange_symbol@ == or_empty(or_else(str_field(e@, "symbol"@), opt_view(symbol_hint)))
            &&& o.period@ == period@
            &&& o.ratio@ == or_empty(first_str_field(e@, seq!["longShortRatio", "ratio"]))
            &&& opt_view(o.long_ratio) == first_str_field(e@, seq!["longAccount", "longPosition", "longRatio"])
            &&& opt_view(o.short_ratio) == first_str_field(e@, seq!["shortAccount", "shortPosition", "shortRatio"])
            &&& o.timestamp == first_u64_field(e@, seq!["timestamp", "time", "ts"])
            &&& o.raw == raw
        },
        _ => false,
    }
}

/// One Binance long/short ratio item of a period.
pub fn binance_long_short_ratio_from_value(
    instrument: Instrument,
    symbol_hint: Option<String>,
    period: String,
    raw: JsonValue,
) -> (r: Result<LongShortRatio>)
    ensures
        raw is Object ==> (r matches Ok(o) && binance_long_short_ratio_from_value_of(instrument, symbol_hint, period, raw, o)),
        !(raw is Object) ==> (r matches Err(err) && err.is_adapter(ExchangeId::Binance, "Binance long-short ratio item is not an object"@)),
{
    let e = match &raw {
        JsonValue::Object(e) => e,
        _ => return Err(Error::Adapter { exchange: ExchangeId::Binance, message: owned("Binance long-short ratio item is not an object") }),
    };
    let exchange_symbol = match string_field(e, "symbol") {
        Some(s) => s,
        None => match symbol_hint {
            Some(h) => h,
            None => String::new(),
        },
    };
    let exchange = ExchangeId::Binance;
    let instrument = instrument;
    let exchange_symbol = exchange_symbol;
    let period = period;
    let ratio = match { let k = ["longShortRatio", "ratio"]; assert(k@ =~= seq!["longShortRatio", "ratio"]); first_string_field(e, &k) } { Some(s) => s, None => String::new() };
    let long_ratio = { let k = ["longAccount", "longPosition", "longRatio"]; assert(k@ =~= seq!["longAccount", "longPosition", "longRatio"]); first_string_field(e, &k) };
    let short_ratio = { let k = ["shortAccount", "shortPosition", "shortRatio"]; assert(k@ =~= seq!["shortAccount", "shortPosition", "shortRatio"]); first_string_field(e, &k) };
    let timestamp = { let k = ["timestamp", "time", "ts"]; assert(k@ =~= seq!["timestamp", "time", "ts"]); first_u64(e, &k) };
    Ok(LongShortRatio { exchange, instrument, exchange_symbol, period, ratio, long_ratio, short_ratio, timestamp, raw: raw })
}

/// `o` is the takerbuysellvolume read from an item (see `binance_taker_volume_from_value`).
pub open spec fn binance_taker_volume_from_value_of(
    instrument: Instrument,
    symbol_hint: Option<String>,
    period: String,
    raw: JsonValue,
    o: TakerBuySellVolume,
) -> bool {
    match raw {
        JsonValue::Object(e) => {
            &&& o.exchange == ExchangeId::Binance
            &&& o.instrument.same_as(instrument)
            &&& o.exchange_symbol@ == or_empty(or_else(str_field(e@, "symbol"@), opt_view(symbol_hint)))
            &&& o.period@ == period@
            &&& o.buy_volume@ == or_empty(first_str_field(e@, seq!["buyVol", "buyVolume"]))
            &&& o.sell_volume@ == or_empty(first_str_field(e@, seq!["sellVol", "sellVolume"]))
            &&& opt_view(o.buy_sell_ratio) == first_str_field(e@, seq!["buySellRatio", "ratio"])
            &&& o.timestamp == first_u64_field(e@, seq!["timestamp", "time", "ts"])
            &&& o.raw == raw
        },
        _ => false,
    }
}

/// One Binance taker buy/sell volume item of a period.
pub fn binance_taker_volume_from_value(
    instrument: Instrument,
    symbol_hint: Option<String>,
    period: String,
    raw: JsonValue,
) -> (r: Result<TakerBuySellVolume>)
    ensures
        raw is Object ==> (r matches Ok(o) && binance_taker_volume_from_value_of(instrument, symbol_hint, period, raw, o)),
        !(raw is Object) ==> (r matches Err(err) && err.is_adapter(ExchangeId::Binance, "Binance taker buy-sell volume item is not an object"@)),
{
    let e = match &raw {
        JsonValue::Object(e) => e,
        _ => return Err(Error::Adapter { exchange: ExchangeId::Binance, message: owned("Binance taker buy-sell volume item is not an object") }),
    };
    let exchange_symbol = match string_field(e, "symbol") {
        Some(s) => s,
        None => match symbol_hint {
            Some(h) => h,
            None => String::new(),
        },
    };
    let exchange = ExchangeId::Binance;
    let instrument = instrument;
    let exchange_symbol = exchange_symbol;
    let period = period;
    let buy_volume = match { let k = ["buyVol", "buyVolume"]; assert(k@ =~= seq!["buyVol", "buyVolume"]); first_string_field(e, &k) } { Some(s) => s, None => String::new() };
    let sell_volume = match { let k = ["sellVol", "sellVolume"]; assert(k@ =~= seq!["sellVol", "sellVolume"]); first_string_field(e, &k) } { Some(s) => s, None => String::new() };
    let buy_sell_ratio = { let k = ["buySellRatio", "ratio"]; assert(k@ =~= seq!["buySellRatio", "ratio"]); first_string_field(e, &k) };
    let timestamp = { let k = ["timestamp", "time", "ts"]; assert(k@ =~= seq!["timestamp", "time", "ts"]); first_u64(e, &k) };
    Ok(TakerBuySellVolume { exchange, instrument, exchange_symbol, period, buy_volume, sell_volume, buy_sell_ratio, timestamp, raw: raw })
}

/// The funding rates of a Binance funding history answer.
pub fn binance_funding_rates_from_value(
    instrument: &Instrument,
    symbol_hint: Option<String>,
    raw: JsonValue,
) -> (r: Result<Vec<FundingRate>>)
    ensures
        match items_spec(raw) {
            None => r matches Err(e) && e.is_adapter(ExchangeId::Binance, "Binance funding rate history response"@ + " is neither an array nor an object"@),
            Some(items) => match r {
                Ok(out) => out@.len() == items.len() && forall|i: int|
                    0 <= i < items.len() ==> binance_funding_rate_from_value_of(*instrument, symbol_hint, #[trigger] items[i], out@[i]),
                Err(e) => rejected(object_rejections(items, "Binance funding rate item is not an object"@), ExchangeId::Binance, e),
            },
        },
{
    let ghost original = items_spec(raw);
    let mut items = match owned_items(raw, ExchangeId::Binance, "Binance funding rate history response") {
        Ok(items) => items,
        Err(e) => return Err(e),
    };
    let ghost all = items@;
    let mut out: Vec<FundingRate> = Vec::new();
    let mut k: usize = 0;
    let n = items.len();
    assert(all.skip(0) =~= all);
    while items.len() > 0
        invariant
            n == all.len(),
            original == items_spec(raw),
            original == Some(all),
            k + items@.len() == all.len(),
            items@ == all.skip(k as int),
            out@.len() == k,
            forall|j: int| 0 <= j < k ==> binance_funding_rate_from_value_of(*instrument, symbol_hint, #[trigger] all[j], out@[j]),
        decreases items@.len(),
    {
        let item = items.remove(0);
        assert(item == all[k as int]);
        let ghost item_view = item;
        let inst = instrument.duplicate();
        let hint = copy_opt(&symbol_hint);
        match binance_funding_rate_from_value(inst, hint, item) {
            Ok(o) => out.push(o),
            Err(e) => {
                let ghost rej = object_rejections(all, "Binance funding rate item is not an object"@);
                assert(!(item_view is Object));
                assert(forall|j: int| 0 <= j < k ==> #[trigger] rej[j] is None);
                assert(first_rejected(rej, ExchangeId::Binance, k as int, e));
                assert(rejected(rej, ExchangeId::Binance, e));
                return Err(e);
            },
        }
        k += 1;
        assert(items@ =~= all.skip(k as int));
    }
    Ok(out)
}

/// The long/short ratios of a Binance ratio answer.
pub fn binance_long_short_ratios_from_value(
    instrument: &Instrument,
    symbol_hint: Option<String>,
    period: String,
    raw: JsonValue,
) -> (r: Result<Vec<LongShortRatio>>)
    ensures
        match items_spec(raw) {
            None => r matches Err(e) && e.is_adapter(ExchangeId::Binance, "Binance long-short ratio response"@ + " is neither an array nor an object"@),
            Some(items) => match r {
                Ok(out) => out@.len() == items.len() && forall|i: int|
                    0 <= i < items.len() ==> binance_long_short_ratio_from_value_of(*instrument, symbol_hint, period, #[trigger] items[i], out@[i]),
                Err(e) => rejected(object_rejections(items, "Binance long-short ratio item is not an object"@), ExchangeId::Binance, e),
            },
        },
{
    let ghost original = items_spec(raw);
    let mut items = match owned_items(raw, ExchangeId::Binance, "Binance long-short ratio response") {
        Ok(items) => items,
        Err(e) => return Err(e),
    };
    let ghost all = items@;
    let mut out: Vec<LongShortRatio> = Vec::new();
    let mut k: usize = 0;
    let n = items.len();
    assert(all.skip(0) =~= all);
    while items.len() > 0
        invariant
            n == all.len(),
            original == items_spec(raw),
            original == Some(all),
            k + items@.len() == all.len(),
            items@ == all.skip(k as int),
            out@.len() == k,
            forall|j: int| 0 <= j < k ==> binance_long_short_ratio_from_value_of(*instrument, symbol_hint, period, #[trigger] all[j], out@[j]),
        decreases items@.len(),
    {
        let item = items.remove(0);
        assert(item == all[k as int]);
        let ghost item_view = item;
        let inst = instrument.duplicate();
        let hint = copy_opt(&symbol_hint);
        let per = copy_string(&period);
        match binance_long_short_ratio_from_value(inst, hint, per, item) {
            Ok(o) => out.push(o),
            Err(e) => {
                let ghost rej = object_rejections(all, "Binance long-short ratio item is not an object"@);
                assert(!(item_view is Object));
                assert(forall|j: int| 0 <= j < k ==> #[trigger] rej[j] is None);
                assert(first_rejected(rej, ExchangeId::Binance, k as int, e));
                assert(rejected(rej, ExchangeId::Binance, e));
                return Err(e);
            },
        }
        k += 1;
        assert(items@ =~= all.skip(k as int));
    }
    Ok(out)
}

/// The taker volumes of a Binance taker buy/sell volume answer.
pub fn binance_taker_volumes_from_value(
    instrument: &Instrument,
    symbol_hint: Option<String>,
    period: String,
    raw: JsonValue,
) -> (r: Result<Vec<TakerBuySellVolume>>)
    ensures
        match items_spec(raw) {
            None => r matches Err(e) && e.is_adapter(ExchangeId::Binance, "Binance taker buy-sell volume response"@ + " is neither an array nor an object"@),
            Some(items) => match r {
                Ok(out) => out@.len() == items.len() && forall|i: int|
                    0 <= i < items.len() ==> binance_taker_volume_from_value_of(*instrument, symbol_hint, period, #[trigger] items[i], out@[i]),
                Err(e) => rejected(object_rejections(items, "Binance taker buy-sell volume item is not an object"@), ExchangeId::Binance, e),
            },
        },
{
    let ghost original = items_spec(raw);
    let mut items = match owned_items(raw, ExchangeId::Binance, "Binance taker buy-sell volume response") {
        Ok(items) => items,
        Err(e) => return Err(e),
    };
    let ghost all = items@;
    let mut out: Vec<TakerBuySellVolume> = Vec::new();
    let mut k: usize = 0;
    let n = items.len();
    assert(all.skip(0) =~= all);
    while items.len() > 0
        invariant
            n == all.len(),
            original == items_spec(raw),
            original == Some(all),
            k + items@.len() == all.len(),
            items@ == all.skip(k as int),
            out@.len() == k,
            forall|j: int| 0 <= j < k ==> binance_taker_volume_from_value_of(*instrument, symbol_hint, period, #[trigger] all[j], out@[j]),
        decreases items@.len(),
    {
        let item = items.remove(0);
        assert(item == all[k as int]);
        let ghost item_view = item;
        let inst = instrument.duplicate();
        let hint = copy_opt(&symbol_hint);
        let per = copy_string(&period);
        match binance_taker_volume_from_value(inst, hint, per, item) {
            Ok(o) => out.push(o),
            Err(e) => {
                let ghost rej = object_rejections(all, "Binance taker buy-sell volume item is not an object"@);
                assert(!(item_view is Object));
                assert(forall|j: int| 0 <= j < k ==> #[trigger] rej[j] is None);
                assert(first_rejected(rej, ExchangeId::Binance, k as int, e));
                assert(rejected(rej, ExchangeId::Binance, e));
                return Err(e);
            },
        }
        k += 1;
        assert(items@ =~= all.skip(k as int));
    }
    Ok(out)
}

/// The first item of a Binance funding rate answer, mapped.
pub fn binance_funding_rate_from_response(instrument: Instrument, symbol: String, raw: JsonValue) -> (r: Result<FundingRate>)
    ensures
        match items_spec(raw) {
            None => r matches Err(e) && e.is_adapter(ExchangeId::Binance, "Binance funding rate response"@ + " is neither an array nor an object"@),
            Some(items) => if items.len() == 0 {
                r matches Err(e) && e.is_adapter(ExchangeId::Binance, "Binance funding rate response"@ + " is empty"@)
            } else if items[0] is Object {
                r matches Ok(o) && binance_funding_rate_from_value_of(instrument, Some(symbol), items[0], o)
            } else {
                r matches Err(e) && e.is_adapter(ExchangeId::Binance, "Binance funding rate item is not an object"@)
            },
        },
{
    let item = match first_item(raw, ExchangeId::Binance, "Binance funding rate response") {
        Ok(item) => item,
        Err(e) => return Err(e),
    };
    binance_funding_rate_from_value(instrument, Some(symbol), item)
}

/// The first item of a Binance mark price answer, mapped.
pub fn binance_mark_price_from_response(instrument: Instrument, symbol: String, raw: JsonValue) -> (r: Result<MarkPrice>)
    ensures
        match items_spec(raw) {
            None => r matches Err(e) && e.is_adapter(ExchangeId::Binance, "Binance mark price response"@ + " is neither an array nor an object"@),
            Some(items) => if items.len() == 0 {
                r matches Err(e) && e.is_adapter(ExchangeId::Binance, "Binance mark price response"@ + " is empty"@)
            } else if items[0] is Object {
                r matches Ok(o) && binance_mark_price_from_value_of(instrument, Some(symbol), items[0], o)
            } else {
                r matches Err(e) && e.is_adapter(ExchangeId::Binance, "Binance mark price item is not an object"@)
            },
        },
{
    let item = match first_item(raw, ExchangeId::Binance, "Binance mark price response") {
        Ok(item) => item,
        Err(e) => return Err(e),
    };
    binance_mark_price_from_value(instrument, Some(symbol), item)
}

/// The first item of a Binance open interest answer, mapped.
pub fn binance_open_interest_from_response(instrument: Instrument, symbol: String, raw: JsonValue) -> (r: Result<OpenInterest>)
    ensures
        match items_spec(raw) {
            None => r matches Err(e) && e.is_adapter(ExchangeId::Binance, "Binance open interest response"@ + " is neither an array nor an object"@),
            Some(items) => if items.len() == 0 {
                r matches Err(e) && e.is_adapter(ExchangeId::Binance, "Binance open interest response"@ + " is empty"@)
            } else if items[0] is Object {
                r matches Ok(o) && binance_open_interest_from_value_of(instrument, Some(symbol), items[0], o)
            } else {
                r matches Err(e) && e.is_adapter(ExchangeId::Binance, "Binance open interest item is not an object"@)
            },
        },
{
    let item = match first_item(raw, ExchangeId::Binance, "Binance open interest response") {
        Ok(item) => item,
        Err(e) => return Err(e),
    };
    binance_open_interest_from_value(instrument, Some(symbol), item)
}

/// `o` is the ticker read from an item (see `binance_ticker_from_value`).
pub open spec fn binance_ticker_from_value_of(
    instrument: Instrument,
    symbol: String,
    raw: JsonValue,
    o: Ticker,
) -> bool {
    match raw {
        JsonValue::Object(e) => {
            &&& o.exchange == ExchangeId::Binance
            &&& o.instrument == instrument
            &&& o.exchange_symbol == symbol
            &&& o.last_price@ == or_empty(str_field(e@, "lastPrice"@))
            &&& opt_view(o.bid_price) == str_field(e@, "bidPrice"@)
            &&& opt_view(o.ask_price) == str_field(e@, "askPrice"@)
            &&& opt_view(o.volume_24h) == str_field(e@, "volume"@)
            &&& o.timestamp == u64_field_spec(e@, "closeTime"@)
            &&& o.raw == raw
        },
        _ => false,
    }
}

/// The ticker of a Binance 24-hour ticker answer for `symbol`.
pub fn binance_ticker_from_value(
    instrument: Instrument,
    symbol: String,
    raw: JsonValue,
) -> (r: Result<Ticker>)
    ensures
        raw is Object ==> (r matches Ok(o) && binance_ticker_from_value_of(instrument, symbol, raw, o)),
        !(raw is Object) ==> (r matches Err(err) && err.is_adapter(ExchangeId::Binance, "Binance ticker response is not an object"@)),
{
    let e = match &raw {
        JsonValue::Object(e) => e,
        _ => return Err(Error::Adapter { exchange: ExchangeId::Binance, message: owned("Binance ticker response is not an object") }),
    };
    let exchange = ExchangeId::Binance;
    let instrument = instrument;
    let exchange_symbol = symbol;
    let last_price = match string_field(e, "lastPrice") { Some(s) => s, None => String::new() };
    let bid_price = string_field(e, "bidPrice");
    let ask_price = string_field(e, "askPrice");
    let volume_24h = string_field(e, "volume");
    let timestamp = u64_field(e, "closeTime");
    Ok(Ticker { exchange, instrument, exchange_symbol, last_price, bid_price, ask_price, volume_24h, timestamp, raw: raw })
}

/// A Binance request for futures statistics of a period.
#[derive(Debug, Clone, PartialEq, Eq)]
pub struct BinanceFuturesDataRequest {
    pub symbol: String,
    pub period: String,
    pub limit: Option<u32>,
    pub start_time: Option<u64>,
    pub end_time: Option<u64>,
}

/// The Binance statistics request of a query for `symbol`.
pub fn binance_futures_data_request(symbol: &str, query: &MarketStatsQuery) -> (r: BinanceFuturesDataRequest)
    ensures
        r.symbol@ == symbol@,
        r.period@ == query.period@,
        r.limit == query.limit,
        r.start_time == query.start_time,
        r.end_time == query.end_time,
{
    BinanceFuturesDataRequest {
        symbol: owned(symbol),
        period: copy_string(&query.period),
        limit: query.limit,
        start_time: query.start_time,
        end_time: query.end_time,
    }
}

/// A Binance kline request.
#[derive(Debug, Clone, PartialEq, Eq)]
pub struct BinanceKlineRequest {
    pub symbol: String,
    pub interval: String,
    pub start_time: Option<u64>,
    pub end_time: Option<u64>,
    pub limit: Option<u32>,
}

/// The Binance kline request of a candle query for `symbol`.
pub fn binance_kline_request(symbol: &str, query: &CandleQuery) -> (r: BinanceKlineRequest)
    ensures
        r.symbol@ == symbol@,
        r.interval@ == query.interval@,
        r.start_time == query.start_time,
        r.end_time == query.end_time,
        r.limit == query.limit,
{
    BinanceKlineRequest {
        symbol: owned(symbol),
        interval: copy_string(&query.interval),
        start_time: query.start_time,
        end_time: query.end_time,
        limit: query.limit,
    }
}

/// `c` is the candle of a Binance kline row `[open time, open, high, low,
/// close, volume, close time, quote volume, ...]`.
pub open spec fn binance_candle_of(instrument: Instrument, exchange_symbol: Seq<char>, item: JsonValue, c: Candle) -> bool {
    match item {
        JsonValue::Array(v) => {
            &&& c.exchange == ExchangeId::Binance
            &&& c.instrument.same_as(instrument)
            &&& c.exchange_symbol@ == exchange_symbol
            &&& c.open_time == u64_at(v@, 0)
            &&& c.close_time == u64_at(v@, 6)
            &&& c.open@ == or_empty(text_at(v@, 1))
            &&& c.high@ == or_empty(text_at(v@, 2))
            &&& c.low@ == or_empty(text_at(v@, 3))
            &&& c.close@ == or_empty(text_at(v@, 4))
            &&& c.volume@ == or_empty(text_at(v@, 5))
            &&& opt_view(c.quote_volume) == text_at(v@, 7)
            &&& c.closed is None
            &&& c.raw == item
        },
        _ => false,
    }
}

/// The candles of a Binance kline answer: an array of rows.
pub fn binance_candles_from_value(instrument: &Instrument, exchange_symbol: &str, raw: JsonValue) -> (r:
    Result<Vec<Candle>>)
    ensures
        !(raw is Array) ==> (r matches Err(e) && e.is_adapter(
            ExchangeId::Binance,
            "Binance candles response is not an array"@,
        )),
        raw matches JsonValue::Array(items) ==> if all_arrays(items@) {
            r matches Ok(out) && out@.len() == items@.len() && forall|i: int|
                0 <= i < items@.len() ==> binance_candle_of(
                    *instrument,
                    exchange_symbol@,
                    items@[i],
                    #[trigger] out@[i],
                )
        } else {
            r matches Err(e) && e.is_adapter(ExchangeId::Binance, "Binance candle item is not an array"@)
        },
{
    let mut items = match raw {
        JsonValue::Array(items) => items,
        _ => return Err(
            Error::Adapter {
                exchange: ExchangeId::Binance,
                message: owned("Binance candles response is not an array"),
            },
        ),
    };
    let ghost all = items@;
    let mut out: Vec<Candle> = Vec::new();
    let mut k: usize = 0;
    let n0 = items.len();
    assert(all.skip(0) =~= all);
    while items.len() > 0
        invariant
            raw is Array && raw->Array_0@ == all,
            n0 == all.len(),
            k + items@.len() == all.len(),
            items@ == all.skip(k as int),
            out@.len() == k,
            forall|j: int| 0 <= j < k ==> #[trigger] all[j] is Array,
            forall|j: int|
                0 <= j < k ==> binance_candle_of(*instrument, exchange_symbol@, all[j], #[trigger] out@[j]),
        decreases items@.len(),
    {
        let item = items.remove(0);
        assert(item == all[k as int]);
        let c = match &item {
            JsonValue::Array(values) => {
                let open = match value_string_at(values, 1) { Some(s) => s, None => String::new() };
                let high = match value_string_at(values, 2) { Some(s) => s, None => String::new() };
                let low = match value_string_at(values, 3) { Some(s) => s, None => String::new() };
                let close = match value_string_at(values, 4) { Some(s) => s, None => String::new() };
                let volume = match value_string_at(values, 5) { Some(s) => s, None => String::new() };
                Candle {
                    exchange: ExchangeId::Binance,
                    instrument: instrument.duplicate(),
                    exchange_symbol: owned(exchange_symbol),
                    open_time: value_u64_at(values, 0),
                    close_time: value_u64_at(values, 6),
                    open,
                    high,
                    low,
                    close,
                    volume,
                    quote_volume: value_string_at(values, 7),
                    closed: None,
                    raw: JsonValue::Null,
                }
            },
            _ => {
                assert(!all_arrays(all));
                return Err(
                    Error::Adapter {
                        exchange: ExchangeId::Binance,
                        message: owned("Binance candle item is not an array"),
                    },
                );
            },
        };
        let c = Candle { raw: item, ..c };
        out.push(c);
        k += 1;
        assert(items@ =~= all.skip(k as int));
    }
    Ok(out)
}

/// The levels of one side of a Binance book: `[price, size, ...]` arrays.
pub open spec fn binance_level_of(item: JsonValue, l: OrderBookLevel) -> bool {
    match item {
        JsonValue::Array(v) => {
            &&& l.price@ == or_empty(text_at(v@, 0))
            &&& l.size@ == or_empty(text_at(v@, 1))
            &&& l.raw.model() == item.model()
        },
        _ => false,
    }
}

/// The levels of the `side` member of a Binance book.
pub fn binance_book_levels(value: Option<&JsonValue>, side: &str) -> (r: Result<Vec<OrderBookLevel>>)
    ensures
        match value {
            Some(JsonValue::Array(levels)) => if all_arrays(levels@) {
                r matches Ok(out) && out@.len() == levels@.len() && forall|i: int|
                    0 <= i < levels@.len() ==> binance_level_of(levels@[i], #[trigger] out@[i])
            } else {
                r matches Err(e) && e.is_adapter(
                    ExchangeId::Binance,
                    "Binance orderbook "@ + side@ + " level is not an array"@,
                )
            },
            _ => r matches Err(e) && e.is_adapter(
                ExchangeId::Binance,
                "Binance orderbook "@ + side@ + " is not an array"@,
            ),
        },
{
    let levels = match value {
        Some(JsonValue::Array(levels)) => levels,
        _ => return Err(
            Error::Adapter {
                exchange: ExchangeId::Binance,
                message: concat3("Binance orderbook ", side, " is not an array"),
            },
        ),
    };
    let mut out: Vec<OrderBookLevel> = Vec::new();
    let mut i: usize = 0;
    while i < levels.len()
        invariant
            i <= levels.len(),
            value matches Some(JsonValue::Array(l)) && l@ == levels@,
            out@.len() == i,
            forall|k: int| 0 <= k < i ==> #[trigger] levels@[k] is Array,
            forall|k: int| 0 <= k < i ==> binance_level_of(levels@[k], #[trigger] out@[k]),
        decreases levels.len() - i,
    {
        let values = match &levels[i] {
            JsonValue::Array(values) => values,
            _ => {
                assert(!all_arrays(levels@));
                return Err(
                    Error::Adapter {
                        exchange: ExchangeId::Binance,
                        message: concat3("Binance orderbook ", side, " level is not an array"),
                    },
                );
            },
        };
        let price = match value_string_at(values, 0) {
            Some(p) => p,
            None => String::new(),
        };
        let size = match value_string_at(values, 1) {
            Some(z) => z,
            None => String::new(),
        };
        out.push(OrderBookLevel { price, size, raw: levels[i].copy() });
        i += 1;
    }
    Ok(out)
}

/// The order book of a Binance depth answer (`bids`, `asks`, event time).
pub fn binance_orderbook_from_value(instrument: Instrument, exchange_symbol: String, raw: JsonValue) -> (r:
    Result<OrderBook>)
    ensures
        !(raw is Object) ==> (r matches Err(e) && e.is_adapter(
            ExchangeId::Binance,
            "Binance orderbook response is not an object"@,
        )),
        raw matches JsonValue::Object(e) ==> match (obj_get(e@, "bids"@), obj_get(e@, "asks"@)) {
            (Some(JsonValue::Array(bids)), Some(JsonValue::Array(asks))) => if all_arrays(bids@) && all_arrays(asks@) {
                r matches Ok(book) && {
                    &&& book.exchange == ExchangeId::Binance
                    &&& book.instrument == instrument
                    &&& book.exchange_symbol == exchange_symbol
                    &&& book.bids@.len() == bids@.len()
                    &&& forall|i: int| 0 <= i < bids@.len() ==> binance_level_of(bids@[i], #[trigger] book.bids@[i])
                    &&& book.asks@.len() == asks@.len()
                    &&& forall|i: int| 0 <= i < asks@.len() ==> binance_level_of(asks@[i], #[trigger] book.asks@[i])
                    &&& book.timestamp == first_u64_field(e@, seq!["E", "T", "ts"])
                    &&& book.raw == raw
                }
            } else {
                r is Err
            },
            (Some(JsonValue::Array(bids)), _) => if all_arrays(bids@) {
                r matches Err(err) && err.is_adapter(ExchangeId::Binance, "Binance orderbook "@ + "asks"@ + " is not an array"@)
            } else {
                r matches Err(err) && err.is_adapter(ExchangeId::Binance, "Binance orderbook "@ + "bids"@ + " level is not an array"@)
            },
            _ => r matches Err(err) && err.is_adapter(ExchangeId::Binance, "Binance orderbook "@ + "bids"@ + " is not an array"@),
        },
{
    let e = match &raw {
        JsonValue::Object(e) => e,
        _ => return Err(
            Error::Adapter {
                exchange: ExchangeId::Binance,
                message: owned("Binance orderbook response is not an object"),
            },
        ),
    };
    let bids = match binance_book_levels(obj_lookup(e, "bids"), "bids") {
        Ok(v) => v,
        Err(err) => return Err(err),
    };
    let asks = match binance_book_levels(obj_lookup(e, "asks"), "asks") {
        Ok(v) => v,
        Err(err) => return Err(err),
    };
    let keys = ["E", "T", "ts"];
    assert(keys@ =~= seq!["E", "T", "ts"]);
    let timestamp = first_u64(e, &keys);
    Ok(OrderBook { exchange: ExchangeId::Binance, instrument, exchange_symbol, bids, asks, timestamp, raw })
}

} // verus!
