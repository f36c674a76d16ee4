//! Bitget V2 futures market data: funding, mark prices, open interest and
//! trading statistics.
use crate::error::{Error, Result};
use crate::exchange::ExchangeId;
use crate::instrument::Instrument;
use crate::json::{
    first_listed, first_rejected, first_str_field, first_string_field, first_u64, first_u64_field,
    listed_items, listed_items_of, object_rejections, or_else, or_empty, rejected, JsonValue,
};
use crate::market::{FundingRate, LongShortRatio, MarkPrice, OpenInterest, TakerBuySellVolume};
use crate::text::{copy_opt, copy_string, opt_view, owned};
use vstd::prelude::*;

verus! {

broadcast use vstd::std_specs::vec::group_vec_axioms;

/// `o` is the fundingrate read from an item (see `bitget_funding_rate_from_value`).
pub open spec fn bitget_funding_rate_from_value_of(
    instrument: Instrument,
    symbol_hint: Option<String>,
    raw: JsonValue,
    o: FundingRate,
) -> bool {
    match raw {
        JsonValue::Object(e) => {
            &&& o.exchange == ExchangeId::Bitget
            &&& o.instrument.same_as(instrument)
            &&& o.exchange_symbol@ == or_empty(or_else(first_str_field(e@, seq!["symbol", "instId"]), opt_view(symbol_hint)))
            &&& o.funding_rate@ == or_empty(first_str_field(e@, seq!["fundingRate", "rate"]))
            &&& o.funding_time == first_u64_field(e@, seq!["fundingTime", "setTime", "time", "ts"])
            &&& opt_view(o.next_funding_rate) == first_str_field(e@, seq!["nextFundingRate", "nextRate"])
            &&& o.next_funding_time == first_u64_field(e@, seq!["nextFundingTime", "nextUpdate"])
            &&& opt_view(o.mark_price) == first_str_field(e@, seq!["markPrice", "markPx"])
            &&& o.raw == raw
        },
        _ => false,
    }
}

/// One Bitget funding-rate item.
pub fn bitget_funding_rate_from_value(
    instrument: Instrument,
    symbol_hint: Option<String>,
    raw: JsonValue,
) -> (r: Result<FundingRate>)
    ensures
        raw is Object ==> (r matches Ok(o) && bitget_funding_rate_from_value_of(instrument, symbol_hint, raw, o)),
        !(raw is Object) ==> (r matches Err(err) && err.is_adapter(ExchangeId::Bitget, "Bitget funding rate item is not an object"@)),
{
    let e = match &raw {
        JsonValue::Object(e) => e,
        _ => return Err(Error::Adapter { exchange: ExchangeId::Bitget, message: owned("Bitget funding rate item is not an object") }),
    };
    let exchange_symbol = match { let k = ["symbol", "instId"]; assert(k@ =~= seq!["symbol", "instId"]); first_string_field(e, &k) } {
        Some(s) => s,
        None => match symbol_hint {
            Some(h) => h,
            None => String::new(),
        },
    };
    let exchange = ExchangeId::Bitget;
    let instrument = instrument;
    let exchange_symbol = exchange_symbol;
    let funding_rate = match { let k = ["fundingRate", "rate"]; assert(k@ =~= seq!["fundingRate", "rate"]); first_string_field(e, &k) } { Some(s) => s, None => String::new() };
    let funding_time = { let k = ["fundingTime", "setTime", "time", "ts"]; assert(k@ =~= seq!["fundingTime", "setTime", "time", "ts"]); first_u64(e, &k) };
    let next_funding_rate = { let k = ["nextFundingRate", "nextRate"]; assert(k@ =~= seq!["nextFundingRate", "nextRate"]); first_string_field(e, &k) };
    let next_funding_time = { let k = ["nextFundingTime", "nextUpdate"]; assert(k@ =~= seq!["nextFundingTime", "nextUpdate"]); first_u64(e, &k) };
    let mark_price = { let k = ["markPrice", "markPx"]; assert(k@ =~= seq!["markPrice", "markPx"]); first_string_field(e, &k) };
    Ok(FundingRate { exchange, instrument, exchange_symbol, funding_rate, funding_time, next_funding_rate, next_funding_time, mark_price, raw: raw })
}

/// `o` is the markprice read from an item (see `bitget_mark_price_from_value`).
pub open spec fn bitget_mark_price_from_value_of(
    instrument: Instrument,
    symbol_hint: Option<String>,
    raw: JsonValue,
    o: MarkPrice,
) -> bool {
    match raw {
        JsonValue::Object(e) => {
            &&& o.exchange == ExchangeId::Bitget
            &&& o.instrument.same_as(instrument)
            &&& o.exchange_symbol@ == or_empty(or_else(first_str_field(e@, seq!["symbol", "instId"]), opt_view(symbol_hint)))
            &&& o.mark_price@ == or_empty(first_str_field(e@, seq!["markPrice", "markPx", "price"]))
            &&& opt_view(o.index_price) == first_str_field(e@, seq!["indexPrice", "indexPx"])
            &&& opt_view(o.funding_rate) == first_str_field(e@, seq!["fundingRate", "lastFundingRate"])
            &&& o.next_funding_time == first_u64_field(e@, seq!["nextFundingTime", "nextUpdate"])
            &&& o.timestamp == first_u64_field(e@, seq!["ts", "time"])
            &&& o.raw == raw
        },
        _ => false,
    }
}

/// One Bitget mark-price item.
pub fn bitget_mark_price_from_value(
    instrument: Instrument,
    symbol_hint: Option<String>,
    raw: JsonValue,
) -> (r: Result<MarkPrice>)
    ensures
        raw is Object ==> (r matches Ok(o) && bitget_mark_price_from_value_of(instrument, symbol_hint, raw, o)),
        !(raw is Object) ==> (r matches Err(err) && err.is_adapter(ExchangeId::Bitget, "Bitget mark price item is not an object"@)),
{
    let e = match &raw {
        JsonValue::Object(e) => e,
        _ => return Err(Error::Adapter { exchange: ExchangeId::Bitget, message: owned("Bitget mark price item is not an object") }),
    };
    let exchange_symbol = match { let k = ["symbol", "instId"]; assert(k@ =~= seq!["symbol", "instId"]); first_string_field(e, &k) } {
        Some(s) => s,
        None => match symbol_hint {
            Some(h) => h,
            None => String::new(),
        },
    };
    let exchange = ExchangeId::Bitget;
    let instrument = instrument;
    let exchange_symbol = exchange_symbol;
    let mark_price = match { let k = ["markPrice", "markPx", "price"]; assert(k@ =~= seq!["markPrice", "markPx", "price"]); first_string_field(e, &k) } { Some(s) => s, None => String::new() };
    let index_price = { let k = ["indexPrice", "indexPx"]; assert(k@ =~= seq!["indexPrice", "indexPx"]); first_string_field(e, &k) };
    let funding_rate = { let k = ["fundingRate", "lastFundingRate"]; assert(k@ =~= seq!["fundingRate", "lastFundingRate"]); first_string_field(e, &k) };
    let next_funding_time = { let k = ["nextFundingTime", "nextUpdate"]; assert(k@ =~= seq!["nextFundingTime", "nextUpdate"]); first_u64(e, &k) };
    let timestamp = { let k = ["ts", "time"]; assert(k@ =~= seq!["ts", "time"]); first_u64(e, &k) };
    Ok(MarkPrice { exchange, instrument, exchange_symbol, mark_price, index_price, funding_rate, next_funding_time, timestamp, raw: raw })
}

/// `o` is the openinterest read from an item (see `bitget_open_interest_from_value`).
pub open spec fn bitget_open_interest_from_value_of(
    instrument: Instrument,
    symbol_hint: Option<String>,
    raw: JsonValue,
    o: OpenInterest,
) -> bool {
    match raw {
        JsonValue::Object(e) => {
            &&& o.exchange == ExchangeId::Bitget
            &&& o.instrument.same_as(instrument)
            &&& o.exchange_symbol@ == or_empty(or_else(first_str_field(e@, seq!["symbol", "instId"]), opt_view(symbol_hint)))
            &&& o.open_interest@ == or_empty(first_str_field(e@, seq!["openInterest", "oi", "size"]))
            &&& opt_view(o.open_interest_value) == first_str_field(e@, seq!["openInterestValue", "oiCcy", "amount", "value"])
            &&& o.timestamp == first_u64_field(e@, seq!["ts", "time"])
            &&& o.raw == raw
        },
        _ => false,
    }
}

/// One Bitget open-interest item.
pub fn bitget_open_interest_from_value(
    instrument: Instrument,
    symbol_hint: Option<String>,
    raw: JsonValue,
) -> (r: Result<OpenInterest>)
    ensures
        raw is Object ==> (r matches Ok(o) && bitget_open_interest_from_value_of(instrument, symbol_hint, raw, o)),
        !(raw is Object) ==> (r matches Err(err) && err.is_adapter(ExchangeId::Bitget, "Bitget open interest item is not an object"@)),
{
    let e = match &raw {
        JsonValue::Object(e) => e,
        _ => return Err(Error::Adapter { exchange: ExchangeId::Bitget, message: owned("Bitget open interest item is not an object") }),
    };
    let exchange_symbol = match { let k = ["symbol", "instId"]; assert(k@ =~= seq!["symbol", "instId"]); first_string_field(e, &k) } {
        Some(s) => s,
        None => match symbol_hint {
            Some(h) => h,
            None => String::new(),
        },
    };
    let exchange = ExchangeId::Bitget;
    let instrument = instrument;
    let exchange_symbol = exchange_symbol;
    let open_interest = match { let k = ["openInterest", "oi", "size"]; assert(k@ =~= seq!["openInterest", "oi", "size"]); first_string_field(e, &k) } { Some(s) => s, None => String::new() };
    let open_interest_value = { let k = ["openInterestValue", "oiCcy", "amount", "value"]; assert(k@ =~= seq!["openInterestValue", "oiCcy", "amount", "value"]); first_string_field(e, &k) };
    let timestamp = { let k = ["ts", "time"]; assert(k@ =~= seq!["ts", "time"]); first_u64(e, &k) };
    Ok(OpenInterest { exchange, instrument, exchange_symbol, open_interest, open_interest_value, timestamp, raw: raw })
}

/// `o` is the longshortratio read from an item (see `bitget_long_short_ratio_from_value`).
pub open spec fn bitget_long_short_ratio_from_value_of(
    instrument: Instrument,
    symbol_hint: Option<String>,
    period: String,
    raw: JsonValue,
    o: LongShortRatio,
) -> bool {
    match raw {
        JsonValue::Object(e) => {
            &&& o.exchange == ExchangeId::Bitget
            &&& o.instrument.same_as(instrument)
            &&& o.exchange_symbol@ == or_empty(or_else(first_str_field(e@, seq!["symbol", "instId"]), opt_view(symbol_hint)))
            &&& o.period@ == period@
            &&& o.ratio@ == or_empty(first_str_field(e@, seq!["longShortRatio", "longShortAccountRatio", "ratio"]))
            &&& opt_view(o.long_ratio) == first_str_field(e@, seq!["longAccountRatio", "longAccount", "longRatio"])
            &&& opt_view(o.short_ratio) == first_str_field(e@, seq!["shortAccountRatio", "shortAccount", "shortRatio"])
            &&& o.timestamp == first_u64_field(e@, seq!["ts", "time", "timestamp"])
            &&& o.raw == raw
        },
        _ => false,
    }
}

/// One Bitget long/short account ratio item of a period.
pub fn bitget_long_short_ratio_from_value(
    instrument: Instrument,
    symbol_hint: Option<String>,
    period: String,
    raw: JsonValue,
) -> (r: Result<LongShortRatio>)
    ensures
        raw is Object ==> (r matches Ok(o) && bitget_long_short_ratio_from_value_of(instrument, symbol_hint, period, raw, o)),
        !(raw is Object) ==> (r matches Err(err) && err.is_adapter(ExchangeId::Bitget, "Bitget long-short ratio item is not an object"@)),
{
    let e = match &raw {
        JsonValue::Object(e) => e,
        _ => return Err(Error::Adapter { exchange: ExchangeId::Bitget, message: owned("Bitget long-short ratio item is not an object") }),
    };
    let exchange_symbol = match { let k = ["symbol", "instId"]; assert(k@ =~= seq!["symbol", "instId"]); first_string_field(e, &k) } {
        Some(s) => s,
        None => match symbol_hint {
            Some(h) => h,
            None => String::new(),
        },
    };
    let exchange = ExchangeId::Bitget;
    let instrument = instrument;
    let exchange_symbol = exchange_symbol;
    let period = period;
    let ratio = match { let k = ["longShortRatio", "longShortAccountRatio", "ratio"]; assert(k@ =~= seq!["longShortRatio", "longShortAccountRatio", "ratio"]); first_string_field(e, &k) } { Some(s) => s, None => String::new() };
    let long_ratio = { let k = ["longAccountRatio", "longAccount", "longRatio"]; assert(k@ =~= seq!["longAccountRatio", "longAccount", "longRatio"]); first_string_field(e, &k) };
    let short_ratio = { let k = ["shortAccountRatio", "shortAccount", "shortRatio"]; assert(k@ =~= seq!["shortAccountRatio", "shortAccount", "shortRatio"]); first_string_field(e, &k) };
    let timestamp = { let k = ["ts", "time", "timestamp"]; assert(k@ =~= seq!["ts", "time", "timestamp"]); first_u64(e, &k) };
    Ok(LongShortRatio { exchange, instrument, exchange_symbol, period, ratio, long_ratio, short_ratio, timestamp, raw: raw })
}

/// `o` is the takerbuysellvolume read from an item (see `bitget_taker_volume_from_value`).
pub open spec fn bitget_taker_volume_from_value_of(
    instrument: Instrument,
    symbol_hint: Option<String>,
    period: String,
    raw: JsonValue,
    o: TakerBuySellVolume,
) -> bool {
    match raw {
        JsonValue::Object(e) => {
            &&& o.exchange == ExchangeId::Bitget
            &&& o.instrument.same_as(instrument)
            &&& o.exchange_symbol@ == or_empty(or_else(first_str_field(e@, seq!["symbol", "instId"]), opt_view(symbol_hint)))
            &&& o.period@ == period@
            &&& o.buy_volume@ == or_empty(first_str_field(e@, seq!["buyVolume", "buyVol"]))
            &&& o.sell_volume@ == or_empty(first_str_field(e@, seq!["sellVolume", "sellVol"]))
            &&& opt_view(o.buy_sell_ratio) == first_str_field(e@, seq!["buySellRatio", "ratio"])
            &&& o.timestamp == first_u64_field(e@, seq!["ts", "time", "timestamp"])
            &&& o.raw == raw
        },
        _ => false,
    }
}

/// One Bitget taker buy/sell volume item of a period.
pub fn bitget_taker_volume_from_value(
    instrument: Instrument,
    symbol_hint: Option<String>,
    period: String,
    raw: JsonValue,
) -> (r: Result<TakerBuySellVolume>)
    ensures
        raw is Object ==> (r matches Ok(o) && bitget_taker_volume_from_value_of(instrument, symbol_hint, period, raw, o)),
        !(raw is Object) ==> (r matches Err(err) && err.is_adapter(ExchangeId::Bitget, "Bitget taker buy-sell volume item is not an object"@)),
{
    let e = match &raw {
        JsonValue::Object(e) => e,
        _ => return Err(Error::Adapter { exchange: ExchangeId::Bitget, message: owned("Bitget taker buy-sell volume item is not an object") }),
    };
    let exchange_symbol = match { let k = ["symbol", "instId"]; assert(k@ =~= seq!["symbol", "instId"]); first_string_field(e, &k) } {
        Some(s) => s,
        None => match symbol_hint {
            Some(h) => h,
            None => String::new(),
        },
    };
    let exchange = ExchangeId::Bitget;
    let instrument = instrument;
    let exchange_symbol = exchange_symbol;
    let period = period;
    let buy_volume = match { let k = ["buyVolume", "buyVol"]; assert(k@ =~= seq!["buyVolume", "buyVol"]); first_string_field(e, &k) } { Some(s) => s, None => String::new() };
    let sell_volume = match { let k = ["sellVolume", "sellVol"]; assert(k@ =~= seq!["sellVolume", "sellVol"]); first_string_field(e, &k) } { Some(s) => s, None => String::new() };
    let buy_sell_ratio = { let k = ["buySellRatio", "ratio"]; assert(k@ =~= seq!["buySellRatio", "ratio"]); first_string_field(e, &k) };
    let timestamp = { let k = ["ts", "time", "timestamp"]; assert(k@ =~= seq!["ts", "time", "timestamp"]); first_u64(e, &k) };
    Ok(TakerBuySellVolume { exchange, instrument, exchange_symbol, period, buy_volume, sell_volume, buy_sell_ratio, timestamp, raw: raw })
}

/// The funding rates of a Bitget funding-rate history answer.
pub fn bitget_funding_rates_from_value(
    instrument: &Instrument,
    symbol_hint: Option<String>,
    raw: JsonValue,
) -> (r: Result<Vec<FundingRate>>)
    ensures
        match listed_items(raw, seq!["openInterestList", "fundingRateList", "rateList", "priceList", "list", "items"]) {
            None => r matches Err(e) && e.is_adapter(ExchangeId::Bitget, "Bitget funding rate history response"@ + " is neither an array nor an object"@),
            Some(items) => match r {
                Ok(out) => out@.len() == items.len() && forall|i: int|
                    0 <= i < items.len() ==> bitget_funding_rate_from_value_of(*instrument, symbol_hint, #[trigger] items[i], out@[i]),
                Err(e) => rejected(object_rejections(items, "Bitget funding rate item is not an object"@), ExchangeId::Bitget, e),
            },
        },
{
    let keys = ["openInterestList", "fundingRateList", "rateList", "priceList", "list", "items"];
    assert(keys@ =~= seq!["openInterestList", "fundingRateList", "rateList", "priceList", "list", "items"]);
    let ghost original = listed_items(raw, seq!["openInterestList", "fundingRateList", "rateList", "priceList", "list", "items"]);
    let mut items = match listed_items_of(raw, ExchangeId::Bitget, "Bitget funding rate history response", &keys) {
        Ok(items) => items,
        Err(e) => return Err(e),
    };
    let ghost all = items@;
    let mut out: Vec<FundingRate> = Vec::new();
    let mut k: usize = 0;
    let n = items.len();
    assert(all.skip(0) =~= all);
    while items.len() > 0
        invariant
            n == all.len(),
            original == listed_items(raw, seq!["openInterestList", "fundingRateList", "rateList", "priceList", "list", "items"]),
            original == Some(all),
            k + items@.len() == all.len(),
            items@ == all.skip(k as int),
            out@.len() == k,
            forall|j: int| 0 <= j < k ==> bitget_funding_rate_from_value_of(*instrument, symbol_hint, #[trigger] all[j], out@[j]),
        decreases items@.len(),
    {
        let item = items.remove(0);
        assert(item == all[k as int]);
        let ghost item_view = item;
        let inst = instrument.duplicate();
        let hint = copy_opt(&symbol_hint);
        match bitget_funding_rate_from_value(inst, hint, item) {
            Ok(o) => out.push(o),
            Err(e) => {
                let ghost rej = object_rejections(all, "Bitget funding rate item is not an object"@);
                assert(!(item_view is Object));
                assert(forall|j: int| 0 <= j < k ==> #[trigger] rej[j] is None);
                assert(first_rejected(rej, ExchangeId::Bitget, k as int, e));
                assert(rejected(rej, ExchangeId::Bitget, e));
                return Err(e);
            },
        }
        k += 1;
        assert(items@ =~= all.skip(k as int));
    }
    Ok(out)
}

/// The long/short ratios of a Bitget long/short ratio answer.
pub fn bitget_long_short_ratios_from_value(
    instrument: &Instrument,
    symbol_hint: Option<String>,
    period: String,
    raw: JsonValue,
) -> (r: Result<Vec<LongShortRatio>>)
    ensures
        match listed_items(raw, seq!["openInterestList", "fundingRateList", "rateList", "priceList", "list", "items"]) {
            None => r matches Err(e) && e.is_adapter(ExchangeId::Bitget, "Bitget long-short ratio response"@ + " is neither an array nor an object"@),
            Some(items) => match r {
                Ok(out) => out@.len() == items.len() && forall|i: int|
                    0 <= i < items.len() ==> bitget_long_short_ratio_from_value_of(*instrument, symbol_hint, period, #[trigger] items[i], out@[i]),
                Err(e) => rejected(object_rejections(items, "Bitget long-short ratio item is not an object"@), ExchangeId::Bitget, e),
            },
        },
{
    let keys = ["openInterestList", "fundingRateList", "rateList", "priceList", "list", "items"];
    assert(keys@ =~= seq!["openInterestList", "fundingRateList", "rateList", "priceList", "list", "items"]);
    let ghost original = listed_items(raw, seq!["openInterestList", "fundingRateList", "rateList", "priceList", "list", "items"]);
    let mut items = match listed_items_of(raw, ExchangeId::Bitget, "Bitget long-short ratio response", &keys) {
        Ok(items) => items,
        Err(e) => return Err(e),
    };
    let ghost all = items@;
    let mut out: Vec<LongShortRatio> = Vec::new();
    let mut k: usize = 0;
    let n = items.len();
    assert(all.skip(0) =~= all);
    while items.len() > 0
        invariant
            n == all.len(),
            original == listed_items(raw, seq!["openInterestList", "fundingRateList", "rateList", "priceList", "list", "items"]),
            original == Some(all),
            k + items@.len() == all.len(),
            items@ == all.skip(k as int),
            out@.len() == k,
            forall|j: int| 0 <= j < k ==> bitget_long_short_ratio_from_value_of(*instrument, symbol_hint, period, #[trigger] all[j], out@[j]),
        decreases items@.len(),
    {
        let item = items.remove(0);
        assert(item == all[k as int]);
        let ghost item_view = item;
        let inst = instrument.duplicate();
        let hint = copy_opt(&symbol_hint);
        let per = copy_string(&period);
        match bitget_long_short_ratio_from_value(inst, hint, per, item) {
            Ok(o) => out.push(o),
            Err(e) => {
                let ghost rej = object_rejections(all, "Bitget long-short ratio item is not an object"@);
                assert(!(item_view is Object));
                assert(forall|j: int| 0 <= j < k ==> #[trigger] rej[j] is None);
                assert(first_rejected(rej, ExchangeId::Bitget, k as int, e));
                assert(rejected(rej, ExchangeId::Bitget, e));
                return Err(e);
            },
        }
        k += 1;
        assert(items@ =~= all.skip(k as int));
    }
    Ok(out)
}

/// The taker volumes of a Bitget taker buy/sell volume answer.
pub fn bitget_taker_volumes_from_value(
    instrument: &Instrument,
    symbol_hint: Option<String>,
    period: String,
    raw: JsonValue,
) -> (r: Result<Vec<TakerBuySellVolume>>)
    ensures
        match listed_items(raw, seq!["openInterestList", "fundingRateList", "rateList", "priceList", "list", "items"]) {
            None => r matches Err(e) && e.is_adapter(ExchangeId::Bitget, "Bitget taker buy-sell volume response"@ + " is neither an array nor an object"@),
            Some(items) => match r {
                Ok(out) => out@.len() == items.len() && forall|i: int|
                    0 <= i < items.len() ==> bitget_taker_volume_from_value_of(*instrument, symbol_hint, period, #[trigger] items[i], out@[i]),
                Err(e) => rejected(object_rejections(items, "Bitget taker buy-sell volume item is not an object"@), ExchangeId::Bitget, e),
            },
        },
{
    let keys = ["openInterestList", "fundingRateList", "rateList", "priceList", "list", "items"];
    assert(keys@ =~= seq!["openInterestList", "fundingRateList", "rateList", "priceList", "list", "items"]);
    let ghost original = listed_items(raw, seq!["openInterestList", "fundingRateList", "rateList", "priceList", "list", "items"]);
    let mut items = match listed_items_of(raw, ExchangeId::Bitget, "Bitget taker buy-sell volume response", &keys) {
        Ok(items) => items,
        Err(e) => return Err(e),
    };
    let ghost all = items@;
    let mut out: Vec<TakerBuySellVolume> = Vec::new();
    let mut k: usize = 0;
    let n = items.len();
    assert(all.skip(0) =~= all);
    while items.len() > 0
        invariant
            n == all.len(),
            original == listed_items(raw, seq!["openInterestList", "fundingRateList", "rateList", "priceList", "list", "items"]),
            original == Some(all),
            k + items@.len() == all.len(),
            items@ == all.skip(k as int),
            out@.len() == k,
            forall|j: int| 0 <= j < k ==> bitget_taker_volume_from_value_of(*instrument, symbol_hint, period, #[trigger] all[j], out@[j]),
        decreases items@.len(),
    {
        let item = items.remove(0);
        assert(item == all[k as int]);
        let ghost item_view = item;
        let inst = instrument.duplicate();
        let hint = copy_opt(&symbol_hint);
        let per = copy_string(&period);
        match bitget_taker_volume_from_value(inst, hint, per, item) {
            Ok(o) => out.push(o),
            Err(e) => {
                let ghost rej = object_rejections(all, "Bitget taker buy-sell volume item is not an object"@);
                assert(!(item_view is Object));
                assert(forall|j: int| 0 <= j < k ==> #[trigger] rej[j] is None);
                assert(first_rejected(rej, ExchangeId::Bitget, k as int, e));
                assert(rejected(rej, ExchangeId::Bitget, e));
                return Err(e);
            },
        }
        k += 1;
        assert(items@ =~= all.skip(k as int));
    }
    Ok(out)
}

/// The first item of a Bitget funding rate answer, mapped.
pub fn bitget_funding_rate_from_response(instrument: Instrument, symbol: String, raw: JsonValue) -> (r: Result<FundingRate>)
    ensures
        match listed_items(raw, seq!["openInterestList", "fundingRateList", "rateList", "priceList", "list", "items"]) {
            None => r matches Err(e) && e.is_adapter(ExchangeId::Bitget, "Bitget funding rate response"@ + " is neither an array nor an object"@),
            Some(items) => if items.len() == 0 {
                r matches Err(e) && e.is_adapter(ExchangeId::Bitget, "Bitget funding rate response"@ + " is empty"@)
            } else if items[0] is Object {
                r matches Ok(o) && bitget_funding_rate_from_value_of(instrument, Some(symbol), items[0], o)
            } else {
                r matches Err(e) && e.is_adapter(ExchangeId::Bitget, "Bitget funding rate item is not an object"@)
            },
        },
{
    let keys = ["openInterestList", "fundingRateList", "rateList", "priceList", "list", "items"];
    assert(keys@ =~= seq!["openInterestList", "fundingRateList", "rateList", "priceList", "list", "items"]);
    let item = match first_listed(raw, ExchangeId::Bitget, "Bitget funding rate response", &keys) {
        Ok(item) => item,
        Err(e) => return Err(e),
    };
    bitget_funding_rate_from_value(instrument, Some(symbol), item)
}

/// The first item of a Bitget mark price answer, mapped.
pub fn bitget_mark_price_from_response(instrument: Instrument, symbol: String, raw: JsonValue) -> (r: Result<MarkPrice>)
    ensures
        match listed_items(raw, seq!["openInterestList", "fundingRateList", "rateList", "priceList", "list", "items"]) {
            None => r matches Err(e) && e.is_adapter(ExchangeId::Bitget, "Bitget mark price response"@ + " is neither an array nor an object"@),
            Some(items) => if items.len() == 0 {
                r matches Err(e) && e.is_adapter(ExchangeId::Bitget, "Bitget mark price response"@ + " is empty"@)
            } else if items[0] is Object {
                r matches Ok(o) && bitget_mark_price_from_value_of(instrument, Some(symbol), items[0], o)
            } else {
                r matches Err(e) && e.is_adapter(ExchangeId::Bitget, "Bitget mark price item is not an object"@)
            },
        },
{
    let keys = ["openInterestList", "fundingRateList", "rateList", "priceList", "list", "items"];
    assert(keys@ =~= seq!["openInterestList", "fundingRateList", "rateList", "priceList", "list", "items"]);
    let item = match first_listed(raw, ExchangeId::Bitget, "Bitget mark price response", &keys) {
        Ok(item) => item,
        Err(e) => return Err(e),
    };
    bitget_mark_price_from_value(instrument, Some(symbol), item)
}

/// The first item of a Bitget open interest answer, mapped.
pub fn bitget_open_interest_from_response(instrument: Instrument, symbol: String, raw: JsonValue) -> (r: Result<OpenInterest>)
    ensures
        match listed_items(raw, seq!["openInterestList", "fundingRateList", "rateList", "priceList", "list", "items"]) {
            None => r matches Err(e) && e.is_adapter(ExchangeId::Bitget, "Bitget open interest response"@ + " is neither an array nor an object"@),
            Some(items) => if items.len() == 0 {
                r matches Err(e) && e.is_adapter(ExchangeId::Bitget, "Bitget open interest response"@ + " is empty"@)
            } else if items[0] is Object {
                r matches Ok(o) && bitget_open_interest_from_value_of(instrument, Some(symbol), items[0], o)
            } else {
                r matches Err(e) && e.is_adapter(ExchangeId::Bitget, "Bitget open interest item is not an object"@)
            },
        },
{
    let keys = ["openInterestList", "fundingRateList", "rateList", "priceList", "list", "items"];
    assert(keys@ =~= seq!["openInterestList", "fundingRateList", "rateList", "priceList", "list", "items"]);
    let item = match first_listed(raw, ExchangeId::Bitget, "Bitget open interest response", &keys) {
        Ok(item) => item,
        Err(e) => return Err(e),
    };
    bitget_open_interest_from_value(instrument, Some(symbol), item)
}

} // verus!
