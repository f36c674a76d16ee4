//! Hyperliquid market data: asset contexts, tickers, order books, candles,
//! funding, mark prices and open interest.
use crate::error::{Error, Result};
use crate::exchange::ExchangeId;
use crate::hyperliquid::orders::is_coin_perp;
use crate::account::Balance;
use crate::hyperliquid::spot::{
    answer_contexts, answer_meta, array_member_of, is_spot_pair, spot_exchange_symbol_from_universe_item,
    spot_instrument_from_symbol, spot_instrument_from_universe_item, spot_symbol, spot_symbol_parts,
    universe_pair,
};
use crate::instrument::Instrument;
use crate::json::{
    first_str_field, first_string_field, obj_get, obj_lookup, obj_take, or_empty, str_field,
    string_field, text_at, u64_field, u64_field_spec, value_string_at, JsonValue,
};
use crate::market::{
    Candle, CandleQuery, FundingRate, FundingRateQuery, MarkPrice, OpenInterest, OrderBook,
    OrderBookLevel, Ticker,
};
use crate::text::{concat, concat3, copy_string, opt_view, owned, text_eq};
use vstd::prelude::*;

verus! {

broadcast use vstd::std_specs::vec::group_vec_axioms;

/// The universe and asset contexts of a `metaAndAssetCtxs` answer, or the
/// reason they cannot be read, with `label` naming the answer.
pub open spec fn universe_and_contexts_spec(raw: JsonValue, label: Seq<char>) -> std::result::Result<
    (Seq<JsonValue>, Seq<JsonValue>),
    Seq<char>,
> {
    if !(raw is Array) {
        Err(label + " response is not an array"@)
    } else {
        match answer_meta(raw) {
            None => Err(label + " missing meta"@),
            Some(meta) => match array_member_of(meta, "universe"@) {
                None => Err(label + " missing universe"@),
                Some(universe) => match answer_contexts(raw) {
                    None => Err(label + " missing contexts"@),
                    Some(contexts) => Ok((universe, contexts)),
                },
            },
        }
    }
}

/// The universe and the asset contexts of a `metaAndAssetCtxs` answer
/// (`[meta, contexts]`).
pub fn universe_and_contexts_with_label<'a>(
    raw: &'a JsonValue,
    exchange: ExchangeId,
    label: &str,
) -> (r: Result<(&'a Vec<JsonValue>, &'a Vec<JsonValue>)>)
    ensures
        match universe_and_contexts_spec(*raw, label@) {
            Ok((universe, contexts)) => r matches Ok((u, c)) && u@ == universe && c@ == contexts,
            Err(message) => r matches Err(e) && e.is_adapter(exchange, message),
        },
{
    let items = match raw {
        JsonValue::Array(items) => items,
        _ => return Err(Error::Adapter { exchange, message: concat(label, " response is not an array") }),
    };
    if items.len() == 0 {
        return Err(Error::Adapter { exchange, message: concat(label, " missing meta") });
    }
    let meta = match &items[0] {
        JsonValue::Object(e) => e,
        _ => return Err(Error::Adapter { exchange, message: concat(label, " missing meta") }),
    };
    let universe = match obj_lookup(meta, "universe") {
        Some(JsonValue::Array(u)) => u,
        _ => return Err(Error::Adapter { exchange, message: concat(label, " missing universe") }),
    };
    if items.len() < 2 {
        return Err(Error::Adapter { exchange, message: concat(label, " missing contexts") });
    }
    let contexts = match &items[1] {
        JsonValue::Array(c) => c,
        _ => return Err(Error::Adapter { exchange, message: concat(label, " missing contexts") }),
    };
    Ok((universe, contexts))
}

/// The name of a universe item that is an object.
pub open spec fn universe_name(item: JsonValue) -> Option<Seq<char>> {
    match item {
        JsonValue::Object(e) => str_field(e@, "name"@),
        _ => None,
    }
}

/// The first index at or after `start` whose universe item is named `symbol`;
/// the universe's length when there is none.
pub open spec fn first_named(universe: Seq<JsonValue>, symbol: Seq<char>, start: int) -> int
    decreases universe.len() - start,
{
    if start >= universe.len() || start < 0 {
        universe.len() as int
    } else if universe_name(universe[start]) == Some(symbol) {
        start
    } else {
        first_named(universe, symbol, start + 1)
    }
}

proof fn lemma_first_named_bounds(universe: Seq<JsonValue>, symbol: Seq<char>, start: int)
    requires
        0 <= start <= universe.len(),
    ensures
        start <= first_named(universe, symbol, start) <= universe.len(),
    decreases universe.len() - start,
{
    if start < universe.len() && universe_name(universe[start]) != Some(symbol) {
        lemma_first_named_bounds(universe, symbol, start + 1);
    }
}

/// What a `metaAndAssetCtxs` answer gives for the asset `symbol`: its
/// universe item and asset context, or the reason there is none.
pub open spec fn asset_context_spec(raw: JsonValue, symbol: Seq<char>, label: Seq<char>) -> std::result::Result<
    (JsonValue, JsonValue),
    Seq<char>,
> {
    match universe_and_contexts_spec(raw, label) {
        Err(message) => Err(message),
        Ok((universe, contexts)) => {
            let i = first_named(universe, symbol, 0);
            if i >= universe.len() {
                Err(label + " asset not found: "@ + symbol)
            } else if i >= contexts.len() {
                Err(label + " context missing asset: "@ + symbol)
            } else {
                Ok((universe[i], contexts[i]))
            }
        },
    }
}

/// The universe item and asset context of the asset `symbol` in a
/// `metaAndAssetCtxs` answer.
pub fn asset_context_from_response(
    raw: &JsonValue,
    exchange: ExchangeId,
    symbol: &str,
    label: &str,
) -> (r: Result<(JsonValue, JsonValue)>)
    ensures
        match asset_context_spec(*raw, symbol@, label@) {
            Ok((meta, ctx)) => r matches Ok((m, c)) && m.model() == meta.model() && c.model()
                == ctx.model(),
            Err(message) => r matches Err(e) && e.is_adapter(exchange, message),
        },
{
    let (universe, contexts) = match universe_and_contexts_with_label(raw, exchange, label) {
        Ok(pair) => pair,
        Err(e) => return Err(e),
    };
    let mut i: usize = 0;
    while i < universe.len()
        invariant
            i <= universe.len(),
            first_named(universe@, symbol@, 0) == first_named(universe@, symbol@, i as int),
            universe_and_contexts_spec(*raw, label@) == Ok::<_, Seq<char>>((universe@, contexts@)),
        decreases universe.len() - i,
    {
        let named = match &universe[i] {
            JsonValue::Object(e) => match string_field(e, "name") {
                Some(name) => text_eq(name.as_str(), symbol),
                None => false,
            },
            _ => false,
        };
        if named {
            assert(first_named(universe@, symbol@, i as int) == i as int);
            if i >= contexts.len() {
                return Err(
                    Error::Adapter {
                        exchange,
                        message: concat3(label, " context missing asset: ", symbol),
                    },
                );
            }
            return Ok((universe[i].copy(), contexts[i].copy()));
        }
        i += 1;
    }
    Err(Error::Adapter { exchange, message: concat3(label, " asset not found: ", symbol) })
}

/// `t` is the ticker read from an asset context.
pub open spec fn ticker_from_context_of(
    exchange: ExchangeId,
    instrument: Instrument,
    exchange_symbol: Seq<char>,
    raw: JsonValue,
    t: Ticker,
) -> bool {
    match raw {
        JsonValue::Object(e) => {
            &&& t.exchange == exchange
            &&& t.instrument == instrument
            &&& t.exchange_symbol@ == exchange_symbol
            &&& t.last_price@ == or_empty(first_str_field(e@, seq!["midPx", "markPx", "oraclePx"]))
            &&& t.bid_price is None
            &&& t.ask_price is None
            &&& opt_view(t.volume_24h) == str_field(e@, "dayNtlVlm"@)
            &&& t.timestamp is None
            &&& t.raw == raw
        },
        _ => false,
    }
}

/// The ticker of an asset context (mid price, else mark, else oracle).
pub fn ticker_from_context(
    exchange: ExchangeId,
    instrument: Instrument,
    exchange_symbol: String,
    raw: JsonValue,
) -> (r: Result<Ticker>)
    ensures
        raw is Object ==> (r matches Ok(t) && ticker_from_context_of(
            exchange,
            instrument,
            exchange_symbol@,
            raw,
            t,
        )),
        !(raw is Object) ==> (r matches Err(e) && e.is_adapter(
            exchange,
            "Hyperliquid asset context is not an object"@,
        )),
{
    let e = match &raw {
        JsonValue::Object(e) => e,
        _ => return Err(
            Error::Adapter {
                exchange,
                message: owned("Hyperliquid asset context is not an object"),
            },
        ),
    };
    let keys = ["midPx", "markPx", "oraclePx"];
    assert(keys@ =~= seq!["midPx", "markPx", "oraclePx"]);
    let last_price = match first_string_field(e, &keys) {
        Some(p) => p,
        None => String::new(),
    };
    let volume_24h = string_field(e, "dayNtlVlm");
    Ok(
        Ticker {
            exchange,
            instrument,
            exchange_symbol,
            last_price,
            bid_price: None,
            ask_price: None,
            volume_24h,
            timestamp: None,
            raw,
        },
    )
}

/// The coin names and asset contexts of the first `n` universe items that
/// make a perpetual ticker: named items with a context.
pub open spec fn perp_sources(universe: Seq<JsonValue>, contexts: Seq<JsonValue>, n: int) -> Seq<
    (Seq<char>, JsonValue),
>
    decreases n,
{
    if n <= 0 || n > universe.len() {
        Seq::empty()
    } else {
        let prev = perp_sources(universe, contexts, n - 1);
        match universe_name(universe[n - 1]) {
            Some(coin) => if n - 1 < contexts.len() {
                prev.push((coin, contexts[n - 1]))
            } else {
                prev
            },
            None => prev,
        }
    }
}

/// Why the first `n` universe items make no perpetual tickers, if they do not.
pub open spec fn perp_refusal(universe: Seq<JsonValue>, contexts: Seq<JsonValue>, n: int) -> Option<
    Seq<char>,
>
    decreases n,
{
    if n <= 0 || n > universe.len() {
        None
    } else {
        match perp_refusal(universe, contexts, n - 1) {
            Some(m) => Some(m),
            None => if !(universe[n - 1] is Object) {
                Some("Hyperliquid universe item is not an object"@)
            } else if universe_name(universe[n - 1]) is Some && n - 1 < contexts.len()
                && !(contexts[n - 1] is Object) {
                Some("Hyperliquid asset context is not an object"@)
            } else {
                None
            },
        }
    }
}

proof fn lemma_perp_refusal_stays(universe: Seq<JsonValue>, contexts: Seq<JsonValue>, m: int, n: int)
    requires
        0 <= m <= n <= universe.len(),
        perp_refusal(universe, contexts, m) is Some,
    ensures
        perp_refusal(universe, contexts, n) == perp_refusal(universe, contexts, m),
    decreases n - m,
{
    if m < n {
        lemma_perp_refusal_stays(universe, contexts, m, n - 1);
    }
}

/// The universe and the asset contexts of a `metaAndAssetCtxs` answer, taken
/// out of it.
pub fn take_universe_and_contexts(raw: JsonValue, exchange: ExchangeId, label: &str) -> (r: Result<
    (Vec<JsonValue>, Vec<JsonValue>),
>)
    ensures
        match universe_and_contexts_spec(raw, label@) {
            Ok((universe, contexts)) => r matches Ok((u, c)) && u@ == universe && c@ == contexts,
            Err(message) => r matches Err(e) && e.is_adapter(exchange, message),
        },
{
    let ghost original = raw;
    let mut items = match raw {
        JsonValue::Array(items) => items,
        _ => return Err(Error::Adapter { exchange, message: concat(label, " response is not an array") }),
    };
    let ghost all = items@;
    if items.len() == 0 {
        return Err(Error::Adapter { exchange, message: concat(label, " missing meta") });
    }
    let first = items.remove(0);
    let meta = match first {
        JsonValue::Object(e) => e,
        _ => return Err(Error::Adapter { exchange, message: concat(label, " missing meta") }),
    };
    let universe = match obj_take(meta, "universe") {
        Some(JsonValue::Array(u)) => u,
        _ => return Err(Error::Adapter { exchange, message: concat(label, " missing universe") }),
    };
    if items.len() == 0 {
        return Err(Error::Adapter { exchange, message: concat(label, " missing contexts") });
    }
    let second = items.remove(0);
    assert(second == all[1]);
    let contexts = match second {
        JsonValue::Array(c) => c,
        _ => return Err(Error::Adapter { exchange, message: concat(label, " missing contexts") }),
    };
    Ok((universe, contexts))
}

/// The perpetual tickers of a `metaAndAssetCtxs` answer: one for each named
/// universe item that has an asset context, in universe order.
pub fn hyperliquid_perp_tickers_from_value(raw: JsonValue) -> (r: Result<Vec<Ticker>>)
    ensures
        match universe_and_contexts_spec(raw, "Hyperliquid metaAndAssetCtxs"@) {
            Err(message) => r matches Err(e) && e.is_adapter(ExchangeId::Hyperliquid, message),
            Ok((universe, contexts)) => match perp_refusal(universe, contexts, universe.len() as int) {
                Some(message) => r matches Err(e) && e.is_adapter(ExchangeId::Hyperliquid, message),
                None => r matches Ok(out) && {
                    let sources = perp_sources(universe, contexts, universe.len() as int);
                    &&& out@.len() == sources.len()
                    &&& forall|i: int|
                        0 <= i < sources.len() ==> {
                            &&& is_coin_perp(#[trigger] out@[i].instrument, sources[i].0)
                            &&& ticker_from_context_of(
                                ExchangeId::Hyperliquid,
                                out@[i].instrument,
                                sources[i].0,
                                sources[i].1,
                                out@[i],
                            )
                        }
                },
            },
        },
{
    let exchange = ExchangeId::Hyperliquid;
    let (mut universe, mut contexts) = match take_universe_and_contexts(
        raw,
        exchange,
        "Hyperliquid metaAndAssetCtxs",
    ) {
        Ok(pair) => pair,
        Err(e) => return Err(e),
    };
    let ghost all_u = universe@;
    let ghost all_c = contexts@;
    let mut out: Vec<Ticker> = Vec::new();
    let mut i: usize = 0;
    let n0 = universe.len();
    assert(n0 == all_u.len());
    assert(all_u.skip(0) =~= all_u);
    assert(all_c.skip(0) =~= all_c);
    while universe.len() > 0
        invariant
            i + universe@.len() == all_u.len(),
            all_u.len() <= usize::MAX,
            universe_and_contexts_spec(raw, "Hyperliquid metaAndAssetCtxs"@) == Ok::<_, Seq<char>>(
                (all_u, all_c),
            ),
            universe@ == all_u.skip(i as int),
            i <= all_c.len() ==> contexts@ == all_c.skip(i as int),
            i > all_c.len() ==> contexts@.len() == 0,
            exchange == ExchangeId::Hyperliquid,
            perp_refusal(all_u, all_c, i as int) is None,
            out@.len() == perp_sources(all_u, all_c, i as int).len(),
            forall|k: int|
                0 <= k < out@.len() ==> {
                    let src = #[trigger] perp_sources(all_u, all_c, i as int)[k];
                    &&& is_coin_perp(out@[k].instrument, src.0)
                    &&& ticker_from_context_of(
                        ExchangeId::Hyperliquid,
                        out@[k].instrument,
                        src.0,
                        src.1,
                        out@[k],
                    )
                },
        decreases universe@.len(),
    {
        let ghost before = perp_sources(all_u, all_c, i as int);
        let ghost old_out = out@;
        let item = universe.remove(0);
        assert(item == all_u[i as int]);
        let ctx = if contexts.len() > 0 {
            let c = contexts.remove(0);
            assert(c == all_c[i as int]);
            Some(c)
        } else {
            None
        };
        let object = match item {
            JsonValue::Object(e) => e,
            _ => {
                proof {
                    assert(perp_refusal(all_u, all_c, i + 1) == Some(
                        "Hyperliquid universe item is not an object"@,
                    ));
                    lemma_perp_refusal_stays(all_u, all_c, i + 1, all_u.len() as int);
                }
                return Err(
                    Error::Adapter {
                        exchange,
                        message: owned("Hyperliquid universe item is not an object"),
                    },
                )
            },
        };
        match (string_field(&object, "name"), ctx) {
            (Some(coin), Some(ctx)) => {
                let ghost coin_view = coin@;
                let ghost ctx_view = ctx;
                let instrument = Instrument::perp(coin.as_str(), "USDC");
                match ticker_from_context(exchange, instrument, coin, ctx) {
                    Ok(t) => out.push(t),
                    Err(e) => {
                        proof {
                            assert(perp_refusal(all_u, all_c, i + 1) == Some(
                                "Hyperliquid asset context is not an object"@,
                            ));
                            lemma_perp_refusal_stays(all_u, all_c, i + 1, all_u.len() as int);
                        }
                        return Err(e);
                    },
                }
                assert(perp_sources(all_u, all_c, i + 1) == before.push((coin_view, ctx_view)));
                assert forall|k: int| 0 <= k < out@.len() implies {
                    let src = #[trigger] perp_sources(all_u, all_c, i + 1)[k];
                    &&& is_coin_perp(out@[k].instrument, src.0)
                    &&& ticker_from_context_of(
                        ExchangeId::Hyperliquid,
                        out@[k].instrument,
                        src.0,
                        src.1,
                        out@[k],
                    )
                } by {
                    if k < old_out.len() {
                        assert(perp_sources(all_u, all_c, i + 1)[k] == before[k]);
                        assert(out@[k] == old_out[k]);
                    }
                }
            },
            _ => {
                assert(perp_sources(all_u, all_c, i + 1) == before);
            },
        }
        i += 1;
        assert(universe@ =~= all_u.skip(i as int));
        assert(i <= all_c.len() ==> contexts@ =~= all_c.skip(i as int));
    }
    Ok(out)
}

/// `l` is the order-book level read from an item.
pub open spec fn hl_level_of(item: JsonValue, l: OrderBookLevel) -> bool {
    match item {
        JsonValue::Object(e) => {
            &&& l.price@ == or_empty(str_field(e@, "px"@))
            &&& l.size@ == or_empty(str_field(e@, "sz"@))
            &&& l.raw.model() == item.model()
        },
        _ => false,
    }
}

/// The items of one side of a book: an array's elements, nothing otherwise.
pub open spec fn side_items(value: Option<JsonValue>) -> Seq<JsonValue> {
    match value {
        Some(JsonValue::Array(v)) => v@,
        _ => Seq::empty(),
    }
}

/// Every item is an object.
pub open spec fn all_objects(items: Seq<JsonValue>) -> bool {
    forall|i: int| 0 <= i < items.len() ==> #[trigger] items[i] is Object
}

/// The levels of one side of a Hyperliquid book (`px`, `sz`); a side that is
/// not an array has none.
pub fn orderbook_levels(value: Option<&JsonValue>, exchange: ExchangeId) -> (r: Result<Vec<OrderBookLevel>>)
    ensures
        ({
            let items = side_items(match value { Some(v) => Some(*v), None => None });
            if all_objects(items) {
                r matches Ok(out) && out@.len() == items.len() && forall|i: int|
                    0 <= i < items.len() ==> hl_level_of(items[i], #[trigger] out@[i])
            } else {
                r matches Err(e) && e.is_adapter(exchange, "Hyperliquid orderbook level is not an object"@)
            }
        }),
{
    let values = match value {
        Some(JsonValue::Array(values)) => values,
        _ => return Ok(Vec::new()),
    };
    let ghost items = side_items(match value { Some(v) => Some(*v), None => None });
    assert(items == values@);
    let mut out: Vec<OrderBookLevel> = Vec::new();
    let mut i: usize = 0;
    while i < values.len()
        invariant
            i <= values.len(),
            items == values@,
            items == side_items(match value { Some(v) => Some(*v), None => None }),
            out@.len() == i,
            forall|k: int| 0 <= k < i ==> #[trigger] values@[k] is Object,
            forall|k: int| 0 <= k < i ==> hl_level_of(values@[k], #[trigger] out@[k]),
        decreases values.len() - i,
    {
        let e = match &values[i] {
            JsonValue::Object(e) => e,
            _ => return Err(
                Error::Adapter {
                    exchange,
                    message: owned("Hyperliquid orderbook level is not an object"),
                },
            ),
        };
        let price = match string_field(e, "px") {
            Some(p) => p,
            None => String::new(),
        };
        let size = match string_field(e, "sz") {
            Some(z) => z,
            None => String::new(),
        };
        out.push(OrderBookLevel { price, size, raw: values[i].copy() });
        i += 1;
    }
    Ok(out)
}

/// The bid and ask sides of an `l2Book` answer: its `levels` array.
pub open spec fn l2_levels(raw: JsonValue) -> Option<Seq<JsonValue>> {
    match raw {
        JsonValue::Object(e) => match obj_get(e@, "levels"@) {
            Some(JsonValue::Array(v)) => Some(v@),
            _ => None,
        },
        _ => None,
    }
}

/// Side `i` of a book's levels.
pub open spec fn level_side(levels: Seq<JsonValue>, i: int) -> Seq<JsonValue> {
    if 0 <= i < levels.len() {
        side_items(Some(levels[i]))
    } else {
        Seq::empty()
    }
}

/// At most `limit` elements of `s` (all of them without a limit).
pub open spec fn limited<T>(s: Seq<T>, limit: Option<u32>) -> Seq<T> {
    match limit {
        Some(l) => if (l as int) < s.len() {
            s.take(l as int)
        } else {
            s
        },
        None => s,
    }
}

/// Every level of a side is read from the matching item.
pub open spec fn levels_read(items: Seq<JsonValue>, levels: Seq<OrderBookLevel>) -> bool {
    &&& levels.len() == items.len()
    &&& forall|i: int| 0 <= i < items.len() ==> hl_level_of(items[i], #[trigger] levels[i])
}

fn keep_at_most(levels: &mut Vec<OrderBookLevel>, limit: Option<u32>)
    ensures
        final(levels)@ == limited(old(levels)@, limit),
{
    match limit {
        Some(l) => {
            let n = l as usize;
            levels.truncate(n);
        },
        None => {},
    }
}

/// The order book of an `l2Book` answer for `coin`: bids are the first side,
/// asks the second, each cut to `limit` levels.
pub fn hyperliquid_orderbook_from_value(
    raw: JsonValue,
    instrument: Instrument,
    coin: String,
    limit: Option<u32>,
) -> (r: Result<OrderBook>)
    ensures
        !(raw is Object) ==> (r matches Err(e) && e.is_adapter(
            ExchangeId::Hyperliquid,
            "Hyperliquid l2Book response is not an object"@,
        )),
        raw is Object && l2_levels(raw) is None ==> (r matches Err(e) && e.is_adapter(
            ExchangeId::Hyperliquid,
            "Hyperliquid l2Book response missing levels"@,
        )),
        l2_levels(raw) matches Some(levels) ==> {
            let bids = level_side(levels, 0);
            let asks = level_side(levels, 1);
            if all_objects(bids) && all_objects(asks) {
                r matches Ok(book) && {
                    &&& book.exchange == ExchangeId::Hyperliquid
                    &&& book.instrument == instrument
                    &&& book.exchange_symbol@ == coin@
                    &&& levels_read(limited(bids, limit), book.bids@)
                    &&& levels_read(limited(asks, limit), book.asks@)
                    &&& book.timestamp == u64_field_spec(raw->Object_0@, "time"@)
                    &&& book.raw == raw
                }
            } else {
                r matches Err(e) && e.is_adapter(
                    ExchangeId::Hyperliquid,
                    "Hyperliquid orderbook level is not an object"@,
                )
            }
        },
{
    let exchange = ExchangeId::Hyperliquid;
    let e = match &raw {
        JsonValue::Object(e) => e,
        _ => return Err(
            Error::Adapter { exchange, message: owned("Hyperliquid l2Book response is not an object") },
        ),
    };
    let levels = match obj_lookup(e, "levels") {
        Some(JsonValue::Array(levels)) => levels,
        _ => return Err(
            Error::Adapter { exchange, message: owned("Hyperliquid l2Book response missing levels") },
        ),
    };
    let first = if levels.len() > 0 {
        Some(&levels[0])
    } else {
        None
    };
    let second = if levels.len() > 1 {
        Some(&levels[1])
    } else {
        None
    };
    let mut bids = match orderbook_levels(first, exchange) {
        Ok(v) => v,
        Err(err) => return Err(err),
    };
    let mut asks = match orderbook_levels(second, exchange) {
        Ok(v) => v,
        Err(err) => return Err(err),
    };
    let ghost all_bids = bids@;
    let ghost all_asks = asks@;
    keep_at_most(&mut bids, limit);
    keep_at_most(&mut asks, limit);
    proof {
        let b = level_side(levels@, 0);
        let a = level_side(levels@, 1);
        assert forall|i: int| 0 <= i < limited(b, limit).len() implies hl_level_of(
            limited(b, limit)[i],
            #[trigger] bids@[i],
        ) by {
            assert(limited(b, limit)[i] == b[i]);
            assert(bids@[i] == all_bids[i]);
        }
        assert forall|i: int| 0 <= i < limited(a, limit).len() implies hl_level_of(
            limited(a, limit)[i],
            #[trigger] asks@[i],
        ) by {
            assert(limited(a, limit)[i] == a[i]);
            assert(asks@[i] == all_asks[i]);
        }
    }
    let timestamp = u64_field(e, "time");
    Ok(
        OrderBook {
            exchange,
            instrument,
            exchange_symbol: coin,
            bids,
            asks,
            timestamp,
            raw,
        },
    )
}

/// `o` is the candle read from an item (see `hyperliquid_candle_from_value`).
pub open spec fn hyperliquid_candle_from_value_of(
    exchange: ExchangeId,
    instrument: Instrument,
    raw: JsonValue,
    o: Candle,
) -> bool {
    match raw {
        JsonValue::Object(e) => {
            &&& o.exchange == exchange
            &&& o.instrument == instrument
            &&& o.exchange_symbol@ == or_empty(str_field(e@, "s"@))
            &&& o.open_time == u64_field_spec(e@, "t"@)
            &&& o.close_time == u64_field_spec(e@, "T"@)
            &&& o.open@ == or_empty(str_field(e@, "o"@))
            &&& o.high@ == or_empty(str_field(e@, "h"@))
            &&& o.low@ == or_empty(str_field(e@, "l"@))
            &&& o.close@ == or_empty(str_field(e@, "c"@))
            &&& o.volume@ == or_empty(str_field(e@, "v"@))
            &&& o.quote_volume is None
            &&& o.closed is None
            &&& o.raw.model() == raw.model()
        },
        _ => false,
    }
}

/// One candle of a Hyperliquid `candleSnapshot` answer.
pub fn hyperliquid_candle_from_value(
    exchange: ExchangeId,
    instrument: Instrument,
    raw: &JsonValue,
) -> (r: Result<Candle>)
    ensures
        *raw is Object ==> (r matches Ok(o) && hyperliquid_candle_from_value_of(exchange, instrument, *raw, o)),
        !(*raw is Object) ==> (r matches Err(err) && err.is_adapter(exchange, "Hyperliquid candle item is not an object"@)),
{
    let e = match raw {
        JsonValue::Object(e) => e,
        _ => return Err(Error::Adapter { exchange: exchange, message: owned("Hyperliquid candle item is not an object") }),
    };
    let exchange = exchange;
    let instrument = instrument;
    let exchange_symbol = match string_field(e, "s") { Some(s) => s, None => String::new() };
    let open_time = u64_field(e, "t");
    let close_time = u64_field(e, "T");
    let open = match string_field(e, "o") { Some(s) => s, None => String::new() };
    let high = match string_field(e, "h") { Some(s) => s, None => String::new() };
    let low = match string_field(e, "l") { Some(s) => s, None => String::new() };
    let close = match string_field(e, "c") { Some(s) => s, None => String::new() };
    let volume = match string_field(e, "v") { Some(s) => s, None => String::new() };
    let quote_volume = None;
    let closed = None;
    Ok(Candle { exchange, instrument, exchange_symbol, open_time, close_time, open, high, low, close, volume, quote_volume, closed, raw: raw.copy() })
}

/// The window a `candleSnapshot` request needs: both ends of the query.
pub fn hyperliquid_candle_window(query: &CandleQuery) -> (r: Result<(u64, u64)>)
    ensures
        query.start_time is None ==> (r matches Err(e) && e.is_adapter(
            ExchangeId::Hyperliquid,
            "Hyperliquid candleSnapshot requires start_time"@,
        )),
        query.start_time is Some && query.end_time is None ==> (r matches Err(e) && e.is_adapter(
            ExchangeId::Hyperliquid,
            "Hyperliquid candleSnapshot requires end_time"@,
        )),
        (query.start_time is Some && query.end_time is Some) ==> r == Ok::<(u64, u64), Error>(
            (query.start_time->0, query.end_time->0),
        ),
{
    let start = match query.start_time {
        Some(s) => s,
        None => return Err(
            Error::Adapter {
                exchange: ExchangeId::Hyperliquid,
                message: owned("Hyperliquid candleSnapshot requires start_time"),
            },
        ),
    };
    let end = match query.end_time {
        Some(t) => t,
        None => return Err(
            Error::Adapter {
                exchange: ExchangeId::Hyperliquid,
                message: owned("Hyperliquid candleSnapshot requires end_time"),
            },
        ),
    };
    Ok((start, end))
}

/// The candles of a `candleSnapshot` answer: its first `limit` items.
pub fn hyperliquid_candles_from_value(
    raw: &JsonValue,
    instrument: &Instrument,
    limit: Option<u32>,
) -> (r: Result<Vec<Candle>>)
    ensures
        !(*raw is Array) ==> (r matches Err(e) && e.is_adapter(
            ExchangeId::Hyperliquid,
            "Hyperliquid candleSnapshot response is not an array"@,
        )),
        *raw matches JsonValue::Array(items) ==> {
            let wanted = limited(items@, limit);
            if all_objects(wanted) {
                r matches Ok(out) && out@.len() == wanted.len() && forall|i: int|
                    0 <= i < wanted.len() ==> {
                        &&& (#[trigger] out@[i]).instrument.same_as(*instrument)
                        &&& hyperliquid_candle_from_value_of(
                            ExchangeId::Hyperliquid,
                            out@[i].instrument,
                            wanted[i],
                            out@[i],
                        )
                    }
            } else {
                r matches Err(e) && e.is_adapter(
                    ExchangeId::Hyperliquid,
                    "Hyperliquid candle item is not an object"@,
                )
            }
        },
{
    let items = match raw {
        JsonValue::Array(items) => items,
        _ => return Err(
            Error::Adapter {
                exchange: ExchangeId::Hyperliquid,
                message: owned("Hyperliquid candleSnapshot response is not an array"),
            },
        ),
    };
    let n = match limit {
        Some(l) => if (l as usize) < items.len() {
            l as usize
        } else {
            items.len()
        },
        None => items.len(),
    };
    let ghost wanted = limited(items@, limit);
    assert(wanted.len() == n);
    let mut out: Vec<Candle> = Vec::new();
    let mut i: usize = 0;
    while i < n
        invariant
            i <= n,
            n == wanted.len(),
            n <= items@.len(),
            *raw is Array && raw->Array_0@ == items@,
            wanted == limited(items@, limit),
            forall|k: int| 0 <= k < n ==> wanted[k] == items@[k],
            out@.len() == i,
            forall|k: int| 0 <= k < i ==> #[trigger] wanted[k] is Object,
            forall|k: int|
                0 <= k < i ==> {
                    &&& (#[trigger] out@[k]).instrument.same_as(*instrument)
                    &&& hyperliquid_candle_from_value_of(
                        ExchangeId::Hyperliquid,
                        out@[k].instrument,
                        wanted[k],
                        out@[k],
                    )
                },
        decreases n - i,
    {
        let c = match hyperliquid_candle_from_value(
            ExchangeId::Hyperliquid,
            instrument.duplicate(),
            &items[i],
        ) {
            Ok(c) => c,
            Err(e) => {
                assert(!(wanted[i as int] is Object));
                assert(!all_objects(wanted));
                return Err(e);
            },
        };
        out.push(c);
        i += 1;
    }
    Ok(out)
}

/// What the venues of a predicted-funding item from index `k` on give: the
/// `HlPerp` venue's rate and next time, the reason it cannot be read, or
/// nothing when no venue is `HlPerp`.
pub open spec fn hl_perp_venue(venues: Seq<JsonValue>, k: int) -> Option<
    std::result::Result<(Option<Seq<char>>, Option<u64>), Seq<char>>,
>
    decreases venues.len() - k,
{
    if k < 0 || k >= venues.len() {
        None
    } else {
        match venues[k] {
            JsonValue::Array(v) => if text_at(v@, 0) == Some("HlPerp"@) {
                if v@.len() > 1 && v@[1] is Object {
                    Some(Ok((str_field(v@[1]->Object_0@, "fundingRate"@), u64_field_spec(
                        v@[1]->Object_0@,
                        "nextFundingTime"@,
                    ))))
                } else {
                    Some(Err("Hyperliquid predictedFundings venue data is not an object"@))
                }
            } else {
                hl_perp_venue(venues, k + 1)
            },
            _ => Some(Err("Hyperliquid predictedFundings venue is not an array"@)),
        }
    }
}

/// What the predicted-funding items from index `k` on give for `coin`.
pub open spec fn predicted_funding_spec(items: Seq<JsonValue>, coin: Seq<char>, k: int) -> std::result::Result<
    (Option<Seq<char>>, Option<u64>),
    Seq<char>,
>
    decreases items.len() - k,
{
    if k < 0 || k >= items.len() {
        Ok((None, None))
    } else {
        match items[k] {
            JsonValue::Array(v) => if text_at(v@, 0) != Some(coin) {
                predicted_funding_spec(items, coin, k + 1)
            } else if v@.len() > 1 && v@[1] is Array {
                match hl_perp_venue(v@[1]->Array_0@, 0) {
                    Some(found) => found,
                    None => predicted_funding_spec(items, coin, k + 1),
                }
            } else {
                Err("Hyperliquid predictedFundings missing venues for "@ + coin)
            },
            _ => Err("Hyperliquid predictedFundings item is not an array"@),
        }
    }
}

fn venue_funding(venues: &Vec<JsonValue>, exchange: ExchangeId) -> (r: Option<
    Result<(Option<String>, Option<u64>)>,
>)
    ensures
        match hl_perp_venue(venues@, 0) {
            None => r is None,
            Some(Ok((rate, time))) => r matches Some(Ok((a, b))) && opt_view(a) == rate && b == time,
            Some(Err(message)) => r matches Some(Err(e)) && e.is_adapter(exchange, message),
        },
{
    let mut k: usize = 0;
    while k < venues.len()
        invariant
            k <= venues.len(),
            hl_perp_venue(venues@, 0) == hl_perp_venue(venues@, k as int),
        decreases venues.len() - k,
    {
        let v = match &venues[k] {
            JsonValue::Array(v) => v,
            _ => return Some(
                Err(
                    Error::Adapter {
                        exchange,
                        message: owned("Hyperliquid predictedFundings venue is not an array"),
                    },
                ),
            ),
        };
        let name = value_string_at(v, 0);
        let is_perp = match &name {
            Some(n) => text_eq(n.as_str(), "HlPerp"),
            None => false,
        };
        if is_perp {
            if v.len() > 1 {
                if let JsonValue::Object(o) = &v[1] {
                    return Some(Ok((string_field(o, "fundingRate"), u64_field(o, "nextFundingTime"))));
                }
            }
            return Some(
                Err(
                    Error::Adapter {
                        exchange,
                        message: owned("Hyperliquid predictedFundings venue data is not an object"),
                    },
                ),
            );
        }
        k += 1;
    }
    None
}

/// The predicted rate and next funding time of `coin` on Hyperliquid's own
/// venue (`HlPerp`) in a `predictedFundings` answer; none when it is absent.
pub fn predicted_funding_for_coin(raw: &JsonValue, exchange: ExchangeId, coin: &str) -> (r: Result<
    (Option<String>, Option<u64>),
>)
    ensures
        !(*raw is Array) ==> (r matches Err(e) && e.is_adapter(
            exchange,
            "Hyperliquid predictedFundings response is not an array"@,
        )),
        *raw matches JsonValue::Array(items) ==> match predicted_funding_spec(items@, coin@, 0) {
            Ok((rate, time)) => r matches Ok((a, b)) && opt_view(a) == rate && b == time,
            Err(message) => r matches Err(e) && e.is_adapter(exchange, message),
        },
{
    let items = match raw {
        JsonValue::Array(items) => items,
        _ => return Err(
            Error::Adapter {
                exchange,
                message: owned("Hyperliquid predictedFundings response is not an array"),
            },
        ),
    };
    let mut i: usize = 0;
    while i < items.len()
        invariant
            i <= items.len(),
            *raw is Array && raw->Array_0@ == items@,
            predicted_funding_spec(items@, coin@, 0) == predicted_funding_spec(items@, coin@, i as int),
        decreases items.len() - i,
    {
        let v = match &items[i] {
            JsonValue::Array(v) => v,
            _ => return Err(
                Error::Adapter {
                    exchange,
                    message: owned("Hyperliquid predictedFundings item is not an array"),
                },
            ),
        };
        let name = value_string_at(v, 0);
        let wanted = match &name {
            Some(n) => text_eq(n.as_str(), coin),
            None => false,
        };
        if wanted {
            let venues = if v.len() > 1 {
                match &v[1] {
                    JsonValue::Array(venues) => Some(venues),
                    _ => None,
                }
            } else {
                None
            };
            let venues = match venues {
                Some(venues) => venues,
                None => return Err(
                    Error::Adapter {
                        exchange,
                        message: concat("Hyperliquid predictedFundings missing venues for ", coin),
                    },
                ),
            };
            match venue_funding(venues, exchange) {
                Some(found) => return found,
                None => {},
            }
        }
        i += 1;
    }
    Ok((None, None))
}

/// `f` is the funding rate read from an asset context and a prediction.
pub open spec fn hl_funding_rate_of(
    instrument: Instrument,
    coin: Seq<char>,
    ctx: JsonValue,
    next_rate: Option<Seq<char>>,
    next_time: Option<u64>,
    f: FundingRate,
) -> bool {
    match ctx {
        JsonValue::Object(e) => {
            &&& f.exchange == ExchangeId::Hyperliquid
            &&& f.instrument == instrument
            &&& f.exchange_symbol@ == coin
            &&& f.funding_rate@ == or_empty(str_field(e@, "funding"@))
            &&& f.funding_time is None
            &&& opt_view(f.next_funding_rate) == next_rate
            &&& f.next_funding_time == next_time
            &&& opt_view(f.mark_price) == str_field(e@, "markPx"@)
            &&& f.raw == ctx
        },
        _ => false,
    }
}

/// The funding rate of `coin` from its asset context and its predicted
/// funding on Hyperliquid's venue.
pub fn hyperliquid_funding_rate_from_context(
    instrument: Instrument,
    coin: String,
    ctx: JsonValue,
    predicted: (Option<String>, Option<u64>),
) -> (r: Result<FundingRate>)
    ensures
        ctx is Object ==> (r matches Ok(f) && hl_funding_rate_of(
            instrument,
            coin@,
            ctx,
            opt_view(predicted.0),
            predicted.1,
            f,
        )),
        !(ctx is Object) ==> (r matches Err(e) && e.is_adapter(
            ExchangeId::Hyperliquid,
            "Hyperliquid asset context is not an object"@,
        )),
{
    let e = match &ctx {
        JsonValue::Object(e) => e,
        _ => return Err(
            Error::Adapter {
                exchange: ExchangeId::Hyperliquid,
                message: owned("Hyperliquid asset context is not an object"),
            },
        ),
    };
    let funding_rate = match string_field(e, "funding") {
        Some(v) => v,
        None => String::new(),
    };
    let mark_price = string_field(e, "markPx");
    let (next_funding_rate, next_funding_time) = predicted;
    Ok(
        FundingRate {
            exchange: ExchangeId::Hyperliquid,
            instrument,
            exchange_symbol: coin,
            funding_rate,
            funding_time: None,
            next_funding_rate,
            next_funding_time,
            mark_price,
            raw: ctx,
        },
    )
}

/// `m` is the mark price read from an asset context.
pub open spec fn hl_mark_price_of(instrument: Instrument, coin: Seq<char>, ctx: JsonValue, m: MarkPrice) -> bool {
    match ctx {
        JsonValue::Object(e) => {
            &&& m.exchange == ExchangeId::Hyperliquid
            &&& m.instrument == instrument
            &&& m.exchange_symbol@ == coin
            &&& m.mark_price@ == or_empty(str_field(e@, "markPx"@))
            &&& opt_view(m.index_price) == str_field(e@, "oraclePx"@)
            &&& opt_view(m.funding_rate) == str_field(e@, "funding"@)
            &&& m.next_funding_time is None
            &&& m.timestamp is None
            &&& m.raw == ctx
        },
        _ => false,
    }
}

/// The mark price of `coin` from its asset context (the oracle price is the
/// index price).
pub fn hyperliquid_mark_price_from_context(instrument: Instrument, coin: String, ctx: JsonValue) -> (r:
    Result<MarkPrice>)
    ensures
        ctx is Object ==> (r matches Ok(m) && hl_mark_price_of(instrument, coin@, ctx, m)),
        !(ctx is Object) ==> (r matches Err(e) && e.is_adapter(
            ExchangeId::Hyperliquid,
            "Hyperliquid asset context is not an object"@,
        )),
{
    let e = match &ctx {
        JsonValue::Object(e) => e,
        _ => return Err(
            Error::Adapter {
                exchange: ExchangeId::Hyperliquid,
                message: owned("Hyperliquid asset context is not an object"),
            },
        ),
    };
    let mark_price = match string_field(e, "markPx") {
        Some(v) => v,
        None => String::new(),
    };
    let index_price = string_field(e, "oraclePx");
    let funding_rate = string_field(e, "funding");
    Ok(
        MarkPrice {
            exchange: ExchangeId::Hyperliquid,
            instrument,
            exchange_symbol: coin,
            mark_price,
            index_price,
            funding_rate,
            next_funding_time: None,
            timestamp: None,
            raw: ctx,
        },
    )
}

/// `o` is the open interest read from an asset context.
pub open spec fn hl_open_interest_of(
    instrument: Instrument,
    coin: Seq<char>,
    ctx: JsonValue,
    o: OpenInterest,
) -> bool {
    match ctx {
        JsonValue::Object(e) => {
            &&& o.exchange == ExchangeId::Hyperliquid
            &&& o.instrument == instrument
            &&& o.exchange_symbol@ == coin
            &&& o.open_interest@ == or_empty(str_field(e@, "openInterest"@))
            &&& o.open_interest_value is None
            &&& o.timestamp is None
            &&& o.raw == ctx
        },
        _ => false,
    }
}

/// The open interest of `coin` from its asset context.
pub fn hyperliquid_open_interest_from_context(instrument: Instrument, coin: String, ctx: JsonValue) -> (r:
    Result<OpenInterest>)
    ensures
        ctx is Object ==> (r matches Ok(o) && hl_open_interest_of(instrument, coin@, ctx, o)),
        !(ctx is Object) ==> (r matches Err(e) && e.is_adapter(
            ExchangeId::Hyperliquid,
            "Hyperliquid asset context is not an object"@,
        )),
{
    let e = match &ctx {
        JsonValue::Object(e) => e,
        _ => return Err(
            Error::Adapter {
                exchange: ExchangeId::Hyperliquid,
                message: owned("Hyperliquid asset context is not an object"),
            },
        ),
    };
    let open_interest = match string_field(e, "openInterest") {
        Some(v) => v,
        None => String::new(),
    };
    Ok(
        OpenInterest {
            exchange: ExchangeId::Hyperliquid,
            instrument,
            exchange_symbol: coin,
            open_interest,
            open_interest_value: None,
            timestamp: None,
            raw: ctx,
        },
    )
}

/// The start a `fundingHistory` request needs.
pub fn hyperliquid_funding_start(query: &FundingRateQuery) -> (r: Result<u64>)
    ensures
        query.start_time matches Some(s) ==> r == Ok::<u64, Error>(s),
        query.start_time is None ==> (r matches Err(e) && e.is_adapter(
            ExchangeId::Hyperliquid,
            "Hyperliquid fundingHistory requires start_time"@,
        )),
{
    match query.start_time {
        Some(s) => Ok(s),
        None => Err(
            Error::Adapter {
                exchange: ExchangeId::Hyperliquid,
                message: owned("Hyperliquid fundingHistory requires start_time"),
            },
        ),
    }
}

/// `f` is the funding rate of a `fundingHistory` item (the coin of the
/// query when the item names none).
pub open spec fn hl_funding_history_item_of(
    instrument: Instrument,
    coin: Seq<char>,
    item: JsonValue,
    f: FundingRate,
) -> bool {
    match item {
        JsonValue::Object(e) => {
            &&& f.exchange == ExchangeId::Hyperliquid
            &&& f.instrument.same_as(instrument)
            &&& f.exchange_symbol@ == (match str_field(e@, "coin"@) {
                Some(c) => c,
                None => coin,
            })
            &&& f.funding_rate@ == or_empty(str_field(e@, "fundingRate"@))
            &&& f.funding_time == u64_field_spec(e@, "time"@)
            &&& f.next_funding_rate is None
            &&& f.next_funding_time is None
            &&& f.mark_price is None
            &&& f.raw.model() == item.model()
        },
        _ => false,
    }
}

/// The funding rates of a `fundingHistory` answer: its first `limit` items.
pub fn hyperliquid_funding_history_from_value(
    raw: &JsonValue,
    instrument: &Instrument,
    coin: &str,
    limit: Option<u32>,
) -> (r: Result<Vec<FundingRate>>)
    ensures
        !(*raw is Array) ==> (r matches Err(e) && e.is_adapter(
            ExchangeId::Hyperliquid,
            "Hyperliquid fundingHistory response is not an array"@,
        )),
        *raw matches JsonValue::Array(items) ==> {
            let wanted = limited(items@, limit);
            if all_objects(wanted) {
                r matches Ok(out) && out@.len() == wanted.len() && forall|i: int|
                    0 <= i < wanted.len() ==> hl_funding_history_item_of(
                        *instrument,
                        coin@,
                        wanted[i],
                        #[trigger] out@[i],
                    )
            } else {
                r matches Err(e) && e.is_adapter(
                    ExchangeId::Hyperliquid,
                    "Hyperliquid fundingHistory item is not an object"@,
                )
            }
        },
{
    let items = match raw {
        JsonValue::Array(items) => items,
        _ => return Err(
            Error::Adapter {
                exchange: ExchangeId::Hyperliquid,
                message: owned("Hyperliquid fundingHistory response is not an array"),
            },
        ),
    };
    let n = match limit {
        Some(l) => if (l as usize) < items.len() {
            l as usize
        } else {
            items.len()
        },
        None => items.len(),
    };
    let ghost wanted = limited(items@, limit);
    let mut out: Vec<FundingRate> = Vec::new();
    let mut i: usize = 0;
    while i < n
        invariant
            i <= n,
            n == wanted.len(),
            n <= items@.len(),
            *raw is Array && raw->Array_0@ == items@,
            wanted == limited(items@, limit),
            forall|k: int| 0 <= k < n ==> wanted[k] == items@[k],
            out@.len() == i,
            forall|k: int| 0 <= k < i ==> #[trigger] wanted[k] is Object,
            forall|k: int|
                0 <= k < i ==> hl_funding_history_item_of(
                    *instrument,
                    coin@,
                    wanted[k],
                    #[trigger] out@[k],
                ),
        decreases n - i,
    {
        let e = match &items[i] {
            JsonValue::Object(e) => e,
            _ => {
                assert(!(wanted[i as int] is Object));
                assert(!all_objects(wanted));
                return Err(
                    Error::Adapter {
                        exchange: ExchangeId::Hyperliquid,
                        message: owned("Hyperliquid fundingHistory item is not an object"),
                    },
                );
            },
        };
        let exchange_symbol = match string_field(e, "coin") {
            Some(c) => c,
            None => owned(coin),
        };
        let funding_rate = match string_field(e, "fundingRate") {
            Some(v) => v,
            None => String::new(),
        };
        out.push(
            FundingRate {
                exchange: ExchangeId::Hyperliquid,
                instrument: instrument.duplicate(),
                exchange_symbol,
                funding_rate,
                funding_time: u64_field(e, "time"),
                next_funding_rate: None,
                next_funding_time: None,
                mark_price: None,
                raw: items[i].copy(),
            },
        );
        i += 1;
    }
    Ok(out)
}

/// The coins, asset contexts and universe items of the first `n` spot
/// universe items that make a ticker: those with an exchange symbol and a
/// context.
pub open spec fn spot_sources(universe: Seq<JsonValue>, contexts: Seq<JsonValue>, n: int) -> Seq<
    (Seq<char>, JsonValue, JsonValue),
>
    decreases n,
{
    if n <= 0 || n > universe.len() {
        Seq::empty()
    } else {
        let prev = spot_sources(universe, contexts, n - 1);
        match spot_symbol(universe[n - 1]) {
            Some(symbol) => if n - 1 < contexts.len() {
                prev.push((symbol, contexts[n - 1], universe[n - 1]))
            } else {
                prev
            },
            None => prev,
        }
    }
}

/// Why the first `n` spot universe items make no tickers, if they do not.
pub open spec fn spot_refusal(universe: Seq<JsonValue>, contexts: Seq<JsonValue>, n: int) -> Option<
    Seq<char>,
>
    decreases n,
{
    if n <= 0 || n > universe.len() {
        None
    } else {
        match spot_refusal(universe, contexts, n - 1) {
            Some(m) => Some(m),
            None => if spot_symbol(universe[n - 1]) is Some && n - 1 < contexts.len() && !(
            contexts[n - 1] is Object) {
                Some("Hyperliquid asset context is not an object"@)
            } else {
                None
            },
        }
    }
}

proof fn lemma_spot_refusal_stays(universe: Seq<JsonValue>, contexts: Seq<JsonValue>, m: int, n: int)
    requires
        0 <= m <= n <= universe.len(),
        spot_refusal(universe, contexts, m) is Some,
    ensures
        spot_refusal(universe, contexts, n) == spot_refusal(universe, contexts, m),
    decreases n - m,
{
    if m < n {
        lemma_spot_refusal_stays(universe, contexts, m, n - 1);
    }
}

/// The instrument of a spot ticker: the pair of the item's tokens, else the
/// pair written in its symbol.
pub open spec fn spot_ticker_instrument(tokens: Seq<JsonValue>, item: JsonValue, symbol: Seq<char>, instrument: Instrument) -> bool {
    match universe_pair(tokens, item) {
        Some(pair) => is_spot_pair(instrument, pair),
        None => is_spot_pair(instrument, spot_symbol_parts(symbol)),
    }
}

/// What stands in a `spotMetaAndAssetCtxs` answer for its tickers: the
/// tokens, the universe and the contexts, or the reason they cannot be read.
pub open spec fn spot_answer_spec(raw: JsonValue) -> std::result::Result<
    (Seq<JsonValue>, Seq<JsonValue>, Seq<JsonValue>),
    Seq<char>,
> {
    match answer_meta(raw) {
        None => Err("Hyperliquid spotMetaAndAssetCtxs missing meta"@),
        Some(meta) => match array_member_of(meta, "tokens"@) {
            None => Err("Hyperliquid spotMetaAndAssetCtxs missing tokens"@),
            Some(tokens) => match array_member_of(meta, "universe"@) {
                None => Err("Hyperliquid spotMetaAndAssetCtxs missing universe"@),
                Some(universe) => match answer_contexts(raw) {
                    None => Err("Hyperliquid spotMetaAndAssetCtxs missing contexts"@),
                    Some(contexts) => Ok((tokens, universe, contexts)),
                },
            },
        },
    }
}

/// The spot tickers of a `spotMetaAndAssetCtxs` answer: one for each
/// universe item with an exchange symbol and an asset context, in universe
/// order.
pub fn hyperliquid_spot_tickers_from_value(raw: JsonValue) -> (r: Result<Vec<Ticker>>)
    ensures
        match spot_answer_spec(raw) {
            Err(message) => r matches Err(e) && e.is_adapter(ExchangeId::Hyperliquid, message),
            Ok((tokens, universe, contexts)) => match spot_refusal(universe, contexts, universe.len() as int) {
                Some(message) => r matches Err(e) && e.is_adapter(ExchangeId::Hyperliquid, message),
                None => r matches Ok(out) && {
                    let sources = spot_sources(universe, contexts, universe.len() as int);
                    &&& out@.len() == sources.len()
                    &&& forall|i: int|
                        0 <= i < sources.len() ==> {
                            &&& spot_ticker_instrument(
                                tokens,
                                sources[i].2,
                                sources[i].0,
                                (#[trigger] out@[i]).instrument,
                            )
                            &&& ticker_from_context_of(
                                ExchangeId::Hyperliquid,
                                out@[i].instrument,
                                sources[i].0,
                                sources[i].1,
                                out@[i],
                            )
                        }
                },
            },
        },
{
    let exchange = ExchangeId::Hyperliquid;
    let mut items = match raw {
        JsonValue::Array(items) => items,
        _ => return Err(
            Error::Adapter { exchange, message: owned("Hyperliquid spotMetaAndAssetCtxs missing meta") },
        ),
    };
    let ghost all_items = items@;
    if items.len() == 0 {
        return Err(
            Error::Adapter { exchange, message: owned("Hyperliquid spotMetaAndAssetCtxs missing meta") },
        );
    }
    let first = items.remove(0);
    let meta = match first {
        JsonValue::Object(e) => e,
        _ => return Err(
            Error::Adapter { exchange, message: owned("Hyperliquid spotMetaAndAssetCtxs missing meta") },
        ),
    };
    let tokens = match obj_lookup(&meta, "tokens") {
        Some(JsonValue::Array(t)) => t,
        _ => return Err(
            Error::Adapter { exchange, message: owned("Hyperliquid spotMetaAndAssetCtxs missing tokens") },
        ),
    };
    let universe = match obj_lookup(&meta, "universe") {
        Some(JsonValue::Array(u)) => u,
        _ => return Err(
            Error::Adapter {
                exchange,
                message: owned("Hyperliquid spotMetaAndAssetCtxs missing universe"),
            },
        ),
    };
    if items.len() == 0 {
        return Err(
            Error::Adapter {
                exchange,
                message: owned("Hyperliquid spotMetaAndAssetCtxs missing contexts"),
            },
        );
    }
    let second = items.remove(0);
    assert(second == all_items[1]);
    let mut contexts = match second {
        JsonValue::Array(c) => c,
        _ => return Err(
            Error::Adapter {
                exchange,
                message: owned("Hyperliquid spotMetaAndAssetCtxs missing contexts"),
            },
        ),
    };
    let ghost all_c = contexts@;
    let ghost all_u = universe@;
    let mut out: Vec<Ticker> = Vec::new();
    let mut i: usize = 0;
    assert(all_c.skip(0) =~= all_c);
    while i < universe.len()
        invariant
            i <= universe.len(),
            universe@ == all_u,
            spot_answer_spec(raw) == Ok::<_, Seq<char>>((tokens@, all_u, all_c)),
            i <= all_c.len() ==> contexts@ == all_c.skip(i as int),
            i > all_c.len() ==> contexts@.len() == 0,
            exchange == ExchangeId::Hyperliquid,
            spot_refusal(all_u, all_c, i as int) is None,
            out@.len() == spot_sources(all_u, all_c, i as int).len(),
            forall|k: int|
                0 <= k < out@.len() ==> {
                    let src = #[trigger] spot_sources(all_u, all_c, i as int)[k];
                    &&& spot_ticker_instrument(tokens@, src.2, src.0, out@[k].instrument)
                    &&& ticker_from_context_of(
                        ExchangeId::Hyperliquid,
                        out@[k].instrument,
                        src.0,
                        src.1,
                        out@[k],
                    )
                },
        decreases universe.len() - i,
    {
        let ghost before = spot_sources(all_u, all_c, i as int);
        let ghost old_out = out@;
        let ctx = if contexts.len() > 0 {
            let c = contexts.remove(0);
            assert(c == all_c[i as int]);
            Some(c)
        } else {
            None
        };
        match (spot_exchange_symbol_from_universe_item(&universe[i]), ctx) {
            (Some(symbol), Some(ctx)) => {
                let ghost symbol_view = symbol@;
                let ghost ctx_view = ctx;
                let instrument = match spot_instrument_from_universe_item(tokens, &universe[i]) {
                    Some(found) => found,
                    None => spot_instrument_from_symbol(symbol.as_str()),
                };
                match ticker_from_context(exchange, instrument, symbol, ctx) {
                    Ok(t) => out.push(t),
                    Err(e) => {
                        proof {
                            assert(spot_refusal(all_u, all_c, i + 1) == Some(
                                "Hyperliquid asset context is not an object"@,
                            ));
                            lemma_spot_refusal_stays(all_u, all_c, i + 1, all_u.len() as int);
                        }
                        return Err(e);
                    },
                }
                assert(spot_sources(all_u, all_c, i + 1) == before.push(
                    (symbol_view, ctx_view, all_u[i as int]),
                ));
                assert forall|k: int| 0 <= k < out@.len() implies {
                    let src = #[trigger] spot_sources(all_u, all_c, i + 1)[k];
                    &&& spot_ticker_instrument(tokens@, src.2, src.0, out@[k].instrument)
                    &&& ticker_from_context_of(
                        ExchangeId::Hyperliquid,
                        out@[k].instrument,
                        src.0,
                        src.1,
                        out@[k],
                    )
                } by {
                    if k < old_out.len() {
                        assert(spot_sources(all_u, all_c, i + 1)[k] == before[k]);
                        assert(out@[k] == old_out[k]);
                    }
                }
            },
            _ => {
                assert(spot_sources(all_u, all_c, i + 1) == before);
            },
        }
        i += 1;
        assert(i <= all_c.len() ==> contexts@ =~= all_c.skip(i as int));
    }
    Ok(out)
}

/// `o` is the balance read from an item (see `hyperliquid_spot_balance_from_value`).
pub open spec fn hyperliquid_spot_balance_from_value_of(
    exchange: ExchangeId,
    raw: JsonValue,
    o: Balance,
) -> bool {
    match raw {
        JsonValue::Object(e) => {
            &&& o.exchange == exchange
            &&& o.asset@ == or_empty(str_field(e@, "coin"@))
            &&& o.total@ == or_empty(str_field(e@, "total"@))
            &&& o.available@ == or_empty(str_field(e@, "total"@))
            &&& opt_view(o.frozen) == str_field(e@, "hold"@)
            &&& o.raw.model() == raw.model()
        },
        _ => false,
    }
}

/// One balance of a `spotClearinghouseState` answer (all of it available).
pub fn hyperliquid_spot_balance_from_value(
    exchange: ExchangeId,
    raw: &JsonValue,
) -> (r: Result<Balance>)
    ensures
        *raw is Object ==> (r matches Ok(o) && hyperliquid_spot_balance_from_value_of(exchange, *raw, o)),
        !(*raw is Object) ==> (r matches Err(err) && err.is_adapter(exchange, "Hyperliquid spot balance item is not an object"@)),
{
    let e = match raw {
        JsonValue::Object(e) => e,
        _ => return Err(Error::Adapter { exchange: exchange, message: owned("Hyperliquid spot balance item is not an object") }),
    };
    let exchange = exchange;
    let asset = match string_field(e, "coin") { Some(s) => s, None => String::new() };
    let total = match string_field(e, "total") { Some(s) => s, None => String::new() };
    let available = copy_string(&total);
    let frozen = string_field(e, "hold");
    Ok(Balance { exchange, asset, total, available, frozen, raw: raw.copy() })
}

/// The margin summary of a `clearinghouseState` answer.
pub open spec fn margin_summary_member(raw: JsonValue) -> Option<Seq<(String, JsonValue)>> {
    match raw {
        JsonValue::Object(e) => match obj_get(e@, "marginSummary"@) {
            Some(JsonValue::Object(m)) => Some(m@),
            _ => None,
        },
        _ => None,
    }
}

/// The balances of a spot state: its `balances` array.
pub open spec fn spot_balance_items(spot: JsonValue) -> Option<Seq<JsonValue>> {
    match spot {
        JsonValue::Object(e) => array_member_of(e@, "balances"@),
        _ => None,
    }
}

/// The balances of a Hyperliquid account: USDC margin from the perpetual
/// state first (account value, withdrawable, margin used), then every spot
/// balance.
pub fn hyperliquid_balances_from_states(raw: JsonValue, spot: &JsonValue) -> (r: Result<Vec<Balance>>)
    ensures
        !(raw is Object) ==> (r matches Err(e) && e.is_adapter(
            ExchangeId::Hyperliquid,
            "Hyperliquid clearinghouseState response is not an object"@,
        )),
        raw is Object && margin_summary_member(raw) is None ==> (r matches Err(e) && e.is_adapter(
            ExchangeId::Hyperliquid,
            "Hyperliquid clearinghouseState missing marginSummary"@,
        )),
        margin_summary_member(raw) is Some && !(*spot is Object) ==> (r matches Err(e)
            && e.is_adapter(
            ExchangeId::Hyperliquid,
            "Hyperliquid spotClearinghouseState response is not an object"@,
        )),
        margin_summary_member(raw) is Some && *spot is Object && spot_balance_items(*spot) is None
            ==> (r matches Err(e) && e.is_adapter(
            ExchangeId::Hyperliquid,
            "Hyperliquid spotClearinghouseState missing balances"@,
        )),
        margin_summary_member(raw) matches Some(summary) ==> (spot_balance_items(*spot) matches Some(
            items) ==> if all_objects(items) {
            r matches Ok(out) && {
                &&& out@.len() == items.len() + 1
                &&& out@[0].exchange == ExchangeId::Hyperliquid
                &&& out@[0].asset@ == "USDC"@
                &&& out@[0].total@ == or_empty(str_field(summary, "accountValue"@))
                &&& out@[0].available@ == or_empty(str_field(raw->Object_0@, "withdrawable"@))
                &&& opt_view(out@[0].frozen) == str_field(summary, "totalMarginUsed"@)
                &&& out@[0].raw == raw
                &&& forall|i: int|
                    0 <= i < items.len() ==> hyperliquid_spot_balance_from_value_of(
                        ExchangeId::Hyperliquid,
                        items[i],
                        #[trigger] out@[i + 1],
                    )
            }
        } else {
            r matches Err(e) && e.is_adapter(
                ExchangeId::Hyperliquid,
                "Hyperliquid spot balance item is not an object"@,
            )
        }),
{
    let exchange = ExchangeId::Hyperliquid;
    let e = match &raw {
        JsonValue::Object(e) => e,
        _ => return Err(
            Error::Adapter {
                exchange,
                message: owned("Hyperliquid clearinghouseState response is not an object"),
            },
        ),
    };
    let summary = match obj_lookup(e, "marginSummary") {
        Some(JsonValue::Object(m)) => m,
        _ => return Err(
            Error::Adapter {
                exchange,
                message: owned("Hyperliquid clearinghouseState missing marginSummary"),
            },
        ),
    };
    let total = match string_field(summary, "accountValue") {
        Some(v) => v,
        None => String::new(),
    };
    let available = match string_field(e, "withdrawable") {
        Some(v) => v,
        None => String::new(),
    };
    let frozen = string_field(summary, "totalMarginUsed");
    let spot_object = match spot {
        JsonValue::Object(o) => o,
        _ => return Err(
            Error::Adapter {
                exchange,
                message: owned("Hyperliquid spotClearinghouseState response is not an object"),
            },
        ),
    };
    let items = match obj_lookup(spot_object, "balances") {
        Some(JsonValue::Array(items)) => items,
        _ => return Err(
            Error::Adapter {
                exchange,
                message: owned("Hyperliquid spotClearinghouseState missing balances"),
            },
        ),
    };
    let mut out: Vec<Balance> = Vec::new();
    out.push(Balance { exchange, asset: owned("USDC"), total, available, frozen, raw });
    let ghost first = out@[0];
    let mut i: usize = 0;
    while i < items.len()
        invariant
            i <= items.len(),
            spot_balance_items(*spot) == Some(items@),
            margin_summary_member(raw) is Some,
            out@.len() == i + 1,
            out@[0] == first,
            forall|k: int| 0 <= k < i ==> #[trigger] items@[k] is Object,
            forall|k: int|
                0 <= k < i ==> hyperliquid_spot_balance_from_value_of(
                    ExchangeId::Hyperliquid,
                    items@[k],
                    #[trigger] out@[k + 1],
                ),
        decreases items.len() - i,
    {
        match hyperliquid_spot_balance_from_value(ExchangeId::Hyperliquid, &items[i]) {
            Ok(b) => out.push(b),
            Err(err) => {
                assert(!all_objects(items@));
                return Err(err);
            },
        }
        i += 1;
    }
    Ok(out)
}

} // verus!
