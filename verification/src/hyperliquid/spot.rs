//! Hyperliquid spot metadata: token names, spot pairs, exchange symbols and
//! the asset context of a spot instrument.
use crate::error::{Error, Result};
use crate::exchange::ExchangeId;
use crate::instrument::{Instrument, MarketType};
use crate::json::{number_as_u64, number_of, obj_get, obj_lookup, str_field, string_field, u64_at, u64_field, u64_field_spec, value_u64_at, JsonValue};
use crate::text::{
    ascii_upper, chars_contain, chars_of, chars_slice_text, concat, decimal, find_char,
    first_index, has_char, opt_view, owned, text_eq, u64_to_text,
};
use vstd::prelude::*;

verus! {

/// The base and quote of a spot symbol `BASE/QUOTE`; a symbol without `/`
/// counts as quoted in USDC.
pub open spec fn spot_symbol_parts(symbol: Seq<char>) -> (Seq<char>, Seq<char>) {
    let i = first_index(symbol, '/');
    if i >= symbol.len() {
        (symbol, "USDC"@)
    } else {
        (symbol.subrange(0, i), symbol.subrange(i + 1, symbol.len() as int))
    }
}

/// The spot instrument of a `BASE/QUOTE` symbol.
pub fn spot_instrument_from_symbol(symbol: &str) -> (r: Instrument)
    ensures
        r.base@ == ascii_upper(spot_symbol_parts(symbol@).0),
        r.quote@ == ascii_upper(spot_symbol_parts(symbol@).1),
        r.market_type == MarketType::Spot,
        r.settlement is None,
{
    let v = chars_of(symbol);
    let i = find_char(v.as_slice(), '/');
    if i >= v.len() {
        return Instrument::spot(symbol, "USDC");
    }
    let base = chars_slice_text(v.as_slice(), 0, i);
    let quote = chars_slice_text(v.as_slice(), i + 1, v.len());
    Instrument::spot(base, quote)
}

/// The name of the first token with number `index` that has a name.
pub open spec fn token_name(tokens: Seq<JsonValue>, index: u64) -> Option<Seq<char>>
    decreases tokens.len(),
{
    if tokens.len() == 0 {
        None
    } else {
        let here = match tokens[0] {
            JsonValue::Object(e) => if u64_field_spec(e@, "index"@) == Some(index) {
                str_field(e@, "name"@)
            } else {
                None
            },
            _ => None,
        };
        match here {
            Some(n) => Some(n),
            None => token_name(tokens.drop_first(), index),
        }
    }
}

/// The name of token number `index`.
pub fn spot_token_name(tokens: &Vec<JsonValue>, index: u64) -> (r: Option<String>)
    ensures
        opt_view(r) == token_name(tokens@, index),
{
    let mut i: usize = 0;
    assert(tokens@.skip(0) =~= tokens@);
    while i < tokens.len()
        invariant
            i <= tokens.len(),
            token_name(tokens@, index) == token_name(tokens@.skip(i as int), index),
        decreases tokens.len() - i,
    {
        assert(tokens@.skip(i as int).drop_first() =~= tokens@.skip(i + 1));
        assert(tokens@.skip(i as int)[0] == tokens@[i as int]);
        if let JsonValue::Object(e) = &tokens[i] {
            if let Some(n) = u64_field(e, "index") {
                if n == index {
                    if let Some(name) = string_field(e, "name") {
                        return Some(name);
                    }
                }
            }
        }
        i += 1;
    }
    None
}

/// The token names of a spot universe item's pair.
pub open spec fn universe_pair(tokens: Seq<JsonValue>, item: JsonValue) -> Option<(Seq<char>, Seq<char>)> {
    match item {
        JsonValue::Object(e) => match obj_get(e@, "tokens"@) {
            Some(JsonValue::Array(pair)) => match (u64_at(pair@, 0), u64_at(pair@, 1)) {
                (Some(b), Some(q)) => match (token_name(tokens, b), token_name(tokens, q)) {
                    (Some(base), Some(quote)) => Some((base, quote)),
                    _ => None,
                },
                _ => None,
            },
            _ => None,
        },
        _ => None,
    }
}

/// `instrument` is the spot pair of these token names.
pub open spec fn is_spot_pair(instrument: Instrument, pair: (Seq<char>, Seq<char>)) -> bool {
    &&& instrument.base@ == ascii_upper(pair.0)
    &&& instrument.quote@ == ascii_upper(pair.1)
    &&& instrument.market_type == MarketType::Spot
    &&& instrument.settlement is None
}

/// The spot instrument of a universe item.
pub fn spot_instrument_from_universe_item(tokens: &Vec<JsonValue>, item: &JsonValue) -> (r: Option<
    Instrument,
>)
    ensures
        match universe_pair(tokens@, *item) {
            Some(pair) => r matches Some(i) && is_spot_pair(i, pair),
            None => r is None,
        },
{
    let e = match item {
        JsonValue::Object(e) => e,
        _ => return None,
    };
    let pair = match obj_lookup(e, "tokens") {
        Some(JsonValue::Array(p)) => p,
        _ => return None,
    };
    let base_index = match value_u64_at(pair, 0) {
        Some(b) => b,
        None => return None,
    };
    let quote_index = match value_u64_at(pair, 1) {
        Some(q) => q,
        None => return None,
    };
    let base = match spot_token_name(tokens, base_index) {
        Some(b) => b,
        None => return None,
    };
    let quote = match spot_token_name(tokens, quote_index) {
        Some(q) => q,
        None => return None,
    };
    Some(Instrument::spot(base, quote))
}

/// The exchange symbol of a spot universe item: its name when that is
/// `PURR/USDC` or starts with `@`, else `@` and its index, else its name.
pub open spec fn spot_symbol(item: JsonValue) -> Option<Seq<char>> {
    match item {
        JsonValue::Object(e) => {
            let name = str_field(e@, "name"@);
            if name matches Some(n) && (n == "PURR/USDC"@ || (n.len() > 0 && n[0] == '@')) {
                name
            } else if u64_field_spec(e@, "index"@) is Some {
                Some("@"@ + decimal(u64_field_spec(e@, "index"@)->0 as nat))
            } else {
                name
            }
        },
        _ => None,
    }
}

/// The exchange symbol of a spot universe item.
pub fn spot_exchange_symbol_from_universe_item(item: &JsonValue) -> (r: Option<String>)
    ensures
        opt_view(r) == spot_symbol(*item),
{
    let e = match item {
        JsonValue::Object(e) => e,
        _ => return None,
    };
    if let Some(name) = string_field(e, "name") {
        let v = chars_of(name.as_str());
        if text_eq(name.as_str(), "PURR/USDC") || (v.len() > 0 && v[0] == '@') {
            return Some(name);
        }
    }
    if let Some(index) = u64_field(e, "index") {
        return Some(concat("@", u64_to_text(index).as_str()));
    }
    string_field(e, "name")
}

/// The first index at or after `start` whose universe item is the spot pair
/// `instrument`; the universe's length when there is none.
pub open spec fn first_spot_match(
    tokens: Seq<JsonValue>,
    universe: Seq<JsonValue>,
    instrument: Instrument,
    start: int,
) -> int
    decreases universe.len() - start,
{
    if start >= universe.len() || start < 0 {
        universe.len() as int
    } else if universe_pair(tokens, universe[start]) matches Some(pair) && is_spot_pair(
        instrument,
        pair,
    ) {
        start
    } else {
        first_spot_match(tokens, universe, instrument, start + 1)
    }
}

/// An array member of an object.
pub open spec fn array_member_of(e: Seq<(String, JsonValue)>, key: Seq<char>) -> Option<Seq<JsonValue>> {
    match obj_get(e, key) {
        Some(JsonValue::Array(v)) => Some(v@),
        _ => None,
    }
}

/// The meta object of a `metaAndAssetCtxs`-shaped answer: its first element.
pub open spec fn answer_meta(raw: JsonValue) -> Option<Seq<(String, JsonValue)>> {
    match raw {
        JsonValue::Array(items) => if items@.len() > 0 {
            match items@[0] {
                JsonValue::Object(e) => Some(e@),
                _ => None,
            }
        } else {
            None
        },
        _ => None,
    }
}

/// The asset contexts of a `metaAndAssetCtxs`-shaped answer: its second element.
pub open spec fn answer_contexts(raw: JsonValue) -> Option<Seq<JsonValue>> {
    match raw {
        JsonValue::Array(items) => if items@.len() > 1 {
            match items@[1] {
                JsonValue::Array(c) => Some(c@),
                _ => None,
            }
        } else {
            None
        },
        _ => None,
    }
}

/// What a `spotMetaAndAssetCtxs` answer gives for `instrument`: the exchange
/// symbol and asset context of its first universe item, or the reason there
/// is none.
pub open spec fn spot_asset_context_spec(raw: JsonValue, instrument: Instrument) -> std::result::Result<
    (Seq<char>, JsonValue),
    Seq<char>,
> {
    match answer_meta(raw) {
        None => Err("Hyperliquid spotMetaAndAssetCtxs missing meta"@),
        Some(meta) => match array_member_of(meta, "tokens"@) {
            None => Err("Hyperliquid spotMetaAndAssetCtxs missing tokens"@),
            Some(tokens) => match array_member_of(meta, "universe"@) {
                None => Err("Hyperliquid spotMetaAndAssetCtxs missing universe"@),
                Some(universe) => match answer_contexts(raw) {
                    None => Err("Hyperliquid spotMetaAndAssetCtxs missing contexts"@),
                    Some(contexts) => {
                        let i = first_spot_match(tokens, universe, instrument, 0);
                        let wanted = instrument.symbol_spec(ExchangeId::Hyperliquid);
                        if i >= universe.len() {
                            Err("Hyperliquid spotMetaAndAssetCtxs asset not found: "@ + wanted)
                        } else {
                            match spot_symbol(universe[i]) {
                                None => Err(
                                    "Hyperliquid spotMetaAndAssetCtxs asset missing exchange symbol: "@
                                        + wanted,
                                ),
                                Some(symbol) => if i < contexts.len() {
                                    Ok((symbol, contexts[i]))
                                } else {
                                    Err(
                                        "Hyperliquid spotMetaAndAssetCtxs context missing asset: "@
                                            + symbol,
                                    )
                                },
                            }
                        }
                    },
                },
            },
        },
    }
}

fn refuse(message: String) -> (r: Result<(String, JsonValue)>)
    ensures
        r matches Err(e) && e.is_adapter(ExchangeId::Hyperliquid, message@),
{
    Err(Error::Adapter { exchange: ExchangeId::Hyperliquid, message })
}

/// The exchange symbol and asset context of a spot instrument in a
/// `spotMetaAndAssetCtxs` answer.
pub fn spot_asset_context_from_value(raw: &JsonValue, instrument: &Instrument) -> (r: Result<
    (String, JsonValue),
>)
    ensures
        match spot_asset_context_spec(*raw, *instrument) {
            Ok((symbol, ctx)) => r matches Ok((s, c)) && s@ == symbol && c.model() == ctx.model(),
            Err(message) => r matches Err(e) && e.is_adapter(ExchangeId::Hyperliquid, message),
        },
{
    let items = match raw {
        JsonValue::Array(items) => items,
        _ => return refuse(owned("Hyperliquid spotMetaAndAssetCtxs missing meta")),
    };
    if items.len() == 0 {
        return refuse(owned("Hyperliquid spotMetaAndAssetCtxs missing meta"));
    }
    let meta = match &items[0] {
        JsonValue::Object(e) => e,
        _ => return refuse(owned("Hyperliquid spotMetaAndAssetCtxs missing meta")),
    };
    let tokens = match obj_lookup(meta, "tokens") {
        Some(JsonValue::Array(t)) => t,
        _ => return refuse(owned("Hyperliquid spotMetaAndAssetCtxs missing tokens")),
    };
    let universe = match obj_lookup(meta, "universe") {
        Some(JsonValue::Array(u)) => u,
        _ => return refuse(owned("Hyperliquid spotMetaAndAssetCtxs missing universe")),
    };
    if items.len() < 2 {
        return refuse(owned("Hyperliquid spotMetaAndAssetCtxs missing contexts"));
    }
    let contexts = match &items[1] {
        JsonValue::Array(c) => c,
        _ => return refuse(owned("Hyperliquid spotMetaAndAssetCtxs missing contexts")),
    };
    let wanted = instrument.symbol_for(ExchangeId::Hyperliquid);
    let mut i: usize = 0;
    while i < universe.len()
        invariant
            i <= universe.len(),
            wanted@ == instrument.symbol_spec(ExchangeId::Hyperliquid),
            answer_meta(*raw) matches Some(m) && array_member_of(m, "tokens"@) == Some(tokens@)
                && array_member_of(m, "universe"@) == Some(universe@),
            answer_contexts(*raw) == Some(contexts@),
            first_spot_match(tokens@, universe@, *instrument, 0) == first_spot_match(
                tokens@,
                universe@,
                *instrument,
                i as int,
            ),
        decreases universe.len() - i,
    {
        let matched = match spot_instrument_from_universe_item(tokens, &universe[i]) {
            Some(found) => text_eq(found.base.as_str(), instrument.base.as_str()) && text_eq(
                found.quote.as_str(),
                instrument.quote.as_str(),
            ) && found.market_type == instrument.market_type && instrument.settlement.is_none(),
            None => false,
        };
        if matched {
            assert(first_spot_match(tokens@, universe@, *instrument, i as int) == i as int);
            let symbol = match spot_exchange_symbol_from_universe_item(&universe[i]) {
                Some(s) => s,
                None => {
                    return refuse(
                        concat(
                            "Hyperliquid spotMetaAndAssetCtxs asset missing exchange symbol: ",
                            wanted.as_str(),
                        ),
                    )
                },
            };
            if i >= contexts.len() {
                return refuse(
                    concat("Hyperliquid spotMetaAndAssetCtxs context missing asset: ", symbol.as_str()),
                );
            }
            return Ok((symbol, contexts[i].copy()));
        }
        i += 1;
    }
    refuse(concat("Hyperliquid spotMetaAndAssetCtxs asset not found: ", wanted.as_str()))
}

/// The tokens and universe of a `spotMeta` answer, or the reason they cannot
/// be read.
pub open spec fn spot_meta_parts(raw: JsonValue) -> std::result::Result<
    (Seq<JsonValue>, Seq<JsonValue>),
    Seq<char>,
> {
    match raw {
        JsonValue::Object(e) => match array_member_of(e@, "tokens"@) {
            None => Err("Hyperliquid spotMeta missing tokens"@),
            Some(tokens) => match array_member_of(e@, "universe"@) {
                None => Err("Hyperliquid spotMeta missing universe"@),
                Some(universe) => Ok((tokens, universe)),
            },
        },
        _ => Err("Hyperliquid spotMeta response is not an object"@),
    }
}

fn spot_meta_arrays(raw: &JsonValue) -> (r: Result<(&Vec<JsonValue>, &Vec<JsonValue>)>)
    ensures
        match spot_meta_parts(*raw) {
            Ok((tokens, universe)) => r matches Ok((t, u)) && t@ == tokens && u@ == universe,
            Err(message) => r matches Err(e) && e.is_adapter(ExchangeId::Hyperliquid, message),
        },
{
    let exchange = ExchangeId::Hyperliquid;
    let meta = match raw {
        JsonValue::Object(e) => e,
        _ => return Err(
            Error::Adapter { exchange, message: owned("Hyperliquid spotMeta response is not an object") },
        ),
    };
    let tokens = match obj_lookup(meta, "tokens") {
        Some(JsonValue::Array(t)) => t,
        _ => return Err(Error::Adapter { exchange, message: owned("Hyperliquid spotMeta missing tokens") }),
    };
    let universe = match obj_lookup(meta, "universe") {
        Some(JsonValue::Array(u)) => u,
        _ => return Err(
            Error::Adapter { exchange, message: owned("Hyperliquid spotMeta missing universe") },
        ),
    };
    Ok((tokens, universe))
}

/// The first index at or after `start` whose universe item has the exchange
/// symbol `symbol`; the universe's length when there is none.
pub open spec fn first_with_symbol(universe: Seq<JsonValue>, symbol: Seq<char>, start: int) -> int
    decreases universe.len() - start,
{
    if start >= universe.len() || start < 0 {
        universe.len() as int
    } else if spot_symbol(universe[start]) == Some(symbol) {
        start
    } else {
        first_with_symbol(universe, symbol, start + 1)
    }
}

/// The spot instrument that the exchange symbol `symbol` (such as `@107`)
/// stands for in a `spotMeta` answer.
pub fn spot_instrument_from_exchange_symbol(raw: &JsonValue, symbol: &str) -> (r: Result<Instrument>)
    ensures
        match spot_meta_parts(*raw) {
            Err(message) => r matches Err(e) && e.is_adapter(ExchangeId::Hyperliquid, message),
            Ok((tokens, universe)) => {
                let i = first_with_symbol(universe, symbol@, 0);
                if i >= universe.len() {
                    r matches Err(e) && e.is_adapter(
                        ExchangeId::Hyperliquid,
                        "Hyperliquid spot asset not found: "@ + symbol@,
                    )
                } else {
                    match universe_pair(tokens, universe[i]) {
                        Some(pair) => r matches Ok(found) && is_spot_pair(found, pair),
                        None => r matches Err(e) && e.is_adapter(
                            ExchangeId::Hyperliquid,
                            "Hyperliquid spot asset missing tokens for "@ + symbol@,
                        ),
                    }
                }
            },
        },
{
    let (tokens, universe) = match spot_meta_arrays(raw) {
        Ok(parts) => parts,
        Err(e) => return Err(e),
    };
    let mut i: usize = 0;
    while i < universe.len()
        invariant
            i <= universe.len(),
            spot_meta_parts(*raw) == Ok::<_, Seq<char>>((tokens@, universe@)),
            first_with_symbol(universe@, symbol@, 0) == first_with_symbol(universe@, symbol@, i as int),
        decreases universe.len() - i,
    {
        let found = match spot_exchange_symbol_from_universe_item(&universe[i]) {
            Some(s) => text_eq(s.as_str(), symbol),
            None => false,
        };
        if found {
            assert(first_with_symbol(universe@, symbol@, i as int) == i as int);
            return match spot_instrument_from_universe_item(tokens, &universe[i]) {
                Some(instrument) => Ok(instrument),
                None => Err(
                    Error::Adapter {
                        exchange: ExchangeId::Hyperliquid,
                        message: concat("Hyperliquid spot asset missing tokens for ", symbol),
                    },
                ),
            };
        }
        i += 1;
    }
    Err(
        Error::Adapter {
            exchange: ExchangeId::Hyperliquid,
            message: concat("Hyperliquid spot asset not found: ", symbol),
        },
    )
}

/// A spot universe item whose token numbers (JSON numbers) name exactly the
/// base and quote of `instrument`.
pub open spec fn names_pair(tokens: Seq<JsonValue>, item: JsonValue, instrument: Instrument) -> bool {
    &&& item is Object
    &&& obj_get(item->Object_0@, "tokens"@) matches Some(JsonValue::Array(pair))
    &&& pair@.len() > 1
    &&& number_of(pair@[0]) matches Some(b)
    &&& number_of(pair@[1]) matches Some(q)
    &&& token_name(tokens, b) == Some(instrument.base@)
    &&& token_name(tokens, q) == Some(instrument.quote@)
}

/// What the universe items from index `k` on give for the spot instrument:
/// the exchange symbol of the first item that names its pair, or the reason
/// there is none.
pub open spec fn market_data_coin_spec(
    tokens: Seq<JsonValue>,
    universe: Seq<JsonValue>,
    instrument: Instrument,
    fallback: Seq<char>,
    k: int,
) -> std::result::Result<Seq<char>, Seq<char>>
    decreases universe.len() - k,
{
    if k < 0 || k >= universe.len() {
        Err("Hyperliquid spot asset not found: "@ + fallback)
    } else if !(universe[k] is Object) {
        Err("Hyperliquid spot universe item is not an object"@)
    } else if names_pair(tokens, universe[k], instrument) {
        match spot_symbol(universe[k]) {
            Some(symbol) => Ok(symbol),
            None => Err("Hyperliquid spot asset missing exchange symbol: "@ + fallback),
        }
    } else {
        market_data_coin_spec(tokens, universe, instrument, fallback, k + 1)
    }
}

fn item_names_pair(tokens: &Vec<JsonValue>, item: &JsonValue, instrument: &Instrument) -> (r: bool)
    ensures
        r == names_pair(tokens@, *item, *instrument),
{
    let e = match item {
        JsonValue::Object(e) => e,
        _ => return false,
    };
    let pair = match obj_lookup(e, "tokens") {
        Some(JsonValue::Array(p)) => p,
        _ => return false,
    };
    if pair.len() < 2 {
        return false;
    }
    let b = match &pair[0] {
        JsonValue::Number(n) => number_as_u64(n.as_str()),
        _ => None,
    };
    let q = match &pair[1] {
        JsonValue::Number(n) => number_as_u64(n.as_str()),
        _ => None,
    };
    match (b, q) {
        (Some(b), Some(q)) => {
            let base = spot_token_name(tokens, b);
            let quote = spot_token_name(tokens, q);
            match (base, quote) {
                (Some(base), Some(quote)) => text_eq(base.as_str(), instrument.base.as_str())
                    && text_eq(quote.as_str(), instrument.quote.as_str()),
                _ => false,
            }
        },
        _ => false,
    }
}

/// The coin under which Hyperliquid's market data knows a spot instrument:
/// the exchange symbol of the `spotMeta` universe item that names its pair.
pub fn spot_market_data_coin_from_meta(raw: &JsonValue, instrument: &Instrument, fallback: &str) -> (r:
    Result<String>)
    ensures
        match spot_meta_parts(*raw) {
            Err(message) => r matches Err(e) && e.is_adapter(ExchangeId::Hyperliquid, message),
            Ok((tokens, universe)) => match market_data_coin_spec(tokens, universe, *instrument, fallback@, 0) {
                Ok(symbol) => r matches Ok(s) && s@ == symbol,
                Err(message) => r matches Err(e) && e.is_adapter(ExchangeId::Hyperliquid, message),
            },
        },
{
    let (tokens, universe) = match spot_meta_arrays(raw) {
        Ok(parts) => parts,
        Err(e) => return Err(e),
    };
    let mut i: usize = 0;
    while i < universe.len()
        invariant
            i <= universe.len(),
            spot_meta_parts(*raw) == Ok::<_, Seq<char>>((tokens@, universe@)),
            market_data_coin_spec(tokens@, universe@, *instrument, fallback@, 0)
                == market_data_coin_spec(tokens@, universe@, *instrument, fallback@, i as int),
        decreases universe.len() - i,
    {
        let is_object = match &universe[i] {
            JsonValue::Object(_) => true,
            _ => false,
        };
        if !is_object {
            return Err(
                Error::Adapter {
                    exchange: ExchangeId::Hyperliquid,
                    message: owned("Hyperliquid spot universe item is not an object"),
                },
            );
        }
        if item_names_pair(tokens, &universe[i], instrument) {
            return match spot_exchange_symbol_from_universe_item(&universe[i]) {
                Some(symbol) => Ok(symbol),
                None => Err(
                    Error::Adapter {
                        exchange: ExchangeId::Hyperliquid,
                        message: concat("Hyperliquid spot asset missing exchange symbol: ", fallback),
                    },
                ),
            };
        }
        i += 1;
    }
    Err(
        Error::Adapter {
            exchange: ExchangeId::Hyperliquid,
            message: concat("Hyperliquid spot asset not found: ", fallback),
        },
    )
}

/// The coin of an instrument in Hyperliquid's market data when no `spotMeta`
/// lookup is needed: a perpetual's base, or the `PURR/USDC` pair; `None` for
/// other spot instruments, whose coin `spot_market_data_coin_from_meta` finds.
pub fn hyperliquid_direct_coin(instrument: &Instrument) -> (r: Option<String>)
    ensures
        !(instrument.market_type == MarketType::Spot || instrument.market_type == MarketType::Margin)
            ==> (r matches Some(c) && c@ == instrument.symbol_spec(ExchangeId::Hyperliquid)),
        (instrument.market_type == MarketType::Spot || instrument.market_type == MarketType::Margin)
            ==> (if instrument.symbol_spec(ExchangeId::Hyperliquid) == "PURR/USDC"@ {
            r matches Some(c) && c@ == "PURR/USDC"@
        } else {
            r is None
        }),
{
    let symbol = instrument.symbol_for(ExchangeId::Hyperliquid);
    match instrument.market_type {
        MarketType::Spot | MarketType::Margin => {
            if text_eq(symbol.as_str(), "PURR/USDC") {
                Some(symbol)
            } else {
                None
            }
        },
        _ => Some(symbol),
    }
}

/// The instrument of a coin of an account answer when no `spotMeta` lookup
/// is needed: the instrument asked for, the pair of a `BASE/QUOTE` coin, or
/// the USDC perpetual of a plain coin; `None` for an `@` coin, whose pair
/// `spot_instrument_from_exchange_symbol` finds.
pub fn hyperliquid_instrument_for_coin(instrument: Option<Instrument>, coin: &str) -> (r: Option<
    Instrument,
>)
    ensures
        instrument is Some ==> r == instrument,
        instrument is None && has_char(coin@, '/') ==> (r matches Some(found) && is_spot_pair(
            found,
            spot_symbol_parts(coin@),
        )),
        instrument is None && !has_char(coin@, '/') && !(coin@.len() > 0 && coin@[0] == '@') ==> (
        r matches Some(found) && found.base@ == ascii_upper(coin@) && found.quote@ == "USDC"@
            && found.market_type == MarketType::Perpetual && found.settlement is None),
        instrument is None && !has_char(coin@, '/') && coin@.len() > 0 && coin@[0] == '@' ==> r is None,
{
    if instrument.is_some() {
        return instrument;
    }
    let v = chars_of(coin);
    if chars_contain(v.as_slice(), '/') {
        return Some(spot_instrument_from_symbol(coin));
    }
    if v.len() > 0 && v[0] == '@' {
        return None;
    }
    let found = Instrument::perp(coin, "USDC");
    proof {
        reveal_strlit("USDC");
    }
    Some(found)
}

} // verus!
