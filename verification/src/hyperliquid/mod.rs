//! Hyperliquid `/info` answers: positions and spot asset contexts.
pub mod bills;
pub mod market;
pub mod orders;
pub mod select;
pub mod spot;

use crate::error::{Error, Result};
use crate::exchange::ExchangeId;
use crate::instrument::Instrument;
use crate::json::{
    first_rejected, json_get, obj_get, obj_take, or_empty, rejected, str_field, string_field,
    JsonValue,
};
use crate::position::Position;
use crate::text::{ascii_upper, opt_view, owned, text_eq, trim, trim_start, trim_start_chars, trim_text};
use vstd::prelude::*;

verus! {

broadcast use vstd::std_specs::vec::group_vec_axioms;

/// The side of a signed position size: `short` below zero, none for zero or
/// an empty size, `long` otherwise.
pub open spec fn hl_position_side(size: Seq<char>) -> Option<Seq<char>> {
    let started = trim_start(size);
    if started.len() > 0 && started[0] == '-' {
        Some("short"@)
    } else if trim(size).len() == 0 || trim(size) == "0"@ {
        None
    } else {
        Some("long"@)
    }
}

/// The side of a signed position size.
pub fn position_side(size: &str) -> (r: Option<String>)
    ensures
        opt_view(r) == hl_position_side(size@),
{
    let started = trim_start_chars(size);
    if started.len() > 0 && started[0] == '-' {
        return Some(owned("short"));
    }
    let t = trim_text(size);
    if crate::text::text_is_empty(t.as_str()) || text_eq(t.as_str(), "0") {
        None
    } else {
        Some(owned("long"))
    }
}

/// The `position` object of an asset-position item.
pub open spec fn position_object(item: JsonValue) -> Option<Seq<(String, JsonValue)>> {
    match json_get(item, "position"@) {
        Some(JsonValue::Object(p)) => Some(p@),
        _ => None,
    }
}

/// The coin of a position object, empty when it has none.
pub open spec fn position_coin(p: Seq<(String, JsonValue)>) -> Seq<char> {
    or_empty(str_field(p, "coin"@))
}

/// Whether an asset position is kept: with an instrument asked for, only the
/// positions in its coin are.
pub open spec fn hl_position_wanted(instrument: Option<Instrument>, item: JsonValue) -> bool {
    match position_object(item) {
        Some(p) => match instrument {
            Some(i) => position_coin(p) == i.symbol_spec(ExchangeId::Hyperliquid),
            None => true,
        },
        None => false,
    }
}

pub open spec fn wanted_asset_positions(instrument: Option<Instrument>, items: Seq<JsonValue>) -> Seq<
    JsonValue,
>
    decreases items.len(),
{
    if items.len() == 0 {
        Seq::empty()
    } else {
        let before = wanted_asset_positions(instrument, items.drop_last());
        if hl_position_wanted(instrument, items.last()) {
            before.push(items.last())
        } else {
            before
        }
    }
}

/// A member of the `leverage` object of a position.
pub open spec fn leverage_member(p: Seq<(String, JsonValue)>, key: Seq<char>) -> Option<Seq<char>> {
    match obj_get(p, "leverage"@) {
        Some(JsonValue::Object(l)) => str_field(l@, key),
        _ => None,
    }
}

/// `out` is the position of a kept asset-position item: of the instrument
/// asked for, else the USDC perpetual of its coin.
pub open spec fn hl_position_of(instrument: Option<Instrument>, item: JsonValue, out: Position) -> bool {
    match position_object(item) {
        Some(p) => {
            let coin = position_coin(p);
            &&& out.exchange == ExchangeId::Hyperliquid
            &&& out.exchange_symbol@ == coin
            &&& match instrument {
                Some(i) => out.instrument.same_as(i),
                None => out.instrument.base@ == ascii_upper(coin) && out.instrument.quote@
                    == ascii_upper("USDC"@) && out.instrument.market_type
                    == crate::instrument::MarketType::Perpetual && out.instrument.settlement is None,
            }
            &&& opt_view(out.side) == match str_field(p, "szi"@) {
                Some(size) => hl_position_side(size),
                None => None,
            }
            &&& out.size@ == or_empty(str_field(p, "szi"@))
            &&& opt_view(out.entry_price) == str_field(p, "entryPx"@)
            &&& out.mark_price is None
            &&& opt_view(out.unrealized_pnl) == str_field(p, "unrealizedPnl"@)
            &&& opt_view(out.leverage) == leverage_member(p, "value"@)
            &&& opt_view(out.margin_mode) == leverage_member(p, "type"@)
            &&& opt_view(out.liquidation_price) == str_field(p, "liquidationPx"@)
            &&& out.raw == item
        },
        None => false,
    }
}

pub open spec fn asset_position_rejections(items: Seq<JsonValue>) -> Seq<Option<Seq<char>>> {
    Seq::new(
        items.len(),
        |i: int|
            if position_object(items[i]) is Some {
                None
            } else {
                Some("Hyperliquid assetPosition missing position"@)
            },
    )
}

/// The asset positions of a clearinghouse state.
pub open spec fn asset_positions(raw: JsonValue) -> Option<Seq<JsonValue>> {
    match raw {
        JsonValue::Object(e) => match obj_get(e@, "assetPositions"@) {
            Some(JsonValue::Array(v)) => Some(v@),
            _ => None,
        },
        _ => None,
    }
}

fn hl_position(instrument: Option<&Instrument>, item: JsonValue) -> (r: Position)
    requires
        position_object(item) is Some,
    ensures
        hl_position_of(
            match instrument {
                Some(i) => Some(*i),
                None => None,
            },
            item,
            r,
        ),
{
    let fields = match crate::json::json_lookup(&item, "position") {
        Some(JsonValue::Object(p)) => {
            let coin = match string_field(p, "coin") {
                Some(c) => c,
                None => String::new(),
            };
            let size = string_field(p, "szi");
            let side = match &size {
                Some(s) => position_side(s.as_str()),
                None => None,
            };
            let (leverage, margin_mode) = match crate::json::obj_lookup(p, "leverage") {
                Some(JsonValue::Object(l)) => (string_field(l, "value"), string_field(l, "type")),
                _ => (None, None),
            };
            Some(
                (
                    coin,
                    side,
                    match size {
                        Some(s) => s,
                        None => String::new(),
                    },
                    string_field(p, "entryPx"),
                    string_field(p, "unrealizedPnl"),
                    leverage,
                    margin_mode,
                    string_field(p, "liquidationPx"),
                ),
            )
        },
        _ => None,
    };
    let (coin, side, size, entry_price, unrealized_pnl, leverage, margin_mode, liquidation_price) =
        match fields {
        Some(f) => f,
        None => (String::new(), None, String::new(), None, None, None, None, None),
    };
    let mapped = match instrument {
        Some(i) => i.duplicate(),
        None => Instrument::perp(coin.as_str(), "USDC"),
    };
    Position {
        exchange: ExchangeId::Hyperliquid,
        instrument: mapped,
        exchange_symbol: coin,
        side,
        size,
        entry_price,
        mark_price: None,
        unrealized_pnl,
        leverage,
        margin_mode,
        liquidation_price,
        raw: item,
    }
}

/// The positions of a clearinghouse state, only those of `instrument` when
/// one is given.
pub fn hyperliquid_positions_from_state(raw: JsonValue, instrument: Option<&Instrument>) -> (r: Result<
    Vec<Position>,
>)
    ensures
        ({
            let asked = match instrument {
                Some(i) => Some(*i),
                None => None,
            };
            if !(raw is Object) {
                r matches Err(e) && e.is_adapter(
                    ExchangeId::Hyperliquid,
                    "Hyperliquid clearinghouseState response is not an object"@,
                )
            } else {
                match asset_positions(raw) {
                    None => r matches Err(e) && e.is_adapter(
                        ExchangeId::Hyperliquid,
                        "Hyperliquid clearinghouseState missing assetPositions"@,
                    ),
                    Some(items) => match r {
                        Ok(positions) => (forall|i: int|
                            0 <= i < items.len() ==> position_object(#[trigger] items[i]) is Some)
                            && positions@.len() == wanted_asset_positions(asked, items).len()
                            && forall|i: int|
                            0 <= i < positions@.len() ==> hl_position_of(
                                asked,
                                #[trigger] wanted_asset_positions(asked, items)[i],
                                positions@[i],
                            ),
                        Err(e) => rejected(asset_position_rejections(items), ExchangeId::Hyperliquid, e),
                    },
                }
            }
        }),
{
    let ghost asked = match instrument {
        Some(i) => Some(*i),
        None => None,
    };
    let ghost original = asset_positions(raw);
    let entries = match raw {
        JsonValue::Object(e) => e,
        _ => {
            return Err(
                Error::Adapter {
                    exchange: ExchangeId::Hyperliquid,
                    message: owned("Hyperliquid clearinghouseState response is not an object"),
                },
            )
        },
    };
    let mut items = match obj_take(entries, "assetPositions") {
        Some(JsonValue::Array(v)) => v,
        _ => {
            return Err(
                Error::Adapter {
                    exchange: ExchangeId::Hyperliquid,
                    message: owned("Hyperliquid clearinghouseState missing assetPositions"),
                },
            )
        },
    };
    let ghost all = items@;
    let symbol = match instrument {
        Some(i) => Some(i.symbol_for(ExchangeId::Hyperliquid)),
        None => None,
    };
    let mut positions: Vec<Position> = Vec::new();
    let mut k: usize = 0;
    let n = items.len();
    assert(all.skip(0) =~= all);
    while items.len() > 0
        invariant
            n == all.len(),
            original == asset_positions(raw),
            original == Some(all),
            raw is Object,
            k + items@.len() == all.len(),
            items@ == all.skip(k as int),
            asked == match instrument {
                Some(i) => Some(*i),
                None => None,
            },
            match symbol {
                Some(s) => asked matches Some(i) && s@ == i.symbol_spec(ExchangeId::Hyperliquid),
                None => asked is None,
            },
            forall|j: int| 0 <= j < k ==> position_object(#[trigger] all[j]) is Some,
            positions@.len() == wanted_asset_positions(asked, all.take(k as int)).len(),
            forall|j: int|
                0 <= j < positions@.len() ==> hl_position_of(
                    asked,
                    #[trigger] wanted_asset_positions(asked, all.take(k as int))[j],
                    positions@[j],
                ),
        decreases items@.len(),
    {
        let item = items.remove(0);
        assert(item == all[k as int]);
        assert(all.take(k + 1).drop_last() =~= all.take(k as int));
        assert(all.take(k + 1).last() == all[k as int]);
        let wanted = match crate::json::json_lookup(&item, "position") {
            Some(JsonValue::Object(p)) => match &symbol {
                Some(s) => {
                    let coin = match string_field(p, "coin") {
                        Some(c) => c,
                        None => String::new(),
                    };
                    text_eq(coin.as_str(), s.as_str())
                },
                None => true,
            },
            _ => {
                let err = Error::Adapter {
                    exchange: ExchangeId::Hyperliquid,
                    message: owned("Hyperliquid assetPosition missing position"),
                };
                assert(forall|j: int| 0 <= j < k ==> #[trigger] asset_position_rejections(all)[j] is None);
                assert(first_rejected(asset_position_rejections(all), ExchangeId::Hyperliquid, k as int, err));
                return Err(err);
            },
        };
        if wanted {
            positions.push(hl_position(instrument, item));
        }
        k += 1;
        assert(items@ =~= all.skip(k as int));
    }
    assert(all.take(k as int) =~= all);
    Ok(positions)
}

} // verus!
