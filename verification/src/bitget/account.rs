//! Bitget positions.
use crate::binance::{instrument_from_linear_symbol, is_linear_instrument};
use crate::error::{Error, Result};
use crate::exchange::ExchangeId;
use crate::instrument::Instrument;
use crate::json::{
    first_rejected, first_str_field, first_string_field, items_spec, or_else, or_empty, owned_items,
    rejected, str_field, string_field, JsonValue,
};
use crate::position::Position;
use crate::text::{opt_view, owned, text_eq};
use vstd::prelude::*;

verus! {

broadcast use vstd::std_specs::vec::group_vec_axioms;

/// The symbol of a position row, empty when it has none.
pub open spec fn row_symbol(e: Seq<(String, JsonValue)>) -> Seq<char> {
    or_empty(str_field(e, "symbol"@))
}

/// Whether a position row is kept: with an instrument asked for, only rows of
/// its Bitget symbol are.
pub open spec fn bitget_position_wanted(instrument: Option<Instrument>, row: JsonValue) -> bool {
    match row {
        JsonValue::Object(e) => match instrument {
            Some(i) => row_symbol(e@) == i.symbol_spec(ExchangeId::Bitget),
            None => true,
        },
        _ => false,
    }
}

/// The kept rows, in order.
pub open spec fn wanted_position_rows(instrument: Option<Instrument>, rows: Seq<JsonValue>) -> Seq<
    JsonValue,
>
    decreases rows.len(),
{
    if rows.len() == 0 {
        Seq::empty()
    } else {
        let before = wanted_position_rows(instrument, rows.drop_last());
        if bitget_position_wanted(instrument, rows.last()) {
            before.push(rows.last())
        } else {
            before
        }
    }
}

/// `p` is the position of a kept row: of the instrument asked for, else of
/// the row's linear symbol.
pub open spec fn bitget_position_of(instrument: Option<Instrument>, row: JsonValue, p: Position) -> bool {
    match row {
        JsonValue::Object(e) => {
            let symbol = row_symbol(e@);
            &&& p.exchange == ExchangeId::Bitget
            &&& p.exchange_symbol@ == symbol
            &&& match instrument {
                Some(i) => p.instrument.same_as(i),
                None => is_linear_instrument(p.instrument, symbol),
            }
            &&& opt_view(p.side) == or_else(str_field(e@, "holdSide"@), str_field(e@, "posSide"@))
            &&& p.size@ == or_empty(first_str_field(e@, seq!["total", "available", "size", "pos"]))
            &&& opt_view(p.entry_price) == first_str_field(
                e@,
                seq!["openPriceAvg", "avgPrice", "entryPrice"],
            )
            &&& opt_view(p.mark_price) == str_field(e@, "markPrice"@)
            &&& opt_view(p.unrealized_pnl) == first_str_field(
                e@,
                seq!["unrealizedPL", "unrealizedPnl", "unrealizedProfit"],
            )
            &&& opt_view(p.leverage) == str_field(e@, "leverage"@)
            &&& opt_view(p.margin_mode) == str_field(e@, "marginMode"@)
            &&& opt_view(p.liquidation_price) == first_str_field(
                e@,
                seq!["liquidationPrice", "liqPx"],
            )
            &&& p.raw.model() == row.model()
        },
        _ => false,
    }
}

pub open spec fn position_rejections(rows: Seq<JsonValue>) -> Seq<Option<Seq<char>>> {
    Seq::new(
        rows.len(),
        |i: int|
            match rows[i] {
                JsonValue::Object(_) => None,
                _ => Some("Bitget position item is not an object"@),
            },
    )
}

fn bitget_position(instrument: Option<&Instrument>, entries: Vec<(String, JsonValue)>) -> (r: Position)
    ensures
        bitget_position_of(
            match instrument {
                Some(i) => Some(*i),
                None => None,
            },
            JsonValue::Object(entries),
            r,
        ),
{
    let e = &entries;
    let exchange_symbol = match string_field(e, "symbol") {
        Some(s) => s,
        None => String::new(),
    };
    let mapped = match instrument {
        Some(i) => i.duplicate(),
        None => instrument_from_linear_symbol(exchange_symbol.as_str()),
    };
    let size_fields = ["total", "available", "size", "pos"];
    assert(size_fields@ =~= seq!["total", "available", "size", "pos"]);
    let entry_fields = ["openPriceAvg", "avgPrice", "entryPrice"];
    assert(entry_fields@ =~= seq!["openPriceAvg", "avgPrice", "entryPrice"]);
    let pnl_fields = ["unrealizedPL", "unrealizedPnl", "unrealizedProfit"];
    assert(pnl_fields@ =~= seq!["unrealizedPL", "unrealizedPnl", "unrealizedProfit"]);
    let liq_fields = ["liquidationPrice", "liqPx"];
    assert(liq_fields@ =~= seq!["liquidationPrice", "liqPx"]);
    let side = match string_field(e, "holdSide") {
        Some(s) => Some(s),
        None => string_field(e, "posSide"),
    };
    let size = match first_string_field(e, &size_fields) {
        Some(s) => s,
        None => String::new(),
    };
    let entry_price = first_string_field(e, &entry_fields);
    let mark_price = string_field(e, "markPrice");
    let unrealized_pnl = first_string_field(e, &pnl_fields);
    let leverage = string_field(e, "leverage");
    let margin_mode = string_field(e, "marginMode");
    let liquidation_price = first_string_field(e, &liq_fields);
    Position {
        exchange: ExchangeId::Bitget,
        instrument: mapped,
        exchange_symbol,
        side,
        size,
        entry_price,
        mark_price,
        unrealized_pnl,
        leverage,
        margin_mode,
        liquidation_price,
        raw: JsonValue::Object(entries),
    }
}

/// The positions of a Bitget all-positions answer, only those of `instrument`
/// when one is given; an item that is not an object fails the answer.
pub fn bitget_positions_from_value(raw: JsonValue, instrument: Option<&Instrument>) -> (r: Result<
    Vec<Position>,
>)
    ensures
        ({
            let asked = match instrument {
                Some(i) => Some(*i),
                None => None,
            };
            match items_spec(raw) {
                None => r matches Err(e) && e.is_adapter(
                    ExchangeId::Bitget,
                    "Bitget positions response"@ + " is neither an array nor an object"@,
                ),
                Some(rows) => match r {
                    Ok(positions) => (forall|i: int|
                        0 <= i < rows.len() ==> (#[trigger] rows[i]) is Object) && positions@.len()
                        == wanted_position_rows(asked, rows).len() && forall|i: int|
                        0 <= i < positions@.len() ==> bitget_position_of(
                            asked,
                            #[trigger] wanted_position_rows(asked, rows)[i],
                            positions@[i],
                        ),
                    Err(e) => rejected(position_rejections(rows), ExchangeId::Bitget, e),
                },
            }
        }),
{
    let ghost asked = match instrument {
        Some(i) => Some(*i),
        None => None,
    };
    let ghost original = items_spec(raw);
    let mut items = match owned_items(raw, ExchangeId::Bitget, "Bitget positions response") {
        Ok(items) => items,
        Err(e) => return Err(e),
    };
    let ghost rows = items@;
    let symbol = match instrument {
        Some(i) => Some(i.symbol_for(ExchangeId::Bitget)),
        None => None,
    };
    let mut positions: Vec<Position> = Vec::new();
    let mut k: usize = 0;
    let n = items.len();
    assert(rows.skip(0) =~= rows);
    while items.len() > 0
        invariant
            n == rows.len(),
            original == items_spec(raw),
            original == Some(rows),
            k + items@.len() == rows.len(),
            items@ == rows.skip(k as int),
            asked == match instrument {
                Some(i) => Some(*i),
                None => None,
            },
            match symbol {
                Some(s) => asked matches Some(i) && s@ == i.symbol_spec(ExchangeId::Bitget),
                None => asked is None,
            },
            forall|j: int| 0 <= j < k ==> (#[trigger] rows[j]) is Object,
            positions@.len() == wanted_position_rows(asked, rows.take(k as int)).len(),
            forall|j: int|
                0 <= j < positions@.len() ==> bitget_position_of(
                    asked,
                    #[trigger] wanted_position_rows(asked, rows.take(k as int))[j],
                    positions@[j],
                ),
        decreases items@.len(),
    {
        let row = items.remove(0);
        assert(row == rows[k as int]);
        assert(rows.take(k + 1).drop_last() =~= rows.take(k as int));
        assert(rows.take(k + 1).last() == rows[k as int]);
        let wanted = match &row {
            JsonValue::Object(e) => match &symbol {
                Some(s) => {
                    let here = match string_field(e, "symbol") {
                        Some(v) => v,
                        None => String::new(),
                    };
                    text_eq(here.as_str(), s.as_str())
                },
                None => true,
            },
            _ => {
                let err = Error::Adapter {
                    exchange: ExchangeId::Bitget,
                    message: owned("Bitget position item is not an object"),
                };
                assert(forall|j: int| 0 <= j < k ==> #[trigger] position_rejections(rows)[j] is None);
                assert(first_rejected(position_rejections(rows), ExchangeId::Bitget, k as int, err));
                return Err(err);
            },
        };
        if wanted {
            if let JsonValue::Object(entries) = row {
                positions.push(bitget_position(instrument, entries));
            }
        }
        k += 1;
        assert(items@ =~= rows.skip(k as int));
    }
    assert(rows.take(k as int) =~= rows);
    Ok(positions)
}

} // verus!
