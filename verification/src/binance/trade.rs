
//! Binance USD-M futures trading: order requests, orders, fills, positions,
//! account settings, balances and announcements.
use crate::account::{
    Balance, LeverageSetting, PositionMode, PositionModeSetting, SetLeverageRequest,
    SetPositionModeRequest, SetSymbolMarginModeRequest, SymbolMarginModeSetting,
};
use crate::binance::{instrument_from_linear_symbol, is_linear_instrument};
use crate::error::{Error, Result};
use crate::exchange::ExchangeId;
use crate::fill::{Fill, FillListQuery};
use crate::instrument::{duplicate_opt, Instrument};
use crate::json::{
    first_rejected, first_str_field, first_string_field, first_u64, first_u64_field, items_spec,
    json_get, obj_get, obj_lookup, obj_take, object_rejections, or_else, or_empty, owned_items,
    rejected, str_field, string_field, u64_field, u64_field_spec, JsonValue,
};
use crate::order::{Order, OrderListQuery};
use crate::platform::{PlatformEvent, PlatformEventQuery};
use crate::position::Position;
use crate::text::{concat, copy_opt, copy_string, opt_view, owned, parse_u32, parse_u32_spec, parse_u64, parse_u64_spec, text_eq, text_is_empty, to_ascii_uppercase, ascii_upper};
use crate::trade::{CancelOrderRequest, OrderAck, OrderType, PlaceOrderRequest, TimeInForce};
use vstd::prelude::*;

verus! {

broadcast use vstd::std_specs::vec::group_vec_axioms;

/// The role of a trade from its `maker` flag.
pub open spec fn maker_role_spec(value: Option<JsonValue>) -> Option<Seq<char>> {
    match value {
        Some(JsonValue::Bool(true)) => Some("maker"@),
        Some(JsonValue::Bool(false)) => Some("taker"@),
        _ => None,
    }
}

/// The role of a trade from its `maker` flag (`maker` or `taker`).
pub fn maker_role(value: Option<&JsonValue>) -> (r: Option<String>)
    ensures
        opt_view(r) == maker_role_spec(match value { Some(v) => Some(*v), None => None }),
{
    match value {
        Some(JsonValue::Bool(true)) => Some(owned("maker")),
        Some(JsonValue::Bool(false)) => Some(owned("taker")),
        _ => None,
    }
}

/// Whether a position row is kept: with an instrument asked for, only rows of
/// its Binance symbol are.
pub open spec fn binance_position_wanted(instrument: Option<Instrument>, row: JsonValue) -> bool {
    match row {
        JsonValue::Object(e) => match instrument {
            Some(i) => or_empty(str_field(e@, "symbol"@)) == i.symbol_spec(ExchangeId::Binance),
            None => true,
        },
        _ => false,
    }
}

/// The kept rows, in order.
pub open spec fn wanted_binance_rows(instrument: Option<Instrument>, rows: Seq<JsonValue>) -> Seq<
    JsonValue,
>
    decreases rows.len(),
{
    if rows.len() == 0 {
        Seq::empty()
    } else {
        let before = wanted_binance_rows(instrument, rows.drop_last());
        if binance_position_wanted(instrument, rows.last()) {
            before.push(rows.last())
        } else {
            before
        }
    }
}

/// `p` is the position of a kept row: of the instrument asked for, else of
/// the row's linear symbol.
pub open spec fn binance_position_of(instrument: Option<Instrument>, row: JsonValue, p: Position) -> bool {
    match row {
        JsonValue::Object(e) => {
            let symbol = or_empty(str_field(e@, "symbol"@));
            &&& p.exchange == ExchangeId::Binance
            &&& p.exchange_symbol@ == symbol
            &&& match instrument {
                Some(i) => p.instrument.same_as(i),
                None => is_linear_instrument(p.instrument, symbol),
            }
            &&& opt_view(p.side) == str_field(e@, "positionSide"@)
            &&& p.size@ == or_empty(str_field(e@, "positionAmt"@))
            &&& opt_view(p.entry_price) == str_field(e@, "entryPrice"@)
            &&& opt_view(p.mark_price) == str_field(e@, "markPrice"@)
            &&& opt_view(p.unrealized_pnl) == or_else(
                str_field(e@, "unRealizedProfit"@),
                str_field(e@, "unrealizedProfit"@),
            )
            &&& opt_view(p.leverage) == str_field(e@, "leverage"@)
            &&& opt_view(p.margin_mode) == str_field(e@, "marginType"@)
            &&& opt_view(p.liquidation_price) == str_field(e@, "liquidationPrice"@)
            &&& p.raw.model() == row.model()
        },
        _ => false,
    }
}

pub open spec fn binance_position_rejections(rows: Seq<JsonValue>) -> Seq<Option<Seq<char>>> {
    Seq::new(
        rows.len(),
        |i: int|
            match rows[i] {
                JsonValue::Object(_) => None,
                _ => Some("Binance position item is not an object"@),
            },
    )
}

fn binance_position(instrument: Option<&Instrument>, entries: Vec<(String, JsonValue)>) -> (r: Position)
    ensures
        binance_position_of(
            match instrument {
                Some(i) => Some(*i),
                None => None,
            },
            JsonValue::Object(entries),
            r,
        ),
{
    let e = &entries;
    let exchange_symbol = match string_field(e, "symbol") {
        Some(s) => s,
        None => String::new(),
    };
    let mapped = match instrument {
        Some(i) => i.duplicate(),
        None => instrument_from_linear_symbol(exchange_symbol.as_str()),
    };
    let side = string_field(e, "positionSide");
    let size = match string_field(e, "positionAmt") {
        Some(s) => s,
        None => String::new(),
    };
    let entry_price = string_field(e, "entryPrice");
    let mark_price = string_field(e, "markPrice");
    let unrealized_pnl = match string_field(e, "unRealizedProfit") {
        Some(s) => Some(s),
        None => string_field(e, "unrealizedProfit"),
    };
    let leverage = string_field(e, "leverage");
    let margin_mode = string_field(e, "marginType");
    let liquidation_price = string_field(e, "liquidationPrice");
    Position {
        exchange: ExchangeId::Binance,
        instrument: mapped,
        exchange_symbol,
        side,
        size,
        entry_price,
        mark_price,
        unrealized_pnl,
        leverage,
        margin_mode,
        liquidation_price,
        raw: JsonValue::Object(entries),
    }
}

/// The positions of a Binance all-positions answer, only those of `instrument`
/// when one is given; an item that is not an object fails the answer.
pub fn binance_positions_from_value(raw: JsonValue, instrument: Option<&Instrument>) -> (r: Result<
    Vec<Position>,
>)
    ensures
        ({
            let asked = match instrument {
                Some(i) => Some(*i),
                None => None,
            };
            match items_spec(raw) {
                None => r matches Err(e) && e.is_adapter(
                    ExchangeId::Binance,
                    "Binance positions response"@ + " is neither an array nor an object"@,
                ),
                Some(rows) => match r {
                    Ok(positions) => (forall|i: int|
                        0 <= i < rows.len() ==> (#[trigger] rows[i]) is Object) && positions@.len()
                        == wanted_binance_rows(asked, rows).len() && forall|i: int|
                        0 <= i < positions@.len() ==> binance_position_of(
                            asked,
                            #[trigger] wanted_binance_rows(asked, rows)[i],
                            positions@[i],
                        ),
                    Err(e) => rejected(binance_position_rejections(rows), ExchangeId::Binance, e),
                },
            }
        }),
{
    let ghost asked = match instrument {
        Some(i) => Some(*i),
        None => None,
    };
    let ghost original = items_spec(raw);
    let mut items = match owned_items(raw, ExchangeId::Binance, "Binance positions response") {
        Ok(items) => items,
        Err(e) => return Err(e),
    };
    let ghost rows = items@;
    let symbol = match instrument {
        Some(i) => Some(i.symbol_for(ExchangeId::Binance)),
        None => None,
    };
    let mut positions: Vec<Position> = Vec::new();
    let mut k: usize = 0;
    let n = items.len();
    assert(rows.skip(0) =~= rows);
    while items.len() > 0
        invariant
            n == rows.len(),
            original == items_spec(raw),
            original == Some(rows),
            k + items@.len() == rows.len(),
            items@ == rows.skip(k as int),
            asked == match instrument {
                Some(i) => Some(*i),
                None => None,
            },
            match symbol {
                Some(s) => asked matches Some(i) && s@ == i.symbol_spec(ExchangeId::Binance),
                None => asked is None,
            },
            forall|j: int| 0 <= j < k ==> (#[trigger] rows[j]) is Object,
            positions@.len() == wanted_binance_rows(asked, rows.take(k as int)).len(),
            forall|j: int|
                0 <= j < positions@.len() ==> binance_position_of(
                    asked,
                    #[trigger] wanted_binance_rows(asked, rows.take(k as int))[j],
                    positions@[j],
                ),
        decreases items@.len(),
    {
        let row = items.remove(0);
        assert(row == rows[k as int]);
        assert(rows.take(k + 1).drop_last() =~= rows.take(k as int));
        assert(rows.take(k + 1).last() == rows[k as int]);
        let wanted = match &row {
            JsonValue::Object(e) => match &symbol {
                Some(s) => {
                    let here = match string_field(e, "symbol") {
                        Some(v) => v,
                        None => String::new(),
                    };
                    text_eq(here.as_str(), s.as_str())
                },
                None => true,
            },
            _ => {
                let err = Error::Adapter {
                    exchange: ExchangeId::Binance,
                    message: owned("Binance position item is not an object"),
                };
                assert(forall|j: int| 0 <= j < k ==> #[trigger] binance_position_rejections(rows)[j] is None);
                assert(first_rejected(binance_position_rejections(rows), ExchangeId::Binance, k as int, err));
                return Err(err);
            },
        };
        if wanted {
            if let JsonValue::Object(entries) = row {
                positions.push(binance_position(instrument, entries));
            }
        }
        k += 1;
        assert(items@ =~= rows.skip(k as int));
    }
    assert(rows.take(k as int) =~= rows);
    Ok(positions)
}

/// `o` is the order read from an item (see `binance_order_from_value`).
pub open spec fn binance_order_from_value_of(
    instrument: Option<Instrument>,
    symbol_hint: Option<String>,
    label: &str,
    raw: JsonValue,
    o: Order,
) -> bool {
    match raw {
        JsonValue::Object(e) => {
            &&& o.exchange == ExchangeId::Binance
            &&& o.exchange_symbol@ == or_empty(or_else(str_field(e@, "symbol"@), opt_view(symbol_hint)))
            &&& match instrument { Some(i) => o.instrument.same_as(i), None => is_linear_instrument(o.instrument, o.exchange_symbol@) }
            &&& opt_view(o.order_id) == str_field(e@, "orderId"@)
            &&& opt_view(o.client_order_id) == str_field(e@, "clientOrderId"@)
            &&& opt_view(o.side) == str_field(e@, "side"@)
            &&& opt_view(o.order_type) == str_field(e@, "type"@)
            &&& opt_view(o.price) == str_field(e@, "price"@)
            &&& opt_view(o.size) == first_str_field(e@, seq!["origQty", "quantity"])
            &&& opt_view(o.filled_size) == first_str_field(e@, seq!["executedQty", "cumQty", "filledQty"])
            &&& opt_view(o.average_price) == first_str_field(e@, seq!["avgPrice", "averagePrice"])
            &&& opt_view(o.status) == str_field(e@, "status"@)
            &&& o.created_at == u64_field_spec(e@, "time"@)
            &&& o.updated_at == u64_field_spec(e@, "updateTime"@)
            &&& o.raw == raw
        },
        _ => false,
    }
}

/// One Binance order; `label` names the item in the error when it is not an
/// object.
pub fn binance_order_from_value(
    instrument: Option<Instrument>,
    symbol_hint: Option<String>,
    label: &str,
    raw: JsonValue,
) -> (r: Result<Order>)
    ensures
        raw is Object ==> (r matches Ok(o) && binance_order_from_value_of(instrument, symbol_hint, label, raw, o)),
        !(raw is Object) ==> (r matches Err(err) && err.is_adapter(ExchangeId::Binance, label@ + " is not an object"@)),
{
    let e = match &raw {
        JsonValue::Object(e) => e,
        _ => return Err(Error::Adapter { exchange: ExchangeId::Binance, message: concat(label, " is not an object") }),
    };
    let exchange_symbol = match string_field(e, "symbol") {
        Some(s) => s,
        None => match symbol_hint {
            Some(h) => h,
            None => String::new(),
        },
    };
    let mapped = match instrument {
        Some(i) => i,
        None => instrument_from_linear_symbol(exchange_symbol.as_str()),
    };
    let exchange = ExchangeId::Binance;
    let exchange_symbol = exchange_symbol;
    let instrument = mapped;
    let order_id = string_field(e, "orderId");
    let client_order_id = string_field(e, "clientOrderId");
    let side = string_field(e, "side");
    let order_type = string_field(e, "type");
    let price = string_field(e, "price");
    let size = { let k = ["origQty", "quantity"]; assert(k@ =~= seq!["origQty", "quantity"]); first_string_field(e, &k) };
    let filled_size = { let k = ["executedQty", "cumQty", "filledQty"]; assert(k@ =~= seq!["executedQty", "cumQty", "filledQty"]); first_string_field(e, &k) };
    let average_price = { let k = ["avgPrice", "averagePrice"]; assert(k@ =~= seq!["avgPrice", "averagePrice"]); first_string_field(e, &k) };
    let status = string_field(e, "status");
    let created_at = u64_field(e, "time");
    let updated_at = u64_field(e, "updateTime");
    Ok(Order { exchange, exchange_symbol, instrument, order_id, client_order_id, side, order_type, price, size, filled_size, average_price, status, created_at, updated_at, raw: raw })
}

/// The orders of a Binance order-list answer; `label` names the answer.
pub fn binance_orders_from_value(
    instrument: &Option<Instrument>,
    symbol_hint: Option<String>,
    raw: JsonValue,
    label: &str,
) -> (r: Result<Vec<Order>>)
    ensures
        match items_spec(raw) {
            None => r matches Err(e) && e.is_adapter(ExchangeId::Binance, label@ + " is neither an array nor an object"@),
            Some(items) => match r {
                Ok(out) => out@.len() == items.len() && forall|i: int|
                    0 <= i < items.len() ==> binance_order_from_value_of(*instrument, symbol_hint, "Binance order item", #[trigger] items[i], out@[i]),
                Err(e) => rejected(object_rejections(items, ("Binance order item"@ + " is not an object"@)), ExchangeId::Binance, e),
            },
        },
{
    let ghost original = items_spec(raw);
    let mut items = match owned_items(raw, ExchangeId::Binance, label) {
        Ok(items) => items,
        Err(e) => return Err(e),
    };
    let ghost all = items@;
    let mut out: Vec<Order> = Vec::new();
    let mut k: usize = 0;
    let n = items.len();
    assert(all.skip(0) =~= all);
    while items.len() > 0
        invariant
            n == all.len(),
            original == items_spec(raw),
            original == Some(all),
            k + items@.len() == all.len(),
            items@ == all.skip(k as int),
            out@.len() == k,
            forall|j: int| 0 <= j < k ==> binance_order_from_value_of(*instrument, symbol_hint, "Binance order item", #[trigger] all[j], out@[j]),
        decreases items@.len(),
    {
        let item = items.remove(0);
        assert(item == all[k as int]);
        let ghost item_view = item;
        let inst = duplicate_opt(instrument);
        let hint = copy_opt(&symbol_hint);
        match binance_order_from_value(inst, hint, "Binance order item", item) {
            Ok(o) => out.push(o),
            Err(e) => {
                let ghost rej = object_rejections(all, ("Binance order item"@ + " is not an object"@));
                assert(!(item_view is Object));
                assert(forall|j: int| 0 <= j < k ==> #[trigger] rej[j] is None);
                assert(first_rejected(rej, ExchangeId::Binance, k as int, e));
                assert(rejected(rej, ExchangeId::Binance, e));
                return Err(e);
            },
        }
        k += 1;
        assert(items@ =~= all.skip(k as int));
    }
    Ok(out)
}

/// `o` is the fill read from an item (see `binance_fill_from_value`).
pub open spec fn binance_fill_from_value_of(
    instrument: Instrument,
    symbol_hint: String,
    raw: JsonValue,
    o: Fill,
) -> bool {
    match raw {
        JsonValue::Object(e) => {
            &&& o.exchange == ExchangeId::Binance
            &&& o.instrument.same_as(instrument)
            &&& o.exchange_symbol@ == (match str_field(e@, "symbol"@) { Some(s) => s, None => symbol_hint@ })
            &&& opt_view(o.trade_id) == str_field(e@, "id"@)
            &&& opt_view(o.order_id) == str_field(e@, "orderId"@)
            &&& opt_view(o.side) == str_field(e@, "side"@)
            &&& opt_view(o.price) == str_field(e@, "price"@)
            &&& opt_view(o.size) == first_str_field(e@, seq!["qty", "quantity"])
            &&& opt_view(o.fee) == str_field(e@, "commission"@)
            &&& opt_view(o.fee_asset) == str_field(e@, "commissionAsset"@)
            &&& opt_view(o.role) == maker_role_spec(obj_get(e@, "maker"@))
            &&& o.timestamp == u64_field_spec(e@, "time"@)
            &&& o.raw == raw
        },
        _ => false,
    }
}

/// One Binance trade of the account (`maker` gives the role).
pub fn binance_fill_from_value(
    instrument: Instrument,
    symbol_hint: String,
    raw: JsonValue,
) -> (r: Result<Fill>)
    ensures
        raw is Object ==> (r matches Ok(o) && binance_fill_from_value_of(instrument, symbol_hint, raw, o)),
        !(raw is Object) ==> (r matches Err(err) && err.is_adapter(ExchangeId::Binance, "Binance fill item is not an object"@)),
{
    let e = match &raw {
        JsonValue::Object(e) => e,
        _ => return Err(Error::Adapter { exchange: ExchangeId::Binance, message: owned("Binance fill item is not an object") }),
    };
    let exchange = ExchangeId::Binance;
    let instrument = instrument;
    let exchange_symbol = match string_field(e, "symbol") { Some(s) => s, None => symbol_hint };
    let trade_id = string_field(e, "id");
    let order_id = string_field(e, "orderId");
    let side = string_field(e, "side");
    let price = string_field(e, "price");
    let size = { let k = ["qty", "quantity"]; assert(k@ =~= seq!["qty", "quantity"]); first_string_field(e, &k) };
    let fee = string_field(e, "commission");
    let fee_asset = string_field(e, "commissionAsset");
    let role = maker_role(obj_lookup(e, "maker"));
    let timestamp = u64_field(e, "time");
    Ok(Fill { exchange, instrument, exchange_symbol, trade_id, order_id, side, price, size, fee, fee_asset, role, timestamp, raw: raw })
}

/// The fills of a Binance trade-list answer; `label` names the answer.
pub fn binance_fills_from_value(
    instrument: &Instrument,
    symbol_hint: String,
    raw: JsonValue,
    label: &str,
) -> (r: Result<Vec<Fill>>)
    ensures
        match items_spec(raw) {
            None => r matches Err(e) && e.is_adapter(ExchangeId::Binance, label@ + " is neither an array nor an object"@),
            Some(items) => match r {
                Ok(out) => out@.len() == items.len() && forall|i: int|
                    0 <= i < items.len() ==> binance_fill_from_value_of(*instrument, symbol_hint, #[trigger] items[i], out@[i]),
                Err(e) => rejected(object_rejections(items, "Binance fill item is not an object"@), ExchangeId::Binance, e),
            },
        },
{
    let ghost original = items_spec(raw);
    let mut items = match owned_items(raw, ExchangeId::Binance, label) {
        Ok(items) => items,
        Err(e) => return Err(e),
    };
    let ghost all = items@;
    let mut out: Vec<Fill> = Vec::new();
    let mut k: usize = 0;
    let n = items.len();
    assert(all.skip(0) =~= all);
    while items.len() > 0
        invariant
            n == all.len(),
            original == items_spec(raw),
            original == Some(all),
            k + items@.len() == all.len(),
            items@ == all.skip(k as int),
            out@.len() == k,
            forall|j: int| 0 <= j < k ==> binance_fill_from_value_of(*instrument, symbol_hint, #[trigger] all[j], out@[j]),
        decreases items@.len(),
    {
        let item = items.remove(0);
        assert(item == all[k as int]);
        let ghost item_view = item;
        let inst = instrument.duplicate();
        let hint = copy_string(&symbol_hint);
        match binance_fill_from_value(inst, hint, item) {
            Ok(o) => out.push(o),
            Err(e) => {
                let ghost rej = object_rejections(all, "Binance fill item is not an object"@);
                assert(!(item_view is Object));
                assert(forall|j: int| 0 <= j < k ==> #[trigger] rej[j] is None);
                assert(first_rejected(rej, ExchangeId::Binance, k as int, e));
                assert(rejected(rej, ExchangeId::Binance, e));
                return Err(e);
            },
        }
        k += 1;
        assert(items@ =~= all.skip(k as int));
    }
    Ok(out)
}

/// `o` is the orderack read from an item (see `order_ack_from_value`).
pub open spec fn order_ack_from_value_of(
    instrument: Instrument,
    exchange_symbol: String,
    label: &str,
    raw: JsonValue,
    o: OrderAck,
) -> bool {
    match raw {
        JsonValue::Object(e) => {
            &&& o.exchange == ExchangeId::Binance
            &&& o.instrument == instrument
            &&& o.exchange_symbol == exchange_symbol
            &&& opt_view(o.order_id) == str_field(e@, "orderId"@)
            &&& opt_view(o.client_order_id) == str_field(e@, "clientOrderId"@)
            &&& opt_view(o.status) == str_field(e@, "status"@)
            &&& o.raw == raw
        },
        _ => false,
    }
}

/// The acknowledgement of a Binance order or cancel answer; `label` names
/// the answer in the error when it is not an object.
pub fn order_ack_from_value(
    instrument: Instrument,
    exchange_symbol: String,
    label: &str,
    raw: JsonValue,
) -> (r: Result<OrderAck>)
    ensures
        raw is Object ==> (r matches Ok(o) && order_ack_from_value_of(instrument, exchange_symbol, label, raw, o)),
        !(raw is Object) ==> (r matches Err(err) && err.is_adapter(ExchangeId::Binance, label@ + " is not an object"@)),
{
    let e = match &raw {
        JsonValue::Object(e) => e,
        _ => return Err(Error::Adapter { exchange: ExchangeId::Binance, message: concat(label, " is not an object") }),
    };
    let exchange = ExchangeId::Binance;
    let instrument = instrument;
    let exchange_symbol = exchange_symbol;
    let order_id = string_field(e, "orderId");
    let client_order_id = string_field(e, "clientOrderId");
    let status = string_field(e, "status");
    Ok(OrderAck { exchange, instrument, exchange_symbol, order_id, client_order_id, status, raw: raw })
}

/// `o` is the leveragesetting read from an item (see `binance_leverage_setting_from_value`).
pub open spec fn binance_leverage_setting_from_value_of(
    instrument: Instrument,
    symbol_hint: String,
    request: SetLeverageRequest,
    raw: JsonValue,
    o: LeverageSetting,
) -> bool {
    match raw {
        JsonValue::Object(e) => {
            &&& o.exchange == ExchangeId::Binance
            &&& o.instrument == instrument
            &&& o.exchange_symbol@ == (match str_field(e@, "symbol"@) { Some(s) => s, None => symbol_hint@ })
            &&& o.leverage@ == (match str_field(e@, "leverage"@) { Some(s) => s, None => request.leverage@ })
            &&& o.margin_mode is None
            &&& opt_view(o.margin_coin) == opt_view(request.margin_coin)
            &&& opt_view(o.position_side) == opt_view(request.position_side)
            &&& o.raw == raw
        },
        _ => false,
    }
}

/// The leverage setting of a Binance change-leverage answer; what it leaves
/// out is what the request asked for.
pub fn binance_leverage_setting_from_value(
    instrument: Instrument,
    symbol_hint: String,
    request: SetLeverageRequest,
    raw: JsonValue,
) -> (r: Result<LeverageSetting>)
    ensures
        raw is Object ==> (r matches Ok(o) && binance_leverage_setting_from_value_of(instrument, symbol_hint, request, raw, o)),
        !(raw is Object) ==> (r matches Err(err) && err.is_adapter(ExchangeId::Binance, "Binance leverage response is not an object"@)),
{
    let e = match &raw {
        JsonValue::Object(e) => e,
        _ => return Err(Error::Adapter { exchange: ExchangeId::Binance, message: owned("Binance leverage response is not an object") }),
    };
    let exchange = ExchangeId::Binance;
    let instrument = instrument;
    let exchange_symbol = match string_field(e, "symbol") { Some(s) => s, None => symbol_hint };
    let leverage = match string_field(e, "leverage") { Some(s) => s, None => copy_string(&request.leverage) };
    let margin_mode = None;
    let margin_coin = copy_opt(&request.margin_coin);
    let position_side = copy_opt(&request.position_side);
    Ok(LeverageSetting { exchange, instrument, exchange_symbol, leverage, margin_mode, margin_coin, position_side, raw: raw })
}

/// The Binance time in force of an order (good-till-cancel when none is
/// asked for; post-only is `GTX`).
pub open spec fn binance_tif_spec(value: Option<TimeInForce>) -> Seq<char> {
    match value {
        Some(TimeInForce::Ioc) => "IOC"@,
        Some(TimeInForce::Fok) => "FOK"@,
        Some(TimeInForce::PostOnly) => "GTX"@,
        _ => "GTC"@,
    }
}

/// The Binance time in force of an order.
pub fn binance_time_in_force(value: Option<TimeInForce>) -> (r: &'static str)
    ensures
        r@ == binance_tif_spec(value),
{
    match value {
        Some(TimeInForce::Ioc) => "IOC",
        Some(TimeInForce::Fok) => "FOK",
        Some(TimeInForce::PostOnly) => "GTX",
        _ => "GTC",
    }
}

/// A Binance new-order request.
#[derive(Debug, Clone, PartialEq, Eq)]
pub struct BinanceNewOrderRequest {
    pub symbol: String,
    pub side: String,
    pub order_type: String,
    pub quantity: String,
    pub price: Option<String>,
    pub time_in_force: Option<String>,
    pub position_side: Option<String>,
    pub reduce_only: Option<bool>,
    pub new_client_order_id: Option<String>,
}

/// The Binance `type` of an order type (`LIMIT`, `MARKET`).
pub open spec fn binance_order_type_spec(order_type: OrderType) -> Seq<char> {
    match order_type {
        OrderType::Limit => "LIMIT"@,
        OrderType::Market => "MARKET"@,
    }
}

/// The Binance request of an order: a limit order carries its price and
/// time in force, a market order neither; the position side is upper-cased.
/// Binance places stop losses as separate protective orders, so a request
/// with an attached stop loss is refused as unsupported rather than sent
/// without it; a limit order without a price is refused.
pub fn binance_place_order_request(request: &PlaceOrderRequest) -> (r: Result<BinanceNewOrderRequest>)
    ensures
        request.attached_stop_loss_price is Some ==> (r matches Err(e) && e.is_unsupported(
            ExchangeId::Binance,
            "attached stop loss on place_order"@,
        )),
        request.attached_stop_loss_price is None && request.order_type == OrderType::Limit
            && request.price is None ==> (r matches Err(e)
            && e.is_adapter(ExchangeId::Binance, "limit orders require price"@)),
        request.attached_stop_loss_price is None && !(request.order_type == OrderType::Limit
            && request.price is None) ==> (r matches Ok(b) && {
            &&& b.symbol@ == request.instrument.symbol_spec(ExchangeId::Binance)
            &&& b.side@ == request.side.upper_spec()
            &&& b.quantity@ == request.size@
            &&& b.order_type@ == binance_order_type_spec(request.order_type)
            &&& opt_view(b.price) == (match request.order_type {
                OrderType::Limit => opt_view(request.price),
                OrderType::Market => None,
            })
            &&& opt_view(b.time_in_force) == (match request.order_type {
                OrderType::Limit => Some(binance_tif_spec(request.time_in_force)),
                OrderType::Market => None,
            })
            &&& opt_view(b.position_side) == (match request.position_side {
                Some(p) => Some(ascii_upper(p@)),
                None => None,
            })
            &&& b.reduce_only == request.reduce_only
            &&& opt_view(b.new_client_order_id) == opt_view(request.client_order_id)
        }),
{
    if request.attached_stop_loss_price.is_some() {
        return Err(
            Error::Unsupported { exchange: ExchangeId::Binance, capability: "attached stop loss on place_order" },
        );
    }
    let symbol = request.instrument.symbol_for(ExchangeId::Binance);
    let (order_type, price, time_in_force) = match request.order_type {
        OrderType::Limit => {
            let price = match &request.price {
                Some(p) => copy_string(p),
                None => return Err(
                    Error::Adapter { exchange: ExchangeId::Binance, message: owned("limit orders require price") },
                ),
            };
            (owned("LIMIT"), Some(price), Some(owned(binance_time_in_force(request.time_in_force))))
        },
        OrderType::Market => (owned("MARKET"), None, None),
    };
    Ok(
        BinanceNewOrderRequest {
            symbol,
            side: owned(request.side.upper()),
            order_type,
            quantity: copy_string(&request.size),
            price,
            time_in_force,
            position_side: match &request.position_side {
                Some(p) => Some(to_ascii_uppercase(p.as_str())),
                None => None,
            },
            reduce_only: request.reduce_only,
            new_client_order_id: copy_opt(&request.client_order_id),
        },
    )
}

/// A Binance request that names one order, by id or by client id.
#[derive(Debug, Clone, PartialEq, Eq)]
pub struct BinanceOrderIdRequest {
    pub symbol: String,
    pub order_id: Option<u64>,
    pub orig_client_order_id: Option<String>,
}

/// The Binance request naming an order: by its numeric id when one is
/// given (a non-numeric id is refused), else by client id; with neither,
/// the adapter error `missing`.
pub open spec fn order_id_request_of(
    symbol: Seq<char>,
    order_id: Option<Seq<char>>,
    client_order_id: Option<Seq<char>>,
    missing: Seq<char>,
    r: Result<BinanceOrderIdRequest>,
) -> bool {
    match order_id {
        Some(id) => match parse_u64_spec(id) {
            Some(n) => r matches Ok(b) && b.symbol@ == symbol && b.order_id == Some(n)
                && b.orig_client_order_id is None,
            None => r matches Err(e) && e.is_adapter(
                ExchangeId::Binance,
                "Binance order_id must be numeric: "@ + id,
            ),
        },
        None => match client_order_id {
            Some(c) => r matches Ok(b) && b.symbol@ == symbol && b.order_id is None && opt_view(
                b.orig_client_order_id,
            ) == Some(c),
            None => r matches Err(e) && e.is_adapter(ExchangeId::Binance, missing),
        },
    }
}

fn order_id_request(symbol: &str, order_id: &Option<String>, client_order_id: &Option<String>, missing: &str) -> (r:
    Result<BinanceOrderIdRequest>)
    ensures
        order_id_request_of(symbol@, opt_view(*order_id), opt_view(*client_order_id), missing@, r),
{
    match order_id {
        Some(id) => match parse_u64(id.as_str()) {
            Some(n) => Ok(BinanceOrderIdRequest { symbol: owned(symbol), order_id: Some(n), orig_client_order_id: None }),
            None => Err(
                Error::Adapter {
                    exchange: ExchangeId::Binance,
                    message: concat("Binance order_id must be numeric: ", id.as_str()),
                },
            ),
        },
        None => match client_order_id {
            Some(c) => Ok(
                BinanceOrderIdRequest {
                    symbol: owned(symbol),
                    order_id: None,
                    orig_client_order_id: Some(copy_string(c)),
                },
            ),
            None => Err(Error::Adapter { exchange: ExchangeId::Binance, message: owned(missing) }),
        },
    }
}

/// The Binance request naming the order of an order query.
pub fn binance_order_id_request(symbol: &str, order_id: Option<String>, client_order_id: Option<String>) -> (r:
    Result<BinanceOrderIdRequest>)
    ensures
        order_id_request_of(
            symbol@,
            opt_view(order_id),
            opt_view(client_order_id),
            "order query requires order_id or client_order_id"@,
            r,
        ),
{
    order_id_request(symbol, &order_id, &client_order_id, "order query requires order_id or client_order_id")
}

/// The Binance request naming the order of a cancel.
pub fn binance_cancel_request(request: &CancelOrderRequest) -> (r: Result<BinanceOrderIdRequest>)
    ensures
        order_id_request_of(
            request.instrument.symbol_spec(ExchangeId::Binance),
            opt_view(request.order_id),
            opt_view(request.client_order_id),
            "cancel_order requires order_id or client_order_id"@,
            r,
        ),
{
    let symbol = request.instrument.symbol_for(ExchangeId::Binance);
    order_id_request(
        symbol.as_str(),
        &request.order_id,
        &request.client_order_id,
        "cancel_order requires order_id or client_order_id",
    )
}

/// A numeric filter of a Binance list query; other text is refused.
pub fn parse_u64_filter(field: &str, value: &str) -> (r: Result<u64>)
    ensures
        match parse_u64_spec(value@) {
            Some(n) => r == Ok::<u64, Error>(n),
            None => r matches Err(e) && e.is_adapter(
                ExchangeId::Binance,
                "Binance "@ + field@ + " filter must be numeric: "@ + value@,
            ),
        },
{
    match parse_u64(value) {
        Some(n) => Ok(n),
        None => {
            let a = concat("Binance ", field);
            let b = concat(a.as_str(), " filter must be numeric: ");
            Err(Error::Adapter { exchange: ExchangeId::Binance, message: concat(b.as_str(), value) })
        },
    }
}

/// A Binance order or trade list request.
#[derive(Debug, Clone, PartialEq, Eq)]
pub struct BinanceOrderListRequest {
    pub symbol: String,
    pub order_id: Option<u64>,
    pub from_id: Option<u64>,
    pub start_time: Option<u64>,
    pub end_time: Option<u64>,
    pub limit: Option<u32>,
}

/// The Binance all-orders request of an order history query, with the
/// instrument it needs; `after` is a numeric order id to start from.
pub fn binance_order_history_request(query: &OrderListQuery) -> (r: Result<(Instrument, BinanceOrderListRequest)>)
    ensures
        query.instrument is None ==> (r matches Err(e) && e.is_adapter(
            ExchangeId::Binance,
            "Binance order history requires an instrument"@,
        )),
        query.instrument matches Some(i) ==> match query.after {
            Some(a) if parse_u64_spec(a@) is None => r matches Err(e) && e.is_adapter(
                ExchangeId::Binance,
                "Binance "@ + "after"@ + " filter must be numeric: "@ + a@,
            ),
            _ => r matches Ok((inst, b)) && {
                &&& inst.same_as(i)
                &&& b.symbol@ == i.symbol_spec(ExchangeId::Binance)
                &&& b.order_id is None
                &&& b.from_id == (match query.after {
                    Some(a) => parse_u64_spec(a@),
                    None => None,
                })
                &&& b.start_time == query.start_time
                &&& b.end_time == query.end_time
                &&& b.limit == query.limit
            },
        },
{
    let instrument = match &query.instrument {
        Some(i) => i.duplicate(),
        None => return Err(
            Error::Adapter {
                exchange: ExchangeId::Binance,
                message: owned("Binance order history requires an instrument"),
            },
        ),
    };
    let from_id = match &query.after {
        Some(a) => match parse_u64_filter("after", a.as_str()) {
            Ok(n) => Some(n),
            Err(e) => return Err(e),
        },
        None => None,
    };
    let symbol = instrument.symbol_for(ExchangeId::Binance);
    Ok(
        (
            instrument,
            BinanceOrderListRequest {
                symbol,
                order_id: None,
                from_id,
                start_time: query.start_time,
                end_time: query.end_time,
                limit: query.limit,
            },
        ),
    )
}

/// The Binance trade-list request of a fill query, with the instrument it
/// needs; the order id and `after` are numeric.
pub fn binance_fill_request(query: &FillListQuery) -> (r: Result<(Instrument, BinanceOrderListRequest)>)
    ensures
        query.instrument is None ==> (r matches Err(e) && e.is_adapter(
            ExchangeId::Binance,
            "Binance fills require an instrument"@,
        )),
        query.instrument matches Some(i) ==> (
        if query.order_id matches Some(o) && parse_u64_spec(o@) is None {
            r matches Err(e) && e.is_adapter(
                ExchangeId::Binance,
                "Binance "@ + "order_id"@ + " filter must be numeric: "@ + query.order_id->0@,
            )
        } else if query.after matches Some(a) && parse_u64_spec(a@) is None {
            r matches Err(e) && e.is_adapter(
                ExchangeId::Binance,
                "Binance "@ + "after"@ + " filter must be numeric: "@ + query.after->0@,
            )
        } else {
            r matches Ok((inst, b)) && {
                &&& inst.same_as(i)
                &&& b.symbol@ == i.symbol_spec(ExchangeId::Binance)
                &&& b.order_id == (match query.order_id {
                    Some(o) => parse_u64_spec(o@),
                    None => None,
                })
                &&& b.from_id == (match query.after {
                    Some(a) => parse_u64_spec(a@),
                    None => None,
                })
                &&& b.start_time == query.start_time
                &&& b.end_time == query.end_time
                &&& b.limit == query.limit
            }
        }),
{
    let instrument = match &query.instrument {
        Some(i) => i.duplicate(),
        None => return Err(
            Error::Adapter {
                exchange: ExchangeId::Binance,
                message: owned("Binance fills require an instrument"),
            },
        ),
    };
    let order_id = match &query.order_id {
        Some(o) => match parse_u64_filter("order_id", o.as_str()) {
            Ok(n) => Some(n),
            Err(e) => return Err(e),
        },
        None => None,
    };
    let from_id = match &query.after {
        Some(a) => match parse_u64_filter("after", a.as_str()) {
            Ok(n) => Some(n),
            Err(e) => return Err(e),
        },
        None => None,
    };
    let symbol = instrument.symbol_for(ExchangeId::Binance);
    Ok(
        (
            instrument,
            BinanceOrderListRequest {
                symbol,
                order_id,
                from_id,
                start_time: query.start_time,
                end_time: query.end_time,
                limit: query.limit,
            },
        ),
    )
}

/// The leverage of a Binance change-leverage request: a whole number, else
/// refused.
pub fn binance_leverage_value(request: &SetLeverageRequest) -> (r: Result<u32>)
    ensures
        match parse_u32_spec(request.leverage@) {
            Some(n) => r == Ok::<u32, Error>(n),
            None => r matches Err(e) && e.is_adapter(
                ExchangeId::Binance,
                "Binance leverage must be a positive integer: "@ + request.leverage@,
            ),
        },
{
    match parse_u32(request.leverage.as_str()) {
        Some(n) => Ok(n),
        None => Err(
            Error::Adapter {
                exchange: ExchangeId::Binance,
                message: concat("Binance leverage must be a positive integer: ", request.leverage.as_str()),
            },
        ),
    }
}

/// The position mode setting of a Binance position-mode answer: hedge mode
/// is dual-side positions (`true`).
pub fn binance_position_mode_setting(request: SetPositionModeRequest, raw: JsonValue) -> (r: PositionModeSetting)
    ensures
        r.exchange == ExchangeId::Binance,
        r.mode == request.mode,
        opt_view(r.raw_mode) == Some(
            if request.mode == PositionMode::Hedge {
                "true"@
            } else {
                "false"@
            },
        ),
        r.product_type == request.product_type,
        r.raw == raw,
{
    let dual = match request.mode {
        PositionMode::Hedge => true,
        PositionMode::OneWay => false,
    };
    PositionModeSetting {
        exchange: ExchangeId::Binance,
        mode: request.mode,
        raw_mode: Some(owned(if dual { "true" } else { "false" })),
        product_type: request.product_type,
        raw,
    }
}

/// The margin mode setting of a Binance margin-type answer for `symbol`;
/// `raw_mode` is the Binance margin type that was sent.
pub fn binance_symbol_margin_mode_setting(request: SetSymbolMarginModeRequest, symbol: String, raw_mode: String, raw: JsonValue) -> (r:
    SymbolMarginModeSetting)
    ensures
        r.exchange == ExchangeId::Binance,
        r.instrument == request.instrument,
        r.exchange_symbol == symbol,
        r.mode == request.mode,
        r.raw_mode == Some(raw_mode),
        r.product_type == request.product_type,
        r.margin_coin == request.margin_coin,
        r.raw == raw,
{
    SymbolMarginModeSetting {
        exchange: ExchangeId::Binance,
        instrument: request.instrument,
        exchange_symbol: symbol,
        mode: request.mode,
        raw_mode: Some(raw_mode),
        product_type: request.product_type,
        margin_coin: request.margin_coin,
        raw,
    }
}

/// A Binance futures balance, as the balance answer gives it.
#[derive(Debug, Clone, PartialEq, Eq)]
pub struct BinanceFuturesBalance {
    pub asset: String,
    pub balance: String,
    pub available_balance: String,
    pub cross_un_pnl: String,
}

/// The balance of a Binance futures balance row: the cross unrealized
/// profit stands as the frozen part when there is one; `raw` is the row as
/// the answer wrote it.
pub fn binance_balance_from_row(row: BinanceFuturesBalance, raw: JsonValue) -> (r: Balance)
    ensures
        r.exchange == ExchangeId::Binance,
        r.asset == row.asset,
        r.total == row.balance,
        r.available == row.available_balance,
        opt_view(r.frozen) == (if row.cross_un_pnl@.len() > 0 {
            Some(row.cross_un_pnl@)
        } else {
            None
        }),
        r.raw == raw,
{
    let frozen = if text_is_empty(row.cross_un_pnl.as_str()) {
        None
    } else {
        Some(row.cross_un_pnl)
    };
    Balance {
        exchange: ExchangeId::Binance,
        asset: row.asset,
        total: row.balance,
        available: row.available_balance,
        frozen,
        raw,
    }
}

/// Binance announcements take only a page and a page size.
pub fn ensure_binance_announcements_query(query: &PlatformEventQuery) -> (r: Result<()>)
    ensures
        (query.locale is Some || query.event_type is Some || query.tag is Some || query.id is Some
            || query.state is Some) ==> (r matches Err(e) && e.is_unsupported(
            ExchangeId::Binance,
            "platform announcements filters"@,
        )),
        !(query.locale is Some || query.event_type is Some || query.tag is Some || query.id is Some
            || query.state is Some) ==> r is Ok,
{
    if query.locale.is_some() || query.event_type.is_some() || query.tag.is_some() || query.id.is_some()
        || query.state.is_some() {
        return Err(
            Error::Unsupported { exchange: ExchangeId::Binance, capability: "platform announcements filters" },
        );
    }
    Ok(())
}

/// A Binance latest-announcements request.
#[derive(Debug, Clone, PartialEq, Eq)]
pub struct BinanceAnnouncementRequest {
    pub page: Option<u32>,
    pub page_size: Option<u32>,
}

/// The Binance announcement request of a query: its page, and its limit as
/// the page size.
pub fn binance_announcement_request(query: &PlatformEventQuery) -> (r: BinanceAnnouncementRequest)
    ensures
        r.page == query.page,
        r.page_size == query.limit,
{
    BinanceAnnouncementRequest { page: query.page, page_size: query.limit }
}

/// `ev` is the event of a Binance announcement article.
pub open spec fn binance_announcement_of(raw: JsonValue, ev: PlatformEvent) -> bool {
    let e = match raw {
        JsonValue::Object(e) => e@,
        _ => Seq::empty(),
    };
    &&& ev.exchange == ExchangeId::Binance
    &&& ev.event_type@ == "announcement"@
    &&& opt_view(ev.event_id) == first_str_field(e, seq!["id", "articleId"])
    &&& opt_view(ev.title) == str_field(e, "title"@)
    &&& ev.status is None
    &&& opt_view(ev.url) == first_str_field(e, seq!["url", "articleUrl"])
    &&& ev.start_time is None
    &&& ev.end_time is None
    &&& ev.published_at == first_u64_field(e, seq!["releaseDate", "publishDate", "publishedAt"])
    &&& ev.raw == raw
}

/// The event of one Binance announcement article.
pub fn binance_announcement_event(raw: JsonValue) -> (r: PlatformEvent)
    ensures
        binance_announcement_of(raw, r),
{
    let empty: Vec<(String, JsonValue)> = Vec::new();
    let (event_id, title, url, published_at) = {
        let e = match &raw {
            JsonValue::Object(e) => e,
            _ => &empty,
        };
        let k1 = ["id", "articleId"];
        assert(k1@ =~= seq!["id", "articleId"]);
        let k2 = ["url", "articleUrl"];
        assert(k2@ =~= seq!["url", "articleUrl"]);
        let k3 = ["releaseDate", "publishDate", "publishedAt"];
        assert(k3@ =~= seq!["releaseDate", "publishDate", "publishedAt"]);
        assert(empty@ =~= Seq::<(String, JsonValue)>::empty());
        (first_string_field(e, &k1), string_field(e, "title"), first_string_field(e, &k2), first_u64(e, &k3))
    };
    PlatformEvent {
        exchange: ExchangeId::Binance,
        event_type: owned("announcement"),
        event_id,
        title,
        status: None,
        url,
        start_time: None,
        end_time: None,
        published_at,
        raw,
    }
}

/// The articles of a Binance announcement answer: `data.articles`, else
/// `articles` (none when neither is an array).
pub open spec fn binance_articles(raw: JsonValue) -> Seq<JsonValue> {
    let nested = match json_get(raw, "data"@) {
        Some(d) => json_get(d, "articles"@),
        None => None,
    };
    let found = match nested {
        Some(v) => Some(v),
        None => json_get(raw, "articles"@),
    };
    match found {
        Some(JsonValue::Array(v)) => v@,
        _ => Seq::empty(),
    }
}

fn take_articles(raw: JsonValue) -> (r: Vec<JsonValue>)
    ensures
        r@ == binance_articles(raw),
{
    let members = match raw {
        JsonValue::Object(m) => m,
        _ => return Vec::new(),
    };
    let nested_present = match obj_lookup(&members, "data") {
        Some(JsonValue::Object(d)) => match obj_lookup(d, "articles") {
            Some(_) => true,
            None => false,
        },
        _ => false,
    };
    if nested_present {
        match obj_take(members, "data") {
            Some(JsonValue::Object(d)) => match obj_take(d, "articles") {
                Some(JsonValue::Array(v)) => v,
                _ => Vec::new(),
            },
            _ => Vec::new(),
        }
    } else {
        match obj_take(members, "articles") {
            Some(JsonValue::Array(v)) => v,
            _ => Vec::new(),
        }
    }
}

/// The events of the articles of a Binance announcement answer.
pub fn binance_announcement_events(raw: JsonValue) -> (r: Vec<PlatformEvent>)
    ensures
        r@.len() == binance_articles(raw).len(),
        forall|i: int|
            0 <= i < r@.len() ==> binance_announcement_of(binance_articles(raw)[i], #[trigger] r@[i]),
{
    let ghost all = binance_articles(raw);
    let mut items = take_articles(raw);
    let mut out: Vec<PlatformEvent> = Vec::new();
    let mut k: usize = 0;
    let n0 = items.len();
    assert(all.skip(0) =~= all);
    while items.len() > 0
        invariant
            all == binance_articles(raw),
            n0 == all.len(),
            k + items@.len() == all.len(),
            items@ == all.skip(k as int),
            out@.len() == k,
            forall|j: int| 0 <= j < k ==> binance_announcement_of(all[j], #[trigger] out@[j]),
        decreases items@.len(),
    {
        let item = items.remove(0);
        assert(item == all[k as int]);
        out.push(binance_announcement_event(item));
        k += 1;
        assert(items@ =~= all.skip(k as int));
    }
    out
}

} // verus!
