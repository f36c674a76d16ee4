//! Hyperliquid fills and orders.
use crate::error::{Error, Result};
use crate::exchange::ExchangeId;
use crate::fill::Fill;
use crate::instrument::{Instrument, MarketType};
use crate::json::{obj_get, obj_lookup, or_else, or_empty, str2, str_field, string_field, string_field2, u64_field, u64_field_spec, JsonValue};
use crate::order::Order;
use crate::text::{ascii_upper, opt_view, owned, text_eq};
use vstd::prelude::*;

verus! {

broadcast use vstd::std_specs::vec::group_vec_axioms;

/// `instrument` is the USDC perpetual of a coin.
pub open spec fn is_coin_perp(instrument: Instrument, coin: Seq<char>) -> bool {
    &&& instrument.base@ == ascii_upper(coin)
    &&& instrument.quote@ == ascii_upper("USDC"@)
    &&& instrument.market_type == MarketType::Perpetual
    &&& instrument.settlement is None
}

/// The side of a Hyperliquid side code.
pub open spec fn hl_side(value: Seq<char>) -> Option<Seq<char>> {
    if value == "B"@ || value == "buy"@ || value == "Buy"@ {
        Some("buy"@)
    } else if value == "A"@ || value == "S"@ || value == "sell"@ || value == "Sell"@ {
        Some("sell"@)
    } else {
        None
    }
}

/// The side of a Hyperliquid side code (`B`/`A`, or written out).
pub fn hyperliquid_side(value: &str) -> (r: Option<String>)
    ensures
        opt_view(r) == hl_side(value@),
{
    if text_eq(value, "B") || text_eq(value, "buy") || text_eq(value, "Buy") {
        Some(owned("buy"))
    } else if text_eq(value, "A") || text_eq(value, "S") || text_eq(value, "sell") || text_eq(value, "Sell") {
        Some(owned("sell"))
    } else {
        None
    }
}

/// The side of an item's `side` member.
pub open spec fn side_member(e: Seq<(String, JsonValue)>) -> Option<Seq<char>> {
    match str_field(e, "side"@) {
        Some(v) => hl_side(v),
        None => None,
    }
}

fn side_member_of(e: &Vec<(String, JsonValue)>) -> (r: Option<String>)
    ensures
        opt_view(r) == side_member(e@),
{
    match string_field(e, "side") {
        Some(v) => hyperliquid_side(v.as_str()),
        None => None,
    }
}

/// `o` is the fill read from an item (see `hyperliquid_fill_from_value`).
pub open spec fn hyperliquid_fill_from_value_of(
    exchange: ExchangeId,
    instrument: Option<Instrument>,
    raw: JsonValue,
    o: Fill,
) -> bool {
    match raw {
        JsonValue::Object(e) => {
            &&& o.exchange == exchange
            &&& match instrument { Some(i) => o.instrument == i, None => is_coin_perp(o.instrument, or_empty(str_field(e@, "coin"@))) }
            &&& o.exchange_symbol@ == or_empty(str_field(e@, "coin"@))
            &&& opt_view(o.trade_id) == str_field(e@, "tid"@)
            &&& opt_view(o.order_id) == str_field(e@, "oid"@)
            &&& opt_view(o.side) == side_member(e@)
            &&& opt_view(o.price) == str_field(e@, "px"@)
            &&& opt_view(o.size) == str_field(e@, "sz"@)
            &&& opt_view(o.fee) == str_field(e@, "fee"@)
            &&& opt_view(o.fee_asset) == str_field(e@, "feeToken"@)
            &&& opt_view(o.role) == str_field(e@, "dir"@)
            &&& o.timestamp == u64_field_spec(e@, "time"@)
            &&& o.raw.model() == raw.model()
        },
        _ => false,
    }
}

/// One fill of a Hyperliquid user-fills answer.
pub fn hyperliquid_fill_from_value(
    exchange: ExchangeId,
    instrument: Option<Instrument>,
    raw: &JsonValue,
) -> (r: Result<Fill>)
    ensures
        *raw is Object ==> (r matches Ok(o) && hyperliquid_fill_from_value_of(exchange, instrument, *raw, o)),
        !(*raw is Object) ==> (r matches Err(err) && err.is_adapter(exchange, "Hyperliquid fill item is not an object"@)),
{
    let e = match raw {
        JsonValue::Object(e) => e,
        _ => return Err(Error::Adapter { exchange: exchange, message: owned("Hyperliquid fill item is not an object") }),
    };
    let coin = match string_field(e, "coin") {
        Some(c) => c,
        None => String::new(),
    };
    let exchange = exchange;
    let instrument = match instrument { Some(i) => i, None => Instrument::perp(coin.as_str(), "USDC") };
    let exchange_symbol = coin;
    let trade_id = string_field(e, "tid");
    let order_id = string_field(e, "oid");
    let side = side_member_of(e);
    let price = string_field(e, "px");
    let size = string_field(e, "sz");
    let fee = string_field(e, "fee");
    let fee_asset = string_field(e, "feeToken");
    let role = string_field(e, "dir");
    let timestamp = u64_field(e, "time");
    Ok(Fill { exchange, instrument, exchange_symbol, trade_id, order_id, side, price, size, fee, fee_asset, role, timestamp, raw: raw.copy() })
}

/// The original and the resting size of a Hyperliquid order item (`origSz`,
/// else `sz`; and `sz`), from which its filled size is worked out.
pub fn hyperliquid_order_sizes(raw: &JsonValue) -> (r: (Option<String>, Option<String>))
    ensures
        match *raw {
            JsonValue::Object(e) => opt_view(r.0) == str2(e@, "origSz"@, "sz"@) && opt_view(r.1)
                == str_field(e@, "sz"@),
            _ => r.0 is None && r.1 is None,
        },
{
    match raw {
        JsonValue::Object(e) => (string_field2(e, "origSz", "sz"), string_field(e, "sz")),
        _ => (None, None),
    }
}

/// `o` is the order read from an item (see `hyperliquid_order_from_value`).
pub open spec fn hyperliquid_order_from_value_of(
    exchange: ExchangeId,
    instrument: Option<Instrument>,
    status: Option<String>,
    filled_size: Option<String>,
    raw: JsonValue,
    o: Order,
) -> bool {
    match raw {
        JsonValue::Object(e) => {
            &&& o.exchange == exchange
            &&& match instrument { Some(i) => o.instrument == i, None => is_coin_perp(o.instrument, or_empty(str_field(e@, "coin"@))) }
            &&& o.exchange_symbol@ == or_empty(str_field(e@, "coin"@))
            &&& opt_view(o.order_id) == str_field(e@, "oid"@)
            &&& opt_view(o.client_order_id) == str2(e@, "cloid"@, "clientOrderId"@)
            &&& opt_view(o.side) == side_member(e@)
            &&& opt_view(o.order_type) == str2(e@, "orderType"@, "tif"@)
            &&& opt_view(o.price) == str_field(e@, "limitPx"@)
            &&& opt_view(o.size) == str2(e@, "origSz"@, "sz"@)
            &&& o.filled_size == filled_size
            &&& o.average_price is None
            &&& o.status == status
            &&& o.created_at == u64_field_spec(e@, "timestamp"@)
            &&& o.updated_at == u64_field_spec(e@, "statusTimestamp"@)
            &&& o.raw == raw
        },
        _ => false,
    }
}

/// One Hyperliquid order; `status` is what the answer around it says, and
/// `filled_size` the original size less the resting size, which the caller
/// works out (see `hyperliquid_order_sizes`).
pub fn hyperliquid_order_from_value(
    exchange: ExchangeId,
    instrument: Option<Instrument>,
    status: Option<String>,
    filled_size: Option<String>,
    raw: JsonValue,
) -> (r: Result<Order>)
    ensures
        raw is Object ==> (r matches Ok(o) && hyperliquid_order_from_value_of(exchange, instrument, status, filled_size, raw, o)),
        !(raw is Object) ==> (r matches Err(err) && err.is_adapter(exchange, "Hyperliquid order item is not an object"@)),
{
    let e = match &raw {
        JsonValue::Object(e) => e,
        _ => return Err(Error::Adapter { exchange: exchange, message: owned("Hyperliquid order item is not an object") }),
    };
    let coin = match string_field(e, "coin") {
        Some(c) => c,
        None => String::new(),
    };
    let exchange = exchange;
    let instrument = match instrument { Some(i) => i, None => Instrument::perp(coin.as_str(), "USDC") };
    let exchange_symbol = coin;
    let order_id = string_field(e, "oid");
    let client_order_id = string_field2(e, "cloid", "clientOrderId");
    let side = side_member_of(e);
    let order_type = string_field2(e, "orderType", "tif");
    let price = string_field(e, "limitPx");
    let size = string_field2(e, "origSz", "sz");
    let filled_size = filled_size;
    let average_price = None;
    let status = status;
    let created_at = u64_field(e, "timestamp");
    let updated_at = u64_field(e, "statusTimestamp");
    Ok(Order { exchange, instrument, exchange_symbol, order_id, client_order_id, side, order_type, price, size, filled_size, average_price, status, created_at, updated_at, raw: raw })
}

/// The order of an `orderStatus` answer, with the answer's status.
pub fn hyperliquid_order_from_status_response(
    exchange: ExchangeId,
    instrument: Instrument,
    raw: &JsonValue,
    filled_size: Option<String>,
) -> (r: Result<Order>)
    ensures
        !(*raw is Object) ==> (r matches Err(e) && e.is_adapter(
            exchange,
            "Hyperliquid orderStatus response is not an object"@,
        )),
        *raw matches JsonValue::Object(e) ==> match obj_get(e@, "order"@) {
            None => r matches Err(err) && err.is_adapter(
                exchange,
                "Hyperliquid orderStatus response missing order"@,
            ),
            Some(order) => if order is Object {
                r matches Ok(o) && opt_view(o.status) == str_field(e@, "status"@) && o.raw.model()
                    == order.model() && hyperliquid_order_from_value_of(
                    exchange,
                    Some(instrument),
                    o.status,
                    filled_size,
                    o.raw,
                    o,
                )
            } else {
                r matches Err(err) && err.is_adapter(exchange, "Hyperliquid order item is not an object"@)
            },
        },
{
    let e = match raw {
        JsonValue::Object(e) => e,
        _ => return Err(
            Error::Adapter {
                exchange,
                message: owned("Hyperliquid orderStatus response is not an object"),
            },
        ),
    };
    let status = string_field(e, "status");
    let order = match obj_lookup(e, "order") {
        Some(order) => order.copy(),
        None => return Err(
            Error::Adapter {
                exchange,
                message: owned("Hyperliquid orderStatus response missing order"),
            },
        ),
    };
    hyperliquid_order_from_value(exchange, Some(instrument), status, filled_size, order)
}

/// One item of a `historicalOrders` answer: its order, with the item's
/// status, the item's status time when it has one, and the whole item as
/// the raw value.
pub fn hyperliquid_order_from_history_item(
    exchange: ExchangeId,
    instrument: Option<Instrument>,
    raw: &JsonValue,
    filled_size: Option<String>,
) -> (r: Result<Order>)
    ensures
        !(*raw is Object) ==> (r matches Err(e) && e.is_adapter(
            exchange,
            "Hyperliquid historicalOrders item is not an object"@,
        )),
        *raw matches JsonValue::Object(e) ==> match obj_get(e@, "order"@) {
            None => r matches Err(err) && err.is_adapter(
                exchange,
                "Hyperliquid historicalOrders item missing order"@,
            ),
            Some(order) => if order is Object {
                r matches Ok(o) && exists|mapped: Order| {
                    &&& mapped.raw.model() == order.model()
                    &&& #[trigger] hyperliquid_order_from_value_of(
                        exchange,
                        instrument,
                        mapped.status,
                        filled_size,
                        mapped.raw,
                        mapped,
                    )
                    &&& opt_view(mapped.status) == str_field(e@, "status"@)
                    &&& o == Order {
                        updated_at: or_else(u64_field_spec(e@, "statusTimestamp"@), mapped.updated_at),
                        raw: o.raw,
                        ..mapped
                    }
                    &&& o.raw.model() == raw.model()
                }
            } else {
                r matches Err(err) && err.is_adapter(exchange, "Hyperliquid order item is not an object"@)
            },
        },
{
    let e = match raw {
        JsonValue::Object(e) => e,
        _ => return Err(
            Error::Adapter {
                exchange,
                message: owned("Hyperliquid historicalOrders item is not an object"),
            },
        ),
    };
    let status = string_field(e, "status");
    let status_timestamp = u64_field(e, "statusTimestamp");
    let order = match obj_lookup(e, "order") {
        Some(order) => order.copy(),
        None => return Err(
            Error::Adapter {
                exchange,
                message: owned("Hyperliquid historicalOrders item missing order"),
            },
        ),
    };
    let mut mapped = match hyperliquid_order_from_value(exchange, instrument, status, filled_size, order) {
        Ok(o) => o,
        Err(err) => return Err(err),
    };
    let ghost first = mapped;
    mapped.updated_at = match status_timestamp {
        Some(t) => Some(t),
        None => mapped.updated_at,
    };
    mapped.raw = raw.copy();
    assert(hyperliquid_order_from_value_of(exchange, instrument, first.status, filled_size, first.raw, first));
    Ok(mapped)
}

} // verus!
