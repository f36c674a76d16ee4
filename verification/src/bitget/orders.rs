//! Bitget V2 futures trading answers: orders, fills, order books, candles
//! and account settings.
use crate::account::{LeverageSetting, PositionMode, PositionModeSetting, SetLeverageRequest, SetPositionModeRequest, SymbolMarginModeSetting};
use crate::binance::{instrument_from_linear_symbol, is_linear_instrument};
use crate::error::{Error, Result};
use crate::exchange::ExchangeId;
use crate::fill::Fill;
use crate::instrument::{duplicate_opt, Instrument};
use crate::json::{
    first_rejected, first_str_field, first_string_field, first_u64, first_u64_field, listed_items,
    listed_items_of, obj_get, obj_lookup, object_rejections, or_else, or_empty, rejected, str_field,
    string_field, text_at, u64_at, value_string_at, value_u64_at, JsonValue,
};
use crate::margin::MarginMode;
use crate::market::{Candle, OrderBook, OrderBookLevel};
use crate::order::Order;
use crate::trade::OrderAck;
use crate::text::{concat, concat3, copy_opt, copy_string, opt_view, owned};
use vstd::prelude::*;

verus! {

broadcast use vstd::std_specs::vec::group_vec_axioms;

/// `o` is the order read from an item (see `bitget_order_from_value`).
pub open spec fn bitget_order_from_value_of(
    instrument: Option<Instrument>,
    symbol_hint: Option<String>,
    label: &str,
    raw: JsonValue,
    o: Order,
) -> bool {
    match raw {
        JsonValue::Object(e) => {
            &&& o.exchange == ExchangeId::Bitget
            &&& o.exchange_symbol@ == or_empty(or_else(first_str_field(e@, seq!["symbol", "instId"]), opt_view(symbol_hint)))
            &&& match instrument { Some(i) => o.instrument.same_as(i), None => is_linear_instrument(o.instrument, o.exchange_symbol@) }
            &&& opt_view(o.order_id) == first_str_field(e@, seq!["orderId", "ordId"])
            &&& opt_view(o.client_order_id) == first_str_field(e@, seq!["clientOid", "clientOrderId", "clOrdId"])
            &&& opt_view(o.side) == str_field(e@, "side"@)
            &&& opt_view(o.order_type) == first_str_field(e@, seq!["orderType", "ordType"])
            &&& opt_view(o.price) == str_field(e@, "price"@)
            &&& opt_view(o.size) == first_str_field(e@, seq!["size", "sz", "origQty"])
            &&& opt_view(o.filled_size) == first_str_field(e@, seq!["baseVolume", "filledQty", "filledSize", "fillSz"])
            &&& opt_view(o.average_price) == first_str_field(e@, seq!["priceAvg", "avgPrice", "averagePrice"])
            &&& opt_view(o.status) == first_str_field(e@, seq!["status", "state"])
            &&& o.created_at == first_u64_field(e@, seq!["cTime", "time"])
            &&& o.updated_at == first_u64_field(e@, seq!["uTime", "updateTime"])
            &&& o.raw == raw
        },
        _ => false,
    }
}

/// One Bitget order; `label` names the item in the error when it is not an
/// object.
pub fn bitget_order_from_value(
    instrument: Option<Instrument>,
    symbol_hint: Option<String>,
    label: &str,
    raw: JsonValue,
) -> (r: Result<Order>)
    ensures
        raw is Object ==> (r matches Ok(o) && bitget_order_from_value_of(instrument, symbol_hint, label, raw, o)),
        !(raw is Object) ==> (r matches Err(err) && err.is_adapter(ExchangeId::Bitget, label@ + " is not an object"@)),
{
    let e = match &raw {
        JsonValue::Object(e) => e,
        _ => return Err(Error::Adapter { exchange: ExchangeId::Bitget, message: concat(label, " is not an object") }),
    };
    let exchange_symbol = match { let k = ["symbol", "instId"]; assert(k@ =~= seq!["symbol", "instId"]); first_string_field(e, &k) } {
        Some(s) => s,
        None => match symbol_hint {
            Some(h) => h,
            None => String::new(),
        },
    };
    let mapped = match instrument {
        Some(i) => i,
        None => instrument_from_linear_symbol(exchange_symbol.as_str()),
    };
    let exchange = ExchangeId::Bitget;
    let exchange_symbol = exchange_symbol;
    let instrument = mapped;
    let order_id = { let k = ["orderId", "ordId"]; assert(k@ =~= seq!["orderId", "ordId"]); first_string_field(e, &k) };
    let client_order_id = { let k = ["clientOid", "clientOrderId", "clOrdId"]; assert(k@ =~= seq!["clientOid", "clientOrderId", "clOrdId"]); first_string_field(e, &k) };
    let side = string_field(e, "side");
    let order_type = { let k = ["orderType", "ordType"]; assert(k@ =~= seq!["orderType", "ordType"]); first_string_field(e, &k) };
    let price = string_field(e, "price");
    let size = { let k = ["size", "sz", "origQty"]; assert(k@ =~= seq!["size", "sz", "origQty"]); first_string_field(e, &k) };
    let filled_size = { let k = ["baseVolume", "filledQty", "filledSize", "fillSz"]; assert(k@ =~= seq!["baseVolume", "filledQty", "filledSize", "fillSz"]); first_string_field(e, &k) };
    let average_price = { let k = ["priceAvg", "avgPrice", "averagePrice"]; assert(k@ =~= seq!["priceAvg", "avgPrice", "averagePrice"]); first_string_field(e, &k) };
    let status = { let k = ["status", "state"]; assert(k@ =~= seq!["status", "state"]); first_string_field(e, &k) };
    let created_at = { let k = ["cTime", "time"]; assert(k@ =~= seq!["cTime", "time"]); first_u64(e, &k) };
    let updated_at = { let k = ["uTime", "updateTime"]; assert(k@ =~= seq!["uTime", "updateTime"]); first_u64(e, &k) };
    Ok(Order { exchange, exchange_symbol, instrument, order_id, client_order_id, side, order_type, price, size, filled_size, average_price, status, created_at, updated_at, raw: raw })
}

/// The orders of a Bitget order-list answer (`entrustedList`, `orderList`,
/// `list` or `orders` of an object).
pub fn bitget_orders_from_value(
    instrument: &Option<Instrument>,
    symbol_hint: Option<String>,
    raw: JsonValue,
    label: &str,
) -> (r: Result<Vec<Order>>)
    ensures
        match listed_items(raw, seq!["entrustedList", "orderList", "list", "orders"]) {
            None => r matches Err(e) && e.is_adapter(ExchangeId::Bitget, label@ + " is neither an array nor an object"@),
            Some(items) => match r {
                Ok(out) => out@.len() == items.len() && forall|i: int|
                    0 <= i < items.len() ==> bitget_order_from_value_of(*instrument, symbol_hint, "Bitget order item", #[trigger] items[i], out@[i]),
                Err(e) => rejected(object_rejections(items, ("Bitget order item"@ + " is not an object"@)), ExchangeId::Bitget, e),
            },
        },
{
    let keys = ["entrustedList", "orderList", "list", "orders"];
    assert(keys@ =~= seq!["entrustedList", "orderList", "list", "orders"]);
    let ghost original = listed_items(raw, seq!["entrustedList", "orderList", "list", "orders"]);
    let mut items = match listed_items_of(raw, ExchangeId::Bitget, label, &keys) {
        Ok(items) => items,
        Err(e) => return Err(e),
    };
    let ghost all = items@;
    let mut out: Vec<Order> = Vec::new();
    let mut k: usize = 0;
    let n = items.len();
    assert(all.skip(0) =~= all);
    while items.len() > 0
        invariant
            n == all.len(),
            original == listed_items(raw, seq!["entrustedList", "orderList", "list", "orders"]),
            original == Some(all),
            k + items@.len() == all.len(),
            items@ == all.skip(k as int),
            out@.len() == k,
            forall|j: int| 0 <= j < k ==> bitget_order_from_value_of(*instrument, symbol_hint, "Bitget order item", #[trigger] all[j], out@[j]),
        decreases items@.len(),
    {
        let item = items.remove(0);
        assert(item == all[k as int]);
        let ghost item_view = item;
        let inst = duplicate_opt(instrument);
        let hint = copy_opt(&symbol_hint);
        match bitget_order_from_value(inst, hint, "Bitget order item", item) {
            Ok(o) => out.push(o),
            Err(e) => {
                let ghost rej = object_rejections(all, ("Bitget order item"@ + " is not an object"@));
                assert(!(item_view is Object));
                assert(forall|j: int| 0 <= j < k ==> #[trigger] rej[j] is None);
                assert(first_rejected(rej, ExchangeId::Bitget, k as int, e));
                assert(rejected(rej, ExchangeId::Bitget, e));
                return Err(e);
            },
        }
        k += 1;
        assert(items@ =~= all.skip(k as int));
    }
    Ok(out)
}

/// `o` is the fill read from an item (see `bitget_fill_from_value`).
pub open spec fn bitget_fill_from_value_of(
    instrument: Option<Instrument>,
    symbol_hint: Option<String>,
    raw: JsonValue,
    o: Fill,
) -> bool {
    match raw {
        JsonValue::Object(e) => {
            &&& o.exchange == ExchangeId::Bitget
            &&& o.exchange_symbol@ == or_empty(or_else(first_str_field(e@, seq!["symbol", "instId"]), opt_view(symbol_hint)))
            &&& match instrument { Some(i) => o.instrument.same_as(i), None => is_linear_instrument(o.instrument, o.exchange_symbol@) }
            &&& opt_view(o.trade_id) == first_str_field(e@, seq!["tradeId", "fillId", "id"])
            &&& opt_view(o.order_id) == first_str_field(e@, seq!["orderId", "ordId"])
            &&& opt_view(o.side) == str_field(e@, "side"@)
            &&& opt_view(o.price) == str_field(e@, "price"@)
            &&& opt_view(o.size) == first_str_field(e@, seq!["baseVolume", "fillSz", "size", "qty"])
            &&& opt_view(o.fee) == str_field(e@, "fee"@)
            &&& opt_view(o.fee_asset) == first_str_field(e@, seq!["feeCcy", "feeCoin", "feeAsset"])
            &&& opt_view(o.role) == first_str_field(e@, seq!["role", "execType"])
            &&& o.timestamp == first_u64_field(e@, seq!["cTime", "ts", "time"])
            &&& o.raw == raw
        },
        _ => false,
    }
}

/// One Bitget fill.
pub fn bitget_fill_from_value(
    instrument: Option<Instrument>,
    symbol_hint: Option<String>,
    raw: JsonValue,
) -> (r: Result<Fill>)
    ensures
        raw is Object ==> (r matches Ok(o) && bitget_fill_from_value_of(instrument, symbol_hint, raw, o)),
        !(raw is Object) ==> (r matches Err(err) && err.is_adapter(ExchangeId::Bitget, "Bitget fill item is not an object"@)),
{
    let e = match &raw {
        JsonValue::Object(e) => e,
        _ => return Err(Error::Adapter { exchange: ExchangeId::Bitget, message: owned("Bitget fill item is not an object") }),
    };
    let exchange_symbol = match { let k = ["symbol", "instId"]; assert(k@ =~= seq!["symbol", "instId"]); first_string_field(e, &k) } {
        Some(s) => s,
        None => match symbol_hint {
            Some(h) => h,
            None => String::new(),
        },
    };
    let mapped = match instrument {
        Some(i) => i,
        None => instrument_from_linear_symbol(exchange_symbol.as_str()),
    };
    let exchange = ExchangeId::Bitget;
    let exchange_symbol = exchange_symbol;
    let instrument = mapped;
    let trade_id = { let k = ["tradeId", "fillId", "id"]; assert(k@ =~= seq!["tradeId", "fillId", "id"]); first_string_field(e, &k) };
    let order_id = { let k = ["orderId", "ordId"]; assert(k@ =~= seq!["orderId", "ordId"]); first_string_field(e, &k) };
    let side = string_field(e, "side");
    let price = string_field(e, "price");
    let size = { let k = ["baseVolume", "fillSz", "size", "qty"]; assert(k@ =~= seq!["baseVolume", "fillSz", "size", "qty"]); first_string_field(e, &k) };
    let fee = string_field(e, "fee");
    let fee_asset = { let k = ["feeCcy", "feeCoin", "feeAsset"]; assert(k@ =~= seq!["feeCcy", "feeCoin", "feeAsset"]); first_string_field(e, &k) };
    let role = { let k = ["role", "execType"]; assert(k@ =~= seq!["role", "execType"]); first_string_field(e, &k) };
    let timestamp = { let k = ["cTime", "ts", "time"]; assert(k@ =~= seq!["cTime", "ts", "time"]); first_u64(e, &k) };
    Ok(Fill { exchange, exchange_symbol, instrument, trade_id, order_id, side, price, size, fee, fee_asset, role, timestamp, raw: raw })
}

/// The fills of a Bitget fill-list answer (`fillList`, `fills`, `list` or
/// `orderList` of an object).
pub fn bitget_fills_from_value(
    instrument: &Option<Instrument>,
    symbol_hint: Option<String>,
    raw: JsonValue,
    label: &str,
) -> (r: Result<Vec<Fill>>)
    ensures
        match listed_items(raw, seq!["fillList", "fills", "list", "orderList"]) {
            None => r matches Err(e) && e.is_adapter(ExchangeId::Bitget, label@ + " is neither an array nor an object"@),
            Some(items) => match r {
                Ok(out) => out@.len() == items.len() && forall|i: int|
                    0 <= i < items.len() ==> bitget_fill_from_value_of(*instrument, symbol_hint, #[trigger] items[i], out@[i]),
                Err(e) => rejected(object_rejections(items, "Bitget fill item is not an object"@), ExchangeId::Bitget, e),
            },
        },
{
    let keys = ["fillList", "fills", "list", "orderList"];
    assert(keys@ =~= seq!["fillList", "fills", "list", "orderList"]);
    let ghost original = listed_items(raw, seq!["fillList", "fills", "list", "orderList"]);
    let mut items = match listed_items_of(raw, ExchangeId::Bitget, label, &keys) {
        Ok(items) => items,
        Err(e) => return Err(e),
    };
    let ghost all = items@;
    let mut out: Vec<Fill> = Vec::new();
    let mut k: usize = 0;
    let n = items.len();
    assert(all.skip(0) =~= all);
    while items.len() > 0
        invariant
            n == all.len(),
            original == listed_items(raw, seq!["fillList", "fills", "list", "orderList"]),
            original == Some(all),
            k + items@.len() == all.len(),
            items@ == all.skip(k as int),
            out@.len() == k,
            forall|j: int| 0 <= j < k ==> bitget_fill_from_value_of(*instrument, symbol_hint, #[trigger] all[j], out@[j]),
        decreases items@.len(),
    {
        let item = items.remove(0);
        assert(item == all[k as int]);
        let ghost item_view = item;
        let inst = duplicate_opt(instrument);
        let hint = copy_opt(&symbol_hint);
        match bitget_fill_from_value(inst, hint, item) {
            Ok(o) => out.push(o),
            Err(e) => {
                let ghost rej = object_rejections(all, "Bitget fill item is not an object"@);
                assert(!(item_view is Object));
                assert(forall|j: int| 0 <= j < k ==> #[trigger] rej[j] is None);
                assert(first_rejected(rej, ExchangeId::Bitget, k as int, e));
                assert(rejected(rej, ExchangeId::Bitget, e));
                return Err(e);
            },
        }
        k += 1;
        assert(items@ =~= all.skip(k as int));
    }
    Ok(out)
}

/// `o` is the orderack read from an item (see `order_ack_from_value`).
pub open spec fn order_ack_from_value_of(
    instrument: Instrument,
    exchange_symbol: String,
    label: &str,
    raw: JsonValue,
    o: OrderAck,
) -> bool {
    match raw {
        JsonValue::Object(e) => {
            &&& o.exchange == ExchangeId::Bitget
            &&& o.instrument == instrument
            &&& o.exchange_symbol == exchange_symbol
            &&& opt_view(o.order_id) == str_field(e@, "orderId"@)
            &&& opt_view(o.client_order_id) == str_field(e@, "clientOid"@)
            &&& opt_view(o.status) == first_str_field(e@, seq!["status", "state"])
            &&& o.raw == raw
        },
        _ => false,
    }
}

/// The acknowledgement of a Bitget order or cancel answer; `label` names the
/// answer in the error when it is not an object.
pub fn order_ack_from_value(
    instrument: Instrument,
    exchange_symbol: String,
    label: &str,
    raw: JsonValue,
) -> (r: Result<OrderAck>)
    ensures
        raw is Object ==> (r matches Ok(o) && order_ack_from_value_of(instrument, exchange_symbol, label, raw, o)),
        !(raw is Object) ==> (r matches Err(err) && err.is_adapter(ExchangeId::Bitget, label@ + " is not an object"@)),
{
    let e = match &raw {
        JsonValue::Object(e) => e,
        _ => return Err(Error::Adapter { exchange: ExchangeId::Bitget, message: concat(label, " is not an object") }),
    };
    let exchange = ExchangeId::Bitget;
    let instrument = instrument;
    let exchange_symbol = exchange_symbol;
    let order_id = string_field(e, "orderId");
    let client_order_id = string_field(e, "clientOid");
    let status = { let k = ["status", "state"]; assert(k@ =~= seq!["status", "state"]); first_string_field(e, &k) };
    Ok(OrderAck { exchange, instrument, exchange_symbol, order_id, client_order_id, status, raw: raw })
}

/// `o` is the leveragesetting read from an item (see `bitget_leverage_setting_from_value`).
pub open spec fn bitget_leverage_setting_from_value_of(
    instrument: Instrument,
    symbol_hint: String,
    request: SetLeverageRequest,
    raw: JsonValue,
    o: LeverageSetting,
) -> bool {
    match raw {
        JsonValue::Object(e) => {
            &&& o.exchange == ExchangeId::Bitget
            &&& o.instrument == instrument
            &&& o.exchange_symbol@ == (match first_str_field(e@, seq!["symbol", "instId"]) { Some(s) => s, None => symbol_hint@ })
            &&& o.leverage@ == (match first_str_field(e@, seq!["leverage", "lever"]) { Some(s) => s, None => request.leverage@ })
            &&& opt_view(o.margin_mode) == or_else(first_str_field(e@, seq!["marginMode", "mgnMode"]), match request.margin_mode { Some(m) => Some(m.name()), None => None })
            &&& opt_view(o.margin_coin) == or_else(first_str_field(e@, seq!["marginCoin", "ccy"]), opt_view(request.margin_coin))
            &&& opt_view(o.position_side) == or_else(first_str_field(e@, seq!["holdSide", "posSide", "positionSide"]), opt_view(request.position_side))
            &&& o.raw == raw
        },
        _ => false,
    }
}

/// The leverage setting of a Bitget set-leverage answer; what the answer
/// leaves out is what the request asked for.
pub fn bitget_leverage_setting_from_value(
    instrument: Instrument,
    symbol_hint: String,
    request: SetLeverageRequest,
    raw: JsonValue,
) -> (r: Result<LeverageSetting>)
    ensures
        raw is Object ==> (r matches Ok(o) && bitget_leverage_setting_from_value_of(instrument, symbol_hint, request, raw, o)),
        !(raw is Object) ==> (r matches Err(err) && err.is_adapter(ExchangeId::Bitget, "Bitget leverage response is not an object"@)),
{
    let e = match &raw {
        JsonValue::Object(e) => e,
        _ => return Err(Error::Adapter { exchange: ExchangeId::Bitget, message: owned("Bitget leverage response is not an object") }),
    };
    let exchange_symbol = match { let k = ["symbol", "instId"]; assert(k@ =~= seq!["symbol", "instId"]); first_string_field(e, &k) } {
        Some(s) => s,
        None => symbol_hint,
    };
    let leverage = match { let k = ["leverage", "lever"]; assert(k@ =~= seq!["leverage", "lever"]); first_string_field(e, &k) } {
        Some(s) => s,
        None => copy_string(&request.leverage),
    };
    let margin_mode = match { let k = ["marginMode", "mgnMode"]; assert(k@ =~= seq!["marginMode", "mgnMode"]); first_string_field(e, &k) } {
        Some(s) => Some(s),
        None => match &request.margin_mode {
            Some(m) => Some(owned(m.as_str())),
            None => None,
        },
    };
    let margin_coin = match { let k = ["marginCoin", "ccy"]; assert(k@ =~= seq!["marginCoin", "ccy"]); first_string_field(e, &k) } {
        Some(s) => Some(s),
        None => copy_opt(&request.margin_coin),
    };
    let position_side = match { let k = ["holdSide", "posSide", "positionSide"]; assert(k@ =~= seq!["holdSide", "posSide", "positionSide"]); first_string_field(e, &k) } {
        Some(s) => Some(s),
        None => copy_opt(&request.position_side),
    };
    let exchange = ExchangeId::Bitget;
    let instrument = instrument;
    Ok(LeverageSetting { exchange, instrument, exchange_symbol, leverage, margin_mode, margin_coin, position_side, raw: raw })
}

/// `o` is the positionmodesetting read from an item (see `bitget_position_mode_setting_from_value`).
pub open spec fn bitget_position_mode_setting_from_value_of(
    request: SetPositionModeRequest,
    product_type: String,
    raw: JsonValue,
    o: PositionModeSetting,
) -> bool {
    match raw {
        JsonValue::Object(e) => {
            &&& o.exchange == ExchangeId::Bitget
            &&& o.mode == request.mode
            &&& opt_view(o.raw_mode) == or_else(first_str_field(e@, seq!["posMode", "positionMode"]), Some(bitget_position_mode_spec(request.mode)))
            &&& opt_view(o.product_type) == Some(product_type@)
            &&& o.raw == raw
        },
        _ => false,
    }
}

/// The position mode setting of a Bitget set-position-mode answer.
pub fn bitget_position_mode_setting_from_value(
    request: SetPositionModeRequest,
    product_type: String,
    raw: JsonValue,
) -> (r: Result<PositionModeSetting>)
    ensures
        raw is Object ==> (r matches Ok(o) && bitget_position_mode_setting_from_value_of(request, product_type, raw, o)),
        !(raw is Object) ==> (r matches Err(err) && err.is_adapter(ExchangeId::Bitget, "Bitget position mode response is not an object"@)),
{
    let e = match &raw {
        JsonValue::Object(e) => e,
        _ => return Err(Error::Adapter { exchange: ExchangeId::Bitget, message: owned("Bitget position mode response is not an object") }),
    };
    let exchange = ExchangeId::Bitget;
    let mode = request.mode;
    let raw_mode = match { let k = ["posMode", "positionMode"]; assert(k@ =~= seq!["posMode", "positionMode"]); first_string_field(e, &k) } {
        Some(s) => Some(s),
        None => Some(owned(bitget_position_mode(request.mode))),
    };
    let product_type = Some(product_type);
    Ok(PositionModeSetting { exchange, mode, raw_mode, product_type, raw: raw })
}

/// `o` is the symbolmarginmodesetting read from an item (see `bitget_symbol_margin_mode_from_value`).
pub open spec fn bitget_symbol_margin_mode_from_value_of(
    instrument: Instrument,
    symbol: String,
    mode: MarginMode,
    raw_mode: String,
    product_type: String,
    margin_coin: String,
    raw: JsonValue,
    o: SymbolMarginModeSetting,
) -> bool {
    match raw {
        JsonValue::Object(e) => {
            &&& o.exchange == ExchangeId::Bitget
            &&& o.instrument == instrument
            &&& o.exchange_symbol@ == (match first_str_field(e@, seq!["symbol", "instId"]) { Some(s) => s, None => symbol@ })
            &&& o.mode == mode
            &&& opt_view(o.raw_mode) == or_else(first_str_field(e@, seq!["marginMode", "mgnMode"]), Some(raw_mode@))
            &&& opt_view(o.product_type) == Some(product_type@)
            &&& opt_view(o.margin_coin) == or_else(first_str_field(e@, seq!["marginCoin", "ccy"]), Some(margin_coin@))
            &&& o.raw == raw
        },
        _ => false,
    }
}

/// The margin mode setting of a Bitget set-margin-mode answer for `symbol`;
/// what the answer leaves out is what was sent (`raw_mode`, `margin_coin`).
pub fn bitget_symbol_margin_mode_from_value(
    instrument: Instrument,
    symbol: String,
    mode: MarginMode,
    raw_mode: String,
    product_type: String,
    margin_coin: String,
    raw: JsonValue,
) -> (r: Result<SymbolMarginModeSetting>)
    ensures
        raw is Object ==> (r matches Ok(o) && bitget_symbol_margin_mode_from_value_of(instrument, symbol, mode, raw_mode, product_type, margin_coin, raw, o)),
        !(raw is Object) ==> (r matches Err(err) && err.is_adapter(ExchangeId::Bitget, "Bitget symbol margin mode response is not an object"@)),
{
    let e = match &raw {
        JsonValue::Object(e) => e,
        _ => return Err(Error::Adapter { exchange: ExchangeId::Bitget, message: owned("Bitget symbol margin mode response is not an object") }),
    };
    let exchange = ExchangeId::Bitget;
    let instrument = instrument;
    let exchange_symbol = match { let k = ["symbol", "instId"]; assert(k@ =~= seq!["symbol", "instId"]); first_string_field(e, &k) } {
        Some(s) => s,
        None => symbol,
    };
    let mode = mode;
    let raw_mode = match { let k = ["marginMode", "mgnMode"]; assert(k@ =~= seq!["marginMode", "mgnMode"]); first_string_field(e, &k) } {
        Some(s) => Some(s),
        None => Some(raw_mode),
    };
    let product_type = Some(product_type);
    let margin_coin = match { let k = ["marginCoin", "ccy"]; assert(k@ =~= seq!["marginCoin", "ccy"]); first_string_field(e, &k) } {
        Some(s) => Some(s),
        None => Some(margin_coin),
    };
    Ok(SymbolMarginModeSetting { exchange, instrument, exchange_symbol, mode, raw_mode, product_type, margin_coin, raw: raw })
}

/// The Bitget name of a position mode.
pub open spec fn bitget_position_mode_spec(mode: PositionMode) -> Seq<char> {
    match mode {
        PositionMode::OneWay => "one_way_mode"@,
        PositionMode::Hedge => "hedge_mode"@,
    }
}

/// The Bitget name of a position mode (`one_way_mode`, `hedge_mode`).
pub fn bitget_position_mode(mode: PositionMode) -> (r: &'static str)
    ensures
        r@ == bitget_position_mode_spec(mode),
{
    match mode {
        PositionMode::OneWay => "one_way_mode",
        PositionMode::Hedge => "hedge_mode",
    }
}

/// The levels of one side of a Bitget book: `[price, size, ...]` arrays.
pub open spec fn bitget_level_of(item: JsonValue, l: OrderBookLevel) -> bool {
    match item {
        JsonValue::Array(v) => {
            &&& l.price@ == or_empty(text_at(v@, 0))
            &&& l.size@ == or_empty(text_at(v@, 1))
            &&& l.raw.model() == item.model()
        },
        _ => false,
    }
}

/// Every item is an array.
pub open spec fn all_arrays(items: Seq<JsonValue>) -> bool {
    forall|i: int| 0 <= i < items.len() ==> #[trigger] items[i] is Array
}

/// The levels of the `side` member of a Bitget book.
pub fn bitget_book_levels(value: Option<&JsonValue>, side: &str) -> (r: Result<Vec<OrderBookLevel>>)
    ensures
        match value {
            Some(JsonValue::Array(levels)) => if all_arrays(levels@) {
                r matches Ok(out) && out@.len() == levels@.len() && forall|i: int|
                    0 <= i < levels@.len() ==> bitget_level_of(levels@[i], #[trigger] out@[i])
            } else {
                r matches Err(e) && e.is_adapter(
                    ExchangeId::Bitget,
                    "Bitget orderbook "@ + side@ + " level is not an array"@,
                )
            },
            _ => r matches Err(e) && e.is_adapter(
                ExchangeId::Bitget,
                "Bitget orderbook "@ + side@ + " is not an array"@,
            ),
        },
{
    let levels = match value {
        Some(JsonValue::Array(levels)) => levels,
        _ => return Err(
            Error::Adapter {
                exchange: ExchangeId::Bitget,
                message: concat3("Bitget orderbook ", side, " is not an array"),
            },
        ),
    };
    let mut out: Vec<OrderBookLevel> = Vec::new();
    let mut i: usize = 0;
    while i < levels.len()
        invariant
            i <= levels.len(),
            value matches Some(JsonValue::Array(l)) && l@ == levels@,
            out@.len() == i,
            forall|k: int| 0 <= k < i ==> #[trigger] levels@[k] is Array,
            forall|k: int| 0 <= k < i ==> bitget_level_of(levels@[k], #[trigger] out@[k]),
        decreases levels.len() - i,
    {
        let values = match &levels[i] {
            JsonValue::Array(values) => values,
            _ => {
                assert(!all_arrays(levels@));
                return Err(
                    Error::Adapter {
                        exchange: ExchangeId::Bitget,
                        message: concat3("Bitget orderbook ", side, " level is not an array"),
                    },
                );
            },
        };
        let price = match value_string_at(values, 0) {
            Some(p) => p,
            None => String::new(),
        };
        let size = match value_string_at(values, 1) {
            Some(z) => z,
            None => String::new(),
        };
        out.push(OrderBookLevel { price, size, raw: levels[i].copy() });
        i += 1;
    }
    Ok(out)
}

/// The order book of a Bitget depth answer (`bids`, `asks`, `ts`).
pub fn bitget_orderbook_from_value(instrument: Instrument, exchange_symbol: String, raw: JsonValue) -> (r:
    Result<OrderBook>)
    ensures
        !(raw is Object) ==> (r matches Err(e) && e.is_adapter(
            ExchangeId::Bitget,
            "Bitget orderbook response is not an object"@,
        )),
        raw matches JsonValue::Object(e) ==> match (obj_get(e@, "bids"@), obj_get(e@, "asks"@)) {
            (Some(JsonValue::Array(bids)), Some(JsonValue::Array(asks))) => if all_arrays(bids@) && all_arrays(asks@) {
                r matches Ok(book) && {
                    &&& book.exchange == ExchangeId::Bitget
                    &&& book.instrument == instrument
                    &&& book.exchange_symbol == exchange_symbol
                    &&& book.bids@.len() == bids@.len()
                    &&& forall|i: int| 0 <= i < bids@.len() ==> bitget_level_of(bids@[i], #[trigger] book.bids@[i])
                    &&& book.asks@.len() == asks@.len()
                    &&& forall|i: int| 0 <= i < asks@.len() ==> bitget_level_of(asks@[i], #[trigger] book.asks@[i])
                    &&& book.timestamp == first_u64_field(e@, seq!["ts", "time"])
                    &&& book.raw == raw
                }
            } else {
                r is Err
            },
            (Some(JsonValue::Array(bids)), _) => if all_arrays(bids@) {
                r matches Err(err) && err.is_adapter(ExchangeId::Bitget, "Bitget orderbook "@ + "asks"@ + " is not an array"@)
            } else {
                r matches Err(err) && err.is_adapter(ExchangeId::Bitget, "Bitget orderbook "@ + "bids"@ + " level is not an array"@)
            },
            _ => r matches Err(err) && err.is_adapter(ExchangeId::Bitget, "Bitget orderbook "@ + "bids"@ + " is not an array"@),
        },
{
    let e = match &raw {
        JsonValue::Object(e) => e,
        _ => return Err(
            Error::Adapter {
                exchange: ExchangeId::Bitget,
                message: owned("Bitget orderbook response is not an object"),
            },
        ),
    };
    let bids = match bitget_book_levels(obj_lookup(e, "bids"), "bids") {
        Ok(v) => v,
        Err(err) => return Err(err),
    };
    let asks = match bitget_book_levels(obj_lookup(e, "asks"), "asks") {
        Ok(v) => v,
        Err(err) => return Err(err),
    };
    let keys = ["ts", "time"];
    assert(keys@ =~= seq!["ts", "time"]);
    let timestamp = first_u64(e, &keys);
    Ok(OrderBook { exchange: ExchangeId::Bitget, instrument, exchange_symbol, bids, asks, timestamp, raw })
}

/// `c` is the candle of a Bitget candle row `[time, open, high, low, close,
/// volume, quote volume]`.
pub open spec fn bitget_candle_of(instrument: Instrument, exchange_symbol: Seq<char>, item: JsonValue, c: Candle) -> bool {
    match item {
        JsonValue::Array(v) => {
            &&& c.exchange == ExchangeId::Bitget
            &&& c.instrument.same_as(instrument)
            &&& c.exchange_symbol@ == exchange_symbol
            &&& c.open_time == u64_at(v@, 0)
            &&& c.close_time is None
            &&& c.open@ == or_empty(text_at(v@, 1))
            &&& c.high@ == or_empty(text_at(v@, 2))
            &&& c.low@ == or_empty(text_at(v@, 3))
            &&& c.close@ == or_empty(text_at(v@, 4))
            &&& c.volume@ == or_empty(text_at(v@, 5))
            &&& opt_view(c.quote_volume) == text_at(v@, 6)
            &&& c.closed is None
            &&& c.raw == item
        },
        _ => false,
    }
}

/// The candles of a Bitget candle answer: an array of rows.
pub fn bitget_candles_from_value(instrument: &Instrument, exchange_symbol: &str, raw: JsonValue) -> (r:
    Result<Vec<Candle>>)
    ensures
        !(raw is Array) ==> (r matches Err(e) && e.is_adapter(
            ExchangeId::Bitget,
            "Bitget candles response is not an array"@,
        )),
        raw matches JsonValue::Array(items) ==> if all_arrays(items@) {
            r matches Ok(out) && out@.len() == items@.len() && forall|i: int|
                0 <= i < items@.len() ==> bitget_candle_of(
                    *instrument,
                    exchange_symbol@,
                    items@[i],
                    #[trigger] out@[i],
                )
        } else {
            r matches Err(e) && e.is_adapter(ExchangeId::Bitget, "Bitget candle item is not an array"@)
        },
{
    let ghost original = raw;
    let mut items = match raw {
        JsonValue::Array(items) => items,
        _ => return Err(
            Error::Adapter {
                exchange: ExchangeId::Bitget,
                message: owned("Bitget candles response is not an array"),
            },
        ),
    };
    let ghost all = items@;
    let mut out: Vec<Candle> = Vec::new();
    let mut k: usize = 0;
    let n0 = items.len();
    assert(all.skip(0) =~= all);
    while items.len() > 0
        invariant
            raw is Array && raw->Array_0@ == all,
            n0 == all.len(),
            k + items@.len() == all.len(),
            items@ == all.skip(k as int),
            out@.len() == k,
            forall|j: int| 0 <= j < k ==> #[trigger] all[j] is Array,
            forall|j: int|
                0 <= j < k ==> bitget_candle_of(*instrument, exchange_symbol@, all[j], #[trigger] out@[j]),
        decreases items@.len(),
    {
        let item = items.remove(0);
        assert(item == all[k as int]);
        let c = match &item {
            JsonValue::Array(values) => {
                let open = match value_string_at(values, 1) { Some(s) => s, None => String::new() };
                let high = match value_string_at(values, 2) { Some(s) => s, None => String::new() };
                let low = match value_string_at(values, 3) { Some(s) => s, None => String::new() };
                let close = match value_string_at(values, 4) { Some(s) => s, None => String::new() };
                let volume = match value_string_at(values, 5) { Some(s) => s, None => String::new() };
                Candle {
                    exchange: ExchangeId::Bitget,
                    instrument: instrument.duplicate(),
                    exchange_symbol: owned(exchange_symbol),
                    open_time: value_u64_at(values, 0),
                    close_time: None,
                    open,
                    high,
                    low,
                    close,
                    volume,
                    quote_volume: value_string_at(values, 6),
                    closed: None,
                    raw: JsonValue::Null,
                }
            },
            _ => {
                assert(!all_arrays(all));
                return Err(
                    Error::Adapter {
                        exchange: ExchangeId::Bitget,
                        message: owned("Bitget candle item is not an array"),
                    },
                );
            },
        };
        let c = Candle { raw: item, ..c };
        out.push(c);
        k += 1;
        assert(items@ =~= all.skip(k as int));
    }
    Ok(out)
}

} // verus!
