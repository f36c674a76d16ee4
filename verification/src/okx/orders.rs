//! OKX orders: the order type a request is sent with, order answers and
//! algo-order details.
use crate::error::{Error, Result};
use crate::exchange::ExchangeId;
use crate::instrument::Instrument;
use crate::json::{or_else, str3, str_field, string_field, string_field3, u64_field, u64_field_spec, JsonValue};
use crate::okx::{instrument_from_okx_symbol, is_okx_symbol_instrument, non_empty, parse_u64_string};
use crate::order::Order;
use crate::text::{opt_view, owned, parse_u64_spec, text_eq, trim, trim_text};
use crate::trade::{OrderAck, OrderSide, OrderType, PlaceOrderRequest, TimeInForce};
use vstd::prelude::*;

verus! {

/// OKX `ordType` of an order: the time in force decides when it is post-only,
/// IOC or FOK; otherwise the order type does.
pub open spec fn okx_order_type_spec(order_type: OrderType, time_in_force: Option<TimeInForce>) -> Seq<char> {
    match time_in_force {
        Some(TimeInForce::PostOnly) => "post_only"@,
        Some(TimeInForce::Ioc) => "ioc"@,
        Some(TimeInForce::Fok) => "fok"@,
        _ => match order_type {
            OrderType::Limit => "limit"@,
            OrderType::Market => "market"@,
        },
    }
}

/// OKX `ordType` of a place-order request.
pub fn order_type(request: &PlaceOrderRequest) -> (r: &'static str)
    ensures
        r@ == okx_order_type_spec(request.order_type, request.time_in_force),
{
    match request.time_in_force {
        Some(TimeInForce::PostOnly) => "post_only",
        Some(TimeInForce::Ioc) => "ioc",
        Some(TimeInForce::Fok) => "fok",
        _ => match request.order_type {
            OrderType::Limit => "limit",
            OrderType::Market => "market",
        },
    }
}

/// OKX's answer to one order request.
#[derive(Debug, Clone, PartialEq)]
pub struct OkxOrderResult {
    pub ord_id: String,
    pub cl_ord_id: Option<String>,
    pub tag: Option<String>,
    pub ts: String,
    pub s_code: String,
    pub s_msg: Option<String>,
    /// The answer as OKX sent it.
    pub raw: JsonValue,
}

pub open spec fn non_empty_view(value: Seq<char>) -> Option<Seq<char>> {
    if value.len() == 0 {
        None
    } else {
        Some(value)
    }
}

/// The acknowledgement of an OKX order answer. An answer whose `sCode` is not
/// `0` is a rejection, reported as an API error with OKX's code and message.
pub fn okx_order_ack_from_response(instrument: Instrument, symbol: String, order: OkxOrderResult) -> (r:
    Result<OrderAck>)
    ensures
        trim(order.s_code@) != "0"@ ==> (r matches Err(Error::Api { exchange, status, code, message })
            && exchange == ExchangeId::Okx && status == Some(200u16) && code@ == order.s_code@
            && message@ == match order.s_msg {
            Some(m) => m@,
            None => "OKX order rejected"@,
        }),
        trim(order.s_code@) == "0"@ ==> (r matches Ok(ack) && ack.exchange == ExchangeId::Okx
            && ack.instrument == instrument && ack.exchange_symbol == symbol && opt_view(ack.order_id)
            == non_empty_view(order.ord_id@) && opt_view(ack.client_order_id) == match order.cl_ord_id {
            Some(c) => non_empty_view(c@),
            None => None,
        } && ack.status == Some(order.s_code) && ack.raw == order.raw),
{
    let code = trim_text(order.s_code.as_str());
    if !text_eq(code.as_str(), "0") {
        return Err(
            Error::Api {
                exchange: ExchangeId::Okx,
                status: Some(200),
                code: order.s_code,
                message: match order.s_msg {
                    Some(m) => m,
                    None => owned("OKX order rejected"),
                },
            },
        );
    }
    Ok(
        OrderAck {
            exchange: ExchangeId::Okx,
            instrument,
            exchange_symbol: symbol,
            order_id: non_empty(order.ord_id),
            client_order_id: match order.cl_ord_id {
                Some(c) => non_empty(c),
                None => None,
            },
            status: Some(order.s_code),
            raw: order.raw,
        },
    )
}

/// `o` is the protective order an OKX algo-order item describes.
pub open spec fn okx_algo_order_of(
    exchange: ExchangeId,
    instrument: Option<Instrument>,
    symbol: Seq<char>,
    raw: JsonValue,
    o: Order,
) -> bool {
    match raw {
        JsonValue::Object(e) => {
            &&& o.exchange == exchange
            &&& o.exchange_symbol@ == symbol
            &&& match instrument {
                Some(i) => o.instrument == i,
                None => is_okx_symbol_instrument(o.instrument, symbol),
            }
            &&& opt_view(o.order_id) == str_field(e@, "algoId"@)
            &&& opt_view(o.client_order_id) == str_field(e@, "algoClOrdId"@)
            &&& opt_view(o.side) == str_field(e@, "side"@)
            &&& opt_view(o.order_type) == str_field(e@, "ordType"@)
            &&& opt_view(o.price) == str3(e@, "slTriggerPx"@, "triggerPx"@, "tpTriggerPx"@)
            &&& opt_view(o.size) == str_field(e@, "sz"@)
            &&& opt_view(o.filled_size) == str_field(e@, "actualSz"@)
            &&& opt_view(o.average_price) == str_field(e@, "actualPx"@)
            &&& opt_view(o.status) == str_field(e@, "state"@)
            &&& o.created_at == u64_field_spec(e@, "cTime"@)
            &&& o.updated_at == u64_field_spec(e@, "uTime"@)
            &&& o.raw == raw
        },
        _ => false,
    }
}

/// The protective order an OKX algo-order detail describes; the instrument
/// id comes from the item, else from the hint, and one of them is needed.
pub fn okx_algo_order_from_value(
    exchange: ExchangeId,
    instrument: Option<Instrument>,
    symbol_hint: Option<String>,
    raw: JsonValue,
) -> (r: Result<Order>)
    ensures
        match raw {
            JsonValue::Object(e) => match or_else(str_field(e@, "instId"@), opt_view(symbol_hint)) {
                Some(symbol) => r matches Ok(o) && okx_algo_order_of(exchange, instrument, symbol, raw, o),
                None => r matches Err(err) && err.is_adapter(
                    exchange,
                    "OKX protective order response is missing instId"@,
                ),
            },
            _ => r matches Err(err) && err.is_adapter(
                exchange,
                "OKX protective order response item is not an object"@,
            ),
        },
{
    let e = match &raw {
        JsonValue::Object(e) => e,
        _ => {
            return Err(
                Error::Adapter {
                    exchange,
                    message: owned("OKX protective order response item is not an object"),
                },
            )
        },
    };
    let exchange_symbol = match string_field(e, "instId") {
        Some(s) => s,
        None => match symbol_hint {
            Some(s) => s,
            None => {
                return Err(
                    Error::Adapter {
                        exchange,
                        message: owned("OKX protective order response is missing instId"),
                    },
                )
            },
        },
    };
    let order_id = string_field(e, "algoId");
    let client_order_id = string_field(e, "algoClOrdId");
    let side = string_field(e, "side");
    let order_type = string_field(e, "ordType");
    let price = string_field3(e, "slTriggerPx", "triggerPx", "tpTriggerPx");
    let size = string_field(e, "sz");
    let filled_size = string_field(e, "actualSz");
    let average_price = string_field(e, "actualPx");
    let status = string_field(e, "state");
    let created_at = u64_field(e, "cTime");
    let updated_at = u64_field(e, "uTime");
    let instrument = match instrument {
        Some(i) => i,
        None => instrument_from_okx_symbol(exchange_symbol.as_str()),
    };
    Ok(
        Order {
            exchange,
            instrument,
            exchange_symbol,
            order_id,
            client_order_id,
            side,
            order_type,
            price,
            size,
            filled_size,
            average_price,
            status,
            created_at,
            updated_at,
            raw,
        },
    )
}

/// An OKX order detail, as the order-detail and order-history endpoints
/// give it.
#[derive(Debug, PartialEq)]
pub struct OkxOrderDetail {
    pub inst_id: String,
    pub ord_id: String,
    pub cl_ord_id: String,
    pub side: String,
    pub ord_type: String,
    pub px: String,
    pub sz: String,
    pub acc_fill_sz: String,
    pub avg_px: String,
    pub state: String,
    pub c_time: String,
    pub u_time: String,
    /// The detail as OKX sent it.
    pub raw: JsonValue,
}

/// The instrument id of an order: its own, else the hint, else empty.
pub open spec fn okx_order_symbol(inst_id: Seq<char>, symbol_hint: Option<String>) -> Seq<char> {
    if inst_id.len() == 0 {
        match symbol_hint {
            Some(h) => h@,
            None => Seq::empty(),
        }
    } else {
        inst_id
    }
}

/// The instrument of an order: the one asked about, else the perpetual its
/// instrument id stands for.
pub open spec fn okx_order_instrument_of(instrument: Option<Instrument>, symbol: Seq<char>, i: Instrument) -> bool {
    match instrument {
        Some(given) => i == given,
        None => is_okx_symbol_instrument(i, symbol),
    }
}

fn okx_order_symbol_of(inst_id: String, symbol_hint: Option<String>) -> (r: String)
    ensures
        r@ == okx_order_symbol(inst_id@, symbol_hint),
{
    if crate::text::text_is_empty(inst_id.as_str()) {
        match symbol_hint {
            Some(h) => h,
            None => String::new(),
        }
    } else {
        inst_id
    }
}

fn okx_order_instrument(instrument: Option<Instrument>, symbol: &String) -> (r: Instrument)
    ensures
        okx_order_instrument_of(instrument, symbol@, r),
{
    match instrument {
        Some(i) => i,
        None => instrument_from_okx_symbol(symbol.as_str()),
    }
}

/// The order an OKX order detail describes; empty texts count as missing.
pub fn okx_order_from_detail(
    exchange: ExchangeId,
    instrument: Option<Instrument>,
    symbol_hint: Option<String>,
    order: OkxOrderDetail,
) -> (r: Order)
    ensures
        r.exchange == exchange,
        r.exchange_symbol@ == okx_order_symbol(order.inst_id@, symbol_hint),
        okx_order_instrument_of(instrument, r.exchange_symbol@, r.instrument),
        opt_view(r.order_id) == non_empty_view(order.ord_id@),
        opt_view(r.client_order_id) == non_empty_view(order.cl_ord_id@),
        opt_view(r.side) == non_empty_view(order.side@),
        opt_view(r.order_type) == non_empty_view(order.ord_type@),
        opt_view(r.price) == non_empty_view(order.px@),
        opt_view(r.size) == non_empty_view(order.sz@),
        opt_view(r.filled_size) == non_empty_view(order.acc_fill_sz@),
        opt_view(r.average_price) == non_empty_view(order.avg_px@),
        opt_view(r.status) == non_empty_view(order.state@),
        r.created_at == parse_u64_spec(order.c_time@),
        r.updated_at == parse_u64_spec(order.u_time@),
        r.raw == order.raw,
{
    let exchange_symbol = okx_order_symbol_of(order.inst_id, symbol_hint);
    let mapped = okx_order_instrument(instrument, &exchange_symbol);
    let created_at = parse_u64_string(order.c_time.as_str());
    let updated_at = parse_u64_string(order.u_time.as_str());
    Order {
        exchange,
        instrument: mapped,
        exchange_symbol,
        order_id: non_empty(order.ord_id),
        client_order_id: non_empty(order.cl_ord_id),
        side: non_empty(order.side),
        order_type: non_empty(order.ord_type),
        price: non_empty(order.px),
        size: non_empty(order.sz),
        filled_size: non_empty(order.acc_fill_sz),
        average_price: non_empty(order.avg_px),
        status: non_empty(order.state),
        created_at,
        updated_at,
        raw: order.raw,
    }
}

/// The order type OKX reports for a pending order.
#[derive(Debug, Clone, Copy, PartialEq, Eq, Structural)]
pub enum OkxRawOrderType {
    Market,
    Limit,
    PostOnly,
    FillOrKill,
    ImmediateOrCancel,
    OptimalLimitIoc,
}

/// The OKX `ordType` text of an order type.
pub open spec fn okx_raw_order_type_spec(value: OkxRawOrderType) -> Seq<char> {
    match value {
        OkxRawOrderType::Market => "market"@,
        OkxRawOrderType::Limit => "limit"@,
        OkxRawOrderType::PostOnly => "post_only"@,
        OkxRawOrderType::FillOrKill => "fok"@,
        OkxRawOrderType::ImmediateOrCancel => "ioc"@,
        OkxRawOrderType::OptimalLimitIoc => "optimal_limit_ioc"@,
    }
}

/// OKX reports distinct order types by distinct names, and every `ordType`
/// a place-order request is sent with comes back as an order type whose name
/// is that same text.
pub proof fn okx_raw_order_types_are_named_apart(
    a: OkxRawOrderType,
    b: OkxRawOrderType,
    order_type: OrderType,
    time_in_force: Option<TimeInForce>,
)
    ensures
        a != b ==> okx_raw_order_type_spec(a) != okx_raw_order_type_spec(b),
        exists|r: OkxRawOrderType| okx_raw_order_type_spec(r) == okx_order_type_spec(order_type, time_in_force),
{
    reveal_strlit("market");
    reveal_strlit("limit");
    reveal_strlit("post_only");
    reveal_strlit("fok");
    reveal_strlit("ioc");
    reveal_strlit("optimal_limit_ioc");
    if a != b {
        let x = okx_raw_order_type_spec(a);
        let y = okx_raw_order_type_spec(b);
        if x.len() == y.len() {
            assert(x[0] != y[0]);
        }
    }
    let sent = okx_order_type_spec(order_type, time_in_force);
    if sent == "market"@ {
        assert(okx_raw_order_type_spec(OkxRawOrderType::Market) == sent);
    } else if sent == "limit"@ {
        assert(okx_raw_order_type_spec(OkxRawOrderType::Limit) == sent);
    } else if sent == "post_only"@ {
        assert(okx_raw_order_type_spec(OkxRawOrderType::PostOnly) == sent);
    } else if sent == "fok"@ {
        assert(okx_raw_order_type_spec(OkxRawOrderType::FillOrKill) == sent);
    } else {
        assert(okx_raw_order_type_spec(OkxRawOrderType::ImmediateOrCancel) == sent);
    }
}

/// The OKX `ordType` text of an order type.
pub fn okx_order_type_from_enum(value: OkxRawOrderType) -> (r: &'static str)
    ensures
        r@ == okx_raw_order_type_spec(value),
{
    match value {
        OkxRawOrderType::Market => "market",
        OkxRawOrderType::Limit => "limit",
        OkxRawOrderType::PostOnly => "post_only",
        OkxRawOrderType::FillOrKill => "fok",
        OkxRawOrderType::ImmediateOrCancel => "ioc",
        OkxRawOrderType::OptimalLimitIoc => "optimal_limit_ioc",
    }
}

/// An OKX pending order, as the pending-orders endpoint gives it.
#[derive(Debug, PartialEq)]
pub struct OkxPendingOrder {
    pub inst_id: String,
    pub order_id: String,
    pub client_order_id: Option<String>,
    pub side: OrderSide,
    pub order_type: OkxRawOrderType,
    pub px: String,
    pub sz: String,
    pub filled_size: Option<String>,
    pub filled_price: Option<String>,
    pub state: String,
    pub creation_time: String,
    pub update_time: Option<String>,
    /// The order as OKX sent it.
    pub raw: JsonValue,
}

/// A text that may be missing, unless it is empty.
pub open spec fn non_empty_opt(value: Option<String>) -> Option<Seq<char>> {
    match value {
        Some(v) => non_empty_view(v@),
        None => None,
    }
}

fn non_empty_opt_of(value: Option<String>) -> (r: Option<String>)
    ensures
        opt_view(r) == non_empty_opt(value),
{
    match value {
        Some(v) => non_empty(v),
        None => None,
    }
}

/// The order an OKX pending order describes: the side and order type in
/// OKX's words, empty texts counting as missing.
pub fn okx_order_from_pending(
    exchange: ExchangeId,
    instrument: Option<Instrument>,
    symbol_hint: Option<String>,
    order: OkxPendingOrder,
) -> (r: Order)
    ensures
        r.exchange == exchange,
        r.exchange_symbol@ == okx_order_symbol(order.inst_id@, symbol_hint),
        okx_order_instrument_of(instrument, r.exchange_symbol@, r.instrument),
        opt_view(r.order_id) == non_empty_view(order.order_id@),
        opt_view(r.client_order_id) == non_empty_opt(order.client_order_id),
        opt_view(r.side) == Some(order.side.lower_spec()),
        opt_view(r.order_type) == Some(okx_raw_order_type_spec(order.order_type)),
        opt_view(r.price) == non_empty_view(order.px@),
        opt_view(r.size) == non_empty_view(order.sz@),
        opt_view(r.filled_size) == non_empty_opt(order.filled_size),
        opt_view(r.average_price) == non_empty_opt(order.filled_price),
        opt_view(r.status) == non_empty_view(order.state@),
        r.created_at == parse_u64_spec(order.creation_time@),
        r.updated_at == (match order.update_time {
            Some(t) => parse_u64_spec(t@),
            None => None,
        }),
        r.raw == order.raw,
{
    let exchange_symbol = okx_order_symbol_of(order.inst_id, symbol_hint);
    let mapped = okx_order_instrument(instrument, &exchange_symbol);
    let created_at = parse_u64_string(order.creation_time.as_str());
    let updated_at = match &order.update_time {
        Some(t) => parse_u64_string(t.as_str()),
        None => None,
    };
    Order {
        exchange,
        instrument: mapped,
        exchange_symbol,
        order_id: non_empty(order.order_id),
        client_order_id: non_empty_opt_of(order.client_order_id),
        side: Some(owned(order.side.lower())),
        order_type: Some(owned(okx_order_type_from_enum(order.order_type))),
        price: non_empty(order.px),
        size: non_empty(order.sz),
        filled_size: non_empty_opt_of(order.filled_size),
        average_price: non_empty_opt_of(order.filled_price),
        status: non_empty(order.state),
        created_at,
        updated_at,
        raw: order.raw,
    }
}

} // verus!
