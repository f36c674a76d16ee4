//! OKX trading requests: the order a place-order request becomes, with the
//! stop loss attached to it, the order-history and fills requests, and the
//! answers to cancellations.
use crate::bitget::requests::{missing_cancel_id, missing_order_query_id};
use crate::error::{Error, Result};
use crate::exchange::ExchangeId;
use crate::fill::FillListQuery;
use crate::instrument::Instrument;
use crate::json::{or_else, str_field, string_field, JsonValue};
use crate::okx::market::first_object_value;
use crate::okx::okx_margin_mode;
use crate::okx::orders::{okx_order_type_spec, order_type};
use crate::order::OrderListQuery;
use crate::text::{
    ascii_lower, copy_opt, copy_string, decimal, opt_view, owned, text_eq, text_is_empty,
    to_ascii_lowercase, trim, trim_text, u64_to_text, concat,
};
use crate::trade::{CancelOrderRequest, OrderAck, OrderType, PlaceOrderRequest, TimeInForce};
use vstd::prelude::*;

verus! {

/// The stop loss OKX attaches to an order: triggered by the mark price and
/// closed at market (order price `-1`).
#[derive(Debug, Clone, PartialEq, Eq)]
pub struct OkxAttachedStopLoss {
    pub sl_trigger_px: String,
    pub sl_ord_px: String,
    pub sl_trigger_px_type: String,
}

/// The stop-loss price a request attaches, when it is not blank.
pub open spec fn okx_stop_loss_price(request: PlaceOrderRequest) -> Option<Seq<char>> {
    match request.attached_stop_loss_price {
        Some(p) => if trim(p@).len() > 0 {
            Some(p@)
        } else {
            None
        },
        None => None,
    }
}

/// `a` is the OKX stop loss of a request, if it attaches one.
pub open spec fn okx_attached_of(request: PlaceOrderRequest, a: Option<OkxAttachedStopLoss>) -> bool {
    match okx_stop_loss_price(request) {
        Some(p) => a matches Some(s) && s.sl_trigger_px@ == p && s.sl_ord_px@ == "-1"@
            && s.sl_trigger_px_type@ == "mark"@,
        None => a is None,
    }
}

/// The stop loss OKX attaches to the order of a request: none when the
/// request attaches none or a blank price.
pub fn okx_attached_stop_loss(request: &PlaceOrderRequest) -> (r: Option<OkxAttachedStopLoss>)
    ensures
        okx_attached_of(*request, r),
{
    match &request.attached_stop_loss_price {
        Some(p) => {
            let t = trim_text(p.as_str());
            if text_is_empty(t.as_str()) {
                None
            } else {
                Some(
                    OkxAttachedStopLoss {
                        sl_trigger_px: copy_string(p),
                        sl_ord_px: owned("-1"),
                        sl_trigger_px_type: owned("mark"),
                    },
                )
            }
        },
        None => None,
    }
}

/// The order OKX is sent for a place-order request.
#[derive(Debug, Clone, PartialEq)]
pub struct OkxOrderRequest {
    pub inst_id: String,
    pub td_mode: String,
    pub ccy: Option<String>,
    pub cl_ord_id: Option<String>,
    pub side: String,
    pub pos_side: Option<String>,
    pub ord_type: String,
    pub sz: String,
    pub px: Option<String>,
    pub reduce_only: Option<bool>,
    pub attached_stop_loss: Option<OkxAttachedStopLoss>,
}

/// Whether OKX receives the request as a market order: a market order whose
/// time in force does not make it post-only, IOC or FOK.
pub open spec fn okx_is_market(request: PlaceOrderRequest) -> bool {
    okx_order_type_spec(request.order_type, request.time_in_force) == "market"@
}

/// The OKX order of a place-order request: the instrument's OKX symbol, the
/// margin mode (cross by default), the lower-cased side and position side,
/// the OKX order type, the size and price as given, and the attached stop
/// loss. Every order but a market order needs a price.
pub fn okx_place_order_request(request: &PlaceOrderRequest) -> (r: Result<OkxOrderRequest>)
    ensures
        !okx_is_market(*request) && request.price is None ==> (r matches Err(e) && e.is_adapter(
            ExchangeId::Okx,
            "limit orders require price"@,
        )),
        okx_is_market(*request) || request.price is Some ==> (r matches Ok(o) && {
            &&& o.inst_id@ == request.instrument.symbol_spec(ExchangeId::Okx)
            &&& o.td_mode@ == (match request.margin_mode {
                Some(m) => m.okx_spec(),
                None => "cross"@,
            })
            &&& opt_view(o.ccy) == opt_view(request.margin_coin)
            &&& opt_view(o.cl_ord_id) == opt_view(request.client_order_id)
            &&& o.side@ == request.side.lower_spec()
            &&& opt_view(o.pos_side) == (match request.position_side {
                Some(p) => Some(ascii_lower(p@)),
                None => None,
            })
            &&& o.ord_type@ == okx_order_type_spec(request.order_type, request.time_in_force)
            &&& o.sz@ == request.size@
            &&& opt_view(o.px) == opt_view(request.price)
            &&& o.reduce_only == request.reduce_only
            &&& okx_attached_of(*request, o.attached_stop_loss)
        }),
{
    let ord_type = order_type(request);
    let market = match request.time_in_force {
        Some(TimeInForce::PostOnly) | Some(TimeInForce::Ioc) | Some(TimeInForce::Fok) => false,
        _ => match request.order_type {
            OrderType::Market => true,
            OrderType::Limit => false,
        },
    };
    proof {
        reveal_strlit("market");
        reveal_strlit("limit");
        reveal_strlit("post_only");
        reveal_strlit("ioc");
        reveal_strlit("fok");
        assert("market"@.len() == 6);
        assert("limit"@.len() == 5);
        assert("post_only"@.len() == 9);
        assert("ioc"@.len() == 3);
        assert("fok"@.len() == 3);
        assert(market == okx_is_market(*request));
    }
    if !market && request.price.is_none() {
        return Err(Error::Adapter { exchange: ExchangeId::Okx, message: owned("limit orders require price") });
    }
    let td_mode = match &request.margin_mode {
        Some(m) => okx_margin_mode(Some(m)),
        None => okx_margin_mode(None),
    };
    Ok(
        OkxOrderRequest {
            inst_id: request.instrument.symbol_for(ExchangeId::Okx),
            td_mode,
            ccy: copy_opt(&request.margin_coin),
            cl_ord_id: copy_opt(&request.client_order_id),
            side: owned(request.side.lower()),
            pos_side: match &request.position_side {
                Some(p) => Some(to_ascii_lowercase(p.as_str())),
                None => None,
            },
            ord_type: owned(ord_type),
            sz: copy_string(&request.size),
            px: copy_opt(&request.price),
            reduce_only: request.reduce_only,
            attached_stop_loss: okx_attached_stop_loss(request),
        },
    )
}

/// A cancellation names its order, by exchange id or by client id.
pub fn okx_require_cancel_id(request: &CancelOrderRequest) -> (r: Result<()>)
    ensures
        (request.order_id is Some || request.client_order_id is Some) ==> r is Ok,
        (request.order_id is None && request.client_order_id is None) ==> (r matches Err(e)
            && e.is_adapter(ExchangeId::Okx, "cancel_order requires order_id or client_order_id"@)),
{
    if request.order_id.is_none() && request.client_order_id.is_none() {
        return Err(missing_cancel_id(ExchangeId::Okx));
    }
    Ok(())
}

/// An order query names its order, by exchange id or by client id.
pub fn okx_require_order_query_id(order_id: &Option<String>, client_order_id: &Option<String>) -> (r:
    Result<()>)
    ensures
        (order_id is Some || client_order_id is Some) ==> r is Ok,
        (order_id is None && client_order_id is None) ==> (r matches Err(e) && e.is_adapter(
            ExchangeId::Okx,
            "order query requires order_id or client_order_id"@,
        )),
{
    if order_id.is_none() && client_order_id.is_none() {
        return Err(missing_order_query_id(ExchangeId::Okx));
    }
    Ok(())
}

/// The first item of an OKX answer: the first element of an array, or an
/// object itself.
pub open spec fn okx_first_item(raw: JsonValue) -> Option<JsonValue> {
    match raw {
        JsonValue::Array(v) => if v@.len() > 0 {
            Some(v@[0])
        } else {
            None
        },
        JsonValue::Object(_) => Some(raw),
        _ => None,
    }
}

/// `e` is the error of an OKX answer `label` that has no first item.
pub open spec fn okx_no_item(raw: JsonValue, label: Seq<char>, e: Error) -> bool {
    match raw {
        JsonValue::Array(_) => e.is_adapter(ExchangeId::Okx, label + " is empty"@),
        _ => e.is_adapter(ExchangeId::Okx, label + " is neither an array nor an object"@),
    }
}

/// The acknowledgement of an OKX cancellation answer: its first item's
/// `ordId`, `clOrdId` and `sCode`.
pub fn okx_cancel_ack_from_value(instrument: Instrument, symbol: String, raw: JsonValue) -> (r: Result<
    OrderAck,
>)
    ensures
        match okx_first_item(raw) {
            Some(JsonValue::Object(e)) => r matches Ok(ack) && {
                &&& ack.exchange == ExchangeId::Okx
                &&& ack.instrument == instrument
                &&& ack.exchange_symbol == symbol
                &&& opt_view(ack.order_id) == str_field(e@, "ordId"@)
                &&& opt_view(ack.client_order_id) == str_field(e@, "clOrdId"@)
                &&& opt_view(ack.status) == str_field(e@, "sCode"@)
                &&& ack.raw == JsonValue::Object(e)
            },
            Some(_) => r matches Err(err) && err.is_adapter(
                ExchangeId::Okx,
                "OKX cancel response item is not an object"@,
            ),
            None => r matches Err(err) && okx_no_item(raw, "OKX cancel response"@, err),
        },
{
    let item = match first_object_value(raw, "OKX cancel response") {
        Ok(item) => item,
        Err(e) => return Err(e),
    };
    let e = match &item {
        JsonValue::Object(e) => e,
        _ => return Err(
            Error::Adapter { exchange: ExchangeId::Okx, message: owned("OKX cancel response item is not an object") },
        ),
    };
    let order_id = string_field(e, "ordId");
    let client_order_id = string_field(e, "clOrdId");
    let status = string_field(e, "sCode");
    Ok(
        OrderAck {
            exchange: ExchangeId::Okx,
            instrument,
            exchange_symbol: symbol,
            order_id,
            client_order_id,
            status,
            raw: item,
        },
    )
}

/// The algo order a protective cancellation names: its order id.
pub fn okx_protective_algo_id(request: &CancelOrderRequest) -> (r: Result<String>)
    ensures
        match request.order_id {
            Some(id) => r matches Ok(a) && a@ == id@,
            None => r matches Err(e) && e.is_adapter(
                ExchangeId::Okx,
                "OKX protective cancellation requires algo order id"@,
            ),
        },
{
    match &request.order_id {
        Some(id) => Ok(copy_string(id)),
        None => Err(
            Error::Adapter {
                exchange: ExchangeId::Okx,
                message: owned("OKX protective cancellation requires algo order id"),
            },
        ),
    }
}

/// The `sCode` of an algo answer item; empty when it has none.
pub open spec fn algo_code(e: Seq<(String, JsonValue)>) -> Seq<char> {
    match str_field(e, "sCode"@) {
        Some(c) => c,
        None => Seq::empty(),
    }
}

/// The acknowledgement of an OKX answer to an algo-order cancellation: an
/// item whose `sCode` is not `0` is a rejection, reported as an API error
/// with that code and OKX's message; otherwise the algo id (the one asked
/// for when the answer has none) and the client id of the request.
pub fn okx_cancel_algo_ack_from_value(
    instrument: Instrument,
    symbol: String,
    algo_id: String,
    client_order_id: Option<String>,
    raw: JsonValue,
) -> (r: Result<OrderAck>)
    ensures
        match okx_first_item(raw) {
            Some(JsonValue::Object(e)) => if algo_code(e@) != "0"@ {
                r matches Err(Error::Api { exchange, status, code, message }) && exchange
                    == ExchangeId::Okx && status == Some(200u16) && code@ == algo_code(e@)
                    && message@ == (match str_field(e@, "sMsg"@) {
                    Some(m) => m,
                    None => "OKX cancel algo order rejected"@,
                })
            } else {
                r matches Ok(ack) && {
                    &&& ack.exchange == ExchangeId::Okx
                    &&& ack.instrument == instrument
                    &&& ack.exchange_symbol == symbol
                    &&& opt_view(ack.order_id) == or_else(str_field(e@, "algoId"@), Some(algo_id@))
                    &&& ack.client_order_id == client_order_id
                    &&& opt_view(ack.status) == Some("0"@)
                    &&& ack.raw == JsonValue::Object(e)
                }
            },
            Some(_) => r matches Err(err) && err.is_adapter(
                ExchangeId::Okx,
                "OKX cancel algo response item is not an object"@,
            ),
            None => r matches Err(err) && okx_no_item(raw, "OKX cancel algo response"@, err),
        },
{
    let item = match first_object_value(raw, "OKX cancel algo response") {
        Ok(item) => item,
        Err(e) => return Err(e),
    };
    let e = match &item {
        JsonValue::Object(e) => e,
        _ => return Err(
            Error::Adapter {
                exchange: ExchangeId::Okx,
                message: owned("OKX cancel algo response item is not an object"),
            },
        ),
    };
    let status = match string_field(e, "sCode") {
        Some(c) => c,
        None => String::new(),
    };
    if !text_eq(status.as_str(), "0") {
        let message = match string_field(e, "sMsg") {
            Some(m) => m,
            None => owned("OKX cancel algo order rejected"),
        };
        return Err(Error::Api { exchange: ExchangeId::Okx, status: Some(200), code: status, message });
    }
    let order_id = match string_field(e, "algoId") {
        Some(a) => Some(a),
        None => Some(algo_id),
    };
    Ok(
        OrderAck {
            exchange: ExchangeId::Okx,
            instrument,
            exchange_symbol: symbol,
            order_id,
            client_order_id,
            status: Some(status),
            raw: item,
        },
    )
}

/// The OKX order-history request: swap orders of the instrument's symbol,
/// with the query's state, cursors, time window (as decimal text) and limit.
#[derive(Debug, Clone, PartialEq, Eq)]
pub struct OkxOrderHistoryRequest {
    pub inst_type: String,
    pub inst_id: Option<String>,
    pub state: Option<String>,
    pub after: Option<String>,
    pub before: Option<String>,
    pub begin: Option<String>,
    pub end: Option<String>,
    pub limit: Option<u32>,
}

/// The decimal text of an optional time.
pub open spec fn time_text(t: Option<u64>) -> Option<Seq<char>> {
    match t {
        Some(n) => Some(decimal(n as nat)),
        None => None,
    }
}

fn opt_time_text(t: Option<u64>) -> (r: Option<String>)
    ensures
        opt_view(r) == time_text(t),
{
    match t {
        Some(n) => Some(u64_to_text(n)),
        None => None,
    }
}

/// The OKX order-history request of a query, and whether it goes to the
/// archive: it does when the query bounds the time.
pub fn okx_order_history_request(query: &OrderListQuery) -> (r: (OkxOrderHistoryRequest, bool))
    ensures
        r.0.inst_type@ == "SWAP"@,
        opt_view(r.0.inst_id) == (match query.instrument {
            Some(i) => Some(i.symbol_spec(ExchangeId::Okx)),
            None => None,
        }),
        opt_view(r.0.state) == opt_view(query.status),
        opt_view(r.0.after) == opt_view(query.after),
        opt_view(r.0.before) == opt_view(query.before),
        opt_view(r.0.begin) == time_text(query.start_time),
        opt_view(r.0.end) == time_text(query.end_time),
        r.0.limit == query.limit,
        r.1 == (query.start_time is Some || query.end_time is Some),
{
    let inst_id = match &query.instrument {
        Some(i) => Some(i.symbol_for(ExchangeId::Okx)),
        None => None,
    };
    (
        OkxOrderHistoryRequest {
            inst_type: owned("SWAP"),
            inst_id,
            state: copy_opt(&query.status),
            after: copy_opt(&query.after),
            before: copy_opt(&query.before),
            begin: opt_time_text(query.start_time),
            end: opt_time_text(query.end_time),
            limit: query.limit,
        },
        query.start_time.is_some() || query.end_time.is_some(),
    )
}

/// The OKX fills request: swap fills of the instrument's symbol and the
/// query's order id, cursors, time window (as decimal text) and limit.
#[derive(Debug, Clone, PartialEq, Eq)]
pub struct OkxFillsRequest {
    pub inst_type: String,
    pub inst_id: Option<String>,
    pub ord_id: Option<String>,
    pub after: Option<String>,
    pub before: Option<String>,
    pub begin: Option<String>,
    pub end: Option<String>,
    pub limit: Option<u32>,
}

/// The OKX fills request of a query, and whether it goes to the fills
/// history: it does when the query bounds the time.
pub fn okx_fills_request(query: &FillListQuery) -> (r: (OkxFillsRequest, bool))
    ensures
        r.0.inst_type@ == "SWAP"@,
        opt_view(r.0.inst_id) == (match query.instrument {
            Some(i) => Some(i.symbol_spec(ExchangeId::Okx)),
            None => None,
        }),
        opt_view(r.0.ord_id) == opt_view(query.order_id),
        opt_view(r.0.after) == opt_view(query.after),
        opt_view(r.0.before) == opt_view(query.before),
        opt_view(r.0.begin) == time_text(query.start_time),
        opt_view(r.0.end) == time_text(query.end_time),
        r.0.limit == query.limit,
        r.1 == (query.start_time is Some || query.end_time is Some),
{
    let inst_id = match &query.instrument {
        Some(i) => Some(i.symbol_for(ExchangeId::Okx)),
        None => None,
    };
    (
        OkxFillsRequest {
            inst_type: owned("SWAP"),
            inst_id,
            ord_id: copy_opt(&query.order_id),
            after: copy_opt(&query.after),
            before: copy_opt(&query.before),
            begin: opt_time_text(query.start_time),
            end: opt_time_text(query.end_time),
            limit: query.limit,
        },
        query.start_time.is_some() || query.end_time.is_some(),
    )
}

/// The most protective orders OKX answers in one page; a full page may
/// leave some out.
pub const OKX_PROTECTIVE_PAGE_SIZE: usize = 100;

/// A page of pending protective orders is complete evidence only when it is
/// not full.
pub fn okx_pending_protective_page(count: usize) -> (r: Result<()>)
    ensures
        count < OKX_PROTECTIVE_PAGE_SIZE ==> r is Ok,
        count >= OKX_PROTECTIVE_PAGE_SIZE ==> (r matches Err(e) && e.is_adapter(
            ExchangeId::Okx,
            "OKX pending protective order result reached page limit"@,
        )),
{
    if count >= OKX_PROTECTIVE_PAGE_SIZE {
        return Err(
            Error::Adapter {
                exchange: ExchangeId::Okx,
                message: owned("OKX pending protective order result reached page limit"),
            },
        );
    }
    Ok(())
}

/// The closed states whose protective-order history is read, in order.
pub open spec fn okx_protective_history_states_spec() -> Seq<Seq<char>> {
    seq!["effective"@, "canceled"@, "order_failed"@]
}

/// The closed states whose protective-order history is read, in order.
pub fn okx_protective_history_states() -> (r: Vec<&'static str>)
    ensures
        r@.map_values(|s: &'static str| s@) == okx_protective_history_states_spec(),
{
    let mut v: Vec<&'static str> = Vec::new();
    v.push("effective");
    v.push("canceled");
    v.push("order_failed");
    assert(v@.map_values(|s: &'static str| s@) =~= okx_protective_history_states_spec());
    v
}

/// A page of protective-order history in `state` is complete evidence only
/// when it is not full.
pub fn okx_protective_history_page(state: &str, count: usize) -> (r: Result<()>)
    ensures
        count < OKX_PROTECTIVE_PAGE_SIZE ==> r is Ok,
        count >= OKX_PROTECTIVE_PAGE_SIZE ==> (r matches Err(e) && e.is_adapter(
            ExchangeId::Okx,
            "OKX historical protective order result reached page limit for "@ + state@,
        )),
{
    if count >= OKX_PROTECTIVE_PAGE_SIZE {
        return Err(
            Error::Adapter {
                exchange: ExchangeId::Okx,
                message: concat("OKX historical protective order result reached page limit for ", state),
            },
        );
    }
    Ok(())
}

} // verus!
