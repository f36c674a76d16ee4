//! Bybit trading: positions, order requests, acknowledgements and orders.
use crate::bybit::{bybit_symbol_base, first_list_item, instrument_from_symbol};
use crate::json::{list_member, plain_str, plain_string_field, plain_u64, plain_u64_field, take_list};
use crate::error::{Error, Result};
use crate::exchange::ExchangeId;
use crate::instrument::{Instrument, MarketType};
use crate::json::{or_else, or_empty, JsonValue};
use crate::order::{Order, OrderQuery};
use crate::position::Position;
use crate::text::{ascii_lower, ascii_upper, copy_opt, copy_string, opt_view, owned, upper_char};
use crate::trade::{CancelOrderRequest, OrderAck, OrderSide, OrderType, PlaceOrderRequest, TimeInForce};
use crate::capability::{refuse_unmapped_order_fields, unmapped_order_field};
use vstd::prelude::*;

verus! {

broadcast use vstd::std_specs::vec::group_vec_axioms;

/// `p` is the position of a Bybit position row: of the instrument asked for,
/// else of the row's symbol.
pub open spec fn bybit_position_of(instrument: Option<Instrument>, row: JsonValue, p: Position) -> bool {
    let symbol = or_empty(plain_str(row, "symbol"@));
    &&& p.exchange == ExchangeId::Bybit
    &&& p.exchange_symbol@ == symbol
    &&& match instrument {
        Some(i) => p.instrument.same_as(i),
        None => {
            &&& p.instrument.base@ == ascii_upper(bybit_symbol_base(symbol))
            &&& p.instrument.quote@ == ascii_upper("USDT"@)
            &&& p.instrument.market_type == MarketType::Perpetual
            &&& p.instrument.settlement is None
        },
    }
    &&& opt_view(p.side) == plain_str(row, "side"@)
    &&& p.size@ == or_empty(plain_str(row, "size"@))
    &&& opt_view(p.entry_price) == plain_str(row, "avgPrice"@)
    &&& opt_view(p.mark_price) == plain_str(row, "markPrice"@)
    &&& opt_view(p.unrealized_pnl) == plain_str(row, "unrealisedPnl"@)
    &&& opt_view(p.leverage) == plain_str(row, "leverage"@)
    &&& opt_view(p.margin_mode) == plain_str(row, "tradeMode"@)
    &&& opt_view(p.liquidation_price) == plain_str(row, "liqPrice"@)
    &&& p.raw == row
}

/// The positions of a Bybit position answer's `list` (the request already
/// names the symbol asked for).
pub fn bybit_positions_from_value(raw: JsonValue, instrument: Option<&Instrument>) -> (r: Vec<Position>)
    ensures
        r@.len() == list_member(raw, "list"@).len(),
        forall|i: int|
            0 <= i < r@.len() ==> bybit_position_of(
                match instrument {
                    Some(x) => Some(*x),
                    None => None,
                },
                list_member(raw, "list"@)[i],
                #[trigger] r@[i],
            ),
{
    let ghost asked = match instrument {
        Some(x) => Some(*x),
        None => None,
    };
    let ghost all = list_member(raw, "list"@);
    let mut rows = take_list(raw, "list");
    let mut out: Vec<Position> = Vec::new();
    let mut k: usize = 0;
    let n0 = rows.len();
    assert(all.skip(0) =~= all);
    while rows.len() > 0
        invariant
            all == list_member(raw, "list"@),
            asked == match instrument {
                Some(x) => Some(*x),
                None => None,
            },
            n0 == all.len(),
            k + rows@.len() == all.len(),
            rows@ == all.skip(k as int),
            out@.len() == k,
            forall|j: int| 0 <= j < k ==> bybit_position_of(asked, all[j], #[trigger] out@[j]),
        decreases rows@.len(),
    {
        let row = rows.remove(0);
        assert(row == all[k as int]);
        let exchange_symbol = match plain_string_field(&row, "symbol") {
            Some(s) => s,
            None => String::new(),
        };
        let mapped = match instrument {
            Some(i) => i.duplicate(),
            None => instrument_from_symbol(exchange_symbol.as_str()),
        };
        let size = match plain_string_field(&row, "size") {
            Some(s) => s,
            None => String::new(),
        };
        let side = plain_string_field(&row, "side");
        let entry_price = plain_string_field(&row, "avgPrice");
        let mark_price = plain_string_field(&row, "markPrice");
        let unrealized_pnl = plain_string_field(&row, "unrealisedPnl");
        let leverage = plain_string_field(&row, "leverage");
        let margin_mode = plain_string_field(&row, "tradeMode");
        let liquidation_price = plain_string_field(&row, "liqPrice");
        out.push(
            Position {
                exchange: ExchangeId::Bybit,
                instrument: mapped,
                exchange_symbol,
                side,
                size,
                entry_price,
                mark_price,
                unrealized_pnl,
                leverage,
                margin_mode,
                liquidation_price,
                raw: row,
            },
        );
        k += 1;
        assert(rows@ =~= all.skip(k as int));
    }
    out
}

/// The Bybit name of an order side.
pub open spec fn bybit_side_spec(side: OrderSide) -> Seq<char> {
    match side {
        OrderSide::Buy => "Buy"@,
        OrderSide::Sell => "Sell"@,
    }
}

/// The Bybit name of an order side (`Buy`, `Sell`).
pub fn bybit_side(side: OrderSide) -> (r: &'static str)
    ensures
        r@ == bybit_side_spec(side),
{
    match side {
        OrderSide::Buy => "Buy",
        OrderSide::Sell => "Sell",
    }
}

/// The Bybit name of an order type.
pub open spec fn bybit_order_type_spec(order_type: OrderType) -> Seq<char> {
    match order_type {
        OrderType::Market => "Market"@,
        OrderType::Limit => "Limit"@,
    }
}

/// Bybit names an order type by the same word OKX sends for it (`limit`,
/// `market`), with its first letter in upper case; distinct order types get
/// distinct names.
pub proof fn bybit_order_type_names_the_order_type(a: OrderType, b: OrderType)
    ensures
        ascii_lower(bybit_order_type_spec(a)) == crate::okx::orders::okx_order_type_spec(a, None),
        bybit_order_type_spec(a).len() > 0 && bybit_order_type_spec(a)[0] == upper_char(
            crate::okx::orders::okx_order_type_spec(a, None)[0],
        ),
        a != b ==> bybit_order_type_spec(a) != bybit_order_type_spec(b),
{
    reveal_strlit("Limit");
    reveal_strlit("Market");
    reveal_strlit("limit");
    reveal_strlit("market");
    assert(ascii_lower("Limit"@) =~= "limit"@);
    assert(ascii_lower("Market"@) =~= "market"@);
    if a != b {
        assert(bybit_order_type_spec(a).len() != bybit_order_type_spec(b).len());
    }
}

/// The Bybit name of an order type (`Market`, `Limit`).
pub fn bybit_order_type(order_type: OrderType) -> (r: &'static str)
    ensures
        r@ == bybit_order_type_spec(order_type),
{
    match order_type {
        OrderType::Market => "Market",
        OrderType::Limit => "Limit",
    }
}

/// The Bybit name of a time in force.
pub open spec fn bybit_tif_spec(tif: TimeInForce) -> Seq<char> {
    match tif {
        TimeInForce::Gtc => "GTC"@,
        TimeInForce::Ioc => "IOC"@,
        TimeInForce::Fok => "FOK"@,
        TimeInForce::PostOnly => "PostOnly"@,
    }
}

/// The Bybit name of a time in force (`GTC`, `IOC`, `FOK`, `PostOnly`).
pub fn bybit_tif(tif: TimeInForce) -> (r: &'static str)
    ensures
        r@ == bybit_tif_spec(tif),
{
    match tif {
        TimeInForce::Gtc => "GTC",
        TimeInForce::Ioc => "IOC",
        TimeInForce::Fok => "FOK",
        TimeInForce::PostOnly => "PostOnly",
    }
}

/// A Bybit order request.
#[derive(Debug, Clone, PartialEq, Eq)]
pub struct BybitOrderRequest {
    pub category: String,
    pub symbol: String,
    pub side: String,
    pub order_type: String,
    pub qty: String,
    pub price: Option<String>,
    pub time_in_force: Option<String>,
    pub order_link_id: Option<String>,
    pub reduce_only: Option<bool>,
}

/// The Bybit request of an order in `category`. An attached stop loss, a
/// margin mode, margin coin, position side or trade side cannot be sent with
/// a Bybit order, so a request with one is refused as unsupported.
pub fn bybit_place_order_request(request: &PlaceOrderRequest, category: &str) -> (r: Result<BybitOrderRequest>)
    ensures
        request.attached_stop_loss_price is Some ==> (r matches Err(e) && e.is_unsupported(
            ExchangeId::Bybit,
            "attached stop loss on place_order"@,
        )),
        request.attached_stop_loss_price is None ==> (unmapped_order_field(*request) matches Some(c)
            ==> (r matches Err(e) && e.is_unsupported(ExchangeId::Bybit, c))),
        request.attached_stop_loss_price is None && unmapped_order_field(*request) is None ==> (r matches Ok(b) && {
            &&& b.category@ == category@
            &&& b.symbol@ == request.instrument.symbol_spec(ExchangeId::Bybit)
            &&& b.side@ == bybit_side_spec(request.side)
            &&& b.order_type@ == bybit_order_type_spec(request.order_type)
            &&& b.qty@ == request.size@
            &&& opt_view(b.price) == opt_view(request.price)
            &&& opt_view(b.time_in_force) == (match request.time_in_force {
                Some(t) => Some(bybit_tif_spec(t)),
                None => None,
            })
            &&& opt_view(b.order_link_id) == opt_view(request.client_order_id)
            &&& b.reduce_only == request.reduce_only
        }),
{
    if request.attached_stop_loss_price.is_some() {
        return Err(
            Error::Unsupported { exchange: ExchangeId::Bybit, capability: "attached stop loss on place_order" },
        );
    }
    match refuse_unmapped_order_fields(ExchangeId::Bybit, request) {
        Ok(()) => {},
        Err(e) => return Err(e),
    }
    Ok(
        BybitOrderRequest {
            category: owned(category),
            symbol: request.instrument.symbol_for(ExchangeId::Bybit),
            side: owned(bybit_side(request.side)),
            order_type: owned(bybit_order_type(request.order_type)),
            qty: copy_string(&request.size),
            price: copy_opt(&request.price),
            time_in_force: match request.time_in_force {
                Some(t) => Some(owned(bybit_tif(t))),
                None => None,
            },
            order_link_id: copy_opt(&request.client_order_id),
            reduce_only: request.reduce_only,
        },
    )
}

/// The acknowledgement of a Bybit order answer; the client id is the
/// answer's, else the one sent.
pub fn bybit_place_ack(request: PlaceOrderRequest, symbol: String, raw: JsonValue) -> (r: OrderAck)
    ensures
        r.exchange == ExchangeId::Bybit,
        r.instrument == request.instrument,
        r.exchange_symbol == symbol,
        opt_view(r.order_id) == plain_str(raw, "orderId"@),
        opt_view(r.client_order_id) == or_else(plain_str(raw, "orderLinkId"@), opt_view(request.client_order_id)),
        r.status is None,
        r.raw == raw,
{
    let order_id = plain_string_field(&raw, "orderId");
    let client_order_id = match plain_string_field(&raw, "orderLinkId") {
        Some(c) => Some(c),
        None => request.client_order_id,
    };
    OrderAck {
        exchange: ExchangeId::Bybit,
        instrument: request.instrument,
        exchange_symbol: symbol,
        order_id,
        client_order_id,
        status: None,
        raw,
    }
}

/// A Bybit request naming an order of `category`.
#[derive(Debug, Clone, PartialEq, Eq)]
pub struct BybitOrderRef {
    pub category: String,
    pub symbol: String,
    pub order_id: Option<String>,
    pub order_link_id: Option<String>,
}

/// The Bybit cancel request of a cancel.
pub fn bybit_cancel_request(request: &CancelOrderRequest, category: &str) -> (r: BybitOrderRef)
    ensures
        r.category@ == category@,
        r.symbol@ == request.instrument.symbol_spec(ExchangeId::Bybit),
        opt_view(r.order_id) == opt_view(request.order_id),
        opt_view(r.order_link_id) == opt_view(request.client_order_id),
{
    BybitOrderRef {
        category: owned(category),
        symbol: request.instrument.symbol_for(ExchangeId::Bybit),
        order_id: copy_opt(&request.order_id),
        order_link_id: copy_opt(&request.client_order_id),
    }
}

/// The Bybit order status request of an order query.
pub fn bybit_order_status_request(query: &OrderQuery, category: &str) -> (r: BybitOrderRef)
    ensures
        r.category@ == category@,
        r.symbol@ == query.instrument.symbol_spec(ExchangeId::Bybit),
        opt_view(r.order_id) == opt_view(query.order_id),
        opt_view(r.order_link_id) == opt_view(query.client_order_id),
{
    BybitOrderRef {
        category: owned(category),
        symbol: query.instrument.symbol_for(ExchangeId::Bybit),
        order_id: copy_opt(&query.order_id),
        order_link_id: copy_opt(&query.client_order_id),
    }
}

/// The acknowledgement of a Bybit cancel answer: cancelled; the ids are the
/// answer's, else the ones sent.
pub fn bybit_cancel_ack(request: CancelOrderRequest, symbol: String, raw: JsonValue) -> (r: OrderAck)
    ensures
        r.exchange == ExchangeId::Bybit,
        r.instrument == request.instrument,
        r.exchange_symbol == symbol,
        opt_view(r.order_id) == or_else(plain_str(raw, "orderId"@), opt_view(request.order_id)),
        opt_view(r.client_order_id) == or_else(plain_str(raw, "orderLinkId"@), opt_view(request.client_order_id)),
        opt_view(r.status) == Some("cancelled"@),
        r.raw == raw,
{
    let order_id = match plain_string_field(&raw, "orderId") {
        Some(o) => Some(o),
        None => request.order_id,
    };
    let client_order_id = match plain_string_field(&raw, "orderLinkId") {
        Some(c) => Some(c),
        None => request.client_order_id,
    };
    OrderAck {
        exchange: ExchangeId::Bybit,
        instrument: request.instrument,
        exchange_symbol: symbol,
        order_id,
        client_order_id,
        status: Some(owned("cancelled")),
        raw,
    }
}

/// `o` is the order of a Bybit order item.
pub open spec fn bybit_order_of(instrument: Instrument, symbol: Seq<char>, item: JsonValue, o: Order) -> bool {
    &&& o.exchange == ExchangeId::Bybit
    &&& o.instrument == instrument
    &&& o.exchange_symbol@ == symbol
    &&& opt_view(o.order_id) == plain_str(item, "orderId"@)
    &&& opt_view(o.client_order_id) == plain_str(item, "orderLinkId"@)
    &&& opt_view(o.side) == plain_str(item, "side"@)
    &&& opt_view(o.order_type) == plain_str(item, "orderType"@)
    &&& opt_view(o.price) == plain_str(item, "price"@)
    &&& opt_view(o.size) == plain_str(item, "qty"@)
    &&& opt_view(o.filled_size) == plain_str(item, "cumExecQty"@)
    &&& opt_view(o.average_price) == plain_str(item, "avgPrice"@)
    &&& opt_view(o.status) == plain_str(item, "orderStatus"@)
    &&& o.created_at == plain_u64(item, "createdTime"@)
    &&& o.updated_at == plain_u64(item, "updatedTime"@)
    &&& o.raw.model() == item.model()
}

/// The order of a Bybit order item.
pub fn order_from_value(instrument: Instrument, symbol: String, raw: &JsonValue) -> (r: Order)
    ensures
        bybit_order_of(instrument, symbol@, *raw, r),
{
    Order {
        exchange: ExchangeId::Bybit,
        instrument,
        exchange_symbol: symbol,
        order_id: plain_string_field(raw, "orderId"),
        client_order_id: plain_string_field(raw, "orderLinkId"),
        side: plain_string_field(raw, "side"),
        order_type: plain_string_field(raw, "orderType"),
        price: plain_string_field(raw, "price"),
        size: plain_string_field(raw, "qty"),
        filled_size: plain_string_field(raw, "cumExecQty"),
        average_price: plain_string_field(raw, "avgPrice"),
        status: plain_string_field(raw, "orderStatus"),
        created_at: plain_u64_field(raw, "createdTime"),
        updated_at: plain_u64_field(raw, "updatedTime"),
        raw: raw.copy(),
    }
}

/// The order of the first item of a Bybit order status answer.
pub fn bybit_order_from_response(instrument: Instrument, symbol: String, raw: &JsonValue) -> (r: Result<Order>)
    ensures
        list_member(*raw, "list"@).len() == 0 ==> (r matches Err(e) && e.is_adapter(
            ExchangeId::Bybit,
            "Bybit order response"@ + " is empty"@,
        )),
        list_member(*raw, "list"@).len() > 0 ==> (r matches Ok(o) && bybit_order_of(
            instrument,
            symbol@,
            list_member(*raw, "list"@)[0],
            o,
        )),
{
    match first_list_item(raw, "Bybit order response") {
        Ok(item) => Ok(order_from_value(instrument, symbol, item)),
        Err(e) => Err(e),
    }
}

} // verus!
