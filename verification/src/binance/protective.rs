//! Binance STOP_MARKET protective orders: the checks a request must pass, the
//! algo-order parameters it becomes, and the open algo orders read back.
use crate::binance::{instrument_from_linear_symbol, is_linear_instrument};
use crate::error::{Error, Result};
use crate::exchange::ExchangeId;
use crate::json::{
    bool_member, bool_member_of, first_rejected, number_member, number_member_of, string_member,
    string_member_of, JsonValue,
};
use crate::order::Order;
use crate::text::{
    ascii_upper, concat3, copy_string, decimal, opt_view, owned, text_eq, to_ascii_uppercase,
    u64_to_text,
};
use crate::trade::{OrderSide, ProtectiveOrderRequest, ProtectiveOrderWorkingType};
use vstd::prelude::*;

verus! {

broadcast use vstd::std_specs::vec::group_vec_axioms;

/// The parameters of a Binance conditional (algo) order.
#[derive(Debug, Clone, PartialEq, Eq)]
pub struct BinanceAlgoOrderParams {
    pub algo_type: &'static str,
    pub symbol: String,
    pub side: &'static str,
    pub order_type: &'static str,
    pub trigger_price: String,
    pub position_side: Option<String>,
    pub quantity: Option<String>,
    pub reduce_only: Option<bool>,
    pub close_position: Option<bool>,
    pub working_type: Option<&'static str>,
    pub price_protect: Option<bool>,
    pub client_algo_id: Option<String>,
}

/// `true` or `false`.
pub open spec fn bool_text(b: bool) -> Seq<char> {
    if b {
        "true"@
    } else {
        "false"@
    }
}

/// `s` with `(key, value)` appended when there is a value.
pub open spec fn push_param(
    s: Seq<(Seq<char>, Seq<char>)>,
    key: Seq<char>,
    value: Option<Seq<char>>,
) -> Seq<(Seq<char>, Seq<char>)> {
    match value {
        Some(v) => s.push((key, v)),
        None => s,
    }
}

pub open spec fn bool_param(value: Option<bool>) -> Option<Seq<char>> {
    match value {
        Some(b) => Some(bool_text(b)),
        None => None,
    }
}

pub open spec fn static_param(value: Option<&'static str>) -> Option<Seq<char>> {
    match value {
        Some(v) => Some(v@),
        None => None,
    }
}

/// The text view of request parameters.
pub open spec fn params_view(p: Seq<(&'static str, String)>) -> Seq<(Seq<char>, Seq<char>)> {
    Seq::new(p.len(), |i: int| (p[i].0@, p[i].1@))
}

proof fn lemma_params_view_push(p: Seq<(&'static str, String)>, x: (&'static str, String))
    ensures
        params_view(p.push(x)) == params_view(p).push((x.0@, x.1@)),
{
    assert(params_view(p.push(x)) =~= params_view(p).push((x.0@, x.1@)));
}

fn bool_value(b: bool) -> (r: String)
    ensures
        r@ == bool_text(b),
{
    if b {
        owned("true")
    } else {
        owned("false")
    }
}

fn push_text(params: &mut Vec<(&'static str, String)>, key: &'static str, value: &Option<String>)
    ensures
        params_view(final(params)@) == push_param(params_view(old(params)@), key@, opt_view(*value)),
{
    if let Some(v) = value {
        let item = (key, copy_string(v));
        proof {
            lemma_params_view_push(params@, item);
        }
        params.push(item);
    }
}

fn push_bool(params: &mut Vec<(&'static str, String)>, key: &'static str, value: Option<bool>)
    ensures
        params_view(final(params)@) == push_param(params_view(old(params)@), key@, bool_param(value)),
{
    if let Some(b) = value {
        let item = (key, bool_value(b));
        proof {
            lemma_params_view_push(params@, item);
        }
        params.push(item);
    }
}

impl BinanceAlgoOrderParams {
    /// The request parameters, in the order they are sent.
    pub open spec fn params_spec(self) -> Seq<(Seq<char>, Seq<char>)> {
        let base = seq![
            ("algoType"@, self.algo_type@),
            ("symbol"@, self.symbol@),
            ("side"@, self.side@),
            ("type"@, self.order_type@),
            ("triggerPrice"@, self.trigger_price@),
        ];
        let s1 = push_param(base, "positionSide"@, opt_view(self.position_side));
        let s2 = push_param(s1, "quantity"@, opt_view(self.quantity));
        let s3 = push_param(s2, "reduceOnly"@, bool_param(self.reduce_only));
        let s4 = push_param(s3, "closePosition"@, bool_param(self.close_position));
        let s5 = push_param(s4, "workingType"@, static_param(self.working_type));
        let s6 = push_param(s5, "priceProtect"@, bool_param(self.price_protect));
        push_param(s6, "clientAlgoId"@, opt_view(self.client_algo_id))
    }

    /// The request parameters as key/value pairs.
    pub fn to_params(&self) -> (r: Vec<(&'static str, String)>)
        ensures
            params_view(r@) == self.params_spec(),
    {
        let mut params: Vec<(&'static str, String)> = Vec::new();
        params.push(("algoType", owned(self.algo_type)));
        params.push(("symbol", copy_string(&self.symbol)));
        params.push(("side", owned(self.side)));
        params.push(("type", owned(self.order_type)));
        params.push(("triggerPrice", copy_string(&self.trigger_price)));
        let ghost base = seq![
            ("algoType"@, self.algo_type@),
            ("symbol"@, self.symbol@),
            ("side"@, self.side@),
            ("type"@, self.order_type@),
            ("triggerPrice"@, self.trigger_price@),
        ];
        assert(params_view(params@) =~= base);
        let working = match self.working_type {
            Some(w) => Some(owned(w)),
            None => None,
        };
        push_text(&mut params, "positionSide", &self.position_side);
        push_text(&mut params, "quantity", &self.quantity);
        push_bool(&mut params, "reduceOnly", self.reduce_only);
        push_bool(&mut params, "closePosition", self.close_position);
        push_text(&mut params, "workingType", &working);
        push_bool(&mut params, "priceProtect", self.price_protect);
        push_text(&mut params, "clientAlgoId", &self.client_algo_id);
        params
    }
}

/// How a STOP_MARKET order relates to the account's position mode.
#[derive(Debug, Clone, Copy, PartialEq, Eq, Structural)]
pub enum HedgeSide {
    /// One-way mode (`BOTH`, or no position side).
    OneWay,
    Long,
    Short,
}

/// The hedge side a position side names (compared in any ASCII case); none
/// for a position side other than `BOTH`, `LONG` and `SHORT`.
pub open spec fn hedge_side_of(position_side: Option<String>) -> Option<HedgeSide> {
    match position_side {
        None => Some(HedgeSide::OneWay),
        Some(v) => {
            let u = ascii_upper(v@);
            if u == "LONG"@ {
                Some(HedgeSide::Long)
            } else if u == "SHORT"@ {
                Some(HedgeSide::Short)
            } else if u == "BOTH"@ {
                Some(HedgeSide::OneWay)
            } else {
                None
            }
        },
    }
}

/// Why Binance would refuse the protective order, checked in this order; none
/// when the request is acceptable.
pub open spec fn protective_rejection(request: ProtectiveOrderRequest) -> Option<Seq<char>> {
    let fixed_size = request.quantity is Some;
    let close_all = request.close_position == Some(true);
    match hedge_side_of(request.position_side) {
        None => Some(
            "Binance STOP_MARKET protective order positionSide must be BOTH, LONG, or SHORT"@,
        ),
        Some(hedge) => if fixed_size && close_all {
            Some(
                "Binance STOP_MARKET protective order quantity and closePosition=true are mutually exclusive"@,
            )
        } else if !fixed_size && !close_all {
            Some(
                "Binance STOP_MARKET protective order requires exactly one of quantity or closePosition=true"@,
            )
        } else if close_all && request.reduce_only is Some {
            Some("Binance close-all STOP_MARKET protective order rejects the reduceOnly field"@)
        } else if hedge != HedgeSide::OneWay && request.reduce_only is Some {
            Some("Binance Hedge Mode STOP_MARKET protective order rejects the reduceOnly field"@)
        } else if (request.side == OrderSide::Buy && hedge == HedgeSide::Long) || (request.side
            == OrderSide::Sell && hedge == HedgeSide::Short) {
            if close_all {
                Some(
                    "Binance Hedge Mode close-all STOP_MARKET side cannot close the selected positionSide"@,
                )
            } else {
                Some(
                    "Binance Hedge Mode fixed-size STOP_MARKET side cannot close the selected positionSide"@,
                )
            }
        } else if fixed_size && hedge == HedgeSide::OneWay && request.reduce_only != Some(true) {
            Some(
                "Binance One-way Mode fixed-size STOP_MARKET protective order requires reduceOnly=true"@,
            )
        } else {
            None
        },
    }
}

pub open spec fn upper_view(value: Option<String>) -> Option<Seq<char>> {
    match value {
        Some(v) => Some(ascii_upper(v@)),
        None => None,
    }
}

pub open spec fn working_view(value: Option<ProtectiveOrderWorkingType>) -> Option<Seq<char>> {
    match value {
        Some(w) => Some(w.binance_spec()),
        None => None,
    }
}

/// `params` are the algo-order parameters of an acceptable `request`.
pub open spec fn protective_params(request: ProtectiveOrderRequest, params: BinanceAlgoOrderParams) -> bool {
    &&& params.algo_type@ == "CONDITIONAL"@
    &&& params.order_type@ == "STOP_MARKET"@
    &&& params.symbol@ == request.instrument.symbol_spec(ExchangeId::Binance)
    &&& params.side@ == request.side.upper_spec()
    &&& params.trigger_price@ == request.stop_price@
    &&& opt_view(params.position_side) == upper_view(request.position_side)
    &&& opt_view(params.quantity) == opt_view(request.quantity)
    &&& params.reduce_only == request.reduce_only
    &&& params.close_position == request.close_position
    &&& static_param(params.working_type) == working_view(request.working_type)
    &&& params.price_protect == request.price_protect
    &&& opt_view(params.client_algo_id) == opt_view(request.client_order_id)
}

fn reject(message: &str) -> (r: Result<BinanceAlgoOrderParams>)
    ensures
        r matches Err(e) && e.is_adapter(ExchangeId::Binance, message@),
{
    Err(Error::Adapter { exchange: ExchangeId::Binance, message: owned(message) })
}

/// The Binance STOP_MARKET algo order of a protective order request, or the
/// adapter error of the first check it fails.
pub fn binance_protective_order_request(request: &ProtectiveOrderRequest) -> (r: Result<
    BinanceAlgoOrderParams,
>)
    ensures
        match protective_rejection(*request) {
            Some(message) => r matches Err(e) && e.is_adapter(ExchangeId::Binance, message),
            None => r matches Ok(params) && protective_params(*request, params),
        },
{
    let fixed_size = request.quantity.is_some();
    let close_all = match request.close_position {
        Some(true) => true,
        _ => false,
    };
    let hedge = match &request.position_side {
        None => HedgeSide::OneWay,
        Some(value) => {
            let upper = to_ascii_uppercase(value.as_str());
            if text_eq(upper.as_str(), "LONG") {
                HedgeSide::Long
            } else if text_eq(upper.as_str(), "SHORT") {
                HedgeSide::Short
            } else if text_eq(upper.as_str(), "BOTH") {
                HedgeSide::OneWay
            } else {
                return reject(
                    "Binance STOP_MARKET protective order positionSide must be BOTH, LONG, or SHORT",
                );
            }
        },
    };
    let reduce_only_set = request.reduce_only.is_some();
    if fixed_size && close_all {
        return reject(
            "Binance STOP_MARKET protective order quantity and closePosition=true are mutually exclusive",
        );
    }
    if !fixed_size && !close_all {
        return reject(
            "Binance STOP_MARKET protective order requires exactly one of quantity or closePosition=true",
        );
    }
    if close_all && reduce_only_set {
        return reject("Binance close-all STOP_MARKET protective order rejects the reduceOnly field");
    }
    let one_way = match hedge {
        HedgeSide::OneWay => true,
        _ => false,
    };
    if !one_way && reduce_only_set {
        return reject("Binance Hedge Mode STOP_MARKET protective order rejects the reduceOnly field");
    }
    let closes_wrong_side = match (request.side, hedge) {
        (OrderSide::Buy, HedgeSide::Long) | (OrderSide::Sell, HedgeSide::Short) => true,
        _ => false,
    };
    if closes_wrong_side {
        if close_all {
            return reject(
                "Binance Hedge Mode close-all STOP_MARKET side cannot close the selected positionSide",
            );
        } else {
            return reject(
                "Binance Hedge Mode fixed-size STOP_MARKET side cannot close the selected positionSide",
            );
        }
    }
    let reduce_only_true = match request.reduce_only {
        Some(true) => true,
        _ => false,
    };
    if fixed_size && one_way && !reduce_only_true {
        return reject(
            "Binance One-way Mode fixed-size STOP_MARKET protective order requires reduceOnly=true",
        );
    }
    let position_side = match &request.position_side {
        Some(v) => Some(to_ascii_uppercase(v.as_str())),
        None => None,
    };
    let working_type = match request.working_type {
        Some(w) => Some(w.binance_value()),
        None => None,
    };
    Ok(
        BinanceAlgoOrderParams {
            algo_type: "CONDITIONAL",
            symbol: request.instrument.symbol_for(ExchangeId::Binance),
            side: request.side.upper(),
            order_type: "STOP_MARKET",
            trigger_price: copy_string(&request.stop_price),
            position_side,
            quantity: crate::text::copy_opt(&request.quantity),
            reduce_only: request.reduce_only,
            close_position: request.close_position,
            working_type,
            price_protect: request.price_protect,
            client_algo_id: crate::text::copy_opt(&request.client_order_id),
        },
    )
}

/// The first required field of an open algo order that is missing or of the
/// wrong kind.
pub open spec fn algo_missing_field(e: Seq<(String, JsonValue)>) -> Option<Seq<char>> {
    if number_member(e, "algoId"@) is None {
        Some("algoId"@)
    } else if string_member(e, "clientAlgoId"@) is None {
        Some("clientAlgoId"@)
    } else if string_member(e, "algoStatus"@) is None {
        Some("algoStatus"@)
    } else if string_member(e, "orderType"@) is None {
        Some("orderType"@)
    } else if string_member(e, "symbol"@) is None {
        Some("symbol"@)
    } else if string_member(e, "side"@) is None {
        Some("side"@)
    } else if string_member(e, "positionSide"@) is None {
        Some("positionSide"@)
    } else if string_member(e, "triggerPrice"@) is None {
        Some("triggerPrice"@)
    } else if string_member(e, "quantity"@) is None {
        Some("quantity"@)
    } else if bool_member(e, "closePosition"@) is None {
        Some("closePosition"@)
    } else if number_member(e, "createTime"@) is None {
        Some("createTime"@)
    } else if number_member(e, "updateTime"@) is None {
        Some("updateTime"@)
    } else {
        None
    }
}

/// Why an open algo order item cannot be read; none when it can.
pub open spec fn algo_item_rejection(item: JsonValue) -> Option<Seq<char>> {
    match item {
        JsonValue::Object(e) => match algo_missing_field(e@) {
            Some(field) => Some(
                "Binance open algo order field `"@ + field + "` is missing or malformed"@,
            ),
            None => None,
        },
        _ => Some("Binance open algo order item is not an object"@),
    }
}

/// The reason for refusing each open algo order item.
pub open spec fn algo_rejections(items: Seq<JsonValue>) -> Seq<Option<Seq<char>>> {
    Seq::new(items.len(), |i: int| algo_item_rejection(items[i]))
}

/// `order` is the order read from a readable open algo order item.
pub open spec fn algo_order_of(item: JsonValue, order: Order) -> bool {
    match item {
        JsonValue::Object(e) => {
            let symbol = string_member(e@, "symbol"@);
            &&& order.exchange == ExchangeId::Binance
            &&& symbol == Some(order.exchange_symbol@)
            &&& is_linear_instrument(order.instrument, order.exchange_symbol@)
            &&& number_member(e@, "algoId"@) matches Some(id) && opt_view(order.order_id) == Some(
                decimal(id as nat),
            )
            &&& opt_view(order.client_order_id) == string_member(e@, "clientAlgoId"@)
            &&& opt_view(order.side) == string_member(e@, "side"@)
            &&& opt_view(order.order_type) == string_member(e@, "orderType"@)
            &&& opt_view(order.price) == string_member(e@, "triggerPrice"@)
            &&& opt_view(order.size) == string_member(e@, "quantity"@)
            &&& order.filled_size is None
            &&& order.average_price is None
            &&& opt_view(order.status) == string_member(e@, "algoStatus"@)
            &&& order.created_at == number_member(e@, "createTime"@)
            &&& order.updated_at == number_member(e@, "updateTime"@)
            &&& order.raw == item
        },
        _ => false,
    }
}

fn algo_field_error(field: &str) -> (r: Error)
    ensures
        r.is_adapter(
            ExchangeId::Binance,
            "Binance open algo order field `"@ + field@ + "` is missing or malformed"@,
        ),
{
    Error::Adapter {
        exchange: ExchangeId::Binance,
        message: concat3("Binance open algo order field `", field, "` is missing or malformed"),
    }
}

fn required_algo_string(e: &Vec<(String, JsonValue)>, field: &str) -> (r: Result<String>)
    ensures
        match string_member(e@, field@) {
            Some(v) => r matches Ok(s) && s@ == v,
            None => r matches Err(err) && err.is_adapter(
                ExchangeId::Binance,
                "Binance open algo order field `"@ + field@ + "` is missing or malformed"@,
            ),
        },
{
    match string_member_of(e, field) {
        Some(v) => Ok(v),
        None => Err(algo_field_error(field)),
    }
}

fn required_algo_number(e: &Vec<(String, JsonValue)>, field: &str) -> (r: Result<u64>)
    ensures
        match number_member(e@, field@) {
            Some(v) => r == Ok::<u64, Error>(v),
            None => r matches Err(err) && err.is_adapter(
                ExchangeId::Binance,
                "Binance open algo order field `"@ + field@ + "` is missing or malformed"@,
            ),
        },
{
    match number_member_of(e, field) {
        Some(v) => Ok(v),
        None => Err(algo_field_error(field)),
    }
}

/// One open algo order.
pub fn binance_open_algo_order_from_value(raw: JsonValue) -> (r: Result<Order>)
    ensures
        match algo_item_rejection(raw) {
            Some(message) => r matches Err(e) && e.is_adapter(ExchangeId::Binance, message),
            None => r matches Ok(order) && algo_order_of(raw, order),
        },
{
    let e = match &raw {
        JsonValue::Object(e) => e,
        _ => {
            return Err(
                Error::Adapter {
                    exchange: ExchangeId::Binance,
                    message: owned("Binance open algo order item is not an object"),
                },
            )
        },
    };
    let algo_id = required_algo_number(e, "algoId")?;
    let client_algo_id = required_algo_string(e, "clientAlgoId")?;
    let status = required_algo_string(e, "algoStatus")?;
    let order_type = required_algo_string(e, "orderType")?;
    let symbol = required_algo_string(e, "symbol")?;
    let side = required_algo_string(e, "side")?;
    let _position_side = required_algo_string(e, "positionSide")?;
    let trigger_price = required_algo_string(e, "triggerPrice")?;
    let quantity = required_algo_string(e, "quantity")?;
    if bool_member_of(e, "closePosition").is_none() {
        return Err(algo_field_error("closePosition"));
    }
    let created_at = required_algo_number(e, "createTime")?;
    let updated_at = required_algo_number(e, "updateTime")?;
    let instrument = instrument_from_linear_symbol(symbol.as_str());
    Ok(
        Order {
            exchange: ExchangeId::Binance,
            instrument,
            exchange_symbol: symbol,
            order_id: Some(u64_to_text(algo_id)),
            client_order_id: Some(client_algo_id),
            side: Some(side),
            order_type: Some(order_type),
            price: Some(trigger_price),
            size: Some(quantity),
            filled_size: None,
            average_price: None,
            status: Some(status),
            created_at: Some(created_at),
            updated_at: Some(updated_at),
            raw,
        },
    )
}

/// Every open algo order of the response, whatever its type; the first item
/// that cannot be read fails the whole response.
pub fn binance_open_algo_orders_from_value(raw: JsonValue) -> (r: Result<Vec<Order>>)
    ensures
        match raw {
            JsonValue::Array(items) => match r {
                Ok(orders) => orders@.len() == items@.len() && forall|i: int|
                    0 <= i < items@.len() ==> algo_item_rejection(#[trigger] items@[i]) is None
                        && algo_order_of(items@[i], orders@[i]),
                Err(e) => exists|i: int|
                    #[trigger] first_rejected(algo_rejections(items@), ExchangeId::Binance, i, e),
            },
            _ => r matches Err(e) && e.is_adapter(
                ExchangeId::Binance,
                "Binance open algo orders response is not an array"@,
            ),
        },
{
    let ghost original = raw;
    let mut items = match raw {
        JsonValue::Array(values) => values,
        _ => {
            return Err(
                Error::Adapter {
                    exchange: ExchangeId::Binance,
                    message: owned("Binance open algo orders response is not an array"),
                },
            )
        },
    };
    let ghost all = items@;
    let mut orders: Vec<Order> = Vec::new();
    let mut i: usize = 0;
    let n = items.len();
    while items.len() > 0
        invariant
            original == raw,
            original matches JsonValue::Array(v) && v@ == all,
            n == all.len(),
            i + items@.len() == n,
            items@ == all.skip(i as int),
            orders@.len() == i,
            forall|k: int|
                0 <= k < i ==> algo_item_rejection(#[trigger] all[k]) is None && algo_order_of(
                    all[k],
                    orders@[k],
                ),
        decreases items@.len(),
    {
        let item = items.remove(0);
        assert(item == all[i as int]);
        match binance_open_algo_order_from_value(item) {
            Ok(order) => {
                orders.push(order);
            },
            Err(e) => {
                assert(first_rejected(algo_rejections(all), ExchangeId::Binance, i as int, e));
                return Err(e);
            },
        }
        i += 1;
        assert(items@ =~= all.skip(i as int));
    }
    Ok(orders)
}

} // verus!
