//! Binance USDⓈ-M user-data events: `ORDER_TRADE_UPDATE`, `ACCOUNT_UPDATE`
//! and `listenKeyExpired`, bare or wrapped in a combined-stream `data`.
use crate::error::{Error, Result};
use crate::exchange::ExchangeId;
use crate::json::{json_get, json_lookup, obj_get, obj_lookup, obj_take, plain_u64, plain_u64_field, JsonValue};
use crate::private_account_stream::{
    scalar_text, scalar_text_of, PrivateAccountStreamChange, PrivateAccountStreamFrame,
    PrivateAccountStreamRecord, PrivateBalanceStreamChange, PrivateOrderStreamChange,
    PrivatePositionStreamChange,
};
use crate::text::{
    concat, copy_string, decimal, opt_view, owned, parse_u64, parse_u64_spec, text_eq, text_is_empty,
    trim, trim_text, u64_to_text,
};
use vstd::prelude::*;

verus! {

broadcast use vstd::std_specs::vec::group_vec_axioms;

/// The text of string member `key` (empty text included).
pub open spec fn str_value(v: JsonValue, key: Seq<char>) -> Option<Seq<char>> {
    match json_get(v, key) {
        Some(JsonValue::String(s)) => Some(s@),
        _ => None,
    }
}

/// A text kept only when it is not blank.
pub open spec fn nonblank(o: Option<Seq<char>>) -> Option<Seq<char>> {
    match o {
        Some(s) => if trim(s).len() > 0 {
            Some(s)
        } else {
            None
        },
        None => None,
    }
}

/// The scalar text of member `key`.
pub open spec fn scalar_member(v: JsonValue, key: Seq<char>) -> Option<Seq<char>> {
    match json_get(v, key) {
        Some(x) => scalar_text(x),
        None => None,
    }
}

fn str_value_of(v: &JsonValue, key: &str) -> (r: Option<String>)
    ensures
        opt_view(r) == str_value(*v, key@),
{
    match json_lookup(v, key) {
        Some(JsonValue::String(s)) => Some(copy_string(s)),
        _ => None,
    }
}

fn nonblank_of(o: Option<String>) -> (r: Option<String>)
    ensures
        opt_view(r) == nonblank(opt_view(o)),
{
    match o {
        Some(s) => {
            let t = trim_text(s.as_str());
            if text_is_empty(t.as_str()) {
                None
            } else {
                Some(s)
            }
        },
        None => None,
    }
}

fn scalar_member_of(v: &JsonValue, key: &str) -> (r: Option<String>)
    ensures
        opt_view(r) == scalar_member(*v, key@),
{
    match json_lookup(v, key) {
        Some(x) => scalar_text_of(x),
        None => None,
    }
}

fn malformed() -> (e: Error)
    ensures
        e.is_adapter(ExchangeId::Binance, "malformed Binance private account event"@),
{
    Error::Adapter { exchange: ExchangeId::Binance, message: owned("malformed Binance private account event") }
}

fn binance_error(message: &str) -> (e: Error)
    ensures
        e.is_adapter(ExchangeId::Binance, message@),
{
    Error::Adapter { exchange: ExchangeId::Binance, message: owned(message) }
}

// ----------------------------------------------------------------------------
// Order updates
// ----------------------------------------------------------------------------

/// The order of an order update carries what its record needs.
pub open spec fn order_fields_ok(o: JsonValue) -> bool {
    &&& str_value(o, "s"@) is Some
    &&& plain_u64(o, "i"@) is Some
    &&& str_value(o, "c"@) is Some
    &&& str_value(o, "S"@) is Some
    &&& str_value(o, "o"@) is Some
    &&& str_value(o, "p"@) is Some
    &&& str_value(o, "q"@) is Some
    &&& str_value(o, "X"@) is Some
    &&& str_value(o, "x"@) is Some
}

/// Why an order update is refused, if it is.
pub open spec fn order_update_refusal(event: JsonValue) -> Option<Seq<char>> {
    if plain_u64(event, "E"@) is None || plain_u64(event, "T"@) is None {
        Some("malformed Binance private account event"@)
    } else {
        match json_get(event, "o"@) {
            None => Some("Binance order update missing payload"@),
            Some(o) => if order_fields_ok(o) {
                None
            } else {
                Some("malformed Binance private account event"@)
            },
        }
    }
}

/// The trade of an order update: `t`, else `0`.
pub open spec fn order_trade(o: JsonValue) -> Seq<char> {
    match scalar_member(o, "t"@) {
        Some(t) => t,
        None => "0"@,
    }
}

/// The creation time of an order update (`O`), when it reads as a number.
pub open spec fn order_created(o: JsonValue) -> Option<u64> {
    match scalar_member(o, "O"@) {
        Some(t) => parse_u64_spec(t),
        None => None,
    }
}

/// `r` is the record of an order update: event time `E`, transaction time
/// `T`, named by symbol, order id, trade, transaction time and execution
/// type, with the order's fields as Binance wrote them.
pub open spec fn order_update_record_of(event: JsonValue, r: PrivateAccountStreamRecord) -> bool {
    &&& plain_u64(event, "E"@) matches Some(event_time)
    &&& plain_u64(event, "T"@) matches Some(t)
    &&& json_get(event, "o"@) matches Some(o)
    &&& str_value(o, "s"@) matches Some(symbol)
    &&& plain_u64(o, "i"@) matches Some(id)
    &&& str_value(o, "X"@) matches Some(status)
    &&& str_value(o, "x"@) matches Some(execution)
    &&& r.exchange == ExchangeId::Binance
    &&& r.provider_event_time_ms == event_time
    &&& r.provider_transaction_time_ms == Some(t)
    &&& r.event_identity@ == "order:"@ + symbol + ":"@ + decimal(id as nat) + ":"@ + order_trade(o) + ":"@
        + decimal(t as nat) + ":"@ + execution
    &&& r.change matches PrivateAccountStreamChange::Order(c)
    &&& c.exchange_symbol@ == symbol
    &&& c.order_id@ == decimal(id as nat)
    &&& opt_view(c.client_order_id) == nonblank(str_value(o, "c"@))
    &&& opt_view(c.side) == nonblank(str_value(o, "S"@))
    &&& opt_view(c.order_type) == nonblank(str_value(o, "o"@))
    &&& opt_view(c.price) == nonblank(str_value(o, "p"@))
    &&& opt_view(c.size) == nonblank(str_value(o, "q"@))
    &&& opt_view(c.filled_size) == scalar_member(o, "z"@)
    &&& c.status@ == status
    &&& c.created_at_ms == order_created(o)
    &&& c.source_updated_at_ms == t
    &&& r.raw_payload == o
}

fn order_update(event: JsonValue) -> (r: Result<PrivateAccountStreamFrame>)
    ensures
        match order_update_refusal(event) {
            Some(m) => r matches Err(e) && e.is_adapter(ExchangeId::Binance, m),
            None => r matches Ok(PrivateAccountStreamFrame::Records(v)) && v@.len() == 1
                && order_update_record_of(event, v@[0]),
        },
{
    let event_time = match plain_u64_field(&event, "E") {
        Some(t) => t,
        None => return Err(malformed()),
    };
    let t = match plain_u64_field(&event, "T") {
        Some(t) => t,
        None => return Err(malformed()),
    };
    let ghost whole = event;
    let o = match event {
        JsonValue::Object(members) => match obj_take(members, "o") {
            Some(o) => o,
            None => return Err(binance_error("Binance order update missing payload")),
        },
        _ => return Err(binance_error("Binance order update missing payload")),
    };
    assert(json_get(whole, "o"@) == Some(o));
    let symbol = match str_value_of(&o, "s") {
        Some(s) => s,
        None => return Err(malformed()),
    };
    let id = match plain_u64_field(&o, "i") {
        Some(i) => i,
        None => return Err(malformed()),
    };
    let client = match str_value_of(&o, "c") {
        Some(s) => s,
        None => return Err(malformed()),
    };
    let side = match str_value_of(&o, "S") {
        Some(s) => s,
        None => return Err(malformed()),
    };
    let order_type = match str_value_of(&o, "o") {
        Some(s) => s,
        None => return Err(malformed()),
    };
    let price = match str_value_of(&o, "p") {
        Some(s) => s,
        None => return Err(malformed()),
    };
    let size = match str_value_of(&o, "q") {
        Some(s) => s,
        None => return Err(malformed()),
    };
    let status = match str_value_of(&o, "X") {
        Some(s) => s,
        None => return Err(malformed()),
    };
    let execution = match str_value_of(&o, "x") {
        Some(s) => s,
        None => return Err(malformed()),
    };
    let trade = match scalar_member_of(&o, "t") {
        Some(s) => s,
        None => owned("0"),
    };
    let created = match scalar_member_of(&o, "O") {
        Some(s) => parse_u64(s.as_str()),
        None => None,
    };
    let id_text = u64_to_text(id);
    let a = concat("order:", symbol.as_str());
    let b = concat(a.as_str(), ":");
    let c = concat(b.as_str(), id_text.as_str());
    let d = concat(c.as_str(), ":");
    let e = concat(d.as_str(), trade.as_str());
    let f = concat(e.as_str(), ":");
    let g = concat(f.as_str(), u64_to_text(t).as_str());
    let h = concat(g.as_str(), ":");
    let event_identity = concat(h.as_str(), execution.as_str());
    let change = PrivateOrderStreamChange {
        exchange_symbol: symbol,
        order_id: id_text,
        client_order_id: nonblank_of(Some(client)),
        side: nonblank_of(Some(side)),
        order_type: nonblank_of(Some(order_type)),
        price: nonblank_of(Some(price)),
        size: nonblank_of(Some(size)),
        filled_size: scalar_member_of(&o, "z"),
        status,
        created_at_ms: created,
        source_updated_at_ms: t,
    };
    let mut v: Vec<PrivateAccountStreamRecord> = Vec::new();
    v.push(
        PrivateAccountStreamRecord {
            exchange: ExchangeId::Binance,
            provider_event_time_ms: event_time,
            provider_transaction_time_ms: Some(t),
            event_identity,
            change: PrivateAccountStreamChange::Order(change),
            raw_payload: o,
        },
    );
    Ok(PrivateAccountStreamFrame::Records(v))
}

// ----------------------------------------------------------------------------
// Account updates
// ----------------------------------------------------------------------------

/// A balance item carries its asset and wallet balance.
pub open spec fn balance_item_ok(b: JsonValue) -> bool {
    str_value(b, "a"@) is Some && str_value(b, "wb"@) is Some
}

/// A position item carries its symbol, amount, entry price, unrealized
/// profit, margin type and position side.
pub open spec fn position_item_ok(p: JsonValue) -> bool {
    &&& str_value(p, "s"@) is Some
    &&& str_value(p, "pa"@) is Some
    &&& str_value(p, "ep"@) is Some
    &&& str_value(p, "up"@) is Some
    &&& str_value(p, "mt"@) is Some
    &&& str_value(p, "ps"@) is Some
}

/// Every balance item carries what its record needs.
pub open spec fn balances_ok(bs: Seq<JsonValue>) -> bool {
    forall|i: int| 0 <= i < bs.len() ==> balance_item_ok(#[trigger] bs[i])
}

/// Every position item carries what its record needs.
pub open spec fn positions_ok(ps: Seq<JsonValue>) -> bool {
    forall|i: int| 0 <= i < ps.len() ==> position_item_ok(#[trigger] ps[i])
}

/// The items of an optional list member: none when it is missing, and
/// `None` when it is no list.
pub open spec fn update_items(account: JsonValue, key: Seq<char>) -> Option<Seq<JsonValue>> {
    match json_get(account, key) {
        None => Some(Seq::empty()),
        Some(JsonValue::Array(v)) => Some(v@),
        Some(_) => None,
    }
}

/// Why an account update is refused, if it is.
pub open spec fn account_update_refusal(event: JsonValue) -> Option<Seq<char>> {
    if plain_u64(event, "E"@) is None || plain_u64(event, "T"@) is None {
        Some("malformed Binance private account event"@)
    } else {
        match json_get(event, "a"@) {
            None => Some("Binance account update missing payload"@),
            Some(a) => if str_value(a, "m"@) is None {
                Some("malformed Binance private account event"@)
            } else {
                match update_items(a, "B"@) {
                    None => Some("Binance account update balances is not an array"@),
                    Some(bs) => match update_items(a, "P"@) {
                        None => Some("Binance account update positions is not an array"@),
                        Some(ps) => if balances_ok(bs) && positions_ok(ps) {
                            None
                        } else {
                            Some("malformed Binance private account event"@)
                        },
                    },
                }
            },
        }
    }
}

/// `r` is the record of balance item `b` of an update at event time `e`
/// and transaction time `t` for `reason`.
pub open spec fn balance_update_of(
    b: JsonValue,
    e: u64,
    t: u64,
    reason: Seq<char>,
    r: PrivateAccountStreamRecord,
) -> bool {
    &&& str_value(b, "a"@) matches Some(asset)
    &&& str_value(b, "wb"@) matches Some(wallet)
    &&& r.exchange == ExchangeId::Binance
    &&& r.provider_event_time_ms == e
    &&& r.provider_transaction_time_ms == Some(t)
    &&& r.event_identity@ == "balance:"@ + asset + ":"@ + decimal(t as nat) + ":"@ + reason
    &&& r.change matches PrivateAccountStreamChange::Balance(c)
    &&& c.asset@ == asset
    &&& c.total@ == wallet
    &&& c.available is None
    &&& c.source_updated_at_ms == t
    &&& r.raw_payload == b
}

/// `r` is the record of position item `p` of an update at event time `e`
/// and transaction time `t` for `reason`.
pub open spec fn position_update_of(
    p: JsonValue,
    e: u64,
    t: u64,
    reason: Seq<char>,
    r: PrivateAccountStreamRecord,
) -> bool {
    &&& str_value(p, "s"@) matches Some(symbol)
    &&& str_value(p, "ps"@) matches Some(side)
    &&& str_value(p, "pa"@) matches Some(amount)
    &&& r.exchange == ExchangeId::Binance
    &&& r.provider_event_time_ms == e
    &&& r.provider_transaction_time_ms == Some(t)
    &&& r.event_identity@ == "position:"@ + symbol + ":"@ + side + ":"@ + decimal(t as nat) + ":"@ + reason
    &&& r.change matches PrivateAccountStreamChange::Position(c)
    &&& c.exchange_symbol@ == symbol
    &&& opt_view(c.side) == nonblank(Some(side))
    &&& c.size@ == amount
    &&& opt_view(c.entry_price) == nonblank(str_value(p, "ep"@))
    &&& c.mark_price is None
    &&& opt_view(c.unrealized_pnl) == nonblank(str_value(p, "up"@))
    &&& c.leverage is None
    &&& opt_view(c.margin_mode) == nonblank(str_value(p, "mt"@))
    &&& c.liquidation_price is None
    &&& c.source_updated_at_ms == t
    &&& r.raw_payload == p
}

/// `v` are the records of an account update: its balances, then its
/// positions.
pub open spec fn account_update_records_of(event: JsonValue, v: Seq<PrivateAccountStreamRecord>) -> bool {
    &&& plain_u64(event, "E"@) matches Some(e)
    &&& plain_u64(event, "T"@) matches Some(t)
    &&& json_get(event, "a"@) matches Some(a)
    &&& str_value(a, "m"@) matches Some(reason)
    &&& update_items(a, "B"@) matches Some(bs)
    &&& update_items(a, "P"@) matches Some(ps)
    &&& v.len() == bs.len() + ps.len()
    &&& forall|i: int| 0 <= i < bs.len() ==> balance_update_of(bs[i], e, t, reason, #[trigger] v[i])
    &&& forall|j: int|
        0 <= j < ps.len() ==> position_update_of(ps[j], e, t, reason, #[trigger] v[bs.len() + j])
}

/// The index of the first member named `key`; the length when there is none.
fn key_index(members: &Vec<(String, JsonValue)>, key: &str) -> (r: usize)
    ensures
        r <= members@.len(),
        r == members@.len() ==> obj_get(members@, key@) is None,
        r < members@.len() ==> members@[r as int].0@ == key@ && obj_get(members@, key@) == Some(
            members@[r as int].1,
        ),
{
    let mut i: usize = 0;
    assert(members@.skip(0) =~= members@);
    while i < members.len()
        invariant
            i <= members.len(),
            obj_get(members@, key@) == obj_get(members@.skip(i as int), key@),
        decreases members.len() - i,
    {
        proof {
            assert(members@.skip(i as int).drop_first() =~= members@.skip(i + 1));
            assert(members@.skip(i as int)[0] == members@[i as int]);
        }
        if text_eq(members[i].0.as_str(), key) {
            return i;
        }
        i += 1;
    }
    i
}

/// Takes the values of two differently named members out of an object's
/// members.
fn obj_take_two(members: Vec<(String, JsonValue)>, a: &str, b: &str) -> (r: (Option<JsonValue>, Option<
    JsonValue,
>))
    requires
        a@ != b@,
    ensures
        r.0 == obj_get(members@, a@),
        r.1 == obj_get(members@, b@),
{
    let i = key_index(&members, a);
    let j = key_index(&members, b);
    let ghost all = members@;
    let mut m = members;
    let n = m.len();
    if i < n && j < n {
        if i < j {
            let eb = m.remove(j);
            assert(m@[i as int] == all[i as int]);
            let ea = m.remove(i);
            (Some(ea.1), Some(eb.1))
        } else {
            let ea = m.remove(i);
            assert(m@[j as int] == all[j as int]);
            let eb = m.remove(j);
            (Some(ea.1), Some(eb.1))
        }
    } else if i < n {
        let ea = m.remove(i);
        (Some(ea.1), None)
    } else if j < n {
        let eb = m.remove(j);
        (None, Some(eb.1))
    } else {
        (None, None)
    }
}

/// The items of an optional list member (see `update_items`).
fn update_items_of(member: Option<JsonValue>, message: &str) -> (r: Result<Vec<JsonValue>>)
    ensures
        match member {
            None => r matches Ok(v) && v@.len() == 0,
            Some(JsonValue::Array(v)) => r matches Ok(w) && w@ == v@,
            Some(_) => r matches Err(e) && e.is_adapter(ExchangeId::Binance, message@),
        },
{
    match member {
        None => Ok(Vec::new()),
        Some(JsonValue::Array(v)) => Ok(v),
        Some(_) => Err(binance_error(message)),
    }
}

fn balance_update(b: JsonValue, e: u64, t: u64, reason: &String) -> (r: Result<PrivateAccountStreamRecord>)
    ensures
        balance_item_ok(b) ==> (r matches Ok(rec) && balance_update_of(b, e, t, reason@, rec)),
        !balance_item_ok(b) ==> (r matches Err(err) && err.is_adapter(
            ExchangeId::Binance,
            "malformed Binance private account event"@,
        )),
{
    let asset = match str_value_of(&b, "a") {
        Some(s) => s,
        None => return Err(malformed()),
    };
    let wallet = match str_value_of(&b, "wb") {
        Some(s) => s,
        None => return Err(malformed()),
    };
    let x = concat("balance:", asset.as_str());
    let y = concat(x.as_str(), ":");
    let z = concat(y.as_str(), u64_to_text(t).as_str());
    let w = concat(z.as_str(), ":");
    let event_identity = concat(w.as_str(), reason.as_str());
    Ok(
        PrivateAccountStreamRecord {
            exchange: ExchangeId::Binance,
            provider_event_time_ms: e,
            provider_transaction_time_ms: Some(t),
            event_identity,
            change: PrivateAccountStreamChange::Balance(
                PrivateBalanceStreamChange { asset, total: wallet, available: None, source_updated_at_ms: t },
            ),
            raw_payload: b,
        },
    )
}

fn position_update(p: JsonValue, e: u64, t: u64, reason: &String) -> (r: Result<PrivateAccountStreamRecord>)
    ensures
        position_item_ok(p) ==> (r matches Ok(rec) && position_update_of(p, e, t, reason@, rec)),
        !position_item_ok(p) ==> (r matches Err(err) && err.is_adapter(
            ExchangeId::Binance,
            "malformed Binance private account event"@,
        )),
{
    let symbol = match str_value_of(&p, "s") {
        Some(s) => s,
        None => return Err(malformed()),
    };
    let amount = match str_value_of(&p, "pa") {
        Some(s) => s,
        None => return Err(malformed()),
    };
    let entry = match str_value_of(&p, "ep") {
        Some(s) => s,
        None => return Err(malformed()),
    };
    let pnl = match str_value_of(&p, "up") {
        Some(s) => s,
        None => return Err(malformed()),
    };
    let margin = match str_value_of(&p, "mt") {
        Some(s) => s,
        None => return Err(malformed()),
    };
    let side = match str_value_of(&p, "ps") {
        Some(s) => s,
        None => return Err(malformed()),
    };
    let x = concat("position:", symbol.as_str());
    let y = concat(x.as_str(), ":");
    let z = concat(y.as_str(), side.as_str());
    let w = concat(z.as_str(), ":");
    let u = concat(w.as_str(), u64_to_text(t).as_str());
    let v = concat(u.as_str(), ":");
    let event_identity = concat(v.as_str(), reason.as_str());
    let change = PrivatePositionStreamChange {
        exchange_symbol: symbol,
        side: nonblank_of(Some(side)),
        size: amount,
        entry_price: nonblank_of(Some(entry)),
        mark_price: None,
        unrealized_pnl: nonblank_of(Some(pnl)),
        leverage: None,
        margin_mode: nonblank_of(Some(margin)),
        liquidation_price: None,
        source_updated_at_ms: t,
    };
    Ok(
        PrivateAccountStreamRecord {
            exchange: ExchangeId::Binance,
            provider_event_time_ms: e,
            provider_transaction_time_ms: Some(t),
            event_identity,
            change: PrivateAccountStreamChange::Position(change),
            raw_payload: p,
        },
    )
}

fn account_update(event: JsonValue) -> (r: Result<PrivateAccountStreamFrame>)
    ensures
        match account_update_refusal(event) {
            Some(m) => r matches Err(e) && e.is_adapter(ExchangeId::Binance, m),
            None => r matches Ok(PrivateAccountStreamFrame::Records(v)) && account_update_records_of(event, v@),
        },
{
    let e = match plain_u64_field(&event, "E") {
        Some(t) => t,
        None => return Err(malformed()),
    };
    let t = match plain_u64_field(&event, "T") {
        Some(t) => t,
        None => return Err(malformed()),
    };
    let ghost whole = event;
    let a = match event {
        JsonValue::Object(members) => match obj_take(members, "a") {
            Some(a) => a,
            None => return Err(binance_error("Binance account update missing payload")),
        },
        _ => return Err(binance_error("Binance account update missing payload")),
    };
    assert(json_get(whole, "a"@) == Some(a));
    let reason = match str_value_of(&a, "m") {
        Some(s) => s,
        None => return Err(malformed()),
    };
    let ghost whole_a = a;
    let members = match a {
        JsonValue::Object(m) => m,
        _ => return Err(malformed()),
    };
    proof {
        reveal_strlit("B");
        reveal_strlit("P");
        assert("B"@[0] != "P"@[0]);
    }
    let (b_member, p_member) = obj_take_two(members, "B", "P");
    let balances = match update_items_of(b_member, "Binance account update balances is not an array") {
        Ok(v) => v,
        Err(err) => return Err(err),
    };
    let positions = match update_items_of(p_member, "Binance account update positions is not an array") {
        Ok(v) => v,
        Err(err) => return Err(err),
    };
    let ghost bs = balances@;
    let ghost ps = positions@;
    assert(update_items(whole_a, "B"@) == Some(bs));
    assert(update_items(whole_a, "P"@) == Some(ps));
    let mut out: Vec<PrivateAccountStreamRecord> = Vec::new();
    let mut rest = balances;
    let ghost mut k: int = 0;
    while rest.len() > 0
        invariant
            0 <= k <= bs.len(),
            whole == event,
            plain_u64(whole, "E"@) == Some(e),
            plain_u64(whole, "T"@) == Some(t),
            json_get(whole, "a"@) == Some(whole_a),
            str_value(whole_a, "m"@) == Some(reason@),
            update_items(whole_a, "B"@) == Some(bs),
            update_items(whole_a, "P"@) == Some(ps),
            rest@ =~= bs.skip(k),
            out@.len() == k,
            forall|i: int| 0 <= i < k ==> balance_item_ok(#[trigger] bs[i]),
            forall|i: int| 0 <= i < k ==> balance_update_of(bs[i], e, t, reason@, #[trigger] out@[i]),
        decreases rest.len(),
    {
        let b = rest.remove(0);
        assert(b == bs[k]);
        let rec = match balance_update(b, e, t, &reason) {
            Ok(rec) => rec,
            Err(err) => {
                assert(!balance_item_ok(bs[k]));
                assert(!balances_ok(bs));
                return Err(err);
            },
        };
        out.push(rec);
        proof {
            k = k + 1;
            assert(rest@ =~= bs.skip(k));
        }
    }
    let mut rest = positions;
    let ghost mut j: int = 0;
    while rest.len() > 0
        invariant
            0 <= j <= ps.len(),
            whole == event,
            plain_u64(whole, "E"@) == Some(e),
            plain_u64(whole, "T"@) == Some(t),
            json_get(whole, "a"@) == Some(whole_a),
            str_value(whole_a, "m"@) == Some(reason@),
            update_items(whole_a, "B"@) == Some(bs),
            update_items(whole_a, "P"@) == Some(ps),
            rest@ =~= ps.skip(j),
            out@.len() == bs.len() + j,
            forall|i: int| 0 <= i < bs.len() ==> balance_item_ok(#[trigger] bs[i]),
            forall|i: int| 0 <= i < bs.len() ==> balance_update_of(bs[i], e, t, reason@, #[trigger] out@[i]),
            forall|i: int| 0 <= i < j ==> position_item_ok(#[trigger] ps[i]),
            forall|i: int|
                0 <= i < j ==> position_update_of(ps[i], e, t, reason@, #[trigger] out@[bs.len() + i]),
        decreases rest.len(),
    {
        let p = rest.remove(0);
        assert(p == ps[j]);
        let rec = match position_update(p, e, t, &reason) {
            Ok(rec) => rec,
            Err(err) => {
                assert(!position_item_ok(ps[j]));
                assert(!positions_ok(ps));
                return Err(err);
            },
        };
        out.push(rec);
        proof {
            j = j + 1;
            assert(rest@ =~= ps.skip(j));
        }
    }
    Ok(PrivateAccountStreamFrame::Records(out))
}

// ----------------------------------------------------------------------------
// Frames
// ----------------------------------------------------------------------------

/// What an order update gives: one record, or its refusal.
pub open spec fn order_update_outcome(event: JsonValue, r: Result<PrivateAccountStreamFrame>) -> bool {
    match order_update_refusal(event) {
        Some(m) => r matches Err(e) && e.is_adapter(ExchangeId::Binance, m),
        None => r matches Ok(PrivateAccountStreamFrame::Records(v)) && v@.len() == 1
            && order_update_record_of(event, v@[0]),
    }
}

/// What an account update gives: its balance and position records, or its
/// refusal.
pub open spec fn account_update_outcome(event: JsonValue, r: Result<PrivateAccountStreamFrame>) -> bool {
    match account_update_refusal(event) {
        Some(m) => r matches Err(e) && e.is_adapter(ExchangeId::Binance, m),
        None => r matches Ok(PrivateAccountStreamFrame::Records(v)) && account_update_records_of(event, v@),
    }
}

/// The event of a frame: a combined stream's `data` when it names an event,
/// else the frame itself.
pub open spec fn binance_event_body(payload: JsonValue) -> JsonValue {
    match json_get(payload, "data"@) {
        Some(d) => if json_get(d, "e"@) is Some {
            d
        } else {
            payload
        },
        None => payload,
    }
}

/// What a Binance user-data frame gives, by its event type `e`.
pub open spec fn binance_frame_outcome(payload: JsonValue, r: Result<PrivateAccountStreamFrame>) -> bool {
    let body = binance_event_body(payload);
    match str_value(body, "e"@) {
        Some(ev) => if ev == "listenKeyExpired"@ {
            match plain_u64(body, "E"@) {
                Some(t) => r matches Ok(PrivateAccountStreamFrame::Expired { exchange, provider_event_time_ms })
                    && exchange == ExchangeId::Binance && provider_event_time_ms == t,
                None => r matches Err(e) && e.is_adapter(
                    ExchangeId::Binance,
                    "malformed Binance private account event"@,
                ),
            }
        } else if ev == "ORDER_TRADE_UPDATE"@ {
            order_update_outcome(body, r)
        } else if ev == "ACCOUNT_UPDATE"@ {
            account_update_outcome(body, r)
        } else {
            r matches Err(e) && e.is_adapter(ExchangeId::Binance, "unsupported Binance private account event"@)
        },
        None => r matches Err(e) && e.is_adapter(
            ExchangeId::Binance,
            "unsupported Binance private account event"@,
        ),
    }
}

/// Reads a Binance user-data frame (see `binance_frame_outcome`).
pub fn parse_binance_frame(payload: JsonValue) -> (r: Result<PrivateAccountStreamFrame>)
    ensures
        binance_frame_outcome(payload, r),
{
    let ghost whole = payload;
    let body = match payload {
        JsonValue::Object(members) => {
            let wrapped = match obj_lookup(&members, "data") {
                Some(d) => json_lookup(d, "e").is_some(),
                None => false,
            };
            if wrapped {
                match obj_take(members, "data") {
                    Some(d) => d,
                    None => return Err(binance_error("unsupported Binance private account event")),
                }
            } else {
                JsonValue::Object(members)
            }
        },
        other => other,
    };
    assert(body == binance_event_body(whole));
    let ev = match str_value_of(&body, "e") {
        Some(ev) => ev,
        None => return Err(binance_error("unsupported Binance private account event")),
    };
    if text_eq(ev.as_str(), "listenKeyExpired") {
        match plain_u64_field(&body, "E") {
            Some(t) => Ok(
                PrivateAccountStreamFrame::Expired { exchange: ExchangeId::Binance, provider_event_time_ms: t },
            ),
            None => Err(malformed()),
        }
    } else if text_eq(ev.as_str(), "ORDER_TRADE_UPDATE") {
        order_update(body)
    } else if text_eq(ev.as_str(), "ACCOUNT_UPDATE") {
        account_update(body)
    } else {
        Err(binance_error("unsupported Binance private account event"))
    }
}

} // verus!
