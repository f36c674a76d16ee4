//! OKX private channels: the `account`, `positions` and `orders` frames, and
//! the control answers (`login`, `subscribe`, `unsubscribe`).
use crate::error::{Error, Result};
use crate::exchange::ExchangeId;
use crate::json::{json_get, json_lookup, obj_lookup, obj_take, or_else, or_empty, JsonValue};
use crate::private_account_stream::{
    first_refusal, frame_text, frame_text_of, frame_time, frame_time_invalid, frame_time_of,
    missing_identity, missing_timestamp, PrivateAccountStreamChange, PrivateAccountStreamFrame,
    PrivateAccountStreamRecord, PrivateBalanceStreamChange, PrivateOrderStreamChange,
    PrivatePositionStreamChange,
};
use crate::text::{concat, copy_string, decimal, opt_view, owned, text_eq, u64_to_text};
use vstd::prelude::*;

verus! {

broadcast use vstd::std_specs::vec::group_vec_axioms;

// ----------------------------------------------------------------------------
// Balances
// ----------------------------------------------------------------------------

/// Why a balance detail is refused, if it is; `fallback` is the time of
/// the account it belongs to.
pub open spec fn detail_refusal(detail: JsonValue, fallback: Option<u64>) -> Option<Seq<char>> {
    if frame_text(detail, "ccy"@) is None {
        Some("private account frame missing identity"@)
    } else if frame_time_invalid(detail, "uTime"@) {
        Some("invalid OKX private timestamp"@)
    } else if or_else(frame_time(detail, "uTime"@), fallback) is None {
        Some("OKX account frame missing uTime"@)
    } else if frame_text(detail, "eq"@) is None {
        Some("private account frame missing identity"@)
    } else {
        None
    }
}

/// `r` is the balance record of a detail: its currency and equity, the
/// available balance (`availBal`, else `availEq`), and its time (the
/// account's when it has none), which also names the record.
pub open spec fn balance_record_of(
    detail: JsonValue,
    fallback: Option<u64>,
    r: PrivateAccountStreamRecord,
) -> bool {
    &&& or_else(frame_time(detail, "uTime"@), fallback) matches Some(t)
    &&& frame_text(detail, "ccy"@) matches Some(asset)
    &&& frame_text(detail, "eq"@) matches Some(total)
    &&& r.exchange == ExchangeId::Okx
    &&& r.provider_event_time_ms == t
    &&& r.provider_transaction_time_ms == Some(t)
    &&& r.event_identity@ == "account:"@ + asset + ":"@ + decimal(t as nat)
    &&& r.change matches PrivateAccountStreamChange::Balance(b)
    &&& b.asset@ == asset
    &&& b.total@ == total
    &&& opt_view(b.available) == or_else(frame_text(detail, "availBal"@), frame_text(detail, "availEq"@))
    &&& b.source_updated_at_ms == t
    &&& r.raw_payload == detail
}

/// The details of an account item.
pub open spec fn account_details(account: JsonValue) -> Option<Seq<JsonValue>> {
    match json_get(account, "details"@) {
        Some(JsonValue::Array(d)) => Some(d@),
        _ => None,
    }
}

/// Why each detail is refused, if it is.
pub open spec fn detail_refusals(details: Seq<JsonValue>, fallback: Option<u64>) -> Seq<
    Option<Seq<char>>,
> {
    Seq::new(details.len(), |i: int| detail_refusal(details[i], fallback))
}

/// Why an account item is refused, if it is: a bad time, no details, or
/// the first refused detail.
pub open spec fn account_refusal(account: JsonValue) -> Option<Seq<char>> {
    if frame_time_invalid(account, "uTime"@) {
        Some("invalid OKX private timestamp"@)
    } else {
        match account_details(account) {
            Some(ds) => first_refusal(detail_refusals(ds, frame_time(account, "uTime"@))),
            None => Some("OKX account frame missing details"@),
        }
    }
}

/// `rs` are the balance records of an account item, one per detail.
pub open spec fn account_records_of(account: JsonValue, rs: Seq<PrivateAccountStreamRecord>) -> bool {
    &&& account_details(account) matches Some(ds)
    &&& rs.len() == ds.len()
    &&& forall|i: int|
        0 <= i < ds.len() ==> balance_record_of(ds[i], frame_time(account, "uTime"@), #[trigger] rs[i])
}

/// `recs` are the balance records of the accounts of `data`, account after
/// account.
pub open spec fn balance_records_of(data: Seq<JsonValue>, recs: Seq<PrivateAccountStreamRecord>) -> bool
    decreases data.len(),
{
    if data.len() == 0 {
        recs.len() == 0
    } else {
        match account_details(data.last()) {
            Some(ds) => {
                &&& recs.len() >= ds.len()
                &&& balance_records_of(data.drop_last(), recs.take(recs.len() - ds.len()))
                &&& account_records_of(data.last(), recs.skip(recs.len() - ds.len()))
            },
            None => false,
        }
    }
}

/// Why each item is refused, if it is.
pub open spec fn account_refusals(data: Seq<JsonValue>) -> Seq<Option<Seq<char>>> {
    Seq::new(data.len(), |i: int| account_refusal(data[i]))
}

/// A reason for refusal found in a prefix stays the first one.
pub proof fn lemma_refusal_stays(rs: Seq<Option<Seq<char>>>, j: int)
    requires
        0 <= j <= rs.len(),
        first_refusal(rs.take(j)) is Some,
    ensures
        first_refusal(rs) == first_refusal(rs.take(j)),
    decreases rs.len(),
{
    if j == rs.len() {
        assert(rs.take(j) =~= rs);
    } else {
        assert(rs.drop_last().take(j) =~= rs.take(j));
        lemma_refusal_stays(rs.drop_last(), j);
    }
}

fn balance_record(detail: JsonValue, fallback: Option<u64>) -> (r: Result<PrivateAccountStreamRecord>)
    ensures
        match detail_refusal(detail, fallback) {
            Some(m) => r matches Err(e) && e.is_adapter(ExchangeId::Okx, m),
            None => r matches Ok(rec) && balance_record_of(detail, fallback, rec),
        },
{
    let asset = match frame_text_of(&detail, "ccy") {
        Some(a) => a,
        None => return Err(missing_identity(ExchangeId::Okx)),
    };
    let own_time = match frame_time_of(&detail, "uTime") {
        Ok(t) => t,
        Err(e) => return Err(e),
    };
    let t = match own_time {
        Some(t) => t,
        None => match fallback {
            Some(t) => t,
            None => return Err(
                Error::Adapter { exchange: ExchangeId::Okx, message: owned("OKX account frame missing uTime") },
            ),
        },
    };
    let total = match frame_text_of(&detail, "eq") {
        Some(v) => v,
        None => return Err(missing_identity(ExchangeId::Okx)),
    };
    let available = match frame_text_of(&detail, "availBal") {
        Some(a) => Some(a),
        None => frame_text_of(&detail, "availEq"),
    };
    let a = concat("account:", asset.as_str());
    let b = concat(a.as_str(), ":");
    let identity = concat(b.as_str(), u64_to_text(t).as_str());
    Ok(
        PrivateAccountStreamRecord {
            exchange: ExchangeId::Okx,
            provider_event_time_ms: t,
            provider_transaction_time_ms: Some(t),
            event_identity: identity,
            change: PrivateAccountStreamChange::Balance(
                PrivateBalanceStreamChange { asset, total, available, source_updated_at_ms: t },
            ),
            raw_payload: detail,
        },
    )
}

fn account_records(account: JsonValue) -> (r: Result<Vec<PrivateAccountStreamRecord>>)
    ensures
        match account_refusal(account) {
            Some(m) => r matches Err(e) && e.is_adapter(ExchangeId::Okx, m),
            None => r matches Ok(v) && account_records_of(account, v@),
        },
{
    let fallback = match frame_time_of(&account, "uTime") {
        Ok(t) => t,
        Err(e) => return Err(e),
    };
    let ghost acc = account;
    let details = match account {
        JsonValue::Object(members) => match obj_take(members, "details") {
            Some(JsonValue::Array(d)) => d,
            _ => return Err(
                Error::Adapter { exchange: ExchangeId::Okx, message: owned("OKX account frame missing details") },
            ),
        },
        _ => return Err(
            Error::Adapter { exchange: ExchangeId::Okx, message: owned("OKX account frame missing details") },
        ),
    };
    let ghost ds = details@;
    assert(account_details(acc) == Some(ds));
    let mut rest = details;
    let mut out: Vec<PrivateAccountStreamRecord> = Vec::new();
    let ghost mut k: int = 0;
    proof {
        assert(detail_refusals(ds.take(0), fallback) =~= Seq::<Option<Seq<char>>>::empty());
    }
    while rest.len() > 0
        invariant
            0 <= k <= ds.len(),
            rest@ =~= ds.skip(k),
            out@.len() == k,
            forall|i: int| 0 <= i < k ==> balance_record_of(ds[i], fallback, #[trigger] out@[i]),
            first_refusal(detail_refusals(ds.take(k), fallback)) is None,
            fallback == frame_time(acc, "uTime"@),
            account_details(acc) == Some(ds),
            !frame_time_invalid(acc, "uTime"@),
            acc == account,
        decreases rest.len(),
    {
        let detail = rest.remove(0);
        proof {
            assert(detail == ds[k]);
            assert(detail_refusals(ds.take(k + 1), fallback).drop_last() =~= detail_refusals(
                ds.take(k),
                fallback,
            ));
            assert(detail_refusals(ds.take(k + 1), fallback).last() == detail_refusal(ds[k], fallback));
        }
        let rec = match balance_record(detail, fallback) {
            Ok(rec) => rec,
            Err(e) => {
                proof {
                    let all = detail_refusals(ds, fallback);
                    assert(all.take(k + 1) =~= detail_refusals(ds.take(k + 1), fallback));
                    lemma_refusal_stays(all, k + 1);
                }
                return Err(e);
            },
        };
        out.push(rec);
        proof {
            k = k + 1;
            assert(rest@ =~= ds.skip(k));
        }
    }
    proof {
        assert(ds.take(k) =~= ds);
    }
    Ok(out)
}

/// What the `account` channel gives for `data`.
pub open spec fn balances_outcome(data: Seq<JsonValue>, r: Result<PrivateAccountStreamFrame>) -> bool {
    match first_refusal(account_refusals(data)) {
        Some(m) => r matches Err(e) && e.is_adapter(ExchangeId::Okx, m),
        None => r matches Ok(PrivateAccountStreamFrame::Records(v)) && balance_records_of(data, v@),
    }
}

fn parse_balances(data: Vec<JsonValue>) -> (r: Result<PrivateAccountStreamFrame>)
    ensures
        balances_outcome(data@, r),
{
    let ghost all = data@;
    let mut rest = data;
    let mut out: Vec<PrivateAccountStreamRecord> = Vec::new();
    let ghost mut k: int = 0;
    proof {
        assert(account_refusals(all.take(0)) =~= Seq::<Option<Seq<char>>>::empty());
        assert(all.take(0) =~= Seq::<JsonValue>::empty());
    }
    while rest.len() > 0
        invariant
            0 <= k <= all.len(),
            all == data@,
            rest@ =~= all.skip(k),
            balance_records_of(all.take(k), out@),
            first_refusal(account_refusals(all.take(k))) is None,
        decreases rest.len(),
    {
        let account = rest.remove(0);
        proof {
            assert(account == all[k]);
            assert(account_refusals(all.take(k + 1)).drop_last() =~= account_refusals(all.take(k)));
            assert(account_refusals(all.take(k + 1)).last() == account_refusal(all[k]));
            assert(all.take(k + 1).drop_last() =~= all.take(k));
            assert(all.take(k + 1).last() == all[k]);
        }
        let recs = match account_records(account) {
            Ok(v) => v,
            Err(e) => {
                proof {
                    let rs = account_refusals(all);
                    assert(rs.take(k + 1) =~= account_refusals(all.take(k + 1)));
                    lemma_refusal_stays(rs, k + 1);
                }
                return Err(e);
            },
        };
        let ghost before = out@;
        let mut more = recs;
        out.append(&mut more);
        proof {
            let n = before.len();
            assert(out@.take(n as int) =~= before);
            assert(out@.skip(n as int) =~= recs@);
            k = k + 1;
            assert(rest@ =~= all.skip(k));
        }
    }
    proof {
        assert(all.take(k) =~= all);
    }
    Ok(PrivateAccountStreamFrame::Records(out))
}

// ----------------------------------------------------------------------------
// Positions
// ----------------------------------------------------------------------------

/// The identity of a position: `posId`, else the instrument and side.
pub open spec fn position_identity(p: JsonValue) -> Seq<char> {
    match frame_text(p, "posId"@) {
        Some(id) => id,
        None => or_empty(frame_text(p, "instId"@)) + ":"@ + or_empty(frame_text(p, "posSide"@)),
    }
}

/// Why a position item is refused, if it is.
pub open spec fn position_refusal(p: JsonValue) -> Option<Seq<char>> {
    if frame_time_invalid(p, "uTime"@) {
        Some("invalid OKX private timestamp"@)
    } else if frame_time(p, "uTime"@) is None {
        Some("private account frame missing timestamp"@)
    } else if frame_time_invalid(p, "pTime"@) {
        Some("invalid OKX private timestamp"@)
    } else if position_identity(p) == ":"@ {
        Some("OKX position frame missing business identity"@)
    } else if frame_text(p, "instId"@) is None {
        Some("private account frame missing identity"@)
    } else if frame_text(p, "pos"@) is None {
        Some("private account frame missing identity"@)
    } else {
        None
    }
}

/// The push time of a position: `pTime`, else its update time `u`.
pub open spec fn push_time(p: JsonValue, u: u64) -> u64 {
    match frame_time(p, "pTime"@) {
        Some(t) => t,
        None => u,
    }
}

/// `r` is the position record of an item: its update time is the
/// transaction time, its push time the event time, and both name it with
/// the position's identity.
pub open spec fn position_record_of(p: JsonValue, r: PrivateAccountStreamRecord) -> bool {
    &&& frame_time(p, "uTime"@) matches Some(u)
    &&& frame_text(p, "instId"@) matches Some(symbol)
    &&& frame_text(p, "pos"@) matches Some(size)
    &&& r.exchange == ExchangeId::Okx
    &&& r.provider_event_time_ms == push_time(p, u)
    &&& r.provider_transaction_time_ms == Some(u)
    &&& r.event_identity@ == "position:"@ + position_identity(p) + ":"@ + decimal(u as nat) + ":"@
        + decimal(push_time(p, u) as nat)
    &&& r.change matches PrivateAccountStreamChange::Position(c)
    &&& c.exchange_symbol@ == symbol
    &&& opt_view(c.side) == frame_text(p, "posSide"@)
    &&& c.size@ == size
    &&& opt_view(c.entry_price) == frame_text(p, "avgPx"@)
    &&& opt_view(c.mark_price) == frame_text(p, "markPx"@)
    &&& opt_view(c.unrealized_pnl) == frame_text(p, "upl"@)
    &&& opt_view(c.leverage) == frame_text(p, "lever"@)
    &&& opt_view(c.margin_mode) == frame_text(p, "mgnMode"@)
    &&& opt_view(c.liquidation_price) == frame_text(p, "liqPx"@)
    &&& c.source_updated_at_ms == u
    &&& r.raw_payload == p
}

fn text_or_empty(t: Option<String>) -> (r: String)
    ensures
        r@ == or_empty(opt_view(t)),
{
    match t {
        Some(s) => s,
        None => String::new(),
    }
}

fn position_record(p: JsonValue) -> (r: Result<PrivateAccountStreamRecord>)
    ensures
        match position_refusal(p) {
            Some(m) => r matches Err(e) && e.is_adapter(ExchangeId::Okx, m),
            None => r matches Ok(rec) && position_record_of(p, rec),
        },
{
    let u = match frame_time_of(&p, "uTime") {
        Ok(Some(u)) => u,
        Ok(None) => return Err(missing_timestamp(ExchangeId::Okx)),
        Err(e) => return Err(e),
    };
    let push = match frame_time_of(&p, "pTime") {
        Ok(Some(t)) => t,
        Ok(None) => u,
        Err(e) => return Err(e),
    };
    let identity = match frame_text_of(&p, "posId") {
        Some(id) => id,
        None => {
            let a = text_or_empty(frame_text_of(&p, "instId"));
            let b = concat(a.as_str(), ":");
            let c = text_or_empty(frame_text_of(&p, "posSide"));
            concat(b.as_str(), c.as_str())
        },
    };
    if text_eq(identity.as_str(), ":") {
        return Err(
            Error::Adapter {
                exchange: ExchangeId::Okx,
                message: owned("OKX position frame missing business identity"),
            },
        );
    }
    let symbol = match frame_text_of(&p, "instId") {
        Some(s) => s,
        None => return Err(missing_identity(ExchangeId::Okx)),
    };
    let size = match frame_text_of(&p, "pos") {
        Some(s) => s,
        None => return Err(missing_identity(ExchangeId::Okx)),
    };
    let a = concat("position:", identity.as_str());
    let b = concat(a.as_str(), ":");
    let c = concat(b.as_str(), u64_to_text(u).as_str());
    let d = concat(c.as_str(), ":");
    let event_identity = concat(d.as_str(), u64_to_text(push).as_str());
    let change = PrivatePositionStreamChange {
        exchange_symbol: symbol,
        side: frame_text_of(&p, "posSide"),
        size,
        entry_price: frame_text_of(&p, "avgPx"),
        mark_price: frame_text_of(&p, "markPx"),
        unrealized_pnl: frame_text_of(&p, "upl"),
        leverage: frame_text_of(&p, "lever"),
        margin_mode: frame_text_of(&p, "mgnMode"),
        liquidation_price: frame_text_of(&p, "liqPx"),
        source_updated_at_ms: u,
    };
    Ok(
        PrivateAccountStreamRecord {
            exchange: ExchangeId::Okx,
            provider_event_time_ms: push,
            provider_transaction_time_ms: Some(u),
            event_identity,
            change: PrivateAccountStreamChange::Position(change),
            raw_payload: p,
        },
    )
}

/// Why each position item is refused, if it is.
pub open spec fn position_refusals(data: Seq<JsonValue>) -> Seq<Option<Seq<char>>> {
    Seq::new(data.len(), |i: int| position_refusal(data[i]))
}

/// What the `positions` channel gives for `data`: one record per item.
pub open spec fn positions_outcome(data: Seq<JsonValue>, r: Result<PrivateAccountStreamFrame>) -> bool {
    match first_refusal(position_refusals(data)) {
        Some(m) => r matches Err(e) && e.is_adapter(ExchangeId::Okx, m),
        None => r matches Ok(PrivateAccountStreamFrame::Records(v)) && v@.len() == data.len() && forall|
            i: int,
        |
            0 <= i < data.len() ==> position_record_of(data[i], #[trigger] v@[i]),
    }
}

fn parse_positions(data: Vec<JsonValue>) -> (r: Result<PrivateAccountStreamFrame>)
    ensures
        positions_outcome(data@, r),
{
    let ghost all = data@;
    let mut rest = data;
    let mut out: Vec<PrivateAccountStreamRecord> = Vec::new();
    let ghost mut k: int = 0;
    proof {
        assert(position_refusals(all.take(0)) =~= Seq::<Option<Seq<char>>>::empty());
    }
    while rest.len() > 0
        invariant
            0 <= k <= all.len(),
            all == data@,
            rest@ =~= all.skip(k),
            out@.len() == k,
            forall|i: int| 0 <= i < k ==> position_record_of(all[i], #[trigger] out@[i]),
            first_refusal(position_refusals(all.take(k))) is None,
        decreases rest.len(),
    {
        let p = rest.remove(0);
        proof {
            assert(p == all[k]);
            assert(position_refusals(all.take(k + 1)).drop_last() =~= position_refusals(all.take(k)));
            assert(position_refusals(all.take(k + 1)).last() == position_refusal(all[k]));
        }
        let rec = match position_record(p) {
            Ok(rec) => rec,
            Err(e) => {
                proof {
                    let rs = position_refusals(all);
                    assert(rs.take(k + 1) =~= position_refusals(all.take(k + 1)));
                    lemma_refusal_stays(rs, k + 1);
                }
                return Err(e);
            },
        };
        out.push(rec);
        proof {
            k = k + 1;
            assert(rest@ =~= all.skip(k));
        }
    }
    proof {
        assert(all.take(k) =~= all);
    }
    Ok(PrivateAccountStreamFrame::Records(out))
}

// ----------------------------------------------------------------------------
// Orders
// ----------------------------------------------------------------------------

/// Why an order item is refused, if it is.
pub open spec fn order_refusal(o: JsonValue) -> Option<Seq<char>> {
    if frame_text(o, "ordId"@) is None {
        Some("private account frame missing identity"@)
    } else if frame_text(o, "instId"@) is None {
        Some("private account frame missing identity"@)
    } else if frame_time_invalid(o, "uTime"@) {
        Some("invalid OKX private timestamp"@)
    } else if frame_time(o, "uTime"@) is None {
        Some("private account frame missing timestamp"@)
    } else if frame_text(o, "state"@) is None {
        Some("private account frame missing identity"@)
    } else if frame_time_invalid(o, "cTime"@) {
        Some("invalid OKX private timestamp"@)
    } else {
        None
    }
}

/// The trade of an order item: `tradeId`, else `none`.
pub open spec fn trade_identity(o: JsonValue) -> Seq<char> {
    match frame_text(o, "tradeId"@) {
        Some(t) => t,
        None => "none"@,
    }
}

/// `r` is the order record of an item, named by its instrument, order,
/// trade and update time.
pub open spec fn order_record_of(o: JsonValue, r: PrivateAccountStreamRecord) -> bool {
    &&& frame_text(o, "ordId"@) matches Some(id)
    &&& frame_text(o, "instId"@) matches Some(symbol)
    &&& frame_time(o, "uTime"@) matches Some(u)
    &&& frame_text(o, "state"@) matches Some(status)
    &&& r.exchange == ExchangeId::Okx
    &&& r.provider_event_time_ms == u
    &&& r.provider_transaction_time_ms == Some(u)
    &&& r.event_identity@ == "order:"@ + symbol + ":"@ + id + ":"@ + trade_identity(o) + ":"@ + decimal(
        u as nat,
    )
    &&& r.change matches PrivateAccountStreamChange::Order(c)
    &&& c.exchange_symbol@ == symbol
    &&& c.order_id@ == id
    &&& opt_view(c.client_order_id) == frame_text(o, "clOrdId"@)
    &&& opt_view(c.side) == frame_text(o, "side"@)
    &&& opt_view(c.order_type) == frame_text(o, "ordType"@)
    &&& opt_view(c.price) == frame_text(o, "px"@)
    &&& opt_view(c.size) == frame_text(o, "sz"@)
    &&& opt_view(c.filled_size) == frame_text(o, "accFillSz"@)
    &&& c.status@ == status
    &&& c.created_at_ms == frame_time(o, "cTime"@)
    &&& c.source_updated_at_ms == u
    &&& r.raw_payload == o
}

fn order_record(o: JsonValue) -> (r: Result<PrivateAccountStreamRecord>)
    ensures
        match order_refusal(o) {
            Some(m) => r matches Err(e) && e.is_adapter(ExchangeId::Okx, m),
            None => r matches Ok(rec) && order_record_of(o, rec),
        },
{
    let id = match frame_text_of(&o, "ordId") {
        Some(s) => s,
        None => return Err(missing_identity(ExchangeId::Okx)),
    };
    let symbol = match frame_text_of(&o, "instId") {
        Some(s) => s,
        None => return Err(missing_identity(ExchangeId::Okx)),
    };
    let u = match frame_time_of(&o, "uTime") {
        Ok(Some(u)) => u,
        Ok(None) => return Err(missing_timestamp(ExchangeId::Okx)),
        Err(e) => return Err(e),
    };
    let trade = match frame_text_of(&o, "tradeId") {
        Some(t) => t,
        None => owned("none"),
    };
    let status = match frame_text_of(&o, "state") {
        Some(s) => s,
        None => return Err(missing_identity(ExchangeId::Okx)),
    };
    let created = match frame_time_of(&o, "cTime") {
        Ok(t) => t,
        Err(e) => return Err(e),
    };
    let a = concat("order:", symbol.as_str());
    let b = concat(a.as_str(), ":");
    let c = concat(b.as_str(), id.as_str());
    let d = concat(c.as_str(), ":");
    let e = concat(d.as_str(), trade.as_str());
    let f = concat(e.as_str(), ":");
    let event_identity = concat(f.as_str(), u64_to_text(u).as_str());
    let change = PrivateOrderStreamChange {
        exchange_symbol: symbol,
        order_id: id,
        client_order_id: frame_text_of(&o, "clOrdId"),
        side: frame_text_of(&o, "side"),
        order_type: frame_text_of(&o, "ordType"),
        price: frame_text_of(&o, "px"),
        size: frame_text_of(&o, "sz"),
        filled_size: frame_text_of(&o, "accFillSz"),
        status,
        created_at_ms: created,
        source_updated_at_ms: u,
    };
    Ok(
        PrivateAccountStreamRecord {
            exchange: ExchangeId::Okx,
            provider_event_time_ms: u,
            provider_transaction_time_ms: Some(u),
            event_identity,
            change: PrivateAccountStreamChange::Order(change),
            raw_payload: o,
        },
    )
}

/// Why each order item is refused, if it is.
pub open spec fn order_refusals(data: Seq<JsonValue>) -> Seq<Option<Seq<char>>> {
    Seq::new(data.len(), |i: int| order_refusal(data[i]))
}

/// What the `orders` channel gives for `data`: one record per item.
pub open spec fn orders_outcome(data: Seq<JsonValue>, r: Result<PrivateAccountStreamFrame>) -> bool {
    match first_refusal(order_refusals(data)) {
        Some(m) => r matches Err(e) && e.is_adapter(ExchangeId::Okx, m),
        None => r matches Ok(PrivateAccountStreamFrame::Records(v)) && v@.len() == data.len() && forall|
            i: int,
        |
            0 <= i < data.len() ==> order_record_of(data[i], #[trigger] v@[i]),
    }
}

fn parse_orders(data: Vec<JsonValue>) -> (r: Result<PrivateAccountStreamFrame>)
    ensures
        orders_outcome(data@, r),
{
    let ghost all = data@;
    let mut rest = data;
    let mut out: Vec<PrivateAccountStreamRecord> = Vec::new();
    let ghost mut k: int = 0;
    proof {
        assert(order_refusals(all.take(0)) =~= Seq::<Option<Seq<char>>>::empty());
    }
    while rest.len() > 0
        invariant
            0 <= k <= all.len(),
            all == data@,
            rest@ =~= all.skip(k),
            out@.len() == k,
            forall|i: int| 0 <= i < k ==> order_record_of(all[i], #[trigger] out@[i]),
            first_refusal(order_refusals(all.take(k))) is None,
        decreases rest.len(),
    {
        let o = rest.remove(0);
        proof {
            assert(o == all[k]);
            assert(order_refusals(all.take(k + 1)).drop_last() =~= order_refusals(all.take(k)));
            assert(order_refusals(all.take(k + 1)).last() == order_refusal(all[k]));
        }
        let rec = match order_record(o) {
            Ok(rec) => rec,
            Err(e) => {
                proof {
                    let rs = order_refusals(all);
                    assert(rs.take(k + 1) =~= order_refusals(all.take(k + 1)));
                    lemma_refusal_stays(rs, k + 1);
                }
                return Err(e);
            },
        };
        out.push(rec);
        proof {
            k = k + 1;
            assert(rest@ =~= all.skip(k));
        }
    }
    proof {
        assert(all.take(k) =~= all);
    }
    Ok(PrivateAccountStreamFrame::Records(out))
}

// ----------------------------------------------------------------------------
// Frames
// ----------------------------------------------------------------------------

/// The control answers OKX sends on a private connection.
pub open spec fn okx_control_event(s: Seq<char>) -> bool {
    s == "login"@ || s == "subscribe"@ || s == "unsubscribe"@
}

/// The channel a frame is pushed on (`arg.channel`).
pub open spec fn okx_channel(payload: JsonValue) -> Option<Seq<char>> {
    match json_get(payload, "arg"@) {
        Some(arg) => match json_get(arg, "channel"@) {
            Some(JsonValue::String(c)) => Some(c@),
            _ => None,
        },
        None => None,
    }
}

/// The data items of a frame.
pub open spec fn okx_data(payload: JsonValue) -> Option<Seq<JsonValue>> {
    match json_get(payload, "data"@) {
        Some(JsonValue::Array(d)) => Some(d@),
        _ => None,
    }
}

/// What an OKX private frame gives: a control answer for a known `event`,
/// else the records of the `account`, `positions` or `orders` channel.
pub open spec fn okx_frame_outcome(payload: JsonValue, r: Result<PrivateAccountStreamFrame>) -> bool {
    match json_get(payload, "event"@) {
        Some(JsonValue::String(ev)) => if okx_control_event(ev@) {
            r matches Ok(PrivateAccountStreamFrame::Control { exchange, event }) && exchange
                == ExchangeId::Okx && event@ == ev@
        } else {
            r matches Err(e) && e.is_adapter(ExchangeId::Okx, "unknown OKX private control event"@)
        },
        _ => match okx_channel(payload) {
            None => r matches Err(e) && e.is_adapter(ExchangeId::Okx, "OKX private frame missing channel"@),
            Some(c) => match okx_data(payload) {
                None => r matches Err(e) && e.is_adapter(ExchangeId::Okx, "OKX private frame missing data"@),
                Some(d) => if c == "account"@ {
                    balances_outcome(d, r)
                } else if c == "positions"@ {
                    positions_outcome(d, r)
                } else if c == "orders"@ {
                    orders_outcome(d, r)
                } else {
                    r matches Err(e) && e.is_adapter(
                        ExchangeId::Okx,
                        "unsupported OKX private account channel"@,
                    )
                },
            },
        },
    }
}

fn okx_error(message: &str) -> (e: Error)
    ensures
        e.is_adapter(ExchangeId::Okx, message@),
{
    Error::Adapter { exchange: ExchangeId::Okx, message: owned(message) }
}

/// Reads an OKX private frame (see `okx_frame_outcome`).
pub fn parse_okx_frame(payload: JsonValue) -> (r: Result<PrivateAccountStreamFrame>)
    ensures
        okx_frame_outcome(payload, r),
{
    let ghost whole = payload;
    let members = match payload {
        JsonValue::Object(m) => m,
        _ => return Err(okx_error("OKX private frame missing channel")),
    };
    match obj_lookup(&members, "event") {
        Some(JsonValue::String(ev)) => {
            if text_eq(ev.as_str(), "login") || text_eq(ev.as_str(), "subscribe") || text_eq(
                ev.as_str(),
                "unsubscribe",
            ) {
                return Ok(PrivateAccountStreamFrame::Control { exchange: ExchangeId::Okx, event: copy_string(ev) });
            }
            return Err(okx_error("unknown OKX private control event"));
        },
        _ => {},
    }
    let channel = match obj_lookup(&members, "arg") {
        Some(arg) => match json_lookup(arg, "channel") {
            Some(JsonValue::String(c)) => copy_string(c),
            _ => return Err(okx_error("OKX private frame missing channel")),
        },
        None => return Err(okx_error("OKX private frame missing channel")),
    };
    assert(okx_channel(whole) == Some(channel@));
    let data = match obj_take(members, "data") {
        Some(JsonValue::Array(d)) => d,
        _ => return Err(okx_error("OKX private frame missing data")),
    };
    assert(okx_data(whole) == Some(data@));
    if text_eq(channel.as_str(), "account") {
        parse_balances(data)
    } else if text_eq(channel.as_str(), "positions") {
        parse_positions(data)
    } else if text_eq(channel.as_str(), "orders") {
        parse_orders(data)
    } else {
        Err(okx_error("unsupported OKX private account channel"))
    }
}

} // verus!
