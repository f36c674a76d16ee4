//! Hyperliquid ledgers: the entries of an account's funding and non-funding
//! ledgers as account bills, which ledgers a bill query reads, and the order
//! in which the bills come out.
use crate::account::{AccountBill, AccountBillQuery};
use crate::error::{Error, Result};
use crate::exchange::ExchangeId;
use crate::hyperliquid::market::limited;
use crate::hyperliquid::orders::is_coin_perp;
use crate::instrument::Instrument;
use crate::json::{
    first_str_field, first_string_field, obj_get, obj_lookup, str_field, string_field,
    u64_field, u64_field_spec, JsonValue,
};
use crate::text::{
    ascii_lower, concat, opt_view, owned, text_eq, text_is_empty, to_ascii_lowercase, trim,
    trim_text,
};
use vstd::prelude::*;

verus! {

broadcast use vstd::std_specs::vec::group_vec_axioms;

/// The `delta` object of a ledger entry.
pub open spec fn delta_of(e: Seq<(String, JsonValue)>) -> Option<Seq<(String, JsonValue)>> {
    match obj_get(e, "delta"@) {
        Some(JsonValue::Object(d)) => Some(d@),
        _ => None,
    }
}

/// The text of member `key` of the entry's `delta`.
pub open spec fn delta_str(e: Seq<(String, JsonValue)>, key: Seq<char>) -> Option<Seq<char>> {
    match delta_of(e) {
        Some(d) => str_field(d, key),
        None => None,
    }
}

/// The amount of the entry's `delta`: `usdc`, `amount`, `usdcDelta` or
/// `delta`, the first that has one.
pub open spec fn delta_change(e: Seq<(String, JsonValue)>) -> Option<Seq<char>> {
    match delta_of(e) {
        Some(d) => first_str_field(d, seq!["usdc", "amount", "usdcDelta", "delta"]),
        None => None,
    }
}

fn delta_string(e: &Vec<(String, JsonValue)>, key: &str) -> (r: Option<String>)
    ensures
        opt_view(r) == delta_str(e@, key@),
{
    match obj_lookup(e, "delta") {
        Some(JsonValue::Object(d)) => string_field(d, key),
        _ => None,
    }
}

fn delta_change_of(e: &Vec<(String, JsonValue)>) -> (r: Option<String>)
    ensures
        opt_view(r) == delta_change(e@),
{
    match obj_lookup(e, "delta") {
        Some(JsonValue::Object(d)) => {
            let keys = ["usdc", "amount", "usdcDelta", "delta"];
            assert(keys@ =~= seq!["usdc", "amount", "usdcDelta", "delta"]);
            first_string_field(d, &keys)
        },
        _ => None,
    }
}

/// `o` is the accountbill read from an item (see `hyperliquid_bill_from_value`).
pub open spec fn hyperliquid_bill_from_value_of(
    exchange: ExchangeId,
    raw: JsonValue,
    o: AccountBill,
) -> bool {
    match raw {
        JsonValue::Object(e) => {
            &&& o.exchange == exchange
            &&& match delta_str(e@, "coin"@) { Some(c) => o.instrument matches Some(i) && is_coin_perp(i, c), None => o.instrument is None }
            &&& opt_view(o.exchange_symbol) == delta_str(e@, "coin"@)
            &&& opt_view(o.bill_id) == str_field(e@, "hash"@)
            &&& opt_view(o.asset) == Some("USDC"@)
            &&& opt_view(o.balance_change) == delta_change(e@)
            &&& o.balance_after is None
            &&& o.fee is None
            &&& o.pnl is None
            &&& opt_view(o.bill_type) == delta_str(e@, "type"@)
            &&& o.bill_sub_type is None
            &&& o.order_id is None
            &&& o.trade_id is None
            &&& o.timestamp == u64_field_spec(e@, "time"@)
            &&& o.raw.model() == raw.model()
        },
        _ => false,
    }
}

/// One entry of a Hyperliquid ledger (`userNonFundingLedgerUpdates` or
/// `userFunding`): its `delta` says the coin, the change and the kind.
pub fn hyperliquid_bill_from_value(
    exchange: ExchangeId,
    raw: &JsonValue,
) -> (r: Result<AccountBill>)
    ensures
        *raw is Object ==> (r matches Ok(o) && hyperliquid_bill_from_value_of(exchange, *raw, o)),
        !(*raw is Object) ==> (r matches Err(err) && err.is_adapter(exchange, "Hyperliquid ledger item is not an object"@)),
{
    let e = match raw {
        JsonValue::Object(e) => e,
        _ => return Err(Error::Adapter { exchange: exchange, message: owned("Hyperliquid ledger item is not an object") }),
    };
    let coin = delta_string(e, "coin");
    let exchange = exchange;
    let instrument = match &coin { Some(c) => Some(Instrument::perp(c.as_str(), "USDC")), None => None };
    let exchange_symbol = coin;
    let bill_id = string_field(e, "hash");
    let asset = Some(owned("USDC"));
    let balance_change = delta_change_of(e);
    let balance_after = None;
    let fee = None;
    let pnl = None;
    let bill_type = delta_string(e, "type");
    let bill_sub_type = None;
    let order_id = None;
    let trade_id = None;
    let timestamp = u64_field(e, "time");
    Ok(AccountBill { exchange, instrument, exchange_symbol, bill_id, asset, balance_change, balance_after, fee, pnl, bill_type, bill_sub_type, order_id, trade_id, timestamp, raw: raw.copy() })
}

/// The entries of a ledger answer, each as a bill; `label` names the answer.
pub fn hyperliquid_bills_from_value(raw: &JsonValue, label: &str) -> (r: Result<Vec<AccountBill>>)
    ensures
        !(*raw is Array) ==> (r matches Err(e) && e.is_adapter(
            ExchangeId::Hyperliquid,
            label@ + " is not an array"@,
        )),
        *raw matches JsonValue::Array(items) ==> if forall|i: int|
            0 <= i < items@.len() ==> #[trigger] items@[i] is Object {
            r matches Ok(out) && out@.len() == items@.len() && forall|i: int|
                0 <= i < items@.len() ==> hyperliquid_bill_from_value_of(
                    ExchangeId::Hyperliquid,
                    items@[i],
                    #[trigger] out@[i],
                )
        } else {
            r matches Err(e) && e.is_adapter(
                ExchangeId::Hyperliquid,
                "Hyperliquid ledger item is not an object"@,
            )
        },
{
    let items = match raw {
        JsonValue::Array(items) => items,
        _ => return Err(
            Error::Adapter { exchange: ExchangeId::Hyperliquid, message: concat(label, " is not an array") },
        ),
    };
    let mut out: Vec<AccountBill> = Vec::new();
    let mut i: usize = 0;
    while i < items.len()
        invariant
            i <= items.len(),
            *raw is Array && raw->Array_0@ == items@,
            out@.len() == i,
            forall|k: int| 0 <= k < i ==> #[trigger] items@[k] is Object,
            forall|k: int|
                0 <= k < i ==> hyperliquid_bill_from_value_of(
                    ExchangeId::Hyperliquid,
                    items@[k],
                    #[trigger] out@[k],
                ),
        decreases items.len() - i,
    {
        match hyperliquid_bill_from_value(ExchangeId::Hyperliquid, &items[i]) {
            Ok(b) => out.push(b),
            Err(e) => {
                assert(!(items@[i as int] is Object));
                return Err(e);
            },
        }
        i += 1;
    }
    Ok(out)
}

/// Which Hyperliquid ledgers answer a bill query.
#[derive(Debug, Clone, Copy, PartialEq, Eq)]
pub enum HyperliquidLedgers {
    /// The non-funding ledger, then the funding ledger.
    Both,
    Funding,
    NonFunding,
}

/// The bill type asked for, trimmed and lower-cased.
pub open spec fn hl_asked_kind(query: AccountBillQuery) -> Option<Seq<char>> {
    match query.bill_type {
        Some(t) => Some(ascii_lower(trim(t@))),
        None => None,
    }
}

/// The ledgers that answer a bill type, if any does.
pub open spec fn hl_ledgers_for(kind: Option<Seq<char>>) -> Option<HyperliquidLedgers> {
    match kind {
        None => Some(HyperliquidLedgers::Both),
        Some(k) => if k.len() == 0 {
            Some(HyperliquidLedgers::Both)
        } else if k == "funding"@ {
            Some(HyperliquidLedgers::Funding)
        } else if k == "non_funding"@ || k == "nonfunding"@ || k == "ledger"@ || k
            == "non_funding_ledger"@ {
            Some(HyperliquidLedgers::NonFunding)
        } else {
            None
        },
    }
}

/// How a bill query is answered: from its start time, for the configured
/// user, from the ledgers that its bill type names. A query needs a start
/// time and a user; any other bill type is unsupported.
pub fn hyperliquid_bill_plan(query: &AccountBillQuery, user: Option<&str>) -> (r: Result<
    (u64, String, HyperliquidLedgers),
>)
    ensures
        query.start_time is None ==> (r matches Err(e) && e.is_adapter(
            ExchangeId::Hyperliquid,
            "Hyperliquid account bills require start_time"@,
        )),
        query.start_time is Some && user is None ==> (r matches Err(e) && e matches Error::Config(m)
            && m@ == "HYPERLIQUID_USER_ADDRESS is required for Hyperliquid account bills"@),
        query.start_time is Some && user is Some ==> match hl_ledgers_for(hl_asked_kind(*query)) {
            Some(ledgers) => r matches Ok((start, u, l)) && start == query.start_time->0 && u@
                == user->0@ && l == ledgers,
            None => r matches Err(e) && e.is_unsupported(
                ExchangeId::Hyperliquid,
                "Hyperliquid account bill_type filter"@,
            ),
        },
{
    let start = match query.start_time {
        Some(s) => s,
        None => return Err(
            Error::Adapter {
                exchange: ExchangeId::Hyperliquid,
                message: owned("Hyperliquid account bills require start_time"),
            },
        ),
    };
    let user = match user {
        Some(u) => owned(u),
        None => return Err(
            Error::Config(owned("HYPERLIQUID_USER_ADDRESS is required for Hyperliquid account bills")),
        ),
    };
    let ledgers = match &query.bill_type {
        None => HyperliquidLedgers::Both,
        Some(t) => {
            let trimmed = trim_text(t.as_str());
            let kind = to_ascii_lowercase(trimmed.as_str());
            let k = kind.as_str();
            if text_is_empty(k) {
                HyperliquidLedgers::Both
            } else if text_eq(k, "funding") {
                HyperliquidLedgers::Funding
            } else if text_eq(k, "non_funding") || text_eq(k, "nonfunding") || text_eq(k, "ledger")
                || text_eq(k, "non_funding_ledger") {
                HyperliquidLedgers::NonFunding
            } else {
                return Err(
                    Error::Unsupported {
                        exchange: ExchangeId::Hyperliquid,
                        capability: "Hyperliquid account bill_type filter",
                    },
                );
            }
        },
    };
    Ok((start, user, ledgers))
}

/// The time by which bills are ordered; a bill without a time comes last.
pub open spec fn bill_key(b: AccountBill) -> u64 {
    match b.timestamp {
        Some(t) => t,
        None => u64::MAX,
    }
}

/// `s` with `b` placed after every bill of `s` that is not later than `b`,
/// looking from the end: where a stable sort by time puts a bill that comes
/// after all of `s`.
pub open spec fn insert_by_time(s: Seq<AccountBill>, b: AccountBill) -> Seq<AccountBill>
    decreases s.len(),
{
    if s.len() == 0 {
        seq![b]
    } else if bill_key(b) < bill_key(s.last()) {
        insert_by_time(s.drop_last(), b).push(s.last())
    } else {
        s.push(b)
    }
}

/// `s` sorted by time, bills of the same time in their order in `s`
/// (`sort_by_key`, which is stable).
pub open spec fn sort_by_time(s: Seq<AccountBill>) -> Seq<AccountBill>
    decreases s.len(),
{
    if s.len() == 0 {
        s
    } else {
        insert_by_time(sort_by_time(s.drop_last()), s.last())
    }
}

/// No bill comes before an earlier one.
pub open spec fn sorted_by_time(s: Seq<AccountBill>) -> bool {
    forall|i: int, j: int| 0 <= i <= j < s.len() ==> bill_key(#[trigger] s[i]) <= bill_key(#[trigger] s[j])
}

/// No bill is later than `k`.
pub open spec fn no_later_than(s: Seq<AccountBill>, k: u64) -> bool {
    forall|i: int| 0 <= i < s.len() ==> bill_key(#[trigger] s[i]) <= k
}

proof fn lemma_insert_no_later(s: Seq<AccountBill>, b: AccountBill, k: u64)
    requires
        no_later_than(s, k),
        bill_key(b) <= k,
    ensures
        no_later_than(insert_by_time(s, b), k),
    decreases s.len(),
{
    if s.len() > 0 && bill_key(b) < bill_key(s.last()) {
        lemma_insert_no_later(s.drop_last(), b, k);
    }
}

proof fn lemma_insert_sorted(s: Seq<AccountBill>, b: AccountBill)
    requires
        sorted_by_time(s),
    ensures
        sorted_by_time(insert_by_time(s, b)),
    decreases s.len(),
{
    if s.len() > 0 && bill_key(b) < bill_key(s.last()) {
        let t = s.drop_last();
        lemma_insert_sorted(t, b);
        lemma_insert_no_later(t, b, bill_key(s.last()));
        let u = insert_by_time(t, b);
        assert forall|i: int, j: int| 0 <= i <= j < u.len() + 1 implies bill_key(
            #[trigger] u.push(s.last())[i],
        ) <= bill_key(#[trigger] u.push(s.last())[j]) by {
            if j == u.len() {
                assert(u.push(s.last())[i] == u[i] || i == u.len());
            }
        }
    }
}

proof fn lemma_insert_multiset(s: Seq<AccountBill>, b: AccountBill)
    ensures
        insert_by_time(s, b).to_multiset() == s.to_multiset().insert(b),
    decreases s.len(),
{
    broadcast use vstd::seq_lib::group_to_multiset_ensures;

    if s.len() == 0 {
        assert(seq![b] =~= Seq::<AccountBill>::empty().push(b));
    } else if bill_key(b) < bill_key(s.last()) {
        let t = s.drop_last();
        lemma_insert_multiset(t, b);
        assert(t.push(s.last()) =~= s);
        assert(insert_by_time(s, b).to_multiset() =~= t.to_multiset().insert(b).insert(s.last()));
        assert(s.to_multiset() =~= t.to_multiset().insert(s.last()));
    }
}

/// Sorting bills by time orders them and keeps every bill, each as often as
/// it came.
pub proof fn sort_by_time_orders_and_keeps(s: Seq<AccountBill>)
    ensures
        sorted_by_time(sort_by_time(s)),
        sort_by_time(s).to_multiset() == s.to_multiset(),
    decreases s.len(),
{
    broadcast use vstd::seq_lib::group_to_multiset_ensures;

    if s.len() > 0 {
        let t = s.drop_last();
        sort_by_time_orders_and_keeps(t);
        lemma_insert_sorted(sort_by_time(t), s.last());
        lemma_insert_multiset(sort_by_time(t), s.last());
        assert(t.push(s.last()) =~= s);
    }
}

proof fn lemma_insert_at(s: Seq<AccountBill>, b: AccountBill, p: int)
    requires
        0 <= p <= s.len(),
        forall|j: int| p <= j < s.len() ==> bill_key(b) < bill_key(#[trigger] s[j]),
        p == 0 || bill_key(b) >= bill_key(s[p - 1]),
    ensures
        insert_by_time(s, b) == s.insert(p, b),
    decreases s.len(),
{
    if s.len() == 0 {
        assert(s.insert(p, b) =~= seq![b]);
    } else if p == s.len() {
        assert(s.insert(p, b) =~= s.push(b));
    } else {
        let t = s.drop_last();
        assert(bill_key(b) < bill_key(s.last()));
        lemma_insert_at(t, b, p);
        assert(t.insert(p, b).push(s.last()) =~= s.insert(p, b));
    }
}

/// A ledger's bills in time order, bills of the same time in the order they
/// came (those without a time last), at most `limit` of them.
pub fn hyperliquid_ordered_bills(bills: Vec<AccountBill>, limit: Option<u32>) -> (r: Vec<AccountBill>)
    ensures
        r@ == limited(sort_by_time(bills@), limit),
{
    let ghost all = bills@;
    let mut rest = bills;
    let mut out: Vec<AccountBill> = Vec::new();
    let mut i: usize = 0;
    let n0 = rest.len();
    assert(n0 == all.len());
    assert(all.skip(0) =~= all);
    assert(all.take(0) =~= Seq::<AccountBill>::empty());
    while rest.len() > 0
        invariant
            i + rest@.len() == all.len(),
            all.len() <= usize::MAX,
            rest@ == all.skip(i as int),
            out@ == sort_by_time(all.take(i as int)),
            out@.len() == i,
        decreases rest@.len(),
    {
        let b = rest.remove(0);
        assert(b == all[i as int]);
        let key = match b.timestamp {
            Some(t) => t,
            None => u64::MAX,
        };
        let mut p: usize = out.len();
        while p > 0
            invariant
                p <= out@.len(),
                key == bill_key(b),
                forall|j: int| p <= j < out@.len() ==> bill_key(b) < bill_key(#[trigger] out@[j]),
            ensures
                p <= out@.len(),
                forall|j: int| p <= j < out@.len() ==> bill_key(b) < bill_key(#[trigger] out@[j]),
                p == 0 || bill_key(b) >= bill_key(out@[p - 1]),
            decreases p,
        {
            let before = match out[p - 1].timestamp {
                Some(t) => t,
                None => u64::MAX,
            };
            if key < before {
                p -= 1;
            } else {
                break;
            }
        }
        proof {
            lemma_insert_at(out@, b, p as int);
            assert(all.take(i + 1).drop_last() =~= all.take(i as int));
            assert(all.take(i + 1).last() == b);
        }
        out.insert(p, b);
        i += 1;
        assert(rest@ =~= all.skip(i as int));
    }
    assert(all.take(i as int) =~= all);
    match limit {
        Some(l) => {
            let n = l as usize;
            out.truncate(n);
        },
        None => {},
    }
    out
}

} // verus!
