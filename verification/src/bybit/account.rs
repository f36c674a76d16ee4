//! Bybit account bills (transfers, deposits, withdrawals) and platform
//! events.
use crate::account::{AccountBill, AccountBillQuery};
use crate::json::{
    list_member, plain_first_u64, plain_first_u64_value, plain_str, plain_string_field, take_list,
};
use crate::error::{Error, Result};
use crate::exchange::ExchangeId;
use crate::json::{or_else, JsonValue};
use crate::platform::{PlatformEvent, PlatformEventQuery};
use crate::text::{ascii_lower, copy_opt, copy_string, opt_view, owned, text_eq, to_ascii_lowercase};
use vstd::prelude::*;

verus! {

broadcast use vstd::std_specs::vec::group_vec_axioms;

/// Which Bybit histories answer a bill query.
#[derive(Debug, Clone, Copy, PartialEq, Eq)]
pub enum BybitAccountBillKind {
    /// Transfers, then deposits, then withdrawals.
    All,
    Transfer,
    Deposit,
    Withdrawal,
}

/// The histories that a bill type names (lower-cased), if any.
pub open spec fn bybit_bill_kind_spec(value: Option<Seq<char>>) -> Option<BybitAccountBillKind> {
    match value {
        None => Some(BybitAccountBillKind::All),
        Some(v) => {
            let k = ascii_lower(v);
            if k == "dnw"@ || k == "all"@ {
                Some(BybitAccountBillKind::All)
            } else if k == "transfer"@ || k == "internal_transfer"@ {
                Some(BybitAccountBillKind::Transfer)
            } else if k == "deposit"@ {
                Some(BybitAccountBillKind::Deposit)
            } else if k == "withdraw"@ || k == "withdrawal"@ {
                Some(BybitAccountBillKind::Withdrawal)
            } else {
                None
            }
        },
    }
}

impl BybitAccountBillKind {
    /// The histories of a bill type: all without one; any other type is
    /// unsupported.
    pub fn from_query(value: Option<&str>) -> (r: Result<BybitAccountBillKind>)
        ensures
            match bybit_bill_kind_spec(match value { Some(v) => Some(v@), None => None }) {
                Some(kind) => r == Ok::<BybitAccountBillKind, Error>(kind),
                None => r matches Err(e) && e.is_unsupported(ExchangeId::Bybit, "account bills type filter"@),
            },
    {
        let v = match value {
            None => return Ok(BybitAccountBillKind::All),
            Some(v) => v,
        };
        let lower = to_ascii_lowercase(v);
        let k = lower.as_str();
        if text_eq(k, "dnw") || text_eq(k, "all") {
            Ok(BybitAccountBillKind::All)
        } else if text_eq(k, "transfer") || text_eq(k, "internal_transfer") {
            Ok(BybitAccountBillKind::Transfer)
        } else if text_eq(k, "deposit") {
            Ok(BybitAccountBillKind::Deposit)
        } else if text_eq(k, "withdraw") || text_eq(k, "withdrawal") {
            Ok(BybitAccountBillKind::Withdrawal)
        } else {
            Err(Error::Unsupported { exchange: ExchangeId::Bybit, capability: "account bills type filter" })
        }
    }

    /// Whether transfers answer the query.
    pub fn includes_transfer(&self) -> (r: bool)
        ensures
            r == (*self == BybitAccountBillKind::All || *self == BybitAccountBillKind::Transfer),
    {
        match self {
            BybitAccountBillKind::All | BybitAccountBillKind::Transfer => true,
            _ => false,
        }
    }

    /// Whether deposits answer the query.
    pub fn includes_deposit(&self) -> (r: bool)
        ensures
            r == (*self == BybitAccountBillKind::All || *self == BybitAccountBillKind::Deposit),
    {
        match self {
            BybitAccountBillKind::All | BybitAccountBillKind::Deposit => true,
            _ => false,
        }
    }

    /// Whether withdrawals answer the query.
    pub fn includes_withdrawal(&self) -> (r: bool)
        ensures
            r == (*self == BybitAccountBillKind::All || *self == BybitAccountBillKind::Withdrawal),
    {
        match self {
            BybitAccountBillKind::All | BybitAccountBillKind::Withdrawal => true,
            _ => false,
        }
    }
}

/// The histories that answer a bill query; Bybit bills take no instrument
/// and no archive filter.
pub fn bybit_bill_kind(query: &AccountBillQuery) -> (r: Result<BybitAccountBillKind>)
    ensures
        (query.instrument is Some || query.archive) ==> (r matches Err(e) && e.is_unsupported(
            ExchangeId::Bybit,
            "account bills instrument/archive filter"@,
        )),
        !(query.instrument is Some || query.archive) ==> match bybit_bill_kind_spec(opt_view(query.bill_type)) {
            Some(kind) => r == Ok::<BybitAccountBillKind, Error>(kind),
            None => r matches Err(e) && e.is_unsupported(ExchangeId::Bybit, "account bills type filter"@),
        },
{
    if query.instrument.is_some() || query.archive {
        return Err(
            Error::Unsupported { exchange: ExchangeId::Bybit, capability: "account bills instrument/archive filter" },
        );
    }
    match &query.bill_type {
        Some(t) => BybitAccountBillKind::from_query(Some(t.as_str())),
        None => BybitAccountBillKind::from_query(None),
    }
}

/// A Bybit record request (transfers, deposits or withdrawals).
#[derive(Debug, Clone, PartialEq, Eq)]
pub struct BybitRecordRequest {
    pub coin: Option<String>,
    pub start_time: Option<u64>,
    pub end_time: Option<u64>,
    pub limit: Option<u32>,
}

/// The record request of a bill query: its asset, times and limit.
pub fn bybit_record_request(query: &AccountBillQuery) -> (r: BybitRecordRequest)
    ensures
        opt_view(r.coin) == opt_view(query.asset),
        r.start_time == query.start_time,
        r.end_time == query.end_time,
        r.limit == query.limit,
{
    BybitRecordRequest {
        coin: copy_opt(&query.asset),
        start_time: query.start_time,
        end_time: query.end_time,
        limit: query.limit,
    }
}

/// `b` is the bill of a Bybit record of the given kind.
pub open spec fn bybit_bill_of(row: JsonValue, bill_type: Seq<char>, id_field: Seq<char>, time_fields: Seq<&str>, b: AccountBill) -> bool {
    &&& b.exchange == ExchangeId::Bybit
    &&& b.instrument is None
    &&& b.exchange_symbol is None
    &&& opt_view(b.bill_id) == plain_str(row, id_field)
    &&& opt_view(b.asset) == plain_str(row, "coin"@)
    &&& opt_view(b.balance_change) == plain_str(row, "amount"@)
    &&& b.balance_after is None
    &&& opt_view(b.fee) == plain_str(row, "fee"@)
    &&& b.pnl is None
    &&& opt_view(b.bill_type) == Some(bill_type)
    &&& opt_view(b.bill_sub_type) == plain_str(row, "status"@)
    &&& b.order_id is None
    &&& b.trade_id is None
    &&& b.timestamp == plain_first_u64(row, time_fields)
    &&& b.raw == row
}

/// The bill of a Bybit record: of `bill_type`, with its id in `id_field`
/// and its time in the first of `time_fields` that has one.
pub fn bybit_account_bill(raw: JsonValue, bill_type: &str, id_field: &str, time_fields: &[&str]) -> (r: AccountBill)
    ensures
        bybit_bill_of(raw, bill_type@, id_field@, time_fields@, r),
{
    let bill_id = plain_string_field(&raw, id_field);
    let asset = plain_string_field(&raw, "coin");
    let balance_change = plain_string_field(&raw, "amount");
    let fee = plain_string_field(&raw, "fee");
    let bill_sub_type = plain_string_field(&raw, "status");
    let timestamp = plain_first_u64_value(&raw, time_fields);
    AccountBill {
        exchange: ExchangeId::Bybit,
        instrument: None,
        exchange_symbol: None,
        bill_id,
        asset,
        balance_change,
        balance_after: None,
        fee,
        pnl: None,
        bill_type: Some(owned(bill_type)),
        bill_sub_type,
        order_id: None,
        trade_id: None,
        timestamp,
        raw,
    }
}

/// The bills of the records in the array member `key` of a Bybit answer.
pub fn bybit_bills_from_member(raw: JsonValue, key: &str, bill_type: &str, id_field: &str, time_fields: &[&str]) -> (r:
    Vec<AccountBill>)
    ensures
        r@.len() == list_member(raw, key@).len(),
        forall|i: int|
            0 <= i < r@.len() ==> bybit_bill_of(list_member(raw, key@)[i], bill_type@, id_field@, time_fields@, #[trigger] r@[i]),
{
    let ghost all = list_member(raw, key@);
    let mut rows = take_list(raw, key);
    let mut out: Vec<AccountBill> = Vec::new();
    let mut k: usize = 0;
    let n0 = rows.len();
    assert(all.skip(0) =~= all);
    while rows.len() > 0
        invariant
            all == list_member(raw, key@),
            n0 == all.len(),
            k + rows@.len() == all.len(),
            rows@ == all.skip(k as int),
            out@.len() == k,
            forall|j: int| 0 <= j < k ==> bybit_bill_of(all[j], bill_type@, id_field@, time_fields@, #[trigger] out@[j]),
        decreases rows@.len(),
    {
        let row = rows.remove(0);
        assert(row == all[k as int]);
        out.push(bybit_account_bill(row, bill_type, id_field, time_fields));
        k += 1;
        assert(rows@ =~= all.skip(k as int));
    }
    out
}

/// The transfer bills of a Bybit internal transfer answer (`list`).
pub fn bybit_transfer_bills(raw: JsonValue) -> (r: Vec<AccountBill>)
    ensures
        r@.len() == list_member(raw, "list"@).len(),
        forall|i: int|
            0 <= i < r@.len() ==> bybit_bill_of(list_member(raw, "list"@)[i], "transfer"@, "transferId"@, seq!["timestamp", "createdTime"], #[trigger] r@[i]),
{
    let fields = ["timestamp", "createdTime"];
    assert(fields@ =~= seq!["timestamp", "createdTime"]);
    bybit_bills_from_member(raw, "list", "transfer", "transferId", &fields)
}

/// The deposit bills of a Bybit deposit answer (`rows`).
pub fn bybit_deposit_bills(raw: JsonValue) -> (r: Vec<AccountBill>)
    ensures
        r@.len() == list_member(raw, "rows"@).len(),
        forall|i: int|
            0 <= i < r@.len() ==> bybit_bill_of(list_member(raw, "rows"@)[i], "deposit"@, "id"@, seq!["successAt", "createdTime"], #[trigger] r@[i]),
{
    let fields = ["successAt", "createdTime"];
    assert(fields@ =~= seq!["successAt", "createdTime"]);
    bybit_bills_from_member(raw, "rows", "deposit", "id", &fields)
}

/// The withdrawal bills of a Bybit withdrawal answer (`rows`).
pub fn bybit_withdrawal_bills(raw: JsonValue) -> (r: Vec<AccountBill>)
    ensures
        r@.len() == list_member(raw, "rows"@).len(),
        forall|i: int|
            0 <= i < r@.len() ==> bybit_bill_of(list_member(raw, "rows"@)[i], "withdrawal"@, "withdrawID"@, seq!["updatedTime", "successAt", "createdTime"], #[trigger] r@[i]),
{
    let fields = ["updatedTime", "successAt", "createdTime"];
    assert(fields@ =~= seq!["updatedTime", "successAt", "createdTime"]);
    bybit_bills_from_member(raw, "rows", "withdrawal", "withdrawID", &fields)
}

/// Bybit system status takes only an id and a state.
pub fn ensure_bybit_system_status_query(query: &PlatformEventQuery) -> (r: Result<()>)
    ensures
        (query.locale is Some || query.event_type is Some || query.tag is Some || query.page is Some
            || query.limit is Some) ==> (r matches Err(e) && e.is_unsupported(
            ExchangeId::Bybit,
            "platform system status announcement filters"@,
        )),
        !(query.locale is Some || query.event_type is Some || query.tag is Some || query.page is Some
            || query.limit is Some) ==> r is Ok,
{
    if query.locale.is_some() || query.event_type.is_some() || query.tag.is_some() || query.page.is_some()
        || query.limit.is_some() {
        return Err(
            Error::Unsupported {
                exchange: ExchangeId::Bybit,
                capability: "platform system status announcement filters",
            },
        );
    }
    Ok(())
}

/// Bybit announcements take no id or state.
pub fn ensure_bybit_announcements_query(query: &PlatformEventQuery) -> (r: Result<()>)
    ensures
        (query.id is Some || query.state is Some) ==> (r matches Err(e) && e.is_unsupported(
            ExchangeId::Bybit,
            "platform announcements status filters"@,
        )),
        !(query.id is Some || query.state is Some) ==> r is Ok,
{
    if query.id.is_some() || query.state.is_some() {
        return Err(
            Error::Unsupported { exchange: ExchangeId::Bybit, capability: "platform announcements status filters" },
        );
    }
    Ok(())
}

/// The locale of a Bybit announcement request: the query's, else `en-US`.
pub fn bybit_announcement_locale(query: &PlatformEventQuery) -> (r: String)
    ensures
        r@ == (match query.locale {
            Some(l) => l@,
            None => "en-US"@,
        }),
{
    match &query.locale {
        Some(l) => copy_string(l),
        None => owned("en-US"),
    }
}

/// `ev` is the event of a Bybit system status item.
pub open spec fn bybit_status_of(raw: JsonValue, ev: PlatformEvent) -> bool {
    &&& ev.exchange == ExchangeId::Bybit
    &&& ev.event_type@ == "system_status"@
    &&& opt_view(ev.event_id) == plain_str(raw, "id"@)
    &&& opt_view(ev.title) == or_else(plain_str(raw, "title"@), plain_str(raw, "name"@))
    &&& opt_view(ev.status) == or_else(plain_str(raw, "state"@), plain_str(raw, "status"@))
    &&& opt_view(ev.url) == plain_str(raw, "url"@)
    &&& ev.start_time == plain_first_u64(raw, seq!["begin", "startTime", "startAt"])
    &&& ev.end_time == plain_first_u64(raw, seq!["end", "endTime", "endAt"])
    &&& ev.published_at == plain_first_u64(raw, seq!["dateTimestamp", "publishTime", "publishedAt"])
    &&& ev.raw == raw
}

/// The event of a Bybit system status item.
pub fn bybit_system_status_event(raw: JsonValue) -> (r: PlatformEvent)
    ensures
        bybit_status_of(raw, r),
{
    let k1 = ["begin", "startTime", "startAt"];
    assert(k1@ =~= seq!["begin", "startTime", "startAt"]);
    let k2 = ["end", "endTime", "endAt"];
    assert(k2@ =~= seq!["end", "endTime", "endAt"]);
    let k3 = ["dateTimestamp", "publishTime", "publishedAt"];
    assert(k3@ =~= seq!["dateTimestamp", "publishTime", "publishedAt"]);
    let event_id = plain_string_field(&raw, "id");
    let title = match plain_string_field(&raw, "title") {
        Some(t) => Some(t),
        None => plain_string_field(&raw, "name"),
    };
    let status = match plain_string_field(&raw, "state") {
        Some(s) => Some(s),
        None => plain_string_field(&raw, "status"),
    };
    let url = plain_string_field(&raw, "url");
    let start_time = plain_first_u64_value(&raw, &k1);
    let end_time = plain_first_u64_value(&raw, &k2);
    let published_at = plain_first_u64_value(&raw, &k3);
    PlatformEvent {
        exchange: ExchangeId::Bybit,
        event_type: owned("system_status"),
        event_id,
        title,
        status,
        url,
        start_time,
        end_time,
        published_at,
        raw,
    }
}

/// `ev` is the event of a Bybit announcement item.
pub open spec fn bybit_announcement_of(raw: JsonValue, ev: PlatformEvent) -> bool {
    &&& ev.exchange == ExchangeId::Bybit
    &&& ev.event_type@ == "announcement"@
    &&& opt_view(ev.event_id) == or_else(plain_str(raw, "id"@), plain_str(raw, "articleId"@))
    &&& opt_view(ev.title) == plain_str(raw, "title"@)
    &&& opt_view(ev.status) == or_else(plain_str(raw, "state"@), plain_str(raw, "status"@))
    &&& opt_view(ev.url) == plain_str(raw, "url"@)
    &&& ev.start_time is None
    &&& ev.end_time is None
    &&& ev.published_at == plain_first_u64(raw, seq!["dateTimestamp", "publishTime", "publishedAt"])
    &&& ev.raw == raw
}

/// The event of a Bybit announcement item.
pub fn bybit_announcement_event(raw: JsonValue) -> (r: PlatformEvent)
    ensures
        bybit_announcement_of(raw, r),
{
    let k3 = ["dateTimestamp", "publishTime", "publishedAt"];
    assert(k3@ =~= seq!["dateTimestamp", "publishTime", "publishedAt"]);
    let event_id = match plain_string_field(&raw, "id") {
        Some(i) => Some(i),
        None => plain_string_field(&raw, "articleId"),
    };
    let title = plain_string_field(&raw, "title");
    let status = match plain_string_field(&raw, "state") {
        Some(s) => Some(s),
        None => plain_string_field(&raw, "status"),
    };
    let url = plain_string_field(&raw, "url");
    let published_at = plain_first_u64_value(&raw, &k3);
    PlatformEvent {
        exchange: ExchangeId::Bybit,
        event_type: owned("announcement"),
        event_id,
        title,
        status,
        url,
        start_time: None,
        end_time: None,
        published_at,
        raw,
    }
}

/// The events of a Bybit platform answer's `list`: system status items, or
/// announcements when `announcements` is set.
pub fn bybit_platform_events(raw: JsonValue, announcements: bool) -> (r: Vec<PlatformEvent>)
    ensures
        r@.len() == list_member(raw, "list"@).len(),
        forall|i: int|
            0 <= i < r@.len() ==> if announcements {
                bybit_announcement_of(list_member(raw, "list"@)[i], #[trigger] r@[i])
            } else {
                bybit_status_of(list_member(raw, "list"@)[i], r@[i])
            },
{
    let ghost all = list_member(raw, "list"@);
    let mut rows = take_list(raw, "list");
    let mut out: Vec<PlatformEvent> = Vec::new();
    let mut k: usize = 0;
    let n0 = rows.len();
    assert(all.skip(0) =~= all);
    while rows.len() > 0
        invariant
            all == list_member(raw, "list"@),
            n0 == all.len(),
            k + rows@.len() == all.len(),
            rows@ == all.skip(k as int),
            out@.len() == k,
            forall|j: int|
                0 <= j < k ==> if announcements {
                    bybit_announcement_of(all[j], #[trigger] out@[j])
                } else {
                    bybit_status_of(all[j], out@[j])
                },
        decreases rows@.len(),
    {
        let row = rows.remove(0);
        assert(row == all[k as int]);
        if announcements {
            out.push(bybit_announcement_event(row));
        } else {
            out.push(bybit_system_status_event(row));
        }
        k += 1;
        assert(rows@ =~= all.skip(k as int));
    }
    out
}

} // verus!
