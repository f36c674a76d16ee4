//! Bitget V2 requests built from the library's queries, the account and
//! ticker records of Bitget answers, account bills and announcements.
use crate::account::{AccountBill, AccountBillQuery, Balance};
use crate::error::{Error, Result};
use crate::exchange::ExchangeId;
use crate::fill::FillListQuery;
use crate::instrument::Instrument;
use crate::json::{
    first_str_field, first_string_field, first_u64, first_u64_field, json_get, obj_get, obj_take,
    JsonValue,
};
use crate::market::Ticker;
use crate::order::{OrderListQuery, OrderQuery};
use crate::platform::{PlatformEvent, PlatformEventQuery};
use crate::text::{copy_opt, copy_string, opt_view, owned, parse_u64, parse_u64_spec, text_is_empty};
use crate::trade::CancelOrderRequest;
use vstd::prelude::*;

verus! {

broadcast use vstd::std_specs::vec::group_vec_axioms;

/// The filters of a Bitget order or fill list request.
#[derive(Debug, Clone, PartialEq, Eq)]
pub struct BitgetOrderQueryRequest {
    pub product_type: String,
    pub symbol: Option<String>,
    pub status: Option<String>,
    pub order_id: Option<String>,
    pub id_less_than: Option<String>,
    pub start_time: Option<u64>,
    pub end_time: Option<u64>,
    pub limit: Option<u32>,
}

/// The Bitget request of an order list query: the product type, the symbol
/// when one is given, and the query's status, cursor (`before` as
/// `idLessThan`), times and limit.
pub fn bitget_order_query_request(product_type: &str, query: &OrderListQuery, symbol: Option<&str>) -> (r:
    BitgetOrderQueryRequest)
    ensures
        r.product_type@ == product_type@,
        opt_view(r.symbol) == (match symbol { Some(s) => Some(s@), None => None }),
        opt_view(r.status) == opt_view(query.status),
        r.order_id is None,
        opt_view(r.id_less_than) == opt_view(query.before),
        r.start_time == query.start_time,
        r.end_time == query.end_time,
        r.limit == query.limit,
{
    BitgetOrderQueryRequest {
        product_type: owned(product_type),
        symbol: match symbol {
            Some(s) => Some(owned(s)),
            None => None,
        },
        status: copy_opt(&query.status),
        order_id: None,
        id_less_than: copy_opt(&query.before),
        start_time: query.start_time,
        end_time: query.end_time,
        limit: query.limit,
    }
}

/// The Bitget request of a fill list query: the product type, the symbol
/// when one is given, and the query's order id, cursor, times and limit.
pub fn bitget_fill_query_request(product_type: &str, query: &FillListQuery, symbol: Option<&str>) -> (r:
    BitgetOrderQueryRequest)
    ensures
        r.product_type@ == product_type@,
        opt_view(r.symbol) == (match symbol { Some(s) => Some(s@), None => None }),
        r.status is None,
        opt_view(r.order_id) == opt_view(query.order_id),
        opt_view(r.id_less_than) == opt_view(query.before),
        r.start_time == query.start_time,
        r.end_time == query.end_time,
        r.limit == query.limit,
{
    BitgetOrderQueryRequest {
        product_type: owned(product_type),
        symbol: match symbol {
            Some(s) => Some(owned(s)),
            None => None,
        },
        status: None,
        order_id: copy_opt(&query.order_id),
        id_less_than: copy_opt(&query.before),
        start_time: query.start_time,
        end_time: query.end_time,
        limit: query.limit,
    }
}

/// The margin coin of a request: the one asked for, else the instrument's
/// settlement asset, else its quote asset.
pub fn bitget_margin_coin(margin_coin: &Option<String>, instrument: &Instrument) -> (r: String)
    ensures
        r@ == (match margin_coin {
            Some(c) => c@,
            None => instrument.settle_view(),
        }),
{
    match margin_coin {
        Some(c) => copy_string(c),
        None => match &instrument.settlement {
            Some(s) => copy_string(s),
            None => copy_string(&instrument.quote),
        },
    }
}

/// The adapter error of a cancel request without an order id.
pub fn missing_cancel_id(exchange: ExchangeId) -> (r: Error)
    ensures
        r.is_adapter(exchange, "cancel_order requires order_id or client_order_id"@),
{
    Error::Adapter { exchange, message: owned("cancel_order requires order_id or client_order_id") }
}

/// The adapter error of an order query without an order id.
pub fn missing_order_query_id(exchange: ExchangeId) -> (r: Error)
    ensures
        r.is_adapter(exchange, "order query requires order_id or client_order_id"@),
{
    Error::Adapter { exchange, message: owned("order query requires order_id or client_order_id") }
}

/// An order query names its order, by exchange id or by client id.
pub fn bitget_require_order_query_id(query: &OrderQuery) -> (r: Result<()>)
    ensures
        (query.order_id is Some || query.client_order_id is Some) ==> r is Ok,
        (query.order_id is None && query.client_order_id is None) ==> (r matches Err(e) && e.is_adapter(
            ExchangeId::Bitget,
            "order query requires order_id or client_order_id"@,
        )),
{
    if query.order_id.is_none() && query.client_order_id.is_none() {
        return Err(missing_order_query_id(ExchangeId::Bitget));
    }
    Ok(())
}

/// A Bitget cancel request.
#[derive(Debug, Clone, PartialEq, Eq)]
pub struct BitgetCancelOrderRequest {
    pub symbol: String,
    pub product_type: String,
    pub margin_coin: String,
    pub order_id: Option<String>,
    pub client_oid: Option<String>,
}

/// The Bitget request of a cancel: by exchange order id when there is one,
/// else by client id; a request with neither is refused.
pub fn bitget_cancel_order_request(request: &CancelOrderRequest, product_type: &str) -> (r: Result<
    BitgetCancelOrderRequest,
>)
    ensures
        (request.order_id is None && request.client_order_id is None) ==> (r matches Err(e)
            && e.is_adapter(ExchangeId::Bitget, "cancel_order requires order_id or client_order_id"@)),
        !(request.order_id is None && request.client_order_id is None) ==> (r matches Ok(c) && {
            &&& c.symbol@ == request.instrument.symbol_spec(ExchangeId::Bitget)
            &&& c.product_type@ == product_type@
            &&& c.margin_coin@ == (match request.margin_coin {
                Some(m) => m@,
                None => request.instrument.settle_view(),
            })
            &&& opt_view(c.order_id) == opt_view(request.order_id)
            &&& opt_view(c.client_oid) == (if request.order_id is Some {
                None
            } else {
                opt_view(request.client_order_id)
            })
        }),
{
    let symbol = request.instrument.symbol_for(ExchangeId::Bitget);
    let margin_coin = bitget_margin_coin(&request.margin_coin, &request.instrument);
    match &request.order_id {
        Some(id) => Ok(
            BitgetCancelOrderRequest {
                symbol,
                product_type: owned(product_type),
                margin_coin,
                order_id: Some(copy_string(id)),
                client_oid: None,
            },
        ),
        None => match &request.client_order_id {
            Some(c) => Ok(
                BitgetCancelOrderRequest {
                    symbol,
                    product_type: owned(product_type),
                    margin_coin,
                    order_id: None,
                    client_oid: Some(copy_string(c)),
                },
            ),
            None => Err(missing_cancel_id(ExchangeId::Bitget)),
        },
    }
}

/// A Bitget futures account, as the account list gives it.
#[derive(Debug, Clone, PartialEq, Eq)]
pub struct BitgetAccount {
    pub margin_coin: String,
    pub account_equity: String,
    pub usdt_equity: String,
    pub available: String,
    pub locked: String,
}

/// The first of two texts that is not empty.
pub open spec fn first_non_empty_spec(primary: Seq<char>, fallback: Seq<char>) -> Option<Seq<char>> {
    if primary.len() > 0 {
        Some(primary)
    } else if fallback.len() > 0 {
        Some(fallback)
    } else {
        None
    }
}

/// The first of two texts that is not empty.
pub fn first_non_empty(primary: &str, fallback: &str) -> (r: Option<String>)
    ensures
        opt_view(r) == first_non_empty_spec(primary@, fallback@),
{
    if !text_is_empty(primary) {
        Some(owned(primary))
    } else if !text_is_empty(fallback) {
        Some(owned(fallback))
    } else {
        None
    }
}

/// The balance of a Bitget futures account: its equity (else its USDT
/// equity), what is available, and what is locked when anything is; `raw`
/// is the account as the answer wrote it.
pub fn bitget_balance_from_account(account: BitgetAccount, raw: JsonValue) -> (r: Balance)
    ensures
        r.exchange == ExchangeId::Bitget,
        r.asset@ == account.margin_coin@,
        r.total@ == (match first_non_empty_spec(account.account_equity@, account.usdt_equity@) {
            Some(t) => t,
            None => Seq::empty(),
        }),
        r.available@ == account.available@,
        opt_view(r.frozen) == (if account.locked@.len() > 0 {
            Some(account.locked@)
        } else {
            None
        }),
        r.raw == raw,
{
    let total = match first_non_empty(account.account_equity.as_str(), account.usdt_equity.as_str()) {
        Some(t) => t,
        None => String::new(),
    };
    let frozen = if text_is_empty(account.locked.as_str()) {
        None
    } else {
        Some(account.locked)
    };
    Balance {
        exchange: ExchangeId::Bitget,
        asset: account.margin_coin,
        total,
        available: account.available,
        frozen,
        raw,
    }
}

/// A Bitget ticker, as the ticker answer gives it.
#[derive(Debug, Clone, PartialEq, Eq)]
pub struct BitgetTicker {
    pub last_price: String,
    pub bid_price: String,
    pub ask_price: String,
    pub quote_volume: String,
    pub base_volume: String,
    pub ts: String,
}

/// A text that is not empty.
pub open spec fn present(value: Seq<char>) -> Option<Seq<char>> {
    if value.len() > 0 {
        Some(value)
    } else {
        None
    }
}

fn non_empty_text(value: String) -> (r: Option<String>)
    ensures
        opt_view(r) == present(value@),
{
    if text_is_empty(value.as_str()) {
        None
    } else {
        Some(value)
    }
}

/// The ticker of `symbol` from the first entry of a Bitget ticker answer;
/// an answer without entries is refused.
pub fn bitget_ticker_from_answer(
    instrument: Instrument,
    symbol: String,
    tickers: Vec<BitgetTicker>,
    raw: JsonValue,
) -> (r: Result<Ticker>)
    ensures
        tickers@.len() == 0 ==> (r matches Err(e) && e.is_adapter(
            ExchangeId::Bitget,
            "Bitget ticker response is empty for "@ + symbol@,
        )),
        tickers@.len() > 0 ==> (r matches Ok(t) && {
            let first = tickers@[0];
            &&& t.exchange == ExchangeId::Bitget
            &&& t.instrument == instrument
            &&& t.exchange_symbol == symbol
            &&& t.last_price == first.last_price
            &&& opt_view(t.bid_price) == present(first.bid_price@)
            &&& opt_view(t.ask_price) == present(first.ask_price@)
            &&& opt_view(t.volume_24h) == or_else_text(present(first.quote_volume@), present(first.base_volume@))
            &&& t.timestamp == parse_u64_spec(first.ts@)
            &&& t.raw == raw
        }),
{
    let mut tickers = tickers;
    if tickers.len() == 0 {
        return Err(
            Error::Adapter {
                exchange: ExchangeId::Bitget,
                message: crate::text::concat("Bitget ticker response is empty for ", symbol.as_str()),
            },
        );
    }
    let first = tickers.remove(0);
    let timestamp = parse_u64(first.ts.as_str());
    let volume_24h = match non_empty_text(first.quote_volume) {
        Some(v) => Some(v),
        None => non_empty_text(first.base_volume),
    };
    Ok(
        Ticker {
            exchange: ExchangeId::Bitget,
            instrument,
            exchange_symbol: symbol,
            last_price: first.last_price,
            bid_price: non_empty_text(first.bid_price),
            ask_price: non_empty_text(first.ask_price),
            volume_24h,
            timestamp,
            raw,
        },
    )
}

/// `a.or(b)` on texts.
pub open spec fn or_else_text(a: Option<Seq<char>>, b: Option<Seq<char>>) -> Option<Seq<char>> {
    match a {
        Some(x) => Some(x),
        None => b,
    }
}

/// The filters of a Bitget account bill request.
#[derive(Debug, Clone, PartialEq, Eq)]
pub struct BitgetAccountBillRequest {
    pub product_type: String,
    pub coin: Option<String>,
    pub business_type: Option<String>,
    pub start_time: Option<u64>,
    pub end_time: Option<u64>,
    pub limit: Option<u32>,
}

/// The Bitget request of a bill query: the query's instrument type as the
/// product type (else the account's), and its asset, bill type, times and
/// limit. Bitget bills take no instrument and no archive filter.
pub fn bitget_account_bill_request(query: &AccountBillQuery, product_type: &str) -> (r: Result<
    BitgetAccountBillRequest,
>)
    ensures
        (query.instrument is Some || query.archive) ==> (r matches Err(e) && e.is_unsupported(
            ExchangeId::Bitget,
            "account bills filters"@,
        )),
        !(query.instrument is Some || query.archive) ==> (r matches Ok(b) && {
            &&& b.product_type@ == (match query.inst_type {
                Some(t) => t@,
                None => product_type@,
            })
            &&& opt_view(b.coin) == opt_view(query.asset)
            &&& opt_view(b.business_type) == opt_view(query.bill_type)
            &&& b.start_time == query.start_time
            &&& b.end_time == query.end_time
            &&& b.limit == query.limit
        }),
{
    if query.instrument.is_some() || query.archive {
        return Err(Error::Unsupported { exchange: ExchangeId::Bitget, capability: "account bills filters" });
    }
    let product = match &query.inst_type {
        Some(t) => copy_string(t),
        None => owned(product_type),
    };
    Ok(
        BitgetAccountBillRequest {
            product_type: product,
            coin: copy_opt(&query.asset),
            business_type: copy_opt(&query.bill_type),
            start_time: query.start_time,
            end_time: query.end_time,
            limit: query.limit,
        },
    )
}

/// The bills of a Bitget bill answer: an array, or the `bills` (else
/// `items`) member of an object.
pub open spec fn bitget_bill_items(raw: JsonValue) -> std::result::Result<Seq<JsonValue>, Seq<char>> {
    match raw {
        JsonValue::Array(v) => Ok(v@),
        JsonValue::Object(e) => {
            let member = match obj_get(e@, "bills"@) {
                Some(v) => Some(v),
                None => obj_get(e@, "items"@),
            };
            match member {
                Some(JsonValue::Array(v)) => Ok(v@),
                _ => Err("Bitget account bills response does not contain bills"@),
            }
        },
        _ => Err("Bitget account bills response is neither an array nor an object"@),
    }
}

/// `o` is the accountbill read from an item (see `bitget_account_bill`).
pub open spec fn bitget_account_bill_of(
    raw: JsonValue,
    o: AccountBill,
) -> bool {
    match raw {
        JsonValue::Object(e) => {
            &&& o.exchange == ExchangeId::Bitget
            &&& o.instrument is None
            &&& opt_view(o.exchange_symbol) == first_str_field(e@, seq!["symbol", "instId"])
            &&& opt_view(o.bill_id) == first_str_field(e@, seq!["id", "billId"])
            &&& opt_view(o.asset) == first_str_field(e@, seq!["coin", "marginCoin"])
            &&& opt_view(o.balance_change) == first_str_field(e@, seq!["amount", "change", "balanceChange"])
            &&& opt_view(o.balance_after) == first_str_field(e@, seq!["balance", "balanceAfter"])
            &&& opt_view(o.fee) == first_str_field(e@, seq!["fee"])
            &&& opt_view(o.pnl) == first_str_field(e@, seq!["pnl", "profit"])
            &&& opt_view(o.bill_type) == first_str_field(e@, seq!["businessType", "type"])
            &&& opt_view(o.bill_sub_type) == first_str_field(e@, seq!["bizType", "status"])
            &&& opt_view(o.order_id) == first_str_field(e@, seq!["orderId"])
            &&& opt_view(o.trade_id) == first_str_field(e@, seq!["tradeId"])
            &&& o.timestamp == first_u64_field(e@, seq!["uTime", "cTime", "ts", "time", "timestamp"])
            &&& o.raw == raw
        },
        _ => false,
    }
}

/// One Bitget account bill.
pub fn bitget_account_bill(
    raw: JsonValue,
) -> (r: Result<AccountBill>)
    ensures
        raw is Object ==> (r matches Ok(o) && bitget_account_bill_of(raw, o)),
        !(raw is Object) ==> (r matches Err(err) && err.is_adapter(ExchangeId::Bitget, "Bitget account bill item is not an object"@)),
{
    let e = match &raw {
        JsonValue::Object(e) => e,
        _ => return Err(Error::Adapter { exchange: ExchangeId::Bitget, message: owned("Bitget account bill item is not an object") }),
    };
    let exchange = ExchangeId::Bitget;
    let instrument = None;
    let exchange_symbol = { let k = ["symbol", "instId"]; assert(k@ =~= seq!["symbol", "instId"]); first_string_field(e, &k) };
    let bill_id = { let k = ["id", "billId"]; assert(k@ =~= seq!["id", "billId"]); first_string_field(e, &k) };
    let asset = { let k = ["coin", "marginCoin"]; assert(k@ =~= seq!["coin", "marginCoin"]); first_string_field(e, &k) };
    let balance_change = { let k = ["amount", "change", "balanceChange"]; assert(k@ =~= seq!["amount", "change", "balanceChange"]); first_string_field(e, &k) };
    let balance_after = { let k = ["balance", "balanceAfter"]; assert(k@ =~= seq!["balance", "balanceAfter"]); first_string_field(e, &k) };
    let fee = { let k = ["fee"]; assert(k@ =~= seq!["fee"]); first_string_field(e, &k) };
    let pnl = { let k = ["pnl", "profit"]; assert(k@ =~= seq!["pnl", "profit"]); first_string_field(e, &k) };
    let bill_type = { let k = ["businessType", "type"]; assert(k@ =~= seq!["businessType", "type"]); first_string_field(e, &k) };
    let bill_sub_type = { let k = ["bizType", "status"]; assert(k@ =~= seq!["bizType", "status"]); first_string_field(e, &k) };
    let order_id = { let k = ["orderId"]; assert(k@ =~= seq!["orderId"]); first_string_field(e, &k) };
    let trade_id = { let k = ["tradeId"]; assert(k@ =~= seq!["tradeId"]); first_string_field(e, &k) };
    let timestamp = { let k = ["uTime", "cTime", "ts", "time", "timestamp"]; assert(k@ =~= seq!["uTime", "cTime", "ts", "time", "timestamp"]); first_u64(e, &k) };
    Ok(AccountBill { exchange, instrument, exchange_symbol, bill_id, asset, balance_change, balance_after, fee, pnl, bill_type, bill_sub_type, order_id, trade_id, timestamp, raw: raw })
}

/// The bills of a Bitget bill answer, each mapped.
pub fn bitget_account_bills_from_value(raw: JsonValue) -> (r: Result<Vec<AccountBill>>)
    ensures
        match bitget_bill_items(raw) {
            Err(message) => r matches Err(e) && e.is_adapter(ExchangeId::Bitget, message),
            Ok(items) => if forall|i: int| 0 <= i < items.len() ==> #[trigger] items[i] is Object {
                r matches Ok(out) && out@.len() == items.len() && forall|i: int|
                    0 <= i < items.len() ==> bitget_account_bill_of(items[i], #[trigger] out@[i])
            } else {
                r matches Err(e) && e.is_adapter(ExchangeId::Bitget, "Bitget account bill item is not an object"@)
            },
        },
{
    let ghost spec_items = bitget_bill_items(raw);
    let mut items = match raw {
        JsonValue::Array(values) => values,
        JsonValue::Object(members) => {
            let has_bills = match crate::json::obj_lookup(&members, "bills") {
                Some(_) => true,
                None => false,
            };
            let member = if has_bills {
                obj_take(members, "bills")
            } else {
                obj_take(members, "items")
            };
            match member {
                Some(JsonValue::Array(values)) => values,
                _ => return Err(
                    Error::Adapter {
                        exchange: ExchangeId::Bitget,
                        message: owned("Bitget account bills response does not contain bills"),
                    },
                ),
            }
        },
        _ => return Err(
            Error::Adapter {
                exchange: ExchangeId::Bitget,
                message: owned("Bitget account bills response is neither an array nor an object"),
            },
        ),
    };
    let ghost all = items@;
    assert(spec_items == Ok::<_, Seq<char>>(all));
    let mut out: Vec<AccountBill> = Vec::new();
    let mut k: usize = 0;
    let n0 = items.len();
    assert(all.skip(0) =~= all);
    while items.len() > 0
        invariant
            spec_items == bitget_bill_items(raw),
            spec_items == Ok::<_, Seq<char>>(all),
            n0 == all.len(),
            k + items@.len() == all.len(),
            items@ == all.skip(k as int),
            out@.len() == k,
            forall|j: int| 0 <= j < k ==> #[trigger] all[j] is Object,
            forall|j: int| 0 <= j < k ==> bitget_account_bill_of(all[j], #[trigger] out@[j]),
        decreases items@.len(),
    {
        let item = items.remove(0);
        assert(item == all[k as int]);
        match bitget_account_bill(item) {
            Ok(b) => out.push(b),
            Err(e) => {
                assert(!(all[k as int] is Object));
                return Err(e);
            },
        }
        k += 1;
        assert(items@ =~= all.skip(k as int));
    }
    Ok(out)
}

/// Bitget announcements take no page, id or state filter.
pub fn ensure_announcements_query(query: &PlatformEventQuery) -> (r: Result<()>)
    ensures
        (query.page is Some || query.id is Some || query.state is Some) ==> (r matches Err(e)
            && e.is_unsupported(ExchangeId::Bitget, "platform announcements filters"@)),
        !(query.page is Some || query.id is Some || query.state is Some) ==> r is Ok,
{
    if query.page.is_some() || query.id.is_some() || query.state.is_some() {
        return Err(
            Error::Unsupported { exchange: ExchangeId::Bitget, capability: "platform announcements filters" },
        );
    }
    Ok(())
}

/// A Bitget announcement list request.
#[derive(Debug, Clone, PartialEq, Eq)]
pub struct BitgetAnnouncementRequest {
    pub language: String,
    pub ann_type: Option<String>,
    pub ann_sub_type: Option<String>,
    pub limit: Option<u32>,
}

/// The Bitget announcement request of a query: its locale (`en-US` when it
/// has none), event type, tag and limit.
pub fn announcement_request(query: &PlatformEventQuery) -> (r: BitgetAnnouncementRequest)
    ensures
        r.language@ == (match query.locale {
            Some(l) => l@,
            None => "en-US"@,
        }),
        opt_view(r.ann_type) == opt_view(query.event_type),
        opt_view(r.ann_sub_type) == opt_view(query.tag),
        r.limit == query.limit,
{
    BitgetAnnouncementRequest {
        language: match &query.locale {
            Some(l) => copy_string(l),
            None => owned("en-US"),
        },
        ann_type: copy_opt(&query.event_type),
        ann_sub_type: copy_opt(&query.tag),
        limit: query.limit,
    }
}

/// `ev` is the event of a Bitget announcement.
pub open spec fn bitget_announcement_of(raw: JsonValue, ev: PlatformEvent) -> bool {
    let e = match raw {
        JsonValue::Object(e) => e@,
        _ => Seq::empty(),
    };
    &&& ev.exchange == ExchangeId::Bitget
    &&& ev.event_type@ == "announcement"@
    &&& opt_view(ev.event_id) == first_str_field(e, seq!["annId", "id"])
    &&& opt_view(ev.title) == first_str_field(e, seq!["annTitle", "title"])
    &&& opt_view(ev.status) == first_str_field(e, seq!["annType", "type"])
    &&& opt_view(ev.url) == first_str_field(e, seq!["annUrl", "url"])
    &&& ev.start_time is None
    &&& ev.end_time is None
    &&& ev.published_at == first_u64_field(e, seq!["cTime", "pTime", "publishTime", "publishedAt"])
    &&& ev.raw == raw
}

/// The event of one Bitget announcement (a value that is no object reads as
/// one without members).
pub fn announcement_event(raw: JsonValue) -> (r: PlatformEvent)
    ensures
        bitget_announcement_of(raw, r),
{
    let empty: Vec<(String, JsonValue)> = Vec::new();
    let (event_id, title, status, url, published_at) = {
        let e = match &raw {
            JsonValue::Object(e) => e,
            _ => &empty,
        };
        let k1 = ["annId", "id"];
        assert(k1@ =~= seq!["annId", "id"]);
        let k2 = ["annTitle", "title"];
        assert(k2@ =~= seq!["annTitle", "title"]);
        let k3 = ["annType", "type"];
        assert(k3@ =~= seq!["annType", "type"]);
        let k4 = ["annUrl", "url"];
        assert(k4@ =~= seq!["annUrl", "url"]);
        let k5 = ["cTime", "pTime", "publishTime", "publishedAt"];
        assert(k5@ =~= seq!["cTime", "pTime", "publishTime", "publishedAt"]);
        assert(empty@ =~= Seq::<(String, JsonValue)>::empty());
        (
            first_string_field(e, &k1),
            first_string_field(e, &k2),
            first_string_field(e, &k3),
            first_string_field(e, &k4),
            first_u64(e, &k5),
        )
    };
    PlatformEvent {
        exchange: ExchangeId::Bitget,
        event_type: owned("announcement"),
        event_id,
        title,
        status,
        url,
        start_time: None,
        end_time: None,
        published_at,
        raw,
    }
}

/// The announcements of a Bitget answer: its `announcements` array (none
/// when it has no such array).
pub open spec fn announcement_items(raw: JsonValue) -> Seq<JsonValue> {
    match json_get(raw, "announcements"@) {
        Some(JsonValue::Array(v)) => v@,
        _ => Seq::empty(),
    }
}

/// The events of the announcements of a Bitget answer.
pub fn announcement_events(raw: JsonValue) -> (r: Vec<PlatformEvent>)
    ensures
        r@.len() == announcement_items(raw).len(),
        forall|i: int|
            0 <= i < r@.len() ==> bitget_announcement_of(announcement_items(raw)[i], #[trigger] r@[i]),
{
    let ghost all = announcement_items(raw);
    let mut items = match raw {
        JsonValue::Object(members) => match obj_take(members, "announcements") {
            Some(JsonValue::Array(values)) => values,
            _ => Vec::new(),
        },
        _ => Vec::new(),
    };
    assert(items@ =~= all);
    let mut out: Vec<PlatformEvent> = Vec::new();
    let mut k: usize = 0;
    let n0 = items.len();
    assert(all.skip(0) =~= all);
    while items.len() > 0
        invariant
            all == announcement_items(raw),
            n0 == all.len(),
            k + items@.len() == all.len(),
            items@ == all.skip(k as int),
            out@.len() == k,
            forall|j: int| 0 <= j < k ==> bitget_announcement_of(all[j], #[trigger] out@[j]),
        decreases items@.len(),
    {
        let item = items.remove(0);
        assert(item == all[k as int]);
        out.push(announcement_event(item));
        k += 1;
        assert(items@ =~= all.skip(k as int));
    }
    out
}

} // verus!

