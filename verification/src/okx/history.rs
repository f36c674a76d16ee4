//! OKX fills, bills, closed positions, algo orders and order answers.
use crate::account::AccountBill;
use crate::error::{Error, Result};
use crate::exchange::ExchangeId;
use crate::fill::Fill;
use crate::instrument::{same_instrument_opt, Instrument};
use crate::json::{
    first_rejected, items_spec, object_rejections, or_empty, or_else, owned_items, rejected, str2, str3, str_field,
    string_field, string_field2, string_field3, u64_2, u64_field, u64_field2, u64_field_spec,
    JsonValue,
};
use crate::okx::{instrument_from_okx_symbol, is_okx_symbol_instrument};

use crate::position::PositionHistory;
use crate::text::{ascii_lower, ascii_upper, eq_ignore_ascii_case, opt_view, owned, text_eq, to_ascii_lowercase, to_ascii_uppercase};

use vstd::prelude::*;

verus! {

broadcast use vstd::std_specs::vec::group_vec_axioms;

/// The instrument of a mapped row: the one asked for, else the perpetual of
/// the row's OKX instrument id.
pub open spec fn okx_row_instrument(asked: Option<Instrument>, symbol: Seq<char>, out: Instrument) -> bool {
    match asked {
        Some(i) => out.same_as(i),
        None => is_okx_symbol_instrument(out, symbol),
    }
}

/// `h` is the closed position of an OKX position-history item.
pub open spec fn okx_position_history_of(
    exchange: ExchangeId,
    instrument: Option<Instrument>,
    symbol_hint: Option<String>,
    raw: JsonValue,
    h: PositionHistory,
) -> bool {
    match raw {
        JsonValue::Object(e) => {
            let symbol = or_empty(or_else(str2(e@, "instId"@, "inst_id"@), opt_view(symbol_hint)));
            &&& h.exchange == exchange
            &&& h.exchange_symbol@ == symbol
            &&& okx_row_instrument(instrument, symbol, h.instrument)
            &&& opt_view(h.position_id) == str2(e@, "posId"@, "pos_id"@)
            &&& opt_view(h.side) == str2(e@, "posSide"@, "pos_side"@)
            &&& opt_view(h.direction) == str_field(e@, "direction"@)
            &&& opt_view(h.leverage) == str_field(e@, "lever"@)
            &&& opt_view(h.margin_mode) == str2(e@, "mgnMode"@, "mgn_mode"@)
            &&& opt_view(h.open_avg_price) == str2(e@, "openAvgPx"@, "open_avg_px"@)
            &&& opt_view(h.close_avg_price) == str2(e@, "closeAvgPx"@, "close_avg_px"@)
            &&& opt_view(h.open_max_position) == str2(e@, "openMaxPos"@, "open_max_pos"@)
            &&& opt_view(h.close_total_position) == str2(e@, "closeTotalPos"@, "close_total_pos"@)
            &&& opt_view(h.realized_pnl) == str2(e@, "realizedPnl"@, "realized_pnl"@)
            &&& opt_view(h.pnl) == str_field(e@, "pnl"@)
            &&& opt_view(h.pnl_ratio) == str2(e@, "pnlRatio"@, "pnl_ratio"@)
            &&& opt_view(h.fee) == str_field(e@, "fee"@)
            &&& opt_view(h.funding_fee) == str2(e@, "fundingFee"@, "funding_fee"@)
            &&& opt_view(h.liquidation_penalty) == str2(e@, "liqPenalty"@, "liq_penalty"@)
            &&& opt_view(h.close_type) == str_field(e@, "type"@)
            &&& h.open_time == u64_2(e@, "cTime"@, "c_time"@)
            &&& h.close_time == u64_2(e@, "uTime"@, "u_time"@)
            &&& h.raw == raw
        },
        _ => false,
    }
}

/// One closed position of OKX's position history.
pub fn okx_position_history_from_value(
    exchange: ExchangeId,
    instrument: Option<Instrument>,
    symbol_hint: Option<String>,
    raw: JsonValue,
) -> (r: Result<PositionHistory>)
    ensures
        raw is Object ==> (r matches Ok(h) && okx_position_history_of(
            exchange,
            instrument,
            symbol_hint,
            raw,
            h,
        )),
        !(raw is Object) ==> (r matches Err(e) && e.is_adapter(
            exchange,
            "OKX position history item is not an object"@,
        )),
{
    let e = match &raw {
        JsonValue::Object(e) => e,
        _ => {
            return Err(
                Error::Adapter { exchange, message: owned("OKX position history item is not an object") },
            )
        },
    };
    let exchange_symbol = match string_field2(e, "instId", "inst_id") {
        Some(s) => s,
        None => match &symbol_hint {
            Some(s) => crate::text::copy_string(s),
            None => String::new(),
        },
    };
    let mapped = match &instrument {
        Some(i) => i.duplicate(),
        None => instrument_from_okx_symbol(exchange_symbol.as_str()),
    };
    let position_id = string_field2(e, "posId", "pos_id");
    let side = string_field2(e, "posSide", "pos_side");
    let direction = string_field(e, "direction");
    let leverage = string_field(e, "lever");
    let margin_mode = string_field2(e, "mgnMode", "mgn_mode");
    let open_avg_price = string_field2(e, "openAvgPx", "open_avg_px");
    let close_avg_price = string_field2(e, "closeAvgPx", "close_avg_px");
    let open_max_position = string_field2(e, "openMaxPos", "open_max_pos");
    let close_total_position = string_field2(e, "closeTotalPos", "close_total_pos");
    let realized_pnl = string_field2(e, "realizedPnl", "realized_pnl");
    let pnl = string_field(e, "pnl");
    let pnl_ratio = string_field2(e, "pnlRatio", "pnl_ratio");
    let fee = string_field(e, "fee");
    let funding_fee = string_field2(e, "fundingFee", "funding_fee");
    let liquidation_penalty = string_field2(e, "liqPenalty", "liq_penalty");
    let close_type = string_field(e, "type");
    let open_time = u64_field2(e, "cTime", "c_time");
    let close_time = u64_field2(e, "uTime", "u_time");
    Ok(
        PositionHistory {
            exchange,
            instrument: mapped,
            exchange_symbol,
            position_id,
            side,
            direction,
            leverage,
            margin_mode,
            open_avg_price,
            close_avg_price,
            open_max_position,
            close_total_position,
            realized_pnl,
            pnl,
            pnl_ratio,
            fee,
            funding_fee,
            liquidation_penalty,
            close_type,
            open_time,
            close_time,
            raw,
        },
    )
}

/// OKX's fill role in the SDK's words: `maker`, `taker`, or the role in
/// lower case.
pub open spec fn okx_role(value: Seq<char>) -> Seq<char> {
    let u = ascii_upper(value);
    if u == "M"@ || u == "MAKER"@ {
        "maker"@
    } else if u == "T"@ || u == "TAKER"@ {
        "taker"@
    } else {
        ascii_lower(u)
    }
}

/// The fill role of an OKX execution type.
pub fn okx_fill_role(value: Option<String>) -> (r: Option<String>)
    ensures
        opt_view(r) == match value {
            Some(v) => Some(okx_role(v@)),
            None => None,
        },
{
    match value {
        Some(v) => {
            let u = to_ascii_uppercase(v.as_str());
            let s = u.as_str();
            if text_eq(s, "M") || text_eq(s, "MAKER") {
                Some(owned("maker"))
            } else if text_eq(s, "T") || text_eq(s, "TAKER") {
                Some(owned("taker"))
            } else {
                Some(to_ascii_lowercase(s))
            }
        },
        None => None,
    }
}

/// `f` is the fill of an OKX fill item.
pub open spec fn okx_fill_of(
    exchange: ExchangeId,
    instrument: Option<Instrument>,
    symbol_hint: Option<String>,
    item: JsonValue,
    f: Fill,
) -> bool {
    match item {
        JsonValue::Object(e) => {
            let symbol = or_empty(or_else(str2(e@, "instId"@, "inst_id"@), opt_view(symbol_hint)));
            &&& f.exchange == exchange
            &&& f.exchange_symbol@ == symbol
            &&& okx_row_instrument(instrument, symbol, f.instrument)
            &&& opt_view(f.trade_id) == str2(e@, "tradeId"@, "trade_id"@)
            &&& opt_view(f.order_id) == str2(e@, "ordId"@, "ord_id"@)
            &&& opt_view(f.side) == str_field(e@, "side"@)
            &&& opt_view(f.price) == str2(e@, "fillPx"@, "fill_px"@)
            &&& opt_view(f.size) == str2(e@, "fillSz"@, "fill_sz"@)
            &&& opt_view(f.fee) == str_field(e@, "fee"@)
            &&& opt_view(f.fee_asset) == str2(e@, "feeCcy"@, "fee_ccy"@)
            &&& opt_view(f.role) == match str2(e@, "execType"@, "exec_type"@) {
                Some(t) => Some(okx_role(t)),
                None => None,
            }
            &&& f.timestamp == u64_2(e@, "ts"@, "fillTime"@)
            &&& f.raw == item
        },
        _ => false,
    }
}

fn okx_fill(
    exchange: ExchangeId,
    instrument: &Option<Instrument>,
    symbol_hint: &Option<String>,
    entries: Vec<(String, JsonValue)>,
) -> (r: Fill)
    ensures
        okx_fill_of(exchange, *instrument, *symbol_hint, JsonValue::Object(entries), r),
{
    let e = &entries;
    let exchange_symbol = match string_field2(e, "instId", "inst_id") {
        Some(s) => s,
        None => match symbol_hint {
            Some(s) => crate::text::copy_string(s),
            None => String::new(),
        },
    };
    let mapped = match instrument {
        Some(i) => i.duplicate(),
        None => instrument_from_okx_symbol(exchange_symbol.as_str()),
    };
    let trade_id = string_field2(e, "tradeId", "trade_id");
    let order_id = string_field2(e, "ordId", "ord_id");
    let side = string_field(e, "side");
    let price = string_field2(e, "fillPx", "fill_px");
    let size = string_field2(e, "fillSz", "fill_sz");
    let fee = string_field(e, "fee");
    let fee_asset = string_field2(e, "feeCcy", "fee_ccy");
    let role = okx_fill_role(string_field2(e, "execType", "exec_type"));
    let timestamp = u64_field2(e, "ts", "fillTime");
    Fill {
        exchange,
        instrument: mapped,
        exchange_symbol,
        trade_id,
        order_id,
        side,
        price,
        size,
        fee,
        fee_asset,
        role,
        timestamp,
        raw: JsonValue::Object(entries),
    }
}

/// The fills of an OKX fills answer; an item that is not an object fails it.
pub fn okx_fills_from_value(
    exchange: ExchangeId,
    instrument: Option<Instrument>,
    symbol_hint: Option<String>,
    raw: JsonValue,
    label: &str,
) -> (r: Result<Vec<Fill>>)
    ensures
        match items_spec(raw) {
            None => r matches Err(e) && e.is_adapter(
                exchange,
                label@ + " is neither an array nor an object"@,
            ),
            Some(items) => match r {
                Ok(fills) => fills@.len() == items.len() && forall|i: int|
                    0 <= i < items.len() ==> okx_fill_of(
                        exchange,
                        instrument,
                        symbol_hint,
                        #[trigger] items[i],
                        fills@[i],
                    ),
                Err(e) => rejected(object_rejections(items, "OKX fill item is not an object"@), exchange, e),
            },
        },
{
    let ghost original = items_spec(raw);
    let mut items = match owned_items(raw, exchange, label) {
        Ok(items) => items,
        Err(e) => return Err(e),
    };
    let ghost all = items@;
    let mut fills: Vec<Fill> = Vec::new();
    let mut k: usize = 0;
    let n = items.len();
    assert(all.skip(0) =~= all);
    while items.len() > 0
        invariant
            n == all.len(),
            original == items_spec(raw),
            original == Some(all),
            k + items@.len() == all.len(),
            items@ == all.skip(k as int),
            fills@.len() == k,
            forall|j: int|
                0 <= j < k ==> okx_fill_of(exchange, instrument, symbol_hint, #[trigger] all[j], fills@[j]),
        decreases items@.len(),
    {
        let item = items.remove(0);
        assert(item == all[k as int]);
        match item {
            JsonValue::Object(entries) => {
                fills.push(okx_fill(exchange, &instrument, &symbol_hint, entries));
            },
            _ => {
                let err = Error::Adapter { exchange, message: owned("OKX fill item is not an object") };
                let ghost rej = object_rejections(all, "OKX fill item is not an object"@);
                assert(forall|j: int| 0 <= j < k ==> #[trigger] rej[j] is None);
                assert(first_rejected(rej, exchange, k as int, err));
                return Err(err);
            },
        }
        k += 1;
        assert(items@ =~= all.skip(k as int));
    }
    Ok(fills)
}

/// Whether a bill item is kept: with a symbol asked for, only items whose
/// instrument id is that symbol (in any ASCII case).
pub open spec fn okx_bill_wanted(symbol_hint: Option<String>, item: JsonValue) -> bool {
    match item {
        JsonValue::Object(e) => match symbol_hint {
            Some(expected) => match str2(e@, "instId"@, "inst_id"@) {
                Some(actual) => ascii_lower(actual) == ascii_lower(expected@),
                None => false,
            },
            None => true,
        },
        _ => false,
    }
}

pub open spec fn wanted_bill_items(symbol_hint: Option<String>, items: Seq<JsonValue>) -> Seq<JsonValue>
    decreases items.len(),
{
    if items.len() == 0 {
        Seq::empty()
    } else {
        let before = wanted_bill_items(symbol_hint, items.drop_last());
        if okx_bill_wanted(symbol_hint, items.last()) {
            before.push(items.last())
        } else {
            before
        }
    }
}

/// `b` is the bill of a kept OKX bill item; its instrument is the perpetual of
/// its instrument id, else the instrument asked for.
pub open spec fn okx_bill_of(exchange: ExchangeId, instrument: Option<Instrument>, item: JsonValue, b: AccountBill) -> bool {
    match item {
        JsonValue::Object(e) => {
            let symbol = str2(e@, "instId"@, "inst_id"@);
            &&& b.exchange == exchange
            &&& opt_view(b.exchange_symbol) == symbol
            &&& match symbol {
                Some(s) => b.instrument matches Some(i) && is_okx_symbol_instrument(i, s),
                None => same_instrument_opt(b.instrument, instrument),
            }
            &&& opt_view(b.bill_id) == str2(e@, "billId"@, "bill_id"@)
            &&& opt_view(b.asset) == str3(e@, "ccy"@, "currency"@, "asset"@)
            &&& opt_view(b.balance_change) == str3(e@, "balChg"@, "bal_chg"@, "balance_change"@)
            &&& opt_view(b.balance_after) == str3(e@, "bal"@, "balance"@, "balance_after"@)
            &&& opt_view(b.fee) == str_field(e@, "fee"@)
            &&& opt_view(b.pnl) == str_field(e@, "pnl"@)
            &&& opt_view(b.bill_type) == str_field(e@, "type"@)
            &&& opt_view(b.bill_sub_type) == str2(e@, "subType"@, "sub_type"@)
            &&& opt_view(b.order_id) == str2(e@, "ordId"@, "ord_id"@)
            &&& opt_view(b.trade_id) == str2(e@, "tradeId"@, "trade_id"@)
            &&& b.timestamp == u64_field_spec(e@, "ts"@)
            &&& b.raw == item
        },
        _ => false,
    }
}

fn okx_bill(exchange: ExchangeId, instrument: &Option<Instrument>, entries: Vec<(String, JsonValue)>) -> (r:
    AccountBill)
    ensures
        okx_bill_of(exchange, *instrument, JsonValue::Object(entries), r),
{
    let e = &entries;
    let exchange_symbol = string_field2(e, "instId", "inst_id");
    let mapped = match &exchange_symbol {
        Some(s) => Some(instrument_from_okx_symbol(s.as_str())),
        None => crate::instrument::duplicate_opt(instrument),
    };
    let bill_id = string_field2(e, "billId", "bill_id");
    let asset = string_field3(e, "ccy", "currency", "asset");
    let balance_change = string_field3(e, "balChg", "bal_chg", "balance_change");
    let balance_after = string_field3(e, "bal", "balance", "balance_after");
    let fee = string_field(e, "fee");
    let pnl = string_field(e, "pnl");
    let bill_type = string_field(e, "type");
    let bill_sub_type = string_field2(e, "subType", "sub_type");
    let order_id = string_field2(e, "ordId", "ord_id");
    let trade_id = string_field2(e, "tradeId", "trade_id");
    let timestamp = u64_field(e, "ts");
    AccountBill {
        exchange,
        instrument: mapped,
        exchange_symbol,
        bill_id,
        asset,
        balance_change,
        balance_after,
        fee,
        pnl,
        bill_type,
        bill_sub_type,
        order_id,
        trade_id,
        timestamp,
        raw: JsonValue::Object(entries),
    }
}

/// The bills of an OKX bills answer, only those of `symbol_hint` when one is
/// given; an item that is not an object fails the answer.
pub fn okx_account_bills_from_value(
    exchange: ExchangeId,
    instrument: Option<Instrument>,
    symbol_hint: Option<String>,
    raw: JsonValue,
) -> (r: Result<Vec<AccountBill>>)
    ensures
        match items_spec(raw) {
            None => r matches Err(e) && e.is_adapter(
                exchange,
                "OKX account bills response"@ + " is neither an array nor an object"@,
            ),
            Some(items) => match r {
                Ok(bills) => (forall|i: int| 0 <= i < items.len() ==> (#[trigger] items[i]) is Object)
                    && bills@.len() == wanted_bill_items(symbol_hint, items).len() && forall|i: int|
                    0 <= i < bills@.len() ==> okx_bill_of(
                        exchange,
                        instrument,
                        #[trigger] wanted_bill_items(symbol_hint, items)[i],
                        bills@[i],
                    ),
                Err(e) => rejected(
                    object_rejections(items, "OKX account bill item is not an object"@),
                    exchange,
                    e,
                ),
            },
        },
{
    let ghost original = items_spec(raw);
    let mut items = match owned_items(raw, exchange, "OKX account bills response") {
        Ok(items) => items,
        Err(e) => return Err(e),
    };
    let ghost all = items@;
    let mut bills: Vec<AccountBill> = Vec::new();
    let mut k: usize = 0;
    let n = items.len();
    assert(all.skip(0) =~= all);
    while items.len() > 0
        invariant
            n == all.len(),
            original == items_spec(raw),
            original == Some(all),
            k + items@.len() == all.len(),
            items@ == all.skip(k as int),
            forall|j: int| 0 <= j < k ==> (#[trigger] all[j]) is Object,
            bills@.len() == wanted_bill_items(symbol_hint, all.take(k as int)).len(),
            forall|j: int|
                0 <= j < bills@.len() ==> okx_bill_of(
                    exchange,
                    instrument,
                    #[trigger] wanted_bill_items(symbol_hint, all.take(k as int))[j],
                    bills@[j],
                ),
        decreases items@.len(),
    {
        let item = items.remove(0);
        assert(item == all[k as int]);
        assert(all.take(k + 1).drop_last() =~= all.take(k as int));
        assert(all.take(k + 1).last() == all[k as int]);
        match item {
            JsonValue::Object(entries) => {
                let wanted = match &symbol_hint {
                    Some(expected) => match string_field2(&entries, "instId", "inst_id") {
                        Some(actual) => eq_ignore_ascii_case(actual.as_str(), expected.as_str()),
                        None => false,
                    },
                    None => true,
                };
                if wanted {
                    bills.push(okx_bill(exchange, &instrument, entries));
                }
            },
            _ => {
                let err = Error::Adapter {
                    exchange,
                    message: owned("OKX account bill item is not an object"),
                };
                let ghost rej = object_rejections(all, "OKX account bill item is not an object"@);
                assert(forall|j: int| 0 <= j < k ==> #[trigger] rej[j] is None);
                assert(first_rejected(rej, exchange, k as int, err));
                return Err(err);
            },
        }
        k += 1;
        assert(items@ =~= all.skip(k as int));
    }
    assert(all.take(k as int) =~= all);
    Ok(bills)
}

} // verus!
