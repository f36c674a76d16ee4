//! Binance account bills: which history a bill query reads, and how the rows
//! of each history become bills.
use crate::account::{AccountBill, AccountBillQuery};
use crate::error::{Error, Result};
use crate::exchange::ExchangeId;
use crate::instrument::{duplicate_opt, same_instrument_opt};
use crate::json::{
    first_rejected, rejected, first_str_field, first_string_field, first_u64, first_u64_field, obj_get,
    str_field, string_field, u64_field, u64_field_spec,
    obj_lookup, obj_take, JsonValue,
};
use crate::text::{ascii_lower, concat, opt_view, owned, text_eq, to_ascii_lowercase, trim, trim_text};
use vstd::prelude::*;

verus! {

broadcast use vstd::std_specs::vec::group_vec_axioms;

/// The rows of a bills answer: an array, or the `rows` (else `data`) array of
/// an object.
pub open spec fn bill_rows(raw: JsonValue) -> Option<Seq<JsonValue>> {
    match raw {
        JsonValue::Array(v) => Some(v@),
        JsonValue::Object(e) => match obj_get(e@, "rows"@) {
            Some(JsonValue::Array(v)) => Some(v@),
            Some(_) => None,
            None => match obj_get(e@, "data"@) {
                Some(JsonValue::Array(v)) => Some(v@),
                _ => None,
            },
        },
        _ => None,
    }
}

/// The error of a bills answer without rows.
pub open spec fn bill_rows_error(raw: JsonValue, label: Seq<char>) -> Seq<char> {
    match raw {
        JsonValue::Object(_) => label + " does not contain rows"@,
        _ => label + " is neither an array nor an object"@,
    }
}

/// The rows of a bills answer (`value_items`).
pub fn bill_items(raw: JsonValue, label: &str) -> (r: Result<Vec<JsonValue>>)
    ensures
        match bill_rows(raw) {
            Some(rows) => r matches Ok(v) && v@ == rows,
            None => r matches Err(e) && e.is_adapter(
                ExchangeId::Binance,
                bill_rows_error(raw, label@),
            ),
        },
{
    match raw {
        JsonValue::Array(values) => Ok(values),
        JsonValue::Object(e) => {
            let has_rows = obj_lookup(&e, "rows").is_some();
            let member = if has_rows {
                obj_take(e, "rows")
            } else {
                obj_take(e, "data")
            };
            match member {
                Some(JsonValue::Array(v)) => Ok(v),
                _ => Err(
                    Error::Adapter {
                        exchange: ExchangeId::Binance,
                        message: concat(label, " does not contain rows"),
                    },
                ),
            }
        },
        _ => Err(
            Error::Adapter {
                exchange: ExchangeId::Binance,
                message: concat(label, " is neither an array nor an object"),
            },
        ),
    }
}

/// Whether an income row belongs to the query: its asset and symbol must be
/// the ones asked for, when one is asked for.
pub open spec fn income_row_wanted(query: AccountBillQuery, e: Seq<(String, JsonValue)>) -> bool {
    &&& query.asset matches Some(a) ==> str_field(e, "asset"@) == Some(a@)
    &&& query.instrument matches Some(i) ==> str_field(e, "symbol"@) == Some(
        i.symbol_spec(ExchangeId::Binance),
    )
}

/// `bill` is the bill of an income row.
pub open spec fn income_bill_of(query: AccountBillQuery, row: JsonValue, bill: AccountBill) -> bool {
    match row {
        JsonValue::Object(e) => {
            &&& bill.exchange == ExchangeId::Binance
            &&& same_instrument_opt(bill.instrument, query.instrument)
            &&& opt_view(bill.exchange_symbol) == str_field(e@, "symbol"@)
            &&& opt_view(bill.bill_id) == str_field(e@, "tranId"@)
            &&& opt_view(bill.asset) == str_field(e@, "asset"@)
            &&& opt_view(bill.balance_change) == str_field(e@, "income"@)
            &&& bill.balance_after is None
            &&& bill.fee is None
            &&& bill.pnl is None
            &&& opt_view(bill.bill_type) == str_field(e@, "incomeType"@)
            &&& opt_view(bill.bill_sub_type) == str_field(e@, "info"@)
            &&& bill.order_id is None
            &&& opt_view(bill.trade_id) == str_field(e@, "tradeId"@)
            &&& bill.timestamp == u64_field_spec(e@, "time"@)
            &&& bill.raw.model() == row.model()
        },
        _ => false,
    }
}

/// The income rows kept by the query, in order.
pub open spec fn wanted_income_rows(query: AccountBillQuery, rows: Seq<JsonValue>) -> Seq<JsonValue>
    decreases rows.len(),
{
    if rows.len() == 0 {
        Seq::empty()
    } else {
        let before = wanted_income_rows(query, rows.drop_last());
        match rows.last() {
            JsonValue::Object(e) => if income_row_wanted(query, e@) {
                before.push(rows.last())
            } else {
                before
            },
            _ => before,
        }
    }
}

pub open spec fn income_rejections(rows: Seq<JsonValue>) -> Seq<Option<Seq<char>>> {
    Seq::new(
        rows.len(),
        |i: int|
            match rows[i] {
                JsonValue::Object(_) => None,
                _ => Some("Binance futures income item is not an object"@),
            },
    )
}

/// The bills of a futures income answer: the rows of the asked asset and
/// symbol, in order; a row that is not an object fails the answer.
pub fn binance_income_bills_from_value(raw: JsonValue, query: &AccountBillQuery) -> (r: Result<
    Vec<AccountBill>,
>)
    ensures
        match bill_rows(raw) {
            None => r matches Err(e) && e.is_adapter(
                ExchangeId::Binance,
                bill_rows_error(raw, "Binance futures income response"@),
            ),
            Some(rows) => match r {
                Ok(bills) => (forall|i: int| 0 <= i < rows.len() ==> (#[trigger] rows[i]) is Object)
                    && bills@.len() == wanted_income_rows(*query, rows).len() && forall|i: int|
                    0 <= i < bills@.len() ==> income_bill_of(
                        *query,
                        #[trigger] wanted_income_rows(*query, rows)[i],
                        bills@[i],
                    ),
                Err(e) => exists|i: int|
                    #[trigger] first_rejected(income_rejections(rows), ExchangeId::Binance, i, e),
            },
        },
{
    let ghost original = bill_rows(raw);
    let items = match bill_items(raw, "Binance futures income response") {
        Ok(items) => items,
        Err(e) => return Err(e),
    };
    let ghost rows = original->0;
    let expected_symbol = match &query.instrument {
        Some(i) => Some(i.symbol_for(ExchangeId::Binance)),
        None => None,
    };
    let mut bills: Vec<AccountBill> = Vec::new();
    let mut i: usize = 0;
    while i < items.len()
        invariant
            i <= items.len(),
            original == Some(rows),
            original == bill_rows(raw),
            items@.len() == rows.len(),
            items@ == rows,
            match expected_symbol {
                Some(s) => query.instrument matches Some(inst) && s@ == inst.symbol_spec(
                    ExchangeId::Binance,
                ),
                None => query.instrument is None,
            },
            forall|k: int| 0 <= k < i ==> (#[trigger] rows[k]) is Object,
            bills@.len() == wanted_income_rows(*query, rows.take(i as int)).len(),
            forall|k: int|
                0 <= k < bills@.len() ==> income_bill_of(
                    *query,
                    #[trigger] wanted_income_rows(*query, rows.take(i as int))[k],
                    bills@[k],
                ),
        decreases items.len() - i,
    {
        assert(rows.take(i + 1).drop_last() =~= rows.take(i as int));
        assert(rows.take(i + 1).last() == rows[i as int]);
        let item = &items[i];
        let e = match item {
            JsonValue::Object(e) => e,
            _ => {
                let err = Error::Adapter {
                    exchange: ExchangeId::Binance,
                    message: owned("Binance futures income item is not an object"),
                };
                assert(forall|k: int| 0 <= k < i ==> #[trigger] income_rejections(rows)[k] is None);
                assert(first_rejected(income_rejections(rows), ExchangeId::Binance, i as int, err));
                return Err(err);
            },
        };
        let asset = string_field(e, "asset");
        let symbol = string_field(e, "symbol");
        let asset_ok = match &query.asset {
            Some(a) => match &asset {
                Some(b) => text_eq(a.as_str(), b.as_str()),
                None => false,
            },
            None => true,
        };
        let symbol_ok = match &expected_symbol {
            Some(s) => match &symbol {
                Some(b) => text_eq(s.as_str(), b.as_str()),
                None => false,
            },
            None => true,
        };
        if asset_ok && symbol_ok {
            let bill = AccountBill {
                exchange: ExchangeId::Binance,
                instrument: duplicate_opt(&query.instrument),
                exchange_symbol: symbol,
                bill_id: string_field(e, "tranId"),
                asset,
                balance_change: string_field(e, "income"),
                balance_after: None,
                fee: None,
                pnl: None,
                bill_type: string_field(e, "incomeType"),
                bill_sub_type: string_field(e, "info"),
                order_id: None,
                trade_id: string_field(e, "tradeId"),
                timestamp: u64_field(e, "time"),
                raw: item.copy(),
            };
            bills.push(bill);
        }
        i += 1;
    }
    assert(rows.take(i as int) =~= rows);
    Ok(bills)
}

/// `bill` is the bill of one deposit, withdrawal or transfer row.
pub open spec fn asset_bill_of(row: JsonValue, fallback_type: Seq<char>, id_fields: Seq<&str>, bill: AccountBill) -> bool {
    match row {
        JsonValue::Object(e) => {
            &&& bill.exchange == ExchangeId::Binance
            &&& bill.instrument is None
            &&& bill.exchange_symbol is None
            &&& opt_view(bill.bill_id) == first_str_field(e@, id_fields)
            &&& opt_view(bill.asset) == first_str_field(e@, seq!["coin", "asset"])
            &&& opt_view(bill.balance_change) == first_str_field(e@, seq!["amount", "balanceChange"])
            &&& opt_view(bill.balance_after) == first_str_field(e@, seq!["balance", "balanceAfter"])
            &&& opt_view(bill.fee) == first_str_field(e@, seq!["transactionFee", "fee"])
            &&& opt_view(bill.pnl) == first_str_field(e@, seq!["realizedPnl", "pnl"])
            &&& opt_view(bill.bill_type) == Some(
                match str_field(e@, "type"@) {
                    Some(t) => t,
                    None => fallback_type,
                },
            )
            &&& opt_view(bill.bill_sub_type) == str_field(e@, "status"@)
            &&& opt_view(bill.order_id) == first_str_field(e@, seq!["orderId", "clientTranId"])
            &&& opt_view(bill.trade_id) == str_field(e@, "tradeId"@)
            &&& bill.timestamp == first_u64_field(
                e@,
                seq!["timestamp", "insertTime", "applyTime", "completeTime", "time"],
            )
            &&& bill.raw == row
        },
        _ => false,
    }
}

/// The bill of one deposit, withdrawal or transfer row; its type is the row's
/// `type`, else `fallback_type`.
pub fn binance_account_bill(raw: JsonValue, fallback_type: &str, id_fields: &[&str]) -> (r: Result<
    AccountBill,
>)
    ensures
        match raw {
            JsonValue::Object(_) => r matches Ok(bill) && asset_bill_of(
                raw,
                fallback_type@,
                id_fields@,
                bill,
            ),
            _ => r matches Err(e) && e.is_adapter(
                ExchangeId::Binance,
                "Binance account bill item is not an object"@,
            ),
        },
{
    let bill = match &raw {
        JsonValue::Object(e) => {
            let asset_fields = ["coin", "asset"];
            assert(asset_fields@ =~= seq!["coin", "asset"]);
            let change_fields = ["amount", "balanceChange"];
            assert(change_fields@ =~= seq!["amount", "balanceChange"]);
            let after_fields = ["balance", "balanceAfter"];
            assert(after_fields@ =~= seq!["balance", "balanceAfter"]);
            let fee_fields = ["transactionFee", "fee"];
            assert(fee_fields@ =~= seq!["transactionFee", "fee"]);
            let pnl_fields = ["realizedPnl", "pnl"];
            assert(pnl_fields@ =~= seq!["realizedPnl", "pnl"]);
            let order_fields = ["orderId", "clientTranId"];
            assert(order_fields@ =~= seq!["orderId", "clientTranId"]);
            let time_fields = ["timestamp", "insertTime", "applyTime", "completeTime", "time"];
            assert(time_fields@ =~= seq!["timestamp", "insertTime", "applyTime", "completeTime", "time"]);
            AccountBill {
                exchange: ExchangeId::Binance,
                instrument: None,
                exchange_symbol: None,
                bill_id: first_string_field(e, id_fields),
                asset: first_string_field(e, &asset_fields),
                balance_change: first_string_field(e, &change_fields),
                balance_after: first_string_field(e, &after_fields),
                fee: first_string_field(e, &fee_fields),
                pnl: first_string_field(e, &pnl_fields),
                bill_type: match string_field(e, "type") {
                    Some(t) => Some(t),
                    None => Some(owned(fallback_type)),
                },
                bill_sub_type: string_field(e, "status"),
                order_id: first_string_field(e, &order_fields),
                trade_id: string_field(e, "tradeId"),
                timestamp: first_u64(e, &time_fields),
                raw: JsonValue::Null,
            }
        },
        _ => {
            return Err(
                Error::Adapter {
                    exchange: ExchangeId::Binance,
                    message: owned("Binance account bill item is not an object"),
                },
            )
        },
    };
    Ok(AccountBill { raw, ..bill })
}

pub open spec fn asset_bill_rejections(rows: Seq<JsonValue>) -> Seq<Option<Seq<char>>> {
    Seq::new(
        rows.len(),
        |i: int|
            match rows[i] {
                JsonValue::Object(_) => None,
                _ => Some("Binance account bill item is not an object"@),
            },
    )
}

/// The bills of a deposit, withdrawal or transfer history answer, one per row.
#[verifier::spinoff_prover]
pub fn binance_account_bills_from_value(raw: JsonValue, fallback_type: &str, id_fields: &[&str]) -> (r:
    Result<Vec<AccountBill>>)
    ensures
        match bill_rows(raw) {
            None => r matches Err(e) && e.is_adapter(
                ExchangeId::Binance,
                bill_rows_error(raw, "Binance account bills response"@),
            ),
            Some(rows) => match r {
                Ok(bills) => bills@.len() == rows.len() && forall|i: int|
                    0 <= i < rows.len() ==> asset_bill_of(
                        #[trigger] rows[i],
                        fallback_type@,
                        id_fields@,
                        bills@[i],
                    ),
                Err(e) => rejected(asset_bill_rejections(rows), ExchangeId::Binance, e),
            },
        },
{
    let ghost original = bill_rows(raw);
    let mut items = match bill_items(raw, "Binance account bills response") {
        Ok(items) => items,
        Err(e) => return Err(e),
    };
    let ghost rows = items@;
    let mut bills: Vec<AccountBill> = Vec::new();
    let mut i: usize = 0;
    let n = items.len();
    assert(rows.skip(0) =~= rows);
    while items.len() > 0
        invariant
            n == rows.len(),
            original == bill_rows(raw),
            original == Some(rows),
            i + items@.len() == rows.len(),
            items@ == rows.skip(i as int),
            bills@.len() == i,
            forall|k: int|
                0 <= k < i ==> asset_bill_of(
                    #[trigger] rows[k],
                    fallback_type@,
                    id_fields@,
                    bills@[k],
                ),
        decreases items@.len(),
    {
        let item = items.remove(0);
        assert(item == rows[i as int]);
        let ghost item_view = item;
        match binance_account_bill(item, fallback_type, id_fields) {
            Ok(bill) => bills.push(bill),
            Err(e) => {
                assert(!(item_view is Object));
                assert(asset_bill_rejections(rows)[i as int] == Some("Binance account bill item is not an object"@));
                assert(forall|k: int| 0 <= k < i ==> #[trigger] asset_bill_rejections(rows)[k] is None);
                assert(first_rejected(asset_bill_rejections(rows), ExchangeId::Binance, i as int, e));
                assert(rejected(asset_bill_rejections(rows), ExchangeId::Binance, e));
                return Err(e);
            },
        }
        i += 1;
        assert(items@ =~= rows.skip(i as int));
    }
    Ok(bills)
}

/// Which Binance history answers a bill query.
#[derive(Debug, Clone, PartialEq, Eq)]
pub enum BinanceBillSource {
    /// Futures income, of one income type or of all.
    Income(Option<&'static str>),
    /// Deposits, then withdrawals.
    DepositsAndWithdrawals,
    Deposits,
    Withdrawals,
    /// Universal transfers of the given transfer type.
    Transfers(String),
}

/// The bill type asked for, trimmed; `dnw` when none is asked for.
pub open spec fn asked_bill_type(query: AccountBillQuery) -> Seq<char> {
    trim(
        match query.bill_type {
            Some(t) => t@,
            None => "dnw"@,
        },
    )
}

/// Asset histories take no instrument, instrument type or archive filter.
pub open spec fn asset_filters_refused(query: AccountBillQuery) -> bool {
    query.instrument is Some || query.inst_type is Some || query.archive
}

/// Futures income takes no archive and only perpetual instrument types.
pub open spec fn income_filters_refused(query: AccountBillQuery) -> bool {
    query.archive || (query.inst_type matches Some(t) && t@ != "SWAP"@ && t@ != "PERPETUAL"@)
}

/// The capability a bill query is refused for, if it is refused. The bill type
/// is compared in lower case.
pub open spec fn bill_refusal(query: AccountBillQuery) -> Option<Seq<char>> {
    let kind = ascii_lower(asked_bill_type(query));
    if kind == "income"@ || kind == "funding_fee"@ {
        if income_filters_refused(query) {
            Some("futures income history filters"@)
        } else {
            None
        }
    } else if kind == "transfer"@ {
        Some("account bills transfer type"@)
    } else if asset_filters_refused(query) {
        Some("account bills filters"@)
    } else if kind == "all"@ || kind == "dnw"@ || kind == "deposit"@ || kind == "withdraw"@ || kind
        == "withdrawal"@ {
        None
    } else if query.asset is Some {
        Some("account bills transfer asset filter"@)
    } else {
        None
    }
}

/// The history that answers an accepted bill query.
pub open spec fn bill_source_of(query: AccountBillQuery, source: BinanceBillSource) -> bool {
    let kind = ascii_lower(asked_bill_type(query));
    if kind == "income"@ {
        source == BinanceBillSource::Income(None)
    } else if kind == "funding_fee"@ {
        source == BinanceBillSource::Income(Some("FUNDING_FEE"))
    } else if kind == "all"@ || kind == "dnw"@ {
        source == BinanceBillSource::DepositsAndWithdrawals
    } else if kind == "deposit"@ {
        source == BinanceBillSource::Deposits
    } else if kind == "withdraw"@ || kind == "withdrawal"@ {
        source == BinanceBillSource::Withdrawals
    } else {
        source matches BinanceBillSource::Transfers(t) && t@ == asked_bill_type(query)
    }
}

/// The history that answers a bill query: futures income, deposits and
/// withdrawals, or universal transfers of the asked type; the filters a
/// history cannot apply are refused as unsupported.
pub fn binance_bill_source(query: &AccountBillQuery) -> (r: Result<BinanceBillSource>)
    ensures
        match bill_refusal(*query) {
            Some(capability) => r matches Err(e) && e.is_unsupported(ExchangeId::Binance, capability),
            None => r matches Ok(source) && bill_source_of(*query, source),
        },
{
    let asked = match &query.bill_type {
        Some(t) => trim_text(t.as_str()),
        None => trim_text("dnw"),
    };
    let kind = to_ascii_lowercase(asked.as_str());
    let k = kind.as_str();
    let asset_refused = query.instrument.is_some() || query.inst_type.is_some() || query.archive;
    if text_eq(k, "income") || text_eq(k, "funding_fee") {
        let refused = query.archive || match &query.inst_type {
            Some(t) => !text_eq(t.as_str(), "SWAP") && !text_eq(t.as_str(), "PERPETUAL"),
            None => false,
        };
        if refused {
            return Err(
                Error::Unsupported {
                    exchange: ExchangeId::Binance,
                    capability: "futures income history filters",
                },
            );
        }
        if text_eq(k, "income") {
            return Ok(BinanceBillSource::Income(None));
        }
        return Ok(BinanceBillSource::Income(Some("FUNDING_FEE")));
    }
    if text_eq(k, "transfer") {
        return Err(
            Error::Unsupported {
                exchange: ExchangeId::Binance,
                capability: "account bills transfer type",
            },
        );
    }
    if asset_refused {
        return Err(
            Error::Unsupported { exchange: ExchangeId::Binance, capability: "account bills filters" },
        );
    }
    if text_eq(k, "all") || text_eq(k, "dnw") {
        return Ok(BinanceBillSource::DepositsAndWithdrawals);
    }
    if text_eq(k, "deposit") {
        return Ok(BinanceBillSource::Deposits);
    }
    if text_eq(k, "withdraw") || text_eq(k, "withdrawal") {
        return Ok(BinanceBillSource::Withdrawals);
    }
    if query.asset.is_some() {
        return Err(
            Error::Unsupported {
                exchange: ExchangeId::Binance,
                capability: "account bills transfer asset filter",
            },
        );
    }
    Ok(BinanceBillSource::Transfers(asked))
}

} // verus!
