//! OKX account answers: balances, the USDT margin summary, identity and
//! order permission.
use crate::account::{AccountIdentity, AccountMarginSummary, AccountOrderPermission, Balance, SourcedBalance};
use crate::error::{Error, Result};
use crate::exchange::ExchangeId;
use crate::json::{obj_get, str_field, string_field, JsonValue};
use crate::okx::{non_empty, okx_account_mode, okx_account_mode_spec, okx_parent_account_id};
use crate::text::{all_ws, comma_token_present, has_comma_token, copy_string, is_blank, opt_view, owned, parse_u64, parse_u64_spec, text_eq, text_is_empty};
use vstd::prelude::*;

verus! {

broadcast use vstd::std_specs::vec::group_vec_axioms;

/// One currency of an OKX account balance, with the fields the mappings read.
#[derive(Debug, Clone, PartialEq)]
pub struct OkxBalanceDetail {
    pub ccy: String,
    pub eq: String,
    pub cash_bal: String,
    pub avail_eq: String,
    pub avail_bal: String,
    pub frozen_bal: String,
    pub imr: String,
    /// The detail as OKX sent it.
    pub raw: JsonValue,
}

/// One OKX account balance: its update time and its currency details.
#[derive(Debug, Clone, PartialEq)]
pub struct OkxAccountBalance {
    pub u_time: String,
    pub total_eq: String,
    pub details: Vec<OkxBalanceDetail>,
}

/// How many details are in currency `ccy`.
pub open spec fn ccy_count(details: Seq<OkxBalanceDetail>, ccy: Seq<char>) -> nat
    decreases details.len(),
{
    if details.len() == 0 {
        0
    } else {
        ccy_count(details.drop_last(), ccy) + if details.last().ccy@ == ccy {
            1nat
        } else {
            0nat
        }
    }
}

/// The account's update time, when it is a positive number.
pub open spec fn okx_update_time(u_time: Seq<char>) -> Option<u64> {
    match parse_u64_spec(u_time) {
        Some(t) => if t > 0 {
            Some(t)
        } else {
            None
        },
        None => None,
    }
}

/// Why the USDT margin summary is refused, in the order of the checks.
pub open spec fn okx_margin_summary_rejection(accounts: Seq<OkxAccountBalance>, quote_currency: Seq<char>) -> Option<
    Seq<char>,
> {
    if quote_currency != "USDT"@ {
        Some("OKX margin summary only supports USDT"@)
    } else if accounts.len() != 1 {
        Some("OKX balance response must contain one account summary"@)
    } else if okx_update_time(accounts[0].u_time@) is None {
        Some("OKX balance response missing uTime"@)
    } else if ccy_count(accounts[0].details@, quote_currency) != 1 {
        Some("OKX balance response has no unique USDT detail"@)
    } else if exists|i: int|
        0 <= i < accounts[0].details@.len() && #[trigger] accounts[0].details@[i].ccy@
            == quote_currency && (accounts[0].details@[i].eq@.len() == 0
            || accounts[0].details@[i].avail_eq@.len() == 0) {
        Some("OKX USDT detail missing eq or availEq"@)
    } else {
        None
    }
}

/// `summary` is read from the one USDT detail of the one account.
pub open spec fn okx_margin_summary_of(accounts: Seq<OkxAccountBalance>, summary: AccountMarginSummary) -> bool {
    &&& summary.exchange == ExchangeId::Okx
    &&& summary.quote_currency@ == "USDT"@
    &&& forall|i: int|
        0 <= i < accounts[0].details@.len() && #[trigger] accounts[0].details@[i].ccy@ == "USDT"@
            ==> {
            let d = accounts[0].details@[i];
            &&& summary.account_equity@ == d.eq@
            &&& summary.available_margin@ == d.avail_eq@
            &&& opt_view(summary.initial_margin) == if d.imr@.len() == 0 {
                None
            } else {
                Some(d.imr@)
            }
        }
    &&& summary.position_initial_margin is None
    &&& summary.open_order_initial_margin is None
    &&& Some(summary.source_updated_at_ms) == okx_update_time(accounts[0].u_time@)
    &&& summary.source_revision@ == "okx-account-balance-currency-detail-v1"@
}

fn refuse_summary(message: &str) -> (r: Result<AccountMarginSummary>)
    ensures
        r matches Err(e) && e.is_adapter(ExchangeId::Okx, message@),
{
    Err(Error::Adapter { exchange: ExchangeId::Okx, message: owned(message) })
}

/// The USDT margin summary of an OKX balance answer: the equity, available
/// equity and initial margin of the account's one USDT detail.
pub fn map_margin_summary(accounts: Vec<OkxAccountBalance>, quote_currency: &str) -> (r: Result<
    AccountMarginSummary,
>)
    ensures
        match okx_margin_summary_rejection(accounts@, quote_currency@) {
            Some(message) => r matches Err(e) && e.is_adapter(ExchangeId::Okx, message),
            None => r matches Ok(summary) && okx_margin_summary_of(accounts@, summary),
        },
{
    if !text_eq(quote_currency, "USDT") {
        return refuse_summary("OKX margin summary only supports USDT");
    }
    if accounts.len() != 1 {
        return refuse_summary("OKX balance response must contain one account summary");
    }
    let account = &accounts[0];
    let updated = match parse_u64(account.u_time.as_str()) {
        Some(t) => if t > 0 {
            t
        } else {
            return refuse_summary("OKX balance response missing uTime");
        },
        None => return refuse_summary("OKX balance response missing uTime"),
    };
    let details = &account.details;
    let ghost q = quote_currency@;
    let mut count: usize = 0;
    let mut found: usize = 0;
    let mut i: usize = 0;
    while i < details.len()
        invariant
            i <= details.len(),
            q == quote_currency@,
            count <= i,
            count == ccy_count(details@.take(i as int), q),
            count == 0 ==> forall|k: int| 0 <= k < i ==> (#[trigger] details@[k]).ccy@ != q,
            count >= 1 ==> found < i && details@[found as int].ccy@ == q,
            count == 1 ==> forall|k: int|
                0 <= k < i && k != found ==> (#[trigger] details@[k]).ccy@ != q,
        decreases details.len() - i,
    {
        assert(details@.take(i + 1).drop_last() =~= details@.take(i as int));
        assert(details@.take(i + 1).last() == details@[i as int]);
        let matches = text_eq(details[i].ccy.as_str(), quote_currency);
        assert(matches == (details@[i as int].ccy@ == q));
        if matches {
            if count == 0 {
                found = i;
            }
            count += 1;
        }
        i += 1;
    }
    assert(details@.take(i as int) =~= details@);
    if count != 1 {
        return refuse_summary("OKX balance response has no unique USDT detail");
    }
    let detail = &details[found];
    if text_is_empty(detail.eq.as_str()) || text_is_empty(detail.avail_eq.as_str()) {
        return refuse_summary("OKX USDT detail missing eq or availEq");
    }
    Ok(
        AccountMarginSummary {
            exchange: ExchangeId::Okx,
            quote_currency: owned(quote_currency),
            account_equity: copy_string(&detail.eq),
            available_margin: copy_string(&detail.avail_eq),
            initial_margin: non_empty(copy_string(&detail.imr)),
            position_initial_margin: None,
            open_order_initial_margin: None,
            source_updated_at_ms: updated,
            source_revision: owned("okx-account-balance-currency-detail-v1"),
        },
    )
}

/// The update time of an account, zero when it has none.
pub open spec fn account_time(account: OkxAccountBalance) -> u64 {
    match parse_u64_spec(account.u_time@) {
        Some(t) => t,
        None => 0,
    }
}

/// Each detail of `account` with the account's update time.
pub open spec fn detail_rows(account: OkxAccountBalance) -> Seq<(OkxBalanceDetail, u64)> {
    Seq::new(account.details@.len(), |j: int| (account.details@[j], account_time(account)))
}

/// Every detail of every account, in order, with its account's update time.
pub open spec fn balance_rows(accounts: Seq<OkxAccountBalance>) -> Seq<(OkxBalanceDetail, u64)>
    decreases accounts.len(),
{
    if accounts.len() == 0 {
        Seq::empty()
    } else {
        balance_rows(accounts.drop_last()) + detail_rows(accounts.last())
    }
}

/// `b` is the balance of one detail at the account's update time.
pub open spec fn okx_balance_of(row: (OkxBalanceDetail, u64), b: SourcedBalance) -> bool {
    let d = row.0;
    &&& b.source_updated_at_ms == row.1
    &&& b.balance.exchange == ExchangeId::Okx
    &&& b.balance.asset@ == d.ccy@
    &&& b.balance.total@ == d.eq@
    &&& b.balance.available@ == if d.avail_bal@.len() == 0 {
        d.avail_eq@
    } else {
        d.avail_bal@
    }
    &&& opt_view(b.balance.frozen) == if d.frozen_bal@.len() == 0 {
        None
    } else {
        Some(d.frozen_bal@)
    }
    &&& b.balance.raw.model() == d.raw.model()
}

fn okx_detail_balance(detail: &OkxBalanceDetail, updated: u64) -> (r: SourcedBalance)
    ensures
        okx_balance_of((*detail, updated), r),
{
    let available = if text_is_empty(detail.avail_bal.as_str()) {
        copy_string(&detail.avail_eq)
    } else {
        copy_string(&detail.avail_bal)
    };
    SourcedBalance {
        balance: Balance {
            exchange: ExchangeId::Okx,
            asset: copy_string(&detail.ccy),
            total: copy_string(&detail.eq),
            available,
            frozen: non_empty(copy_string(&detail.frozen_bal)),
            raw: detail.raw.copy(),
        },
        source_updated_at_ms: updated,
    }
}

/// Every currency detail of every account as a balance stamped with its
/// account's update time; an account without a readable `uTime` fails the
/// whole answer.
pub fn okx_sourced_balances(accounts: &Vec<OkxAccountBalance>) -> (r: Result<Vec<SourcedBalance>>)
    ensures
        match r {
            Ok(balances) => (forall|a: int|
                0 <= a < accounts@.len() ==> parse_u64_spec(#[trigger] accounts@[a].u_time@) is Some)
                && balances@.len() == balance_rows(accounts@).len() && forall|i: int|
                0 <= i < balances@.len() ==> okx_balance_of(
                    #[trigger] balance_rows(accounts@)[i],
                    balances@[i],
                ),
            Err(e) => (exists|a: int|
                0 <= a < accounts@.len() && parse_u64_spec(#[trigger] accounts@[a].u_time@) is None)
                && e.is_adapter(ExchangeId::Okx, "OKX balance response missing uTime"@),
        },
{
    let mut out: Vec<SourcedBalance> = Vec::new();
    let mut a: usize = 0;
    while a < accounts.len()
        invariant
            a <= accounts.len(),
            forall|k: int| 0 <= k < a ==> parse_u64_spec(#[trigger] accounts@[k].u_time@) is Some,
            out@.len() == balance_rows(accounts@.take(a as int)).len(),
            forall|i: int|
                0 <= i < out@.len() ==> okx_balance_of(
                    #[trigger] balance_rows(accounts@.take(a as int))[i],
                    out@[i],
                ),
        decreases accounts.len() - a,
    {
        let account = &accounts[a];
        let updated = match parse_u64(account.u_time.as_str()) {
            Some(t) => t,
            None => {
                return Err(
                    Error::Adapter {
                        exchange: ExchangeId::Okx,
                        message: owned("OKX balance response missing uTime"),
                    },
                )
            },
        };
        let ghost before = balance_rows(accounts@.take(a as int));
        let ghost rows = detail_rows(accounts@[a as int]);
        assert(accounts@.take(a + 1).drop_last() =~= accounts@.take(a as int));
        assert(balance_rows(accounts@.take(a + 1)) == before + rows);
        let mut j: usize = 0;
        while j < account.details.len()
            invariant
                j <= account.details.len(),
                *account == accounts@[a as int],
                rows == detail_rows(*account),
                updated == account_time(*account),
                out@.len() == before.len() + j,
                forall|i: int| 0 <= i < out@.len() ==> okx_balance_of(#[trigger] (before + rows)[i], out@[i]),
            decreases account.details.len() - j,
        {
            let b = okx_detail_balance(&account.details[j], updated);
            assert((before + rows)[before.len() + j] == rows[j as int]);
            out.push(b);
            j += 1;
        }
        a += 1;
    }
    assert(accounts@.take(a as int) =~= accounts@);
    Ok(out)
}

/// The object an OKX account-config answer describes: its first item when
/// that is an object, or the answer itself when it is one.
pub open spec fn config_object(raw: JsonValue) -> Option<Seq<(String, JsonValue)>> {
    match raw {
        JsonValue::Array(items) => if items@.len() > 0 {
            match items@[0] {
                JsonValue::Object(e) => Some(e@),
                _ => None,
            }
        } else {
            None
        },
        JsonValue::Object(e) => Some(e@),
        _ => None,
    }
}

fn config_object_of(raw: &JsonValue) -> (r: Option<&Vec<(String, JsonValue)>>)
    ensures
        match r {
            Some(e) => config_object(*raw) == Some(e@),
            None => config_object(*raw) is None,
        },
{
    match raw {
        JsonValue::Array(items) => if items.len() > 0 {
            match &items[0] {
                JsonValue::Object(e) => Some(e),
                _ => None,
            }
        } else {
            None
        },
        JsonValue::Object(e) => Some(e),
        _ => None,
    }
}

/// A member's text when it is not blank.
pub open spec fn filled_field(e: Seq<(String, JsonValue)>, key: Seq<char>) -> Option<Seq<char>> {
    match str_field(e, key) {
        Some(v) => if all_ws(v) {
            None
        } else {
            Some(v)
        },
        None => None,
    }
}

fn filled_field_of(e: &Vec<(String, JsonValue)>, key: &str) -> (r: Option<String>)
    ensures
        opt_view(r) == filled_field(e@, key@),
{
    match string_field(e, key) {
        Some(v) => if is_blank(v.as_str()) {
            None
        } else {
            Some(v)
        },
        None => None,
    }
}

/// Why an account-config answer gives no identity, in the order of the checks.
pub open spec fn okx_identity_rejection(raw: JsonValue) -> Option<Seq<char>> {
    match config_object(raw) {
        None => Some("OKX account config response missing object"@),
        Some(e) => if filled_field(e, "uid"@) is None {
            Some("OKX account config response missing uid"@)
        } else if okx_account_mode_spec(
            match str_field(e, "acctLv"@) {
                Some(v) => v,
                None => Seq::empty(),
            },
        ) is None {
            Some("OKX account config returned an unknown acctLv"@)
        } else if filled_field(e, "posMode"@) is None {
            Some("OKX account config response missing posMode"@)
        } else {
            None
        },
    }
}

/// `identity` is the one an accepted account-config answer describes; a main
/// account (whose `mainUid` is its own `uid`) has no parent.
pub open spec fn okx_identity_of(raw: JsonValue, identity: AccountIdentity) -> bool {
    match config_object(raw) {
        Some(e) => {
            let uid = filled_field(e, "uid"@);
            let main_uid = filled_field(e, "mainUid"@);
            &&& identity.exchange == ExchangeId::Okx
            &&& uid == Some(identity.provider_account_id@)
            &&& opt_view(identity.parent_account_id) == match main_uid {
                Some(m) => if Some(m) == uid {
                    None
                } else {
                    Some(m)
                },
                None => None,
            }
            &&& okx_account_mode_spec(
                match str_field(e, "acctLv"@) {
                    Some(v) => v,
                    None => Seq::empty(),
                },
            ) == Some(identity.margin_mode@)
            &&& filled_field(e, "posMode"@) == Some(identity.position_mode@)
            &&& identity.settlement_asset@ == "USDT"@
        },
        None => false,
    }
}

fn refuse_identity(message: &str) -> (r: Result<AccountIdentity>)
    ensures
        r matches Err(e) && e.is_adapter(ExchangeId::Okx, message@),
{
    Err(Error::Adapter { exchange: ExchangeId::Okx, message: owned(message) })
}

/// The account identity and account-level modes of an OKX account-config
/// answer.
pub fn okx_account_identity_from_config(raw: &JsonValue) -> (r: Result<AccountIdentity>)
    ensures
        match okx_identity_rejection(*raw) {
            Some(message) => r matches Err(e) && e.is_adapter(ExchangeId::Okx, message),
            None => r matches Ok(identity) && okx_identity_of(*raw, identity),
        },
{
    let e = match config_object_of(raw) {
        Some(e) => e,
        None => return refuse_identity("OKX account config response missing object"),
    };
    let uid = match filled_field_of(e, "uid") {
        Some(v) => v,
        None => return refuse_identity("OKX account config response missing uid"),
    };
    let level = match string_field(e, "acctLv") {
        Some(v) => v,
        None => String::new(),
    };
    let margin_mode = match okx_account_mode(level.as_str()) {
        Some(m) => m,
        None => return refuse_identity("OKX account config returned an unknown acctLv"),
    };
    let position_mode = match filled_field_of(e, "posMode") {
        Some(v) => v,
        None => return refuse_identity("OKX account config response missing posMode"),
    };
    let parent_account_id = okx_parent_account_id(uid.as_str(), filled_field_of(e, "mainUid"));
    Ok(
        AccountIdentity {
            exchange: ExchangeId::Okx,
            provider_account_id: uid,
            parent_account_id,
            margin_mode: owned(margin_mode),
            position_mode,
            settlement_asset: owned("USDT"),
        },
    )
}

/// The `perm` member when it is a string that is not blank.
pub open spec fn okx_permissions(e: Seq<(String, JsonValue)>) -> Option<Seq<char>> {
    match obj_get(e, "perm"@) {
        Some(JsonValue::String(p)) => if all_ws(p@) {
            None
        } else {
            Some(p@)
        },
        _ => None,
    }
}

/// Whether OKX lets the account's credentials create orders: the `perm`
/// list of the account config must hold the `trade` permission.
pub fn map_account_order_permission(raw: &JsonValue) -> (r: Result<AccountOrderPermission>)
    ensures
        match config_object(*raw) {
            None => r matches Err(e) && e.is_adapter(
                ExchangeId::Okx,
                "OKX account config response missing object"@,
            ),
            Some(e) => match okx_permissions(e) {
                None => r matches Err(err) && err.is_adapter(
                    ExchangeId::Okx,
                    "OKX account config response missing perm"@,
                ),
                Some(p) => r matches Ok(permission) && permission.exchange == ExchangeId::Okx
                    && permission.can_create_orders == has_comma_token(p, "trade"@)
                    && permission.source_revision@ == "okx-account-config-v1"@,
            },
        },
{
    let e = match config_object_of(raw) {
        Some(e) => e,
        None => {
            return Err(
                Error::Adapter {
                    exchange: ExchangeId::Okx,
                    message: owned("OKX account config response missing object"),
                },
            )
        },
    };
    let permissions = match crate::json::obj_lookup(e, "perm") {
        Some(JsonValue::String(p)) => if is_blank(p.as_str()) {
            None
        } else {
            Some(p)
        },
        _ => None,
    };
    match permissions {
        Some(p) => Ok(
            AccountOrderPermission {
                exchange: ExchangeId::Okx,
                can_create_orders: comma_token_present(p.as_str(), "trade"),
                source_revision: owned("okx-account-config-v1"),
            },
        ),
        None => Err(
            Error::Adapter {
                exchange: ExchangeId::Okx,
                message: owned("OKX account config response missing perm"),
            },
        ),
    }
}

} // verus!
