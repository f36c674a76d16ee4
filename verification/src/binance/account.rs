//! Binance account answers: balances, order permission and account identity.
use crate::account::{
    AccountIdentity, AccountOrderPermission, AccountOrderPermissionWithIdentity, Balance,
    SourcedBalance,
};
use crate::error::{Error, Result};
use crate::exchange::ExchangeId;
use crate::json::{bool_member, bool_member_of, JsonValue};
use crate::okx::non_empty;
use crate::text::{chars_of, owned, trim, trim_text};
use vstd::prelude::*;

verus! {

/// One asset row of a Binance futures balance answer.
#[derive(Debug, Clone, PartialEq)]
pub struct BinanceAccountBalance {
    pub account_alias: String,
    pub asset: String,
    pub balance: String,
    pub cross_wallet_balance: String,
    pub cross_un_pnl: String,
    pub available_balance: String,
    pub max_withdraw_amount: String,
    pub margin_available: bool,
    pub update_time: u64,
    /// The row as Binance sent it.
    pub raw: JsonValue,
}

/// `value` less one leading sign, after surrounding white space is removed.
pub open spec fn unsigned_part(value: Seq<char>) -> Seq<char> {
    let t = trim(value);
    if t.len() > 0 && (t[0] == '+' || t[0] == '-') {
        t.drop_first()
    } else {
        t
    }
}

/// Decimal text that is exactly zero: an optional sign, then only `0`s and at
/// most one `.`, with at least one `0`. Anything else counts as not zero.
pub open spec fn is_zero_decimal(value: Seq<char>) -> bool {
    let u = unsigned_part(value);
    &&& forall|k: int| 0 <= k < u.len() ==> u[k] == '0' || u[k] == '.'
    &&& forall|a: int, b: int| 0 <= a < b < u.len() ==> !(u[a] == '.' && u[b] == '.')
    &&& exists|k: int| 0 <= k < u.len() && u[k] == '0'
}

/// Whether decimal text is exactly zero; malformed text is not.
pub fn is_zero_decimal_text(value: &str) -> (r: bool)
    ensures
        r == is_zero_decimal(value@),
{
    let t = chars_of(trim_text(value).as_str());
    let start: usize = if t.len() > 0 && (t[0] == '+' || t[0] == '-') {
        1
    } else {
        0
    };
    let ghost u = unsigned_part(value@);
    assert(u =~= t@.skip(start as int));
    let mut saw_digit = false;
    let mut saw_point = false;
    let mut i: usize = start;
    while i < t.len()
        invariant
            start <= i <= t.len(),
            u == t@.skip(start as int),
            u == unsigned_part(value@),
            forall|k: int| start <= k < i ==> t@[k] == '0' || t@[k] == '.',
            forall|a: int, b: int| start <= a < b < i ==> !(t@[a] == '.' && t@[b] == '.'),
            saw_point <==> exists|k: int| start <= k < i && t@[k] == '.',
            saw_digit <==> exists|k: int| start <= k < i && t@[k] == '0',
        decreases t.len() - i,
    {
        let c = t[i];
        if c == '0' {
            saw_digit = true;
        } else if c == '.' && !saw_point {
            saw_point = true;
        } else {
            proof {
                let j = i - start;
                assert(u[j] == c);
                assert(0 <= j < u.len());
                if c != '.' {
                    assert(!(u[j] == '0' || u[j] == '.'));
                    assert(!(forall|k: int| 0 <= k < u.len() ==> u[k] == '0' || u[k] == '.'));
                } else {
                    let k = choose|k: int| start <= k < i && t@[k] == '.';
                    assert(u[k - start] == '.' && u[j] == '.');
                    assert(!(forall|a: int, b: int|
                        0 <= a < b < u.len() ==> !(u[a] == '.' && u[b] == '.')));
                }
                assert(!is_zero_decimal(value@));
            }
            return false;
        }
        i += 1;
    }
    proof {
        if saw_digit {
            let k = choose|k: int| start <= k < i && t@[k] == '0';
            assert(u[k - start] == '0');
        } else {
            assert forall|k: int| 0 <= k < u.len() implies u[k] != '0' by {
                assert(u[k] == t@[k + start]);
            }
        }
        assert forall|k: int| 0 <= k < u.len() implies u[k] == '0' || u[k] == '.' by {
            assert(u[k] == t@[k + start]);
        }
        assert forall|a: int, b: int| 0 <= a < b < u.len() implies !(u[a] == '.' && u[b] == '.') by {
            assert(u[a] == t@[a + start]);
            assert(u[b] == t@[b + start]);
        }
    }
    saw_digit
}

/// A row without an update time is an asset the account never used; it may
/// carry no wallet state.
pub open spec fn has_wallet_state(row: BinanceAccountBalance) -> bool {
    !is_zero_decimal(row.balance@) || !is_zero_decimal(row.cross_wallet_balance@)
        || !is_zero_decimal(row.cross_un_pnl@) || !is_zero_decimal(row.max_withdraw_amount@)
}

/// The balance of a row with an update time, stamped with that time; a row
/// without one is skipped when it holds nothing and refused when it does.
pub fn map_sourced_balance(row: BinanceAccountBalance) -> (r: Result<Option<SourcedBalance>>)
    ensures
        row.update_time == 0 && has_wallet_state(row) ==> (r matches Err(e) && e.is_adapter(
            ExchangeId::Binance,
            "Binance balance response has wallet state without updateTime"@,
        )),
        row.update_time == 0 && !has_wallet_state(row) ==> r matches Ok(None),
        row.update_time != 0 ==> (r matches Ok(Some(b)) && {
            &&& b.source_updated_at_ms == row.update_time
            &&& b.balance.exchange == ExchangeId::Binance
            &&& b.balance.asset == row.asset
            &&& b.balance.total == row.balance
            &&& b.balance.available == row.available_balance
            &&& b.balance.frozen == if row.cross_un_pnl@.len() == 0 {
                None
            } else {
                Some(row.cross_un_pnl)
            }
            &&& b.balance.raw == row.raw
        }),
{
    if row.update_time == 0 {
        let wallet = !is_zero_decimal_text(row.balance.as_str()) || !is_zero_decimal_text(
            row.cross_wallet_balance.as_str(),
        ) || !is_zero_decimal_text(row.cross_un_pnl.as_str()) || !is_zero_decimal_text(
            row.max_withdraw_amount.as_str(),
        );
        if wallet {
            return Err(
                Error::Adapter {
                    exchange: ExchangeId::Binance,
                    message: owned("Binance balance response has wallet state without updateTime"),
                },
            );
        }
        return Ok(None);
    }
    let updated = row.update_time;
    Ok(
        Some(
            SourcedBalance {
                balance: Balance {
                    exchange: ExchangeId::Binance,
                    asset: row.asset,
                    total: row.balance,
                    available: row.available_balance,
                    frozen: non_empty(row.cross_un_pnl),
                    raw: row.raw,
                },
                source_updated_at_ms: updated,
            },
        ),
    )
}

/// Whether Binance lets the credentials trade (`canTrade` of the account
/// config).
pub fn map_account_order_permission(raw: &JsonValue) -> (r: Result<AccountOrderPermission>)
    ensures
        match raw {
            JsonValue::Object(e) => match bool_member(e@, "canTrade"@) {
                Some(can) => r matches Ok(p) && p.exchange == ExchangeId::Binance
                    && p.can_create_orders == can && p.source_revision@
                    == "binance-usdm-account-config-v1"@,
                None => r matches Err(err) && err.is_adapter(
                    ExchangeId::Binance,
                    "Binance accountConfig missing canTrade"@,
                ),
            },
            _ => r matches Err(err) && err.is_adapter(
                ExchangeId::Binance,
                "Binance accountConfig missing canTrade"@,
            ),
        },
{
    let can = match raw {
        JsonValue::Object(e) => bool_member_of(e, "canTrade"),
        _ => None,
    };
    match can {
        Some(can_create_orders) => Ok(
            AccountOrderPermission {
                exchange: ExchangeId::Binance,
                can_create_orders,
                source_revision: owned("binance-usdm-account-config-v1"),
            },
        ),
        None => Err(
            Error::Adapter {
                exchange: ExchangeId::Binance,
                message: owned("Binance accountConfig missing canTrade"),
            },
        ),
    }
}

/// Why the account config gives no identity.
pub open spec fn binance_identity_rejection(raw: JsonValue) -> Option<Seq<char>> {
    match raw {
        JsonValue::Object(e) => if bool_member(e@, "multiAssetsMargin"@) is None {
            Some("Binance accountConfig missing multiAssetsMargin"@)
        } else if bool_member(e@, "dualSidePosition"@) is None {
            Some("Binance accountConfig missing dualSidePosition"@)
        } else {
            None
        },
        _ => Some("Binance accountConfig response is not an object"@),
    }
}

/// `identity` is the one the account config describes for `provider_account_id`.
pub open spec fn binance_identity_of(provider_account_id: Seq<char>, raw: JsonValue, identity: AccountIdentity) -> bool {
    match raw {
        JsonValue::Object(e) => {
            &&& identity.exchange == ExchangeId::Binance
            &&& identity.provider_account_id@ == provider_account_id
            &&& identity.parent_account_id is None
            &&& identity.margin_mode@ == if bool_member(e@, "multiAssetsMargin"@) == Some(true) {
                "multi_asset"@
            } else {
                "single_asset"@
            }
            &&& identity.position_mode@ == if bool_member(e@, "dualSidePosition"@) == Some(true) {
                "hedge"@
            } else {
                "one_way"@
            }
            &&& identity.settlement_asset@ == "USDT"@
        },
        _ => false,
    }
}

/// The account identity and modes of a Binance account config.
pub fn map_account_identity(provider_account_id: String, raw: &JsonValue) -> (r: Result<AccountIdentity>)
    ensures
        match binance_identity_rejection(*raw) {
            Some(message) => r matches Err(e) && e.is_adapter(ExchangeId::Binance, message),
            None => r matches Ok(identity) && binance_identity_of(provider_account_id@, *raw, identity),
        },
{
    let e = match raw {
        JsonValue::Object(e) => e,
        _ => {
            return Err(
                Error::Adapter {
                    exchange: ExchangeId::Binance,
                    message: owned("Binance accountConfig response is not an object"),
                },
            )
        },
    };
    let multi_assets = match bool_member_of(e, "multiAssetsMargin") {
        Some(b) => b,
        None => {
            return Err(
                Error::Adapter {
                    exchange: ExchangeId::Binance,
                    message: owned("Binance accountConfig missing multiAssetsMargin"),
                },
            )
        },
    };
    let dual_side = match bool_member_of(e, "dualSidePosition") {
        Some(b) => b,
        None => {
            return Err(
                Error::Adapter {
                    exchange: ExchangeId::Binance,
                    message: owned("Binance accountConfig missing dualSidePosition"),
                },
            )
        },
    };
    Ok(
        AccountIdentity {
            exchange: ExchangeId::Binance,
            provider_account_id,
            parent_account_id: None,
            margin_mode: owned(
                if multi_assets {
                    "multi_asset"
                } else {
                    "single_asset"
                },
            ),
            position_mode: owned(
                if dual_side {
                    "hedge"
                } else {
                    "one_way"
                },
            ),
            settlement_asset: owned("USDT"),
        },
    )
}

/// Identity and order permission from one account config; the identity is
/// read first.
pub fn map_account_order_permission_with_identity(provider_account_id: String, raw: &JsonValue) -> (r:
    Result<AccountOrderPermissionWithIdentity>)
    ensures
        match binance_identity_rejection(*raw) {
            Some(message) => r matches Err(e) && e.is_adapter(ExchangeId::Binance, message),
            None => match raw {
                JsonValue::Object(e) => match bool_member(e@, "canTrade"@) {
                    Some(can) => r matches Ok(both) && binance_identity_of(
                        provider_account_id@,
                        *raw,
                        both.identity,
                    ) && both.order_permission.can_create_orders == can,
                    None => r matches Err(err) && err.is_adapter(
                        ExchangeId::Binance,
                        "Binance accountConfig missing canTrade"@,
                    ),
                },
                _ => false,
            },
        },
{
    let identity = match map_account_identity(provider_account_id, raw) {
        Ok(i) => i,
        Err(e) => return Err(e),
    };
    let order_permission = match map_account_order_permission(raw) {
        Ok(p) => p,
        Err(e) => return Err(e),
    };
    Ok(AccountOrderPermissionWithIdentity { identity, order_permission })
}

} // verus!
