//! The USDT margin summary of a Binance USDⓈ-M account information answer.
use crate::account::AccountMarginSummary;
use crate::error::{Error, Result};
use crate::exchange::ExchangeId;
use crate::json::{
    bool_member, bool_member_of, obj_get, obj_lookup, str_field, string_field, u64_field,
    u64_field_spec, JsonValue,
};
use crate::text::{concat, owned, text_eq};
use vstd::prelude::*;

verus! {

/// The `updateTime` of an item, zero when it has none.
pub open spec fn item_update_time(item: JsonValue) -> u64 {
    match item {
        JsonValue::Object(e) => match u64_field_spec(e@, "updateTime"@) {
            Some(t) => t,
            None => 0,
        },
        _ => 0,
    }
}

/// The largest `updateTime` among `items`, zero when there is none.
pub open spec fn latest_update_time_of(items: Seq<JsonValue>) -> u64
    decreases items.len(),
{
    if items.len() == 0 {
        0
    } else {
        let rest = latest_update_time_of(items.drop_last());
        let t = item_update_time(items.last());
        if t > rest {
            t
        } else {
            rest
        }
    }
}

/// The elements of array member `key`; none for another value.
pub open spec fn array_member(e: Seq<(String, JsonValue)>, key: Seq<char>) -> Seq<JsonValue> {
    match obj_get(e, key) {
        Some(JsonValue::Array(v)) => v@,
        _ => Seq::empty(),
    }
}

/// The account's time: the latest provider update time of its assets and
/// positions.
pub open spec fn account_update_time(e: Seq<(String, JsonValue)>) -> u64 {
    let assets = latest_update_time_of(array_member(e, "assets"@));
    let positions = latest_update_time_of(array_member(e, "positions"@));
    if assets > positions {
        assets
    } else {
        positions
    }
}

/// The first required total that is missing.
pub open spec fn missing_total(e: Seq<(String, JsonValue)>) -> Option<Seq<char>> {
    if str_field(e, "totalMarginBalance"@) is None {
        Some("totalMarginBalance"@)
    } else if str_field(e, "availableBalance"@) is None {
        Some("availableBalance"@)
    } else if str_field(e, "totalInitialMargin"@) is None {
        Some("totalInitialMargin"@)
    } else if str_field(e, "totalPositionInitialMargin"@) is None {
        Some("totalPositionInitialMargin"@)
    } else if str_field(e, "totalOpenOrderInitialMargin"@) is None {
        Some("totalOpenOrderInitialMargin"@)
    } else {
        None
    }
}

/// Why the summary is refused, in the order of the checks.
pub open spec fn margin_summary_rejection(account: JsonValue, quote_currency: Seq<char>) -> Option<
    Seq<char>,
> {
    if quote_currency != "USDT"@ {
        Some("Binance margin summary only supports USDT"@)
    } else {
        match account {
            JsonValue::Object(e) => match bool_member(e@, "multiAssetsMargin"@) {
                None => Some("Binance account information missing multiAssetsMargin"@),
                Some(true) => Some("Binance multi-assets margin is USD-denominated, not USDT"@),
                Some(false) => match missing_total(e@) {
                    Some(field) => Some("Binance account information missing "@ + field),
                    None => if account_update_time(e@) == 0 {
                        Some("Binance account information has no provider updateTime"@)
                    } else {
                        None
                    },
                },
            },
            _ => Some("Binance account information response is not an object"@),
        }
    }
}

/// `summary` holds the totals of an accepted account information answer.
pub open spec fn margin_summary_of(account: JsonValue, summary: AccountMarginSummary) -> bool {
    match account {
        JsonValue::Object(e) => {
            &&& summary.exchange == ExchangeId::Binance
            &&& summary.quote_currency@ == "USDT"@
            &&& str_field(e@, "totalMarginBalance"@) == Some(summary.account_equity@)
            &&& str_field(e@, "availableBalance"@) == Some(summary.available_margin@)
            &&& summary.initial_margin matches Some(v) && str_field(e@, "totalInitialMargin"@)
                == Some(v@)
            &&& summary.position_initial_margin matches Some(v) && str_field(
                e@,
                "totalPositionInitialMargin"@,
            ) == Some(v@)
            &&& summary.open_order_initial_margin matches Some(v) && str_field(
                e@,
                "totalOpenOrderInitialMargin"@,
            ) == Some(v@)
            &&& summary.source_updated_at_ms == account_update_time(e@)
            &&& summary.source_revision@ == "binance-usds-account-v2-single-asset-v1"@
        },
        _ => false,
    }
}

fn refuse(message: &str) -> (r: Result<AccountMarginSummary>)
    ensures
        r matches Err(e) && e.is_adapter(ExchangeId::Binance, message@),
{
    Err(Error::Adapter { exchange: ExchangeId::Binance, message: owned(message) })
}

fn missing(field: &str) -> (r: Result<AccountMarginSummary>)
    ensures
        r matches Err(e) && e.is_adapter(
            ExchangeId::Binance,
            "Binance account information missing "@ + field@,
        ),
{
    Err(
        Error::Adapter {
            exchange: ExchangeId::Binance,
            message: concat("Binance account information missing ", field),
        },
    )
}

fn latest_in(items: &Vec<JsonValue>) -> (r: u64)
    ensures
        r == latest_update_time_of(items@),
{
    let mut latest: u64 = 0;
    let mut i: usize = 0;
    while i < items.len()
        invariant
            i <= items.len(),
            latest == latest_update_time_of(items@.take(i as int)),
        decreases items.len() - i,
    {
        let t: u64 = match &items[i] {
            JsonValue::Object(e) => match u64_field(e, "updateTime") {
                Some(t) => t,
                None => 0,
            },
            _ => 0,
        };
        assert(items@.take(i + 1).drop_last() =~= items@.take(i as int));
        if t > latest {
            latest = t;
        }
        i += 1;
    }
    assert(items@.take(items.len() as int) =~= items@);
    latest
}

fn latest_in_member(e: &Vec<(String, JsonValue)>, key: &str) -> (r: u64)
    ensures
        r == latest_update_time_of(array_member(e@, key@)),
{
    match obj_lookup(e, key) {
        Some(JsonValue::Array(items)) => latest_in(items),
        _ => 0,
    }
}

/// The single-asset USDT margin summary of one account information answer;
/// its time is the latest update time of the account's assets and positions.
pub fn map_margin_summary(account: JsonValue, quote_currency: &str) -> (r: Result<
    AccountMarginSummary,
>)
    ensures
        match margin_summary_rejection(account, quote_currency@) {
            Some(message) => r matches Err(e) && e.is_adapter(ExchangeId::Binance, message),
            None => r matches Ok(summary) && margin_summary_of(account, summary),
        },
{
    if !text_eq(quote_currency, "USDT") {
        return refuse("Binance margin summary only supports USDT");
    }
    let e = match &account {
        JsonValue::Object(e) => e,
        _ => return refuse("Binance account information response is not an object"),
    };
    match bool_member_of(e, "multiAssetsMargin") {
        None => return refuse("Binance account information missing multiAssetsMargin"),
        Some(true) => return refuse("Binance multi-assets margin is USD-denominated, not USDT"),
        Some(false) => {},
    }
    let account_equity = match string_field(e, "totalMarginBalance") {
        Some(v) => v,
        None => return missing("totalMarginBalance"),
    };
    let available_margin = match string_field(e, "availableBalance") {
        Some(v) => v,
        None => return missing("availableBalance"),
    };
    let initial_margin = match string_field(e, "totalInitialMargin") {
        Some(v) => v,
        None => return missing("totalInitialMargin"),
    };
    let position_initial_margin = match string_field(e, "totalPositionInitialMargin") {
        Some(v) => v,
        None => return missing("totalPositionInitialMargin"),
    };
    let open_order_initial_margin = match string_field(e, "totalOpenOrderInitialMargin") {
        Some(v) => v,
        None => return missing("totalOpenOrderInitialMargin"),
    };
    let assets = latest_in_member(e, "assets");
    let positions = latest_in_member(e, "positions");
    let latest = if assets > positions {
        assets
    } else {
        positions
    };
    if latest == 0 {
        return refuse("Binance account information has no provider updateTime");
    }
    Ok(
        AccountMarginSummary {
            exchange: ExchangeId::Binance,
            quote_currency: owned(quote_currency),
            account_equity,
            available_margin,
            initial_margin: Some(initial_margin),
            position_initial_margin: Some(position_initial_margin),
            open_order_initial_margin: Some(open_order_initial_margin),
            source_updated_at_ms: latest,
            source_revision: owned("binance-usds-account-v2-single-asset-v1"),
        },
    )
}

} // verus!
