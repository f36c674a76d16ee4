//! OKX leverage and position-mode answers.
use crate::account::{LeverageSetting, PositionModeSetting, SetLeverageRequest, SetPositionModeRequest};
use crate::error::{Error, Result};
use crate::exchange::ExchangeId;
use crate::instrument::Instrument;
use crate::json::{
    first_item, first_rejected, items_spec, or_else, owned_items, str_field, string_field,
    JsonValue,
};
use crate::okx::{okx_position_mode, okx_position_mode_spec};
use crate::text::{all_ws, is_blank, opt_view, owned, text_eq};
use vstd::prelude::*;

verus! {

broadcast use vstd::std_specs::vec::group_vec_axioms;

/// Why one leverage-info item is refused: it must be an object with `instId`,
/// `mgnMode` and `lever`, for `symbol` in `margin_mode`.
pub open spec fn leverage_info_rejection(symbol: Seq<char>, margin_mode: Seq<char>, item: JsonValue) -> Option<
    Seq<char>,
> {
    match item {
        JsonValue::Object(e) => if str_field(e@, "instId"@) is None {
            Some("OKX leverage info item misses instId"@)
        } else if str_field(e@, "mgnMode"@) is None {
            Some("OKX leverage info item misses mgnMode"@)
        } else if str_field(e@, "lever"@) is None {
            Some("OKX leverage info item misses lever"@)
        } else if str_field(e@, "instId"@) != Some(symbol) || str_field(e@, "mgnMode"@) != Some(
            margin_mode,
        ) {
            Some("OKX leverage info scope mismatch"@)
        } else {
            None
        },
        _ => Some("OKX leverage info item is not an object"@),
    }
}

pub open spec fn leverage_info_rejections(symbol: Seq<char>, margin_mode: Seq<char>, items: Seq<JsonValue>) -> Seq<
    Option<Seq<char>>,
> {
    Seq::new(items.len(), |i: int| leverage_info_rejection(symbol, margin_mode, items[i]))
}

/// `setting` is read from an accepted leverage-info item.
pub open spec fn leverage_info_setting(
    exchange: ExchangeId,
    instrument: Instrument,
    item: JsonValue,
    setting: LeverageSetting,
) -> bool {
    match item {
        JsonValue::Object(e) => {
            &&& setting.exchange == exchange
            &&& setting.instrument.same_as(instrument)
            &&& str_field(e@, "instId"@) == Some(setting.exchange_symbol@)
            &&& str_field(e@, "lever"@) == Some(setting.leverage@)
            &&& opt_view(setting.margin_mode) == str_field(e@, "mgnMode"@)
            &&& opt_view(setting.margin_coin) == str_field(e@, "ccy"@)
            &&& opt_view(setting.position_side) == str_field(e@, "posSide"@)
            &&& setting.raw.model() == item.model()
        },
        _ => false,
    }
}

fn leverage_info_item(
    exchange: ExchangeId,
    instrument: &Instrument,
    symbol: &str,
    expected_margin_mode: &str,
    item: &JsonValue,
) -> (r: Result<LeverageSetting>)
    ensures
        match leverage_info_rejection(symbol@, expected_margin_mode@, *item) {
            Some(message) => r matches Err(e) && e.is_adapter(exchange, message),
            None => r matches Ok(s) && leverage_info_setting(exchange, *instrument, *item, s),
        },
{
    let e = match item {
        JsonValue::Object(e) => e,
        _ => {
            return Err(
                Error::Adapter { exchange, message: owned("OKX leverage info item is not an object") },
            )
        },
    };
    let exchange_symbol = match string_field(e, "instId") {
        Some(v) => v,
        None => {
            return Err(
                Error::Adapter { exchange, message: owned("OKX leverage info item misses instId") },
            )
        },
    };
    let margin_mode = match string_field(e, "mgnMode") {
        Some(v) => v,
        None => {
            return Err(
                Error::Adapter { exchange, message: owned("OKX leverage info item misses mgnMode") },
            )
        },
    };
    let leverage = match string_field(e, "lever") {
        Some(v) => v,
        None => {
            return Err(
                Error::Adapter { exchange, message: owned("OKX leverage info item misses lever") },
            )
        },
    };
    if !text_eq(exchange_symbol.as_str(), symbol) || !text_eq(
        margin_mode.as_str(),
        expected_margin_mode,
    ) {
        return Err(Error::Adapter { exchange, message: owned("OKX leverage info scope mismatch") });
    }
    Ok(
        LeverageSetting {
            exchange,
            instrument: instrument.duplicate(),
            exchange_symbol,
            leverage,
            margin_mode: Some(margin_mode),
            margin_coin: string_field(e, "ccy"),
            position_side: string_field(e, "posSide"),
            raw: item.copy(),
        },
    )
}

/// The leverage settings of `symbol` in `expected_margin_mode`, one per item
/// of an OKX leverage-info answer; every item must be for that symbol and
/// mode, and the answer must not be empty.
pub fn okx_leverage_info_from_value(
    exchange: ExchangeId,
    instrument: Instrument,
    symbol: String,
    expected_margin_mode: &str,
    raw: JsonValue,
) -> (r: Result<Vec<LeverageSetting>>)
    ensures
        match raw {
            JsonValue::Array(items) => if items@.len() == 0 {
                r matches Err(e) && e.is_adapter(exchange, "OKX leverage info response is empty"@)
            } else {
                match r {
                    Ok(settings) => settings@.len() == items@.len() && forall|i: int|
                        0 <= i < items@.len() ==> leverage_info_rejection(
                            symbol@,
                            expected_margin_mode@,
                            #[trigger] items@[i],
                        ) is None && leverage_info_setting(
                            exchange,
                            instrument,
                            items@[i],
                            settings@[i],
                        ),
                    Err(e) => exists|i: int|
                        #[trigger] first_rejected(
                            leverage_info_rejections(symbol@, expected_margin_mode@, items@),
                            exchange,
                            i,
                            e,
                        ),
                }
            },
            _ => r matches Err(e) && e.is_adapter(
                exchange,
                "OKX leverage info response is not an array"@,
            ),
        },
{
    let items = match &raw {
        JsonValue::Array(items) => items,
        _ => {
            return Err(
                Error::Adapter { exchange, message: owned("OKX leverage info response is not an array") },
            )
        },
    };
    if items.len() == 0 {
        return Err(Error::Adapter { exchange, message: owned("OKX leverage info response is empty") });
    }
    let ghost rejections = leverage_info_rejections(symbol@, expected_margin_mode@, items@);
    let mut settings: Vec<LeverageSetting> = Vec::new();
    let mut i: usize = 0;
    while i < items.len()
        invariant
            i <= items.len(),
            raw == JsonValue::Array(*items),
            rejections == leverage_info_rejections(symbol@, expected_margin_mode@, items@),
            settings@.len() == i,
            forall|k: int|
                0 <= k < i ==> leverage_info_rejection(
                    symbol@,
                    expected_margin_mode@,
                    #[trigger] items@[k],
                ) is None && leverage_info_setting(exchange, instrument, items@[k], settings@[k]),
        decreases items.len() - i,
    {
        match leverage_info_item(
            exchange,
            &instrument,
            symbol.as_str(),
            expected_margin_mode,
            &items[i],
        ) {
            Ok(s) => settings.push(s),
            Err(e) => {
                assert(forall|k: int| 0 <= k < i ==> rejections[k] is None);
                assert(first_rejected(rejections, exchange, i as int, e));
                return Err(e);
            },
        }
        i += 1;
    }
    Ok(settings)
}

/// `text`, else the fallback.
pub open spec fn text_or(text: Option<Seq<char>>, fallback: Option<String>) -> Option<Seq<char>> {
    or_else(text, opt_view(fallback))
}

/// The applied leverage: what the first item of OKX's answer says, else what
/// was requested.
pub open spec fn leverage_setting_of(
    exchange: ExchangeId,
    instrument: Instrument,
    symbol_hint: Seq<char>,
    request: SetLeverageRequest,
    item: JsonValue,
    setting: LeverageSetting,
) -> bool {
    match item {
        JsonValue::Object(e) => {
            &&& setting.exchange == exchange
            &&& setting.instrument == instrument
            &&& setting.exchange_symbol@ == or_else(str_field(e@, "instId"@), Some(symbol_hint))->0
            &&& setting.leverage@ == or_else(str_field(e@, "lever"@), Some(request.leverage@))->0
            &&& opt_view(setting.margin_mode) == or_else(
                str_field(e@, "mgnMode"@),
                match request.margin_mode {
                    Some(m) => Some(m.name()),
                    None => None,
                },
            )
            &&& opt_view(setting.margin_coin) == text_or(str_field(e@, "ccy"@), request.margin_coin)
            &&& opt_view(setting.position_side) == text_or(
                str_field(e@, "posSide"@),
                request.position_side,
            )
            &&& setting.raw == item
        },
        _ => false,
    }
}

/// The leverage OKX applied, from its answer to a set-leverage request.
pub fn okx_leverage_setting_from_value(
    exchange: ExchangeId,
    instrument: Instrument,
    symbol_hint: String,
    request: SetLeverageRequest,
    raw: JsonValue,
) -> (r: Result<LeverageSetting>)
    ensures
        match items_spec(raw) {
            Some(items) => if items.len() == 0 {
                r matches Err(e) && e.is_adapter(exchange, "OKX leverage response"@ + " is empty"@)
            } else if items[0] is Object {
                r matches Ok(s) && leverage_setting_of(
                    exchange,
                    instrument,
                    symbol_hint@,
                    request,
                    items[0],
                    s,
                )
            } else {
                r matches Err(e) && e.is_adapter(
                    exchange,
                    "OKX leverage response item is not an object"@,
                )
            },
            None => r matches Err(e) && e.is_adapter(
                exchange,
                "OKX leverage response"@ + " is neither an array nor an object"@,
            ),
        },
{
    let item = match first_item(raw, exchange, "OKX leverage response") {
        Ok(item) => item,
        Err(e) => return Err(e),
    };
    let (exchange_symbol, leverage, margin_mode, margin_coin, position_side) = match &item {
        JsonValue::Object(e) => {
            let exchange_symbol = match string_field(e, "instId") {
                Some(v) => v,
                None => symbol_hint,
            };
            let leverage = match string_field(e, "lever") {
                Some(v) => v,
                None => request.leverage,
            };
            let margin_mode = match string_field(e, "mgnMode") {
                Some(v) => Some(v),
                None => match &request.margin_mode {
                    Some(m) => Some(owned(m.as_str())),
                    None => None,
                },
            };
            let margin_coin = match string_field(e, "ccy") {
                Some(v) => Some(v),
                None => request.margin_coin,
            };
            let position_side = match string_field(e, "posSide") {
                Some(v) => Some(v),
                None => request.position_side,
            };
            (exchange_symbol, leverage, margin_mode, margin_coin, position_side)
        },
        _ => {
            return Err(
                Error::Adapter {
                    exchange,
                    message: owned("OKX leverage response item is not an object"),
                },
            )
        },
    };
    Ok(
        LeverageSetting {
            exchange,
            instrument,
            exchange_symbol,
            leverage,
            margin_mode,
            margin_coin,
            position_side,
            raw: item,
        },
    )
}

/// The position mode OKX applied: the first item's `posMode`, else the OKX
/// name of the requested mode.
pub fn okx_position_mode_setting_from_value(
    exchange: ExchangeId,
    request: SetPositionModeRequest,
    raw: JsonValue,
) -> (r: Result<PositionModeSetting>)
    ensures
        match items_spec(raw) {
            Some(items) => if items.len() == 0 {
                r matches Err(e) && e.is_adapter(exchange, "OKX position mode response"@ + " is empty"@)
            } else {
                match items[0] {
                    JsonValue::Object(e) => r matches Ok(s) && s.exchange == exchange && s.mode
                        == request.mode && opt_view(s.raw_mode) == or_else(
                        str_field(e@, "posMode"@),
                        Some(okx_position_mode_spec(request.mode)),
                    ) && s.product_type == request.product_type && s.raw == items[0],
                    _ => r matches Err(e) && e.is_adapter(
                        exchange,
                        "OKX position mode response item is not an object"@,
                    ),
                }
            },
            None => r matches Err(e) && e.is_adapter(
                exchange,
                "OKX position mode response"@ + " is neither an array nor an object"@,
            ),
        },
{
    let item = match first_item(raw, exchange, "OKX position mode response") {
        Ok(item) => item,
        Err(e) => return Err(e),
    };
    let raw_mode = match &item {
        JsonValue::Object(e) => match string_field(e, "posMode") {
            Some(v) => v,
            None => owned(okx_position_mode(request.mode)),
        },
        _ => {
            return Err(
                Error::Adapter {
                    exchange,
                    message: owned("OKX position mode response item is not an object"),
                },
            )
        },
    };
    Ok(
        PositionModeSetting {
            exchange,
            mode: request.mode,
            raw_mode: Some(raw_mode),
            product_type: request.product_type,
            raw: item,
        },
    )
}

/// The first non-blank `posMode` among the object items.
pub open spec fn first_pos_mode(items: Seq<JsonValue>) -> Option<Seq<char>>
    decreases items.len(),
{
    if items.len() == 0 {
        None
    } else {
        let here = match items[0] {
            JsonValue::Object(e) => match str_field(e@, "posMode"@) {
                Some(m) => if all_ws(m) {
                    None
                } else {
                    Some(m)
                },
                None => None,
            },
            _ => None,
        };
        match here {
            Some(m) => Some(m),
            None => first_pos_mode(items.drop_first()),
        }
    }
}

/// The account's position mode in an OKX account-config answer, if any item
/// names one.
pub fn okx_position_mode_from_config(raw: JsonValue, exchange: ExchangeId) -> (r: Result<
    Option<String>,
>)
    ensures
        match items_spec(raw) {
            Some(items) => r matches Ok(m) && opt_view(m) == first_pos_mode(items),
            None => r matches Err(e) && e.is_adapter(
                exchange,
                "OKX account config response"@
                    + " is neither an array nor an object"@,
            ),
        },
{
    let items = match owned_items(raw, exchange, "OKX account config response") {
        Ok(items) => items,
        Err(e) => return Err(e),
    };
    let mut i: usize = 0;
    assert(items@.skip(0) =~= items@);
    while i < items.len()
        invariant
            i <= items.len(),
            items_spec(raw) == Some(items@),
            first_pos_mode(items@) == first_pos_mode(items@.skip(i as int)),
        decreases items.len() - i,
    {
        assert(items@.skip(i as int).drop_first() =~= items@.skip(i + 1));
        assert(items@.skip(i as int)[0] == items@[i as int]);
        if let JsonValue::Object(e) = &items[i] {
            if let Some(m) = string_field(e, "posMode") {
                if !is_blank(m.as_str()) {
                    assert(first_pos_mode(items@.skip(i as int)) == Some(m@));
                    return Ok(Some(m));
                }
            }
        }
        i += 1;
    }
    assert(items@.skip(i as int).len() == 0);
    Ok(None)
}

} // verus!
