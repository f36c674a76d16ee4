//! The leverage settings Binance reports in a symbol configuration.
use crate::account::LeverageSetting;
use crate::error::{Error, Result};
use crate::exchange::ExchangeId;
use crate::instrument::Instrument;
use crate::json::{str_field, string_field, JsonValue};
use crate::text::{
    ascii_upper, copy_string, decimal, opt_view, owned, parse_u32, parse_u32_spec, text_eq,
    to_ascii_uppercase, u64_to_text,
};
use vstd::prelude::*;

verus! {

/// The leverage of a symbol configuration: a positive whole number.
pub open spec fn symbol_config_leverage(e: Seq<(String, JsonValue)>) -> Option<u32> {
    match str_field(e, "leverage"@) {
        Some(t) => match parse_u32_spec(t) {
            Some(n) => if n > 0 {
                Some(n)
            } else {
                None
            },
            None => None,
        },
        None => None,
    }
}

/// The neutral margin mode of a symbol configuration's `marginType`.
pub open spec fn symbol_config_mode(e: Seq<(String, JsonValue)>) -> Option<Seq<char>> {
    match str_field(e, "marginType"@) {
        Some(t) => {
            let u = ascii_upper(t);
            if u == "ISOLATED"@ {
                Some("isolated"@)
            } else if u == "CROSS"@ || u == "CROSSED"@ {
                Some("cross"@)
            } else {
                None
            }
        },
        None => None,
    }
}

/// Why a symbol configuration answer for `instrument` is refused, in the
/// order of the checks; none when it is accepted.
pub open spec fn symbol_config_rejection(instrument: Instrument, raw: JsonValue) -> Option<
    Seq<char>,
> {
    match raw {
        JsonValue::Array(rows) => if rows@.len() != 1 {
            Some("Binance symbolConfig response must contain exactly one symbol"@)
        } else {
            match rows@[0] {
                JsonValue::Object(e) => match str_field(e@, "symbol"@) {
                    None => Some("Binance symbolConfig response missing symbol"@),
                    Some(symbol) => if symbol != instrument.symbol_spec(ExchangeId::Binance) {
                        Some("Binance symbolConfig identity mismatch"@)
                    } else if symbol_config_leverage(e@) is None {
                        Some("Binance symbolConfig response has invalid leverage"@)
                    } else if symbol_config_mode(e@) is None {
                        Some("Binance symbolConfig response has invalid marginType"@)
                    } else {
                        None
                    },
                },
                _ => Some("Binance symbolConfig item is not an object"@),
            }
        },
        _ => Some("Binance symbolConfig response is not an array"@),
    }
}

/// `setting` is the leverage of `instrument` for `side`, read from the one row
/// of an accepted symbol configuration answer.
pub open spec fn symbol_config_setting(
    instrument: Instrument,
    raw: JsonValue,
    side: Seq<char>,
    setting: LeverageSetting,
) -> bool {
    match raw {
        JsonValue::Array(rows) => match rows@[0] {
            JsonValue::Object(e) => {
                &&& setting.exchange == ExchangeId::Binance
                &&& setting.instrument.same_as(instrument)
                &&& str_field(e@, "symbol"@) == Some(setting.exchange_symbol@)
                &&& symbol_config_leverage(e@) matches Some(n) && setting.leverage@ == decimal(
                    n as nat,
                )
                &&& opt_view(setting.margin_mode) == symbol_config_mode(e@)
                &&& setting.margin_coin is None
                &&& opt_view(setting.position_side) == Some(side)
                &&& setting.raw.model() == rows@[0].model()
            },
            _ => false,
        },
        _ => false,
    }
}

fn refuse(message: &str) -> (r: Result<Vec<LeverageSetting>>)
    ensures
        r matches Err(e) && e.is_adapter(ExchangeId::Binance, message@),
{
    Err(Error::Adapter { exchange: ExchangeId::Binance, message: owned(message) })
}

/// The long and short leverage settings of `instrument` in a Binance symbol
/// configuration answer, which must hold exactly the one symbol asked for.
pub fn from_symbol_config(instrument: Instrument, raw: JsonValue) -> (r: Result<
    Vec<LeverageSetting>,
>)
    ensures
        match symbol_config_rejection(instrument, raw) {
            Some(message) => r matches Err(e) && e.is_adapter(ExchangeId::Binance, message),
            None => r matches Ok(settings) && settings@.len() == 2 && symbol_config_setting(
                instrument,
                raw,
                "long"@,
                settings@[0],
            ) && symbol_config_setting(instrument, raw, "short"@, settings@[1]),
        },
{
    let symbol = instrument.symbol_for(ExchangeId::Binance);
    let rows = match &raw {
        JsonValue::Array(rows) => rows,
        _ => return refuse("Binance symbolConfig response is not an array"),
    };
    if rows.len() != 1 {
        return refuse("Binance symbolConfig response must contain exactly one symbol");
    }
    let row = &rows[0];
    let e = match row {
        JsonValue::Object(e) => e,
        _ => return refuse("Binance symbolConfig item is not an object"),
    };
    let exchange_symbol = match string_field(e, "symbol") {
        Some(s) => s,
        None => return refuse("Binance symbolConfig response missing symbol"),
    };
    if !text_eq(exchange_symbol.as_str(), symbol.as_str()) {
        return refuse("Binance symbolConfig identity mismatch");
    }
    let leverage_value = match string_field(e, "leverage") {
        Some(t) => parse_u32(t.as_str()),
        None => None,
    };
    let leverage = match leverage_value {
        Some(n) => if n > 0 {
            u64_to_text(n as u64)
        } else {
            return refuse("Binance symbolConfig response has invalid leverage");
        },
        None => return refuse("Binance symbolConfig response has invalid leverage"),
    };
    let margin_type = match string_field(e, "marginType") {
        Some(t) => to_ascii_uppercase(t.as_str()),
        None => return refuse("Binance symbolConfig response has invalid marginType"),
    };
    let margin_mode: &str = if text_eq(margin_type.as_str(), "ISOLATED") {
        "isolated"
    } else if text_eq(margin_type.as_str(), "CROSS") || text_eq(margin_type.as_str(), "CROSSED") {
        "cross"
    } else {
        return refuse("Binance symbolConfig response has invalid marginType");
    };
    let long = LeverageSetting {
        exchange: ExchangeId::Binance,
        instrument: instrument.duplicate(),
        exchange_symbol: copy_string(&exchange_symbol),
        leverage: copy_string(&leverage),
        margin_mode: Some(owned(margin_mode)),
        margin_coin: None,
        position_side: Some(owned("long")),
        raw: row.copy(),
    };
    let short = LeverageSetting {
        exchange: ExchangeId::Binance,
        instrument: instrument.duplicate(),
        exchange_symbol,
        leverage,
        margin_mode: Some(owned(margin_mode)),
        margin_coin: None,
        position_side: Some(owned("short")),
        raw: row.copy(),
    };
    let mut settings: Vec<LeverageSetting> = Vec::new();
    settings.push(long);
    settings.push(short);
    Ok(settings)
}

} // verus!
