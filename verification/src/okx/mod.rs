//! OKX v5: request values and response mapping.
pub mod account;
pub mod history;
pub mod orders;
pub mod leverage;
pub mod market;
pub mod trade;

use crate::account::PositionMode;
use crate::config::OkxExchangeConfig;
use crate::error::{Error, Result};
use crate::exchange::ExchangeId;
use crate::instrument::{Instrument, MarketType};
use crate::margin::MarginMode;
use crate::text::{chars_of, chars_slice_text, concat, first_index, owned, parse_u64, parse_u64_spec, text_eq, trim, trim_text};
use vstd::prelude::*;

verus! {

/// `value`, unless it is empty.
pub fn non_empty(value: String) -> (r: Option<String>)
    ensures
        r == (if value@.len() == 0 {
            None
        } else {
            Some(value)
        }),
{
    if crate::text::text_is_empty(value.as_str()) {
        None
    } else {
        Some(value)
    }
}

/// An OKX numeric string as a `u64`; an empty string has none.
pub fn parse_u64_string(value: &str) -> (r: Option<u64>)
    ensures
        r == parse_u64_spec(value@),
        value@.len() == 0 ==> r is None,
{
    parse_u64(value)
}

/// OKX `instType` of an instrument's market.
pub open spec fn okx_inst_type_spec(market_type: MarketType) -> Seq<char> {
    match market_type {
        MarketType::Spot => "SPOT"@,
        MarketType::Margin => "MARGIN"@,
        MarketType::Perpetual => "SWAP"@,
        MarketType::Futures => "FUTURES"@,
        MarketType::Option => "OPTION"@,
    }
}

/// OKX `instType` of an instrument.
pub fn okx_inst_type_for_instrument(instrument: &Instrument) -> (r: String)
    ensures
        r@ == okx_inst_type_spec(instrument.market_type),
{
    owned(
        match instrument.market_type {
            MarketType::Spot => "SPOT",
            MarketType::Margin => "MARGIN",
            MarketType::Perpetual => "SWAP",
            MarketType::Futures => "FUTURES",
            MarketType::Option => "OPTION",
        },
    )
}

/// The base and quote of an OKX instrument id: the first two `-`-separated
/// parts; a symbol without `-` counts as quoted in `USDT`.
pub open spec fn okx_symbol_parts(symbol: Seq<char>) -> (Seq<char>, Seq<char>) {
    let i = first_index(symbol, '-');
    if i >= symbol.len() {
        (symbol, "USDT"@)
    } else {
        let rest = symbol.subrange(i + 1, symbol.len() as int);
        (symbol.subrange(0, i), rest.subrange(0, first_index(rest, '-')))
    }
}

/// `instrument` is the perpetual an OKX instrument id stands for.
pub open spec fn is_okx_symbol_instrument(instrument: Instrument, symbol: Seq<char>) -> bool {
    &&& instrument.base@ == crate::text::ascii_upper(okx_symbol_parts(symbol).0)
    &&& instrument.quote@ == crate::text::ascii_upper(okx_symbol_parts(symbol).1)
    &&& instrument.market_type == MarketType::Perpetual
    &&& instrument.settlement is None
}

/// The OKX instrument id of a perpetual reads back as that perpetual, when
/// its base and quote are upper case and hold no `-`.
pub proof fn okx_symbol_reads_back(instrument: Instrument)
    requires
        instrument.market_type == MarketType::Perpetual,
        instrument.settlement is None,
        !crate::text::has_char(instrument.base@, '-'),
        !crate::text::has_char(instrument.quote@, '-'),
        crate::text::ascii_upper(instrument.base@) == instrument.base@,
        crate::text::ascii_upper(instrument.quote@) == instrument.quote@,
    ensures
        is_okx_symbol_instrument(instrument, instrument.symbol_spec(crate::exchange::ExchangeId::Okx)),
{
    let b = instrument.base@;
    let q = instrument.quote@;
    let s = instrument.symbol_spec(crate::exchange::ExchangeId::Okx);
    reveal_strlit("-");
    reveal_strlit("-SWAP");
    let tail = seq!['-', 'S', 'W', 'A', 'P'];
    assert(s =~= b + seq!['-'] + q + tail);
    assert forall|k: int| 0 <= k < b.len() implies s[k] != '-' by {
        assert(s[k] == b[k]);
    }
    crate::text::lemma_first_index(s, '-', b.len() as int);
    let rest = s.subrange(b.len() as int + 1, s.len() as int);
    assert(rest =~= q + tail);
    assert forall|k: int| 0 <= k < q.len() implies rest[k] != '-' by {
        assert(rest[k] == q[k]);
    }
    crate::text::lemma_first_index(rest, '-', q.len() as int);
    assert(s.subrange(0, b.len() as int) =~= b);
    assert(rest.subrange(0, q.len() as int) =~= q);
}

/// The OKX symbol of a spot or margin instrument is its base and quote joined
/// by `-`: when the base holds no `-`, cutting the symbol at its first `-`
/// gives back the base and the quote.
pub proof fn okx_spot_symbol_reads_back(instrument: Instrument)
    requires
        instrument.market_type == MarketType::Spot || instrument.market_type == MarketType::Margin,
        !crate::text::has_char(instrument.base@, '-'),
    ensures
        ({
            let s = instrument.symbol_spec(crate::exchange::ExchangeId::Okx);
            let b = instrument.base@;
            &&& first_index(s, '-') == b.len()
            &&& s.subrange(0, b.len() as int) == b
            &&& s.subrange(b.len() as int + 1, s.len() as int) == instrument.quote@
        }),
{
    let b = instrument.base@;
    let q = instrument.quote@;
    let s = instrument.symbol_spec(crate::exchange::ExchangeId::Okx);
    reveal_strlit("-");
    assert(s =~= b + seq!['-'] + q);
    assert forall|k: int| 0 <= k < b.len() implies s[k] != '-' by {
        assert(s[k] == b[k]);
    }
    crate::text::lemma_first_index(s, '-', b.len() as int);
    assert(s.subrange(0, b.len() as int) =~= b);
    assert(s.subrange(b.len() as int + 1, s.len() as int) =~= q);
}

/// The perpetual an OKX instrument id stands for.
pub fn instrument_from_okx_symbol(symbol: &str) -> (r: Instrument)
    ensures
        r.base@ == crate::text::ascii_upper(okx_symbol_parts(symbol@).0),
        r.quote@ == crate::text::ascii_upper(okx_symbol_parts(symbol@).1),
        r.market_type == MarketType::Perpetual,
        r.settlement is None,
{
    let v = chars_of(symbol);
    let i = crate::text::find_char(v.as_slice(), '-');
    if i >= v.len() {
        return Instrument::perp(symbol, "USDT");
    }
    let base = chars_slice_text(v.as_slice(), 0, i);
    let rest = chars_of(chars_slice_text(v.as_slice(), i + 1, v.len()).as_str());
    let j = crate::text::find_char(rest.as_slice(), '-');
    let quote = chars_slice_text(rest.as_slice(), 0, j);
    Instrument::perp(base, quote)
}

/// OKX `tdMode` of an optional margin mode; cross when none is given.
pub fn okx_margin_mode(value: Option<&MarginMode>) -> (r: String)
    ensures
        r@ == match value {
            Some(m) => m.okx_spec(),
            None => "cross"@,
        },
{
    match value {
        Some(m) => m.as_okx_td_mode(),
        None => owned("cross"),
    }
}

/// The current official name of an OKX account level (`acctLv`).
pub open spec fn okx_account_mode_spec(level: Seq<char>) -> Option<Seq<char>> {
    if level == "1"@ {
        Some("spot"@)
    } else if level == "2"@ {
        Some("futures"@)
    } else if level == "3"@ {
        Some("multi_currency_margin"@)
    } else if level == "4"@ {
        Some("portfolio_margin"@)
    } else {
        None
    }
}

/// The account mode of an OKX account level; none for an unknown level.
pub fn okx_account_mode(account_level: &str) -> (r: Option<&'static str>)
    ensures
        match r {
            Some(m) => okx_account_mode_spec(account_level@) == Some(m@),
            None => okx_account_mode_spec(account_level@) is None,
        },
{
    if text_eq(account_level, "1") {
        Some("spot")
    } else if text_eq(account_level, "2") {
        Some("futures")
    } else if text_eq(account_level, "3") {
        Some("multi_currency_margin")
    } else if text_eq(account_level, "4") {
        Some("portfolio_margin")
    } else {
        None
    }
}

/// The parent account of an OKX account: a main account's `mainUid` is its
/// own id, so only a different id is a parent.
pub fn okx_parent_account_id(provider_account_id: &str, parent_account_id: Option<String>) -> (r:
    Option<String>)
    ensures
        r == match parent_account_id {
            Some(p) => if p@ == provider_account_id@ {
                None
            } else {
                Some(p)
            },
            None => None,
        },
{
    match parent_account_id {
        Some(p) => if text_eq(p.as_str(), provider_account_id) {
            None
        } else {
            Some(p)
        },
        None => None,
    }
}

pub open spec fn okx_position_mode_spec(mode: PositionMode) -> Seq<char> {
    match mode {
        PositionMode::OneWay => "net_mode"@,
        PositionMode::Hedge => "long_short_mode"@,
    }
}

/// OKX `posMode` of a position mode.
pub fn okx_position_mode(mode: PositionMode) -> (r: &'static str)
    ensures
        r@ == okx_position_mode_spec(mode),
{
    match mode {
        PositionMode::OneWay => "net_mode",
        PositionMode::Hedge => "long_short_mode",
    }
}

/// OKX `bar` of a candle interval: hours and days in upper case, `1Dutc` kept,
/// any other interval as given (surrounding white space removed).
pub open spec fn okx_bar(interval: Seq<char>) -> Seq<char> {
    let t = trim(interval);
    if t == "1Dutc"@ || t == "1DUTC"@ {
        "1Dutc"@
    } else if t.len() > 0 && (t.last() == 'h' || t.last() == 'H') {
        t.drop_last() + "H"@
    } else if t.len() > 0 && (t.last() == 'd' || t.last() == 'D') {
        t.drop_last() + "D"@
    } else {
        t
    }
}

/// A candle interval of a whole number of hours or days keeps its count in
/// OKX's `bar` and writes its unit in upper case (`4h` is `4H`, `1d` is
/// `1D`); one of minutes (`m`) or months (`M`) is sent as given.
pub proof fn okx_bar_keeps_the_span(interval: Seq<char>)
    requires
        trim(interval).len() >= 2,
        crate::text::all_digits(trim(interval).drop_last()),
    ensures
        ({
            let t = trim(interval);
            let unit = crate::text::lower_char(t.last());
            &&& (unit == 'h' || unit == 'd') ==> okx_bar(interval) == t.drop_last() + seq![
                crate::text::upper_char(t.last()),
            ]
            &&& (t.last() == 'm' || t.last() == 'M') ==> okx_bar(interval) == t
        }),
{
    let t = trim(interval);
    reveal_strlit("1Dutc");
    reveal_strlit("1DUTC");
    reveal_strlit("H");
    reveal_strlit("D");
    assert(!crate::text::is_digit('u'));
    assert(!crate::text::is_digit('U'));
    if t == "1Dutc"@ {
        assert(t.drop_last()[1] == 'u');
    }
    if t == "1DUTC"@ {
        assert(t.drop_last()[1] == 'U');
    }
    assert("H"@ =~= seq!['H']);
    assert("D"@ =~= seq!['D']);
}

/// The OKX `bar` of a candle interval.
pub fn okx_candle_interval(interval: &str) -> (r: String)
    ensures
        r@ == okx_bar(interval@),
{
    let t = trim_text(interval);
    if text_eq(t.as_str(), "1Dutc") || text_eq(t.as_str(), "1DUTC") {
        return owned("1Dutc");
    }
    let v = chars_of(t.as_str());
    let n = v.len();
    if n > 0 && (v[n - 1] == 'h' || v[n - 1] == 'H') {
        let head = chars_slice_text(v.as_slice(), 0, n - 1);
        assert(head@ =~= t@.drop_last());
        return concat(head.as_str(), "H");
    }
    if n > 0 && (v[n - 1] == 'd' || v[n - 1] == 'D') {
        let head = chars_slice_text(v.as_slice(), 0, n - 1);
        assert(head@ =~= t@.drop_last());
        return concat(head.as_str(), "D");
    }
    t
}

/// Whether the private account stream may be opened with a configuration:
/// the stream is the production one, so simulated credentials are refused
/// rather than sent to it.
pub fn okx_private_stream_allowed(config: &OkxExchangeConfig) -> (r: Result<()>)
    ensures
        config.simulated ==> (r matches Err(e) && e.is_unsupported(
            ExchangeId::Okx,
            "simulated private account stream"@,
        )),
        !config.simulated ==> r is Ok,
{
    if config.simulated {
        return Err(Error::Unsupported { exchange: ExchangeId::Okx, capability: "simulated private account stream" });
    }
    Ok(())
}

} // verus!
