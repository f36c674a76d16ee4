//! Binance USDⓈ-M futures: request building and response mapping.
pub mod account;
pub mod market;
pub mod bills;
pub mod leverage;
pub mod margin;
pub mod protective;
pub mod trade;

use crate::instrument::Instrument;
use crate::text::{ascii_upper, chars_end_with, chars_of, chars_slice_text, ends_with};
use vstd::prelude::*;

verus! {

/// The quote assets a linear symbol may end with, tried in this order.
pub open spec fn linear_split(symbol: Seq<char>) -> (Seq<char>, Seq<char>) {
    if ends_with(symbol, "USDT"@) {
        (symbol.subrange(0, symbol.len() - "USDT"@.len()), "USDT"@)
    } else if ends_with(symbol, "USDC"@) {
        (symbol.subrange(0, symbol.len() - "USDC"@.len()), "USDC"@)
    } else if ends_with(symbol, "BUSD"@) {
        (symbol.subrange(0, symbol.len() - "BUSD"@.len()), "BUSD"@)
    } else if ends_with(symbol, "USD"@) {
        (symbol.subrange(0, symbol.len() - "USD"@.len()), "USD"@)
    } else {
        (symbol, "USDT"@)
    }
}

/// `instrument` is the perpetual a linear symbol stands for.
pub open spec fn is_linear_instrument(instrument: Instrument, symbol: Seq<char>) -> bool {
    &&& instrument.base@ == ascii_upper(linear_split(symbol).0)
    &&& instrument.quote@ == ascii_upper(linear_split(symbol).1)
    &&& instrument.market_type == crate::instrument::MarketType::Perpetual
    &&& instrument.settlement is None
}

/// The perpetual of a linear symbol: the symbol less its quote asset (`USDT`,
/// `USDC`, `BUSD` or `USD`, tried in that order); a symbol with none of them
/// counts as quoted in `USDT`.
pub fn instrument_from_linear_symbol(symbol: &str) -> (r: Instrument)
    ensures
        is_linear_instrument(r, symbol@),
{
    let v = chars_of(symbol);
    let q0 = chars_of("USDT");
    if chars_end_with(v.as_slice(), q0.as_slice()) {
        let base = chars_slice_text(v.as_slice(), 0, v.len() - q0.len());
        return Instrument::perp(base, "USDT");
    }
    let q1 = chars_of("USDC");
    if chars_end_with(v.as_slice(), q1.as_slice()) {
        let base = chars_slice_text(v.as_slice(), 0, v.len() - q1.len());
        return Instrument::perp(base, "USDC");
    }
    let q2 = chars_of("BUSD");
    if chars_end_with(v.as_slice(), q2.as_slice()) {
        let base = chars_slice_text(v.as_slice(), 0, v.len() - q2.len());
        return Instrument::perp(base, "BUSD");
    }
    let q3 = chars_of("USD");
    if chars_end_with(v.as_slice(), q3.as_slice()) {
        let base = chars_slice_text(v.as_slice(), 0, v.len() - q3.len());
        return Instrument::perp(base, "USD");
    }
    Instrument::perp(symbol, "USDT")
}

} // verus!
