//! How the exchanges write the same things: symbols of one instrument, order
//! sides and times in force. Each exchange spells them its own
//! way, but every spelling names the same thing and no two things share one.
use crate::binance::trade::{binance_order_type_spec, binance_tif_spec};
use crate::bitget::trade::bitget_force_spec;
use crate::bybit::trade::{bybit_side_spec, bybit_tif_spec};
use crate::exchange::ExchangeId;
use crate::gate::{gate_signed, gate_tif_spec};
use crate::instrument::{Instrument, MarketType};
use crate::okx::orders::okx_order_type_spec;
use crate::text::{ascii_lower, ascii_upper, first_index, has_char, lemma_first_index};
use crate::trade::{OrderSide, OrderType, TimeInForce};
use vstd::prelude::*;

verus! {

/// Binance, Bitget and Bybit write a symbol as the base followed directly by
/// the quote; Hyperliquid writes a perpetual by its base alone and a spot
/// pair as base `/` quote, which cuts back into base and quote at its first
/// `/` when the base holds none.
pub proof fn symbols_hold_base_and_quote(instrument: Instrument)
    ensures
        ({
            let b = instrument.base@;
            let q = instrument.quote@;
            &&& forall|e: ExchangeId|
                e == ExchangeId::Binance || e == ExchangeId::Bitget || e == ExchangeId::Bybit ==> {
                    let s = #[trigger] instrument.symbol_spec(e);
                    &&& s.len() == b.len() + q.len()
                    &&& s.subrange(0, b.len() as int) == b
                    &&& s.subrange(b.len() as int, s.len() as int) == q
                }
            &&& instrument.market_type == MarketType::Perpetual ==> instrument.symbol_spec(
                ExchangeId::Hyperliquid,
            ) == b
            &&& (instrument.market_type == MarketType::Spot || instrument.market_type
                == MarketType::Margin) && !has_char(b, '/') ==> {
                let s = instrument.symbol_spec(ExchangeId::Hyperliquid);
                &&& first_index(s, '/') == b.len()
                &&& s.subrange(0, b.len() as int) == b
                &&& s.subrange(b.len() as int + 1, s.len() as int) == q
            }
        }),
{
    let b = instrument.base@;
    let q = instrument.quote@;
    assert forall|e: ExchangeId|
        e == ExchangeId::Binance || e == ExchangeId::Bitget || e == ExchangeId::Bybit implies {
            let s = #[trigger] instrument.symbol_spec(e);
            &&& s.len() == b.len() + q.len()
            &&& s.subrange(0, b.len() as int) == b
            &&& s.subrange(b.len() as int, s.len() as int) == q
        } by {
        let s = instrument.symbol_spec(e);
        assert(s.subrange(0, b.len() as int) =~= b);
        assert(s.subrange(b.len() as int, s.len() as int) =~= q);
    }
    if (instrument.market_type == MarketType::Spot || instrument.market_type == MarketType::Margin)
        && !has_char(b, '/') {
        reveal_strlit("/");
        let s = instrument.symbol_spec(ExchangeId::Hyperliquid);
        assert(s =~= b + seq!['/'] + q);
        assert forall|k: int| 0 <= k < b.len() implies s[k] != '/' by {
            assert(s[k] == b[k]);
        }
        lemma_first_index(s, '/', b.len() as int);
        assert(s.subrange(0, b.len() as int) =~= b);
        assert(s.subrange(b.len() as int + 1, s.len() as int) =~= q);
    }
}

/// An order side is written `buy`/`sell` in lower case and `BUY`/`SELL` in
/// upper case, Bybit capitalising it (`Buy`, `Sell`); the two sides never
/// share a name, and Gate signs a buy's contract count positive and a sell's
/// negative, keeping its magnitude.
pub proof fn sides_are_named_apart(side: OrderSide, n: i64)
    ensures
        side.upper_spec() == ascii_upper(side.lower_spec()),
        ascii_lower(bybit_side_spec(side)) == side.lower_spec(),
        OrderSide::Buy.lower_spec() != OrderSide::Sell.lower_spec(),
        OrderSide::Buy.upper_spec() != OrderSide::Sell.upper_spec(),
        bybit_side_spec(OrderSide::Buy) != bybit_side_spec(OrderSide::Sell),
        side == OrderSide::Buy ==> gate_signed(side, n) >= 0,
        side == OrderSide::Sell ==> gate_signed(side, n) <= 0,
        gate_signed(side, n) == n || gate_signed(side, n) == -n,
{
    reveal_strlit("buy");
    reveal_strlit("sell");
    reveal_strlit("BUY");
    reveal_strlit("SELL");
    reveal_strlit("Buy");
    reveal_strlit("Sell");
    assert(ascii_upper("buy"@) =~= "BUY"@);
    assert(ascii_upper("sell"@) =~= "SELL"@);
    assert(ascii_lower("Buy"@) =~= "buy"@);
    assert(ascii_lower("Sell"@) =~= "sell"@);
}

/// Binance writes an order type as the word OKX sends for it (`limit`,
/// `market`) in upper case, so the two order types never share a Binance
/// name.
pub proof fn binance_order_types_are_named_apart(order_type: OrderType)
    ensures
        binance_order_type_spec(order_type) == ascii_upper(okx_order_type_spec(order_type, None)),
        binance_order_type_spec(OrderType::Limit) != binance_order_type_spec(OrderType::Market),
{
    reveal_strlit("limit");
    reveal_strlit("market");
    reveal_strlit("LIMIT");
    reveal_strlit("MARKET");
    assert(ascii_upper("limit"@) =~= "LIMIT"@);
    assert(ascii_upper("market"@) =~= "MARKET"@);
}

/// Good-till-cancelled, immediate-or-cancel and fill-or-kill carry the same
/// name on every exchange, up to case (`gtc`, `ioc`, `fok`); OKX and Bitget
/// agree on the names of the order types an IOC, FOK or post-only order is
/// sent as; and on each exchange the four times in force have four distinct
/// names.
pub proof fn times_in_force_are_named_apart(tif: TimeInForce, other: TimeInForce)
    ensures
        tif != TimeInForce::PostOnly ==> {
            &&& ascii_lower(bybit_tif_spec(tif)) == gate_tif_spec(tif)
            &&& ascii_lower(binance_tif_spec(Some(tif))) == gate_tif_spec(tif)
            &&& bitget_force_spec(Some(tif)) == Some(gate_tif_spec(tif))
        },
        tif != TimeInForce::Gtc ==> bitget_force_spec(Some(tif)) == Some(
            okx_order_type_spec(OrderType::Limit, Some(tif)),
        ),
        tif != other ==> {
            &&& bybit_tif_spec(tif) != bybit_tif_spec(other)
            &&& gate_tif_spec(tif) != gate_tif_spec(other)
            &&& binance_tif_spec(Some(tif)) != binance_tif_spec(Some(other))
            &&& bitget_force_spec(Some(tif)) != bitget_force_spec(Some(other))
            &&& okx_order_type_spec(OrderType::Limit, Some(tif)) != okx_order_type_spec(
                OrderType::Limit,
                Some(other),
            )
        },
{
    reveal_strlit("GTC");
    reveal_strlit("IOC");
    reveal_strlit("FOK");
    reveal_strlit("GTX");
    reveal_strlit("PostOnly");
    reveal_strlit("gtc");
    reveal_strlit("ioc");
    reveal_strlit("fok");
    reveal_strlit("poc");
    reveal_strlit("post_only");
    reveal_strlit("limit");
    assert(ascii_lower("GTC"@) =~= "gtc"@);
    assert(ascii_lower("IOC"@) =~= "ioc"@);
    assert(ascii_lower("FOK"@) =~= "fok"@);
    if tif != other {
        let pairs = seq![
            (bybit_tif_spec(tif), bybit_tif_spec(other)),
            (gate_tif_spec(tif), gate_tif_spec(other)),
            (binance_tif_spec(Some(tif)), binance_tif_spec(Some(other))),
            (okx_order_type_spec(OrderType::Limit, Some(tif)), okx_order_type_spec(
                OrderType::Limit,
                Some(other),
            )),
        ];
        assert forall|i: int| 0 <= i < 4 implies #[trigger] pairs[i].0 != pairs[i].1 by {
            let (x, y) = pairs[i];
            if x.len() == y.len() {
                if x[0] == y[0] {
                    assert(x[1] != y[1] || x[2] != y[2]);
                }
            }
        }
        assert(pairs[0].0 != pairs[0].1);
        assert(pairs[1].0 != pairs[1].1);
        assert(pairs[2].0 != pairs[2].1);
        assert(pairs[3].0 != pairs[3].1);
        let bx = bitget_force_spec(Some(tif))->0;
        let by = bitget_force_spec(Some(other))->0;
        if bx.len() == by.len() {
            if bx[0] == by[0] {
                assert(bx[1] != by[1] || bx[2] != by[2]);
            }
        }
    }
}

} // verus!
