//! Gate.io USDT-settled futures: tickers, order books, candles, funding,
//! positions, order requests, orders and account bills.
use crate::account::{AccountBill, AccountBillQuery};
use crate::bybit::{bybit_level_of, bybit_level_rows, bybit_levels};
use crate::error::{Error, Result};
use crate::exchange::ExchangeId;
use crate::instrument::{Instrument, MarketType};
use crate::json::{list_member, obj_lookup, or_else, or_empty, plain_str, plain_string_field, plain_u64, plain_u64_field, JsonValue};
use crate::market::{Candle, FundingRate, FundingRateQuery, MarkPrice, OpenInterest, OrderBook, Ticker};
use crate::order::{Order, OrderQuery};
use crate::position::Position;
use crate::text::{
    ascii_upper, chars_of, chars_slice_text, concat, copy_opt, copy_string, find_char, first_index,
    opt_view, owned, parse_i64, parse_i64_spec, parse_u64, parse_u64_spec, to_ascii_uppercase,
};
use crate::trade::{CancelOrderRequest, OrderAck, OrderSide, OrderType, PlaceOrderRequest, TimeInForce};
use crate::capability::{refuse_unmapped_order_fields, unmapped_order_field};
use vstd::prelude::*;

verus! {

broadcast use vstd::std_specs::vec::group_vec_axioms;

/// Milliseconds as whole seconds.
pub fn millis_to_seconds(value: u64) -> (r: u64)
    ensures
        r == value / 1000,
{
    value / 1000
}

/// Seconds as milliseconds, wrapping past the largest `u64`.
pub open spec fn seconds_to_millis_spec(value: u64) -> u64 {
    ((value as nat * 1000) % 0x1_0000_0000_0000_0000) as u64
}

/// Seconds as milliseconds, wrapping past the largest `u64`.
pub fn seconds_to_millis(value: u64) -> (r: u64)
    ensures
        r == seconds_to_millis_spec(value),
{
    let r = value.wrapping_mul(1000);
    assert(r == seconds_to_millis_spec(value)) by (nonlinear_arith)
        requires
            r as int == (value as int * 1000) % 0x1_0000_0000_0000_0000,
    ;
    r
}

/// Writing whole seconds as milliseconds and reading them back as seconds
/// gives the seconds again, as long as the milliseconds fit in a `u64`.
pub proof fn seconds_read_back(seconds: u64)
    requires
        seconds as nat * 1000 <= u64::MAX as nat,
    ensures
        seconds_to_millis_spec(seconds) / 1000 == seconds,
{
    assert(seconds_to_millis_spec(seconds) == seconds * 1000) by (nonlinear_arith)
        requires
            seconds as nat * 1000 <= u64::MAX as nat,
    ;
}

/// An optional time in seconds as milliseconds.
pub open spec fn millis_opt(value: Option<u64>) -> Option<u64> {
    match value {
        Some(v) => Some(seconds_to_millis_spec(v)),
        None => None,
    }
}

/// The base and quote of a Gate contract `BASE_QUOTE`; a contract without
/// `_` has an empty quote.
pub open spec fn gate_symbol_parts(symbol: Seq<char>) -> (Seq<char>, Seq<char>) {
    let i = first_index(symbol, '_');
    if i >= symbol.len() {
        (symbol, Seq::empty())
    } else {
        (symbol.subrange(0, i), symbol.subrange(i + 1, symbol.len() as int))
    }
}

/// A perpetual's Gate contract name reads back as that perpetual, when its
/// base and quote are upper case and its base holds no `_`.
pub proof fn gate_symbol_reads_back(instrument: Instrument)
    requires
        !crate::text::has_char(instrument.base@, '_'),
        ascii_upper(instrument.base@) == instrument.base@,
        ascii_upper(instrument.quote@) == instrument.quote@,
    ensures
        ascii_upper(gate_symbol_parts(instrument.symbol_spec(ExchangeId::Gate)).0) == instrument.base@,
        ascii_upper(gate_symbol_parts(instrument.symbol_spec(ExchangeId::Gate)).1) == instrument.quote@,
{
    let b = instrument.base@;
    let q = instrument.quote@;
    let s = instrument.symbol_spec(ExchangeId::Gate);
    reveal_strlit("_");
    assert(s =~= b + seq!['_'] + q);
    assert forall|k: int| 0 <= k < b.len() implies s[k] != '_' by {
        assert(s[k] == b[k]);
    }
    crate::text::lemma_first_index(s, '_', b.len() as int);
    assert(s.subrange(0, b.len() as int) =~= b);
    assert(s.subrange(b.len() as int + 1, s.len() as int) =~= q);
}

/// The perpetual of a Gate contract.
pub fn gate_instrument_from_symbol(symbol: &str) -> (r: Instrument)
    ensures
        r.base@ == ascii_upper(gate_symbol_parts(symbol@).0),
        r.quote@ == ascii_upper(gate_symbol_parts(symbol@).1),
        r.market_type == MarketType::Perpetual,
        r.settlement is None,
{
    let v = chars_of(symbol);
    let i = find_char(v.as_slice(), '_');
    if i >= v.len() {
        proof {
            reveal_strlit("");
            assert(""@ =~= Seq::<char>::empty());
        }
        return Instrument::perp(symbol, "");
    }
    let base = chars_slice_text(v.as_slice(), 0, i);
    let quote = chars_slice_text(v.as_slice(), i + 1, v.len());
    Instrument::perp(base, quote)
}

/// `t` is the ticker read from a Gate ticker item.
pub open spec fn gate_ticker_of(instrument: Instrument, symbol: Seq<char>, item: JsonValue, t: Ticker) -> bool {
    &&& t.exchange == ExchangeId::Gate
    &&& t.instrument == instrument
    &&& t.exchange_symbol@ == symbol
    &&& t.last_price@ == or_empty(plain_str(item, "last"@))
    &&& opt_view(t.bid_price) == plain_str(item, "highest_bid"@)
    &&& opt_view(t.ask_price) == plain_str(item, "lowest_ask"@)
    &&& opt_view(t.volume_24h) == or_else(plain_str(item, "volume_24h_quote"@), plain_str(item, "volume_24h_base"@))
    &&& t.timestamp is None
}

/// The ticker of a Gate ticker item; `raw` is what the ticker keeps.
pub fn gate_ticker_from_value(instrument: Instrument, symbol: String, item: &JsonValue, raw: JsonValue) -> (r: Ticker)
    ensures
        gate_ticker_of(instrument, symbol@, *item, r),
        r.raw == raw,
{
    let last_price = match plain_string_field(item, "last") {
        Some(v) => v,
        None => String::new(),
    };
    let volume_24h = match plain_string_field(item, "volume_24h_quote") {
        Some(v) => Some(v),
        None => plain_string_field(item, "volume_24h_base"),
    };
    Ticker {
        exchange: ExchangeId::Gate,
        instrument,
        exchange_symbol: symbol,
        last_price,
        bid_price: plain_string_field(item, "highest_bid"),
        ask_price: plain_string_field(item, "lowest_ask"),
        volume_24h,
        timestamp: None,
        raw,
    }
}

/// The elements of an array answer; none for another value.
pub open spec fn array_rows(raw: JsonValue) -> Seq<JsonValue> {
    match raw {
        JsonValue::Array(v) => v@,
        _ => Seq::empty(),
    }
}

/// The first item of a Gate ticker answer for `symbol`, as the funding,
/// mark price and open interest read it.
pub fn gate_ticker_item(raw: &JsonValue, symbol: &str) -> (r: Result<JsonValue>)
    ensures
        array_rows(*raw).len() > 0 ==> (r matches Ok(item) && item.model() == array_rows(*raw)[0].model()),
        array_rows(*raw).len() == 0 ==> (r matches Err(e) && e.is_adapter(
            ExchangeId::Gate,
            "Gate ticker response is empty for "@ + symbol@,
        )),
{
    match raw {
        JsonValue::Array(items) => {
            if items.len() > 0 {
                return Ok(items[0].copy());
            }
        },
        _ => {},
    }
    Err(Error::Adapter { exchange: ExchangeId::Gate, message: concat("Gate ticker response is empty for ", symbol) })
}

/// The ticker of `symbol` from the first item of a Gate ticker answer; the
/// raw value is the whole answer.
pub fn gate_ticker_from_response(instrument: Instrument, symbol: String, raw: JsonValue) -> (r: Result<Ticker>)
    ensures
        array_rows(raw).len() > 0 ==> (r matches Ok(t) && gate_ticker_of(instrument, symbol@, array_rows(raw)[0], t)
            && t.raw == raw),
        array_rows(raw).len() == 0 ==> (r matches Err(e) && e.is_adapter(
            ExchangeId::Gate,
            "Gate ticker response is empty for "@ + symbol@,
        )),
{
    let has_item = match &raw {
        JsonValue::Array(items) => items.len() > 0,
        _ => false,
    };
    if !has_item {
        return Err(
            Error::Adapter {
                exchange: ExchangeId::Gate,
                message: concat("Gate ticker response is empty for ", symbol.as_str()),
            },
        );
    }
    let t = {
        let item = match &raw {
            JsonValue::Array(items) => &items[0],
            _ => &raw,
        };
        let last_price = match plain_string_field(item, "last") {
            Some(v) => v,
            None => String::new(),
        };
        let volume_24h = match plain_string_field(item, "volume_24h_quote") {
            Some(v) => Some(v),
            None => plain_string_field(item, "volume_24h_base"),
        };
        (last_price, plain_string_field(item, "highest_bid"), plain_string_field(item, "lowest_ask"), volume_24h)
    };
    let (last_price, bid_price, ask_price, volume_24h) = t;
    Ok(
        Ticker {
            exchange: ExchangeId::Gate,
            instrument,
            exchange_symbol: symbol,
            last_price,
            bid_price,
            ask_price,
            volume_24h,
            timestamp: None,
            raw,
        },
    )
}

/// The rows among the first `n` that name a contract.
pub open spec fn gate_ticker_rows(rows: Seq<JsonValue>, n: int) -> Seq<JsonValue>
    decreases n,
{
    if n <= 0 || n > rows.len() {
        Seq::empty()
    } else if plain_str(rows[n - 1], "contract"@) is Some {
        gate_ticker_rows(rows, n - 1).push(rows[n - 1])
    } else {
        gate_ticker_rows(rows, n - 1)
    }
}

/// The tickers of a Gate tickers answer: one for each row that names its
/// contract, of the perpetual of that contract.
pub fn gate_tickers_from_value(raw: &JsonValue) -> (r: Vec<Ticker>)
    ensures
        ({
            let rows = array_rows(*raw);
            let kept = gate_ticker_rows(rows, rows.len() as int);
            &&& r@.len() == kept.len()
            &&& forall|i: int|
                0 <= i < kept.len() ==> {
                    let symbol = plain_str(kept[i], "contract"@)->0;
                    &&& (#[trigger] r@[i]).instrument.base@ == ascii_upper(gate_symbol_parts(symbol).0)
                    &&& r@[i].instrument.quote@ == ascii_upper(gate_symbol_parts(symbol).1)
                    &&& r@[i].instrument.market_type == MarketType::Perpetual
                    &&& r@[i].instrument.settlement is None
                    &&& gate_ticker_of(r@[i].instrument, symbol, kept[i], r@[i])
                    &&& r@[i].raw.model() == kept[i].model()
                }
        }),
{
    let empty: Vec<JsonValue> = Vec::new();
    let rows = match raw {
        JsonValue::Array(v) => v,
        _ => &empty,
    };
    assert(rows@ == array_rows(*raw));
    let mut out: Vec<Ticker> = Vec::new();
    let mut i: usize = 0;
    while i < rows.len()
        invariant
            i <= rows.len(),
            rows@ == array_rows(*raw),
            out@.len() == gate_ticker_rows(rows@, i as int).len(),
            forall|k: int|
                0 <= k < out@.len() ==> {
                    let row = #[trigger] gate_ticker_rows(rows@, i as int)[k];
                    let symbol = plain_str(row, "contract"@)->0;
                    &&& out@[k].instrument.base@ == ascii_upper(gate_symbol_parts(symbol).0)
                    &&& out@[k].instrument.quote@ == ascii_upper(gate_symbol_parts(symbol).1)
                    &&& out@[k].instrument.market_type == MarketType::Perpetual
                    &&& out@[k].instrument.settlement is None
                    &&& gate_ticker_of(out@[k].instrument, symbol, row, out@[k])
                    &&& out@[k].raw.model() == row.model()
                },
        decreases rows.len() - i,
    {
        let ghost before = gate_ticker_rows(rows@, i as int);
        let ghost old_out = out@;
        match plain_string_field(&rows[i], "contract") {
            Some(symbol) => {
                let instrument = gate_instrument_from_symbol(symbol.as_str());
                let t = gate_ticker_from_value(instrument, symbol, &rows[i], rows[i].copy());
                out.push(t);
                assert(gate_ticker_rows(rows@, i + 1) == before.push(rows@[i as int]));
                assert forall|k: int| 0 <= k < out@.len() implies {
                    let row = #[trigger] gate_ticker_rows(rows@, i + 1)[k];
                    let symbol = plain_str(row, "contract"@)->0;
                    &&& out@[k].instrument.base@ == ascii_upper(gate_symbol_parts(symbol).0)
                    &&& out@[k].instrument.quote@ == ascii_upper(gate_symbol_parts(symbol).1)
                    &&& out@[k].instrument.market_type == MarketType::Perpetual
                    &&& out@[k].instrument.settlement is None
                    &&& gate_ticker_of(out@[k].instrument, symbol, row, out@[k])
                    &&& out@[k].raw.model() == row.model()
                } by {
                    if k < old_out.len() {
                        assert(gate_ticker_rows(rows@, i + 1)[k] == before[k]);
                    }
                }
            },
            None => {
                assert(gate_ticker_rows(rows@, i + 1) == before);
            },
        }
        i += 1;
    }
    out
}

/// The order book of a Gate book answer (`bids`, `asks`, `t`); rows that are
/// not `[price, size]` strings are passed over.
pub fn gate_orderbook_from_value(instrument: Instrument, symbol: String, raw: JsonValue) -> (r: OrderBook)
    ensures
        r.exchange == ExchangeId::Gate,
        r.instrument == instrument,
        r.exchange_symbol == symbol,
        ({
            let rows = list_member(raw, "bids"@);
            let kept = bybit_level_rows(rows, rows.len() as int);
            &&& r.bids@.len() == kept.len()
            &&& forall|i: int| 0 <= i < kept.len() ==> bybit_level_of(kept[i], #[trigger] r.bids@[i])
        }),
        ({
            let rows = list_member(raw, "asks"@);
            let kept = bybit_level_rows(rows, rows.len() as int);
            &&& r.asks@.len() == kept.len()
            &&& forall|i: int| 0 <= i < kept.len() ==> bybit_level_of(kept[i], #[trigger] r.asks@[i])
        }),
        r.timestamp == plain_u64(raw, "t"@),
        r.raw == raw,
{
    let (bids, asks, timestamp) = {
        let (b, a) = match &raw {
            JsonValue::Object(e) => (obj_lookup(e, "bids"), obj_lookup(e, "asks")),
            _ => (None, None),
        };
        (bybit_levels(b), bybit_levels(a), plain_u64_field(&raw, "t"))
    };
    OrderBook { exchange: ExchangeId::Gate, instrument, exchange_symbol: symbol, bids, asks, timestamp, raw }
}

/// `c` is the candle of a Gate candlestick item.
pub open spec fn gate_candle_of(instrument: Instrument, symbol: Seq<char>, row: JsonValue, c: Candle) -> bool {
    &&& c.exchange == ExchangeId::Gate
    &&& c.instrument.same_as(instrument)
    &&& c.exchange_symbol@ == symbol
    &&& c.open_time == plain_u64(row, "t"@)
    &&& c.close_time is None
    &&& c.open@ == or_empty(plain_str(row, "o"@))
    &&& c.high@ == or_empty(plain_str(row, "h"@))
    &&& c.low@ == or_empty(plain_str(row, "l"@))
    &&& c.close@ == or_empty(plain_str(row, "c"@))
    &&& c.volume@ == or_empty(plain_str(row, "v"@))
    &&& opt_view(c.quote_volume) == plain_str(row, "sum"@)
    &&& c.closed is None
    &&& c.raw == row
}

/// The candle of a Gate candlestick item.
pub fn gate_candle(instrument: &Instrument, symbol: &str, raw: JsonValue) -> (r: Candle)
    ensures
        gate_candle_of(*instrument, symbol@, raw, r),
{
    let open = match plain_string_field(&raw, "o") { Some(v) => v, None => String::new() };
    let high = match plain_string_field(&raw, "h") { Some(v) => v, None => String::new() };
    let low = match plain_string_field(&raw, "l") { Some(v) => v, None => String::new() };
    let close = match plain_string_field(&raw, "c") { Some(v) => v, None => String::new() };
    let volume = match plain_string_field(&raw, "v") { Some(v) => v, None => String::new() };
    let open_time = plain_u64_field(&raw, "t");
    let quote_volume = plain_string_field(&raw, "sum");
    Candle {
        exchange: ExchangeId::Gate,
        instrument: instrument.duplicate(),
        exchange_symbol: owned(symbol),
        open_time,
        close_time: None,
        open,
        high,
        low,
        close,
        volume,
        quote_volume,
        closed: None,
        raw,
    }
}

/// The candles of a Gate candlestick answer (an array; nothing otherwise).
pub fn gate_candles_from_value(instrument: &Instrument, symbol: &str, raw: JsonValue) -> (r: Vec<Candle>)
    ensures
        r@.len() == array_rows(raw).len(),
        forall|i: int| 0 <= i < r@.len() ==> gate_candle_of(*instrument, symbol@, array_rows(raw)[i], #[trigger] r@[i]),
{
    let ghost all = array_rows(raw);
    let mut rows = match raw {
        JsonValue::Array(v) => v,
        _ => Vec::new(),
    };
    let mut out: Vec<Candle> = Vec::new();
    let mut k: usize = 0;
    let n0 = rows.len();
    assert(all.skip(0) =~= all);
    while rows.len() > 0
        invariant
            all == array_rows(raw),
            n0 == all.len(),
            k + rows@.len() == all.len(),
            rows@ == all.skip(k as int),
            out@.len() == k,
            forall|j: int| 0 <= j < k ==> gate_candle_of(*instrument, symbol@, all[j], #[trigger] out@[j]),
        decreases rows@.len(),
    {
        let row = rows.remove(0);
        assert(row == all[k as int]);
        out.push(gate_candle(instrument, symbol, row));
        k += 1;
        assert(rows@ =~= all.skip(k as int));
    }
    out
}

/// The position of `instrument` from a Gate position answer; `size_side` is
/// the side its signed size gives (buy for a size of zero or more), which
/// the caller works out. Gate reads positions one contract at a time.
pub fn gate_position_from_value(instrument: Option<&Instrument>, raw: JsonValue, size_side: Option<String>) -> (r: Result<
    Vec<Position>,
>)
    ensures
        instrument is None ==> (r matches Err(e) && e.is_unsupported(ExchangeId::Gate, "all positions"@)),
        instrument matches Some(i) ==> (r matches Ok(v) && v@.len() == 1 && {
            let p = v@[0];
            &&& p.exchange == ExchangeId::Gate
            &&& p.instrument.same_as(*i)
            &&& p.exchange_symbol@ == i.symbol_spec(ExchangeId::Gate)
            &&& opt_view(p.side) == or_else(plain_str(raw, "mode"@), opt_view(size_side))
            &&& p.size@ == or_empty(plain_str(raw, "size"@))
            &&& opt_view(p.entry_price) == plain_str(raw, "entry_price"@)
            &&& opt_view(p.mark_price) == plain_str(raw, "mark_price"@)
            &&& opt_view(p.unrealized_pnl) == plain_str(raw, "unrealised_pnl"@)
            &&& opt_view(p.leverage) == plain_str(raw, "leverage"@)
            &&& opt_view(p.margin_mode) == plain_str(raw, "margin_mode"@)
            &&& opt_view(p.liquidation_price) == plain_str(raw, "liq_price"@)
            &&& p.raw == raw
        }),
{
    let instrument = match instrument {
        Some(i) => i,
        None => return Err(Error::Unsupported { exchange: ExchangeId::Gate, capability: "all positions" }),
    };
    let side = match plain_string_field(&raw, "mode") {
        Some(m) => Some(m),
        None => size_side,
    };
    let size = match plain_string_field(&raw, "size") {
        Some(s) => s,
        None => String::new(),
    };
    let entry_price = plain_string_field(&raw, "entry_price");
    let mark_price = plain_string_field(&raw, "mark_price");
    let unrealized_pnl = plain_string_field(&raw, "unrealised_pnl");
    let leverage = plain_string_field(&raw, "leverage");
    let margin_mode = plain_string_field(&raw, "margin_mode");
    let liquidation_price = plain_string_field(&raw, "liq_price");
    let mut out: Vec<Position> = Vec::new();
    out.push(
        Position {
            exchange: ExchangeId::Gate,
            instrument: instrument.duplicate(),
            exchange_symbol: instrument.symbol_for(ExchangeId::Gate),
            side,
            size,
            entry_price,
            mark_price,
            unrealized_pnl,
            leverage,
            margin_mode,
            liquidation_price,
            raw,
        },
    );
    Ok(out)
}

/// The contract count `n` signed for `side`: its magnitude to buy, less
/// than zero to sell.
pub open spec fn gate_signed(side: OrderSide, n: i64) -> int {
    let m: int = if n < 0 { -n } else { n as int };
    match side {
        OrderSide::Buy => m,
        OrderSide::Sell => -m,
    }
}

/// The signed contract count of a Gate order: positive to buy, negative to
/// sell. A size that is not a whole number is refused.
pub fn signed_gate_size(side: OrderSide, size: &str) -> (r: Result<i64>)
    requires
        parse_i64_spec(size@) != Some(i64::MIN),
    ensures
        match parse_i64_spec(size@) {
            Some(n) => r == Ok::<i64, Error>(gate_signed(side, n) as i64),
            None => r matches Err(e) && e.is_adapter(
                ExchangeId::Gate,
                "Gate futures size must be integer contracts: "@ + size@,
            ),
        },
{
    let amount = match parse_i64(size) {
        Some(n) => n,
        None => return Err(
            Error::Adapter {
                exchange: ExchangeId::Gate,
                message: concat("Gate futures size must be integer contracts: ", size),
            },
        ),
    };
    let magnitude = if amount < 0 { -amount } else { amount };
    Ok(
        match side {
            OrderSide::Buy => magnitude,
            OrderSide::Sell => -magnitude,
        },
    )
}

/// The price of a Gate order: `0` for a market order.
pub open spec fn gate_price_spec(order_type: OrderType, price: Option<Seq<char>>) -> Option<Seq<char>> {
    match order_type {
        OrderType::Market => Some("0"@),
        OrderType::Limit => price,
    }
}

/// The price of a Gate order: `0` for a market order, the limit price
/// otherwise.
pub fn gate_order_price(order_type: OrderType, price: Option<String>) -> (r: Option<String>)
    ensures
        opt_view(r) == gate_price_spec(order_type, opt_view(price)),
{
    match order_type {
        OrderType::Market => Some(owned("0")),
        OrderType::Limit => price,
    }
}

/// Gate's name of a time in force.
pub open spec fn gate_tif_spec(tif: TimeInForce) -> Seq<char> {
    match tif {
        TimeInForce::Gtc => "gtc"@,
        TimeInForce::Ioc => "ioc"@,
        TimeInForce::Fok => "fok"@,
        TimeInForce::PostOnly => "poc"@,
    }
}

/// Gate's name of a time in force.(post-only is `poc`).
pub fn gate_tif(tif: TimeInForce) -> (r: &'static str)
    ensures
        r@ == gate_tif_spec(tif),
{
    match tif {
        TimeInForce::Gtc => "gtc",
        TimeInForce::Ioc => "ioc",
        TimeInForce::Fok => "fok",
        TimeInForce::PostOnly => "poc",
    }
}

/// A Gate futures order request.
#[derive(Debug, Clone, PartialEq, Eq)]
pub struct GateOrderRequest {
    pub contract: String,
    pub size: i64,
    pub price: Option<String>,
    pub tif: Option<String>,
    pub text: Option<String>,
    pub reduce_only: Option<bool>,
}

/// Gate's request of an order. An attached stop loss, a margin mode, margin
/// coin, position side or trade side cannot be sent with a Gate order, so a
/// request with one is refused as unsupported; a size that is not a whole
/// number of contracts is refused.
pub fn gate_place_order_request(request: &PlaceOrderRequest) -> (r: Result<GateOrderRequest>)
    requires
        parse_i64_spec(request.size@) != Some(i64::MIN),
    ensures
        request.attached_stop_loss_price is Some ==> (r matches Err(e) && e.is_unsupported(
            ExchangeId::Gate,
            "attached stop loss on place_order"@,
        )),
        request.attached_stop_loss_price is None ==> (unmapped_order_field(*request) matches Some(c)
            ==> (r matches Err(e) && e.is_unsupported(ExchangeId::Gate, c))),
        request.attached_stop_loss_price is None && unmapped_order_field(*request) is None && parse_i64_spec(
            request.size@,
        ) is None ==> (r matches Err(e) && e.is_adapter(
            ExchangeId::Gate,
            "Gate futures size must be integer contracts: "@ + request.size@,
        )),
        request.attached_stop_loss_price is None && unmapped_order_field(*request) is None ==> (parse_i64_spec(request.size@) matches Some(n) ==> (r matches Ok(g)
            && {
            &&& g.contract@ == request.instrument.symbol_spec(ExchangeId::Gate)
            &&& g.size == gate_signed(request.side, n)
            &&& opt_view(g.price) == gate_price_spec(request.order_type, opt_view(request.price))
            &&& opt_view(g.tif) == (match request.time_in_force {
                Some(t) => Some(gate_tif_spec(t)),
                None => None,
            })
            &&& opt_view(g.text) == opt_view(request.client_order_id)
            &&& g.reduce_only == request.reduce_only
        })),
{
    if request.attached_stop_loss_price.is_some() {
        return Err(
            Error::Unsupported { exchange: ExchangeId::Gate, capability: "attached stop loss on place_order" },
        );
    }
    match refuse_unmapped_order_fields(ExchangeId::Gate, request) {
        Ok(()) => {},
        Err(e) => return Err(e),
    }
    let size = match signed_gate_size(request.side, request.size.as_str()) {
        Ok(s) => s,
        Err(e) => return Err(e),
    };
    Ok(
        GateOrderRequest {
            contract: request.instrument.symbol_for(ExchangeId::Gate),
            size,
            price: gate_order_price(request.order_type, copy_opt(&request.price)),
            tif: match request.time_in_force {
                Some(t) => Some(owned(gate_tif(t))),
                None => None,
            },
            text: copy_opt(&request.client_order_id),
            reduce_only: request.reduce_only,
        },
    )
}

/// The acknowledgement of a Gate order answer; the client id is the
/// answer's `text`, else the one sent.
pub fn gate_place_ack(request: PlaceOrderRequest, symbol: String, raw: JsonValue) -> (r: OrderAck)
    ensures
        r.exchange == ExchangeId::Gate,
        r.instrument == request.instrument,
        r.exchange_symbol == symbol,
        opt_view(r.order_id) == plain_str(raw, "id"@),
        opt_view(r.client_order_id) == or_else(plain_str(raw, "text"@), opt_view(request.client_order_id)),
        opt_view(r.status) == plain_str(raw, "status"@),
        r.raw == raw,
{
    let order_id = plain_string_field(&raw, "id");
    let client_order_id = match plain_string_field(&raw, "text") {
        Some(c) => Some(c),
        None => request.client_order_id,
    };
    let status = plain_string_field(&raw, "status");
    OrderAck { exchange: ExchangeId::Gate, instrument: request.instrument, exchange_symbol: symbol, order_id, client_order_id, status, raw }
}

/// The order id that a Gate cancel needs.
pub fn gate_cancel_order_id(request: &CancelOrderRequest) -> (r: Result<String>)
    ensures
        request.order_id matches Some(o) ==> (r matches Ok(s) && s@ == o@),
        request.order_id is None ==> (r matches Err(e) && e.is_adapter(ExchangeId::Gate, "Gate cancel requires order_id"@)),
{
    match &request.order_id {
        Some(o) => Ok(copy_string(o)),
        None => Err(Error::Adapter { exchange: ExchangeId::Gate, message: owned("Gate cancel requires order_id") }),
    }
}

/// The acknowledgement of a Gate cancel answer: cancelled; the ids are the
/// answer's, else the ones sent.
pub fn gate_cancel_ack(request: CancelOrderRequest, symbol: String, order_id: String, raw: JsonValue) -> (r: OrderAck)
    ensures
        r.exchange == ExchangeId::Gate,
        r.instrument == request.instrument,
        r.exchange_symbol == symbol,
        opt_view(r.order_id) == or_else(plain_str(raw, "id"@), Some(order_id@)),
        opt_view(r.client_order_id) == or_else(plain_str(raw, "text"@), opt_view(request.client_order_id)),
        opt_view(r.status) == Some("cancelled"@),
        r.raw == raw,
{
    let id = match plain_string_field(&raw, "id") {
        Some(i) => Some(i),
        None => Some(order_id),
    };
    let client_order_id = match plain_string_field(&raw, "text") {
        Some(c) => Some(c),
        None => request.client_order_id,
    };
    OrderAck {
        exchange: ExchangeId::Gate,
        instrument: request.instrument,
        exchange_symbol: symbol,
        order_id: id,
        client_order_id,
        status: Some(owned("cancelled")),
        raw,
    }
}

/// The order id that a Gate order query needs.
pub fn gate_query_order_id(query: &OrderQuery) -> (r: Result<String>)
    ensures
        query.order_id matches Some(o) ==> (r matches Ok(s) && s@ == o@),
        query.order_id is None ==> (r matches Err(e) && e.is_adapter(ExchangeId::Gate, "Gate order query requires order_id"@)),
{
    match &query.order_id {
        Some(o) => Ok(copy_string(o)),
        None => Err(Error::Adapter { exchange: ExchangeId::Gate, message: owned("Gate order query requires order_id") }),
    }
}

/// The order of a Gate order answer; `side` (from the sign of the size) and
/// `filled_size` (size less what is left) are worked out by the caller.
pub fn order_from_value(instrument: Instrument, symbol: String, raw: JsonValue, side: Option<String>, filled_size: Option<String>) -> (r: Order)
    ensures
        r.exchange == ExchangeId::Gate,
        r.instrument == instrument,
        r.exchange_symbol == symbol,
        opt_view(r.order_id) == plain_str(raw, "id"@),
        opt_view(r.client_order_id) == plain_str(raw, "text"@),
        r.side == side,
        opt_view(r.order_type) == plain_str(raw, "tif"@),
        opt_view(r.price) == plain_str(raw, "price"@),
        opt_view(r.size) == plain_str(raw, "size"@),
        r.filled_size == filled_size,
        opt_view(r.average_price) == plain_str(raw, "fill_price"@),
        opt_view(r.status) == plain_str(raw, "status"@),
        r.created_at == plain_u64(raw, "create_time_ms"@),
        r.updated_at == plain_u64(raw, "finish_time_ms"@),
        r.raw == raw,
{
    let order_id = plain_string_field(&raw, "id");
    let client_order_id = plain_string_field(&raw, "text");
    let order_type = plain_string_field(&raw, "tif");
    let price = plain_string_field(&raw, "price");
    let size = plain_string_field(&raw, "size");
    let average_price = plain_string_field(&raw, "fill_price");
    let status = plain_string_field(&raw, "status");
    let created_at = plain_u64_field(&raw, "create_time_ms");
    let updated_at = plain_u64_field(&raw, "finish_time_ms");
    Order {
        exchange: ExchangeId::Gate,
        instrument,
        exchange_symbol: symbol,
        order_id,
        client_order_id,
        side,
        order_type,
        price,
        size,
        filled_size,
        average_price,
        status,
        created_at,
        updated_at,
        raw,
    }
}

/// A Gate account book request.
#[derive(Debug, Clone, PartialEq, Eq)]
pub struct GateAccountBookRequest {
    pub from: Option<u64>,
    pub to: Option<u64>,
    pub limit: Option<u32>,
    pub kind: Option<String>,
}

/// Gate's account book request of a bill query: its times in seconds, its
/// limit and its bill type. Gate bills take no instrument and no archive
/// filter.
pub fn gate_account_book_request(query: &AccountBillQuery) -> (r: Result<GateAccountBookRequest>)
    ensures
        (query.instrument is Some || query.archive) ==> (r matches Err(e) && e.is_unsupported(
            ExchangeId::Gate,
            "account bills instrument/archive filter"@,
        )),
        !(query.instrument is Some || query.archive) ==> (r matches Ok(g) && {
            &&& g.from == (match query.start_time {
                Some(t) => Some((t / 1000) as u64),
                None => None,
            })
            &&& g.to == (match query.end_time {
                Some(t) => Some((t / 1000) as u64),
                None => None,
            })
            &&& g.limit == query.limit
            &&& opt_view(g.kind) == opt_view(query.bill_type)
        }),
{
    if query.instrument.is_some() || query.archive {
        return Err(
            Error::Unsupported { exchange: ExchangeId::Gate, capability: "account bills instrument/archive filter" },
        );
    }
    Ok(
        GateAccountBookRequest {
            from: match query.start_time {
                Some(t) => Some(millis_to_seconds(t)),
                None => None,
            },
            to: match query.end_time {
                Some(t) => Some(millis_to_seconds(t)),
                None => None,
            },
            limit: query.limit,
            kind: copy_opt(&query.bill_type),
        },
    )
}

/// `b` is the bill of a Gate account book row of the account settled in
/// `settle`.
pub open spec fn gate_bill_of(settle: Seq<char>, row: JsonValue, b: AccountBill) -> bool {
    &&& b.exchange == ExchangeId::Gate
    &&& b.instrument is None
    &&& b.exchange_symbol is None
    &&& opt_view(b.bill_id) == plain_str(row, "text"@)
    &&& opt_view(b.asset) == Some(ascii_upper(settle))
    &&& opt_view(b.balance_change) == plain_str(row, "change"@)
    &&& opt_view(b.balance_after) == plain_str(row, "balance"@)
    &&& b.fee is None
    &&& b.pnl is None
    &&& opt_view(b.bill_type) == plain_str(row, "type"@)
    &&& b.bill_sub_type is None
    &&& b.order_id is None
    &&& b.trade_id is None
    &&& b.timestamp == millis_opt(plain_u64(row, "time"@))
    &&& b.raw == row
}

/// The bills of a Gate account book answer (an array; nothing otherwise);
/// times come in seconds.
pub fn gate_bills_from_value(settle: &str, raw: JsonValue) -> (r: Vec<AccountBill>)
    ensures
        r@.len() == array_rows(raw).len(),
        forall|i: int| 0 <= i < r@.len() ==> gate_bill_of(settle@, array_rows(raw)[i], #[trigger] r@[i]),
{
    let ghost all = array_rows(raw);
    let mut rows = match raw {
        JsonValue::Array(v) => v,
        _ => Vec::new(),
    };
    let mut out: Vec<AccountBill> = Vec::new();
    let mut k: usize = 0;
    let n0 = rows.len();
    assert(all.skip(0) =~= all);
    while rows.len() > 0
        invariant
            all == array_rows(raw),
            n0 == all.len(),
            k + rows@.len() == all.len(),
            rows@ == all.skip(k as int),
            out@.len() == k,
            forall|j: int| 0 <= j < k ==> gate_bill_of(settle@, all[j], #[trigger] out@[j]),
        decreases rows@.len(),
    {
        let row = rows.remove(0);
        assert(row == all[k as int]);
        let bill_id = plain_string_field(&row, "text");
        let balance_change = plain_string_field(&row, "change");
        let balance_after = plain_string_field(&row, "balance");
        let bill_type = plain_string_field(&row, "type");
        let timestamp = match plain_u64_field(&row, "time") {
            Some(t) => Some(seconds_to_millis(t)),
            None => None,
        };
        out.push(
            AccountBill {
                exchange: ExchangeId::Gate,
                instrument: None,
                exchange_symbol: None,
                bill_id,
                asset: Some(to_ascii_uppercase(settle)),
                balance_change,
                balance_after,
                fee: None,
                pnl: None,
                bill_type,
                bill_sub_type: None,
                order_id: None,
                trade_id: None,
                timestamp,
                raw: row,
            },
        );
        k += 1;
        assert(rows@ =~= all.skip(k as int));
    }
    out
}

/// The next funding time of a Gate ticker item (`funding_next_apply`, in
/// seconds).
pub open spec fn gate_next_funding(item: JsonValue) -> Option<u64> {
    match plain_str(item, "funding_next_apply"@) {
        Some(s) => millis_opt(parse_u64_spec(s)),
        None => None,
    }
}

fn next_funding_of(item: &JsonValue) -> (r: Option<u64>)
    ensures
        r == gate_next_funding(*item),
{
    match plain_string_field(item, "funding_next_apply") {
        Some(s) => match parse_u64(s.as_str()) {
            Some(n) => Some(seconds_to_millis(n)),
            None => None,
        },
        None => None,
    }
}

/// The funding rate of `symbol` from a Gate ticker item.
pub fn gate_funding_rate_from_item(instrument: Instrument, symbol: String, item: JsonValue) -> (r: FundingRate)
    ensures
        r.exchange == ExchangeId::Gate,
        r.instrument == instrument,
        r.exchange_symbol == symbol,
        r.funding_rate@ == or_empty(plain_str(item, "funding_rate"@)),
        r.funding_time is None,
        r.next_funding_rate is None,
        r.next_funding_time == gate_next_funding(item),
        opt_view(r.mark_price) == plain_str(item, "mark_price"@),
        r.raw == item,
{
    let funding_rate = match plain_string_field(&item, "funding_rate") {
        Some(v) => v,
        None => String::new(),
    };
    let next_funding_time = next_funding_of(&item);
    let mark_price = plain_string_field(&item, "mark_price");
    FundingRate {
        exchange: ExchangeId::Gate,
        instrument,
        exchange_symbol: symbol,
        funding_rate,
        funding_time: None,
        next_funding_rate: None,
        next_funding_time,
        mark_price,
        raw: item,
    }
}

/// The mark price of `symbol` from a Gate ticker item.
pub fn gate_mark_price_from_item(instrument: Instrument, symbol: String, item: JsonValue) -> (r: MarkPrice)
    ensures
        r.exchange == ExchangeId::Gate,
        r.instrument == instrument,
        r.exchange_symbol == symbol,
        r.mark_price@ == or_empty(plain_str(item, "mark_price"@)),
        opt_view(r.index_price) == plain_str(item, "index_price"@),
        opt_view(r.funding_rate) == plain_str(item, "funding_rate"@),
        r.next_funding_time == gate_next_funding(item),
        r.timestamp is None,
        r.raw == item,
{
    let mark_price = match plain_string_field(&item, "mark_price") {
        Some(v) => v,
        None => String::new(),
    };
    let index_price = plain_string_field(&item, "index_price");
    let funding_rate = plain_string_field(&item, "funding_rate");
    let next_funding_time = next_funding_of(&item);
    MarkPrice {
        exchange: ExchangeId::Gate,
        instrument,
        exchange_symbol: symbol,
        mark_price,
        index_price,
        funding_rate,
        next_funding_time,
        timestamp: None,
        raw: item,
    }
}

/// The open interest of `symbol` from a Gate ticker item (its total size).
pub fn gate_open_interest_from_item(instrument: Instrument, symbol: String, item: JsonValue) -> (r: OpenInterest)
    ensures
        r.exchange == ExchangeId::Gate,
        r.instrument == instrument,
        r.exchange_symbol == symbol,
        r.open_interest@ == or_empty(plain_str(item, "total_size"@)),
        r.open_interest_value is None,
        r.timestamp is None,
        r.raw == item,
{
    let open_interest = match plain_string_field(&item, "total_size") {
        Some(v) => v,
        None => String::new(),
    };
    OpenInterest {
        exchange: ExchangeId::Gate,
        instrument,
        exchange_symbol: symbol,
        open_interest,
        open_interest_value: None,
        timestamp: None,
        raw: item,
    }
}

/// Gate funding history takes no time window and no cursor.
pub fn ensure_gate_funding_history_query(query: &FundingRateQuery) -> (r: Result<()>)
    ensures
        (query.start_time is Some || query.end_time is Some || query.after is Some || query.before is Some)
            ==> (r matches Err(e) && e.is_unsupported(ExchangeId::Gate, "funding rate history cursor/time window"@)),
        !(query.start_time is Some || query.end_time is Some || query.after is Some || query.before is Some)
            ==> r is Ok,
{
    if query.start_time.is_some() || query.end_time.is_some() || query.after.is_some() || query.before.is_some() {
        return Err(
            Error::Unsupported { exchange: ExchangeId::Gate, capability: "funding rate history cursor/time window" },
        );
    }
    Ok(())
}

/// `f` is the funding rate of a Gate funding history row (`r`, `t` in
/// seconds).
pub open spec fn gate_funding_row_of(instrument: Instrument, symbol: Seq<char>, row: JsonValue, f: FundingRate) -> bool {
    &&& f.exchange == ExchangeId::Gate
    &&& f.instrument.same_as(instrument)
    &&& f.exchange_symbol@ == symbol
    &&& f.funding_rate@ == or_empty(plain_str(row, "r"@))
    &&& f.funding_time == millis_opt(plain_u64(row, "t"@))
    &&& f.next_funding_rate is None
    &&& f.next_funding_time is None
    &&& f.mark_price is None
    &&& f.raw == row
}

/// The funding rates of a Gate funding history answer (an array; nothing
/// otherwise).
pub fn gate_funding_history_from_value(instrument: &Instrument, symbol: &str, raw: JsonValue) -> (r: Vec<FundingRate>)
    ensures
        r@.len() == array_rows(raw).len(),
        forall|i: int| 0 <= i < r@.len() ==> gate_funding_row_of(*instrument, symbol@, array_rows(raw)[i], #[trigger] r@[i]),
{
    let ghost all = array_rows(raw);
    let mut rows = match raw {
        JsonValue::Array(v) => v,
        _ => Vec::new(),
    };
    let mut out: Vec<FundingRate> = Vec::new();
    let mut k: usize = 0;
    let n0 = rows.len();
    assert(all.skip(0) =~= all);
    while rows.len() > 0
        invariant
            all == array_rows(raw),
            n0 == all.len(),
            k + rows@.len() == all.len(),
            rows@ == all.skip(k as int),
            out@.len() == k,
            forall|j: int| 0 <= j < k ==> gate_funding_row_of(*instrument, symbol@, all[j], #[trigger] out@[j]),
        decreases rows@.len(),
    {
        let row = rows.remove(0);
        assert(row == all[k as int]);
        let funding_rate = match plain_string_field(&row, "r") {
            Some(v) => v,
            None => String::new(),
        };
        let funding_time = match plain_u64_field(&row, "t") {
            Some(t) => Some(seconds_to_millis(t)),
            None => None,
        };
        out.push(
            FundingRate {
                exchange: ExchangeId::Gate,
                instrument: instrument.duplicate(),
                exchange_symbol: owned(symbol),
                funding_rate,
                funding_time,
                next_funding_rate: None,
                next_funding_time: None,
                mark_price: None,
                raw: row,
            },
        );
        k += 1;
        assert(rows@ =~= all.skip(k as int));
    }
    out
}

} // verus!
