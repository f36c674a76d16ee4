//! The unified instrument model and the exchange symbol of each instrument.
use crate::exchange::ExchangeId;
use crate::text::{ascii_upper, concat, concat3, copy_string, opt_view, to_ascii_uppercase, IntoText};
use vstd::prelude::*;

verus! {

/// The kind of market an instrument trades on.
#[derive(Debug, Clone, Copy, PartialEq, Eq, Structural)]
pub enum MarketType {
    Spot,
    Margin,
    Perpetual,
    Futures,
    Option,
}

/// A tradable pair in exchange-neutral form: upper-case base and quote assets,
/// the market kind and, for derivatives, an optional settlement asset.
#[derive(Debug, Clone, PartialEq, Eq)]
pub struct Instrument {
    pub base: String,
    pub quote: String,
    pub market_type: MarketType,
    pub settlement: Option<String>,
}

impl Instrument {
    /// The asset a derivative settles in: the settlement asset, else the quote.
    pub open spec fn settle_view(self) -> Seq<char> {
        match self.settlement {
            Some(s) => s@,
            None => self.quote@,
        }
    }

    /// The symbol that `exchange` uses for this instrument.
    pub open spec fn symbol_spec(self, exchange: ExchangeId) -> Seq<char> {
        match exchange {
            ExchangeId::Okx => match self.market_type {
                MarketType::Spot | MarketType::Margin => self.base@ + "-"@ + self.quote@,
                MarketType::Perpetual => self.base@ + "-"@ + self.settle_view() + "-SWAP"@,
                MarketType::Futures | MarketType::Option => self.base@ + "-"@ + self.settle_view(),
            },
            ExchangeId::Binance | ExchangeId::Bitget | ExchangeId::Bybit => self.base@ + self.quote@,
            ExchangeId::Gate => self.base@ + "_"@ + self.quote@,
            ExchangeId::Hyperliquid => match self.market_type {
                MarketType::Spot | MarketType::Margin => self.base@ + "/"@ + self.quote@,
                _ => self.base@,
            },
        }
    }

    /// The same instrument as `other`, field by field.
    pub open spec fn same_as(self, other: Instrument) -> bool {
        &&& self.base@ == other.base@
        &&& self.quote@ == other.quote@
        &&& self.market_type == other.market_type
        &&& opt_view(self.settlement) == opt_view(other.settlement)
    }

    /// Creates an instrument; base and quote are upper-cased (ASCII).
    pub fn new<B: IntoText, Q: IntoText>(base: B, quote: Q, market_type: MarketType) -> (r: Self)
        ensures
            r.base@ == ascii_upper(base.text_view()),
            r.quote@ == ascii_upper(quote.text_view()),
            r.market_type == market_type,
            r.settlement is None,
    {
        let b = base.into_text();
        let q = quote.into_text();
        Instrument {
            base: to_ascii_uppercase(b.as_str()),
            quote: to_ascii_uppercase(q.as_str()),
            market_type,
            settlement: None,
        }
    }

    /// A spot instrument.
    pub fn spot<B: IntoText, Q: IntoText>(base: B, quote: Q) -> (r: Self)
        ensures
            r.base@ == ascii_upper(base.text_view()),
            r.quote@ == ascii_upper(quote.text_view()),
            r.market_type == MarketType::Spot,
            r.settlement is None,
    {
        Self::new(base, quote, MarketType::Spot)
    }

    /// A perpetual swap instrument.
    pub fn perp<B: IntoText, Q: IntoText>(base: B, quote: Q) -> (r: Self)
        ensures
            r.base@ == ascii_upper(base.text_view()),
            r.quote@ == ascii_upper(quote.text_view()),
            r.market_type == MarketType::Perpetual,
            r.settlement is None,
    {
        Self::new(base, quote, MarketType::Perpetual)
    }

    /// Sets the settlement asset (upper-cased, ASCII).
    pub fn with_settlement<S: IntoText>(self, settlement: S) -> (r: Self)
        ensures
            r.base == self.base,
            r.quote == self.quote,
            r.market_type == self.market_type,
            opt_view(r.settlement) == Some(ascii_upper(settlement.text_view())),
    {
        let s = settlement.into_text();
        Instrument { settlement: Some(to_ascii_uppercase(s.as_str())), ..self }
    }

    /// A copy of this instrument.
    pub fn duplicate(&self) -> (r: Self)
        ensures
            r.same_as(*self),
            r.base@ == self.base@,
            r.quote@ == self.quote@,
    {
        Instrument {
            base: copy_string(&self.base),
            quote: copy_string(&self.quote),
            market_type: self.market_type,
            settlement: match &self.settlement {
                Some(s) => Some(copy_string(s)),
                None => None,
            },
        }
    }

    /// The symbol `exchange` uses for this instrument.
    pub fn symbol_for(&self, exchange: ExchangeId) -> (r: String)
        ensures
            r@ == self.symbol_spec(exchange),
    {
        let base = self.base.as_str();
        let quote = self.quote.as_str();
        let settle: &str = match &self.settlement {
            Some(s) => s.as_str(),
            None => quote,
        };
        match exchange {
            ExchangeId::Okx => match self.market_type {
                MarketType::Spot | MarketType::Margin => concat3(base, "-", quote),
                MarketType::Perpetual => {
                    let head = concat3(base, "-", settle);
                    concat(head.as_str(), "-SWAP")
                },
                MarketType::Futures | MarketType::Option => concat3(base, "-", settle),
            },
            ExchangeId::Binance | ExchangeId::Bitget | ExchangeId::Bybit => concat(base, quote),
            ExchangeId::Gate => concat3(base, "_", quote),
            ExchangeId::Hyperliquid => match self.market_type {
                MarketType::Spot | MarketType::Margin => concat3(base, "/", quote),
                _ => copy_string(&self.base),
            },
        }
    }
}

/// Both are absent, or both are present and the same instrument.
pub open spec fn same_instrument_opt(a: Option<Instrument>, b: Option<Instrument>) -> bool {
    match (a, b) {
        (Some(x), Some(y)) => x.same_as(y),
        (None, None) => true,
        _ => false,
    }
}

/// A copy of an optional instrument.
pub fn duplicate_opt(value: &Option<Instrument>) -> (r: Option<Instrument>)
    ensures
        same_instrument_opt(r, *value),
{
    match value {
        Some(i) => Some(i.duplicate()),
        None => None,
    }
}

} // verus!
