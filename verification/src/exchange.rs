//! Exchange identities.
use crate::text::{ascii_lower, concat, is_ws, text_eq, to_ascii_lowercase, trim, trim_end, trim_start, trim_text};
use vstd::prelude::*;

verus! {

/// One of the exchanges the SDK speaks to.
#[derive(Debug, Clone, Copy, PartialEq, Eq, Hash, Structural)]
pub enum ExchangeId {
    Okx,
    Binance,
    Bitget,
    Bybit,
    Gate,
    Hyperliquid,
}

impl ExchangeId {
    /// The lower-case name of the exchange.
    pub open spec fn name(self) -> Seq<char> {
        match self {
            ExchangeId::Okx => "okx"@,
            ExchangeId::Binance => "binance"@,
            ExchangeId::Bitget => "bitget"@,
            ExchangeId::Bybit => "bybit"@,
            ExchangeId::Gate => "gate"@,
            ExchangeId::Hyperliquid => "hyperliquid"@,
        }
    }

    /// The exchange whose name is `s`, if any.
    pub open spec fn from_name_spec(s: Seq<char>) -> Option<ExchangeId> {
        if s == "okx"@ {
            Some(ExchangeId::Okx)
        } else if s == "binance"@ {
            Some(ExchangeId::Binance)
        } else if s == "bitget"@ {
            Some(ExchangeId::Bitget)
        } else if s == "bybit"@ {
            Some(ExchangeId::Bybit)
        } else if s == "gate"@ {
            Some(ExchangeId::Gate)
        } else if s == "hyperliquid"@ {
            Some(ExchangeId::Hyperliquid)
        } else {
            None
        }
    }

    pub fn as_str(self) -> (r: &'static str)
        ensures
            r@ == self.name(),
    {
        match self {
            ExchangeId::Okx => "okx",
            ExchangeId::Binance => "binance",
            ExchangeId::Bitget => "bitget",
            ExchangeId::Bybit => "bybit",
            ExchangeId::Gate => "gate",
            ExchangeId::Hyperliquid => "hyperliquid",
        }
    }

    /// Reads an exchange name, ignoring surrounding white space and ASCII case.
    pub fn from_name(value: &str) -> (r: Option<ExchangeId>)
        ensures
            r == Self::from_name_spec(ascii_lower(trim(value@))),
    {
        let trimmed = trim_text(value);
        let lower = to_ascii_lowercase(trimmed.as_str());
        let s = lower.as_str();
        if text_eq(s, "okx") {
            Some(ExchangeId::Okx)
        } else if text_eq(s, "binance") {
            Some(ExchangeId::Binance)
        } else if text_eq(s, "bitget") {
            Some(ExchangeId::Bitget)
        } else if text_eq(s, "bybit") {
            Some(ExchangeId::Bybit)
        } else if text_eq(s, "gate") {
            Some(ExchangeId::Gate)
        } else if text_eq(s, "hyperliquid") {
            Some(ExchangeId::Hyperliquid)
        } else {
            None
        }
    }

    /// Like `from_name`, with the error text for an unknown name.
    pub fn parse_name(value: &str) -> (r: Result<ExchangeId, String>)
        ensures
            match r {
                Ok(e) => Self::from_name_spec(ascii_lower(trim(value@))) == Some(e),
                Err(msg) => Self::from_name_spec(ascii_lower(trim(value@))) is None && msg@
                    == "unsupported exchange: "@ + ascii_lower(trim(value@)),
            },
    {
        match Self::from_name(value) {
            Some(e) => Ok(e),
            None => {
                let trimmed = trim_text(value);
                let lower = to_ascii_lowercase(trimmed.as_str());
                Err(concat("unsupported exchange: ", lower.as_str()))
            },
        }
    }
}

/// The name an exchange is written with reads back as that exchange.
pub proof fn exchange_name_reads_back(exchange: ExchangeId)
    ensures
        ExchangeId::from_name_spec(ascii_lower(trim(exchange.name()))) == Some(exchange),
{
    reveal_strlit("okx");
    reveal_strlit("binance");
    reveal_strlit("bitget");
    reveal_strlit("bybit");
    reveal_strlit("gate");
    reveal_strlit("hyperliquid");
    let n = exchange.name();
    assert(n.len() > 0 && !is_ws(n[0]));
    assert(trim_start(n) == n);
    assert(!is_ws(n.last()));
    assert(trim_end(n) == n);
    assert(ascii_lower(n) =~= n);
}

impl std::str::FromStr for ExchangeId {
    type Err = String;

    /// Reads an exchange name, ignoring surrounding white space and ASCII
    /// case; an unknown name is the error text `unsupported exchange: `
    /// followed by the name read.
    fn from_str(value: &str) -> (r: Result<Self, Self::Err>)
        ensures
            match r {
                Ok(e) => Self::from_name_spec(ascii_lower(trim(value@))) == Some(e),
                Err(msg) => Self::from_name_spec(ascii_lower(trim(value@))) is None && msg@
                    == "unsupported exchange: "@ + ascii_lower(trim(value@)),
            },
    {
        Self::parse_name(value)
    }
}

} // verus!
