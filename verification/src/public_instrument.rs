//! Settings and request budgets of the credential-free instrument queries
//! (Binance USDⓈ-M `exchangeInfo`, OKX `SWAP` instruments).
use vstd::prelude::*;

verus! {

/// The IP weight Binance charges for one USDⓈ-M `exchangeInfo` request.
pub const BINANCE_USDM_EXCHANGE_INFO_IP_WEIGHT: u32 = 1;

/// The requests OKX allows to its public instruments endpoint per window.
pub const OKX_SWAP_INSTRUMENT_RATE_LIMIT: u32 = 20;

/// The length of that window, in milliseconds.
pub const OKX_SWAP_INSTRUMENT_RATE_WINDOW_MS: u64 = 2000;

/// Settings of the Binance USDⓈ-M instrument client; it holds no credentials.
#[derive(Debug, Clone, Default, PartialEq, Eq)]
pub struct BinanceUsdmPublicInstrumentConfig {
    /// An API base address other than the default, if any.
    pub api_url: Option<String>,
}

/// Settings of the OKX `SWAP` instrument client; it holds no credentials.
#[derive(Debug, Clone, Default, PartialEq, Eq)]
pub struct OkxSwapPublicInstrumentConfig {
    /// An API base address other than the default, if any.
    pub api_url: Option<String>,
}

} // verus!
