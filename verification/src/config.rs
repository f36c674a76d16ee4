//! Exchange credentials and endpoints, read from named settings.
//!
//! Every setting is looked up by name once, in a fixed order; the settings of
//! an exchange decide whether it is configured and with what.
use crate::exchange::ExchangeId;
use crate::json::or_else;
use crate::text::{
    ascii_lower, copy_opt, opt_view, parse_i64, parse_i64_spec, parse_u64, parse_u64_spec,
    text_eq, to_ascii_lowercase, trim, trim_text,
};
use vstd::prelude::*;

verus! {

/// The configuration of every exchange that has one.
#[derive(Debug, Clone, Default, PartialEq, Eq)]
pub struct SdkConfig {
    pub okx: Option<OkxExchangeConfig>,
    pub binance: Option<BinanceExchangeConfig>,
    pub bitget: Option<BitgetExchangeConfig>,
    pub bybit: Option<BybitExchangeConfig>,
    pub gate: Option<GateExchangeConfig>,
    pub hyperliquid: Option<HyperliquidExchangeConfig>,
}

#[derive(Debug, Clone, PartialEq, Eq)]
pub struct OkxExchangeConfig {
    pub api_key: String,
    pub api_secret: String,
    pub passphrase: String,
    pub simulated: bool,
    pub api_url: Option<String>,
    pub request_expiration_ms: Option<i64>,
}

#[derive(Debug, Clone, PartialEq, Eq)]
pub struct BinanceExchangeConfig {
    pub api_key: String,
    pub api_secret: String,
    pub api_url: Option<String>,
    pub sapi_api_url: Option<String>,
    pub web_api_url: Option<String>,
    pub ws_stream_url: Option<String>,
    pub api_timeout_ms: Option<u64>,
    pub recv_window_ms: Option<u64>,
    pub proxy_url: Option<String>,
}

#[derive(Debug, Clone, PartialEq, Eq)]
pub struct BitgetExchangeConfig {
    pub api_key: String,
    pub api_secret: String,
    pub passphrase: String,
    pub api_url: Option<String>,
    pub api_timeout_ms: Option<u64>,
    pub proxy_url: Option<String>,
    pub product_type: Option<String>,
}

#[derive(Debug, Clone, PartialEq, Eq)]
pub struct BybitExchangeConfig {
    pub api_key: String,
    pub api_secret: String,
    pub api_url: Option<String>,
    pub api_timeout_ms: Option<u64>,
    pub recv_window_ms: Option<u64>,
    pub proxy_url: Option<String>,
    pub category: Option<String>,
}

#[derive(Debug, Clone, PartialEq, Eq)]
pub struct GateExchangeConfig {
    pub api_key: String,
    pub api_secret: String,
    pub api_url: Option<String>,
    pub api_timeout_ms: Option<u64>,
    pub proxy_url: Option<String>,
    pub settle: Option<String>,
}

#[derive(Debug, Clone, PartialEq, Eq)]
pub struct HyperliquidExchangeConfig {
    pub api_url: Option<String>,
    pub api_timeout_ms: Option<u64>,
    pub proxy_url: Option<String>,
    pub user_address: Option<String>,
}

/// How many settings are read.
pub const CONFIG_KEY_COUNT: usize = 78;

pub const OKX_SIMULATED_API_KEY: usize = 0;
pub const OKX_SIMULATED_API_SECRET: usize = 1;
pub const OKX_SIMULATED_PASSPHRASE: usize = 2;
pub const OKX_API_KEY: usize = 3;
pub const OKX_API_SECRET: usize = 4;
pub const OKX_PASSPHRASE: usize = 5;
pub const OKX_SIMULATED_TRADING: usize = 6;
pub const OKX_API_URL: usize = 7;
pub const OKX_REQUEST_EXPIRATION_MS: usize = 8;
pub const BINANCE_API_KEY: usize = 9;
pub const BINANCE_API_SECRET: usize = 11;
pub const BINANCE_API_URL: usize = 13;
pub const BINANCE_SAPI_API_URL: usize = 15;
pub const BINANCE_WEB_API_URL: usize = 17;
pub const BINANCE_WS_STREAM_URL: usize = 19;
pub const BINANCE_API_TIMEOUT_MS: usize = 21;
pub const BINANCE_RECV_WINDOW_MS: usize = 23;
pub const BINANCE_PROXY_URL: usize = 25;
pub const BITGET_API_KEY: usize = 27;
pub const BITGET_API_SECRET: usize = 29;
pub const BITGET_PASSPHRASE: usize = 31;
pub const BITGET_API_URL: usize = 36;
pub const BITGET_API_TIMEOUT_MS: usize = 38;
pub const BITGET_PRODUCT_TYPE: usize = 40;
pub const BYBIT_API_KEY: usize = 42;
pub const BYBIT_API_SECRET: usize = 44;
pub const BYBIT_API_URL: usize = 46;
pub const BYBIT_API_TIMEOUT_MS: usize = 48;
pub const BYBIT_RECV_WINDOW_MS: usize = 50;
pub const BYBIT_PROXY_URL: usize = 52;
pub const BYBIT_CATEGORY: usize = 54;
pub const GATE_API_KEY: usize = 56;
pub const GATE_API_SECRET: usize = 58;
pub const GATE_API_URL: usize = 60;
pub const GATE_API_TIMEOUT_MS: usize = 62;
pub const GATE_PROXY_URL: usize = 64;
pub const GATE_SETTLE: usize = 66;
pub const HYPERLIQUID_ENABLED: usize = 68;
pub const HYPERLIQUID_API_URL: usize = 70;
pub const HYPERLIQUID_USER_ADDRESS: usize = 72;
pub const HYPERLIQUID_API_TIMEOUT_MS: usize = 74;
pub const HYPERLIQUID_PROXY_URL: usize = 76;

/// The name of the setting at `index` in the order they are read.
pub open spec fn config_key_spec(index: usize) -> &'static str {
    match index {
        0 => "OKX_SIMULATED_API_KEY",
        1 => "OKX_SIMULATED_API_SECRET",
        2 => "OKX_SIMULATED_PASSPHRASE",
        3 => "OKX_API_KEY",
        4 => "OKX_API_SECRET",
        5 => "OKX_PASSPHRASE",
        6 => "OKX_SIMULATED_TRADING",
        7 => "OKX_API_URL",
        8 => "OKX_REQUEST_EXPIRATION_MS",
        9 => "BINANCE_API_KEY",
        10 => "binance_api_key",
        11 => "BINANCE_API_SECRET",
        12 => "binance_api_secret",
        13 => "BINANCE_API_URL",
        14 => "binance_api_url",
        15 => "BINANCE_SAPI_API_URL",
        16 => "binance_sapi_api_url",
        17 => "BINANCE_WEB_API_URL",
        18 => "binance_web_api_url",
        19 => "BINANCE_WS_STREAM_URL",
        20 => "binance_ws_stream_url",
        21 => "BINANCE_API_TIMEOUT_MS",
        22 => "binance_api_timeout_ms",
        23 => "BINANCE_RECV_WINDOW_MS",
        24 => "binance_recv_window_ms",
        25 => "BINANCE_PROXY_URL",
        26 => "binance_proxy_url",
        27 => "BITGET_API_KEY",
        28 => "bitget_api_key",
        29 => "BITGET_API_SECRET",
        30 => "bitget_api_secret",
        31 => "BITGET_PASSPHRASE",
        32 => "BITGET_API_PASSPHRASE",
        33 => "bitget_PASSPHRASE",
        34 => "bitget_passphrase",
        35 => "bitget_api_passphrase",
        36 => "BITGET_API_URL",
        37 => "bitget_api_url",
        38 => "BITGET_API_TIMEOUT_MS",
        39 => "bitget_api_timeout_ms",
        40 => "BITGET_PRODUCT_TYPE",
        41 => "bitget_product_type",
        42 => "BYBIT_API_KEY",
        43 => "bybit_api_key",
        44 => "BYBIT_API_SECRET",
        45 => "bybit_api_secret",
        46 => "BYBIT_API_URL",
        47 => "bybit_api_url",
        48 => "BYBIT_API_TIMEOUT_MS",
        49 => "bybit_api_timeout_ms",
        50 => "BYBIT_RECV_WINDOW_MS",
        51 => "bybit_recv_window_ms",
        52 => "BYBIT_PROXY_URL",
        53 => "bybit_proxy_url",
        54 => "BYBIT_CATEGORY",
        55 => "bybit_category",
        56 => "GATE_API_KEY",
        57 => "gate_api_key",
        58 => "GATE_API_SECRET",
        59 => "gate_api_secret",
        60 => "GATE_API_URL",
        61 => "gate_api_url",
        62 => "GATE_API_TIMEOUT_MS",
        63 => "gate_api_timeout_ms",
        64 => "GATE_PROXY_URL",
        65 => "gate_proxy_url",
        66 => "GATE_SETTLE",
        67 => "gate_settle",
        68 => "HYPERLIQUID_ENABLED",
        69 => "hyperliquid_enabled",
        70 => "HYPERLIQUID_API_URL",
        71 => "hyperliquid_api_url",
        72 => "HYPERLIQUID_USER_ADDRESS",
        73 => "hyperliquid_user_address",
        74 => "HYPERLIQUID_API_TIMEOUT_MS",
        75 => "hyperliquid_api_timeout_ms",
        76 => "HYPERLIQUID_PROXY_URL",
        77 => "hyperliquid_proxy_url",
        _ => "",
    }
}

/// Every setting is looked up under its documented variable name: the
/// name in upper case first and, where the exchange's settings accept it,
/// right after it the same name in lower case (Bitget's passphrase also
/// under its other spellings).
pub proof fn settings_are_read_under_their_names()
    ensures
        config_key_spec(OKX_SIMULATED_API_KEY)@ == "OKX_SIMULATED_API_KEY"@,
        config_key_spec(OKX_SIMULATED_API_SECRET)@ == "OKX_SIMULATED_API_SECRET"@,
        config_key_spec(OKX_SIMULATED_PASSPHRASE)@ == "OKX_SIMULATED_PASSPHRASE"@,
        config_key_spec(OKX_API_KEY)@ == "OKX_API_KEY"@,
        config_key_spec(OKX_API_SECRET)@ == "OKX_API_SECRET"@,
        config_key_spec(OKX_PASSPHRASE)@ == "OKX_PASSPHRASE"@,
        config_key_spec(OKX_SIMULATED_TRADING)@ == "OKX_SIMULATED_TRADING"@,
        config_key_spec(OKX_API_URL)@ == "OKX_API_URL"@,
        config_key_spec(OKX_REQUEST_EXPIRATION_MS)@ == "OKX_REQUEST_EXPIRATION_MS"@,
        config_key_spec(BINANCE_API_KEY)@ == "BINANCE_API_KEY"@,
        config_key_spec((BINANCE_API_KEY + 1) as usize)@ == "binance_api_key"@,
        config_key_spec(BINANCE_API_SECRET)@ == "BINANCE_API_SECRET"@,
        config_key_spec((BINANCE_API_SECRET + 1) as usize)@ == "binance_api_secret"@,
        config_key_spec(BINANCE_API_URL)@ == "BINANCE_API_URL"@,
        config_key_spec((BINANCE_API_URL + 1) as usize)@ == "binance_api_url"@,
        config_key_spec(BINANCE_SAPI_API_URL)@ == "BINANCE_SAPI_API_URL"@,
        config_key_spec((BINANCE_SAPI_API_URL + 1) as usize)@ == "binance_sapi_api_url"@,
        config_key_spec(BINANCE_WEB_API_URL)@ == "BINANCE_WEB_API_URL"@,
        config_key_spec((BINANCE_WEB_API_URL + 1) as usize)@ == "binance_web_api_url"@,
        config_key_spec(BINANCE_WS_STREAM_URL)@ == "BINANCE_WS_STREAM_URL"@,
        config_key_spec((BINANCE_WS_STREAM_URL + 1) as usize)@ == "binance_ws_stream_url"@,
        config_key_spec(BINANCE_API_TIMEOUT_MS)@ == "BINANCE_API_TIMEOUT_MS"@,
        config_key_spec((BINANCE_API_TIMEOUT_MS + 1) as usize)@ == "binance_api_timeout_ms"@,
        config_key_spec(BINANCE_RECV_WINDOW_MS)@ == "BINANCE_RECV_WINDOW_MS"@,
        config_key_spec((BINANCE_RECV_WINDOW_MS + 1) as usize)@ == "binance_recv_window_ms"@,
        config_key_spec(BINANCE_PROXY_URL)@ == "BINANCE_PROXY_URL"@,
        config_key_spec((BINANCE_PROXY_URL + 1) as usize)@ == "binance_proxy_url"@,
        config_key_spec(BITGET_API_KEY)@ == "BITGET_API_KEY"@,
        config_key_spec((BITGET_API_KEY + 1) as usize)@ == "bitget_api_key"@,
        config_key_spec(BITGET_API_SECRET)@ == "BITGET_API_SECRET"@,
        config_key_spec((BITGET_API_SECRET + 1) as usize)@ == "bitget_api_secret"@,
        config_key_spec(BITGET_PASSPHRASE)@ == "BITGET_PASSPHRASE"@,
        config_key_spec((BITGET_PASSPHRASE + 1) as usize)@ == "BITGET_API_PASSPHRASE"@,
        config_key_spec((BITGET_PASSPHRASE + 2) as usize)@ == "bitget_PASSPHRASE"@,
        config_key_spec((BITGET_PASSPHRASE + 3) as usize)@ == "bitget_passphrase"@,
        config_key_spec((BITGET_PASSPHRASE + 4) as usize)@ == "bitget_api_passphrase"@,
        config_key_spec(BITGET_API_URL)@ == "BITGET_API_URL"@,
        config_key_spec((BITGET_API_URL + 1) as usize)@ == "bitget_api_url"@,
        config_key_spec(BITGET_API_TIMEOUT_MS)@ == "BITGET_API_TIMEOUT_MS"@,
        config_key_spec((BITGET_API_TIMEOUT_MS + 1) as usize)@ == "bitget_api_timeout_ms"@,
        config_key_spec(BITGET_PRODUCT_TYPE)@ == "BITGET_PRODUCT_TYPE"@,
        config_key_spec((BITGET_PRODUCT_TYPE + 1) as usize)@ == "bitget_product_type"@,
        config_key_spec(BYBIT_API_KEY)@ == "BYBIT_API_KEY"@,
        config_key_spec((BYBIT_API_KEY + 1) as usize)@ == "bybit_api_key"@,
        config_key_spec(BYBIT_API_SECRET)@ == "BYBIT_API_SECRET"@,
        config_key_spec((BYBIT_API_SECRET + 1) as usize)@ == "bybit_api_secret"@,
        config_key_spec(BYBIT_API_URL)@ == "BYBIT_API_URL"@,
        config_key_spec((BYBIT_API_URL + 1) as usize)@ == "bybit_api_url"@,
        config_key_spec(BYBIT_API_TIMEOUT_MS)@ == "BYBIT_API_TIMEOUT_MS"@,
        config_key_spec((BYBIT_API_TIMEOUT_MS + 1) as usize)@ == "bybit_api_timeout_ms"@,
        config_key_spec(BYBIT_RECV_WINDOW_MS)@ == "BYBIT_RECV_WINDOW_MS"@,
        config_key_spec((BYBIT_RECV_WINDOW_MS + 1) as usize)@ == "bybit_recv_window_ms"@,
        config_key_spec(BYBIT_PROXY_URL)@ == "BYBIT_PROXY_URL"@,
        config_key_spec((BYBIT_PROXY_URL + 1) as usize)@ == "bybit_proxy_url"@,
        config_key_spec(BYBIT_CATEGORY)@ == "BYBIT_CATEGORY"@,
        config_key_spec((BYBIT_CATEGORY + 1) as usize)@ == "bybit_category"@,
        config_key_spec(GATE_API_KEY)@ == "GATE_API_KEY"@,
        config_key_spec((GATE_API_KEY + 1) as usize)@ == "gate_api_key"@,
        config_key_spec(GATE_API_SECRET)@ == "GATE_API_SECRET"@,
        config_key_spec((GATE_API_SECRET + 1) as usize)@ == "gate_api_secret"@,
        config_key_spec(GATE_API_URL)@ == "GATE_API_URL"@,
        config_key_spec((GATE_API_URL + 1) as usize)@ == "gate_api_url"@,
        config_key_spec(GATE_API_TIMEOUT_MS)@ == "GATE_API_TIMEOUT_MS"@,
        config_key_spec((GATE_API_TIMEOUT_MS + 1) as usize)@ == "gate_api_timeout_ms"@,
        config_key_spec(GATE_PROXY_URL)@ == "GATE_PROXY_URL"@,
        config_key_spec((GATE_PROXY_URL + 1) as usize)@ == "gate_proxy_url"@,
        config_key_spec(GATE_SETTLE)@ == "GATE_SETTLE"@,
        config_key_spec((GATE_SETTLE + 1) as usize)@ == "gate_settle"@,
        config_key_spec(HYPERLIQUID_ENABLED)@ == "HYPERLIQUID_ENABLED"@,
        config_key_spec((HYPERLIQUID_ENABLED + 1) as usize)@ == "hyperliquid_enabled"@,
        config_key_spec(HYPERLIQUID_API_URL)@ == "HYPERLIQUID_API_URL"@,
        config_key_spec((HYPERLIQUID_API_URL + 1) as usize)@ == "hyperliquid_api_url"@,
        config_key_spec(HYPERLIQUID_USER_ADDRESS)@ == "HYPERLIQUID_USER_ADDRESS"@,
        config_key_spec((HYPERLIQUID_USER_ADDRESS + 1) as usize)@ == "hyperliquid_user_address"@,
        config_key_spec(HYPERLIQUID_API_TIMEOUT_MS)@ == "HYPERLIQUID_API_TIMEOUT_MS"@,
        config_key_spec((HYPERLIQUID_API_TIMEOUT_MS + 1) as usize)@ == "hyperliquid_api_timeout_ms"@,
        config_key_spec(HYPERLIQUID_PROXY_URL)@ == "HYPERLIQUID_PROXY_URL"@,
        config_key_spec((HYPERLIQUID_PROXY_URL + 1) as usize)@ == "hyperliquid_proxy_url"@,
{
}

/// The name of the setting at `index`.
pub fn config_key(index: usize) -> (r: &'static str)
    ensures
        r == config_key_spec(index),
{
    match index {
        0 => "OKX_SIMULATED_API_KEY",
        1 => "OKX_SIMULATED_API_SECRET",
        2 => "OKX_SIMULATED_PASSPHRASE",
        3 => "OKX_API_KEY",
        4 => "OKX_API_SECRET",
        5 => "OKX_PASSPHRASE",
        6 => "OKX_SIMULATED_TRADING",
        7 => "OKX_API_URL",
        8 => "OKX_REQUEST_EXPIRATION_MS",
        9 => "BINANCE_API_KEY",
        10 => "binance_api_key",
        11 => "BINANCE_API_SECRET",
        12 => "binance_api_secret",
        13 => "BINANCE_API_URL",
        14 => "binance_api_url",
        15 => "BINANCE_SAPI_API_URL",
        16 => "binance_sapi_api_url",
        17 => "BINANCE_WEB_API_URL",
        18 => "binance_web_api_url",
        19 => "BINANCE_WS_STREAM_URL",
        20 => "binance_ws_stream_url",
        21 => "BINANCE_API_TIMEOUT_MS",
        22 => "binance_api_timeout_ms",
        23 => "BINANCE_RECV_WINDOW_MS",
        24 => "binance_recv_window_ms",
        25 => "BINANCE_PROXY_URL",
        26 => "binance_proxy_url",
        27 => "BITGET_API_KEY",
        28 => "bitget_api_key",
        29 => "BITGET_API_SECRET",
        30 => "bitget_api_secret",
        31 => "BITGET_PASSPHRASE",
        32 => "BITGET_API_PASSPHRASE",
        33 => "bitget_PASSPHRASE",
        34 => "bitget_passphrase",
        35 => "bitget_api_passphrase",
        36 => "BITGET_API_URL",
        37 => "bitget_api_url",
        38 => "BITGET_API_TIMEOUT_MS",
        39 => "bitget_api_timeout_ms",
        40 => "BITGET_PRODUCT_TYPE",
        41 => "bitget_product_type",
        42 => "BYBIT_API_KEY",
        43 => "bybit_api_key",
        44 => "BYBIT_API_SECRET",
        45 => "bybit_api_secret",
        46 => "BYBIT_API_URL",
        47 => "bybit_api_url",
        48 => "BYBIT_API_TIMEOUT_MS",
        49 => "bybit_api_timeout_ms",
        50 => "BYBIT_RECV_WINDOW_MS",
        51 => "bybit_recv_window_ms",
        52 => "BYBIT_PROXY_URL",
        53 => "bybit_proxy_url",
        54 => "BYBIT_CATEGORY",
        55 => "bybit_category",
        56 => "GATE_API_KEY",
        57 => "gate_api_key",
        58 => "GATE_API_SECRET",
        59 => "gate_api_secret",
        60 => "GATE_API_URL",
        61 => "gate_api_url",
        62 => "GATE_API_TIMEOUT_MS",
        63 => "gate_api_timeout_ms",
        64 => "GATE_PROXY_URL",
        65 => "gate_proxy_url",
        66 => "GATE_SETTLE",
        67 => "gate_settle",
        68 => "HYPERLIQUID_ENABLED",
        69 => "hyperliquid_enabled",
        70 => "HYPERLIQUID_API_URL",
        71 => "hyperliquid_api_url",
        72 => "HYPERLIQUID_USER_ADDRESS",
        73 => "hyperliquid_user_address",
        74 => "HYPERLIQUID_API_TIMEOUT_MS",
        75 => "hyperliquid_api_timeout_ms",
        76 => "HYPERLIQUID_PROXY_URL",
        77 => "hyperliquid_proxy_url",
        _ => "",
    }
}

/// The value read for the setting at `index`.
pub open spec fn setting(values: Seq<Option<String>>, index: int) -> Option<Seq<char>> {
    opt_view(values[index])
}

/// The first value read among the `count` settings that start at `index`.
pub open spec fn first_setting(values: Seq<Option<String>>, index: int, count: nat) -> Option<
    Seq<char>,
>
    decreases count,
{
    if count == 0 {
        None
    } else {
        or_else(setting(values, index), first_setting(values, index + 1, (count - 1) as nat))
    }
}

/// A setting whose name may be written in upper case or, at the next index, in
/// lower case; the upper-case name wins.
pub open spec fn either_case(values: Seq<Option<String>>, index: int) -> Option<Seq<char>> {
    first_setting(values, index, 2)
}

/// A flag value: `1`, `true`, `yes`, `y` or `on`, in any ASCII case, with
/// surrounding white space ignored.
pub open spec fn boolish(value: Seq<char>) -> bool {
    let t = ascii_lower(trim(value));
    t == "1"@ || t == "true"@ || t == "yes"@ || t == "y"@ || t == "on"@
}

/// A setting read as a `u64`; a value that does not parse counts as absent.
pub open spec fn u64_setting(value: Option<Seq<char>>) -> Option<u64> {
    match value {
        Some(t) => parse_u64_spec(t),
        None => None,
    }
}

/// OKX uses its simulated-trading credentials when one of them is set and none
/// of the live credentials is.
pub open spec fn okx_simulated_credentials(values: Seq<Option<String>>) -> bool {
    first_setting(values, OKX_SIMULATED_API_KEY as int, 3) is Some && first_setting(
        values,
        OKX_API_KEY as int,
        3,
    ) is None
}

pub open spec fn okx_reads(c: Option<OkxExchangeConfig>, values: Seq<Option<String>>) -> bool {
    let simulated = okx_simulated_credentials(values);
    let base: int = if simulated {
        OKX_SIMULATED_API_KEY as int
    } else {
        OKX_API_KEY as int
    };
    let key = setting(values, base);
    let secret = setting(values, base + 1);
    let passphrase = setting(values, base + 2);
    match c {
        Some(o) => {
            &&& key == Some(o.api_key@)
            &&& secret == Some(o.api_secret@)
            &&& passphrase == Some(o.passphrase@)
            &&& o.simulated == match setting(values, OKX_SIMULATED_TRADING as int) {
                Some(t) => boolish(t),
                None => simulated,
            }
            &&& opt_view(o.api_url) == setting(values, OKX_API_URL as int)
            &&& o.request_expiration_ms == match setting(values, OKX_REQUEST_EXPIRATION_MS as int) {
                Some(t) => parse_i64_spec(t),
                None => None,
            }
        },
        None => key is None || secret is None || passphrase is None,
    }
}

pub open spec fn binance_reads(c: Option<BinanceExchangeConfig>, values: Seq<Option<String>>) -> bool {
    let key = either_case(values, BINANCE_API_KEY as int);
    let secret = either_case(values, BINANCE_API_SECRET as int);
    match c {
        Some(b) => {
            &&& key == Some(b.api_key@)
            &&& secret == Some(b.api_secret@)
            &&& opt_view(b.api_url) == either_case(values, BINANCE_API_URL as int)
            &&& opt_view(b.sapi_api_url) == either_case(values, BINANCE_SAPI_API_URL as int)
            &&& opt_view(b.web_api_url) == either_case(values, BINANCE_WEB_API_URL as int)
            &&& opt_view(b.ws_stream_url) == either_case(values, BINANCE_WS_STREAM_URL as int)
            &&& b.api_timeout_ms == u64_setting(either_case(values, BINANCE_API_TIMEOUT_MS as int))
            &&& b.recv_window_ms == u64_setting(either_case(values, BINANCE_RECV_WINDOW_MS as int))
            &&& opt_view(b.proxy_url) == either_case(values, BINANCE_PROXY_URL as int)
        },
        None => key is None || secret is None,
    }
}

pub open spec fn bitget_reads(c: Option<BitgetExchangeConfig>, values: Seq<Option<String>>) -> bool {
    let key = either_case(values, BITGET_API_KEY as int);
    let secret = either_case(values, BITGET_API_SECRET as int);
    let passphrase = first_setting(values, BITGET_PASSPHRASE as int, 5);
    match c {
        Some(b) => {
            &&& key == Some(b.api_key@)
            &&& secret == Some(b.api_secret@)
            &&& passphrase == Some(b.passphrase@)
            &&& opt_view(b.api_url) == either_case(values, BITGET_API_URL as int)
            &&& b.api_timeout_ms == u64_setting(either_case(values, BITGET_API_TIMEOUT_MS as int))
            &&& b.proxy_url is None
            &&& opt_view(b.product_type) == either_case(values, BITGET_PRODUCT_TYPE as int)
        },
        None => key is None || secret is None || passphrase is None,
    }
}

pub open spec fn bybit_reads(c: Option<BybitExchangeConfig>, values: Seq<Option<String>>) -> bool {
    let key = either_case(values, BYBIT_API_KEY as int);
    let secret = either_case(values, BYBIT_API_SECRET as int);
    match c {
        Some(b) => {
            &&& key == Some(b.api_key@)
            &&& secret == Some(b.api_secret@)
            &&& opt_view(b.api_url) == either_case(values, BYBIT_API_URL as int)
            &&& b.api_timeout_ms == u64_setting(either_case(values, BYBIT_API_TIMEOUT_MS as int))
            &&& b.recv_window_ms == u64_setting(either_case(values, BYBIT_RECV_WINDOW_MS as int))
            &&& opt_view(b.proxy_url) == either_case(values, BYBIT_PROXY_URL as int)
            &&& opt_view(b.category) == either_case(values, BYBIT_CATEGORY as int)
        },
        None => key is None || secret is None,
    }
}

pub open spec fn gate_reads(c: Option<GateExchangeConfig>, values: Seq<Option<String>>) -> bool {
    let key = either_case(values, GATE_API_KEY as int);
    let secret = either_case(values, GATE_API_SECRET as int);
    match c {
        Some(g) => {
            &&& key == Some(g.api_key@)
            &&& secret == Some(g.api_secret@)
            &&& opt_view(g.api_url) == either_case(values, GATE_API_URL as int)
            &&& g.api_timeout_ms == u64_setting(either_case(values, GATE_API_TIMEOUT_MS as int))
            &&& opt_view(g.proxy_url) == either_case(values, GATE_PROXY_URL as int)
            &&& opt_view(g.settle) == either_case(values, GATE_SETTLE as int)
        },
        None => key is None || secret is None,
    }
}

/// Hyperliquid needs no credentials: it is configured when it is enabled, or
/// when an API URL or a user address is set.
pub open spec fn hyperliquid_reads(c: Option<HyperliquidExchangeConfig>, values: Seq<Option<String>>) -> bool {
    let enabled = match either_case(values, HYPERLIQUID_ENABLED as int) {
        Some(t) => boolish(t),
        None => false,
    };
    let api_url = either_case(values, HYPERLIQUID_API_URL as int);
    let user_address = either_case(values, HYPERLIQUID_USER_ADDRESS as int);
    match c {
        Some(h) => {
            &&& enabled || api_url is Some || user_address is Some
            &&& opt_view(h.api_url) == api_url
            &&& h.api_timeout_ms == u64_setting(either_case(values, HYPERLIQUID_API_TIMEOUT_MS as int))
            &&& opt_view(h.proxy_url) == either_case(values, HYPERLIQUID_PROXY_URL as int)
            &&& opt_view(h.user_address) == user_address
        },
        None => !enabled && api_url is None && user_address is None,
    }
}

/// `lookup` answered `values[i]` for the setting named `config_key_spec(i)`, for
/// every setting.
pub open spec fn lookup_answers<F: Fn(&str) -> Option<String>>(
    lookup: F,
    values: Seq<Option<String>>,
) -> bool {
    &&& values.len() == CONFIG_KEY_COUNT
    &&& forall|i: usize|
        i < CONFIG_KEY_COUNT ==> call_ensures(lookup, (config_key_spec(i),), #[trigger] values[i as int])
}

fn setting_at(values: &Vec<Option<String>>, index: usize) -> (r: Option<String>)
    requires
        index < values.len(),
    ensures
        opt_view(r) == setting(values@, index as int),
{
    copy_opt(&values[index])
}

fn first_setting_at(values: &Vec<Option<String>>, index: usize, count: usize) -> (r: Option<String>)
    requires
        index + count <= values.len(),
    ensures
        opt_view(r) == first_setting(values@, index as int, count as nat),
    decreases count,
{
    if count == 0 {
        return None;
    }
    match setting_at(values, index) {
        Some(v) => Some(v),
        None => first_setting_at(values, index + 1, count - 1),
    }
}

fn either_case_at(values: &Vec<Option<String>>, index: usize) -> (r: Option<String>)
    requires
        index + 2 <= values.len(),
    ensures
        opt_view(r) == either_case(values@, index as int),
{
    first_setting_at(values, index, 2)
}

fn u64_setting_at(values: &Vec<Option<String>>, index: usize) -> (r: Option<u64>)
    requires
        index + 2 <= values.len(),
    ensures
        r == u64_setting(either_case(values@, index as int)),
{
    match either_case_at(values, index) {
        Some(t) => parse_u64(t.as_str()),
        None => None,
    }
}

/// Whether a flag value reads as true.
pub fn parse_boolish(value: &str) -> (r: bool)
    ensures
        r == boolish(value@),
{
    let t = to_ascii_lowercase(trim_text(value).as_str());
    let s = t.as_str();
    text_eq(s, "1") || text_eq(s, "true") || text_eq(s, "yes") || text_eq(s, "y") || text_eq(s, "on")
}

fn read_okx(values: &Vec<Option<String>>) -> (r: Option<OkxExchangeConfig>)
    requires
        values.len() == CONFIG_KEY_COUNT,
    ensures
        okx_reads(r, values@),
{
    let simulated_any = first_setting_at(values, OKX_SIMULATED_API_KEY, 3);
    let live_any = first_setting_at(values, OKX_API_KEY, 3);
    let use_simulated = simulated_any.is_some() && live_any.is_none();
    let base: usize = if use_simulated {
        OKX_SIMULATED_API_KEY
    } else {
        OKX_API_KEY
    };
    let api_key = match setting_at(values, base) {
        Some(v) => v,
        None => return None,
    };
    let api_secret = match setting_at(values, base + 1) {
        Some(v) => v,
        None => return None,
    };
    let passphrase = match setting_at(values, base + 2) {
        Some(v) => v,
        None => return None,
    };
    let simulated = match setting_at(values, OKX_SIMULATED_TRADING) {
        Some(t) => parse_boolish(t.as_str()),
        None => use_simulated,
    };
    let request_expiration_ms = match setting_at(values, OKX_REQUEST_EXPIRATION_MS) {
        Some(t) => parse_i64(t.as_str()),
        None => None,
    };
    Some(
        OkxExchangeConfig {
            api_key,
            api_secret,
            passphrase,
            simulated,
            api_url: setting_at(values, OKX_API_URL),
            request_expiration_ms,
        },
    )
}

fn read_binance(values: &Vec<Option<String>>) -> (r: Option<BinanceExchangeConfig>)
    requires
        values.len() == CONFIG_KEY_COUNT,
    ensures
        binance_reads(r, values@),
{
    let api_key = match either_case_at(values, BINANCE_API_KEY) {
        Some(v) => v,
        None => return None,
    };
    let api_secret = match either_case_at(values, BINANCE_API_SECRET) {
        Some(v) => v,
        None => return None,
    };
    Some(
        BinanceExchangeConfig {
            api_key,
            api_secret,
            api_url: either_case_at(values, BINANCE_API_URL),
            sapi_api_url: either_case_at(values, BINANCE_SAPI_API_URL),
            web_api_url: either_case_at(values, BINANCE_WEB_API_URL),
            ws_stream_url: either_case_at(values, BINANCE_WS_STREAM_URL),
            api_timeout_ms: u64_setting_at(values, BINANCE_API_TIMEOUT_MS),
            recv_window_ms: u64_setting_at(values, BINANCE_RECV_WINDOW_MS),
            proxy_url: either_case_at(values, BINANCE_PROXY_URL),
        },
    )
}

fn read_bitget(values: &Vec<Option<String>>) -> (r: Option<BitgetExchangeConfig>)
    requires
        values.len() == CONFIG_KEY_COUNT,
    ensures
        bitget_reads(r, values@),
{
    let api_key = match either_case_at(values, BITGET_API_KEY) {
        Some(v) => v,
        None => return None,
    };
    let api_secret = match either_case_at(values, BITGET_API_SECRET) {
        Some(v) => v,
        None => return None,
    };
    let passphrase = match first_setting_at(values, BITGET_PASSPHRASE, 5) {
        Some(v) => v,
        None => return None,
    };
    Some(
        BitgetExchangeConfig {
            api_key,
            api_secret,
            passphrase,
            api_url: either_case_at(values, BITGET_API_URL),
            api_timeout_ms: u64_setting_at(values, BITGET_API_TIMEOUT_MS),
            proxy_url: None,
            product_type: either_case_at(values, BITGET_PRODUCT_TYPE),
        },
    )
}

fn read_bybit(values: &Vec<Option<String>>) -> (r: Option<BybitExchangeConfig>)
    requires
        values.len() == CONFIG_KEY_COUNT,
    ensures
        bybit_reads(r, values@),
{
    let api_key = match either_case_at(values, BYBIT_API_KEY) {
        Some(v) => v,
        None => return None,
    };
    let api_secret = match either_case_at(values, BYBIT_API_SECRET) {
        Some(v) => v,
        None => return None,
    };
    Some(
        BybitExchangeConfig {
            api_key,
            api_secret,
            api_url: either_case_at(values, BYBIT_API_URL),
            api_timeout_ms: u64_setting_at(values, BYBIT_API_TIMEOUT_MS),
            recv_window_ms: u64_setting_at(values, BYBIT_RECV_WINDOW_MS),
            proxy_url: either_case_at(values, BYBIT_PROXY_URL),
            category: either_case_at(values, BYBIT_CATEGORY),
        },
    )
}

fn read_gate(values: &Vec<Option<String>>) -> (r: Option<GateExchangeConfig>)
    requires
        values.len() == CONFIG_KEY_COUNT,
    ensures
        gate_reads(r, values@),
{
    let api_key = match either_case_at(values, GATE_API_KEY) {
        Some(v) => v,
        None => return None,
    };
    let api_secret = match either_case_at(values, GATE_API_SECRET) {
        Some(v) => v,
        None => return None,
    };
    Some(
        GateExchangeConfig {
            api_key,
            api_secret,
            api_url: either_case_at(values, GATE_API_URL),
            api_timeout_ms: u64_setting_at(values, GATE_API_TIMEOUT_MS),
            proxy_url: either_case_at(values, GATE_PROXY_URL),
            settle: either_case_at(values, GATE_SETTLE),
        },
    )
}

fn read_hyperliquid(values: &Vec<Option<String>>) -> (r: Option<HyperliquidExchangeConfig>)
    requires
        values.len() == CONFIG_KEY_COUNT,
    ensures
        hyperliquid_reads(r, values@),
{
    let enabled = match either_case_at(values, HYPERLIQUID_ENABLED) {
        Some(t) => parse_boolish(t.as_str()),
        None => false,
    };
    let api_url = either_case_at(values, HYPERLIQUID_API_URL);
    let user_address = either_case_at(values, HYPERLIQUID_USER_ADDRESS);
    if !enabled && api_url.is_none() && user_address.is_none() {
        return None;
    }
    Some(
        HyperliquidExchangeConfig {
            api_url,
            api_timeout_ms: u64_setting_at(values, HYPERLIQUID_API_TIMEOUT_MS),
            proxy_url: either_case_at(values, HYPERLIQUID_PROXY_URL),
            user_address,
        },
    )
}

impl SdkConfig {
    /// This configuration is the one the settings `values` describe.
    pub open spec fn reads(self, values: Seq<Option<String>>) -> bool {
        &&& okx_reads(self.okx, values)
        &&& binance_reads(self.binance, values)
        &&& bitget_reads(self.bitget, values)
        &&& bybit_reads(self.bybit, values)
        &&& gate_reads(self.gate, values)
        &&& hyperliquid_reads(self.hyperliquid, values)
    }

    /// The exchanges that have a configuration, in the order Okx, Binance,
    /// Bitget, Bybit, Gate, Hyperliquid.
    pub open spec fn configured_spec(self) -> Seq<ExchangeId> {
        let s1 = if self.okx is Some {
            seq![ExchangeId::Okx]
        } else {
            Seq::empty()
        };
        let s2 = if self.binance is Some {
            s1.push(ExchangeId::Binance)
        } else {
            s1
        };
        let s3 = if self.bitget is Some {
            s2.push(ExchangeId::Bitget)
        } else {
            s2
        };
        let s4 = if self.bybit is Some {
            s3.push(ExchangeId::Bybit)
        } else {
            s3
        };
        let s5 = if self.gate is Some {
            s4.push(ExchangeId::Gate)
        } else {
            s4
        };
        if self.hyperliquid is Some {
            s5.push(ExchangeId::Hyperliquid)
        } else {
            s5
        }
    }

    /// The configuration described by the settings `values`, given in the order
    /// of `config_key`.
    pub fn from_values(values: &Vec<Option<String>>) -> (r: SdkConfig)
        requires
            values.len() == CONFIG_KEY_COUNT,
        ensures
            r.reads(values@),
    {
        SdkConfig {
            okx: read_okx(values),
            binance: read_binance(values),
            bitget: read_bitget(values),
            bybit: read_bybit(values),
            gate: read_gate(values),
            hyperliquid: read_hyperliquid(values),
        }
    }

    /// Reads every setting through `lookup`, once each and in the order of
    /// `config_key`, and builds the configuration they describe.
    pub fn from_lookup<F: Fn(&str) -> Option<String>>(lookup: F) -> (r: SdkConfig)
        requires
            forall|key: &str| call_requires(lookup, (key,)),
        ensures
            exists|values: Seq<Option<String>>| lookup_answers(lookup, values) && r.reads(values),
    {
        let mut values: Vec<Option<String>> = Vec::new();
        let mut i: usize = 0;
        while i < CONFIG_KEY_COUNT
            invariant
                i <= CONFIG_KEY_COUNT,
                values.len() == i,
                forall|key: &str| call_requires(lookup, (key,)),
                forall|j: usize|
                    j < i ==> call_ensures(lookup, (config_key_spec(j),), #[trigger] values@[j as int]),
            decreases CONFIG_KEY_COUNT - i,
        {
            let answer = lookup(config_key(i));
            values.push(answer);
            i += 1;
        }
        let r = Self::from_values(&values);
        assert(lookup_answers(lookup, values@));
        r
    }

    /// The exchanges that have a configuration.
    pub fn configured_exchanges(&self) -> (r: Vec<ExchangeId>)
        ensures
            r@ == self.configured_spec(),
    {
        let mut exchanges: Vec<ExchangeId> = Vec::new();
        if self.okx.is_some() {
            exchanges.push(ExchangeId::Okx);
        }
        if self.binance.is_some() {
            exchanges.push(ExchangeId::Binance);
        }
        if self.bitget.is_some() {
            exchanges.push(ExchangeId::Bitget);
        }
        if self.bybit.is_some() {
            exchanges.push(ExchangeId::Bybit);
        }
        if self.gate.is_some() {
            exchanges.push(ExchangeId::Gate);
        }
        if self.hyperliquid.is_some() {
            exchanges.push(ExchangeId::Hyperliquid);
        }
        exchanges
    }
}

} // verus!
