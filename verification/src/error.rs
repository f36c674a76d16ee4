//! The SDK error model.
use crate::exchange::ExchangeId;
use crate::text::{concat, decimal, owned, text_eq, u64_to_text};
use vstd::prelude::*;

verus! {

/// Every failure the SDK reports.
#[derive(Debug)]
pub enum Error {
    /// Invalid configuration.
    Config(String),
    /// The exchange has no client in this SDK instance.
    ExchangeNotConfigured(ExchangeId),
    /// The exchange needs credentials that were not given.
    MissingCredentials(ExchangeId),
    /// The exchange, or this SDK for it, does not offer the capability.
    Unsupported { exchange: ExchangeId, capability: &'static str },
    /// The exchange answered with an error.
    Api { exchange: ExchangeId, status: Option<u16>, code: String, message: String },
    /// An exchange payload or request could not be mapped faithfully.
    Adapter { exchange: ExchangeId, message: String },
    /// A private stream transport failed; `phase` is a fixed, non-sensitive category.
    PrivateStreamLifecycle { exchange: ExchangeId, phase: &'static str },
    /// A JSON document could not be read or written; holds the parser's message.
    Json(String),
}

/// Shorthand for results of this crate.
pub type Result<T> = std::result::Result<T, Error>;

/// The `Debug` text of an optional status code.
pub open spec fn status_text(status: Option<u16>) -> Seq<char> {
    match status {
        Some(s) => "Some("@ + decimal(s as nat) + ")"@,
        None => "None"@,
    }
}

impl Error {
    /// The text of the error, as shown to users.
    pub open spec fn text_spec(self) -> Seq<char> {
        match self {
            Error::Config(m) => "配置错误: "@ + m@,
            Error::ExchangeNotConfigured(e) => "交易所未配置: "@ + e.name(),
            Error::MissingCredentials(e) => "缺少交易所凭证: "@ + e.name(),
            Error::Unsupported { exchange, capability } => "交易所不支持该能力: "@ + exchange.name()
                + " "@ + capability@,
            Error::Api { exchange, status, code, message } => "交易所 API 错误: "@
                + exchange.name() + " status="@ + status_text(status) + " code="@ + code@ + ": "@
                + message@,
            Error::Adapter { exchange, message } => "交易所适配器错误: "@ + exchange.name() + ": "@
                + message@,
            Error::PrivateStreamLifecycle { exchange, phase } => "私有流生命周期错误: "@
                + exchange.name() + " "@ + phase@,
            Error::Json(m) => "JSON 错误: "@ + m@,
        }
    }

    /// The text of the error, as shown to users.
    pub fn to_text(&self) -> (r: String)
        ensures
            r@ == self.text_spec(),
    {
        match self {
            Error::Config(m) => concat("配置错误: ", m.as_str()),
            Error::ExchangeNotConfigured(e) => concat("交易所未配置: ", e.as_str()),
            Error::MissingCredentials(e) => concat("缺少交易所凭证: ", e.as_str()),
            Error::Unsupported { exchange, capability } => {
                let a = concat("交易所不支持该能力: ", exchange.as_str());
                let b = concat(a.as_str(), " ");
                concat(b.as_str(), capability)
            },
            Error::Api { exchange, status, code, message } => {
                let status_part = match status {
                    Some(s) => {
                        let n = u64_to_text(*s as u64);
                        let x = concat("Some(", n.as_str());
                        concat(x.as_str(), ")")
                    },
                    None => owned("None"),
                };
                let a = concat("交易所 API 错误: ", exchange.as_str());
                let b = concat(a.as_str(), " status=");
                let c = concat(b.as_str(), status_part.as_str());
                let d = concat(c.as_str(), " code=");
                let e = concat(d.as_str(), code.as_str());
                let f = concat(e.as_str(), ": ");
                concat(f.as_str(), message.as_str())
            },
            Error::Adapter { exchange, message } => {
                let a = concat("交易所适配器错误: ", exchange.as_str());
                let b = concat(a.as_str(), ": ");
                concat(b.as_str(), message.as_str())
            },
            Error::PrivateStreamLifecycle { exchange, phase } => {
                let a = concat("私有流生命周期错误: ", exchange.as_str());
                let b = concat(a.as_str(), " ");
                concat(b.as_str(), phase)
            },
            Error::Json(m) => concat("JSON 错误: ", m.as_str()),
        }
    }

    /// Whether this is `Unsupported` for `exchange` and `capability`.
    pub open spec fn is_unsupported(self, exchange: ExchangeId, capability: Seq<char>) -> bool {
        &&& self matches Error::Unsupported { exchange: e, capability: c }
        &&& e == exchange
        &&& c@ == capability
    }

    /// Whether this is `Adapter` for `exchange` with text `message`.
    pub open spec fn is_adapter(self, exchange: ExchangeId, message: Seq<char>) -> bool {
        &&& self matches Error::Adapter { exchange: e, message: m }
        &&& e == exchange
        &&& m@ == message
    }
}

/// An `Adapter` error with a fixed message.
pub fn adapter_error(exchange: ExchangeId, message: &str) -> (r: Error)
    ensures
        r.is_adapter(exchange, message@),
{
    Error::Adapter { exchange, message: owned(message) }
}

/// The phase name of an OKX WebSocket receive failure category, for the
/// categories that stand for a lost private stream.
pub open spec fn okx_receive_phase_spec(category: Seq<char>) -> Option<Seq<char>> {
    if category == "connection_closed"@ {
        Some("receive_connection_closed"@)
    } else if category == "already_closed"@ {
        Some("receive_already_closed"@)
    } else if category == "connection_reset"@ {
        Some("receive_connection_reset"@)
    } else if category == "connection_aborted"@ {
        Some("receive_connection_aborted"@)
    } else if category == "broken_pipe"@ {
        Some("receive_broken_pipe"@)
    } else if category == "timed_out"@ {
        Some("receive_timed_out"@)
    } else if category == "unexpected_eof"@ {
        Some("receive_unexpected_eof"@)
    } else if category == "io"@ {
        Some("receive_io"@)
    } else if category == "tls"@ {
        Some("receive_tls"@)
    } else if category == "capacity"@ {
        Some("receive_capacity"@)
    } else if category == "protocol"@ {
        Some("receive_protocol"@)
    } else if category == "utf8"@ {
        Some("receive_utf8"@)
    } else if category == "write_buffer_full"@ {
        Some("receive_write_buffer_full"@)
    } else if category == "attack_attempt"@ {
        Some("receive_attack_attempt"@)
    } else if category == "other"@ {
        Some("receive_other"@)
    } else {
        None
    }
}

/// Maps an OKX WebSocket error category to the public lifecycle phase; other
/// categories are not stream-lifecycle failures.
pub fn okx_receive_phase(category: &str) -> (r: Option<&'static str>)
    ensures
        match r {
            Some(p) => okx_receive_phase_spec(category@) == Some(p@),
            None => okx_receive_phase_spec(category@) is None,
        },
{
    if text_eq(category, "connection_closed") {
        Some("receive_connection_closed")
    } else if text_eq(category, "already_closed") {
        Some("receive_already_closed")
    } else if text_eq(category, "connection_reset") {
        Some("receive_connection_reset")
    } else if text_eq(category, "connection_aborted") {
        Some("receive_connection_aborted")
    } else if text_eq(category, "broken_pipe") {
        Some("receive_broken_pipe")
    } else if text_eq(category, "timed_out") {
        Some("receive_timed_out")
    } else if text_eq(category, "unexpected_eof") {
        Some("receive_unexpected_eof")
    } else if text_eq(category, "io") {
        Some("receive_io")
    } else if text_eq(category, "tls") {
        Some("receive_tls")
    } else if text_eq(category, "capacity") {
        Some("receive_capacity")
    } else if text_eq(category, "protocol") {
        Some("receive_protocol")
    } else if text_eq(category, "utf8") {
        Some("receive_utf8")
    } else if text_eq(category, "write_buffer_full") {
        Some("receive_write_buffer_full")
    } else if text_eq(category, "attack_attempt") {
        Some("receive_attack_attempt")
    } else if text_eq(category, "other") {
        Some("receive_other")
    } else {
        None
    }
}

/// Maps a Binance receive failure category to the public lifecycle phase;
/// unknown categories become `receive_other`.
pub fn binance_receive_phase(category: &str) -> (r: &'static str)
    ensures
        r@ == match okx_receive_phase_spec(category@) {
            Some(p) => p,
            None => "receive_other"@,
        },
{
    match okx_receive_phase(category) {
        Some(p) => p,
        None => "receive_other",
    }
}

/// The error of an OKX WebSocket failure of `category`: a lifecycle phase
/// where the category has one, else an adapter error carrying `rendered`, the
/// OKX client's own text for the failure.
pub fn okx_stream_error(category: &str, rendered: String) -> (r: Error)
    ensures
        match okx_receive_phase_spec(category@) {
            Some(p) => r matches Error::PrivateStreamLifecycle { exchange, phase } && exchange
                == ExchangeId::Okx && phase@ == p,
            None => r.is_adapter(ExchangeId::Okx, rendered@),
        },
{
    match okx_receive_phase(category) {
        Some(phase) => Error::PrivateStreamLifecycle { exchange: ExchangeId::Okx, phase },
        None => Error::Adapter { exchange: ExchangeId::Okx, message: rendered },
    }
}

/// The error of a Binance private-stream receive failure of `category`.
pub fn binance_stream_error(category: &str) -> (r: Error)
    ensures
        r matches Error::PrivateStreamLifecycle { exchange, phase } && exchange
            == ExchangeId::Binance && phase@ == match okx_receive_phase_spec(category@) {
            Some(p) => p,
            None => "receive_other"@,
        },
{
    Error::PrivateStreamLifecycle {
        exchange: ExchangeId::Binance,
        phase: binance_receive_phase(category),
    }
}

} // verus!
