//! How a failure of an exchange client becomes an SDK error: API rejections
//! keep the exchange's code and message, configuration failures stay
//! configuration errors, and a private stream's receive failure is reported
//! by a fixed category that carries no URL, credential or proxy detail.
use crate::error::{binance_stream_error, okx_receive_phase_spec, okx_stream_error, Error};
use crate::exchange::ExchangeId;
use crate::text::{all_digits, chars_of, concat, is_digit, text_is_empty};
use vstd::prelude::*;

verus! {

/// A failure of the OKX client, as plain values.
#[derive(Debug, Clone, PartialEq, Eq)]
pub enum OkxFailure {
    /// OKX refused the request: its code, message and sub-message (`sMsg`,
    /// empty when there is none).
    Api { code: String, message: String, smg: String },
    /// The client was configured wrongly.
    Config(String),
    /// A WebSocket failure of `category`; `text` is how the client words it.
    WebSocket { category: String, text: String },
    /// Any other failure, by how the client words it.
    Other(String),
}

/// A failure of the Binance client, as plain values.
#[derive(Debug, Clone, PartialEq, Eq)]
pub enum BinanceFailure {
    /// Binance refused the request: the HTTP status, the decimal text of its
    /// error code, and its message.
    Api { status: Option<u16>, code: String, message: String },
    /// The client was configured wrongly.
    Config(String),
    /// The request needs credentials that were not given.
    MissingCredentials,
    /// Receiving from the private stream failed with `category`.
    WebSocketReceive { category: String },
    /// Any other failure, by how the client words it.
    Other(String),
}

/// The message of an OKX rejection: the message, followed by `: ` and the
/// sub-message when there is one.
pub open spec fn okx_message_spec(message: Seq<char>, smg: Seq<char>) -> Seq<char> {
    if smg.len() == 0 {
        message
    } else {
        message + ": "@ + smg
    }
}

fn okx_message(message: String, smg: &String) -> (r: String)
    ensures
        r@ == okx_message_spec(message@, smg@),
{
    if text_is_empty(smg.as_str()) {
        message
    } else {
        let a = concat(message.as_str(), ": ");
        concat(a.as_str(), smg.as_str())
    }
}

/// `e` is the SDK error of an OKX failure.
pub open spec fn okx_error_of(failure: OkxFailure, e: Error) -> bool {
    match failure {
        OkxFailure::Api { code, message, smg } => e matches Error::Api { exchange, status, code: c, message: m }
            && exchange == ExchangeId::Okx && status is None && c@ == code@ && m@ == okx_message_spec(
            message@,
            smg@,
        ),
        OkxFailure::Config(m) => e matches Error::Config(c) && c@ == m@,
        OkxFailure::WebSocket { category, text } => match okx_receive_phase_spec(category@) {
            Some(p) => e matches Error::PrivateStreamLifecycle { exchange, phase } && exchange
                == ExchangeId::Okx && phase@ == p,
            None => e.is_adapter(ExchangeId::Okx, text@),
        },
        OkxFailure::Other(text) => e.is_adapter(ExchangeId::Okx, text@),
    }
}

/// The SDK error of an OKX failure: a rejection is an API error without an
/// HTTP status, a known receive failure a private-stream lifecycle error,
/// anything else an adapter error with the client's words.
pub fn error_from_okx(failure: OkxFailure) -> (e: Error)
    ensures
        okx_error_of(failure, e),
{
    match failure {
        OkxFailure::Api { code, message, smg } => Error::Api {
            exchange: ExchangeId::Okx,
            status: None,
            code,
            message: okx_message(message, &smg),
        },
        OkxFailure::Config(m) => Error::Config(m),
        OkxFailure::WebSocket { category, text } => okx_stream_error(category.as_str(), text),
        OkxFailure::Other(text) => Error::Adapter { exchange: ExchangeId::Okx, message: text },
    }
}

/// Whether an OKX rejection of a mutation is a business refusal: it has a
/// sub-message, or its code is five decimal digits.
pub open spec fn okx_business_refusal(code: Seq<char>, smg: Seq<char>) -> bool {
    smg.len() > 0 || (code.len() == 5 && all_digits(code))
}

fn five_digits(code: &String) -> (r: bool)
    ensures
        r == (code@.len() == 5 && all_digits(code@)),
{
    let v = chars_of(code.as_str());
    if v.len() != 5 {
        return false;
    }
    let mut i: usize = 0;
    while i < v.len()
        invariant
            i <= v.len(),
            v@ == code@,
            forall|k: int| 0 <= k < i ==> is_digit(#[trigger] v@[k]),
        decreases v.len() - i,
    {
        if !('0' <= v[i] && v[i] <= '9') {
            return false;
        }
        i += 1;
    }
    true
}

/// The SDK error of an OKX failure of a mutation: a business refusal is an
/// API error with HTTP status 200, since OKX answered; any other failure is
/// mapped as by `error_from_okx`, its outcome left uncertain.
pub fn error_from_okx_mutation(failure: OkxFailure) -> (e: Error)
    ensures
        match failure {
            OkxFailure::Api { code, message, smg } => if okx_business_refusal(code@, smg@) {
                e matches Error::Api { exchange, status, code: c, message: m } && exchange
                    == ExchangeId::Okx && status == Some(200u16) && c@ == code@ && m@
                    == okx_message_spec(message@, smg@)
            } else {
                okx_error_of(failure, e)
            },
            _ => okx_error_of(failure, e),
        },
{
    match failure {
        OkxFailure::Api { code, message, smg } => {
            if !text_is_empty(smg.as_str()) || five_digits(&code) {
                Error::Api {
                    exchange: ExchangeId::Okx,
                    status: Some(200),
                    code,
                    message: okx_message(message, &smg),
                }
            } else {
                error_from_okx(OkxFailure::Api { code, message, smg })
            }
        },
        other => error_from_okx(other),
    }
}

/// The SDK error of a Binance failure: a rejection keeps its status, code
/// and message, a receive failure is a private-stream lifecycle error, and
/// anything else an adapter error with the client's words.
pub fn error_from_binance(failure: BinanceFailure) -> (e: Error)
    ensures
        match failure {
            BinanceFailure::Api { status, code, message } => e matches Error::Api {
                exchange,
                status: s,
                code: c,
                message: m,
            } && exchange == ExchangeId::Binance && s == status && c@ == code@ && m@ == message@,
            BinanceFailure::Config(m) => e matches Error::Config(c) && c@ == m@,
            BinanceFailure::MissingCredentials => e matches Error::MissingCredentials(x) && x
                == ExchangeId::Binance,
            BinanceFailure::WebSocketReceive { category } => e matches Error::PrivateStreamLifecycle {
                exchange,
                phase,
            } && exchange == ExchangeId::Binance && phase@ == match okx_receive_phase_spec(category@) {
                Some(p) => p,
                None => "receive_other"@,
            },
            BinanceFailure::Other(text) => e.is_adapter(ExchangeId::Binance, text@),
        },
{
    match failure {
        BinanceFailure::Api { status, code, message } => Error::Api {
            exchange: ExchangeId::Binance,
            status,
            code,
            message,
        },
        BinanceFailure::Config(m) => Error::Config(m),
        BinanceFailure::MissingCredentials => Error::MissingCredentials(ExchangeId::Binance),
        BinanceFailure::WebSocketReceive { category } => binance_stream_error(category.as_str()),
        BinanceFailure::Other(text) => Error::Adapter { exchange: ExchangeId::Binance, message: text },
    }
}

} // verus!
