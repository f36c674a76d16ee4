//! Private account streams: the account facts one provider frame carries.
//! Values stay in the exchange's text; a frame is either account records, the
//! end of a credential stream, or a control answer.
pub mod binance;
pub mod okx;
use crate::error::{Error, Result};
use crate::exchange::ExchangeId;
use crate::json::{json_get, json_lookup, JsonValue};
use crate::text::{copy_string, opt_view, owned, parse_u64, parse_u64_spec, text_is_empty, trim, trim_text};
use vstd::prelude::*;

verus! {

/// A balance change in a private stream.
#[derive(Debug, Clone, PartialEq, Eq)]
pub struct PrivateBalanceStreamChange {
    pub asset: String,
    pub total: String,
    /// Missing where the exchange does not report an available balance.
    pub available: Option<String>,
    pub source_updated_at_ms: u64,
}

/// A position change in a private stream; a size of zero closes the position.
#[derive(Debug, Clone, PartialEq, Eq)]
pub struct PrivatePositionStreamChange {
    pub exchange_symbol: String,
    pub side: Option<String>,
    pub size: String,
    pub entry_price: Option<String>,
    pub mark_price: Option<String>,
    pub unrealized_pnl: Option<String>,
    pub leverage: Option<String>,
    pub margin_mode: Option<String>,
    pub liquidation_price: Option<String>,
    pub source_updated_at_ms: u64,
}

/// An order change in a private stream, with the exchange's own status.
#[derive(Debug, Clone, PartialEq, Eq)]
pub struct PrivateOrderStreamChange {
    pub exchange_symbol: String,
    pub order_id: String,
    pub client_order_id: Option<String>,
    pub side: Option<String>,
    pub order_type: Option<String>,
    pub price: Option<String>,
    pub size: Option<String>,
    pub filled_size: Option<String>,
    pub status: String,
    pub created_at_ms: Option<u64>,
    pub source_updated_at_ms: u64,
}

/// One account fact of a private stream.
#[derive(Debug, Clone, PartialEq, Eq)]
pub enum PrivateAccountStreamChange {
    Balance(PrivateBalanceStreamChange),
    Position(PrivatePositionStreamChange),
    Order(PrivateOrderStreamChange),
}

/// One fact of a provider frame, with the times and identity the provider
/// gave it and the payload it was read from.
#[derive(Debug, PartialEq)]
pub struct PrivateAccountStreamRecord {
    pub exchange: ExchangeId,
    pub provider_event_time_ms: u64,
    pub provider_transaction_time_ms: Option<u64>,
    pub event_identity: String,
    pub change: PrivateAccountStreamChange,
    pub raw_payload: JsonValue,
}

/// What a provider frame carries.
#[derive(Debug, PartialEq)]
pub enum PrivateAccountStreamFrame {
    Records(Vec<PrivateAccountStreamRecord>),
    Expired { exchange: ExchangeId, provider_event_time_ms: u64 },
    Control { exchange: ExchangeId, event: String },
}

/// The answer to keeping a private stream alive.
#[derive(Debug, Clone, Copy, PartialEq, Eq, Structural)]
pub enum PrivateAccountStreamKeepalive {
    /// OKX answered the heartbeat with `pong`.
    HeartbeatConfirmed,
    /// Binance renewed the listen key.
    Renewed,
}

/// The trimmed text of string member `key`, when it is not blank.
pub open spec fn frame_text(v: JsonValue, key: Seq<char>) -> Option<Seq<char>> {
    match json_get(v, key) {
        Some(JsonValue::String(s)) => if trim(s@).len() > 0 {
            Some(trim(s@))
        } else {
            None
        },
        _ => None,
    }
}

/// The text of a scalar: a string that is not blank, as given, or a
/// number's text.
pub open spec fn scalar_text(v: JsonValue) -> Option<Seq<char>> {
    match v {
        JsonValue::String(s) => if trim(s@).len() > 0 {
            Some(s@)
        } else {
            None
        },
        JsonValue::Number(n) => Some(n@),
        _ => None,
    }
}

/// The positive time of member `key`, written as a string or a number.
pub open spec fn frame_time(v: JsonValue, key: Seq<char>) -> Option<u64> {
    match json_get(v, key) {
        Some(x) => match scalar_text(x) {
            Some(t) => match parse_u64_spec(t) {
                Some(n) => if n > 0 {
                    Some(n)
                } else {
                    None
                },
                None => None,
            },
            None => None,
        },
        None => None,
    }
}

/// Member `key` is present but is no positive time.
pub open spec fn frame_time_invalid(v: JsonValue, key: Seq<char>) -> bool {
    json_get(v, key) is Some && frame_time(v, key) is None
}

/// The trimmed text of string member `key`, when it is not blank.
pub fn frame_text_of(v: &JsonValue, key: &str) -> (r: Option<String>)
    ensures
        opt_view(r) == frame_text(*v, key@),
{
    match json_lookup(v, key) {
        Some(JsonValue::String(s)) => {
            let t = trim_text(s.as_str());
            if text_is_empty(t.as_str()) {
                None
            } else {
                Some(t)
            }
        },
        _ => None,
    }
}

/// The text of a scalar (see `scalar_text`).
pub fn scalar_text_of(v: &JsonValue) -> (r: Option<String>)
    ensures
        opt_view(r) == scalar_text(*v),
{
    match v {
        JsonValue::String(s) => {
            let t = trim_text(s.as_str());
            if text_is_empty(t.as_str()) {
                None
            } else {
                Some(copy_string(s))
            }
        },
        JsonValue::Number(n) => Some(copy_string(n)),
        _ => None,
    }
}

/// The positive time of member `key`: none when the member is missing, an
/// adapter error of OKX when it holds no positive time.
pub fn frame_time_of(v: &JsonValue, key: &str) -> (r: Result<Option<u64>>)
    ensures
        frame_time_invalid(*v, key@) ==> (r matches Err(e) && e.is_adapter(
            ExchangeId::Okx,
            "invalid OKX private timestamp"@,
        )),
        !frame_time_invalid(*v, key@) ==> r == Ok::<Option<u64>, Error>(frame_time(*v, key@)),
{
    match json_lookup(v, key) {
        None => Ok(None),
        Some(x) => {
            let parsed = match scalar_text_of(x) {
                Some(t) => parse_u64(t.as_str()),
                None => None,
            };
            match parsed {
                Some(n) => if n > 0 {
                    Ok(Some(n))
                } else {
                    Err(invalid_time())
                },
                None => Err(invalid_time()),
            }
        },
    }
}

fn invalid_time() -> (e: Error)
    ensures
        e.is_adapter(ExchangeId::Okx, "invalid OKX private timestamp"@),
{
    Error::Adapter { exchange: ExchangeId::Okx, message: owned("invalid OKX private timestamp") }
}

/// The adapter error of a record without its identity.
pub fn missing_identity(exchange: ExchangeId) -> (e: Error)
    ensures
        e.is_adapter(exchange, "private account frame missing identity"@),
{
    Error::Adapter { exchange, message: owned("private account frame missing identity") }
}

/// The adapter error of a record without its time.
pub fn missing_timestamp(exchange: ExchangeId) -> (e: Error)
    ensures
        e.is_adapter(exchange, "private account frame missing timestamp"@),
{
    Error::Adapter { exchange, message: owned("private account frame missing timestamp") }
}

/// The first reason for refusal among `rs`, in order.
pub open spec fn first_refusal(rs: Seq<Option<Seq<char>>>) -> Option<Seq<char>>
    decreases rs.len(),
{
    if rs.len() == 0 {
        None
    } else {
        match first_refusal(rs.drop_last()) {
            Some(m) => Some(m),
            None => rs.last(),
        }
    }
}

/// Without a refusal among `rs`, none of them is a refusal.
pub proof fn lemma_no_refusal(rs: Seq<Option<Seq<char>>>)
    ensures
        first_refusal(rs) is None <==> forall|i: int| 0 <= i < rs.len() ==> #[trigger] rs[i] is None,
    decreases rs.len(),
{
    if rs.len() > 0 {
        lemma_no_refusal(rs.drop_last());
        if first_refusal(rs) is None {
            assert forall|i: int| 0 <= i < rs.len() implies #[trigger] rs[i] is None by {
                if i < rs.len() - 1 {
                    assert(rs.drop_last()[i] == rs[i]);
                }
            }
        } else if forall|i: int| 0 <= i < rs.len() ==> #[trigger] rs[i] is None {
            assert forall|i: int| 0 <= i < rs.drop_last().len() implies #[trigger] rs.drop_last()[i] is None by {
                assert(rs.drop_last()[i] == rs[i]);
            }
            assert(rs[rs.len() - 1] is None);
        }
    }
}

/// Reads one private-stream frame of `exchange`: OKX and Binance stream
/// account facts; any other exchange answers `Unsupported`.
pub fn parse_private_account_stream_frame(exchange: ExchangeId, payload: JsonValue) -> (r: Result<
    PrivateAccountStreamFrame,
>)
    ensures
        exchange == ExchangeId::Okx ==> okx::okx_frame_outcome(payload, r),
        exchange == ExchangeId::Binance ==> binance::binance_frame_outcome(payload, r),
        exchange != ExchangeId::Okx && exchange != ExchangeId::Binance ==> (r matches Err(e)
            && e.is_unsupported(exchange, "private_account_stream"@)),
{
    match exchange {
        ExchangeId::Okx => okx::parse_okx_frame(payload),
        ExchangeId::Binance => binance::parse_binance_frame(payload),
        _ => Err(Error::Unsupported { exchange, capability: "private_account_stream" }),
    }
}

} // verus!
