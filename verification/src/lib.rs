//! Unified exchange SDK core: instruments, requests, responses and the
//! mapping of exchange payloads into one model.
pub mod text;
pub mod exchange;
pub mod instrument;
pub mod margin;
pub mod error;
pub mod failure;
pub mod json;
pub mod account;
pub mod order;
pub mod trade;
pub mod fill;
pub mod platform;
pub mod position;
pub mod market;
pub mod config;
pub mod capability;
pub mod preparation;
pub mod binance;
pub mod okx;
pub mod public_market;
pub mod public_instrument;
pub mod bitget;
pub mod hyperliquid;
pub mod bybit;
pub mod gate;
pub mod private_account_stream;
pub mod naming;
