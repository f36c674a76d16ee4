//! Bitget V2 futures: order requests and response mapping.
pub mod requests;
pub mod orders;
pub mod market;
pub mod account;
pub mod trade;


use crate::config::BitgetExchangeConfig;
use crate::text::{copy_string, owned};
use vstd::prelude::*;

verus! {

/// The product type Bitget requests carry: the configured one, else
/// `USDT-FUTURES`.
pub fn bitget_product_type(config: &BitgetExchangeConfig) -> (r: String)
    ensures
        r@ == match config.product_type {
            Some(p) => p@,
            None => "USDT-FUTURES"@,
        },
{
    match &config.product_type {
        Some(p) => copy_string(p),
        None => owned("USDT-FUTURES"),
    }
}

} // verus!
