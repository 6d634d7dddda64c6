//! Ticker administration: the one-shot creation of a new traded asset,
//! restricted to the administrative authority.

use vstd::prelude::*;

use crate::errors::TickerError;
use crate::order::types::{pubkey_eq, Pubkey};
use crate::Registry;

verus! {

/// Notification record of a created ticker.
pub struct TickerCreated {
    pub ticker: String,
}

/// Creates a new ticker symbol. Only the administrative authority may do
/// so; the asset's mint account itself is created by the platform under
/// the symbol's derived address. `_decimals` is carried to that platform
/// step and plays no part in the decision here.
pub fn create_ticker(registry: &Registry, payer: Pubkey, symbol: String, _decimals: u8) -> (r:
    Result<TickerCreated, TickerError>)
    ensures
        payer@ != registry.authority@ ==> r is Err && r->Err_0 == TickerError::Unauthorized,
        payer@ == registry.authority@ ==> r is Ok && r->Ok_0.ticker@ == symbol@,
{
    if !pubkey_eq(&payer, &registry.authority) {
        return Err(TickerError::Unauthorized);
    }
    Ok(TickerCreated { ticker: symbol })
}

} // verus!
