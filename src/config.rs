use vstd::prelude::*;
use crate::decimal::Dec;

verus! {

/// The fixed configuration of one quoted market.
#[derive(Clone, Debug)]
pub struct MarketConfig {
    /// Human identifier of the market, resolved to instrument identifiers at startup.
    pub slug: String,
    /// Size of every order placed.
    pub order_size: Dec,
    /// Distance of each quote from the best price.
    pub spread: Dec,
    /// Largest absolute exposure before the inventory-increasing side stops improving.
    pub max_exposure: Dec,
}

} // verus!
