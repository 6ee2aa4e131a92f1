use vstd::prelude::*;
use crate::decimal::Dec;
use crate::ids::TokenId;

verus! {

/// A limit order to submit: buy `size` of `token_id` at `price`.
#[derive(Clone, Copy, Debug, PartialEq, Eq, Structural)]
pub struct Order {
    pub price: Dec,
    pub size: Dec,
    pub token_id: TokenId,
}

impl Order {
    pub fn new(price: Dec, size: Dec, token_id: TokenId) -> (r: Order)
        ensures
            r == (Order { price, size, token_id }),
    {
        Order { price, size, token_id }
    }
}

/// An intent handed to the execution boundary.
#[derive(Clone, Debug)]
pub enum OrderRequest {
    PlaceOrder(Order),
    CancelOrder(String),
}

/// Whether the exchange has confirmed a resting order yet.
#[derive(Clone, Debug)]
pub enum OpenOrderStatus {
    /// Submitted; the exchange identifier is not known yet.
    Pending,
    /// Confirmed under the given exchange identifier.
    Placed(String),
}

/// The order believed to rest on one side of a market.
#[derive(Clone, Debug)]
pub struct OpenOrder {
    pub price: Dec,
    pub status: OpenOrderStatus,
    pub matched: Dec,
}

impl OpenOrder {
    /// A fresh record with nothing matched yet.
    pub fn default(price: Dec, status: OpenOrderStatus) -> (r: OpenOrder)
        ensures
            r == (OpenOrder { price, status, matched: Dec { units: 0 } }),
    {
        OpenOrder { price, status, matched: Dec { units: 0 } }
    }
}

/// The spread applied to each side of a quote.
#[derive(Clone, Copy, Debug, PartialEq, Eq, Structural)]
pub struct Spreads {
    pub bid: Dec,
    pub ask: Dec,
}

/// The best bid and best ask of a market.
#[derive(Clone, Copy, Debug, PartialEq, Eq, Structural)]
pub struct NewPrices {
    pub best_bid: Dec,
    pub best_ask: Dec,
}

} // verus!
