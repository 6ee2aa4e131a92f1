use vstd::prelude::*;
use crate::decimal::Dec;
use crate::ids::{MarketId, TokenId};

verus! {

/// A side of a market's quote.
#[derive(Clone, Copy, Debug, PartialEq, Eq, Structural)]
pub enum OrderSide {
    Buy,
    Sell,
}

/// A private order-lifecycle acknowledgement.
#[derive(Clone, Debug)]
pub enum UserData {
    Placed(PlacedOrder),
    Cancelled(String),
    Filled(OrderFill),
}

/// An incremental fill of `amount` on order `order_id`, which buys `token_id`.
#[derive(Clone, Debug)]
pub struct OrderFill {
    pub order_id: String,
    pub amount: Dec,
    pub token_id: TokenId,
}

/// The exchange's confirmation that an order for `token_id` rests at `price`.
#[derive(Clone, Debug)]
pub struct PlacedOrder {
    pub order_id: String,
    pub price: Dec,
    pub token_id: TokenId,
}

/// A market-data tick.
#[derive(Clone, Copy, Debug, PartialEq, Eq, Structural)]
pub struct MarketData {
    pub best_bid: Dec,
    pub best_ask: Dec,
}

/// One event of the merged stream, tagged with its market.
#[derive(Clone, Debug)]
pub struct ChannelMessage {
    pub market_id: MarketId,
    pub channel_data: ChannelData,
}

/// The payload of an event.
#[derive(Clone, Debug)]
pub enum ChannelData {
    UserData(UserData),
    MarketData(MarketData),
}

} // verus!
