use vstd::prelude::*;

verus! {

/// A 256-bit instrument identifier, as four 64-bit limbs, least significant first.
#[derive(Clone, Copy, Debug, PartialEq, Eq, Structural)]
pub struct TokenId {
    pub limb0: u64,
    pub limb1: u64,
    pub limb2: u64,
    pub limb3: u64,
}

impl TokenId {
    /// The identifier whose value is the given small number.
    pub fn from_u64(v: u64) -> (r: TokenId)
        ensures
            r == (TokenId { limb0: v, limb1: 0, limb2: 0, limb3: 0 }),
    {
        TokenId { limb0: v, limb1: 0, limb2: 0, limb3: 0 }
    }
}

/// A market (condition) identifier: 32 opaque bytes.
pub type MarketId = [u8; 32];

/// The instrument pair of a market: the token bought by the bid side and the
/// complementary token bought by the ask side.
#[derive(Clone, Copy, Debug, PartialEq, Eq, Structural)]
pub struct TokenIds {
    pub buy_token: TokenId,
    pub sell_token: TokenId,
}

impl TokenIds {
    pub fn new(buy_token: TokenId, sell_token: TokenId) -> (r: TokenIds)
        ensures
            r.buy_token == buy_token,
            r.sell_token == sell_token,
    {
        TokenIds { buy_token, sell_token }
    }
}

} // verus!
