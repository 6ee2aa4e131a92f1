use vstd::prelude::*;
use ahash::{AHashMap, RandomState};
use crate::ids::MarketId;
use crate::market::Market;
use crate::market_types::{NewPrices, OrderRequest};
use crate::ws_types::{ChannelData, ChannelMessage, UserData};

verus! {

#[verifier::external_type_specification]
#[verifier::external_body]
#[verifier::reject_recursive_types(K)]
#[verifier::reject_recursive_types(V)]
#[verifier::reject_recursive_types(S)]
pub struct ExAHashMap<K, V, S>(AHashMap<K, V, S>);

#[verifier::external_type_specification]
#[verifier::external_body]
pub struct ExRandomState(RandomState);

/// The entries of a market index.
pub uninterp spec fn index_entries(m: AHashMap<MarketId, usize>) -> Map<MarketId, usize>;

/// Relies on ahash::AHashMap::new: the new map has no entries.
#[verifier::external_body]
fn index_new() -> (r: AHashMap<MarketId, usize>)
    ensures
        index_entries(r).dom() == Set::<MarketId>::empty(),
{
    AHashMap::new()
}

/// Relies on ahash::AHashMap::get: the value stored under the key, if any.
#[verifier::external_body]
fn index_get(m: &AHashMap<MarketId, usize>, k: &MarketId) -> (r: Option<usize>)
    ensures
        r == (if index_entries(*m).contains_key(*k) {
            Some(index_entries(*m)[*k])
        } else {
            None
        }),
{
    m.get(k).copied()
}

/// Relies on ahash::AHashMap::insert: the key now maps to the value, and every
/// other entry stays.
#[verifier::external_body]
fn index_insert(m: &mut AHashMap<MarketId, usize>, k: MarketId, v: usize)
    ensures
        index_entries(*final(m)) == index_entries(*old(m)).insert(k, v),
{
    m.insert(k, v);
}

/// What a market becomes on an event.
pub open spec fn step_market(m: Market, d: ChannelData) -> Market {
    match d {
        ChannelData::MarketData(md) => {
            let p = NewPrices { best_bid: md.best_bid, best_ask: md.best_ask };
            if m.quote_fits(p) {
                m.after_quote(p)
            } else {
                m
            }
        },
        ChannelData::UserData(UserData::Placed(po)) => m.after_placed(po),
        ChannelData::UserData(UserData::Cancelled(id)) => m.after_cancelled(id@),
        ChannelData::UserData(UserData::Filled(f)) => if m.fill_fits(f) {
            m.after_fill(f)
        } else {
            m
        },
    }
}

/// The intents an event produces on a market: a tick's reconcile intents, or
/// the cancellation of an order that a placement acknowledgement superseded.
pub open spec fn step_intents(m: Market, d: ChannelData) -> Seq<OrderRequest> {
    match d {
        ChannelData::MarketData(md) => {
            let p = NewPrices { best_bid: md.best_bid, best_ask: md.best_ask };
            if m.quote_fits(p) {
                m.quote_intents(p)
            } else {
                seq![]
            }
        },
        ChannelData::UserData(UserData::Placed(po)) => match m.superseded_by(po) {
            Some(id) => seq![OrderRequest::CancelOrder(id)],
            None => seq![],
        },
        ChannelData::UserData(_) => seq![],
    }
}

/// The markets that a list of startup resolutions adds to `acc`, in order: each
/// resolved market under its identifier, a later one replacing an earlier one;
/// failed resolutions add nothing.
pub open spec fn add_resolved(
    acc: Map<MarketId, Market>,
    s: Seq<Result<(Market, MarketId), String>>,
) -> Map<MarketId, Market>
    decreases s.len(),
{
    if s.len() == 0 {
        acc
    } else {
        let next = match s[0] {
            Ok((m, id)) => acc.insert(id, m),
            Err(_) => acc,
        };
        add_resolved(next, s.subrange(1, s.len() as int))
    }
}

/// The quoted markets, each found by its market identifier.
pub struct MarketRegistry {
    index: AHashMap<MarketId, usize>,
    markets: Vec<Market>,
}

impl View for MarketRegistry {
    type V = Map<MarketId, Market>;

    closed spec fn view(&self) -> Map<MarketId, Market> {
        Map::new(
            |k: MarketId| index_entries(self.index).contains_key(k),
            |k: MarketId| self.markets@[index_entries(self.index)[k] as int],
        )
    }
}

impl MarketRegistry {
    /// Every identifier points at its own market.
    pub closed spec fn wf(&self) -> bool {
        &&& forall|k: MarketId|
            #[trigger] index_entries(self.index).contains_key(k) ==> index_entries(self.index)[k]
                < self.markets@.len()
        &&& forall|k1: MarketId, k2: MarketId|
            #![trigger index_entries(self.index)[k1], index_entries(self.index)[k2]]
            index_entries(self.index).contains_key(k1) && index_entries(self.index).contains_key(
                k2,
            ) && k1 != k2 ==> index_entries(self.index)[k1] != index_entries(self.index)[k2]
    }

    /// The number of markets held, replaced ones included.
    pub closed spec fn count(&self) -> nat {
        self.markets@.len()
    }

    /// Whether another market can still be added.
    pub open spec fn has_room(&self) -> bool {
        self.count() < usize::MAX
    }

    /// A registry with no markets.
    pub fn new() -> (r: MarketRegistry)
        ensures
            r.wf(),
            r@ == Map::<MarketId, Market>::empty(),
            r.count() == 0,
    {
        let r = MarketRegistry { index: index_new(), markets: Vec::new() };
        assert(r@ =~= Map::<MarketId, Market>::empty());
        r
    }

    /// The number of markets held, replaced ones included.
    pub fn len(&self) -> (r: usize)
        ensures
            r == self.count(),
    {
        self.markets.len()
    }

    /// Adds a market under its identifier, replacing any market held there.
    pub fn add_market(&mut self, market_id: MarketId, market: Market)
        requires
            old(self).wf(),
            old(self).has_room(),
        ensures
            final(self).wf(),
            final(self)@ == old(self)@.insert(market_id, market),
            final(self).count() == old(self).count() + 1,
    {
        let i = self.markets.len();
        self.markets.push(market);
        index_insert(&mut self.index, market_id, i);
        assert(self@ =~= old(self)@.insert(market_id, market));
    }

    /// Builds the registry from the startup resolutions, in order: a failed
    /// resolution leaves its market out and the others in.
    pub fn from_resolutions(results: Vec<Result<(Market, MarketId), String>>) -> (r: MarketRegistry)
        ensures
            r.wf(),
            r@ == add_resolved(Map::empty(), results@),
    {
        let n = results.len();
        let mut registry = MarketRegistry::new();
        let mut rest = results;
        while rest.len() > 0
            invariant
                registry.wf(),
                registry.count() + rest@.len() <= n,
                n == results@.len(),
                add_resolved(registry@, rest@) == add_resolved(Map::empty(), results@),
            decreases rest@.len(),
        {
            let ghost before = rest@;
            let first = rest.remove(0);
            assert(rest@ =~= before.subrange(1, before.len() as int));
            match first {
                Ok((market, market_id)) => {
                    registry.add_market(market_id, market);
                },
                Err(_) => {},
            }
        }
        registry
    }

    /// Routes an event to its market and returns the intents to issue, in
    /// order. Events for unknown markets, ticks whose quote cannot be held and
    /// malformed or unrepresentable fills change nothing and produce nothing.
    pub fn handle_message(&mut self, msg: ChannelMessage) -> (r: Vec<OrderRequest>)
        requires
            old(self).wf(),
        ensures
            final(self).wf(),
            old(self)@.contains_key(msg.market_id) ==> {
                &&& final(self)@ == old(self)@.insert(
                    msg.market_id,
                    step_market(old(self)@[msg.market_id], msg.channel_data),
                )
                &&& r@ == step_intents(old(self)@[msg.market_id], msg.channel_data)
            },
            !old(self)@.contains_key(msg.market_id) ==> final(self)@ == old(self)@ && r@.len() == 0,
    {
        let mut out: Vec<OrderRequest> = Vec::new();
        match index_get(&self.index, &msg.market_id) {
            None => {
                return out;
            },
            Some(i) => {
                let ghost m0 = self.markets@[i as int];
                let market = &mut self.markets[i];
                match msg.channel_data {
                    ChannelData::MarketData(md) => {
                        let p = NewPrices { best_bid: md.best_bid, best_ask: md.best_ask };
                        if quote_fits_exec(market, p) {
                            match market.price_update(p) {
                                Some(v) => {
                                    out = v;
                                },
                                None => {},
                            }
                        }
                    },
                    ChannelData::UserData(UserData::Placed(po)) => {
                        match market.check_placed_order(po) {
                            Some(id) => out.push(OrderRequest::CancelOrder(id)),
                            None => {},
                        }
                    },
                    ChannelData::UserData(UserData::Cancelled(id)) => {
                        market.order_canceled(id);
                    },
                    ChannelData::UserData(UserData::Filled(f)) => {
                        if fill_fits_exec(market, &f) {
                            market.order_filled(f);
                        }
                    },
                }
                proof {
                    assert(self.markets@ == old(self).markets@.update(
                        i as int,
                        step_market(m0, msg.channel_data),
                    ));
                    assert(self@ =~= old(self)@.insert(msg.market_id, step_market(m0, msg.channel_data)));
                }
                out
            },
        }
    }
}

/// Whether both desired prices of a tick can be held.
fn quote_fits_exec(m: &Market, p: NewPrices) -> (r: bool)
    ensures
        r == m.quote_fits(p),
{
    let spreads = m.get_spreads();
    let bid: i128 = p.best_bid.units as i128 - spreads.bid.units as i128;
    let ask: i128 = crate::decimal::UNITS_PER_ONE as i128 - p.best_ask.units as i128
        - spreads.ask.units as i128;
    i64::MIN as i128 <= bid && bid <= i64::MAX as i128 && i64::MIN as i128 <= ask && ask
        <= i64::MAX as i128
}

/// Whether a fill is well formed and the exposure after it can be held.
fn fill_fits_exec(m: &Market, f: &crate::ws_types::OrderFill) -> (r: bool)
    ensures
        r == m.fill_fits(*f),
{
    let amount: i128 = f.amount.units as i128;
    let e: i128 = if f.token_id == m.token_ids.buy_token {
        m.exposure.units as i128 + amount
    } else {
        m.exposure.units as i128 - amount
    };
    amount >= 0 && i64::MIN as i128 <= e && e <= i64::MAX as i128
}

} // verus!
