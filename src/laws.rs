use vstd::prelude::*;
use crate::decimal::{dec, fits_units, Dec};
use crate::ids::{TokenId, TokenIds};
use crate::market::{intents_of, pending_at, reconcile_result, reconcile_slot, Market};
use crate::market_types::{OpenOrder, OpenOrderStatus, Order, OrderRequest};
use crate::registry::step_market;
use crate::ws_types::{ChannelData, UserData};

verus! {

/// The side record after reconciling against each desired price in turn.
pub open spec fn slot_run(cur: Option<OpenOrder>, prices: Seq<Dec>) -> Option<OpenOrder>
    decreases prices.len(),
{
    if prices.len() == 0 {
        cur
    } else {
        slot_run(reconcile_slot(cur, prices[0]), prices.subrange(1, prices.len() as int))
    }
}

/// The intents emitted while reconciling a side against each desired price in turn.
pub open spec fn slot_run_intents(
    cur: Option<OpenOrder>,
    prices: Seq<Dec>,
    size: Dec,
    token_id: TokenId,
) -> Seq<OrderRequest>
    decreases prices.len(),
{
    if prices.len() == 0 {
        seq![]
    } else {
        intents_of(reconcile_result(cur, prices[0], size, token_id)) + slot_run_intents(
            reconcile_slot(cur, prices[0]),
            prices.subrange(1, prices.len() as int),
            size,
            token_id,
        )
    }
}

/// The number of placements among some intents.
pub open spec fn count_places(s: Seq<OrderRequest>) -> nat
    decreases s.len(),
{
    if s.len() == 0 {
        0
    } else {
        (if s[0] is PlaceOrder {
            1nat
        } else {
            0nat
        }) + count_places(s.subrange(1, s.len() as int))
    }
}

proof fn lemma_count_places_append(a: Seq<OrderRequest>, b: Seq<OrderRequest>)
    ensures
        count_places(a + b) == count_places(a) + count_places(b),
    decreases a.len(),
{
    if a.len() == 0 {
        assert(a + b =~= b);
    } else {
        assert((a + b).subrange(1, (a + b).len() as int) =~= a.subrange(1, a.len() as int) + b);
        lemma_count_places_append(a.subrange(1, a.len() as int), b);
    }
}

proof fn lemma_pending_stays_silent(cur: Option<OpenOrder>, prices: Seq<Dec>, size: Dec, token_id: TokenId)
    requires
        cur is Some,
        cur->0.status is Pending,
    ensures
        slot_run(cur, prices) == cur,
        slot_run_intents(cur, prices, size, token_id) == Seq::<OrderRequest>::empty(),
    decreases prices.len(),
{
    if prices.len() > 0 {
        lemma_pending_stays_silent(cur, prices.subrange(1, prices.len() as int), size, token_id);
        assert(intents_of(reconcile_result(cur, prices[0], size, token_id)) =~= seq![]);
        assert(slot_run_intents(cur, prices, size, token_id) =~= Seq::<OrderRequest>::empty());
    }
}

/// A side never has two submissions outstanding: over any run of ticks with no
/// acknowledgement in between, reconciling a side places at most one order, and
/// a side awaiting confirmation emits nothing and stays as it is.
pub proof fn lemma_at_most_one_place_per_side(
    cur: Option<OpenOrder>,
    prices: Seq<Dec>,
    size: Dec,
    token_id: TokenId,
)
    ensures
        count_places(slot_run_intents(cur, prices, size, token_id)) <= 1,
        (cur is Some && cur->0.status is Pending) ==> slot_run(cur, prices) == cur
            && slot_run_intents(cur, prices, size, token_id).len() == 0,
    decreases prices.len(),
{
    if cur is Some && cur->0.status is Pending {
        lemma_pending_stays_silent(cur, prices, size, token_id);
    }
    if prices.len() > 0 {
        let first = intents_of(reconcile_result(cur, prices[0], size, token_id));
        let next = reconcile_slot(cur, prices[0]);
        let rest = prices.subrange(1, prices.len() as int);
        lemma_count_places_append(first, slot_run_intents(next, rest, size, token_id));
        lemma_at_most_one_place_per_side(next, rest, size, token_id);
        let order = Order { price: prices[0], size, token_id };
        match reconcile_result(cur, prices[0], size, token_id) {
            Some(c) => {
                assert(next == Some(pending_at(prices[0])));
                lemma_pending_stays_silent(next, rest, size, token_id);
                assert(count_places(slot_run_intents(next, rest, size, token_id)) == 0);
                match c.cancel {
                    Some(id) => {
                        assert(first =~= seq![OrderRequest::CancelOrder(id), OrderRequest::PlaceOrder(order)]);
                        assert(first.subrange(1, 2) =~= seq![OrderRequest::PlaceOrder(order)]);
                        assert(first.subrange(1, 2).subrange(1, 1) =~= Seq::<OrderRequest>::empty());
                        assert(count_places(first.subrange(1, 2)) == 1);
                        assert(count_places(first) == 1);
                    },
                    None => {
                        assert(first =~= seq![OrderRequest::PlaceOrder(order)]);
                        assert(first.subrange(1, 1) =~= Seq::<OrderRequest>::empty());
                        assert(count_places(first) == 1);
                    },
                }
            },
            None => {
                assert(first =~= Seq::<OrderRequest>::empty());
            },
        }
    }
}

/// No churn: a side confirmed at price `P` stays as it is and emits nothing
/// over any run of ticks whose desired price is `P`.
pub proof fn lemma_no_churn_on_stable_price(
    order: OpenOrder,
    prices: Seq<Dec>,
    size: Dec,
    token_id: TokenId,
)
    requires
        order.status is Placed,
        forall|i: int| 0 <= i < prices.len() ==> prices[i] == order.price,
    ensures
        slot_run(Some(order), prices) == Some(order),
        slot_run_intents(Some(order), prices, size, token_id) == Seq::<OrderRequest>::empty(),
    decreases prices.len(),
{
    if prices.len() > 0 {
        let rest = prices.subrange(1, prices.len() as int);
        assert forall|i: int| 0 <= i < rest.len() implies rest[i] == order.price by {
            assert(rest[i] == prices[i + 1]);
        }
        lemma_no_churn_on_stable_price(order, rest, size, token_id);
        assert(intents_of(reconcile_result(Some(order), prices[0], size, token_id)) =~= seq![]);
        assert(slot_run_intents(Some(order), prices, size, token_id) =~= Seq::<OrderRequest>::empty());
    }
}

/// Repricing a confirmed order cancels it and then places the new price, and
/// leaves the side awaiting confirmation at the new price.
pub proof fn lemma_reprice_is_cancel_then_place(
    order: OpenOrder,
    id: String,
    new_price: Dec,
    size: Dec,
    token_id: TokenId,
)
    requires
        order.status == OpenOrderStatus::Placed(id),
        order.price != new_price,
    ensures
        intents_of(reconcile_result(Some(order), new_price, size, token_id)) == seq![
            OrderRequest::CancelOrder(id),
            OrderRequest::PlaceOrder(Order { price: new_price, size, token_id }),
        ],
        reconcile_slot(Some(order), new_price) == Some(pending_at(new_price)),
{
    assert(intents_of(reconcile_result(Some(order), new_price, size, token_id)) =~= seq![
        OrderRequest::CancelOrder(id),
        OrderRequest::PlaceOrder(Order { price: new_price, size, token_id }),
    ]);
}

/// The exposure cap suppresses one side only: above the cap the ask quotes at
/// the best price and the bid keeps its spread; below the negative cap the bid
/// quotes at the best price and the ask keeps its spread.
pub proof fn lemma_cap_suppresses_one_side(m: Market)
    requires
        m.config.max_exposure.val() >= 0,
    ensures
        m.exposure.val() > m.config.max_exposure.val() ==> m.spreads_spec().ask == dec(0)
            && m.spreads_spec().bid == m.config.spread,
        m.exposure.val() < -m.config.max_exposure.val() ==> m.spreads_spec().bid == dec(0)
            && m.spreads_spec().ask == m.config.spread,
{
}

/// A market after a sequence of events, in order.
pub open spec fn event_run(m: Market, evs: Seq<ChannelData>) -> Market
    decreases evs.len(),
{
    if evs.len() == 0 {
        m
    } else {
        step_market(event_run(m, evs.drop_last()), evs.last())
    }
}

/// The signed total of the fills among some events: bid-token fills count up,
/// the others down.
pub open spec fn signed_fills(t: TokenIds, evs: Seq<ChannelData>) -> int
    decreases evs.len(),
{
    if evs.len() == 0 {
        0
    } else {
        signed_fills(t, evs.drop_last()) + match evs.last() {
            ChannelData::UserData(UserData::Filled(f)) => if f.token_id == t.buy_token {
                f.amount.val()
            } else {
                -f.amount.val()
            },
            _ => 0,
        }
    }
}

/// Whether every fill among some events has a non-negative amount.
pub open spec fn fills_non_negative(evs: Seq<ChannelData>) -> bool {
    forall|i: int|
        0 <= i < evs.len() ==> match #[trigger] evs[i] {
            ChannelData::UserData(UserData::Filled(f)) => f.amount.val() >= 0,
            _ => true,
        }
}

/// Exposure is a running sum of fills: after any sequence of events, however
/// fills interleave with ticks, placements and cancellations, the exposure has
/// moved by exactly the bid-token fills minus the ask-token fills, provided
/// every running total can be held.
pub proof fn lemma_exposure_tracks_fills(m: Market, evs: Seq<ChannelData>)
    requires
        fills_non_negative(evs),
        forall|i: int|
            0 <= i <= evs.len() ==> fits_units(
                m.exposure.val() + #[trigger] signed_fills(m.token_ids, evs.subrange(0, i)),
            ),
    ensures
        event_run(m, evs).exposure.val() == m.exposure.val() + signed_fills(m.token_ids, evs),
        event_run(m, evs).token_ids == m.token_ids,
    decreases evs.len(),
{
    if evs.len() > 0 {
        let prev = evs.drop_last();
        assert forall|i: int| 0 <= i < prev.len() implies match #[trigger] prev[i] {
            ChannelData::UserData(UserData::Filled(f)) => f.amount.val() >= 0,
            _ => true,
        } by {
            assert(prev[i] == evs[i]);
        }
        assert forall|i: int| 0 <= i <= prev.len() implies fits_units(
            m.exposure.val() + #[trigger] signed_fills(m.token_ids, prev.subrange(0, i)),
        ) by {
            assert(prev.subrange(0, i) =~= evs.subrange(0, i));
        }
        lemma_exposure_tracks_fills(m, prev);
        assert(evs.subrange(0, evs.len() as int) =~= evs);
        let last = evs.last();
        assert(evs[evs.len() - 1] == last);
        let before = event_run(m, prev);
        match last {
            ChannelData::UserData(UserData::Filled(f)) => {
                assert(fits_units(
                    m.exposure.val() + signed_fills(m.token_ids, evs.subrange(0, evs.len() as int)),
                ));
                assert(f.amount.val() >= 0);
                assert(before.fill_fits(f));
            },
            _ => {},
        }
    }
}

} // verus!
