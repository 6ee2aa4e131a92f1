use market_maker::config::MarketConfig;
use market_maker::decimal::Dec;
use market_maker::ids::{TokenId, TokenIds};
use market_maker::market::Market;
use market_maker::market_types::{NewPrices, OpenOrder, OpenOrderStatus, Order, OrderRequest};
use market_maker::ws_types::{OrderFill, PlacedOrder};

fn d(units: i64) -> Dec {
    Dec::from_units(units)
}

fn buy() -> TokenId {
    TokenId::from_u64(11)
}

fn sell() -> TokenId {
    TokenId::from_u64(22)
}

fn market(exposure: i64) -> Market {
    let config = MarketConfig {
        slug: String::from("some-market"),
        order_size: d(10_000_000),
        spread: d(20_000),
        max_exposure: d(100_000_000),
    };
    let mut m = Market::new(config, TokenIds::new(buy(), sell()));
    m.exposure = d(exposure);
    m
}

fn prices(bid: i64, ask: i64) -> NewPrices {
    NewPrices { best_bid: d(bid), best_ask: d(ask) }
}

fn placed(id: &str, price: i64) -> Option<OpenOrder> {
    Some(OpenOrder::default(d(price), OpenOrderStatus::Placed(String::from(id))))
}

fn is_pending_at(slot: &Option<OpenOrder>, price: i64) -> bool {
    match slot {
        Some(o) => matches!(o.status, OpenOrderStatus::Pending) && o.price == d(price),
        None => false,
    }
}

fn is_placed(slot: &Option<OpenOrder>, id: &str, price: i64) -> bool {
    match slot {
        Some(o) => match &o.status {
            OpenOrderStatus::Placed(x) => x == id && o.price == d(price),
            OpenOrderStatus::Pending => false,
        },
        None => false,
    }
}

fn place_of(r: &OrderRequest) -> Option<Order> {
    match r {
        OrderRequest::PlaceOrder(o) => Some(*o),
        OrderRequest::CancelOrder(_) => None,
    }
}

fn cancel_of(r: &OrderRequest) -> Option<String> {
    match r {
        OrderRequest::CancelOrder(id) => Some(id.clone()),
        OrderRequest::PlaceOrder(_) => None,
    }
}

#[test]
fn fresh_market_places_both_sides() {
    let mut m = market(0);
    let reqs = m.price_update(prices(400_000, 450_000)).expect("two placements");
    assert_eq!(reqs.len(), 2);
    assert_eq!(place_of(&reqs[0]), Some(Order::new(d(530_000), d(10_000_000), sell())));
    assert_eq!(place_of(&reqs[1]), Some(Order::new(d(380_000), d(10_000_000), buy())));
    assert!(is_pending_at(&m.ask_order, 530_000));
    assert!(is_pending_at(&m.bid_order, 380_000));
}

#[test]
fn over_cap_tightens_ask_only() {
    let mut m = market(150_000_000);
    let spreads = m.get_spreads();
    assert_eq!(spreads.ask, d(0));
    assert_eq!(spreads.bid, d(20_000));
    let reqs = m.price_update(prices(400_000, 450_000)).expect("two placements");
    assert_eq!(place_of(&reqs[0]).map(|o| o.price), Some(d(550_000)));
    assert_eq!(place_of(&reqs[1]).map(|o| o.price), Some(d(380_000)));
}

#[test]
fn under_negative_cap_tightens_bid_only() {
    let m = market(-150_000_000);
    let spreads = m.get_spreads();
    assert_eq!(spreads.bid, d(0));
    assert_eq!(spreads.ask, d(20_000));
}

#[test]
fn at_cap_keeps_both_spreads() {
    let m = market(100_000_000);
    let spreads = m.get_spreads();
    assert_eq!(spreads.bid, d(20_000));
    assert_eq!(spreads.ask, d(20_000));
}

#[test]
fn pending_side_is_not_quoted_again() {
    let mut m = market(0);
    assert!(m.price_update(prices(400_000, 450_000)).is_some());
    assert!(m.price_update(prices(410_000, 440_000)).is_none());
    assert!(m.price_update(prices(300_000, 600_000)).is_none());
    assert!(is_pending_at(&m.bid_order, 380_000));
    assert!(is_pending_at(&m.ask_order, 530_000));
}

#[test]
fn stable_price_causes_no_churn() {
    let mut m = market(0);
    m.bid_order = placed("b1", 380_000);
    m.ask_order = placed("a1", 530_000);
    for _ in 0..3 {
        assert!(m.price_update(prices(400_000, 450_000)).is_none());
    }
    assert!(is_placed(&m.bid_order, "b1", 380_000));
    assert!(is_placed(&m.ask_order, "a1", 530_000));
}

#[test]
fn reprice_cancels_then_places() {
    let mut slot = placed("old", 380_000);
    let r = Market::check_order(&mut slot, d(390_000), d(10_000_000), buy()).expect("a replacement");
    assert_eq!(r.cancel, Some(String::from("old")));
    assert_eq!(r.place, Some(Order::new(d(390_000), d(10_000_000), buy())));
    assert!(is_pending_at(&slot, 390_000));
}

#[test]
fn check_order_on_empty_side_places() {
    let mut slot: Option<OpenOrder> = None;
    let r = Market::check_order(&mut slot, d(250_000), d(5), sell()).expect("a placement");
    assert_eq!(r.cancel, None);
    assert_eq!(r.place, Some(Order::new(d(250_000), d(5), sell())));
    assert!(is_pending_at(&slot, 250_000));
}

#[test]
fn check_order_on_pending_side_does_nothing() {
    let mut slot = Some(OpenOrder::default(d(100), OpenOrderStatus::Pending));
    assert!(Market::check_order(&mut slot, d(200), d(5), sell()).is_none());
    assert!(is_pending_at(&slot, 100));
}

#[test]
fn tick_reprices_ask_before_bid() {
    let mut m = market(0);
    m.bid_order = placed("b1", 370_000);
    m.ask_order = placed("a1", 520_000);
    let reqs = m.price_update(prices(400_000, 450_000)).expect("four intents");
    assert_eq!(reqs.len(), 4);
    assert_eq!(cancel_of(&reqs[0]), Some(String::from("a1")));
    assert_eq!(place_of(&reqs[1]).map(|o| o.price), Some(d(530_000)));
    assert_eq!(cancel_of(&reqs[2]), Some(String::from("b1")));
    assert_eq!(place_of(&reqs[3]).map(|o| o.price), Some(d(380_000)));
}

#[test]
fn stale_ack_is_superseded_on_next_tick() {
    let mut m = market(0);
    m.bid_order = placed("b1", 380_000);
    m.ask_order = placed("a1", 530_000);
    // the market moves: the bid is repriced to 0.39 locally
    let reqs = m.price_update(prices(410_000, 450_000)).expect("a bid replacement");
    assert_eq!(reqs.len(), 2);
    assert!(is_pending_at(&m.bid_order, 390_000));
    // a late acknowledgement for the 0.38 order arrives
    let ack = PlacedOrder { order_id: String::from("b1"), price: d(380_000), token_id: buy() };
    assert_eq!(m.check_placed_order(ack), None);
    assert!(is_placed(&m.bid_order, "b1", 380_000));
    // the next tick notices the stale price at once
    let reqs = m.price_update(prices(410_000, 450_000)).expect("a bid replacement");
    assert_eq!(reqs.len(), 2);
    assert_eq!(cancel_of(&reqs[0]), Some(String::from("b1")));
    assert_eq!(place_of(&reqs[1]), Some(Order::new(d(390_000), d(10_000_000), buy())));
}

#[test]
fn ack_at_matching_price_confirms_pending() {
    let mut m = market(0);
    assert!(m.price_update(prices(400_000, 450_000)).is_some());
    let ack = PlacedOrder { order_id: String::from("a7"), price: d(530_000), token_id: sell() };
    assert_eq!(m.check_placed_order(ack), None);
    assert!(is_placed(&m.ask_order, "a7", 530_000));
    assert!(is_pending_at(&m.bid_order, 380_000));
}

#[test]
fn ack_over_placed_order_returns_its_id() {
    let mut m = market(0);
    m.ask_order = placed("a1", 530_000);
    let ack = PlacedOrder { order_id: String::from("a2"), price: d(540_000), token_id: sell() };
    assert_eq!(m.check_placed_order(ack), Some(String::from("a1")));
    assert!(is_placed(&m.ask_order, "a2", 540_000));
}

#[test]
fn ack_on_empty_side_records_placed() {
    let mut m = market(0);
    let ack = PlacedOrder { order_id: String::from("b9"), price: d(300_000), token_id: buy() };
    assert_eq!(m.check_placed_order(ack), None);
    assert!(is_placed(&m.bid_order, "b9", 300_000));
    assert!(m.ask_order.is_none());
}

#[test]
fn cancel_clears_matching_side_only() {
    let mut m = market(0);
    m.bid_order = placed("b1", 380_000);
    m.ask_order = placed("a1", 530_000);
    m.order_canceled(String::from("a1"));
    assert!(m.ask_order.is_none());
    assert!(is_placed(&m.bid_order, "b1", 380_000));
    m.order_canceled(String::from("b1"));
    assert!(m.bid_order.is_none());
}

#[test]
fn unknown_cancel_is_ignored() {
    let mut m = market(0);
    m.bid_order = placed("b1", 380_000);
    m.order_canceled(String::from("zz"));
    assert!(is_placed(&m.bid_order, "b1", 380_000));
}

#[test]
fn full_ask_fill_clears_side_and_lowers_exposure() {
    let mut m = market(0);
    m.ask_order = placed("a1", 530_000);
    m.order_filled(OrderFill { order_id: String::from("a1"), amount: d(10_000_000), token_id: sell() });
    assert!(m.ask_order.is_none());
    assert_eq!(m.exposure, d(-10_000_000));
}

#[test]
fn partial_bid_fill_accumulates() {
    let mut m = market(0);
    m.bid_order = placed("b1", 380_000);
    m.order_filled(OrderFill { order_id: String::from("b1"), amount: d(4_000_000), token_id: buy() });
    assert_eq!(m.exposure, d(4_000_000));
    assert_eq!(m.bid_order.as_ref().map(|o| o.matched), Some(d(4_000_000)));
    m.order_filled(OrderFill { order_id: String::from("b1"), amount: d(6_000_000), token_id: buy() });
    assert!(m.bid_order.is_none());
    assert_eq!(m.exposure, d(10_000_000));
}

#[test]
fn unmatched_fill_still_moves_exposure() {
    let mut m = market(0);
    m.bid_order = placed("b1", 380_000);
    m.order_canceled(String::from("b1"));
    m.order_filled(OrderFill { order_id: String::from("b1"), amount: d(3_000_000), token_id: buy() });
    m.order_filled(OrderFill { order_id: String::from("a1"), amount: d(1_000_000), token_id: sell() });
    assert_eq!(m.exposure, d(2_000_000));
    assert!(m.bid_order.is_none());
}

#[test]
fn order_new_and_open_order_default() {
    let o = Order::new(d(1), d(2), buy());
    assert_eq!(o.price, d(1));
    assert_eq!(o.size, d(2));
    assert_eq!(o.token_id, buy());
    let oo = OpenOrder::default(d(7), OpenOrderStatus::Pending);
    assert_eq!(oo.price, d(7));
    assert_eq!(oo.matched, d(0));
    assert_eq!(Dec::one(), d(1_000_000));
    assert_eq!(Dec::zero(), d(0));
}
