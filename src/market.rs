use vstd::prelude::*;
use crate::config::MarketConfig;
use crate::decimal::{dec, fits_units, Dec, UNITS_PER_ONE};
use crate::ids::{TokenId, TokenIds};
use crate::market_types::{NewPrices, OpenOrder, OpenOrderStatus, Order, OrderRequest, Spreads};
use crate::ws_types::{OrderFill, OrderSide, PlacedOrder};

verus! {

/// What reconciling one side decided: an order to place and an order to cancel.
#[derive(Clone, Debug)]
pub struct CheckOrderResult {
    pub place: Option<Order>,
    pub cancel: Option<String>,
}

/// One quoted market: its instruments, the order believed to rest on each side,
/// its running exposure and its configuration.
#[derive(Clone, Debug)]
pub struct Market {
    pub token_ids: TokenIds,
    pub bid_order: Option<OpenOrder>,
    pub ask_order: Option<OpenOrder>,
    pub exposure: Dec,
    pub config: MarketConfig,
}

/// A side record awaiting confirmation of an order at `price`.
pub open spec fn pending_at(price: Dec) -> OpenOrder {
    OpenOrder { price, status: OpenOrderStatus::Pending, matched: dec(0) }
}

/// A side record confirmed by an acknowledgement.
pub open spec fn placed_record(p: PlacedOrder) -> OpenOrder {
    OpenOrder { price: p.price, status: OpenOrderStatus::Placed(p.order_id), matched: dec(0) }
}

/// What a side holds after it is reconciled against `desired`.
pub open spec fn reconcile_slot(cur: Option<OpenOrder>, desired: Dec) -> Option<OpenOrder> {
    match cur {
        None => Some(pending_at(desired)),
        Some(o) => match o.status {
            OpenOrderStatus::Pending => cur,
            OpenOrderStatus::Placed(_) => if o.price == desired {
                cur
            } else {
                Some(pending_at(desired))
            },
        },
    }
}

/// What reconciling a side against `desired` asks to place and cancel.
pub open spec fn reconcile_result(
    cur: Option<OpenOrder>,
    desired: Dec,
    size: Dec,
    token_id: TokenId,
) -> Option<CheckOrderResult> {
    let order = Order { price: desired, size, token_id };
    match cur {
        None => Some(CheckOrderResult { place: Some(order), cancel: None }),
        Some(o) => match o.status {
            OpenOrderStatus::Pending => None,
            OpenOrderStatus::Placed(id) => if o.price == desired {
                None
            } else {
                Some(CheckOrderResult { place: Some(order), cancel: Some(id) })
            },
        },
    }
}

/// The intents of a reconcile result, the cancellation first.
pub open spec fn intents_of(r: Option<CheckOrderResult>) -> Seq<OrderRequest> {
    match r {
        None => seq![],
        Some(c) => {
            let cancels: Seq<OrderRequest> = match c.cancel {
                Some(id) => seq![OrderRequest::CancelOrder(id)],
                None => seq![],
            };
            let places: Seq<OrderRequest> = match c.place {
                Some(o) => seq![OrderRequest::PlaceOrder(o)],
                None => seq![],
            };
            cancels + places
        },
    }
}

/// Whether a side holds a confirmed order with identifier `id`.
pub open spec fn holds_id(slot: Option<OpenOrder>, id: Seq<char>) -> bool {
    match slot {
        Some(o) => match o.status {
            OpenOrderStatus::Placed(x) => x@ == id,
            OpenOrderStatus::Pending => false,
        },
        None => false,
    }
}

/// The identifier of the confirmed order a side holds, if any.
pub open spec fn placed_id(slot: Option<OpenOrder>) -> Option<String> {
    match slot {
        Some(o) => match o.status {
            OpenOrderStatus::Placed(id) => Some(id),
            OpenOrderStatus::Pending => None,
        },
        None => None,
    }
}

/// What a side holds after a placement acknowledgement: the record at the
/// acknowledged price keeps its matched amount and takes the identifier; any
/// other record is replaced by a fresh confirmed one.
pub open spec fn absorb_placed(slot: Option<OpenOrder>, p: PlacedOrder) -> Option<OpenOrder> {
    match slot {
        Some(o) => if o.price == p.price {
            Some(OpenOrder { price: o.price, status: OpenOrderStatus::Placed(p.order_id), matched: o.matched })
        } else {
            Some(placed_record(p))
        },
        None => Some(placed_record(p)),
    }
}

/// What a side holds after a fill of `amount`: cleared once `size` is reached.
pub open spec fn absorb_fill(slot: Option<OpenOrder>, amount: Dec, size: Dec) -> Option<OpenOrder> {
    match slot {
        Some(o) => if o.matched.val() + amount.val() >= size.val() {
            None
        } else {
            Some(OpenOrder { price: o.price, status: o.status, matched: dec(o.matched.val() + amount.val()) })
        },
        None => None,
    }
}

impl Market {
    /// Spreads after the exposure cap: the side that would grow the exposure
    /// beyond the cap quotes at the best price itself.
    pub open spec fn spreads_spec(self) -> Spreads {
        Spreads {
            bid: if self.exposure.val() < -self.config.max_exposure.val() {
                dec(0)
            } else {
                self.config.spread
            },
            ask: if self.exposure.val() > self.config.max_exposure.val() {
                dec(0)
            } else {
                self.config.spread
            },
        }
    }

    /// Desired bid price, in units.
    pub open spec fn bid_target(self, p: NewPrices) -> int {
        p.best_bid.val() - self.spreads_spec().bid.val()
    }

    /// Desired ask price on the complementary token, in units.
    pub open spec fn ask_target(self, p: NewPrices) -> int {
        UNITS_PER_ONE - p.best_ask.val() - self.spreads_spec().ask.val()
    }

    /// Whether both desired prices of a tick can be held.
    pub open spec fn quote_fits(self, p: NewPrices) -> bool {
        fits_units(self.bid_target(p)) && fits_units(self.ask_target(p))
    }

    /// The market after a tick has been reconciled on both sides.
    pub open spec fn after_quote(self, p: NewPrices) -> Market {
        Market {
            ask_order: reconcile_slot(self.ask_order, dec(self.ask_target(p))),
            bid_order: reconcile_slot(self.bid_order, dec(self.bid_target(p))),
            ..self
        }
    }

    /// The intents of a tick: the ask side's, then the bid side's.
    pub open spec fn quote_intents(self, p: NewPrices) -> Seq<OrderRequest> {
        intents_of(
            reconcile_result(
                self.ask_order,
                dec(self.ask_target(p)),
                self.config.order_size,
                self.token_ids.sell_token,
            ),
        ) + intents_of(
            reconcile_result(
                self.bid_order,
                dec(self.bid_target(p)),
                self.config.order_size,
                self.token_ids.buy_token,
            ),
        )
    }

    /// Whether an acknowledgement or fill for `token` concerns the bid side.
    pub open spec fn is_bid_token(self, token: TokenId) -> bool {
        token == self.token_ids.buy_token
    }

    /// The market after a placement acknowledgement.
    pub open spec fn after_placed(self, p: PlacedOrder) -> Market {
        if self.is_bid_token(p.token_id) {
            Market { bid_order: absorb_placed(self.bid_order, p), ..self }
        } else {
            Market { ask_order: absorb_placed(self.ask_order, p), ..self }
        }
    }

    /// The confirmed order that a placement acknowledgement supersedes.
    pub open spec fn superseded_by(self, p: PlacedOrder) -> Option<String> {
        if self.is_bid_token(p.token_id) {
            placed_id(self.bid_order)
        } else {
            placed_id(self.ask_order)
        }
    }

    /// The side whose confirmed order has identifier `id`, the bid side first.
    pub open spec fn side_of(self, id: Seq<char>) -> Option<OrderSide> {
        if holds_id(self.bid_order, id) {
            Some(OrderSide::Buy)
        } else if holds_id(self.ask_order, id) {
            Some(OrderSide::Sell)
        } else {
            None
        }
    }

    /// The market after a cancellation acknowledgement.
    pub open spec fn after_cancelled(self, id: Seq<char>) -> Market {
        match self.side_of(id) {
            Some(OrderSide::Buy) => Market { bid_order: None, ..self },
            Some(OrderSide::Sell) => Market { ask_order: None, ..self },
            None => self,
        }
    }

    /// Signed change of exposure by a fill: up for the bid token, down otherwise.
    pub open spec fn fill_delta(self, f: OrderFill) -> int {
        if self.is_bid_token(f.token_id) {
            f.amount.val()
        } else {
            -f.amount.val()
        }
    }

    /// Whether a fill is well formed (no negative amount) and the exposure
    /// after it can be held.
    pub open spec fn fill_fits(self, f: OrderFill) -> bool {
        f.amount.val() >= 0 && fits_units(self.exposure.val() + self.fill_delta(f))
    }

    /// The market after a fill.
    pub open spec fn after_fill(self, f: OrderFill) -> Market {
        let exposure = dec(self.exposure.val() + self.fill_delta(f));
        match self.side_of(f.order_id@) {
            Some(OrderSide::Buy) => Market {
                bid_order: absorb_fill(self.bid_order, f.amount, self.config.order_size),
                exposure,
                ..self
            },
            Some(OrderSide::Sell) => Market {
                ask_order: absorb_fill(self.ask_order, f.amount, self.config.order_size),
                exposure,
                ..self
            },
            None => Market { exposure, ..self },
        }
    }

    /// A market with no resting orders and no exposure.
    pub fn new(config: MarketConfig, token_ids: TokenIds) -> (r: Market)
        ensures
            r == (Market { token_ids, bid_order: None, ask_order: None, exposure: dec(0), config }),
    {
        Market { token_ids, bid_order: None, ask_order: None, exposure: Dec { units: 0 }, config }
    }

    /// The spreads of both sides under the exposure cap.
    pub fn get_spreads(&self) -> (r: Spreads)
        ensures
            r == self.spreads_spec(),
    {
        let e = self.exposure.units as i128;
        let cap = self.config.max_exposure.units as i128;
        let ask = if e > cap {
            Dec { units: 0 }
        } else {
            self.config.spread
        };
        let bid = if e < -cap {
            Dec { units: 0 }
        } else {
            self.config.spread
        };
        Spreads { bid, ask }
    }

    /// Reconciles one side against its desired price: places an order on an
    /// empty side, replaces (cancel, then place) a confirmed order at another
    /// price, and leaves alone a side that is awaiting confirmation or already
    /// confirmed at the desired price.
    pub fn check_order(
        open_order: &mut Option<OpenOrder>,
        desired_price: Dec,
        size: Dec,
        token_id: TokenId,
    ) -> (r: Option<CheckOrderResult>)
        ensures
            *final(open_order) == reconcile_slot(*old(open_order), desired_price),
            r == reconcile_result(*old(open_order), desired_price, size, token_id),
    {
        let placed_order = match &*open_order {
            Some(order) => match &order.status {
                OpenOrderStatus::Pending => None,
                OpenOrderStatus::Placed(order_id) => {
                    if order.price != desired_price {
                        let new_order = Order::new(desired_price, size, token_id);
                        Some(CheckOrderResult { place: Some(new_order), cancel: Some(order_id.clone()) })
                    } else {
                        None
                    }
                },
            },
            None => {
                let new_order = Order::new(desired_price, size, token_id);
                Some(CheckOrderResult { place: Some(new_order), cancel: None })
            },
        };
        if placed_order.is_some() {
            *open_order = Some(OpenOrder::default(desired_price, OpenOrderStatus::Pending));
        }
        placed_order
    }

    /// Reconciles both sides against a tick, the ask side first, and returns
    /// the intents in that order, or `None` when there are none.
    pub fn price_update(&mut self, new_prices: NewPrices) -> (r: Option<Vec<OrderRequest>>)
        requires
            old(self).quote_fits(new_prices),
        ensures
            *final(self) == old(self).after_quote(new_prices),
            match r {
                None => old(self).quote_intents(new_prices).len() == 0,
                Some(v) => v@ == old(self).quote_intents(new_prices) && v@.len() > 0,
            },
    {
        let spreads = self.get_spreads();
        let bid_units: i128 = new_prices.best_bid.units as i128 - spreads.bid.units as i128;
        let ask_units: i128 = UNITS_PER_ONE as i128 - new_prices.best_ask.units as i128
            - spreads.ask.units as i128;
        let desired_bid_price = Dec { units: bid_units as i64 };
        let desired_ask_price = Dec { units: ask_units as i64 };
        let size = self.config.order_size;
        let sell_token = self.token_ids.sell_token;
        let buy_token = self.token_ids.buy_token;

        let check_ask_result = Self::check_order(&mut self.ask_order, desired_ask_price, size, sell_token);
        let check_bid_result = Self::check_order(&mut self.bid_order, desired_bid_price, size, buy_token);

        let mut order_requests: Vec<OrderRequest> = Vec::new();
        push_intents(&mut order_requests, check_ask_result);
        push_intents(&mut order_requests, check_bid_result);
        if order_requests.len() == 0 {
            None
        } else {
            Some(order_requests)
        }
    }

    /// Absorbs a placement acknowledgement on the side of its token, and
    /// returns the identifier of the confirmed order it supersedes, which is
    /// to be cancelled now.
    pub fn check_placed_order(&mut self, placed_order: PlacedOrder) -> (r: Option<String>)
        ensures
            *final(self) == old(self).after_placed(placed_order),
            r == old(self).superseded_by(placed_order),
    {
        if placed_order.token_id == self.token_ids.buy_token {
            absorb_placed_into(&mut self.bid_order, placed_order)
        } else {
            absorb_placed_into(&mut self.ask_order, placed_order)
        }
    }

    /// Whether a side holds the confirmed order `order_id`.
    fn check_order_id(open_order: &Option<OpenOrder>, order_id: &String) -> (r: bool)
        ensures
            r == holds_id(*open_order, order_id@),
    {
        match open_order {
            Some(order) => match &order.status {
                OpenOrderStatus::Pending => false,
                OpenOrderStatus::Placed(placed_order_id) => *order_id == *placed_order_id,
            },
            None => false,
        }
    }

    /// The side holding the confirmed order `order_id`, the bid side first.
    fn get_order_side_from_id(&self, order_id: &String) -> (r: Option<OrderSide>)
        ensures
            r == self.side_of(order_id@),
    {
        if Self::check_order_id(&self.bid_order, order_id) {
            Some(OrderSide::Buy)
        } else if Self::check_order_id(&self.ask_order, order_id) {
            Some(OrderSide::Sell)
        } else {
            None
        }
    }

    /// A confirmed side record for an acknowledgement.
    fn create_placed_order(placed_order: PlacedOrder) -> (r: Option<OpenOrder>)
        ensures
            r == Some(placed_record(placed_order)),
    {
        Some(OpenOrder::default(placed_order.price, OpenOrderStatus::Placed(placed_order.order_id)))
    }

    /// Clears the side holding the cancelled order; an unknown identifier
    /// changes nothing.
    pub fn order_canceled(&mut self, order_id: String)
        ensures
            *final(self) == old(self).after_cancelled(order_id@),
    {
        let order = self.get_order_side_from_id(&order_id);
        match order {
            Some(OrderSide::Buy) => {
                self.bid_order = None;
            },
            Some(OrderSide::Sell) => {
                self.ask_order = None;
            },
            None => {},
        }
    }

    /// Moves the exposure by a fill (up for the bid token, down otherwise),
    /// adds it to the matched amount of the side holding the order, and clears
    /// that side once the order size is reached.
    pub fn order_filled(&mut self, fill: OrderFill)
        requires
            old(self).fill_fits(fill),
        ensures
            *final(self) == old(self).after_fill(fill),
    {
        let order = self.get_order_side_from_id(&fill.order_id);
        let amount: i128 = fill.amount.units as i128;
        let delta: i128 = if fill.token_id == self.token_ids.buy_token {
            amount
        } else {
            -amount
        };
        self.exposure = Dec { units: (self.exposure.units as i128 + delta) as i64 };
        let size = self.config.order_size;
        match order {
            Some(OrderSide::Buy) => absorb_fill_into(&mut self.bid_order, fill.amount, size),
            Some(OrderSide::Sell) => absorb_fill_into(&mut self.ask_order, fill.amount, size),
            None => {},
        }
    }
}

/// Appends the intents of a reconcile result, the cancellation first.
fn push_intents(v: &mut Vec<OrderRequest>, r: Option<CheckOrderResult>)
    ensures
        final(v)@ == old(v)@ + intents_of(r),
{
    match r {
        Some(c) => {
            match c.cancel {
                Some(order_id) => v.push(OrderRequest::CancelOrder(order_id)),
                None => {},
            }
            match c.place {
                Some(order) => v.push(OrderRequest::PlaceOrder(order)),
                None => {},
            }
        },
        None => {},
    }
}

/// Absorbs a placement acknowledgement into one side and returns the
/// identifier of the confirmed order it held before.
fn absorb_placed_into(slot: &mut Option<OpenOrder>, p: PlacedOrder) -> (r: Option<String>)
    ensures
        *final(slot) == absorb_placed(*old(slot), p),
        r == placed_id(*old(slot)),
{
    let (cancel_order_id, same_price) = match &*slot {
        Some(order) => {
            let id = match &order.status {
                OpenOrderStatus::Pending => None,
                OpenOrderStatus::Placed(order_id) => Some(order_id.clone()),
            };
            (id, order.price == p.price)
        },
        None => (None, false),
    };
    if same_price {
        match slot {
            Some(order) => {
                order.status = OpenOrderStatus::Placed(p.order_id);
            },
            None => {},
        }
    } else {
        *slot = Market::create_placed_order(p);
    }
    cancel_order_id
}

/// Adds a fill to one side's matched amount, clearing the side once `size`
/// is reached.
fn absorb_fill_into(slot: &mut Option<OpenOrder>, amount: Dec, size: Dec)
    requires
        amount.val() >= 0,
    ensures
        *final(slot) == absorb_fill(*old(slot), amount, size),
{
    let clear = match slot {
        Some(order) => {
            let m: i128 = order.matched.units as i128 + amount.units as i128;
            if m >= size.units as i128 {
                true
            } else {
                order.matched = Dec { units: m as i64 };
                false
            }
        },
        None => false,
    };
    if clear {
        *slot = None;
    }
}

} // verus!
