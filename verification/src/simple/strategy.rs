//! The automaton of the buy-low, sell-high strategy.
//!
//! Cycle: a buy order is placed at start; when it is filled in full a sell
//! order follows; when that is filled in full the next buy order follows.
//! A canceled or rejected order sends the automaton back to the beginning,
//! where it buys again.

use crate::amount::{decimal_text, option_view, Amount, Dec};
use crate::instrument::{option_meta_view, InstrumentMeta, InstrumentMetaView};
use crate::simple::config::{SimpleConfig, SimpleConfigView};
use crate::simple::state::{Phase, SimpleState, SimpleStateView};
use crate::text::{followed_by, join, joined, price_debug, price_debug_text};
use crate::types::{
    action_views, fresh_order_id, is_drawn_order_id, Action, ActionView, CancelAll, CancelAllView, Event, EventView,
    LogLevel, OrderCommand, OrderCommandView, OrderSide, TimeInForce,
};
use vstd::prelude::*;

verus! {

/// The reason given to the host when it knows no rounding rules for the
/// instrument.
pub open spec fn instrument_missing_text() -> Seq<char> {
    "Instrument not found"@
}

/// The reason given to the host when the terms of an order cannot be
/// computed.
pub open spec fn terms_missing_text() -> Seq<char> {
    "Order price or size cannot be rounded"@
}

/// The log line written when trading starts.
pub open spec fn started_text(config: SimpleConfigView) -> Seq<char> {
    "SimpleStrategy started: buy@"@ + decimal_text(config.buy_price) + " sell@"@ + decimal_text(
        config.sell_price,
    ) + " qty="@ + decimal_text(config.order_size)
}

/// The log line written after an order at `price` was placed.
pub open spec fn placed_text(side: OrderSide, price: Dec) -> Seq<char> {
    match side {
        OrderSide::Buy => "BUY order placed @ "@ + decimal_text(price),
        OrderSide::Sell => "SELL order placed @ "@ + decimal_text(price),
    }
}

/// The log line written when the buy order was filled.
pub open spec fn buy_filled_text(avg: Option<Dec>) -> Seq<char> {
    "Buy filled @ avg="@ + price_debug_text(avg)
}

/// The log line written when the sell order was filled.
pub open spec fn sell_filled_text(avg: Option<Dec>) -> Seq<char> {
    "Sell filled @ avg="@ + price_debug_text(avg) + " — cycle complete!"@
}

/// The log line written when an order was canceled or rejected.
pub open spec fn reset_text() -> Seq<char> {
    "Order canceled/rejected — resetting to buy phase"@
}

/// The log line written at stop.
pub open spec fn stopped_text() -> Seq<char> {
    "SimpleStrategy stopped"@
}

/// The phase in which an order of the given side is open.
pub open spec fn placed_phase(side: OrderSide) -> Phase {
    match side {
        OrderSide::Buy => Phase::BuyPlaced,
        OrderSide::Sell => Phase::SellPlaced,
    }
}

/// The state after an order of the given side was placed under `id`.
pub open spec fn placed_state(side: OrderSide, id: Seq<char>) -> SimpleStateView {
    SimpleStateView { phase: placed_phase(side), active_order: Some(id) }
}

/// The limit order that the strategy places: good until canceled, free to
/// take liquidity and to open a position.
pub open spec fn limit_order(
    config: SimpleConfigView,
    side: OrderSide,
    price: Dec,
    qty: Dec,
    id: Seq<char>,
) -> OrderCommandView {
    OrderCommandView {
        client_id: id,
        exchange: config.market.exchange_instance(config.environment),
        instrument: config.market.instrument,
        side,
        price,
        qty,
        tif: TimeInForce::Gtc,
        post_only: false,
        reduce_only: false,
    }
}

/// What the host is asked to do when an order is placed: place it, then log
/// its price.
pub open spec fn placement_actions(
    config: SimpleConfigView,
    side: OrderSide,
    price: Dec,
    qty: Dec,
    id: Seq<char>,
) -> Seq<ActionView> {
    seq![
        ActionView::PlaceOrder(limit_order(config, side, price, qty, id)),
        ActionView::Log { level: LogLevel::Info, message: placed_text(side, price) },
    ]
}

/// The request to stop the strategy for `reason`.
pub open spec fn stop_request(config: SimpleConfigView, reason: Seq<char>) -> ActionView {
    ActionView::StopStrategy { strategy_id: config.strategy_id, reason }
}

/// A log line at level `Info`.
pub open spec fn info(message: Seq<char>) -> ActionView {
    ActionView::Log { level: LogLevel::Info, message }
}

/// The identifier of the order that the automaton tracks, or the empty text
/// where it tracks none.
pub open spec fn tracked_id(model: SimpleModel) -> Seq<char> {
    match model.state.active_order {
        Some(id) => id,
        None => Seq::empty(),
    }
}

/// What contracts see of a [`SimpleStrategy`]: its configuration, its state
/// and, while it runs, the rounding rules of its instrument.
pub struct SimpleModel {
    pub config: SimpleConfigView,
    pub state: SimpleStateView,
    pub meta: Option<InstrumentMetaView>,
}

impl SimpleModel {
    /// The automaton before its first start.
    pub open spec fn initial(config: SimpleConfigView) -> SimpleModel {
        SimpleModel { config, state: SimpleStateView::initial(), meta: None }
    }

    /// Whether the automaton trades: its last start succeeded.
    pub open spec fn is_running(self) -> bool {
        self.meta is Some
    }

    /// What holds of the automaton at all times: an order is tracked exactly
    /// in the phases in which one is open, and an automaton that runs has a
    /// valid configuration and can compute the terms of its orders.
    pub open spec fn consistent(self) -> bool {
        &&& self.state.consistent()
        &&& self.meta is Some ==> self.config.is_valid() && self.config.can_trade_with(
            self.meta->0,
        )
    }

    /// The automaton at rest: as before its first start.
    pub open spec fn halted(self) -> SimpleModel {
        SimpleModel::initial(self.config)
    }

    /// An order of the given terms is placed under `id`.
    pub open spec fn place(
        self,
        side: OrderSide,
        price: Dec,
        qty: Dec,
        id: Seq<char>,
    ) -> (SimpleModel, Seq<ActionView>) {
        (
            SimpleModel { state: placed_state(side, id), ..self },
            placement_actions(self.config, side, price, qty, id),
        )
    }

    /// A buy order is placed under `id`.
    pub open spec fn place_buy(self, id: Seq<char>) -> (SimpleModel, Seq<ActionView>) {
        if self.meta is Some && self.config.buy_terms(self.meta->0) is Some {
            let terms = self.config.buy_terms(self.meta->0)->0;
            self.place(OrderSide::Buy, terms.price, terms.qty, id)
        } else {
            (self, Seq::empty())
        }
    }

    /// A sell order is placed under `id`.
    pub open spec fn place_sell(self, id: Seq<char>) -> (SimpleModel, Seq<ActionView>) {
        if self.meta is Some && self.config.sell_terms(self.meta->0) is Some {
            let terms = self.config.sell_terms(self.meta->0)->0;
            self.place(OrderSide::Sell, terms.price, terms.qty, id)
        } else {
            (self, Seq::empty())
        }
    }

    /// The automaton forgets its order and waits to buy.
    pub open spec fn reset(self) -> SimpleModel {
        SimpleModel { state: SimpleStateView::initial(), ..self }
    }

    /// The host starts the strategy. `meta` is what it knows of the
    /// instrument; `id` is the identifier for the first order.
    ///
    /// Without rounding rules, with an invalid configuration or with terms
    /// that cannot be computed (see [`SimpleConfigView::can_trade_with`]) the
    /// automaton asks to be stopped and stays at rest. Otherwise it logs its
    /// parameters and places the first buy order.
    pub open spec fn start(self, meta: Option<InstrumentMetaView>, id: Seq<char>) -> (
        SimpleModel,
        Seq<ActionView>,
    ) {
        match meta {
            None => (self.halted(), seq![stop_request(self.config, instrument_missing_text())]),
            Some(m) => {
                if !self.config.is_valid() {
                    (
                        self.halted(),
                        seq![
                            stop_request(
                                self.config,
                                joined(self.config.validation_errors(), "; "@),
                            ),
                        ],
                    )
                } else if !self.config.can_trade_with(m) {
                    (self.halted(), seq![stop_request(self.config, terms_missing_text())])
                } else {
                    let ready = SimpleModel { meta: Some(m), ..self.halted() };
                    let placed = ready.place_buy(id);
                    (placed.0, seq![info(started_text(self.config))] + placed.1)
                }
            },
        }
    }

    /// The host reports `event`. `id` is the identifier for the order that
    /// the automaton places in answer, if it places one.
    ///
    /// An automaton at rest ignores every event. One that runs answers a
    /// completed buy order with a sell order, a completed sell order with a
    /// buy order, and a canceled or rejected order with a fresh buy order.
    /// It ignores every other event.
    pub open spec fn step(self, event: EventView, id: Seq<char>) -> (
        SimpleModel,
        Seq<ActionView>,
    ) {
        if !self.is_running() {
            (self, Seq::empty())
        } else {
            match event {
                EventView::OrderCompleted { avg_fill_px, .. } => match self.state.phase {
                    Phase::BuyPlaced => {
                        let placed = self.place_sell(id);
                        (placed.0, seq![info(buy_filled_text(avg_fill_px))] + placed.1)
                    },
                    Phase::SellPlaced => {
                        let placed = self.place_buy(id);
                        (placed.0, seq![info(sell_filled_text(avg_fill_px))] + placed.1)
                    },
                    _ => (self, Seq::empty()),
                },
                EventView::OrderCanceled { .. } | EventView::OrderRejected { .. } => {
                    let placed = self.reset().place_buy(id);
                    (
                        placed.0,
                        seq![ActionView::Log { level: LogLevel::Warn, message: reset_text() }]
                            + placed.1,
                    )
                },
                _ => (self, Seq::empty()),
            }
        }
    }

    /// The host reports `events` one after another. `ids` gives, for each
    /// position in `events`, the identifier for the order placed in answer.
    /// The result is the automaton afterwards and all the actions asked for,
    /// in order.
    pub open spec fn run(self, events: Seq<EventView>, ids: spec_fn(int) -> Seq<char>) -> (
        SimpleModel,
        Seq<ActionView>,
    )
        decreases events.len(),
    {
        if events.len() == 0 {
            (self, Seq::empty())
        } else {
            let before = self.run(events.drop_last(), ids);
            let last = before.0.step(events.last(), ids(events.len() - 1));
            (last.0, before.1 + last.1)
        }
    }

    /// Whether the automaton places an order in answer to `event`.
    pub open spec fn answers_with_order(self, event: EventView) -> bool {
        self.is_running() && match event {
            EventView::OrderCompleted { .. } => self.state.phase.is_placed(),
            EventView::OrderCanceled { .. } | EventView::OrderRejected { .. } => true,
            _ => false,
        }
    }

    /// The quantity of the buy orders of an automaton that runs.
    pub open spec fn buy_qty(self) -> Dec {
        self.config.buy_terms(self.meta->0)->0.qty
    }

    /// The quantity of the sell orders of an automaton that runs.
    pub open spec fn sell_qty(self) -> Dec {
        self.config.sell_terms(self.meta->0)->0.qty
    }

    /// What the host is asked to do when it stops the strategy: cancel every
    /// open order. The automaton itself makes no transition.
    pub open spec fn stop_actions(self) -> Seq<ActionView> {
        seq![
            ActionView::CancelAll(
                CancelAllView {
                    exchange: self.config.market.exchange_instance(self.config.environment),
                    instrument: None,
                },
            ),
            info(stopped_text()),
        ]
    }
}

/// The state and the actions of placing an order of the given terms under
/// `id`.
pub fn placement(
    config: &SimpleConfig,
    side: OrderSide,
    price: Amount,
    qty: Amount,
    id: String,
) -> (r: (SimpleState, Vec<Action>))
    ensures
        r.0@ == placed_state(side, id@),
        action_views(r.1@) == placement_actions(config@, side, price@, qty@, id@),
{
    let order = OrderCommand {
        client_id: id.clone(),
        exchange: config.market.exchange_instance(config.environment),
        instrument: config.market.instrument_id(),
        side,
        price,
        qty,
        tif: TimeInForce::Gtc,
        post_only: false,
        reduce_only: false,
    };
    let price_text = price.text();
    let (phase, message) = match side {
        OrderSide::Buy => (Phase::BuyPlaced, followed_by("BUY order placed @ ", price_text.as_str())),
        OrderSide::Sell => (Phase::SellPlaced, followed_by("SELL order placed @ ", price_text.as_str())),
    };
    let state = SimpleState { phase, active_order: Some(id) };
    let mut actions: Vec<Action> = Vec::new();
    actions.push(Action::PlaceOrder(order));
    actions.push(Action::Log { level: LogLevel::Info, message });
    assert(action_views(actions@) =~= placement_actions(config@, side, price@, qty@, id@));
    (state, actions)
}

/// The buy-low, sell-high strategy.
pub struct SimpleStrategy {
    config: SimpleConfig,
    state: SimpleState,
    meta: Option<InstrumentMeta>,
}

impl View for SimpleStrategy {
    type V = SimpleModel;

    closed spec fn view(&self) -> SimpleModel {
        SimpleModel { config: self.config@, state: self.state@, meta: option_meta_view(self.meta) }
    }
}

impl SimpleStrategy {
    #[verifier::type_invariant]
    spec fn inv(self) -> bool {
        self@.consistent()
    }

    /// A strategy at rest with the given configuration.
    pub fn new(config: SimpleConfig) -> (s: Self)
        ensures
            s@ == SimpleModel::initial(config@),
    {
        SimpleStrategy { config, state: SimpleState::new(), meta: None }
    }

    /// The identifier of the strategy.
    pub fn id(&self) -> (id: &String)
        ensures
            id@ == self@.config.strategy_id,
    {
        &self.config.strategy_id
    }

    /// The configuration of the strategy.
    pub fn config(&self) -> (config: &SimpleConfig)
        ensures
            config@ == self@.config,
    {
        &self.config
    }

    /// The phase of the strategy and the order it waits for.
    pub fn state(&self) -> (state: &SimpleState)
        ensures
            state@ == self@.state,
            state@.consistent(),
    {
        proof {
            use_type_invariant(self);
        }
        &self.state
    }

    /// Whether the strategy trades.
    pub fn is_running(&self) -> (r: bool)
        ensures
            r == self@.is_running(),
    {
        self.meta.is_some()
    }

    fn place_buy(&mut self, id: String) -> (actions: Vec<Action>)
        requires
            old(self)@.is_running(),
        ensures
            (final(self)@, action_views(actions@)) == old(self)@.place_buy(id@),
    {
        proof {
            use_type_invariant(&*self);
        }
        let meta = self.meta.unwrap();
        let price = meta.round_price(&self.config.buy_price).unwrap();
        let qty = meta.round_qty(&self.config.order_size).unwrap();
        let (state, actions) = placement(&self.config, OrderSide::Buy, price, qty, id);
        self.state = state;
        actions
    }

    fn place_sell(&mut self, id: String) -> (actions: Vec<Action>)
        requires
            old(self)@.is_running(),
        ensures
            (final(self)@, action_views(actions@)) == old(self)@.place_sell(id@),
            old(self)@.sell_qty().le(old(self)@.buy_qty()),
    {
        proof {
            use_type_invariant(&*self);
        }
        let meta = self.meta.unwrap();
        let price = meta.round_price(&self.config.sell_price).unwrap();
        let qty = meta.trunc_qty(&self.config.order_size).unwrap();
        let (state, actions) = placement(&self.config, OrderSide::Sell, price, qty, id);
        self.state = state;
        actions
    }

    fn stop_request(&self, reason: String) -> (action: Action)
        ensures
            action@ == stop_request(self@.config, reason@),
    {
        Action::StopStrategy { strategy_id: self.config.strategy_id.clone(), reason }
    }

    /// Starts the strategy, with `id` as the identifier of its first order.
    ///
    /// `meta` is what the host knows of the instrument. The state is built
    /// anew. For three reasons the strategy asks to be stopped and places no
    /// order: the host knows no rounding rules for the instrument; the
    /// configuration is invalid; or the terms of its orders cannot be
    /// computed, because a price or the size is `10^28` or more, holds more
    /// than `10^28` ticks or lots, or a rounded price has more than 23 whole
    /// digits. Otherwise it places its first buy order.
    pub fn on_start_with_id(&mut self, meta: Option<InstrumentMeta>, id: String) -> (actions: Vec<
        Action,
    >)
        ensures
            (final(self)@, action_views(actions@)) == old(self)@.start(
                option_meta_view(meta),
                id@,
            ),
            final(self)@.consistent(),
    {
        proof {
            use_type_invariant(&*self);
        }
        self.state = SimpleState::new();
        self.meta = None;
        let mut actions: Vec<Action> = Vec::new();
        match meta {
            None => {
                let stop = self.stop_request(String::from_str("Instrument not found"));
                actions.push(stop);
                assert(action_views(actions@) =~= old(self)@.start(option_meta_view(meta), id@).1);
            },
            Some(m) => {
                let errors = self.config.validate();
                if errors.len() > 0 {
                    let stop = self.stop_request(join(&errors, "; "));
                    actions.push(stop);
                    assert(action_views(actions@) =~= old(self)@.start(
                        option_meta_view(meta),
                        id@,
                    ).1);
                } else if !self.config.can_trade_with(&m) {
                    let stop = self.stop_request(
                        String::from_str("Order price or size cannot be rounded"),
                    );
                    actions.push(stop);
                    assert(action_views(actions@) =~= old(self)@.start(
                        option_meta_view(meta),
                        id@,
                    ).1);
                } else {
                    self.meta = Some(m);
                    actions.push(Action::Log { level: LogLevel::Info, message: self.started_line() });
                    let ghost logged = action_views(actions@);
                    let mut placed = self.place_buy(id);
                    let ghost placed_views = action_views(placed@);
                    actions.append(&mut placed);
                    assert(action_views(actions@) =~= logged + placed_views);
                    assert(logged =~= seq![info(started_text(old(self)@.config))]);
                }
            },
        }
        proof {
            use_type_invariant(&*self);
        }
        actions
    }

    /// Starts the strategy. The identifier of its first order is drawn at
    /// random; where an order was placed, it is the order tracked afterwards
    /// and has the form of a drawn identifier.
    pub fn on_start(&mut self, meta: Option<InstrumentMeta>) -> (actions: Vec<Action>)
        ensures
            (final(self)@, action_views(actions@)) == old(self)@.start(
                option_meta_view(meta),
                tracked_id(final(self)@),
            ),
            final(self)@.consistent(),
            final(self)@.is_running() ==> is_drawn_order_id(tracked_id(final(self)@)),
    {
        let id = fresh_order_id();
        self.on_start_with_id(meta, id)
    }

    fn started_line(&self) -> (line: String)
        ensures
            line@ == started_text(self@.config),
    {
        let buy = self.config.buy_price.text();
        let sell = self.config.sell_price.text();
        let qty = self.config.order_size.text();
        let mut line = followed_by("SimpleStrategy started: buy@", buy.as_str());
        line.append(" sell@");
        line.append(sell.as_str());
        line.append(" qty=");
        line.append(qty.as_str());
        line
    }

    /// Handles an event, with `id` as the identifier of the order placed in
    /// answer, if one is placed.
    ///
    /// The last clause says of a buy order filled in full that the sell
    /// order which answers it never asks for more than the buy order did.
    pub fn on_event_with_id(&mut self, event: &Event, id: String) -> (actions: Vec<Action>)
        ensures
            (final(self)@, action_views(actions@)) == old(self)@.step(event@, id@),
            final(self)@.consistent(),
            old(self)@.is_running() && event@ is OrderCompleted && old(self)@.state.phase
                == Phase::BuyPlaced ==> old(self)@.sell_qty().le(old(self)@.buy_qty()),
    {
        proof {
            use_type_invariant(&*self);
        }
        let mut actions: Vec<Action> = Vec::new();
        if self.meta.is_none() {
            assert(action_views(actions@) =~= Seq::<ActionView>::empty());
            return actions;
        }
        match event {
            Event::OrderCompleted { avg_fill_px, .. } => {
                let avg = price_debug(avg_fill_px);
                match self.state.phase {
                    Phase::BuyPlaced => {
                        let message = followed_by("Buy filled @ avg=", avg.as_str());
                        actions.push(Action::Log { level: LogLevel::Info, message });
                        let ghost logged = action_views(actions@);
                        let mut placed = self.place_sell(id);
                        let ghost placed_views = action_views(placed@);
                        actions.append(&mut placed);
                        assert(action_views(actions@) =~= logged + placed_views);
                        assert(logged =~= seq![info(buy_filled_text(option_view(*avg_fill_px)))]);
                    },
                    Phase::SellPlaced => {
                        let mut message = followed_by("Sell filled @ avg=", avg.as_str());
                        message.append(" — cycle complete!");
                        actions.push(Action::Log { level: LogLevel::Info, message });
                        let ghost logged = action_views(actions@);
                        let mut placed = self.place_buy(id);
                        let ghost placed_views = action_views(placed@);
                        actions.append(&mut placed);
                        assert(action_views(actions@) =~= logged + placed_views);
                        assert(logged =~= seq![info(sell_filled_text(option_view(*avg_fill_px)))]);
                    },
                    _ => {
                        assert(action_views(actions@) =~= Seq::<ActionView>::empty());
                    },
                }
            },
            Event::OrderCanceled { .. } | Event::OrderRejected { .. } => {
                let message = String::from_str("Order canceled/rejected — resetting to buy phase");
                actions.push(Action::Log { level: LogLevel::Warn, message });
                let ghost logged = action_views(actions@);
                self.state = SimpleState::new();
                let mut placed = self.place_buy(id);
                let ghost placed_views = action_views(placed@);
                actions.append(&mut placed);
                assert(action_views(actions@) =~= logged + placed_views);
                assert(logged =~= seq![
                    ActionView::Log { level: LogLevel::Warn, message: reset_text() },
                ]);
            },
            _ => {
                assert(action_views(actions@) =~= Seq::<ActionView>::empty());
            },
        }
        proof {
            use_type_invariant(&*self);
        }
        actions
    }

    /// Handles an event. Where an order is placed in answer, its identifier
    /// is drawn at random; it is the order tracked afterwards and has the
    /// form of a drawn identifier.
    pub fn on_event(&mut self, event: &Event) -> (actions: Vec<Action>)
        ensures
            (final(self)@, action_views(actions@)) == old(self)@.step(
                event@,
                tracked_id(final(self)@),
            ),
            final(self)@.consistent(),
            old(self)@.answers_with_order(event@) ==> is_drawn_order_id(tracked_id(final(self)@)),
            old(self)@.is_running() && event@ is OrderCompleted && old(self)@.state.phase
                == Phase::BuyPlaced ==> old(self)@.sell_qty().le(old(self)@.buy_qty()),
    {
        proof {
            use_type_invariant(&*self);
        }
        let id = if self.answers_with_order(event) {
            fresh_order_id()
        } else {
            String::new()
        };
        self.on_event_with_id(event, id)
    }

    fn answers_with_order(&self, event: &Event) -> (r: bool)
        ensures
            r == self@.answers_with_order(event@),
    {
        self.meta.is_some() && match event {
            Event::OrderCompleted { .. } => match self.state.phase {
                Phase::BuyPlaced | Phase::SellPlaced => true,
                _ => false,
            },
            Event::OrderCanceled { .. } | Event::OrderRejected { .. } => true,
            _ => false,
        }
    }

    /// Handles a timer. The strategy sets none and does nothing.
    pub fn on_timer(&mut self, timer_id: u64) -> (actions: Vec<Action>)
        ensures
            final(self)@ == old(self)@,
            actions@.len() == 0,
    {
        Vec::new()
    }

    /// Stops the strategy: asks the host to cancel every open order. The
    /// phase and the order tracked stay as they are.
    pub fn on_stop(&mut self) -> (actions: Vec<Action>)
        ensures
            final(self)@ == old(self)@,
            action_views(actions@) == old(self)@.stop_actions(),
            final(self)@.consistent(),
    {
        let cancel = CancelAll::new(self.config.market.exchange_instance(self.config.environment));
        proof {
            use_type_invariant(&*self);
        }
        let mut actions: Vec<Action> = Vec::new();
        actions.push(Action::CancelAll(cancel));
        actions.push(
            Action::Log { level: LogLevel::Info, message: String::from_str("SimpleStrategy stopped") },
        );
        assert(action_views(actions@) =~= old(self)@.stop_actions());
        actions
    }
}

} // verus!
