//! The automaton of the strategy skeleton.
//!
//! It starts only with rounding rules for its instrument and a valid
//! configuration, remembers the middle of the last quote, forgets its order
//! when that is completed, canceled or rejected, and logs its status on a
//! timer once more than thirty seconds have passed since it last did.

use crate::amount::{decimal_text, option_view, Amount, Dec};
use crate::instrument::{
    lot_rounding, option_meta_view, sig_fig_trimming, trim_to_sig_figs, InstrumentMeta,
    InstrumentMetaView, PRICE_SIG_FIGS,
};
use crate::template::config::{MyConfig, MyConfigView};
use crate::template::state::{MyState, MyStateView};
use crate::text::{followed_by, join, joined, order_id_debug, order_id_debug_text, string_views};
use crate::types::{
    action_views, Action, ActionView, CancelAll, CancelAllView, Event, EventView, ExchangeHealth,
    ExchangeInstance, LogLevel, OrderSide,
};
use vstd::prelude::*;

verus! {

/// The time that passes between two status lines, in milliseconds.
pub const STATUS_INTERVAL_MS: i64 = 30_000;

/// The reason given to the host when it knows no rounding rules for the
/// instrument.
pub open spec fn instrument_missing_text() -> Seq<char> {
    "Instrument not found"@
}

/// The log line written when the host knows no rounding rules for the
/// instrument.
pub open spec fn instrument_missing_line(instrument: Seq<char>) -> Seq<char> {
    "Instrument not found: "@ + instrument
}

/// The log line written for one thing that is wrong with the configuration.
pub open spec fn config_error_line(error: Seq<char>) -> Seq<char> {
    "Config error: "@ + error
}

/// The reason given to the host when the configuration is invalid.
pub open spec fn validation_failed_text(errors: Seq<Seq<char>>) -> Seq<char> {
    "Config validation failed: "@ + joined(errors, "; "@)
}

/// The log line written when the start succeeded.
pub open spec fn started_line(config: MyConfigView) -> Seq<char> {
    "MyStrategy started: "@ + config.market.instrument + " order_size="@ + decimal_text(
        config.order_size,
    )
}

/// The log line written for a fill.
pub open spec fn filled_line(side: OrderSide, id: Seq<char>, price: Dec, qty: Dec) -> Seq<char> {
    "Filled: "@ + side.label() + " "@ + id + " @ "@ + decimal_text(price) + " qty="@
        + decimal_text(qty)
}

/// The log line written for an order filled in full.
pub open spec fn completed_line(id: Seq<char>, filled_qty: Dec) -> Seq<char> {
    "Completed: "@ + id + " filled_qty="@ + decimal_text(filled_qty)
}

/// The log line written for a canceled order.
pub open spec fn canceled_line(id: Seq<char>) -> Seq<char> {
    "Canceled: "@ + id
}

/// The log line written for a rejected order.
pub open spec fn rejected_line(id: Seq<char>, reason: Seq<char>) -> Seq<char> {
    "Rejected: "@ + id + " reason="@ + reason
}

/// The log line written when the health of the exchange changed.
pub open spec fn exchange_state_line(
    old_state: ExchangeHealth,
    new_state: ExchangeHealth,
    reason: Seq<char>,
) -> Seq<char> {
    "Exchange state: "@ + old_state.label() + " -> "@ + new_state.label() + " ("@ + reason + ")"@
}

/// The middle price as the status line shows it: the price, or `unknown`
/// before the first quote.
pub open spec fn mid_text(mid: Option<Dec>) -> Seq<char> {
    match mid {
        Some(m) => decimal_text(m),
        None => "unknown"@,
    }
}

/// The status line.
pub open spec fn status_line(mid: Option<Dec>, active_order: Option<Seq<char>>) -> Seq<char> {
    "Status: mid="@ + mid_text(mid) + " active_order="@ + order_id_debug_text(active_order)
}

/// The log line written at stop.
pub open spec fn stopping_line() -> Seq<char> {
    "MyStrategy stopping — canceling all orders"@
}

/// A log line at the given level.
pub open spec fn log(level: LogLevel, message: Seq<char>) -> ActionView {
    ActionView::Log { level, message }
}

/// One error line for each thing that is wrong with the configuration.
pub open spec fn config_error_logs(errors: Seq<Seq<char>>) -> Seq<ActionView> {
    Seq::new(errors.len(), |i: int| log(LogLevel::Error, config_error_line(errors[i])))
}

/// What contracts see of a [`MyStrategy`]: its configuration, its state and
/// the rounding rules it was last started with.
pub struct MyModel {
    pub config: MyConfigView,
    pub state: MyStateView,
    pub instrument_meta: Option<InstrumentMetaView>,
}

impl MyModel {
    /// The automaton before its first start.
    pub open spec fn initial(config: MyConfigView) -> MyModel {
        MyModel { config, state: MyStateView::initial(), instrument_meta: None }
    }

    /// What holds of the automaton at all times: once its start succeeded, it
    /// has rounding rules and a valid configuration.
    pub open spec fn consistent(self) -> bool {
        self.state.is_initialized ==> self.instrument_meta is Some && self.config.is_valid()
    }

    /// `price` cut to five significant figures and then, where rounding
    /// rules are known, rounded as they prescribe.
    pub open spec fn round_price(self, price: Dec) -> Option<Dec> {
        match sig_fig_trimming(price, PRICE_SIG_FIGS) {
            Some(trimmed) => match self.instrument_meta {
                Some(meta) => meta.round_price(trimmed),
                None => Some(trimmed),
            },
            None => None,
        }
    }

    /// `qty` rounded to the lot size, where rounding rules are known, and
    /// unchanged otherwise.
    pub open spec fn round_qty(self, qty: Dec) -> Option<Dec> {
        match self.instrument_meta {
            Some(meta) => lot_rounding(qty, meta.lot_size),
            None => Some(qty),
        }
    }

    /// The host starts the strategy with what it knows of the instrument.
    ///
    /// The state is built anew. Without rounding rules, or with an invalid
    /// configuration, the automaton logs what is wrong, asks to be stopped
    /// and stays uninitialized.
    pub open spec fn start(self, meta: Option<InstrumentMetaView>) -> (MyModel, Seq<ActionView>) {
        let fresh = MyModel { state: MyStateView::initial(), instrument_meta: meta, ..self };
        if meta is None {
            (
                fresh,
                seq![
                    log(LogLevel::Error, instrument_missing_line(self.config.market.instrument)),
                    ActionView::StopStrategy {
                        strategy_id: self.config.strategy_id,
                        reason: instrument_missing_text(),
                    },
                ],
            )
        } else if !self.config.is_valid() {
            (
                fresh,
                config_error_logs(self.config.validation_errors()) + seq![
                    ActionView::StopStrategy {
                        strategy_id: self.config.strategy_id,
                        reason: validation_failed_text(self.config.validation_errors()),
                    },
                ],
            )
        } else {
            (
                MyModel {
                    state: MyStateView { is_initialized: true, ..MyStateView::initial() },
                    ..fresh
                },
                seq![log(LogLevel::Info, started_line(self.config))],
            )
        }
    }

    /// The host reports `event`.
    ///
    /// An automaton that is not initialized ignores it. Otherwise a quote
    /// updates the last middle price (unless that cannot be computed), the
    /// end of an order in whatever way clears the order tracked, and fills,
    /// ends of orders and changes of the exchange's health are logged.
    pub open spec fn step(self, event: EventView) -> (MyModel, Seq<ActionView>) {
        if !self.state.is_initialized {
            (self, Seq::empty())
        } else {
            match event {
                EventView::Quote(quote) => (
                    match quote.mid() {
                        Some(mid) => MyModel {
                            state: MyStateView { last_mid: Some(mid), ..self.state },
                            ..self
                        },
                        None => self,
                    },
                    Seq::empty(),
                ),
                EventView::OrderFilled { side, client_id, price, qty } => (
                    self,
                    seq![log(LogLevel::Info, filled_line(side, client_id, price, qty))],
                ),
                EventView::OrderCompleted { client_id, filled_qty, .. } => (
                    self.without_order(),
                    seq![log(LogLevel::Info, completed_line(client_id, filled_qty))],
                ),
                EventView::OrderCanceled { client_id } => (
                    self.without_order(),
                    seq![log(LogLevel::Info, canceled_line(client_id))],
                ),
                EventView::OrderRejected { client_id, reason } => (
                    self.without_order(),
                    seq![log(LogLevel::Warn, rejected_line(client_id, reason))],
                ),
                EventView::ExchangeStateChanged { old_state, new_state, reason } => (
                    self,
                    seq![log(LogLevel::Info, exchange_state_line(old_state, new_state, reason))],
                ),
                _ => (self, Seq::empty()),
            }
        }
    }

    /// The automaton with no order tracked.
    pub open spec fn without_order(self) -> MyModel {
        MyModel { state: MyStateView { active_order: None, ..self.state }, ..self }
    }

    /// Whether the status is due at the time `now_ms`: more than thirty
    /// seconds have passed since it was last logged.
    pub open spec fn status_due(self, now_ms: i64) -> bool {
        now_ms - self.state.last_log_ts > STATUS_INTERVAL_MS
    }

    /// A timer fires at the time `now_ms`.
    ///
    /// Where the status is due, it is logged in one line and the time is
    /// noted. Nothing else changes.
    pub open spec fn tick(self, now_ms: i64) -> (MyModel, Seq<ActionView>) {
        if self.status_due(now_ms) {
            (
                MyModel { state: MyStateView { last_log_ts: now_ms, ..self.state }, ..self },
                seq![
                    log(
                        LogLevel::Info,
                        status_line(self.state.last_mid, self.state.active_order),
                    ),
                ],
            )
        } else {
            (self, Seq::empty())
        }
    }

    /// What the host is asked to do when it stops the strategy: cancel every
    /// open order. The automaton itself makes no transition.
    pub open spec fn stop_actions(self) -> Seq<ActionView> {
        seq![
            log(LogLevel::Info, stopping_line()),
            ActionView::CancelAll(
                CancelAllView {
                    exchange: self.config.market.exchange_instance(self.config.environment),
                    instrument: None,
                },
            ),
        ]
    }
}

/// One error line for each of `errors`.
fn config_error_actions(errors: &Vec<String>) -> (actions: Vec<Action>)
    ensures
        action_views(actions@) == config_error_logs(string_views(errors@)),
{
    let mut actions: Vec<Action> = Vec::new();
    let mut i: usize = 0;
    while i < errors.len()
        invariant
            i <= errors.len(),
            actions@.len() == i,
            forall|k: int|
                0 <= k < i ==> #[trigger] actions@[k]@ == log(
                    LogLevel::Error,
                    config_error_line(errors@[k]@),
                ),
        decreases errors.len() - i,
    {
        let line = followed_by("Config error: ", errors[i].as_str());
        actions.push(Action::Log { level: LogLevel::Error, message: line });
        i = i + 1;
    }
    assert(action_views(actions@) =~= config_error_logs(string_views(errors@)));
    actions
}

/// The strategy skeleton.
pub struct MyStrategy {
    config: MyConfig,
    state: MyState,
    instrument_meta: Option<InstrumentMeta>,
}

impl View for MyStrategy {
    type V = MyModel;

    closed spec fn view(&self) -> MyModel {
        MyModel {
            config: self.config@,
            state: self.state@,
            instrument_meta: option_meta_view(self.instrument_meta),
        }
    }
}

impl MyStrategy {
    #[verifier::type_invariant]
    spec fn inv(self) -> bool {
        self@.consistent()
    }

    /// A strategy with the given configuration, not started yet.
    pub fn new(config: MyConfig) -> (s: Self)
        ensures
            s@ == MyModel::initial(config@),
    {
        MyStrategy { config, state: MyState::new(), instrument_meta: None }
    }

    /// The configuration of the strategy.
    pub fn config(&self) -> (config: &MyConfig)
        ensures
            config@ == self@.config,
    {
        &self.config
    }

    /// What the strategy keeps track of.
    pub fn state(&self) -> (state: &MyState)
        ensures
            state@ == self@.state,
    {
        &self.state
    }

    /// The rounding rules that the strategy was last started with.
    pub fn instrument_meta(&self) -> (meta: Option<InstrumentMeta>)
        ensures
            option_meta_view(meta) == self@.instrument_meta,
    {
        self.instrument_meta
    }

    /// Cuts a price to five significant figures and then, where rounding
    /// rules are known, rounds it as they prescribe.
    pub fn round_price(&self, price: &Amount) -> (r: Option<Amount>)
        ensures
            option_view(r) == self@.round_price(price@),
    {
        match trim_to_sig_figs(price, PRICE_SIG_FIGS) {
            Some(trimmed) => match &self.instrument_meta {
                Some(meta) => meta.round_price(&trimmed),
                None => Some(trimmed),
            },
            None => None,
        }
    }

    /// Rounds a quantity to the lot size, where rounding rules are known.
    pub fn round_qty(&self, qty: &Amount) -> (r: Option<Amount>)
        ensures
            option_view(r) == self@.round_qty(qty@),
    {
        match &self.instrument_meta {
            Some(meta) => meta.round_qty(qty),
            None => Some(*qty),
        }
    }

    /// The exchange that orders go to.
    pub fn exchange_instance(&self) -> (r: ExchangeInstance)
        ensures
            r@ == self@.config.market.exchange_instance(self@.config.environment),
    {
        self.config.market.exchange_instance(self.config.environment)
    }

    /// The identifier of the instrument traded.
    pub fn instrument_id(&self) -> (r: String)
        ensures
            r@ == self@.config.market.instrument,
    {
        self.config.market.instrument_id()
    }

    /// The identifier of the strategy.
    pub fn id(&self) -> (id: &String)
        ensures
            id@ == self@.config.strategy_id,
    {
        &self.config.strategy_id
    }

    fn stop_request(&self, reason: String) -> (action: Action)
        ensures
            action@ == (ActionView::StopStrategy {
                strategy_id: self@.config.strategy_id,
                reason: reason@,
            }),
    {
        Action::StopStrategy { strategy_id: self.config.strategy_id.clone(), reason }
    }

    /// Starts the strategy with what the host knows of the instrument.
    pub fn on_start(&mut self, meta: Option<InstrumentMeta>) -> (actions: Vec<Action>)
        ensures
            (final(self)@, action_views(actions@)) == old(self)@.start(option_meta_view(meta)),
            final(self)@.consistent(),
    {
        self.state = MyState::new();
        self.instrument_meta = meta;
        let mut actions: Vec<Action> = Vec::new();
        if self.instrument_meta.is_none() {
            let instrument = self.instrument_id();
            let line = followed_by("Instrument not found: ", instrument.as_str());
            actions.push(Action::Log { level: LogLevel::Error, message: line });
            let stop = self.stop_request(String::from_str("Instrument not found"));
            actions.push(stop);
            assert(action_views(actions@) =~= old(self)@.start(option_meta_view(meta)).1);
            return actions;
        }
        let errors = self.config.validate();
        if errors.len() > 0 {
            let mut actions = config_error_actions(&errors);
            let ghost logged = action_views(actions@);
            let joined_errors = join(&errors, "; ");
            let reason = followed_by("Config validation failed: ", joined_errors.as_str());
            let stop = self.stop_request(reason);
            actions.push(stop);
            assert(action_views(actions@) =~= logged + seq![stop@]);
            return actions;
        }
        let size = self.config.order_size.text();
        let instrument = self.instrument_id();
        let mut line = followed_by("MyStrategy started: ", instrument.as_str());
        line.append(" order_size=");
        line.append(size.as_str());
        actions.push(Action::Log { level: LogLevel::Info, message: line });
        self.state.is_initialized = true;
        assert(action_views(actions@) =~= old(self)@.start(option_meta_view(meta)).1);
        actions
    }

    /// Handles an event.
    pub fn on_event(&mut self, event: &Event) -> (actions: Vec<Action>)
        ensures
            (final(self)@, action_views(actions@)) == old(self)@.step(event@),
            final(self)@.consistent(),
    {
        proof {
            use_type_invariant(&*self);
        }
        let mut actions: Vec<Action> = Vec::new();
        if !self.state.is_initialized {
            assert(action_views(actions@) =~= Seq::<ActionView>::empty());
            return actions;
        }
        match event {
            Event::Quote(quote) => {
                let mid = quote.mid();
                if mid.is_some() {
                    self.state.last_mid = mid;
                }
            },
            Event::OrderFilled { side, client_id, price, qty } => {
                let side_text = side.text();
                let price_text = price.text();
                let qty_text = qty.text();
                let mut line = followed_by("Filled: ", side_text.as_str());
                line.append(" ");
                line.append(client_id.as_str());
                line.append(" @ ");
                line.append(price_text.as_str());
                line.append(" qty=");
                line.append(qty_text.as_str());
                actions.push(Action::Log { level: LogLevel::Info, message: line });
            },
            Event::OrderCompleted { client_id, filled_qty, .. } => {
                let qty_text = filled_qty.text();
                let mut line = followed_by("Completed: ", client_id.as_str());
                line.append(" filled_qty=");
                line.append(qty_text.as_str());
                actions.push(Action::Log { level: LogLevel::Info, message: line });
                self.state.active_order = None;
            },
            Event::OrderCanceled { client_id } => {
                let line = followed_by("Canceled: ", client_id.as_str());
                actions.push(Action::Log { level: LogLevel::Info, message: line });
                self.state.active_order = None;
            },
            Event::OrderRejected { client_id, reason } => {
                let mut line = followed_by("Rejected: ", client_id.as_str());
                line.append(" reason=");
                line.append(reason.as_str());
                actions.push(Action::Log { level: LogLevel::Warn, message: line });
                self.state.active_order = None;
            },
            Event::ExchangeStateChanged { old_state, new_state, reason } => {
                let old_text = old_state.text();
                let new_text = new_state.text();
                let mut line = followed_by("Exchange state: ", old_text.as_str());
                line.append(" -> ");
                line.append(new_text.as_str());
                line.append(" (");
                line.append(reason.as_str());
                line.append(")");
                actions.push(Action::Log { level: LogLevel::Info, message: line });
            },
            _ => {},
        }
        assert(action_views(actions@) =~= old(self)@.step(event@).1);
        actions
    }

    /// Handles a timer that fires at the time `now_ms`, in milliseconds
    /// since the Unix epoch: logs the status if more than thirty seconds
    /// have passed since it was last logged.
    pub fn on_timer(&mut self, timer_id: u64, now_ms: i64) -> (actions: Vec<Action>)
        ensures
            (final(self)@, action_views(actions@)) == old(self)@.tick(now_ms),
            final(self)@.consistent(),
    {
        proof {
            use_type_invariant(&*self);
        }
        let mut actions: Vec<Action> = Vec::new();
        if now_ms as i128 - self.state.last_log_ts as i128 > STATUS_INTERVAL_MS as i128 {
            let mid_text = match self.state.last_mid {
                Some(mid) => mid.text(),
                None => String::from_str("unknown"),
            };
            let order_text = order_id_debug(&self.state.active_order);
            let mut line = followed_by("Status: mid=", mid_text.as_str());
            line.append(" active_order=");
            line.append(order_text.as_str());
            actions.push(Action::Log { level: LogLevel::Info, message: line });
            self.state.last_log_ts = now_ms;
        }
        assert(action_views(actions@) =~= old(self)@.tick(now_ms).1);
        actions
    }

    /// Stops the strategy: asks the host to cancel every open order. The
    /// state stays as it is.
    pub fn on_stop(&mut self) -> (actions: Vec<Action>)
        ensures
            final(self)@ == old(self)@,
            action_views(actions@) == old(self)@.stop_actions(),
            final(self)@.consistent(),
    {
        proof {
            use_type_invariant(&*self);
        }
        let mut actions: Vec<Action> = Vec::new();
        let line = String::from_str("MyStrategy stopping — canceling all orders");
        actions.push(Action::Log { level: LogLevel::Info, message: line });
        actions.push(Action::CancelAll(CancelAll::new(self.exchange_instance())));
        assert(action_views(actions@) =~= old(self)@.stop_actions());
        actions
    }
}

} // verus!
