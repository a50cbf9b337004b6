//! The values that pass between a strategy and its host: where to trade,
//! the events the host reports and the actions it is asked to carry out.

use crate::amount::{dec, option_view, Amount, Dec};
use vstd::prelude::*;

verus! {

/// Which deployment of an exchange is traded on.
#[derive(Clone, Copy, Debug, PartialEq, Eq, Structural)]
pub enum Environment {
    Mainnet,
    Testnet,
}

/// The side of an order.
#[derive(Clone, Copy, Debug, PartialEq, Eq, Structural)]
pub enum OrderSide {
    Buy,
    Sell,
}

/// How long an order stays open.
#[derive(Clone, Copy, Debug, PartialEq, Eq, Structural)]
pub enum TimeInForce {
    /// Good until canceled.
    Gtc,
    /// Immediate or cancel.
    Ioc,
    /// Fill or kill.
    Fok,
}

/// Whether an exchange takes orders.
#[derive(Clone, Copy, Debug, PartialEq, Eq, Structural)]
pub enum ExchangeHealth {
    Active,
    Halted,
}

/// The severity of a log line.
#[derive(Clone, Copy, Debug, PartialEq, Eq, Structural)]
pub enum LogLevel {
    Info,
    Warn,
    Error,
}

impl OrderSide {
    /// The side as log lines show it.
    pub open spec fn label(self) -> Seq<char> {
        match self {
            OrderSide::Buy => "BUY"@,
            OrderSide::Sell => "SELL"@,
        }
    }

    /// The side as log lines show it: `BUY` or `SELL`.
    pub fn text(&self) -> (s: String)
        ensures
            s@ == self.label(),
    {
        match self {
            OrderSide::Buy => String::from_str("BUY"),
            OrderSide::Sell => String::from_str("SELL"),
        }
    }
}

impl ExchangeHealth {
    /// The state as log lines show it.
    pub open spec fn label(self) -> Seq<char> {
        match self {
            ExchangeHealth::Active => "Active"@,
            ExchangeHealth::Halted => "Halted"@,
        }
    }

    /// The state as log lines show it: `Active` or `Halted`.
    pub fn text(&self) -> (s: String)
        ensures
            s@ == self.label(),
    {
        match self {
            ExchangeHealth::Active => String::from_str("Active"),
            ExchangeHealth::Halted => String::from_str("Halted"),
        }
    }
}

/// Where to trade: the exchange and the instrument on it.
#[derive(Clone, Debug, PartialEq, Eq)]
pub struct Market {
    pub exchange: String,
    pub instrument: String,
}

/// What contracts see of a [`Market`].
pub struct MarketView {
    pub exchange: Seq<char>,
    pub instrument: Seq<char>,
}

impl View for Market {
    type V = MarketView;

    open spec fn view(&self) -> MarketView {
        MarketView { exchange: self.exchange@, instrument: self.instrument@ }
    }
}

/// An exchange in one of its deployments.
#[derive(Clone, Debug, PartialEq, Eq)]
pub struct ExchangeInstance {
    pub exchange_id: String,
    pub environment: Environment,
}

/// What contracts see of an [`ExchangeInstance`].
pub struct ExchangeInstanceView {
    pub exchange_id: Seq<char>,
    pub environment: Environment,
}

impl View for ExchangeInstance {
    type V = ExchangeInstanceView;

    open spec fn view(&self) -> ExchangeInstanceView {
        ExchangeInstanceView { exchange_id: self.exchange_id@, environment: self.environment }
    }
}

impl MarketView {
    /// The exchange of the market in the given deployment.
    pub open spec fn exchange_instance(self, environment: Environment) -> ExchangeInstanceView {
        ExchangeInstanceView { exchange_id: self.exchange, environment }
    }
}

impl Market {
    /// The exchange of the market in the given deployment.
    pub fn exchange_instance(&self, environment: Environment) -> (r: ExchangeInstance)
        ensures
            r@ == self@.exchange_instance(environment),
    {
        ExchangeInstance { exchange_id: self.exchange.clone(), environment }
    }

    /// The identifier of the instrument traded.
    pub fn instrument_id(&self) -> (r: String)
        ensures
            r@ == self@.instrument,
    {
        self.instrument.clone()
    }
}

/// A limit order for the host to place.
#[derive(Clone, Debug, PartialEq, Eq)]
pub struct OrderCommand {
    /// The identifier by which later events refer to this order.
    pub client_id: String,
    pub exchange: ExchangeInstance,
    pub instrument: String,
    pub side: OrderSide,
    pub price: Amount,
    pub qty: Amount,
    pub tif: TimeInForce,
    pub post_only: bool,
    pub reduce_only: bool,
}

/// What contracts see of an [`OrderCommand`].
pub struct OrderCommandView {
    pub client_id: Seq<char>,
    pub exchange: ExchangeInstanceView,
    pub instrument: Seq<char>,
    pub side: OrderSide,
    pub price: Dec,
    pub qty: Dec,
    pub tif: TimeInForce,
    pub post_only: bool,
    pub reduce_only: bool,
}

impl View for OrderCommand {
    type V = OrderCommandView;

    open spec fn view(&self) -> OrderCommandView {
        OrderCommandView {
            client_id: self.client_id@,
            exchange: self.exchange@,
            instrument: self.instrument@,
            side: self.side,
            price: self.price@,
            qty: self.qty@,
            tif: self.tif,
            post_only: self.post_only,
            reduce_only: self.reduce_only,
        }
    }
}

/// A request to cancel every open order on an exchange, or only those for
/// one instrument.
#[derive(Clone, Debug, PartialEq, Eq)]
pub struct CancelAll {
    pub exchange: ExchangeInstance,
    pub instrument: Option<String>,
}

/// What contracts see of a [`CancelAll`].
pub struct CancelAllView {
    pub exchange: ExchangeInstanceView,
    pub instrument: Option<Seq<char>>,
}

impl View for CancelAll {
    type V = CancelAllView;

    open spec fn view(&self) -> CancelAllView {
        CancelAllView {
            exchange: self.exchange@,
            instrument: match self.instrument {
                Some(i) => Some(i@),
                None => None,
            },
        }
    }
}

impl CancelAll {
    /// The request to cancel every open order on `exchange`.
    pub fn new(exchange: ExchangeInstance) -> (r: CancelAll)
        ensures
            r@ == (CancelAllView { exchange: exchange@, instrument: None }),
    {
        CancelAll { exchange, instrument: None }
    }
}

/// One thing a strategy asks its host to do.
#[derive(Clone, Debug, PartialEq, Eq)]
pub enum Action {
    /// Place a limit order.
    PlaceOrder(OrderCommand),
    /// Cancel all open orders.
    CancelAll(CancelAll),
    /// Stop the strategy, for the reason given.
    StopStrategy { strategy_id: String, reason: String },
    /// Write a line to the log.
    Log { level: LogLevel, message: String },
}

/// What contracts see of an [`Action`].
pub enum ActionView {
    PlaceOrder(OrderCommandView),
    CancelAll(CancelAllView),
    StopStrategy { strategy_id: Seq<char>, reason: Seq<char> },
    Log { level: LogLevel, message: Seq<char> },
}

impl View for Action {
    type V = ActionView;

    open spec fn view(&self) -> ActionView {
        match self {
            Action::PlaceOrder(o) => ActionView::PlaceOrder(o@),
            Action::CancelAll(c) => ActionView::CancelAll(c@),
            Action::StopStrategy { strategy_id, reason } => ActionView::StopStrategy {
                strategy_id: strategy_id@,
                reason: reason@,
            },
            Action::Log { level, message } => ActionView::Log { level: *level, message: message@ },
        }
    }
}

/// The views of a list of actions, in order.
pub open spec fn action_views(actions: Seq<Action>) -> Seq<ActionView> {
    Seq::new(actions.len(), |i: int| actions[i]@)
}

/// How many of the actions place an order.
pub open spec fn count_orders(actions: Seq<ActionView>) -> nat
    decreases actions.len(),
{
    if actions.len() == 0 {
        0
    } else {
        count_orders(actions.drop_last()) + if actions.last() is PlaceOrder {
            1nat
        } else {
            0nat
        }
    }
}

/// A single action places one order if it is a placement, and none
/// otherwise.
pub proof fn lemma_count_orders_single(action: ActionView)
    ensures
        count_orders(seq![action]) == if action is PlaceOrder {
            1nat
        } else {
            0nat
        },
{
    assert(seq![action].drop_last() =~= Seq::<ActionView>::empty());
    assert(seq![action].last() == action);
    reveal_with_fuel(count_orders, 2);
}

/// The orders of two lists of actions add up.
pub proof fn lemma_count_orders_concat(first: Seq<ActionView>, second: Seq<ActionView>)
    ensures
        count_orders(first + second) == count_orders(first) + count_orders(second),
    decreases second.len(),
{
    if second.len() == 0 {
        assert(first + second =~= first);
    } else {
        lemma_count_orders_concat(first, second.drop_last());
        assert((first + second).drop_last() =~= first + second.drop_last());
        assert((first + second).last() == second.last());
    }
}

/// The best bid and ask of an instrument at one moment.
#[derive(Clone, Debug, PartialEq, Eq)]
pub struct QuoteEvent {
    pub exchange: String,
    pub instrument: String,
    pub bid: Amount,
    pub ask: Amount,
    /// Milliseconds since the Unix epoch.
    pub ts: i64,
}

/// What contracts see of a [`QuoteEvent`].
pub struct QuoteEventView {
    pub exchange: Seq<char>,
    pub instrument: Seq<char>,
    pub bid: Dec,
    pub ask: Dec,
    pub ts: i64,
}

impl View for QuoteEvent {
    type V = QuoteEventView;

    open spec fn view(&self) -> QuoteEventView {
        QuoteEventView {
            exchange: self.exchange@,
            instrument: self.instrument@,
            bid: self.bid@,
            ask: self.ask@,
            ts: self.ts,
        }
    }
}

/// What `bot_core` computes as the middle between `bid` and `ask`.
pub uninterp spec fn quote_mid(bid: Dec, ask: Dec) -> Dec;

impl QuoteEventView {
    /// The middle between bid and ask, where both are moderate.
    pub open spec fn mid(self) -> Option<Dec> {
        if self.bid.is_moderate() && self.ask.is_moderate() {
            Some(quote_mid(self.bid, self.ask))
        } else {
            None
        }
    }
}

impl QuoteEvent {
    /// The middle between bid and ask.
    pub fn mid(&self) -> (r: Option<Amount>)
        ensures
            option_view(r) == self@.mid(),
    {
        if self.bid.is_moderate() && self.ask.is_moderate() {
            let raw = quote_event_mid(self);
            Amount::new(raw.0, raw.1)
        } else {
            None
        }
    }
}

/// Calls `bot_core::QuoteEvent::mid`, which adds bid and ask and halves the
/// sum.
///
/// The contract names the result and says that it is a decimal. It asks for
/// a moderate bid and ask: both are then below `10^28` in magnitude and
/// their sum below `2 * 10^28`, inside what a decimal can hold (just under
/// `8 * 10^28`); beyond that the addition would stop the program. Every
/// amount fits a decimal, so the conversions cannot fail.
#[verifier::external_body]
fn quote_event_mid(quote: &QuoteEvent) -> (r: (i128, u32))
    requires
        quote@.bid.is_moderate(),
        quote@.ask.is_moderate(),
    ensures
        dec(r.0 as int, r.1 as nat).representable(),
        dec(r.0 as int, r.1 as nat) == quote_mid(quote@.bid, quote@.ask),
{
    let q = bot_core::QuoteEvent {
        exchange: bot_core::ExchangeId::new(quote.exchange.clone()),
        instrument: bot_core::InstrumentId::new(quote.instrument.clone()),
        bid: bot_core::Price::new(
            rust_decimal::Decimal::from_i128_with_scale(quote.bid.mantissa(), quote.bid.scale()),
        ),
        ask: bot_core::Price::new(
            rust_decimal::Decimal::from_i128_with_scale(quote.ask.mantissa(), quote.ask.scale()),
        ),
        ts: quote.ts,
    };
    let mid = q.mid().value();
    (mid.mantissa(), mid.scale())
}

/// Something the host observed and reports to the strategy.
#[derive(Clone, Debug, PartialEq, Eq)]
pub enum Event {
    /// The best bid and ask changed.
    Quote(QuoteEvent),
    /// The funding rate of a perpetual market changed.
    FundingRate,
    /// The exchange accepted an order.
    OrderAccepted,
    /// An order was rejected.
    OrderRejected { client_id: String, reason: String },
    /// An order was filled, in part or in full.
    OrderFilled { side: OrderSide, client_id: String, price: Amount, qty: Amount },
    /// An order was filled in full.
    OrderCompleted { client_id: String, filled_qty: Amount, avg_fill_px: Option<Amount> },
    /// An order was canceled.
    OrderCanceled { client_id: String },
    /// The exchange went from one health state to another.
    ExchangeStateChanged { old_state: ExchangeHealth, new_state: ExchangeHealth, reason: String },
}

/// What contracts see of an [`Event`].
pub enum EventView {
    Quote(QuoteEventView),
    FundingRate,
    OrderAccepted,
    OrderRejected { client_id: Seq<char>, reason: Seq<char> },
    OrderFilled { side: OrderSide, client_id: Seq<char>, price: Dec, qty: Dec },
    OrderCompleted { client_id: Seq<char>, filled_qty: Dec, avg_fill_px: Option<Dec> },
    OrderCanceled { client_id: Seq<char> },
    ExchangeStateChanged { old_state: ExchangeHealth, new_state: ExchangeHealth, reason: Seq<char> },
}

impl View for Event {
    type V = EventView;

    open spec fn view(&self) -> EventView {
        match self {
            Event::Quote(q) => EventView::Quote(q@),
            Event::FundingRate => EventView::FundingRate,
            Event::OrderAccepted => EventView::OrderAccepted,
            Event::OrderRejected { client_id, reason } => EventView::OrderRejected {
                client_id: client_id@,
                reason: reason@,
            },
            Event::OrderFilled { side, client_id, price, qty } => EventView::OrderFilled {
                side: *side,
                client_id: client_id@,
                price: price@,
                qty: qty@,
            },
            Event::OrderCompleted { client_id, filled_qty, avg_fill_px } => EventView::OrderCompleted {
                client_id: client_id@,
                filled_qty: filled_qty@,
                avg_fill_px: option_view(*avg_fill_px),
            },
            Event::OrderCanceled { client_id } => EventView::OrderCanceled { client_id: client_id@ },
            Event::ExchangeStateChanged { old_state, new_state, reason } => {
                EventView::ExchangeStateChanged {
                    old_state: *old_state,
                    new_state: *new_state,
                    reason: reason@,
                }
            },
        }
    }
}

/// Whether the character is a digit or one of the letters `a` to `f`.
pub open spec fn is_hex_digit(c: char) -> bool {
    ('0' <= c && c <= '9') || ('a' <= c && c <= 'f')
}

/// The form of every identifier that is drawn for an order: `0x` followed
/// by 32 hexadecimal digits.
pub open spec fn is_drawn_order_id(id: Seq<char>) -> bool {
    &&& id.len() == 34
    &&& id[0] == '0'
    &&& id[1] == 'x'
    &&& forall|i: int| 2 <= i < 34 ==> is_hex_digit(#[trigger] id[i])
}

/// Calls `bot_core::ClientOrderId::generate`, which draws a random UUID and
/// writes it as `0x` and 32 hexadecimal digits in lower case. Of the
/// identifier only this form is promised, not which one it is.
#[verifier::external_body]
pub(crate) fn fresh_order_id() -> (id: String)
    ensures
        is_drawn_order_id(id@),
{
    bot_core::ClientOrderId::generate().0
}

} // verus!
