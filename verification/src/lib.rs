//! An event-driven order-lifecycle automaton for single-position trading
//! strategies.
//!
//! A strategy here never talks to its host directly. Each lifecycle callback
//! takes what the host observed (instrument metadata, an event, the clock)
//! and returns the list of [`Action`]s the host is to carry out, in order.
//! The phase bookkeeping is updated before the actions are handed back, so a
//! host that answers an order at once finds the automaton in a consistent
//! phase.
//!
//! Prices and quantities are exact decimals ([`Amount`]); comparing,
//! rounding and printing them is done by `rust_decimal` and `bot_core`.
//! Their arithmetic stops the program where a result is too large for a
//! decimal. The automata never let it come to that: they round only within
//! the bounds given in [`instrument`], which are below `10^28` for a value
//! and at most `10^28` for the number of ticks or lots in it, and a strategy
//! whose order terms lie outside them asks the host to stop it, as it does
//! for a missing instrument or an invalid configuration.
//!
//! Two automata are here: [`SimpleStrategy`], which buys low and sells high
//! in an endless cycle, and [`MyStrategy`], a skeleton that follows the
//! market and its orders and leaves the trading rule open.

pub mod amount;
pub mod instrument;
pub mod simple;
pub mod template;
pub mod text;
pub mod types;

pub use amount::{pow10, Amount, Dec};
pub use instrument::{InstrumentMeta, InstrumentMetaView};
pub use simple::config::SimpleConfig;
pub use simple::state::{Phase, SimpleState};
pub use simple::strategy::SimpleStrategy;
pub use template::config::MyConfig;
pub use template::state::MyState;
pub use template::strategy::MyStrategy;
pub use types::{
    Action, ActionView, CancelAll, Environment, Event, EventView, ExchangeHealth,
    ExchangeInstance, LogLevel, Market, OrderCommand, OrderSide, QuoteEvent, TimeInForce,
};
