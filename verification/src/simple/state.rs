//! Runtime state of the buy-low, sell-high strategy.

use vstd::prelude::*;

verus! {

/// Where the strategy is in its cycle.
#[derive(Clone, Copy, Debug, PartialEq, Eq, Structural)]
pub enum Phase {
    /// Nothing held and no order open.
    WaitingToBuy,
    /// A buy order is open.
    BuyPlaced,
    /// The buy order was filled and no sell order is open yet.
    WaitingToSell,
    /// A sell order is open.
    SellPlaced,
}

impl Phase {
    /// Whether an order is open in this phase.
    pub open spec fn is_placed(self) -> bool {
        self == Phase::BuyPlaced || self == Phase::SellPlaced
    }
}

/// The phase of the strategy and the order it waits for. It is built anew
/// at every start and never stored.
#[derive(Clone, Debug, PartialEq, Eq)]
pub struct SimpleState {
    pub phase: Phase,
    /// The identifier of the open order, if there is one.
    pub active_order: Option<String>,
}

/// What contracts see of a [`SimpleState`].
pub struct SimpleStateView {
    pub phase: Phase,
    pub active_order: Option<Seq<char>>,
}

impl View for SimpleState {
    type V = SimpleStateView;

    open spec fn view(&self) -> SimpleStateView {
        SimpleStateView {
            phase: self.phase,
            active_order: match self.active_order {
                Some(id) => Some(id@),
                None => None,
            },
        }
    }
}

impl SimpleStateView {
    /// The state at start: waiting to buy, no order open.
    pub open spec fn initial() -> SimpleStateView {
        SimpleStateView { phase: Phase::WaitingToBuy, active_order: None }
    }

    /// An order is tracked exactly in the phases in which one is open.
    pub open spec fn consistent(self) -> bool {
        self.active_order is Some <==> self.phase.is_placed()
    }
}

impl SimpleState {
    /// The state at start.
    pub fn new() -> (s: Self)
        ensures
            s@ == SimpleStateView::initial(),
    {
        SimpleState { phase: Phase::WaitingToBuy, active_order: None }
    }
}

} // verus!
