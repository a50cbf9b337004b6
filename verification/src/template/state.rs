//! Runtime state of the strategy skeleton.

use crate::amount::{option_view, Amount, Dec};
use vstd::prelude::*;

verus! {

/// What the strategy keeps track of while it runs. It is built anew at
/// every start and never stored.
#[derive(Clone, Debug, PartialEq, Eq)]
pub struct MyState {
    /// Whether the start succeeded.
    pub is_initialized: bool,
    /// The middle of the last quote seen.
    pub last_mid: Option<Amount>,
    /// The identifier of the open order, if there is one.
    pub active_order: Option<String>,
    /// When the status was last logged, in milliseconds since the Unix epoch.
    pub last_log_ts: i64,
}

/// What contracts see of a [`MyState`].
pub struct MyStateView {
    pub is_initialized: bool,
    pub last_mid: Option<Dec>,
    pub active_order: Option<Seq<char>>,
    pub last_log_ts: i64,
}

impl View for MyState {
    type V = MyStateView;

    open spec fn view(&self) -> MyStateView {
        MyStateView {
            is_initialized: self.is_initialized,
            last_mid: option_view(self.last_mid),
            active_order: match self.active_order {
                Some(id) => Some(id@),
                None => None,
            },
            last_log_ts: self.last_log_ts,
        }
    }
}

impl MyStateView {
    /// The state before a start: nothing seen, nothing open.
    pub open spec fn initial() -> MyStateView {
        MyStateView { is_initialized: false, last_mid: None, active_order: None, last_log_ts: 0 }
    }
}

impl MyState {
    /// The state before a start.
    pub fn new() -> (s: Self)
        ensures
            s@ == MyStateView::initial(),
    {
        MyState { is_initialized: false, last_mid: None, active_order: None, last_log_ts: 0 }
    }
}

impl Default for MyState {
    fn default() -> (s: Self)
        ensures
            s@ == MyStateView::initial(),
    {
        MyState::new()
    }
}

} // verus!
