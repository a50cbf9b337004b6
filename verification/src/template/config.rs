//! Configuration of the strategy skeleton.

use crate::amount::{Amount, Dec};
use crate::text::string_views;
use crate::types::{Environment, Market, MarketView};
use vstd::prelude::*;

verus! {

/// What the strategy is told to do. It does not change while the strategy
/// runs.
#[derive(Clone, Debug, PartialEq, Eq)]
pub struct MyConfig {
    pub strategy_id: String,
    pub environment: Environment,
    pub market: Market,
    /// The quantity of each order.
    pub order_size: Amount,
}

/// What contracts see of a [`MyConfig`].
pub struct MyConfigView {
    pub strategy_id: Seq<char>,
    pub environment: Environment,
    pub market: MarketView,
    pub order_size: Dec,
}

impl View for MyConfig {
    type V = MyConfigView;

    open spec fn view(&self) -> MyConfigView {
        MyConfigView {
            strategy_id: self.strategy_id@,
            environment: self.environment,
            market: self.market@,
            order_size: self.order_size@,
        }
    }
}

impl MyConfigView {
    /// Whether the strategy may run on this configuration: its orders have
    /// a size.
    pub open spec fn is_valid(self) -> bool {
        self.order_size.is_positive()
    }

    /// What is wrong with the configuration, one message for each rule it
    /// breaks.
    pub open spec fn validation_errors(self) -> Seq<Seq<char>> {
        if self.order_size.is_positive() {
            Seq::<Seq<char>>::empty()
        } else {
            seq!["order_size must be > 0"@]
        }
    }
}

impl MyConfig {
    /// Lists what is wrong with the configuration. The list is empty
    /// exactly if the configuration is valid.
    pub fn validate(&self) -> (errors: Vec<String>)
        ensures
            string_views(errors@) == self@.validation_errors(),
            errors@.len() == 0 <==> self@.is_valid(),
    {
        let mut errors: Vec<String> = Vec::new();
        if !self.order_size.is_positive() {
            errors.push(String::from_str("order_size must be > 0"));
        }
        assert(string_views(errors@) =~= self@.validation_errors());
        errors
    }
}

} // verus!
