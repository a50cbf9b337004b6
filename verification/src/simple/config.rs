//! Configuration of the buy-low, sell-high strategy.

use crate::amount::{lemma_lt_is_not_ge, Amount, Dec};
use crate::instrument::{InstrumentMeta, InstrumentMetaView};
use crate::text::string_views;
use crate::types::{Environment, Market, MarketView};
use vstd::prelude::*;

verus! {

/// What the strategy is told to do. It does not change while the strategy
/// runs.
#[derive(Clone, Debug, PartialEq, Eq)]
pub struct SimpleConfig {
    pub strategy_id: String,
    pub environment: Environment,
    pub market: Market,
    /// The price at which to buy.
    pub buy_price: Amount,
    /// The price at which to sell what was bought.
    pub sell_price: Amount,
    /// The quantity of each order.
    pub order_size: Amount,
}

/// What contracts see of a [`SimpleConfig`].
pub struct SimpleConfigView {
    pub strategy_id: Seq<char>,
    pub environment: Environment,
    pub market: MarketView,
    pub buy_price: Dec,
    pub sell_price: Dec,
    pub order_size: Dec,
}

impl View for SimpleConfig {
    type V = SimpleConfigView;

    open spec fn view(&self) -> SimpleConfigView {
        SimpleConfigView {
            strategy_id: self.strategy_id@,
            environment: self.environment,
            market: self.market@,
            buy_price: self.buy_price@,
            sell_price: self.sell_price@,
            order_size: self.order_size@,
        }
    }
}

/// The price and the quantity of an order.
pub struct Terms {
    pub price: Dec,
    pub qty: Dec,
}

impl SimpleConfigView {
    /// Whether the strategy may trade on this configuration: it buys below
    /// the price it sells at, and its orders have a size.
    pub open spec fn is_valid(self) -> bool {
        self.buy_price.lt(self.sell_price) && self.order_size.is_positive()
    }

    /// What is wrong with the configuration, one message for each rule it
    /// breaks.
    pub open spec fn validation_errors(self) -> Seq<Seq<char>> {
        let price_errors = if self.buy_price.lt(self.sell_price) {
            Seq::<Seq<char>>::empty()
        } else {
            seq!["buy_price must be < sell_price"@]
        };
        let size_errors = if self.order_size.is_positive() {
            Seq::<Seq<char>>::empty()
        } else {
            seq!["order_size must be > 0"@]
        };
        price_errors + size_errors
    }

    /// The terms of a buy order on an instrument with rounding rules `meta`,
    /// where they can be computed.
    pub open spec fn buy_terms(self, meta: InstrumentMetaView) -> Option<Terms> {
        match (meta.round_price(self.buy_price), meta.round_qty(self.order_size)) {
            (Some(price), Some(qty)) => Some(Terms { price, qty }),
            _ => None,
        }
    }

    /// The terms of a sell order on an instrument with rounding rules
    /// `meta`, where they can be computed.
    pub open spec fn sell_terms(self, meta: InstrumentMetaView) -> Option<Terms> {
        match (meta.round_price(self.sell_price), meta.trunc_qty(self.order_size)) {
            (Some(price), Some(qty)) => Some(Terms { price, qty }),
            _ => None,
        }
    }

    /// Whether the terms of both orders can be computed: each price and the
    /// size can be counted in ticks or lots, and each rounded price has at
    /// most 23 whole digits.
    pub open spec fn can_trade_with(self, meta: InstrumentMetaView) -> bool {
        self.buy_terms(meta) is Some && self.sell_terms(meta) is Some
    }
}

/// A configuration is valid exactly if nothing is wrong with it.
pub proof fn lemma_valid_iff_no_errors(config: SimpleConfigView)
    ensures
        config.is_valid() <==> config.validation_errors().len() == 0,
{
}

impl SimpleConfig {
    /// Lists what is wrong with the configuration. The list is empty
    /// exactly if the configuration is valid.
    pub fn validate(&self) -> (errors: Vec<String>)
        ensures
            string_views(errors@) == self@.validation_errors(),
            errors@.len() == 0 <==> self@.is_valid(),
    {
        let mut errors: Vec<String> = Vec::new();
        proof {
            lemma_lt_is_not_ge(self.buy_price@, self.sell_price@);
        }
        if self.sell_price.le(&self.buy_price) {
            errors.push(String::from_str("buy_price must be < sell_price"));
        }
        if !self.order_size.is_positive() {
            errors.push(String::from_str("order_size must be > 0"));
        }
        assert(string_views(errors@) =~= self@.validation_errors());
        errors
    }

    /// Whether the terms of both orders can be computed on an instrument
    /// with rounding rules `meta`.
    pub fn can_trade_with(&self, meta: &InstrumentMeta) -> (r: bool)
        ensures
            r == self@.can_trade_with(meta@),
    {
        let buy_price = meta.round_price(&self.buy_price);
        let buy_qty = meta.round_qty(&self.order_size);
        let sell_price = meta.round_price(&self.sell_price);
        let sell_qty = meta.trunc_qty(&self.order_size);
        buy_price.is_some() && buy_qty.is_some() && sell_price.is_some() && sell_qty.is_some()
    }
}

} // verus!
