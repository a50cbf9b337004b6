use cycle_strategy::{Amount, Environment, Market, SimpleConfig};

fn amt(mantissa: i128, scale: u32) -> Amount {
    Amount::new(mantissa, scale).unwrap()
}

fn simple(buy: Amount, sell: Amount, size: Amount) -> SimpleConfig {
    SimpleConfig {
        strategy_id: "s".to_string(),
        environment: Environment::Mainnet,
        market: Market { exchange: "hyperliquid".to_string(), instrument: "ETH-PERP".to_string() },
        buy_price: buy,
        sell_price: sell,
        order_size: size,
    }
}

#[test]
fn valid_simple_config_has_no_errors() {
    assert!(simple(amt(100, 0), amt(110, 0), amt(1, 0)).validate().is_empty());
    assert!(simple(amt(-5, 0), amt(1, 3), amt(1, 28)).validate().is_empty());
    // 99.99 < 100 although its mantissa is larger.
    assert!(simple(amt(9999, 2), amt(100, 0), amt(1, 0)).validate().is_empty());
}

#[test]
fn simple_config_rejects_a_buy_price_not_below_the_sell_price() {
    let expected = vec!["buy_price must be < sell_price".to_string()];
    assert_eq!(simple(amt(110, 0), amt(100, 0), amt(1, 0)).validate(), expected);
    assert_eq!(simple(amt(100, 0), amt(100, 0), amt(1, 0)).validate(), expected);
    // Equal numbers written with different scales.
    assert_eq!(simple(amt(1000, 1), amt(100, 0), amt(1, 0)).validate(), expected);
}

#[test]
fn simple_config_rejects_a_size_that_is_not_positive() {
    let expected = vec!["order_size must be > 0".to_string()];
    assert_eq!(simple(amt(100, 0), amt(110, 0), amt(0, 0)).validate(), expected);
    assert_eq!(simple(amt(100, 0), amt(110, 0), amt(0, 5)).validate(), expected);
    assert_eq!(simple(amt(100, 0), amt(110, 0), amt(-1, 2)).validate(), expected);
}

#[test]
fn simple_config_reports_both_errors_in_order() {
    assert_eq!(
        simple(amt(5, 0), amt(4, 0), amt(0, 0)).validate(),
        vec!["buy_price must be < sell_price".to_string(), "order_size must be > 0".to_string()]
    );
}

#[test]
fn amounts_that_do_not_fit_are_refused() {
    assert!(Amount::new(1, 29).is_none());
    assert!(Amount::new(79_228_162_514_264_337_593_543_950_336, 0).is_none());
    assert!(Amount::new(-79_228_162_514_264_337_593_543_950_336, 0).is_none());
    let max = Amount::new(79_228_162_514_264_337_593_543_950_335, 28).unwrap();
    assert_eq!(max.mantissa(), 79_228_162_514_264_337_593_543_950_335);
    assert_eq!(max.scale(), 28);
    assert_eq!(Amount::zero(), Amount::new(0, 0).unwrap());
    assert!(!Amount::zero().is_positive());
    assert!(Amount::new(1, 28).unwrap().is_positive());
}
