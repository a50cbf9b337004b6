use cycle_strategy::{
    Action, Amount, CancelAll, Environment, Event, ExchangeHealth, ExchangeInstance,
    InstrumentMeta, LogLevel, Market, OrderCommand, OrderSide, Phase, QuoteEvent, SimpleConfig,
    SimpleState, SimpleStrategy, TimeInForce,
};

fn amt(mantissa: i128, scale: u32) -> Amount {
    Amount::new(mantissa, scale).unwrap()
}

fn config(buy: i128, sell: i128, size: i128) -> SimpleConfig {
    SimpleConfig {
        strategy_id: "btc-simple".to_string(),
        environment: Environment::Testnet,
        market: Market {
            exchange: "hyperliquid".to_string(),
            instrument: "BTC-PERP".to_string(),
        },
        buy_price: amt(buy, 0),
        sell_price: amt(sell, 0),
        order_size: amt(size, 0),
    }
}

fn meta() -> InstrumentMeta {
    InstrumentMeta { tick_size: amt(1, 0), lot_size: amt(1, 0) }
}

fn order(id: &str, side: OrderSide, price: Amount, qty: Amount) -> Action {
    Action::PlaceOrder(OrderCommand {
        client_id: id.to_string(),
        exchange: exchange(),
        instrument: "BTC-PERP".to_string(),
        side,
        price,
        qty,
        tif: TimeInForce::Gtc,
        post_only: false,
        reduce_only: false,
    })
}

fn exchange() -> ExchangeInstance {
    ExchangeInstance { exchange_id: "hyperliquid".to_string(), environment: Environment::Testnet }
}

fn log(level: LogLevel, message: &str) -> Action {
    Action::Log { level, message: message.to_string() }
}

fn completed(id: &str, avg: Option<Amount>) -> Event {
    Event::OrderCompleted { client_id: id.to_string(), filled_qty: amt(1, 0), avg_fill_px: avg }
}

fn orders(actions: &[Action]) -> Vec<OrderCommand> {
    let mut found = Vec::new();
    for a in actions {
        if let Action::PlaceOrder(o) = a {
            found.push(o.clone());
        }
    }
    found
}

fn started() -> SimpleStrategy {
    let mut s = SimpleStrategy::new(config(100, 110, 1));
    s.on_start_with_id(Some(meta()), "A".to_string());
    s
}

#[test]
fn new_strategy_is_at_rest() {
    let s = SimpleStrategy::new(config(100, 110, 1));
    assert_eq!(s.id(), "btc-simple");
    assert_eq!(*s.state(), SimpleState { phase: Phase::WaitingToBuy, active_order: None });
    assert_eq!(*s.state(), SimpleState::new());
    assert!(!s.is_running());
    assert_eq!(s.config().buy_price, amt(100, 0));
}

#[test]
fn start_places_one_buy_order_at_the_buy_price() {
    let mut s = SimpleStrategy::new(config(100, 110, 1));
    let actions = s.on_start_with_id(Some(meta()), "A".to_string());
    assert_eq!(
        actions,
        vec![
            log(LogLevel::Info, "SimpleStrategy started: buy@100 sell@110 qty=1"),
            order("A", OrderSide::Buy, amt(100, 0), amt(1, 0)),
            log(LogLevel::Info, "BUY order placed @ 100"),
        ]
    );
    assert_eq!(s.state().phase, Phase::BuyPlaced);
    assert_eq!(s.state().active_order, Some("A".to_string()));
    assert!(s.is_running());
}

#[test]
fn completed_buy_places_one_sell_order_at_the_sell_price() {
    let mut s = started();
    let actions = s.on_event_with_id(&completed("A", Some(amt(100, 0))), "B".to_string());
    assert_eq!(
        actions,
        vec![
            log(LogLevel::Info, "Buy filled @ avg=Some(Price(100))"),
            order("B", OrderSide::Sell, amt(110, 0), amt(1, 0)),
            log(LogLevel::Info, "SELL order placed @ 110"),
        ]
    );
    assert_eq!(s.state().phase, Phase::SellPlaced);
    assert_eq!(s.state().active_order, Some("B".to_string()));
}

#[test]
fn completed_sell_places_the_next_buy_order() {
    let mut s = started();
    s.on_event_with_id(&completed("A", Some(amt(100, 0))), "B".to_string());
    let actions = s.on_event_with_id(&completed("B", None), "C".to_string());
    assert_eq!(
        actions,
        vec![
            log(LogLevel::Info, "Sell filled @ avg=None — cycle complete!"),
            order("C", OrderSide::Buy, amt(100, 0), amt(1, 0)),
            log(LogLevel::Info, "BUY order placed @ 100"),
        ]
    );
    assert_eq!(s.state().phase, Phase::BuyPlaced);
    assert_eq!(s.state().active_order, Some("C".to_string()));
}

#[test]
fn rejected_order_resets_and_buys_again_once() {
    let mut s = started();
    let event = Event::OrderRejected { client_id: "A".to_string(), reason: "no margin".to_string() };
    let actions = s.on_event_with_id(&event, "B".to_string());
    assert_eq!(
        actions,
        vec![
            log(LogLevel::Warn, "Order canceled/rejected — resetting to buy phase"),
            order("B", OrderSide::Buy, amt(100, 0), amt(1, 0)),
            log(LogLevel::Info, "BUY order placed @ 100"),
        ]
    );
    assert_eq!(orders(&actions).len(), 1);
    assert_eq!(s.state().phase, Phase::BuyPlaced);
    assert_eq!(s.state().active_order, Some("B".to_string()));
}

#[test]
fn canceled_sell_order_resets_to_buying() {
    let mut s = started();
    s.on_event_with_id(&completed("A", None), "B".to_string());
    assert_eq!(s.state().phase, Phase::SellPlaced);
    let actions =
        s.on_event_with_id(&Event::OrderCanceled { client_id: "B".to_string() }, "C".to_string());
    let placed = orders(&actions);
    assert_eq!(placed.len(), 1);
    assert_eq!(placed[0].side, OrderSide::Buy);
    assert_eq!(placed[0].client_id, "C");
    assert_eq!(s.state().phase, Phase::BuyPlaced);
}

#[test]
fn invalid_prices_stop_the_strategy_without_an_order() {
    let mut s = SimpleStrategy::new(config(110, 100, 1));
    let actions = s.on_start_with_id(Some(meta()), "A".to_string());
    assert_eq!(
        actions,
        vec![Action::StopStrategy {
            strategy_id: "btc-simple".to_string(),
            reason: "buy_price must be < sell_price".to_string(),
        }]
    );
    assert!(orders(&actions).is_empty());
    assert!(!s.is_running());
    assert_eq!(*s.state(), SimpleState::new());
}

#[test]
fn every_broken_rule_is_reported_in_the_stop_reason() {
    let mut s = SimpleStrategy::new(config(110, 110, 0));
    let actions = s.on_start_with_id(Some(meta()), "A".to_string());
    assert_eq!(
        actions,
        vec![Action::StopStrategy {
            strategy_id: "btc-simple".to_string(),
            reason: "buy_price must be < sell_price; order_size must be > 0".to_string(),
        }]
    );
}

#[test]
fn missing_instrument_stops_the_strategy_without_an_order() {
    let mut s = SimpleStrategy::new(config(100, 110, 1));
    let actions = s.on_start_with_id(None, "A".to_string());
    assert_eq!(
        actions,
        vec![Action::StopStrategy {
            strategy_id: "btc-simple".to_string(),
            reason: "Instrument not found".to_string(),
        }]
    );
    assert!(!s.is_running());
}

#[test]
fn terms_that_cannot_be_rounded_stop_the_strategy_without_an_order() {
    let mut c = config(100, 110, 1);
    // A price of 24 whole digits cannot be cut to five figures.
    c.sell_price = amt(100_000_000_000_000_000_000_000, 0);
    let mut s = SimpleStrategy::new(c);
    let actions = s.on_start_with_id(Some(meta()), "A".to_string());
    assert_eq!(
        actions,
        vec![Action::StopStrategy {
            strategy_id: "btc-simple".to_string(),
            reason: "Order price or size cannot be rounded".to_string(),
        }]
    );
    assert!(!s.is_running());
}

#[test]
fn no_order_follows_a_failed_start() {
    let mut s = SimpleStrategy::new(config(110, 100, 1));
    s.on_start_with_id(Some(meta()), "A".to_string());
    let events = vec![
        completed("A", None),
        Event::OrderCanceled { client_id: "A".to_string() },
        Event::OrderRejected { client_id: "A".to_string(), reason: "x".to_string() },
    ];
    for e in &events {
        assert!(s.on_event_with_id(e, "B".to_string()).is_empty());
        assert!(s.on_event(e).is_empty());
        assert_eq!(*s.state(), SimpleState::new());
    }
}

#[test]
fn other_events_change_nothing() {
    let mut s = started();
    let before = s.state().clone();
    let events = vec![
        Event::Quote(QuoteEvent {
            exchange: "hyperliquid".to_string(),
            instrument: "BTC-PERP".to_string(),
            bid: amt(99, 0),
            ask: amt(101, 0),
            ts: 1,
        }),
        Event::FundingRate,
        Event::OrderAccepted,
        Event::OrderFilled {
            side: OrderSide::Buy,
            client_id: "A".to_string(),
            price: amt(100, 0),
            qty: amt(1, 0),
        },
        Event::ExchangeStateChanged {
            old_state: ExchangeHealth::Active,
            new_state: ExchangeHealth::Halted,
            reason: "502".to_string(),
        },
    ];
    for e in &events {
        assert!(s.on_event_with_id(e, "B".to_string()).is_empty());
        assert!(s.on_event(e).is_empty());
        assert_eq!(*s.state(), before);
    }
}

#[test]
fn timer_changes_nothing() {
    let mut s = started();
    let before = s.state().clone();
    assert!(s.on_timer(7).is_empty());
    assert_eq!(*s.state(), before);
}

#[test]
fn stop_cancels_everything_and_makes_no_transition() {
    let mut s = started();
    let before = s.state().clone();
    let actions = s.on_stop();
    assert_eq!(
        actions,
        vec![
            Action::CancelAll(CancelAll { exchange: exchange(), instrument: None }),
            log(LogLevel::Info, "SimpleStrategy stopped"),
        ]
    );
    assert!(orders(&actions).is_empty());
    assert_eq!(s.state().phase, Phase::BuyPlaced);
    assert_eq!(*s.state(), before);
    assert!(s.is_running());
}

#[test]
fn stop_keeps_every_phase() {
    let mut s = SimpleStrategy::new(config(100, 110, 1));
    s.on_stop();
    assert_eq!(*s.state(), SimpleState::new());
    assert!(!s.is_running());
    s.on_start_with_id(Some(meta()), "A".to_string());
    s.on_event_with_id(&completed("A", None), "B".to_string());
    s.on_stop();
    assert_eq!(s.state().phase, Phase::SellPlaced);
    assert_eq!(s.state().active_order, Some("B".to_string()));
}

fn is_drawn(id: &str) -> bool {
    id.len() == 34
        && id.starts_with("0x")
        && id[2..].chars().all(|c| c.is_ascii_digit() || ('a'..='f').contains(&c))
}

#[test]
fn drawn_identifiers_are_tracked_and_differ() {
    let mut s = SimpleStrategy::new(config(100, 110, 1));
    let first = orders(&s.on_start(Some(meta())));
    assert_eq!(first.len(), 1);
    assert_eq!(s.state().active_order, Some(first[0].client_id.clone()));
    assert!(is_drawn(&first[0].client_id));
    let second = orders(&s.on_event(&completed(&first[0].client_id, None)));
    assert_eq!(second.len(), 1);
    assert_eq!(second[0].side, OrderSide::Sell);
    assert_eq!(s.state().active_order, Some(second[0].client_id.clone()));
    assert!(is_drawn(&second[0].client_id));
    assert_ne!(first[0].client_id, second[0].client_id);
    let third = orders(&s.on_event(&Event::OrderCanceled { client_id: "x".to_string() }));
    assert_eq!(third.len(), 1);
    assert!(is_drawn(&third[0].client_id));
    assert_ne!(second[0].client_id, third[0].client_id);
}

#[test]
fn a_size_of_many_decimal_places_is_traded() {
    let mut c = config(100, 110, 1);
    c.order_size = amt(3_333_333_333_333_333_333_333_333_333, 28);
    let mut s = SimpleStrategy::new(c);
    let m = InstrumentMeta { tick_size: amt(1, 2), lot_size: amt(1, 3) };
    let bought = orders(&s.on_start_with_id(Some(m), "A".to_string()));
    assert_eq!(bought.len(), 1);
    assert_eq!(bought[0].qty.text(), "0.333");
    assert_eq!(s.state().phase, Phase::BuyPlaced);
    let sold = orders(&s.on_event_with_id(&completed("A", None), "B".to_string()));
    assert_eq!(sold[0].qty.text(), "0.333");
}

#[test]
fn rules_that_are_not_positive_leave_the_terms_as_configured() {
    let mut c = config(100, 110, 1);
    c.order_size = amt(12345, 4);
    let mut s = SimpleStrategy::new(c);
    let m = InstrumentMeta { tick_size: amt(0, 0), lot_size: amt(-1, 0) };
    let bought = orders(&s.on_start_with_id(Some(m), "A".to_string()));
    assert_eq!(bought[0].price, amt(100, 0));
    assert_eq!(bought[0].qty, amt(12345, 4));
}

#[test]
fn sell_quantity_is_cut_down_and_buy_quantity_rounded() {
    let mut c = config(100, 110, 1);
    c.order_size = amt(15, 4);
    c.buy_price = amt(1001234, 4);
    let mut s = SimpleStrategy::new(c);
    let m = InstrumentMeta { tick_size: amt(1, 2), lot_size: amt(1, 3) };
    let bought = orders(&s.on_start_with_id(Some(m), "A".to_string()));
    assert_eq!(bought[0].price.text(), "100.12");
    assert_eq!(bought[0].qty.text(), "0.002");
    let sold = orders(&s.on_event_with_id(&completed("A", None), "B".to_string()));
    assert_eq!(sold[0].price.text(), "110.00");
    assert_eq!(sold[0].qty.text(), "0.001");
    assert!(sold[0].qty.le(&bought[0].qty));
}

#[test]
fn restart_builds_the_state_anew() {
    let mut s = started();
    s.on_event_with_id(&completed("A", None), "B".to_string());
    assert_eq!(s.state().phase, Phase::SellPlaced);
    let actions = s.on_start_with_id(Some(meta()), "C".to_string());
    assert_eq!(orders(&actions).len(), 1);
    assert_eq!(s.state().phase, Phase::BuyPlaced);
    assert_eq!(s.state().active_order, Some("C".to_string()));
}
