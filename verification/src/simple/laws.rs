//! What holds of the buy-low, sell-high automaton on every input.

use crate::amount::Dec;
use crate::instrument::InstrumentMetaView;
use crate::simple::config::SimpleConfigView;
use crate::simple::state::Phase;
use crate::simple::strategy::{
    info, limit_order, placed_state, placement_actions, reset_text, started_text, SimpleModel,
};
use crate::types::{
    count_orders, lemma_count_orders_concat, lemma_count_orders_single, ActionView, EventView,
    LogLevel, OrderSide,
};
use vstd::prelude::*;

verus! {

/// Whether the strategy has no use for the event: it is neither the
/// completion, nor the cancellation, nor the rejection of an order.
pub open spec fn is_unrelated(event: EventView) -> bool {
    match event {
        EventView::OrderCompleted { .. } => false,
        EventView::OrderCanceled { .. } => false,
        EventView::OrderRejected { .. } => false,
        _ => true,
    }
}

/// Placing an order asks the host for exactly one order.
pub proof fn lemma_placement_is_one_order(
    model: SimpleModel,
    side: OrderSide,
    price: Dec,
    qty: Dec,
    id: Seq<char>,
)
    ensures
        count_orders(model.place(side, price, qty, id).1) == 1,
        model.place(side, price, qty, id).0.state == placed_state(side, id),
{
    let actions = placement_actions(model.config, side, price, qty, id);
    assert(actions =~= seq![actions[0]] + seq![actions[1]]);
    lemma_count_orders_single(actions[0]);
    lemma_count_orders_single(actions[1]);
    lemma_count_orders_concat(seq![actions[0]], seq![actions[1]]);
}

/// An automaton before its first start is consistent.
pub proof fn lemma_initial_is_consistent(config: SimpleConfigView)
    ensures
        SimpleModel::initial(config).consistent(),
        !SimpleModel::initial(config).is_running(),
{
}

/// A start leaves the automaton consistent, whatever it was started with.
pub proof fn lemma_start_keeps_consistent(
    model: SimpleModel,
    meta: Option<InstrumentMetaView>,
    id: Seq<char>,
)
    ensures
        model.start(meta, id).0.consistent(),
{
}

/// An event leaves a consistent automaton consistent: after it, an order is
/// tracked exactly if the phase is one in which an order is open.
pub proof fn lemma_step_keeps_consistent(model: SimpleModel, event: EventView, id: Seq<char>)
    requires
        model.consistent(),
    ensures
        model.step(event, id).0.consistent(),
        model.step(event, id).0.state.active_order is Some <==> model.step(
            event,
            id,
        ).0.state.phase.is_placed(),
{
}

/// A stop asks the host to cancel every open order and for no order.
pub proof fn lemma_stop_places_nothing(model: SimpleModel)
    ensures
        model.stop_actions().len() == 2,
        model.stop_actions()[0] is CancelAll,
        count_orders(model.stop_actions()) == 0,
{
    let actions = model.stop_actions();
    assert(actions =~= seq![actions[0]] + seq![actions[1]]);
    lemma_count_orders_single(actions[0]);
    lemma_count_orders_single(actions[1]);
    lemma_count_orders_concat(seq![actions[0]], seq![actions[1]]);
}

/// Any sequence of events leaves a consistent automaton consistent.
pub proof fn lemma_run_keeps_consistent(
    model: SimpleModel,
    events: Seq<EventView>,
    ids: spec_fn(int) -> Seq<char>,
)
    requires
        model.consistent(),
    ensures
        model.run(events, ids).0.consistent(),
    decreases events.len(),
{
    if events.len() > 0 {
        lemma_run_keeps_consistent(model, events.drop_last(), ids);
        lemma_step_keeps_consistent(
            model.run(events.drop_last(), ids).0,
            events.last(),
            ids(events.len() - 1),
        );
    }
}

/// The automaton never idles between a filled buy order and its sell order:
/// no start and no event takes it into the phase `WaitingToSell`.
pub proof fn lemma_never_waits_to_sell(
    model: SimpleModel,
    meta: Option<InstrumentMetaView>,
    event: EventView,
    id: Seq<char>,
)
    ensures
        model.start(meta, id).0.state.phase != Phase::WaitingToSell,
        model.state.phase != Phase::WaitingToSell ==> model.step(event, id).0.state.phase
            != Phase::WaitingToSell,
{
}

/// The configuration, and with it the identifier of the strategy, never
/// changes: not at a start, not on an event, not over any sequence of events.
pub proof fn lemma_config_is_kept(
    model: SimpleModel,
    meta: Option<InstrumentMetaView>,
    id: Seq<char>,
    events: Seq<EventView>,
    ids: spec_fn(int) -> Seq<char>,
)
    ensures
        model.start(meta, id).0.config == model.config,
        model.run(events, ids).0.config == model.config,
    decreases events.len(),
{
    if events.len() > 0 {
        lemma_config_is_kept(model, meta, id, events.drop_last(), ids);
    }
}

/// An automaton at rest ignores every event.
pub proof fn lemma_at_rest_ignores_events(model: SimpleModel, event: EventView, id: Seq<char>)
    requires
        !model.is_running(),
    ensures
        model.step(event, id) == (model, Seq::<ActionView>::empty()),
{
}

/// An automaton at rest stays at rest and asks for nothing, whatever events
/// are reported to it.
pub proof fn lemma_at_rest_run_is_silent(
    model: SimpleModel,
    events: Seq<EventView>,
    ids: spec_fn(int) -> Seq<char>,
)
    requires
        !model.is_running(),
    ensures
        model.run(events, ids) == (model, Seq::<ActionView>::empty()),
    decreases events.len(),
{
    if events.len() > 0 {
        lemma_at_rest_run_is_silent(model, events.drop_last(), ids);
        assert(Seq::<ActionView>::empty() + Seq::<ActionView>::empty() =~= Seq::<
            ActionView,
        >::empty());
    }
}

/// With an invalid configuration the start asks the host for a stop and for
/// nothing else, and no order is placed at the start or in answer to any
/// events reported after it.
pub proof fn lemma_invalid_config_never_trades(
    model: SimpleModel,
    meta: Option<InstrumentMetaView>,
    id: Seq<char>,
    events: Seq<EventView>,
    ids: spec_fn(int) -> Seq<char>,
)
    requires
        !model.config.is_valid(),
    ensures
        model.start(meta, id).1.len() == 1,
        model.start(meta, id).1[0] is StopStrategy,
        !model.start(meta, id).0.is_running(),
        count_orders(model.start(meta, id).1 + model.start(meta, id).0.run(events, ids).1) == 0,
{
    let started = model.start(meta, id);
    lemma_at_rest_run_is_silent(started.0, events, ids);
    lemma_count_orders_single(started.1[0]);
    assert(started.1 =~= seq![started.1[0]]);
    assert(started.1 + Seq::<ActionView>::empty() =~= started.1);
}

/// With a valid configuration, rounding rules for the instrument and terms
/// that can be computed, the start places exactly one order, a buy order
/// under the identifier given, and the automaton waits for it.
pub proof fn lemma_start_places_one_buy(model: SimpleModel, meta: InstrumentMetaView, id: Seq<char>)
    requires
        model.config.is_valid(),
        model.config.can_trade_with(meta),
    ensures
        model.start(Some(meta), id).0.is_running(),
        model.start(Some(meta), id).0.state == placed_state(OrderSide::Buy, id),
        count_orders(model.start(Some(meta), id).1) == 1,
        model.start(Some(meta), id).1[1] == ActionView::PlaceOrder(
            limit_order(
                model.config,
                OrderSide::Buy,
                model.config.buy_terms(meta)->0.price,
                model.config.buy_terms(meta)->0.qty,
                id,
            ),
        ),
{
    let ready = SimpleModel { meta: Some(meta), ..model.halted() };
    let terms = model.config.buy_terms(meta)->0;
    lemma_placement_is_one_order(ready, OrderSide::Buy, terms.price, terms.qty, id);
    let log = seq![info(started_text(model.config))];
    lemma_count_orders_single(log[0]);
    lemma_count_orders_concat(log, ready.place_buy(id).1);
}

/// A buy order filled in full is always answered with exactly one order, a
/// sell order under the identifier given, and the automaton waits for it.
/// Where the identifier given is not that of the buy order, the order
/// tracked afterwards is another than before.
pub proof fn lemma_completed_buy_places_one_sell(
    model: SimpleModel,
    event: EventView,
    id: Seq<char>,
)
    requires
        model.consistent(),
        model.is_running(),
        model.state.phase == Phase::BuyPlaced,
        event is OrderCompleted,
    ensures
        model.step(event, id).0.state.phase == Phase::SellPlaced,
        model.step(event, id).0.state.active_order == Some(id),
        model.state.active_order != Some(id) ==> model.step(event, id).0.state.active_order
            != model.state.active_order,
        count_orders(model.step(event, id).1) == 1,
        model.step(event, id).1[1] == ActionView::PlaceOrder(
            limit_order(
                model.config,
                OrderSide::Sell,
                model.config.sell_terms(model.meta->0)->0.price,
                model.sell_qty(),
                id,
            ),
        ),
{
    let terms = model.config.sell_terms(model.meta->0)->0;
    lemma_placement_is_one_order(model, OrderSide::Sell, terms.price, terms.qty, id);
    let log = seq![model.step(event, id).1[0]];
    lemma_count_orders_single(log[0]);
    lemma_count_orders_concat(log, model.place_sell(id).1);
    assert(model.step(event, id).1 =~= log + model.place_sell(id).1);
}

/// A sell order filled in full is always answered with exactly one order,
/// the next buy order, and the automaton waits for it.
pub proof fn lemma_completed_sell_places_one_buy(
    model: SimpleModel,
    event: EventView,
    id: Seq<char>,
)
    requires
        model.consistent(),
        model.is_running(),
        model.state.phase == Phase::SellPlaced,
        event is OrderCompleted,
    ensures
        model.step(event, id).0.state.phase == Phase::BuyPlaced,
        model.step(event, id).0.state.active_order == Some(id),
        count_orders(model.step(event, id).1) == 1,
        model.step(event, id).1[1] == ActionView::PlaceOrder(
            limit_order(
                model.config,
                OrderSide::Buy,
                model.config.buy_terms(model.meta->0)->0.price,
                model.buy_qty(),
                id,
            ),
        ),
{
    let terms = model.config.buy_terms(model.meta->0)->0;
    lemma_placement_is_one_order(model, OrderSide::Buy, terms.price, terms.qty, id);
    let log = seq![model.step(event, id).1[0]];
    lemma_count_orders_single(log[0]);
    lemma_count_orders_concat(log, model.place_buy(id).1);
    assert(model.step(event, id).1 =~= log + model.place_buy(id).1);
}

/// A canceled or rejected order, in whatever phase, sends the automaton
/// back to waiting to buy with no order tracked, and from there it places
/// exactly one order at once: a buy order under the identifier given. Where
/// that identifier is not the one tracked before, the order tracked
/// afterwards is another than before.
pub proof fn lemma_cancel_or_reject_resets(model: SimpleModel, event: EventView, id: Seq<char>)
    requires
        model.consistent(),
        model.is_running(),
        event is OrderCanceled || event is OrderRejected,
    ensures
        model.reset().state.phase == Phase::WaitingToBuy,
        model.reset().state.active_order is None,
        model.step(event, id).0 == model.reset().place_buy(id).0,
        model.step(event, id).1 == seq![
            ActionView::Log { level: LogLevel::Warn, message: reset_text() },
        ] + model.reset().place_buy(id).1,
        model.step(event, id).0.state == placed_state(OrderSide::Buy, id),
        model.state.active_order != Some(id) ==> model.step(event, id).0.state.active_order
            != model.state.active_order,
        count_orders(model.step(event, id).1) == 1,
        model.step(event, id).1[1] == ActionView::PlaceOrder(
            limit_order(
                model.config,
                OrderSide::Buy,
                model.config.buy_terms(model.meta->0)->0.price,
                model.buy_qty(),
                id,
            ),
        ),
{
    let terms = model.config.buy_terms(model.meta->0)->0;
    lemma_placement_is_one_order(model.reset(), OrderSide::Buy, terms.price, terms.qty, id);
    let log = seq![ActionView::Log { level: LogLevel::Warn, message: reset_text() }];
    lemma_count_orders_single(log[0]);
    lemma_count_orders_concat(log, model.reset().place_buy(id).1);
}

/// A quote, or any other event that is neither the completion nor the
/// cancellation nor the rejection of an order, changes nothing and asks for
/// nothing.
pub proof fn lemma_unrelated_event_is_ignored(model: SimpleModel, event: EventView, id: Seq<char>)
    requires
        is_unrelated(event),
    ensures
        model.step(event, id) == (model, Seq::<ActionView>::empty()),
        model.step(event, id).0.state.phase == model.state.phase,
        model.step(event, id).0.state.active_order == model.state.active_order,
{
}

/// The completion of an order is ignored where no order is open.
pub proof fn lemma_completion_without_order_is_ignored(
    model: SimpleModel,
    event: EventView,
    id: Seq<char>,
)
    requires
        event is OrderCompleted,
        !model.state.phase.is_placed(),
    ensures
        model.step(event, id) == (model, Seq::<ActionView>::empty()),
{
}

} // verus!
