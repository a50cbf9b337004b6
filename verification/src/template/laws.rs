//! What holds of the strategy skeleton on every input.

use crate::instrument::InstrumentMetaView;
use crate::template::strategy::{log, status_line, MyModel, STATUS_INTERVAL_MS};
use crate::types::{ActionView, EventView, LogLevel};
use vstd::prelude::*;

verus! {

/// Whether none of the actions places an order.
pub open spec fn places_nothing(actions: Seq<ActionView>) -> bool {
    forall|i: int| 0 <= i < actions.len() ==> !(#[trigger] actions[i] is PlaceOrder)
}

/// The start succeeds exactly with rounding rules and a valid
/// configuration; otherwise its last action asks the host for a stop. The
/// configuration stays as it is.
pub proof fn lemma_start_succeeds_iff_ready(model: MyModel, meta: Option<InstrumentMetaView>)
    ensures
        model.start(meta).0.state.is_initialized <==> meta is Some && model.config.is_valid(),
        model.start(meta).0.consistent(),
        model.start(meta).0.config == model.config,
        !model.start(meta).0.state.is_initialized ==> model.start(meta).1.len() > 0
            && model.start(meta).1.last() is StopStrategy,
{
}

/// The skeleton never places an order, whatever happens.
pub proof fn lemma_never_places_an_order(
    model: MyModel,
    meta: Option<InstrumentMetaView>,
    event: EventView,
    now_ms: i64,
)
    ensures
        places_nothing(model.start(meta).1),
        places_nothing(model.step(event).1),
        places_nothing(model.tick(now_ms).1),
        places_nothing(model.stop_actions()),
{
}

/// An automaton that is not initialized ignores every event.
pub proof fn lemma_uninitialized_ignores_events(model: MyModel, event: EventView)
    requires
        !model.state.is_initialized,
    ensures
        model.step(event) == (model, Seq::<ActionView>::empty()),
{
}

/// An event leaves a consistent automaton consistent, and changes nothing
/// of it but the last middle price and the order tracked.
pub proof fn lemma_step_keeps_consistent(model: MyModel, event: EventView)
    requires
        model.consistent(),
    ensures
        model.step(event).0.consistent(),
        model.step(event).0.config == model.config,
        model.step(event).0.instrument_meta == model.instrument_meta,
        model.step(event).0.state.is_initialized == model.state.is_initialized,
        model.step(event).0.state.last_log_ts == model.state.last_log_ts,
{
}

/// The end of an order, be it completed, canceled or rejected, leaves an
/// initialized automaton with no order tracked.
pub proof fn lemma_order_end_clears_order(model: MyModel, event: EventView)
    requires
        model.state.is_initialized,
        event is OrderCompleted || event is OrderCanceled || event is OrderRejected,
    ensures
        model.step(event).0.state.active_order is None,
        model.step(event).1.len() == 1,
        model.step(event).1[0] is Log,
{
}

/// A quote never changes the order tracked and asks for nothing.
pub proof fn lemma_quote_keeps_order(model: MyModel, event: EventView)
    requires
        event is Quote,
    ensures
        model.step(event).0.state.active_order == model.state.active_order,
        model.step(event).1.len() == 0,
{
}

/// A timer logs the status in exactly one line where it is due, and notes
/// the time; it does nothing where the status is not due. It never changes
/// anything else.
pub proof fn lemma_tick_logs_exactly_when_due(model: MyModel, now_ms: i64)
    ensures
        model.tick(now_ms).0.config == model.config,
        model.tick(now_ms).0.instrument_meta == model.instrument_meta,
        model.tick(now_ms).0.state.is_initialized == model.state.is_initialized,
        model.tick(now_ms).0.state.last_mid == model.state.last_mid,
        model.tick(now_ms).0.state.active_order == model.state.active_order,
        model.tick(now_ms).1.len() <= 1,
        model.tick(now_ms).1.len() == 1 <==> model.status_due(now_ms),
        model.status_due(now_ms) ==> model.tick(now_ms).0.state.last_log_ts == now_ms
            && model.tick(now_ms).1[0] == log(
            LogLevel::Info,
            status_line(model.state.last_mid, model.state.active_order),
        ),
        !model.status_due(now_ms) ==> model.tick(now_ms).0 == model,
{
}

/// Once the status was logged, it is not due again for thirty seconds: a
/// timer that fires within that time changes nothing and logs nothing.
pub proof fn lemma_status_is_not_repeated(model: MyModel, now_ms: i64, later_ms: i64)
    requires
        model.status_due(now_ms),
        later_ms - now_ms <= STATUS_INTERVAL_MS,
    ensures
        model.tick(now_ms).0.tick(later_ms) == (model.tick(now_ms).0, Seq::<ActionView>::empty()),
{
}

/// A stop logs that it cancels and asks the host to cancel every open
/// order, and for nothing else.
pub proof fn lemma_stop_only_cancels(model: MyModel)
    ensures
        model.stop_actions().len() == 2,
        model.stop_actions()[0] is Log,
        model.stop_actions()[1] is CancelAll,
{
}

} // verus!
