//! What holds of a request together with the operation it has in flight.
//!
//! An operation on the request stream holds the stream in a guard. When the operation is dropped
//! before it is over, because the request is cancelled or abandoned, the guard gives the stream up.

#[allow(unused_imports)]
use crate::cancel::h3_body::{release_stops, released_state};
#[allow(unused_imports)]
use crate::cancel::pending::{request_step, RequestEvent, RequestModel, RequestStage};
#[allow(unused_imports)]
use crate::cancel::pending_laws::{
    lemma_state_run_concat, lemma_step_is_state_run, new_request, state_ops, state_tells_stage,
};
#[allow(unused_imports)]
use crate::cancel::state::{cancel_stop, StopRequest, StopSide};
#[allow(unused_imports)]
use crate::cancel::state_laws::{
    law_each_side_is_stopped_at_most_once, state_run, stops_of, StateOp,
};
use vstd::prelude::*;

verus! {

/// The operation of `stage` works on the request stream.
pub open spec fn uses_stream(stage: RequestStage) -> bool {
    stage == RequestStage::SendingRequestBody || stage == RequestStage::FinishingRequest || stage
        == RequestStage::WaitingResponseHeaders
}

/// A request with the operation it has in flight.
pub struct Flight {
    /// The request.
    pub model: RequestModel,
    /// The operation has begun, and holds the request stream in a guard.
    pub guarded: bool,
}

/// What happens to a request and its operation.
pub enum FlightEvent {
    /// The operation begins.
    Begin,
    /// This happens to the request.
    Request(RequestEvent),
}

/// What an event does.
pub struct FlightStep {
    /// The request and its operation after it.
    pub flight: Flight,
    /// The stop orders for the request stream.
    pub stops: Seq<StopRequest>,
}

/// The event ends the request while an operation may be in flight, which is dropped then.
pub open spec fn drops_operation(flight: Flight, event: RequestEvent) -> bool {
    &&& event is Poll || event is Abandon
    &&& request_step(flight.model, event).model.stage == RequestStage::Complete
}

/// What `event` does to a request and its operation. An operation that is over has handed its
/// stream on; one that is dropped gives it up.
pub open spec fn flight_step(flight: Flight, event: FlightEvent) -> FlightStep {
    match event {
        FlightEvent::Begin => FlightStep {
            flight: Flight { guarded: uses_stream(flight.model.stage), ..flight },
            stops: seq![],
        },
        FlightEvent::Request(event) => {
            let step = request_step(flight.model, event);
            if drops_operation(flight, event) {
                FlightStep {
                    flight: Flight {
                        model: RequestModel {
                            state: released_state(step.model.state, flight.guarded),
                            ..step.model
                        },
                        guarded: false,
                    },
                    stops: step.stops + release_stops(step.model.state, flight.guarded),
                }
            } else {
                FlightStep {
                    flight: Flight {
                        model: step.model,
                        guarded: flight.guarded && !(event is Succeeded) && !(event is Failed),
                    },
                    stops: step.stops,
                }
            }
        },
    }
}

/// A request that was just made.
pub open spec fn new_flight() -> Flight {
    Flight { model: new_request(), guarded: false }
}

/// The request and its operation after the history `events`.
pub open spec fn flight_run(flight: Flight, events: Seq<FlightEvent>) -> Flight
    decreases events.len(),
{
    if events.len() == 0 {
        flight
    } else {
        flight_run(flight_step(flight, events.first()).flight, events.drop_first())
    }
}

/// The stop orders that the history `events` gives, oldest first.
pub open spec fn flight_stops(flight: Flight, events: Seq<FlightEvent>) -> Seq<StopRequest>
    decreases events.len(),
{
    if events.len() == 0 {
        Seq::empty()
    } else {
        let step = flight_step(flight, events.first());
        step.stops + flight_stops(step.flight, events.drop_first())
    }
}

/// The operations on the shared state that `event` comes down to.
pub open spec fn flight_ops(flight: Flight, event: FlightEvent) -> Seq<StateOp> {
    match event {
        FlightEvent::Begin => seq![],
        FlightEvent::Request(event) => state_ops(flight.model, event) + (if drops_operation(
            flight,
            event,
        ) && flight.guarded {
            seq![StateOp::ApplyDropCleanup]
        } else {
            seq![]
        }),
    }
}

/// The operations on the shared state that a history comes down to.
pub open spec fn flight_run_ops(flight: Flight, events: Seq<FlightEvent>) -> Seq<StateOp>
    decreases events.len(),
{
    if events.len() == 0 {
        Seq::empty()
    } else {
        flight_ops(flight, events.first()) + flight_run_ops(
            flight_step(flight, events.first()).flight,
            events.drop_first(),
        )
    }
}

/// An event changes the shared state, and gives stop orders, as its operations do.
proof fn lemma_flight_step_is_state_run(flight: Flight, event: FlightEvent)
    ensures
        state_run(flight.model.state, flight_ops(flight, event)).state == flight_step(
            flight,
            event,
        ).flight.model.state,
        state_run(flight.model.state, flight_ops(flight, event)).stops == flight_step(
            flight,
            event,
        ).stops,
{
    match event {
        FlightEvent::Begin => {},
        FlightEvent::Request(event) => {
            reveal_with_fuel(state_run, 2);
            let release = if drops_operation(flight, event) && flight.guarded {
                seq![StateOp::ApplyDropCleanup]
            } else {
                Seq::<StateOp>::empty()
            };
            lemma_step_is_state_run(flight.model, event);
            lemma_state_run_concat(flight.model.state, state_ops(flight.model, event), release);
            if release.len() == 1 {
                assert(release.drop_first() =~= Seq::<StateOp>::empty());
            }
        },
    }
}

/// A history changes the shared state, and gives stop orders, as its operations on that state do.
pub proof fn lemma_flight_run_is_state_run(flight: Flight, events: Seq<FlightEvent>)
    ensures
        state_run(flight.model.state, flight_run_ops(flight, events)).state == flight_run(
            flight,
            events,
        ).model.state,
        state_run(flight.model.state, flight_run_ops(flight, events)).stops == flight_stops(
            flight,
            events,
        ),
    decreases events.len(),
{
    if events.len() != 0 {
        let step = flight_step(flight, events.first());
        lemma_flight_step_is_state_run(flight, events.first());
        lemma_flight_run_is_state_run(step.flight, events.drop_first());
        lemma_state_run_concat(
            flight.model.state,
            flight_ops(flight, events.first()),
            flight_run_ops(step.flight, events.drop_first()),
        );
    }
}

/// Over any history of a request and its operations each direction of the request stream is ordered
/// to stop at most once, whether it is cancelled, abandoned or fails.
pub proof fn law_flight_stops_each_side_at_most_once(flight: Flight, events: Seq<FlightEvent>)
    ensures
        stops_of(flight_stops(flight, events), StopSide::Receive) <= 1,
        stops_of(flight_stops(flight, events), StopSide::Send) <= 1,
{
    lemma_flight_run_is_state_run(flight, events);
    law_each_side_is_stopped_at_most_once(flight.model.state, flight_run_ops(flight, events));
}

/// What every history keeps: the shared state tells the stage, and a guard is held only by an
/// operation on the stream.
pub open spec fn flight_inv(flight: Flight) -> bool {
    &&& state_tells_stage(flight.model)
    &&& flight.guarded ==> uses_stream(flight.model.stage)
}

/// Every history of a new request keeps the invariant.
pub proof fn law_flight_invariant(events: Seq<FlightEvent>)
    ensures
        flight_inv(flight_run(new_flight(), events)),
{
    lemma_flight_invariant(new_flight(), events);
}

/// Every event keeps the invariant.
proof fn lemma_flight_invariant(flight: Flight, events: Seq<FlightEvent>)
    requires
        flight_inv(flight),
    ensures
        flight_inv(flight_run(flight, events)),
    decreases events.len(),
{
    if events.len() != 0 {
        lemma_flight_invariant(flight_step(flight, events.first()).flight, events.drop_first());
    }
}

/// The stop orders that a request gives when it is cancelled, abandoned or fails at `stage`: both
/// directions while the request is being sent, only the receiving one once it was sent whole.
pub open spec fn expected_stops(stage: RequestStage) -> Seq<StopRequest> {
    match stage {
        RequestStage::SendingRequestBody | RequestStage::FinishingRequest => seq![
            cancel_stop(StopSide::Receive),
            cancel_stop(StopSide::Send),
        ],
        RequestStage::WaitingResponseHeaders => seq![cancel_stop(StopSide::Receive)],
        _ => seq![],
    }
}

/// However a new request came where it is: if an operation on its stream has begun, then the next
/// poll after a cancellation, the drop of the request, and a failure of the operation each stop the
/// stream in the directions that are still open, and leave none open that was not stopped.
pub proof fn law_begun_operation_is_stopped(events: Seq<FlightEvent>)
    requires
        flight_run(new_flight(), events).guarded,
    ensures
        ({
            let flight = flight_run(new_flight(), events);
            let expected = expected_stops(flight.model.stage);
            let cancelled = flight_step(flight, FlightEvent::Request(RequestEvent::Cancel)).flight;
            let polled = flight_step(cancelled, FlightEvent::Request(RequestEvent::Poll));
            let dropped = flight_step(flight, FlightEvent::Request(RequestEvent::Abandon));
            let failed = flight_step(flight, FlightEvent::Request(RequestEvent::Failed));
            &&& polled.stops == expected
            &&& dropped.stops == expected
            &&& failed.stops == expected
            &&& polled.flight.model.state.live_stops() == Seq::<StopRequest>::empty()
            &&& dropped.flight.model.state.live_stops() == Seq::<StopRequest>::empty()
            &&& failed.flight.model.state.live_stops() == Seq::<StopRequest>::empty()
        }),
{
    law_flight_invariant(events);
    let flight = flight_run(new_flight(), events);
    let receive = seq![cancel_stop(StopSide::Receive)];
    let send = seq![cancel_stop(StopSide::Send)];
    let none = Seq::<StopRequest>::empty();
    assert(receive + send =~= seq![cancel_stop(StopSide::Receive), cancel_stop(StopSide::Send)]);
    assert(receive + none =~= receive);
    assert(flight.model.state.live_stops() == expected_stops(flight.model.stage));
    let cancelled = flight_step(flight, FlightEvent::Request(RequestEvent::Cancel)).flight;
    assert(cancelled.model.state.live_stops() =~= flight.model.state.live_stops());
    assert(none + expected_stops(flight.model.stage) =~= expected_stops(flight.model.stage));
}

} // verus!
