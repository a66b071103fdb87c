//! What holds over any history of a response body that is read without noticing cancellation.

#[allow(unused_imports)]
use crate::body::LegacyCompatibleH3ResponseBody;
#[allow(unused_imports)]
use crate::cancel::bytes_stream::{BodyEvent, BodyModel, Delivery, Received};
#[allow(unused_imports)]
use crate::cancel::flight_laws::{
    flight_run, flight_run_ops, flight_stops, lemma_flight_run_is_state_run, Flight, FlightEvent,
};
#[allow(unused_imports)]
use crate::cancel::h3_body::CancellableH3Body;
#[allow(unused_imports)]
use crate::cancel::legacy::{legacy_step, receive_legacy};
#[allow(unused_imports)]
use crate::cancel::pending_laws::lemma_state_run_concat;
#[allow(unused_imports)]
use crate::cancel::state::{
    CancellableRequestState, RequestPhase, StopOwner, StopRequest, StopSide,
};
#[allow(unused_imports)]
use crate::cancel::state_laws::{
    law_each_side_is_stopped_at_most_once, law_finished_send_is_never_stopped, state_run, stops_of,
    StateOp,
};
#[allow(unused_imports)]
use crate::error::Error;
#[allow(unused_imports)]
use bytes::Bytes;
use vstd::prelude::*;

verus! {

/// The body after the history `events`.
pub open spec fn legacy_run<E>(model: BodyModel, events: Seq<BodyEvent<E>>) -> BodyModel
    decreases events.len(),
{
    if events.len() == 0 {
        model
    } else {
        legacy_run(legacy_step(model, events.first()).model, events.drop_first())
    }
}

/// What each event of the history `events` gives the reader.
pub open spec fn legacy_deliveries<E>(
    model: BodyModel,
    events: Seq<BodyEvent<E>>,
) -> Seq<Delivery<E>>
    decreases events.len(),
{
    if events.len() == 0 {
        Seq::empty()
    } else {
        let step = legacy_step(model, events.first());
        seq![step.delivery] + legacy_deliveries(step.model, events.drop_first())
    }
}

/// The stop orders that the history `events` gives, oldest first.
pub open spec fn legacy_stops<E>(model: BodyModel, events: Seq<BodyEvent<E>>) -> Seq<StopRequest>
    decreases events.len(),
{
    if events.len() == 0 {
        Seq::empty()
    } else {
        let step = legacy_step(model, events.first());
        step.stops + legacy_stops(step.model, events.drop_first())
    }
}

/// The pieces of the body that the history `events` gives the reader, in order.
pub open spec fn legacy_pieces_delivered<E>(
    model: BodyModel,
    events: Seq<BodyEvent<E>>,
) -> Seq<Bytes>
    decreases events.len(),
{
    if events.len() == 0 {
        Seq::empty()
    } else {
        let step = legacy_step(model, events.first());
        let rest = legacy_pieces_delivered(step.model, events.drop_first());
        match step.delivery {
            Delivery::Item(Some(Ok(bytes))) => seq![bytes] + rest,
            _ => rest,
        }
    }
}

/// The pieces of the body that the history `events` receives, in order, up to the first that is not
/// data. A cancellation changes nothing.
pub open spec fn legacy_pieces_received<E>(events: Seq<BodyEvent<E>>) -> Seq<Bytes>
    decreases events.len(),
{
    if events.len() == 0 {
        Seq::empty()
    } else {
        match events.first() {
            BodyEvent::Receive(Received::Data(bytes)) => seq![bytes] + legacy_pieces_received(
                events.drop_first(),
            ),
            BodyEvent::Receive(_) => Seq::empty(),
            _ => legacy_pieces_received(events.drop_first()),
        }
    }
}

/// The operations on the shared state that `event` comes down to.
pub open spec fn legacy_state_ops<E>(model: BodyModel, event: BodyEvent<E>) -> Seq<StateOp> {
    match event {
        BodyEvent::Poll => seq![],
        BodyEvent::Receive(received) => if model.open && !(received is Data) {
            seq![StateOp::MarkRecvTerminal]
        } else {
            seq![]
        },
        BodyEvent::Cancel => seq![StateOp::Cancel],
        BodyEvent::Release => if model.open {
            seq![StateOp::ApplyDropCleanup]
        } else {
            seq![]
        },
    }
}

/// The operations on the shared state that a history comes down to.
pub open spec fn legacy_run_state_ops<E>(
    model: BodyModel,
    events: Seq<BodyEvent<E>>,
) -> Seq<StateOp>
    decreases events.len(),
{
    if events.len() == 0 {
        Seq::empty()
    } else {
        legacy_state_ops(model, events.first()) + legacy_run_state_ops(
            legacy_step(model, events.first()).model,
            events.drop_first(),
        )
    }
}

/// A history of the body changes the shared state, and gives stop orders, as its operations on that
/// state do.
proof fn lemma_legacy_run_is_state_run<E>(model: BodyModel, events: Seq<BodyEvent<E>>)
    ensures
        state_run(model.state, legacy_run_state_ops(model, events)).state == legacy_run(
            model,
            events,
        ).state,
        state_run(model.state, legacy_run_state_ops(model, events)).stops == legacy_stops(
            model,
            events,
        ),
    decreases events.len(),
{
    if events.len() != 0 {
        let step = legacy_step(model, events.first());
        let ops = legacy_state_ops(model, events.first());
        reveal_with_fuel(state_run, 2);
        if ops.len() == 1 {
            assert(ops.drop_first() =~= Seq::<StateOp>::empty());
        }
        assert(state_run(model.state, ops).state == step.model.state);
        assert(state_run(model.state, ops).stops =~= step.stops);
        lemma_legacy_run_is_state_run(step.model, events.drop_first());
        lemma_state_run_concat(
            model.state,
            ops,
            legacy_run_state_ops(step.model, events.drop_first()),
        );
    }
}

/// Over any history of an open body, every piece that is received before the response ends or fails
/// reaches the reader, unchanged and in order, and nothing else does, cancelled or not.
pub proof fn law_legacy_body_is_delivered_in_order<E>(model: BodyModel, events: Seq<BodyEvent<E>>)
    requires
        model.open,
    ensures
        legacy_pieces_delivered(model, events) == legacy_pieces_received(events),
    decreases events.len(),
{
    if events.len() != 0 {
        let next = legacy_step(model, events.first()).model;
        if next.open {
            law_legacy_body_is_delivered_in_order(next, events.drop_first());
        } else {
            law_ended_legacy_body_stays_ended(next, events.drop_first());
        }
    }
}

/// The reader does not notice cancellation: what a history gives it is the same whether the request
/// was cancelled before or not, whatever else the shared state says.
pub proof fn law_legacy_body_does_not_notice_cancellation<E>(
    model: BodyModel,
    other: BodyModel,
    events: Seq<BodyEvent<E>>,
)
    requires
        model.open == other.open,
    ensures
        legacy_deliveries(model, events) == legacy_deliveries(other, events),
        legacy_run(model, events).open == legacy_run(other, events).open,
    decreases events.len(),
{
    if events.len() != 0 {
        law_legacy_body_does_not_notice_cancellation(
            legacy_step(model, events.first()).model,
            legacy_step(other, events.first()).model,
            events.drop_first(),
        );
    }
}

/// Once the body has ended, every poll gives the end of it, no piece is given any more, and nothing
/// is ordered to stop, not even when it is dropped.
pub proof fn law_ended_legacy_body_stays_ended<E>(model: BodyModel, events: Seq<BodyEvent<E>>)
    requires
        !model.open,
    ensures
        !legacy_run(model, events).open,
        legacy_step::<E>(legacy_run(model, events), BodyEvent::Poll).delivery == Delivery::<E>::Item(
            None,
        ),
        legacy_pieces_delivered(model, events) == Seq::<Bytes>::empty(),
        legacy_stops(model, events) == Seq::<StopRequest>::empty(),
    decreases events.len(),
{
    if events.len() != 0 {
        law_ended_legacy_body_stays_ended(
            legacy_step(model, events.first()).model,
            events.drop_first(),
        );
    }
}

/// A body that was read to its end, or to a failure of the transport, is never stopped.
pub proof fn law_finished_legacy_body_is_never_stopped<E>(
    model: BodyModel,
    received: Received<E>,
    events: Seq<BodyEvent<E>>,
)
    requires
        model.open,
        !(received is Data),
    ensures
        !receive_legacy(model.state, received).model.open,
        receive_legacy(model.state, received).stops == Seq::<StopRequest>::empty(),
        legacy_stops(receive_legacy(model.state, received).model, events)
            == Seq::<StopRequest>::empty(),
{
    law_ended_legacy_body_stays_ended(receive_legacy(model.state, received).model, events);
}

/// Over any history of the body each direction of its request stream is ordered to stop at most
/// once; the sending one never where the request was sent whole.
pub proof fn law_legacy_body_stops_each_side_at_most_once<E>(
    model: BodyModel,
    events: Seq<BodyEvent<E>>,
)
    ensures
        stops_of(legacy_stops(model, events), StopSide::Receive) <= 1,
        stops_of(legacy_stops(model, events), StopSide::Send) <= 1,
        model.state.send_finished ==> stops_of(legacy_stops(model, events), StopSide::Send) == 0,
{
    lemma_legacy_run_is_state_run(model, events);
    law_each_side_is_stopped_at_most_once(model.state, legacy_run_state_ops(model, events));
    if model.state.send_finished {
        law_finished_send_is_never_stopped(model.state, legacy_run_state_ops(model, events));
    }
}

/// From the moment a request is made until its response body is read or dropped, each direction of
/// its stream is ordered to stop at most once: what the request ordered, its body does not order
/// again.
pub proof fn law_request_and_legacy_body_stop_each_side_at_most_once<E>(
    flight: Flight,
    request_events: Seq<FlightEvent>,
    body_events: Seq<BodyEvent<E>>,
)
    ensures
        ({
            let body = BodyModel {
                open: true,
                state: flight_run(flight, request_events).model.state,
            };
            let stops = flight_stops(flight, request_events) + legacy_stops(body, body_events);
            &&& stops_of(stops, StopSide::Receive) <= 1
            &&& stops_of(stops, StopSide::Send) <= 1
        }),
{
    let body = BodyModel { open: true, state: flight_run(flight, request_events).model.state };
    let request_ops = flight_run_ops(flight, request_events);
    let body_ops = legacy_run_state_ops(body, body_events);
    lemma_flight_run_is_state_run(flight, request_events);
    lemma_legacy_run_is_state_run(body, body_events);
    lemma_state_run_concat(flight.model.state, request_ops, body_ops);
    law_each_side_is_stopped_at_most_once(flight.model.state, request_ops + body_ops);
}

/// A poll receives exactly where the body still has its request stream.
pub proof fn law_legacy_poll_receives_until_the_end<T, S>(
    legacy: LegacyCompatibleH3ResponseBody<CancellableH3Body<T, S>>,
    receive: bool,
)
    requires
        call_ensures(
            LegacyCompatibleH3ResponseBody::<CancellableH3Body<T, S>>::poll_frame,
            (&legacy,),
            receive,
        ),
    ensures
        receive <==> (legacy.body is Some && legacy.body->0.stream is Some),
{
}

/// What is received reaches the reader, cancelled or not: a piece as it is, of whatever length, with
/// the body going on and nothing changed; a failure as that very failure, unless it is how a side
/// closes without an error; and the end. The body ends exactly with what is not a piece: it lets
/// its request stream go, keeps its sender, and records that the response has ended.
pub proof fn law_legacy_pieces_reach_the_reader<T, S, E>(
    legacy: &mut LegacyCompatibleH3ResponseBody<CancellableH3Body<T, S>>,
    state: &mut CancellableRequestState,
    received: Received<E>,
    frame: Option<Result<Bytes, Error<E>>>,
    receive: bool,
)
    requires
        call_ensures(
            LegacyCompatibleH3ResponseBody::<CancellableH3Body<T, S>>::on_frame::<E>,
            (legacy, state, received),
            frame,
        ),
        old(legacy).body is Some && old(legacy).body->0.stream is Some,
        call_ensures(
            LegacyCompatibleH3ResponseBody::<CancellableH3Body<T, S>>::poll_frame,
            (&*final(legacy),),
            receive,
        ),
    ensures
        receive <==> received is Data,
        received matches Received::Data(bytes) ==> {
            &&& frame == Some(Ok::<Bytes, Error<E>>(bytes))
            &&& *final(legacy) == *old(legacy)
            &&& *final(state) == *old(state)
        },
        received matches Received::Failed { error, no_error } ==> {
            &&& no_error ==> frame is None
            &&& !no_error ==> frame == Some(Err::<Bytes, Error<E>>(Error::Transport(error)))
        },
        received is End ==> frame is None,
        !(received is Data) ==> {
            &&& final(legacy).body matches Some(body) && body.stream is None && body.sender == old(legacy).body->0.sender
            &&& *final(state) == (CancellableRequestState {
                recv_terminal: true,
                send_finished: true,
                phase: RequestPhase::Complete,
                ..*old(state)
            })
        },
{
}

/// A body that still has its request stream gives it up when it is dropped, cancelled or not, as any
/// stream is given up; one that has ended does nothing.
pub proof fn law_dropped_legacy_body_is_stopped<T, S>(
    legacy: &mut LegacyCompatibleH3ResponseBody<CancellableH3Body<T, S>>,
    state: &mut CancellableRequestState,
    owner: &mut StopOwner,
    given_up: &mut CancellableRequestState,
    given_up_owner: &mut StopOwner,
)
    requires
        call_ensures(
            LegacyCompatibleH3ResponseBody::<CancellableH3Body<T, S>>::release,
            (legacy, state, owner),
            (),
        ),
        *old(given_up) == *old(state),
        old(given_up_owner).requests@ == old(owner).requests@,
        call_ensures(
            CancellableRequestState::apply_drop_cleanup_to_owner,
            (given_up, given_up_owner),
            (),
        ),
    ensures
        *final(legacy) == *old(legacy),
        old(legacy).body is Some && old(legacy).body->0.stream is Some ==> *final(state) == *final(given_up) && final(owner).requests@ == final(given_up_owner).requests@,
        old(legacy).body is None || old(legacy).body->0.stream is None ==> *final(state) == *old(state) && final(owner).requests@ == old(owner).requests@,
{
}

} // verus!
