//! What holds of a response body stream over any history of events.

#[allow(unused_imports)]
use crate::cancel::bytes_stream::{
    body_step, poll_body, receive_body, BodyEvent, BodyModel, CancellableBytesStream, Delivered,
    Delivery, NextStep, Received,
};
#[allow(unused_imports)]
use crate::cancel::flight_laws::{
    flight_run, flight_run_ops, flight_stops, lemma_flight_run_is_state_run, Flight, FlightEvent,
};
#[allow(unused_imports)]
use crate::cancel::h3_body::CancellableH3Body;
#[allow(unused_imports)]
use crate::cancel::pending_laws::lemma_state_run_concat;
#[allow(unused_imports)]
use crate::cancel::state::{
    CancellableRequestState, RequestCancelHandle, RequestPhase, StopOwner, StopRequest, StopSide,
};
#[allow(unused_imports)]
use crate::cancel::state_laws::{
    law_each_side_is_stopped_at_most_once, law_finished_send_is_never_stopped, state_run, stops_of,
    StateOp,
};
#[allow(unused_imports)]
use crate::error::Error;
#[allow(unused_imports)]
use bytes::Bytes;
#[allow(unused_imports)]
use h3::error::StreamError;
use vstd::prelude::*;

verus! {

/// The stream after the history `events`.
pub open spec fn body_run<E>(model: BodyModel, events: Seq<BodyEvent<E>>) -> BodyModel
    decreases events.len(),
{
    if events.len() == 0 {
        model
    } else {
        body_run(body_step(model, events.first()).model, events.drop_first())
    }
}

/// The stop orders that the history `events` gives, oldest first.
pub open spec fn body_stops<E>(model: BodyModel, events: Seq<BodyEvent<E>>) -> Seq<StopRequest>
    decreases events.len(),
{
    if events.len() == 0 {
        Seq::empty()
    } else {
        let step = body_step(model, events.first());
        step.stops + body_stops(step.model, events.drop_first())
    }
}

/// The delivery tells the reader of a cancellation.
pub open spec fn reports_cancellation<E>(delivery: Delivery<E>) -> bool {
    delivery == Delivery::<E>::Item(Some(Err(Error::Cancelled)))
}

/// How often the history `events` tells the reader of a cancellation.
pub open spec fn cancel_reports<E>(model: BodyModel, events: Seq<BodyEvent<E>>) -> nat
    decreases events.len(),
{
    if events.len() == 0 {
        0
    } else {
        let step = body_step(model, events.first());
        cancel_reports(step.model, events.drop_first()) + (if reports_cancellation(step.delivery) {
            1nat
        } else {
            0
        })
    }
}

/// The pieces of the body that the history `events` gives the reader, in order.
pub open spec fn pieces_delivered<E>(model: BodyModel, events: Seq<BodyEvent<E>>) -> Seq<Bytes>
    decreases events.len(),
{
    if events.len() == 0 {
        Seq::empty()
    } else {
        let step = body_step(model, events.first());
        let rest = pieces_delivered(step.model, events.drop_first());
        match step.delivery {
            Delivery::Item(Some(Ok(bytes))) => seq![bytes] + rest,
            _ => rest,
        }
    }
}

/// The pieces of the body that the history `events` receives, in order, up to the first that is not
/// data, or to the cancellation or the drop of the stream, whichever comes first.
pub open spec fn pieces_received<E>(events: Seq<BodyEvent<E>>) -> Seq<Bytes>
    decreases events.len(),
{
    if events.len() == 0 {
        Seq::empty()
    } else {
        match events.first() {
            BodyEvent::Poll => pieces_received(events.drop_first()),
            BodyEvent::Receive(Received::Data(bytes)) => seq![bytes] + pieces_received(
                events.drop_first(),
            ),
            _ => Seq::empty(),
        }
    }
}

/// The operations on the shared state that `event` comes down to.
pub open spec fn body_state_ops<E>(model: BodyModel, event: BodyEvent<E>) -> Seq<StateOp> {
    match event {
        BodyEvent::Poll => if model.open && model.state.cancelled {
            seq![StateOp::ApplyCancel, StateOp::TakeCancelError]
        } else {
            seq![]
        },
        BodyEvent::Receive(received) => if !model.open {
            seq![]
        } else if model.state.cancelled {
            seq![StateOp::ApplyCancel, StateOp::TakeCancelError]
        } else if received is Data {
            seq![]
        } else {
            seq![StateOp::MarkRecvTerminal]
        },
        BodyEvent::Cancel => seq![StateOp::Cancel],
        BodyEvent::Release => if model.open {
            seq![StateOp::ApplyDropCleanup]
        } else {
            seq![]
        },
    }
}

/// The operations on the shared state that a history comes down to.
pub open spec fn body_run_state_ops<E>(
    model: BodyModel,
    events: Seq<BodyEvent<E>>,
) -> Seq<StateOp>
    decreases events.len(),
{
    if events.len() == 0 {
        Seq::empty()
    } else {
        body_state_ops(model, events.first()) + body_run_state_ops(
            body_step(model, events.first()).model,
            events.drop_first(),
        )
    }
}

/// An event changes the shared state, and gives stop orders, as its operations do.
proof fn lemma_body_step_is_state_run<E>(model: BodyModel, event: BodyEvent<E>)
    ensures
        state_run(model.state, body_state_ops(model, event)).state == body_step(
            model,
            event,
        ).model.state,
        state_run(model.state, body_state_ops(model, event)).stops == body_step(model, event).stops,
{
    reveal_with_fuel(state_run, 3);
    let ops = body_state_ops(model, event);
    if ops.len() == 2 {
        assert(ops.drop_first().drop_first() =~= Seq::<StateOp>::empty());
    }
}

/// A history of a response body changes the shared state, and gives stop orders, as its operations
/// on that state do.
proof fn lemma_body_run_is_state_run<E>(model: BodyModel, events: Seq<BodyEvent<E>>)
    ensures
        state_run(model.state, body_run_state_ops(model, events)).state == body_run(
            model,
            events,
        ).state,
        state_run(model.state, body_run_state_ops(model, events)).stops == body_stops(
            model,
            events,
        ),
    decreases events.len(),
{
    if events.len() != 0 {
        let step = body_step(model, events.first());
        lemma_body_step_is_state_run(model, events.first());
        lemma_body_run_is_state_run(step.model, events.drop_first());
        lemma_state_run_concat(
            model.state,
            body_state_ops(model, events.first()),
            body_run_state_ops(step.model, events.drop_first()),
        );
    }
}

/// Over any history of a response body each direction of its request stream is ordered to stop at
/// most once; the sending one never, since the request was sent whole.
pub proof fn law_body_stops_each_side_at_most_once<E>(model: BodyModel, events: Seq<BodyEvent<E>>)
    ensures
        stops_of(body_stops(model, events), StopSide::Receive) <= 1,
        stops_of(body_stops(model, events), StopSide::Send) <= 1,
        model.state.send_finished ==> stops_of(body_stops(model, events), StopSide::Send) == 0,
{
    lemma_body_run_is_state_run(model, events);
    law_each_side_is_stopped_at_most_once(model.state, body_run_state_ops(model, events));
    if model.state.send_finished {
        law_finished_send_is_never_stopped(model.state, body_run_state_ops(model, events));
    }
}

/// From the moment a request is made until its response body is read or dropped, each direction of
/// its stream is ordered to stop at most once: what the request ordered, its body does not order
/// again.
pub proof fn law_request_and_body_stop_each_side_at_most_once<E>(
    flight: Flight,
    request_events: Seq<FlightEvent>,
    body_events: Seq<BodyEvent<E>>,
)
    ensures
        ({
            let body = BodyModel {
                open: true,
                state: flight_run(flight, request_events).model.state,
            };
            let stops = flight_stops(flight, request_events) + body_stops(body, body_events);
            &&& stops_of(stops, StopSide::Receive) <= 1
            &&& stops_of(stops, StopSide::Send) <= 1
        }),
{
    let body = BodyModel { open: true, state: flight_run(flight, request_events).model.state };
    let request_ops = flight_run_ops(flight, request_events);
    let body_ops = body_run_state_ops(body, body_events);
    lemma_flight_run_is_state_run(flight, request_events);
    lemma_body_run_is_state_run(body, body_events);
    lemma_state_run_concat(flight.model.state, request_ops, body_ops);
    law_each_side_is_stopped_at_most_once(flight.model.state, request_ops + body_ops);
}

/// Once the stream has ended, every poll gives the end of it and nothing is stopped.
pub proof fn law_ended_stream_stays_ended<E>(model: BodyModel, events: Seq<BodyEvent<E>>)
    requires
        !model.open,
    ensures
        !body_run(model, events).open,
        poll_body::<E>(body_run(model, events)).delivery == Delivery::<E>::Item(None),
        body_stops(model, events) == Seq::<StopRequest>::empty(),
    decreases events.len(),
{
    if events.len() != 0 {
        law_ended_stream_stays_ended(body_step(model, events.first()).model, events.drop_first());
    }
}

/// Over any history the reader is told of a cancellation at most once.
pub proof fn law_reader_learns_of_cancellation_at_most_once<E>(
    model: BodyModel,
    events: Seq<BodyEvent<E>>,
)
    ensures
        cancel_reports(model, events) <= if model.open && !model.state.cancel_error_emitted {
            1nat
        } else {
            0
        },
    decreases events.len(),
{
    if events.len() != 0 {
        law_reader_learns_of_cancellation_at_most_once(
            body_step(model, events.first()).model,
            events.drop_first(),
        );
    }
}

/// An open stream whose request is cancelled, before a poll or while one waits, gives its reader
/// the cancellation, where it was not given before, and after that only the end of the stream.
/// The receiving direction is stopped where it was live.
pub proof fn law_cancelled_stream_reports_once_and_ends<E>(
    model: BodyModel,
    received: Received<E>,
    events: Seq<BodyEvent<E>>,
)
    requires
        model.open,
        !model.state.cancel_error_emitted,
    ensures
        ({
            let cancelled = body_step(model, BodyEvent::<E>::Cancel).model;
            let polled = poll_body::<E>(cancelled);
            let late = receive_body(cancelled.state, received);
            &&& reports_cancellation(polled.delivery)
            &&& reports_cancellation(late.delivery)
            &&& late.model == polled.model
            &&& late.stops == polled.stops
            &&& polled.stops == model.state.live_stops()
            &&& poll_body::<E>(body_run(polled.model, events)).delivery == Delivery::<E>::Item(None)
        }),
{
    let cancelled = body_step(model, BodyEvent::<E>::Cancel).model;
    law_ended_stream_stays_ended(poll_body::<E>(cancelled).model, events);
    assert(cancelled.state.live_stops() =~= model.state.live_stops());
}

/// A body that was read to its end, or to a failure of the transport, is never stopped, not even
/// when it is dropped or cancelled after that.
pub proof fn law_finished_body_is_never_stopped<E>(
    model: BodyModel,
    received: Received<E>,
    events: Seq<BodyEvent<E>>,
)
    requires
        model.open,
        !model.state.cancelled,
        !(received is Data),
    ensures
        receive_body(model.state, received).stops == Seq::<StopRequest>::empty(),
        !receive_body(model.state, received).model.open,
        body_stops(receive_body(model.state, received).model, events)
            == Seq::<StopRequest>::empty(),
{
    law_ended_stream_stays_ended(receive_body(model.state, received).model, events);
}

/// Over any history of an open stream whose request is not cancelled yet, every piece of the body
/// that is received before the response ends or fails, or the stream is cancelled or dropped,
/// reaches the reader, unchanged and in order, and nothing else does.
pub proof fn law_body_is_delivered_in_order<E>(model: BodyModel, events: Seq<BodyEvent<E>>)
    requires
        model.open,
        !model.state.cancelled,
    ensures
        pieces_delivered(model, events) == pieces_received(events),
    decreases events.len(),
{
    if events.len() != 0 {
        let next = body_step(model, events.first()).model;
        if next.open && !next.state.cancelled {
            law_body_is_delivered_in_order(next, events.drop_first());
        } else {
            law_no_piece_after_the_end(next, events.drop_first());
        }
    }
}

/// A stream that has ended, or whose request is cancelled, gives its reader no piece of the body any
/// more, whatever is received.
pub proof fn law_no_piece_after_the_end<E>(model: BodyModel, events: Seq<BodyEvent<E>>)
    requires
        !model.open || model.state.cancelled,
    ensures
        pieces_delivered(model, events) == Seq::<Bytes>::empty(),
    decreases events.len(),
{
    if events.len() != 0 {
        law_no_piece_after_the_end(body_step(model, events.first()).model, events.drop_first());
    }
}

/// While the request is not cancelled and data comes, the reader gets each piece as it came, and
/// the stream and its state stay as they are.
pub proof fn law_data_is_delivered_unchanged<E>(model: BodyModel, received: Received<E>)
    requires
        model.open,
        !model.state.cancelled,
        received is Data,
    ensures
        poll_body::<E>(model).delivery is Receive,
        receive_body(model.state, received).delivery == Delivery::<E>::Item(
            Some(Ok(received->Data_0)),
        ),
        receive_body(model.state, received).model == model,
{
}

/// A stream reads the body that it is given, its handle is one for the state that it shares, and a
/// failure of the transport is told with that very failure.
pub proof fn law_new_stream_reads_its_body<'a, T, S>(
    body: CancellableH3Body<T, S>,
    stream: CancellableBytesStream<T, S>,
    state: &'a mut CancellableRequestState,
    handle: RequestCancelHandle<'a>,
    error: StreamError,
    received: Received<StreamError>,
    no_error: bool,
)
    requires
        call_ensures(CancellableBytesStream::<T, S>::new, (body,), stream),
        call_ensures(CancellableBytesStream::<T, S>::cancel_handle, (&stream, state), handle),
        call_ensures(Received::<StreamError>::failed, (error,), received),
        call_ensures(StreamError::is_h3_no_error, (&error,), no_error),
    ensures
        stream.body == Some(body),
        *old(handle.state) == *old(state),
        *final(state) == *final(handle.state),
        received == (Received::Failed { error, no_error }),
{
}

/// A poll receives exactly where the stream is open and its request not cancelled, and changes
/// nothing then, nor where the stream has ended, which it gives the end of. Where the request is
/// cancelled the stream ends: its reader is told so, unless that was told before, and its request
/// stream is given up as any stream is.
pub proof fn law_poll_ends_the_stream_only_if_cancelled<T, S, E>(
    stream: &mut CancellableBytesStream<T, S>,
    state: &mut CancellableRequestState,
    owner: &mut StopOwner,
    next: NextStep<T, S, E>,
    given_up: &mut CancellableRequestState,
    given_up_owner: &mut StopOwner,
)
    requires
        call_ensures(
            CancellableBytesStream::<T, S>::poll_next::<E>,
            (stream, state, owner),
            next,
        ),
        *old(given_up) == *old(state),
        old(given_up_owner).requests@ == old(owner).requests@,
        call_ensures(
            CancellableRequestState::apply_drop_cleanup_to_owner,
            (given_up, given_up_owner),
            (),
        ),
    ensures
        next is Receive <==> old(stream).body is Some && !old(state).cancelled,
        old(stream).body is None || !old(state).cancelled ==> *final(state) == *old(state)
            && final(owner).requests@ == old(owner).requests@,
        next is Receive ==> *final(stream) == *old(stream),
        next matches NextStep::Ready(delivered) ==> {
            &&& final(stream).body is None
            &&& delivered.retired == old(stream).body
            &&& old(stream).body is None ==> delivered.item is None
            &&& old(stream).body is Some ==> {
                &&& old(state).cancel_error_emitted ==> delivered.item is None
                &&& !old(state).cancel_error_emitted ==> delivered.item == Some(
                    Err::<Bytes, Error<E>>(Error::Cancelled),
                )
                &&& *final(state) == (CancellableRequestState {
                    cancel_error_emitted: true,
                    ..*final(given_up)
                })
                &&& final(owner).requests@ == final(given_up_owner).requests@
            }
        },
{
}

/// What is received while the request is not cancelled reaches the reader: a piece as it is, of
/// whatever length, with the stream going on and nothing changed; a failure as that very failure,
/// unless it is how a side closes without an error; and the end. A stream ends exactly with what
/// is not a piece, records that the response has ended, and stops nothing.
pub proof fn law_received_pieces_reach_the_reader<T, S, E>(
    stream: &mut CancellableBytesStream<T, S>,
    state: &mut CancellableRequestState,
    owner: &mut StopOwner,
    received: Received<E>,
    delivered: Delivered<T, S, E>,
)
    requires
        call_ensures(
            CancellableBytesStream::<T, S>::on_received::<E>,
            (stream, state, owner, received),
            delivered,
        ),
        old(stream).body is Some,
        !old(state).cancelled,
    ensures
        final(owner).requests@ == old(owner).requests@,
        final(stream).body is Some <==> received is Data,
        received matches Received::Data(bytes) ==> {
            &&& delivered.item == Some(Ok::<Bytes, Error<E>>(bytes))
            &&& delivered.retired is None
            &&& *final(stream) == *old(stream)
            &&& *final(state) == *old(state)
        },
        !(received is Data) ==> {
            &&& delivered.retired == old(stream).body
            &&& *final(state) == (CancellableRequestState {
                recv_terminal: true,
                send_finished: true,
                phase: RequestPhase::Complete,
                ..*old(state)
            })
        },
        received matches Received::Failed { error, no_error } ==> {
            &&& no_error ==> delivered.item is None
            &&& !no_error ==> delivered.item == Some(
                Err::<Bytes, Error<E>>(Error::Transport(error)),
            )
        },
        received is End ==> delivered.item is None,
{
}

/// What is received after the request was cancelled is dropped: the stream ends as it does at a
/// poll.
pub proof fn law_late_pieces_are_dropped<T, S, E>(
    stream: &mut CancellableBytesStream<T, S>,
    state: &mut CancellableRequestState,
    owner: &mut StopOwner,
    received: Received<E>,
    delivered: Delivered<T, S, E>,
    polled_stream: &mut CancellableBytesStream<T, S>,
    polled_state: &mut CancellableRequestState,
    polled_owner: &mut StopOwner,
    next: NextStep<T, S, E>,
)
    requires
        call_ensures(
            CancellableBytesStream::<T, S>::on_received::<E>,
            (stream, state, owner, received),
            delivered,
        ),
        old(stream).body is Some,
        old(state).cancelled,
        *old(polled_stream) == *old(stream),
        *old(polled_state) == *old(state),
        old(polled_owner).requests@ == old(owner).requests@,
        call_ensures(
            CancellableBytesStream::<T, S>::poll_next::<E>,
            (polled_stream, polled_state, polled_owner),
            next,
        ),
    ensures
        next == NextStep::Ready(delivered),
        final(stream).body is None,
        *final(state) == *final(polled_state),
        final(owner).requests@ == final(polled_owner).requests@,
{
}

/// A stream that gave its reader a piece goes on: its next poll receives again.
pub proof fn law_stream_goes_on_after_a_piece<T, S, E>(
    stream: &mut CancellableBytesStream<T, S>,
    state: &mut CancellableRequestState,
    owner: &mut StopOwner,
    bytes: Bytes,
    delivered: Delivered<T, S, E>,
    next_stream: &mut CancellableBytesStream<T, S>,
    next_state: &mut CancellableRequestState,
    next_owner: &mut StopOwner,
    next: NextStep<T, S, E>,
)
    requires
        old(stream).body is Some,
        !old(state).cancelled,
        call_ensures(
            CancellableBytesStream::<T, S>::on_received::<E>,
            (stream, state, owner, Received::Data(bytes)),
            delivered,
        ),
        *old(next_stream) == *final(stream),
        *old(next_state) == *final(state),
        call_ensures(
            CancellableBytesStream::<T, S>::poll_next::<E>,
            (next_stream, next_state, next_owner),
            next,
        ),
    ensures
        delivered.item == Some(Ok::<Bytes, Error<E>>(bytes)),
        next is Receive,
{
}

/// Dropping an open stream stops every direction of its request stream that is open and was not
/// stopped before, cancelled or not, with the code `0x10c`, and leaves none; dropping one that has
/// ended stops nothing.
pub proof fn law_dropped_stream_is_stopped<T, S>(
    stream: &mut CancellableBytesStream<T, S>,
    state: &mut CancellableRequestState,
    owner: &mut StopOwner,
    retired: Option<CancellableH3Body<T, S>>,
    given_up: &mut CancellableRequestState,
    given_up_owner: &mut StopOwner,
)
    requires
        call_ensures(CancellableBytesStream::<T, S>::release, (stream, state, owner), retired),
        *old(given_up) == *old(state),
        old(given_up_owner).requests@ == old(owner).requests@,
        call_ensures(
            CancellableRequestState::apply_drop_cleanup_to_owner,
            (given_up, given_up_owner),
            (),
        ),
    ensures
        final(stream).body is None,
        retired == old(stream).body,
        old(stream).body is Some ==> {
            &&& *final(state) == *final(given_up)
            &&& final(owner).requests@ == final(given_up_owner).requests@
            &&& final(state).recv_terminal || final(state).receive_stop_sent
            &&& final(state).send_finished || final(state).send_stop_sent
            &&& !old(state).recv_terminal && !old(state).receive_stop_sent ==> final(owner).requests@.contains(StopRequest { side: StopSide::Receive, code: 0x10c })
            &&& !old(state).send_finished && !old(state).send_stop_sent ==> final(owner).requests@.contains(StopRequest { side: StopSide::Send, code: 0x10c })
        },
        old(stream).body is None ==> *final(state) == *old(state) && final(owner).requests@ == old(owner).requests@,
{
    let after = final(owner).requests@;
    let before = owner.requests@;
    if stream.body is Some {
        if !state.recv_terminal && !state.receive_stop_sent {
            assert(after[before.len() as int] == (StopRequest {
                side: StopSide::Receive,
                code: 0x10c,
            }));
        }
        if !state.send_finished && !state.send_stop_sent {
            assert(after[after.len() - 1] == (StopRequest { side: StopSide::Send, code: 0x10c }));
        }
    }
}

} // verus!
