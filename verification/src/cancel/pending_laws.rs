//! What holds of a request over any history of events.

#[allow(unused_imports)]
use crate::body::Body;
#[allow(unused_imports)]
use crate::buffer::bytes_contents;
#[allow(unused_imports)]
use crate::cancel::h3_body::CancellableH3Body;
#[allow(unused_imports)]
use crate::cancel::pending::{
    body_to_send, failure_step, poll_step, request_step, FailedRequest, PendingRequest,
    PendingRequestStage, PollStep, RequestEvent, RequestModel, RequestStage, Response, SendBody,
    SendRequest,
};
#[allow(unused_imports)]
use crate::cancel::state::{
    cancel_stop, CancellableRequestState, RequestCancelHandle, RequestPhase, StopOwner, StopRequest,
    StopSide,
};
#[allow(unused_imports)]
use crate::cancel::state_laws::{
    law_each_side_is_stopped_at_most_once, state_run, state_step, stops_of, StateOp,
};
#[allow(unused_imports)]
use crate::error::Error;
#[allow(unused_imports)]
use bytes::Bytes;
use vstd::prelude::*;

verus! {

/// A request that was just made, with its state.
pub open spec fn new_request() -> RequestModel {
    RequestModel {
        stage: RequestStage::BeforeStreamOpen,
        state: CancellableRequestState::initial(),
    }
}

/// The phase that goes with a stage that has not ended.
pub open spec fn stage_phase(stage: RequestStage) -> RequestPhase {
    match stage {
        RequestStage::BeforeStreamOpen => RequestPhase::BeforeStreamOpen,
        RequestStage::GettingSender => RequestPhase::OpeningRequestStream,
        RequestStage::SendingRequestHeaders => RequestPhase::SendingRequestHeaders,
        RequestStage::SendingRequestBody => RequestPhase::SendingRequestBody,
        RequestStage::FinishingRequest => RequestPhase::FinishingRequest,
        RequestStage::WaitingResponseHeaders => RequestPhase::WaitingResponseHeaders,
        RequestStage::Complete => RequestPhase::Complete,
    }
}

/// How many stages come before `stage`.
pub open spec fn stage_rank(stage: RequestStage) -> nat {
    match stage {
        RequestStage::BeforeStreamOpen => 0,
        RequestStage::GettingSender => 1,
        RequestStage::SendingRequestHeaders => 2,
        RequestStage::SendingRequestBody => 3,
        RequestStage::FinishingRequest => 4,
        RequestStage::WaitingResponseHeaders => 5,
        RequestStage::Complete => 6,
    }
}

/// While a request has not ended, the state it shares tells its stage, counts it as sent exactly
/// once its sending direction is finished, and has given no stop order.
pub open spec fn state_tells_stage(model: RequestModel) -> bool {
    model.stage != RequestStage::Complete ==> {
        &&& model.state.phase == stage_phase(model.stage)
        &&& model.state.send_finished == (model.stage == RequestStage::WaitingResponseHeaders)
        &&& !model.state.recv_terminal
        &&& !model.state.receive_stop_sent
        &&& !model.state.send_stop_sent
        &&& !model.state.cancel_error_emitted
    }
}

/// The request after the history `events`.
pub open spec fn request_run(model: RequestModel, events: Seq<RequestEvent>) -> RequestModel
    decreases events.len(),
{
    if events.len() == 0 {
        model
    } else {
        request_run(request_step(model, events.first()).model, events.drop_first())
    }
}

/// The stop orders that the history `events` gives, oldest first.
pub open spec fn request_stops(model: RequestModel, events: Seq<RequestEvent>) -> Seq<StopRequest>
    decreases events.len(),
{
    if events.len() == 0 {
        Seq::empty()
    } else {
        let step = request_step(model, events.first());
        step.stops + request_stops(step.model, events.drop_first())
    }
}

/// How often the history `events` starts the operation of `stage`.
pub open spec fn starts_of(
    model: RequestModel,
    events: Seq<RequestEvent>,
    stage: RequestStage,
) -> nat
    decreases events.len(),
{
    if events.len() == 0 {
        0
    } else {
        let step = request_step(model, events.first());
        starts_of(step.model, events.drop_first(), stage) + (if step.effect is Start
            && step.model.stage == stage {
            1nat
        } else {
            0
        })
    }
}

/// How often the history `events` gives a response or a failure of an operation.
pub open spec fn results_of(model: RequestModel, events: Seq<RequestEvent>) -> nat
    decreases events.len(),
{
    if events.len() == 0 {
        0
    } else {
        let step = request_step(model, events.first());
        results_of(step.model, events.drop_first()) + (if step.effect is Respond
            || step.effect is Fail {
            1nat
        } else {
            0
        })
    }
}

/// The operations on the shared state that `event` comes down to.
pub open spec fn state_ops(model: RequestModel, event: RequestEvent) -> Seq<StateOp> {
    match event {
        RequestEvent::Poll => if !model.state.cancelled && model.stage
            == RequestStage::BeforeStreamOpen {
            seq![StateOp::MarkPhase(RequestPhase::OpeningRequestStream)]
        } else {
            seq![]
        },
        RequestEvent::Succeeded => match model.stage {
            RequestStage::GettingSender => seq![
                StateOp::MarkPhase(RequestPhase::SendingRequestHeaders),
            ],
            RequestStage::SendingRequestHeaders => seq![
                StateOp::MarkPhase(RequestPhase::SendingRequestBody),
            ],
            RequestStage::SendingRequestBody => seq![
                StateOp::MarkPhase(RequestPhase::FinishingRequest),
            ],
            RequestStage::FinishingRequest => seq![
                StateOp::MarkSendFinished,
                StateOp::MarkPhase(RequestPhase::WaitingResponseHeaders),
            ],
            RequestStage::WaitingResponseHeaders => seq![
                StateOp::MarkPhase(RequestPhase::ReadingResponseBody),
                StateOp::MarkSendFinished,
            ],
            _ => seq![],
        },
        RequestEvent::Failed => if 3 <= stage_rank(model.stage) <= 5 {
            seq![StateOp::ApplyDropCleanup]
        } else {
            seq![]
        },
        RequestEvent::Cancel => seq![StateOp::Cancel],
        RequestEvent::Abandon => seq![],
    }
}

/// The operations on the shared state that a history comes down to.
pub open spec fn run_state_ops(model: RequestModel, events: Seq<RequestEvent>) -> Seq<StateOp>
    decreases events.len(),
{
    if events.len() == 0 {
        Seq::empty()
    } else {
        state_ops(model, events.first()) + run_state_ops(
            request_step(model, events.first()).model,
            events.drop_first(),
        )
    }
}

/// Two histories of the shared state, one after the other, are one.
pub proof fn lemma_state_run_concat(
    state: CancellableRequestState,
    a: Seq<StateOp>,
    b: Seq<StateOp>,
)
    ensures
        state_run(state, a + b).state == state_run(state_run(state, a).state, b).state,
        state_run(state, a + b).stops == state_run(state, a).stops + state_run(
            state_run(state, a).state,
            b,
        ).stops,
    decreases a.len(),
{
    if a.len() == 0 {
        assert(a + b =~= b);
    } else {
        assert((a + b).drop_first() =~= a.drop_first() + b);
        assert((a + b).first() == a.first());
        lemma_state_run_concat(state_step(state, a.first()).state, a.drop_first(), b);
    }
}

/// An event changes the shared state, and gives stop orders, as its operations do.
pub proof fn lemma_step_is_state_run(model: RequestModel, event: RequestEvent)
    ensures
        state_run(model.state, state_ops(model, event)).state == request_step(
            model,
            event,
        ).model.state,
        state_run(model.state, state_ops(model, event)).stops == request_step(model, event).stops,
{
    reveal_with_fuel(state_run, 3);
    let ops = state_ops(model, event);
    if ops.len() == 2 {
        assert(ops.drop_first().drop_first() =~= Seq::<StateOp>::empty());
    }
}

/// A history of a request changes the shared state, and gives stop orders, as its operations on
/// that state do.
proof fn lemma_run_is_state_run(model: RequestModel, events: Seq<RequestEvent>)
    ensures
        state_run(model.state, run_state_ops(model, events)).state == request_run(
            model,
            events,
        ).state,
        state_run(model.state, run_state_ops(model, events)).stops == request_stops(model, events),
    decreases events.len(),
{
    if events.len() != 0 {
        let step = request_step(model, events.first());
        lemma_step_is_state_run(model, events.first());
        lemma_run_is_state_run(step.model, events.drop_first());
        lemma_state_run_concat(
            model.state,
            state_ops(model, events.first()),
            run_state_ops(step.model, events.drop_first()),
        );
    }
}

/// Over any history of a request each direction of its stream is ordered to stop at most once.
pub proof fn law_request_stops_each_side_at_most_once(
    model: RequestModel,
    events: Seq<RequestEvent>,
)
    ensures
        stops_of(request_stops(model, events), StopSide::Receive) <= 1,
        stops_of(request_stops(model, events), StopSide::Send) <= 1,
{
    lemma_run_is_state_run(model, events);
    law_each_side_is_stopped_at_most_once(model.state, run_state_ops(model, events));
}

/// The state that a request shares tells its stage after any history.
pub proof fn law_state_tells_stage(events: Seq<RequestEvent>)
    ensures
        state_tells_stage(request_run(new_request(), events)),
{
    lemma_state_tells_stage(new_request(), events);
}

/// That the shared state tells the stage is kept by every event.
proof fn lemma_state_tells_stage(model: RequestModel, events: Seq<RequestEvent>)
    requires
        state_tells_stage(model),
    ensures
        state_tells_stage(request_run(model, events)),
    decreases events.len(),
{
    if events.len() != 0 {
        lemma_state_tells_stage(request_step(model, events.first()).model, events.drop_first());
    }
}

/// A stage is never entered again, nor one before it.
pub proof fn law_stages_only_advance(model: RequestModel, events: Seq<RequestEvent>)
    ensures
        stage_rank(model.stage) <= stage_rank(request_run(model, events).stage),
    decreases events.len(),
{
    if events.len() != 0 {
        law_stages_only_advance(request_step(model, events.first()).model, events.drop_first());
    }
}

/// Over any history each operation is started at most once, and none of a stage that the request
/// has reached already.
pub proof fn law_each_operation_starts_at_most_once(
    model: RequestModel,
    events: Seq<RequestEvent>,
    stage: RequestStage,
)
    ensures
        starts_of(model, events, stage) <= if stage_rank(model.stage) < stage_rank(stage) {
            1nat
        } else {
            0
        },
    decreases events.len(),
{
    if events.len() != 0 {
        law_each_operation_starts_at_most_once(
            request_step(model, events.first()).model,
            events.drop_first(),
            stage,
        );
    }
}

/// Over any history a request gives at most one result, and none after it ended.
pub proof fn law_one_result(model: RequestModel, events: Seq<RequestEvent>)
    ensures
        results_of(model, events) <= if model.stage == RequestStage::Complete {
            0nat
        } else {
            1
        },
    decreases events.len(),
{
    if events.len() != 0 {
        law_one_result(request_step(model, events.first()).model, events.drop_first());
    }
}

/// Once a request was cancelled, every poll after any further history fails as cancelled and ends
/// it.
pub proof fn law_cancelled_request_fails_as_cancelled(
    model: RequestModel,
    events: Seq<RequestEvent>,
)
    requires
        model.state.cancelled,
    ensures
        poll_step(request_run(model, events)).effect is Cancelled,
        poll_step(request_run(model, events)).model.stage == RequestStage::Complete,
    decreases events.len(),
{
    if events.len() != 0 {
        law_cancelled_request_fails_as_cancelled(
            request_step(model, events.first()).model,
            events.drop_first(),
        );
    }
}

/// A request that has ended stays so, and every poll of it fails as cancelled.
pub proof fn law_ended_request_fails_as_cancelled(model: RequestModel, events: Seq<RequestEvent>)
    requires
        model.stage == RequestStage::Complete,
    ensures
        request_run(model, events).stage == RequestStage::Complete,
        poll_step(request_run(model, events)).effect is Cancelled,
    decreases events.len(),
{
    if events.len() != 0 {
        law_ended_request_fails_as_cancelled(
            request_step(model, events.first()).model,
            events.drop_first(),
        );
    }
}

/// Whatever operation of a new request fails, or is given up, after any history: with a stream in
/// hand, both directions are stopped while the request is being sent, and only the receiving one
/// once it was sent whole; without a stream, nothing is.
pub proof fn law_failure_stops_what_is_live(events: Seq<RequestEvent>)
    ensures
        ({
            let model = request_run(new_request(), events);
            let both = seq![cancel_stop(StopSide::Receive), cancel_stop(StopSide::Send)];
            match model.stage {
                RequestStage::SendingRequestBody | RequestStage::FinishingRequest => {
                    &&& failure_step(model).stops == both
                    &&& model.state.live_stops() == both
                },
                RequestStage::WaitingResponseHeaders => {
                    &&& failure_step(model).stops == seq![cancel_stop(StopSide::Receive)]
                    &&& model.state.live_stops() == seq![cancel_stop(StopSide::Receive)]
                },
                _ => failure_step(model).stops == Seq::<StopRequest>::empty(),
            }
        }),
{
    law_state_tells_stage(events);
    let model = request_run(new_request(), events);
    assert(seq![cancel_stop(StopSide::Receive)] + seq![cancel_stop(StopSide::Send)] =~= seq![
        cancel_stop(StopSide::Receive),
        cancel_stop(StopSide::Send),
    ]);
    assert(seq![cancel_stop(StopSide::Receive)] + Seq::<StopRequest>::empty() =~= seq![
        cancel_stop(StopSide::Receive),
    ]);
}

/// How often the history `events` gives the response.
pub open spec fn responses_of(model: RequestModel, events: Seq<RequestEvent>) -> nat
    decreases events.len(),
{
    if events.len() == 0 {
        0
    } else {
        let step = request_step(model, events.first());
        responses_of(step.model, events.drop_first()) + (if step.effect is Respond {
            1nat
        } else {
            0
        })
    }
}

/// How many operations succeed in the history `events`.
pub open spec fn successes_of(events: Seq<RequestEvent>) -> nat
    decreases events.len(),
{
    if events.len() == 0 {
        0
    } else {
        successes_of(events.drop_first()) + (if events.first() is Succeeded {
            1nat
        } else {
            0
        })
    }
}

/// A request that was polled and that nothing cancels comes one stage further with every operation
/// that succeeds, however often it is polled in between; with the last one it gives the response,
/// once, and nothing is ordered to stop.
pub proof fn law_undisturbed_request_responds(model: RequestModel, events: Seq<RequestEvent>)
    requires
        !model.state.cancelled,
        model.stage != RequestStage::BeforeStreamOpen,
        forall|i: int|
            0 <= i < events.len() ==> (#[trigger] events[i]) is Poll || events[i] is Succeeded,
    ensures
        ({
            let last = stage_rank(RequestStage::Complete);
            let reached = stage_rank(model.stage) + successes_of(events);
            &&& stage_rank(request_run(model, events).stage) == if reached < last {
                reached
            } else {
                last
            }
            &&& responses_of(model, events) == if stage_rank(model.stage) < last <= reached {
                1nat
            } else {
                0
            }
        }),
        request_stops(model, events) == Seq::<StopRequest>::empty(),
    decreases events.len(),
{
    if events.len() != 0 {
        let rest = events.drop_first();
        assert(events[0] is Poll || events[0] is Succeeded);
        assert(forall|i: int| 0 <= i < rest.len() ==> rest[i] == events[i + 1]);
        law_undisturbed_request_responds(request_step(model, events.first()).model, rest);
    }
}

/// A new request holds what it is to send and to whom, and its handle is one for the state it
/// shares.
pub proof fn law_new_request_holds_what_to_send<'a, M, P, Q>(
    connection_manager: M,
    peer_id: P,
    request: Q,
    body: Bytes,
    pending: PendingRequest<M, P, Q>,
    state: &'a mut CancellableRequestState,
    handle: RequestCancelHandle<'a>,
)
    requires
        call_ensures(
            PendingRequest::<M, P, Q>::new,
            (connection_manager, peer_id, request, body),
            pending,
        ),
        call_ensures(PendingRequest::<M, P, Q>::cancel_handle, (&pending, state), handle),
    ensures
        pending.stage matches PendingRequestStage::BeforeStreamOpen(open)
            && open.connection_manager == connection_manager && open.peer_id == peer_id
            && open.request == request && open.body == body,
        *old(handle.state) == *old(state),
        *final(state) == *final(handle.state),
{
}

/// A poll fails, as cancelled, exactly where the request is cancelled or has ended. Otherwise it
/// opens the request where that was not polled yet, handing out what it holds, and waits at every
/// other stage, changing nothing.
pub proof fn law_poll_fails_only_if_cancelled_or_ended<M, P, Q, E>(
    pending: &mut PendingRequest<M, P, Q>,
    state: &mut CancellableRequestState,
    step: PollStep<M, P, Q, E>,
)
    requires
        call_ensures(PendingRequest::<M, P, Q>::poll::<E>, (pending, state), step),
    ensures
        step is Ready <==> old(state).cancelled || old(pending).stage is Complete,
        step matches PollStep::Ready(error) ==> error is Cancelled && final(pending).stage is Complete && *final(state) == *old(state),
        step is GetSender <==> !old(state).cancelled && old(pending).stage is BeforeStreamOpen,
        step matches PollStep::GetSender(open) ==> {
            &&& old(pending).stage == PendingRequestStage::BeforeStreamOpen(open)
            &&& final(pending).stage is GettingSender
            &&& *final(state) == (CancellableRequestState {
                phase: RequestPhase::OpeningRequestStream,
                ..*old(state)
            })
        },
        step is Wait ==> *final(pending) == *old(pending) && *final(state) == *old(state),
{
}

/// A request that is not cancelled waits for each of its operations, the response headers too.
pub proof fn law_uncancelled_request_waits<M, P, Q, E>(
    pending: &mut PendingRequest<M, P, Q>,
    state: &mut CancellableRequestState,
    step: PollStep<M, P, Q, E>,
)
    requires
        call_ensures(PendingRequest::<M, P, Q>::poll::<E>, (pending, state), step),
        !old(state).cancelled,
        old(pending).stage is GettingSender || old(pending).stage is SendingRequestHeaders || old(pending).stage is SendingRequestBody || old(pending).stage is FinishingRequest || old(pending).stage is WaitingResponseHeaders,
    ensures
        step is Wait,
        *final(pending) == *old(pending),
        *final(state) == *old(state),
{
}

/// A request whose handle cancels it fails as cancelled at its next poll, at whatever stage.
pub proof fn law_cancelled_request_fails_at_its_next_poll<'a, M, P, Q, E>(
    pending: &mut PendingRequest<M, P, Q>,
    state: &'a mut CancellableRequestState,
    made: RequestCancelHandle<'a>,
    handle: &mut RequestCancelHandle<'a>,
    wake: bool,
    polled: &mut CancellableRequestState,
    step: PollStep<M, P, Q, E>,
)
    requires
        call_ensures(PendingRequest::<M, P, Q>::cancel_handle, (&*old(pending), state), made),
        *old(handle) == made,
        call_ensures(RequestCancelHandle::<'a>::cancel, (handle,), wake),
        *final(final(handle).state) == *final(handle).state,
        *old(polled) == *final(state),
        call_ensures(PendingRequest::<M, P, Q>::poll::<E>, (pending, polled), step),
    ensures
        step matches PollStep::Ready(error) && error is Cancelled,
        final(pending).stage is Complete,
{
}

/// With its sender a request goes on to send its headers on it, keeping its request and its body.
/// Without one it fails with that very failure.
pub proof fn law_sender_takes_the_request_on<M, P, Q, S, E>(
    pending: &mut PendingRequest<M, P, Q>,
    state: &mut CancellableRequestState,
    request: Q,
    body: Bytes,
    result: Result<S, Error<E>>,
    next: Result<SendRequest<S, Q>, Error<E>>,
)
    requires
        call_ensures(
            PendingRequest::<M, P, Q>::on_sender::<S, E>,
            (pending, state, request, body, result),
            next,
        ),
        old(pending).stage is GettingSender,
    ensures
        next is Ok <==> result is Ok,
        result matches Ok(sender) ==> {
            &&& next matches Ok(send) && send.sender == sender && send.request == request
                && send.body == body
            &&& final(pending).stage is SendingRequestHeaders
            &&& *final(state) == (CancellableRequestState {
                phase: RequestPhase::SendingRequestHeaders,
                ..*old(state)
            })
        },
        result matches Err(error) ==> {
            &&& next matches Err(reported) && reported == error
            &&& final(pending).stage is Complete
            &&& *final(state) == *old(state)
        },
{
}

/// Once its headers are sent a request goes on to send its body on the stream that carries them, the
/// whole body, and nothing exactly where the body is empty. Where they could not be sent it fails
/// with that very failure.
pub proof fn law_headers_are_followed_by_the_body<M, P, Q, S, T, E>(
    pending: &mut PendingRequest<M, P, Q>,
    state: &mut CancellableRequestState,
    sender: S,
    body: Bytes,
    result: Result<T, E>,
    next: Result<SendBody<S, T>, Error<E>>,
    data: Option<Bytes>,
)
    requires
        call_ensures(
            PendingRequest::<M, P, Q>::on_request_sent::<S, T, E>,
            (pending, state, sender, body, result),
            next,
        ),
        call_ensures(body_to_send, (body,), data),
        old(pending).stage is SendingRequestHeaders,
    ensures
        next is Ok <==> result is Ok,
        data is None <==> bytes_contents(body).len() == 0,
        data matches Some(sent) ==> sent == body,
        result matches Ok(stream) ==> {
            &&& next matches Ok(send) && send.sender == sender && send.stream == stream
                && send.data == data
            &&& final(pending).stage is SendingRequestBody
            &&& *final(state) == (CancellableRequestState {
                phase: RequestPhase::SendingRequestBody,
                ..*old(state)
            })
        },
        result matches Err(error) ==> {
            &&& next matches Err(reported) && reported == Error::Transport(error)
            &&& final(pending).stage is Complete
            &&& *final(state) == *old(state)
        },
{
}

/// Once its body is sent a request goes on to finish its stream, stopping nothing. Where the body
/// could not be sent it fails with that very failure, and gives its stream up as any stream is
/// given up.
pub proof fn law_body_is_followed_by_the_finish<M, P, Q, S, T, E>(
    pending: &mut PendingRequest<M, P, Q>,
    state: &mut CancellableRequestState,
    owner: &mut StopOwner,
    sender: S,
    stream: T,
    result: Result<(), E>,
    next: Result<(S, T), FailedRequest<T, E>>,
    given_up: &mut CancellableRequestState,
    given_up_owner: &mut StopOwner,
)
    requires
        call_ensures(
            PendingRequest::<M, P, Q>::on_body_sent::<S, T, E>,
            (pending, state, owner, sender, stream, result),
            next,
        ),
        old(pending).stage is SendingRequestBody,
        *old(given_up) == *old(state),
        old(given_up_owner).requests@ == old(owner).requests@,
        call_ensures(
            CancellableRequestState::apply_drop_cleanup_to_owner,
            (given_up, given_up_owner),
            (),
        ),
    ensures
        next is Ok <==> result is Ok,
        result is Ok ==> {
            &&& next matches Ok(kept) && kept.0 == sender && kept.1 == stream
            &&& final(pending).stage is FinishingRequest
            &&& *final(state) == (CancellableRequestState {
                phase: RequestPhase::FinishingRequest,
                ..*old(state)
            })
            &&& final(owner).requests@ == old(owner).requests@
        },
        result matches Err(error) ==> {
            &&& next matches Err(failed) && failed.stream == stream && failed.error
                == Error::Transport(error)
            &&& final(pending).stage is Complete
            &&& *final(state) == *final(given_up)
            &&& final(owner).requests@ == final(given_up_owner).requests@
        },
{
}

/// Once its stream is finished a request counts as sent whole and goes on to wait for its response,
/// stopping nothing. Where that failed it fails with that very failure, and gives its stream up as
/// any stream is given up.
pub proof fn law_finish_is_followed_by_the_response<M, P, Q, S, T, E>(
    pending: &mut PendingRequest<M, P, Q>,
    state: &mut CancellableRequestState,
    owner: &mut StopOwner,
    sender: S,
    stream: T,
    result: Result<(), E>,
    next: Result<(S, T), FailedRequest<T, E>>,
    given_up: &mut CancellableRequestState,
    given_up_owner: &mut StopOwner,
)
    requires
        call_ensures(
            PendingRequest::<M, P, Q>::on_request_finished::<S, T, E>,
            (pending, state, owner, sender, stream, result),
            next,
        ),
        old(pending).stage is FinishingRequest,
        *old(given_up) == *old(state),
        old(given_up_owner).requests@ == old(owner).requests@,
        call_ensures(
            CancellableRequestState::apply_drop_cleanup_to_owner,
            (given_up, given_up_owner),
            (),
        ),
    ensures
        next is Ok <==> result is Ok,
        result is Ok ==> {
            &&& next matches Ok(kept) && kept.0 == sender && kept.1 == stream
            &&& final(pending).stage is WaitingResponseHeaders
            &&& *final(state) == (CancellableRequestState {
                phase: RequestPhase::WaitingResponseHeaders,
                send_finished: true,
                ..*old(state)
            })
            &&& final(owner).requests@ == old(owner).requests@
        },
        result matches Err(error) ==> {
            &&& next matches Err(failed) && failed.stream == stream && failed.error
                == Error::Transport(error)
            &&& final(pending).stage is Complete
            &&& *final(state) == *final(given_up)
            &&& final(owner).requests@ == final(given_up_owner).requests@
        },
{
}

/// With its response headers a request resolves to the response, whose body is the one to be read
/// from its stream, and stops nothing. Where they did not come it fails with that very failure, and
/// gives its stream up as any stream is given up.
pub proof fn law_request_resolves_to_its_response<M, P, Q, H, B, S, T, E>(
    pending: &mut PendingRequest<M, P, Q>,
    state: &mut CancellableRequestState,
    owner: &mut StopOwner,
    sender: S,
    stream: T,
    result: Result<H, E>,
    next: Result<Response<H, B, T, S>, FailedRequest<T, E>>,
    given_up: &mut CancellableRequestState,
    given_up_owner: &mut StopOwner,
    cancellable: Result<CancellableH3Body<T, S>, Error<E>>,
)
    requires
        call_ensures(
            PendingRequest::<M, P, Q>::on_response::<H, B, S, T, E>,
            (pending, state, owner, sender, stream, result),
            next,
        ),
        old(pending).stage is WaitingResponseHeaders,
        *old(given_up) == *old(state),
        old(given_up_owner).requests@ == old(owner).requests@,
        call_ensures(
            CancellableRequestState::apply_drop_cleanup_to_owner,
            (given_up, given_up_owner),
            (),
        ),
        next matches Ok(response) ==> call_ensures(
            Body::<B, CancellableH3Body<T, S>>::into_cancellable_h3::<E>,
            (response.body,),
            cancellable,
        ),
    ensures
        next is Ok <==> result is Ok,
        result matches Ok(headers) ==> {
            &&& next matches Ok(response) && response.inner == headers
            &&& cancellable matches Ok(body) && body.stream == Some(stream) && body.sender == sender
            &&& final(pending).stage is Complete
            &&& *final(state) == (CancellableRequestState {
                phase: RequestPhase::ReadingResponseBody,
                send_finished: true,
                ..*old(state)
            })
            &&& final(owner).requests@ == old(owner).requests@
        },
        result matches Err(error) ==> {
            &&& next matches Err(failed) && failed.stream == stream && failed.error
                == Error::Transport(error)
            &&& final(pending).stage is Complete
            &&& *final(state) == *final(given_up)
            &&& final(owner).requests@ == final(given_up_owner).requests@
        },
{
}

/// A request that its task drops has ended: polled all the same, it fails as cancelled.
pub proof fn law_dropped_request_has_ended<M, P, Q, E>(
    pending: &mut PendingRequest<M, P, Q>,
    again: &mut PendingRequest<M, P, Q>,
    state: &mut CancellableRequestState,
    step: PollStep<M, P, Q, E>,
)
    requires
        call_ensures(PendingRequest::<M, P, Q>::abandon, (pending,), ()),
        *old(again) == *final(pending),
        call_ensures(PendingRequest::<M, P, Q>::poll::<E>, (again, state), step),
    ensures
        final(pending).stage is Complete,
        step matches PollStep::Ready(error) && error is Cancelled,
        *final(state) == *old(state),
{
}

} // verus!
