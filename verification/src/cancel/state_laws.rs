//! What holds of the shared request state over any history of operations on it.

#[allow(unused_imports)]
use crate::cancel::h3_body::{CancellableH3Body, OwnedStreamGuard};
#[allow(unused_imports)]
use crate::cancel::state::{
    cancel_stop, CancellableRequestState, RequestCancelHandle, RequestPhase, StopOwner, StopRequest,
    StopSide,
};
use vstd::prelude::*;

verus! {

/// An operation on the shared state.
pub enum StateOp {
    /// [`CancellableRequestState::mark_phase`].
    MarkPhase(RequestPhase),
    /// [`CancellableRequestState::mark_send_finished`].
    MarkSendFinished,
    /// [`CancellableRequestState::mark_recv_terminal`].
    MarkRecvTerminal,
    /// [`CancellableRequestState::take_cancel_error_to_emit`].
    TakeCancelError,
    /// [`CancellableRequestState::apply_cancel_to_owner`].
    ApplyCancel,
    /// [`CancellableRequestState::apply_drop_cleanup_to_owner`].
    ApplyDropCleanup,
    /// [`crate::cancel::state::RequestCancelHandle::cancel`].
    Cancel,
}

/// What a history of operations leaves and gives.
pub struct StateRun {
    /// The state it leaves.
    pub state: CancellableRequestState,
    /// The stop orders it gives, oldest first.
    pub stops: Seq<StopRequest>,
    /// How often it lets the cancellation be reported to the reader.
    pub reports: nat,
}

/// One operation on `state`.
pub open spec fn state_step(state: CancellableRequestState, op: StateOp) -> StateRun {
    match op {
        StateOp::MarkPhase(phase) => {
            StateRun { state: state.in_phase(phase), stops: seq![], reports: 0 }
        },
        StateOp::MarkSendFinished => {
            StateRun { state: state.with_send_finished(), stops: seq![], reports: 0 }
        },
        StateOp::MarkRecvTerminal => {
            StateRun { state: state.with_recv_terminal(), stops: seq![], reports: 0 }
        },
        StateOp::TakeCancelError => StateRun {
            state: state.with_cancel_error_emitted(),
            stops: seq![],
            reports: if state.cancel_error_emitted {
                0
            } else {
                1
            },
        },
        StateOp::ApplyCancel => {
            StateRun { state: state.with_cancel_applied(), stops: state.cancel_stops(), reports: 0 }
        },
        StateOp::ApplyDropCleanup => {
            StateRun { state: state.with_live_stopped(), stops: state.live_stops(), reports: 0 }
        },
        StateOp::Cancel => {
            StateRun { state: state.with_cancelled(), stops: seq![], reports: 0 }
        },
    }
}

/// The history `ops` on `state`.
pub open spec fn state_run(state: CancellableRequestState, ops: Seq<StateOp>) -> StateRun
    decreases ops.len(),
{
    if ops.len() == 0 {
        StateRun { state, stops: seq![], reports: 0 }
    } else {
        let first = state_step(state, ops.first());
        let rest = state_run(first.state, ops.drop_first());
        StateRun {
            state: rest.state,
            stops: first.stops + rest.stops,
            reports: first.reports + rest.reports,
        }
    }
}

/// How many of `stops` stop `side`.
pub open spec fn stops_of(stops: Seq<StopRequest>, side: StopSide) -> nat
    decreases stops.len(),
{
    if stops.len() == 0 {
        0
    } else {
        stops_of(stops.drop_last(), side) + (if stops.last().side == side {
            1nat
        } else {
            0
        })
    }
}

/// Counting the stops of a side in `a` and in `b` counts them in both.
pub proof fn lemma_stops_of_concat(a: Seq<StopRequest>, b: Seq<StopRequest>, side: StopSide)
    ensures
        stops_of(a + b, side) == stops_of(a, side) + stops_of(b, side),
    decreases b.len(),
{
    if b.len() == 0 {
        assert(a + b =~= a);
    } else {
        assert((a + b).drop_last() =~= a + b.drop_last());
        lemma_stops_of_concat(a, b.drop_last(), side);
    }
}

/// The orders that stop every live direction stop each live one once, and no other.
pub proof fn lemma_live_stops_count(state: CancellableRequestState)
    ensures
        stops_of(state.live_stops(), StopSide::Receive) == if state.receive_is_live() {
            1nat
        } else {
            0
        },
        stops_of(state.live_stops(), StopSide::Send) == if state.send_is_live() {
            1nat
        } else {
            0
        },
{
    reveal_with_fuel(stops_of, 2);
    let receive = seq![cancel_stop(StopSide::Receive)];
    let send = seq![cancel_stop(StopSide::Send)];
    let none = Seq::<StopRequest>::empty();
    assert(receive.drop_last() =~= none);
    assert(send.drop_last() =~= none);
    let a = if state.receive_is_live() {
        receive
    } else {
        none
    };
    let b = if state.send_is_live() {
        send
    } else {
        none
    };
    lemma_stops_of_concat(a, b, StopSide::Receive);
    lemma_stops_of_concat(a, b, StopSide::Send);
}

/// Over any history each direction is ordered to stop at most once, and not at all where it was
/// ordered to stop before the history began.
pub proof fn law_each_side_is_stopped_at_most_once(
    state: CancellableRequestState,
    ops: Seq<StateOp>,
)
    ensures
        stops_of(state_run(state, ops).stops, StopSide::Receive) <= if state.receive_stop_sent {
            0nat
        } else {
            1
        },
        stops_of(state_run(state, ops).stops, StopSide::Send) <= if state.send_stop_sent {
            0nat
        } else {
            1
        },
    decreases ops.len(),
{
    if ops.len() != 0 {
        let first = state_step(state, ops.first());
        let rest = state_run(first.state, ops.drop_first());
        law_each_side_is_stopped_at_most_once(first.state, ops.drop_first());
        lemma_stops_of_concat(first.stops, rest.stops, StopSide::Receive);
        lemma_stops_of_concat(first.stops, rest.stops, StopSide::Send);
        lemma_live_stops_count(state);
    }
}

/// Every order of a history carries the code of a cancelled request.
pub proof fn law_stops_carry_the_cancel_code(state: CancellableRequestState, ops: Seq<StateOp>)
    ensures
        forall|i: int|
            0 <= i < state_run(state, ops).stops.len() ==> {
                let stop = #[trigger] state_run(state, ops).stops[i];
                stop == cancel_stop(stop.side)
            },
    decreases ops.len(),
{
    if ops.len() != 0 {
        let first = state_step(state, ops.first());
        law_stops_carry_the_cancel_code(first.state, ops.drop_first());
    }
}

/// A direction is known to be ordered to stop after a history exactly where it was before it or
/// the history ordered it.
pub proof fn law_stop_orders_are_remembered(state: CancellableRequestState, ops: Seq<StateOp>)
    ensures
        state_run(state, ops).state.receive_stop_sent <==> state.receive_stop_sent || stops_of(
            state_run(state, ops).stops,
            StopSide::Receive,
        ) > 0,
        state_run(state, ops).state.send_stop_sent <==> state.send_stop_sent || stops_of(
            state_run(state, ops).stops,
            StopSide::Send,
        ) > 0,
    decreases ops.len(),
{
    if ops.len() != 0 {
        let first = state_step(state, ops.first());
        let rest = state_run(first.state, ops.drop_first());
        law_stop_orders_are_remembered(first.state, ops.drop_first());
        lemma_stops_of_concat(first.stops, rest.stops, StopSide::Receive);
        lemma_stops_of_concat(first.stops, rest.stops, StopSide::Send);
        lemma_live_stops_count(state);
    }
}

/// Once the request was sent whole, its sending direction is never ordered to stop.
pub proof fn law_finished_send_is_never_stopped(state: CancellableRequestState, ops: Seq<StateOp>)
    requires
        state.send_finished,
    ensures
        state_run(state, ops).state.send_finished,
        stops_of(state_run(state, ops).stops, StopSide::Send) == 0,
    decreases ops.len(),
{
    if ops.len() != 0 {
        let first = state_step(state, ops.first());
        let rest = state_run(first.state, ops.drop_first());
        law_finished_send_is_never_stopped(first.state, ops.drop_first());
        lemma_stops_of_concat(first.stops, rest.stops, StopSide::Send);
        lemma_live_stops_count(state);
    }
}

/// Once the response has ended, neither direction is ever ordered to stop.
pub proof fn law_ended_response_is_never_stopped(
    state: CancellableRequestState,
    ops: Seq<StateOp>,
)
    ensures
        state_run(state.with_recv_terminal(), ops).stops == Seq::<StopRequest>::empty(),
{
    lemma_terminal_never_stops(state.with_recv_terminal(), ops);
}

/// Where both directions have ended, no history orders a stop.
proof fn lemma_terminal_never_stops(state: CancellableRequestState, ops: Seq<StateOp>)
    requires
        state.recv_terminal,
        state.send_finished,
    ensures
        state_run(state, ops).stops == Seq::<StopRequest>::empty(),
    decreases ops.len(),
{
    if ops.len() != 0 {
        lemma_terminal_never_stops(state_step(state, ops.first()).state, ops.drop_first());
    }
}

/// A request that was cancelled stays cancelled.
pub proof fn law_cancellation_is_permanent(state: CancellableRequestState, ops: Seq<StateOp>)
    requires
        state.cancelled,
    ensures
        state_run(state, ops).state.cancelled,
    decreases ops.len(),
{
    if ops.len() != 0 {
        law_cancellation_is_permanent(state_step(state, ops.first()).state, ops.drop_first());
    }
}

/// Only a handle cancels: a history without one leaves a request uncancelled.
pub proof fn law_only_a_handle_cancels(state: CancellableRequestState, ops: Seq<StateOp>)
    requires
        forall|i: int| 0 <= i < ops.len() ==> !(#[trigger] ops[i] is Cancel),
    ensures
        state_run(state, ops).state.cancelled == state.cancelled,
    decreases ops.len(),
{
    if ops.len() != 0 {
        let rest = ops.drop_first();
        assert(forall|i: int| 0 <= i < rest.len() ==> rest[i] == ops[i + 1]);
        assert(!(ops[0] is Cancel));
        law_only_a_handle_cancels(state_step(state, ops.first()).state, rest);
    }
}

/// Over any history the cancellation is reported to the reader at most once.
pub proof fn law_cancellation_is_reported_at_most_once(
    state: CancellableRequestState,
    ops: Seq<StateOp>,
)
    ensures
        state_run(state, ops).reports <= if state.cancel_error_emitted {
            0nat
        } else {
            1
        },
    decreases ops.len(),
{
    if ops.len() != 0 {
        law_cancellation_is_reported_at_most_once(
            state_step(state, ops.first()).state,
            ops.drop_first(),
        );
    }
}

/// Cancelling again changes nothing, and neither does applying a cancellation again.
pub proof fn law_cancel_is_idempotent(state: CancellableRequestState)
    ensures
        state.with_cancelled().with_cancelled() == state.with_cancelled(),
        state.with_cancel_applied().with_cancel_applied() == state.with_cancel_applied(),
        state.with_cancel_applied().cancel_stops() == Seq::<StopRequest>::empty(),
{
}

/// Giving a stream up again changes nothing, and neither does cancelling it after that.
pub proof fn law_drop_cleanup_is_idempotent(state: CancellableRequestState)
    ensures
        state.with_live_stopped().with_live_stopped() == state.with_live_stopped(),
        state.with_live_stopped().live_stops() == Seq::<StopRequest>::empty(),
        state.with_live_stopped().with_cancelled().cancel_stops() == Seq::<StopRequest>::empty(),
{
}

/// On a cancelled request, applying the cancellation and giving the stream up are the same.
pub proof fn law_cancelled_cleanup_is_cancellation(state: CancellableRequestState)
    requires
        state.cancelled,
    ensures
        state.cancel_stops() == state.live_stops(),
        state.with_cancel_applied() == state.with_live_stopped(),
{
}

/// Cancelling a request whose body is still being sent stops both directions, whatever its phase;
/// cancelling one that was sent whole stops only the receiving direction.
pub proof fn law_cancel_stops_what_is_live(state: CancellableRequestState, phase: RequestPhase)
    requires
        state.receive_is_live(),
        !state.send_stop_sent,
    ensures
        !state.send_finished ==> state.in_phase(phase).with_cancelled().cancel_stops() == seq![
            cancel_stop(StopSide::Receive),
            cancel_stop(StopSide::Send),
        ],
        state.in_phase(phase).with_send_finished().with_cancelled().cancel_stops() == seq![
            cancel_stop(StopSide::Receive),
        ],
{
}

/// A new state says that nothing has happened.
pub proof fn law_new_state_says_nothing_happened(state: CancellableRequestState, cancelled: bool)
    requires
        call_ensures(CancellableRequestState::new, (), state),
        call_ensures(CancellableRequestState::is_cancelled, (&state,), cancelled),
    ensures
        !cancelled && !state.cancelled,
        state.phase is BeforeStreamOpen,
        !state.send_finished && !state.recv_terminal,
        !state.receive_stop_sent && !state.send_stop_sent && !state.cancel_error_emitted,
{
}

/// What the state says of cancellation is what it holds.
pub proof fn law_state_tells_cancellation(state: CancellableRequestState, cancelled: bool)
    requires
        call_ensures(CancellableRequestState::is_cancelled, (&state,), cancelled),
    ensures
        cancelled <==> state.cancelled,
{
}

/// Marking a phase, the end of sending or the end of the response records just that: the end of the
/// response ends sending too, and nothing else changes.
pub proof fn law_marks_record_what_they_say(
    marked: &mut CancellableRequestState,
    phase: RequestPhase,
    sent: &mut CancellableRequestState,
    ended: &mut CancellableRequestState,
)
    requires
        call_ensures(CancellableRequestState::mark_phase, (marked, phase), ()),
        call_ensures(CancellableRequestState::mark_send_finished, (sent,), ()),
        call_ensures(CancellableRequestState::mark_recv_terminal, (ended,), ()),
    ensures
        *final(marked) == (CancellableRequestState { phase, ..*old(marked) }),
        *final(sent) == (CancellableRequestState { send_finished: true, ..*old(sent) }),
        *final(ended) == (CancellableRequestState {
            recv_terminal: true,
            send_finished: true,
            phase: RequestPhase::Complete,
            ..*old(ended)
        }),
{
}

/// The one report of the cancellation is given to the first that claims it, and to no other.
pub proof fn law_report_is_claimed_once(
    first: &mut CancellableRequestState,
    second: &mut CancellableRequestState,
    first_emits: bool,
    second_emits: bool,
)
    requires
        call_ensures(CancellableRequestState::take_cancel_error_to_emit, (first,), first_emits),
        *old(second) == *final(first),
        call_ensures(CancellableRequestState::take_cancel_error_to_emit, (second,), second_emits),
    ensures
        first_emits <==> !old(first).cancel_error_emitted,
        !second_emits,
        *final(first) == (CancellableRequestState { cancel_error_emitted: true, ..*old(first) }),
        *final(second) == *final(first),
{
}

/// An order to stop names its direction and carries the code `0x10c`; it comes behind those given
/// before, and an owner starts without any.
pub proof fn law_orders_name_their_direction(
    made: StopOwner,
    receive: &mut StopOwner,
    send: &mut StopOwner,
)
    requires
        call_ensures(StopOwner::new, (), made),
        call_ensures(StopOwner::stop_receive, (receive,), ()),
        call_ensures(StopOwner::stop_send, (send,), ()),
    ensures
        made.requests@.len() == 0,
        final(receive).requests@ == old(receive).requests@.push(
            StopRequest { side: StopSide::Receive, code: 0x10c },
        ),
        final(send).requests@ == old(send).requests@.push(
            StopRequest { side: StopSide::Send, code: 0x10c },
        ),
{
}

/// Giving a stream up stops exactly the directions that are open and were not stopped before,
/// cancelled or not, the receiving one first, with the code `0x10c`; after it none is left, and
/// nothing else changes.
pub proof fn law_giving_up_stops_what_is_open(
    state: &mut CancellableRequestState,
    owner: &mut StopOwner,
)
    requires
        call_ensures(CancellableRequestState::apply_drop_cleanup_to_owner, (state, owner), ()),
    ensures
        ({
            let receive = !old(state).recv_terminal && !old(state).receive_stop_sent;
            let send = !old(state).send_finished && !old(state).send_stop_sent;
            let before = old(owner).requests@;
            let after = final(owner).requests@;
            &&& after.len() == before.len() + (if receive {
                1nat
            } else {
                0
            }) + (if send {
                1nat
            } else {
                0
            })
            &&& after.take(before.len() as int) == before
            &&& receive ==> after[before.len() as int] == (StopRequest {
                side: StopSide::Receive,
                code: 0x10c,
            })
            &&& send ==> after.last() == (StopRequest { side: StopSide::Send, code: 0x10c })
            &&& *final(state) == (CancellableRequestState {
                receive_stop_sent: old(state).receive_stop_sent || !old(state).recv_terminal,
                send_stop_sent: old(state).send_stop_sent || !old(state).send_finished,
                ..*old(state)
            })
        }),
{
}

/// Applying a cancellation to a cancelled request does what giving its stream up does; to one that
/// was not cancelled it does nothing.
pub proof fn law_cancellation_stops_what_is_open(
    state: &mut CancellableRequestState,
    owner: &mut StopOwner,
    given_up: &mut CancellableRequestState,
    given_up_owner: &mut StopOwner,
)
    requires
        *old(given_up) == *old(state),
        old(given_up_owner).requests@ == old(owner).requests@,
        call_ensures(CancellableRequestState::apply_cancel_to_owner, (state, owner), ()),
        call_ensures(
            CancellableRequestState::apply_drop_cleanup_to_owner,
            (given_up, given_up_owner),
            (),
        ),
    ensures
        old(state).cancelled ==> *final(state) == *final(given_up) && final(owner).requests@
            == final(given_up_owner).requests@,
        !old(state).cancelled ==> *final(state) == *old(state) && final(owner).requests@ == old(owner).requests@,
{
}

/// A handle sees and cancels the very state that it was made for: cancelling it cancels that state
/// and changes nothing else there, and its task is to be woken exactly where it was not cancelled
/// before.
pub proof fn law_handle_cancels_its_request<'a>(
    state: &'a mut CancellableRequestState,
    made: RequestCancelHandle<'a>,
    seen: bool,
    handle: &mut RequestCancelHandle<'a>,
    wake: bool,
    seen_after: bool,
)
    requires
        call_ensures(RequestCancelHandle::<'a>::new, (state,), made),
        call_ensures(RequestCancelHandle::<'a>::is_cancelled, (&made,), seen),
        *old(handle) == made,
        call_ensures(RequestCancelHandle::<'a>::cancel, (handle,), wake),
        call_ensures(RequestCancelHandle::<'a>::is_cancelled, (&*final(handle),), seen_after),
        *final(final(handle).state) == *final(handle).state,
    ensures
        seen == old(state).cancelled,
        wake <==> !old(state).cancelled,
        seen_after,
        *final(state) == (CancellableRequestState { cancelled: true, ..*old(state) }),
{
}

/// A guard holds the stream that it is given, lends it out, and hands it on once.
pub proof fn law_guard_holds_its_stream<T>(
    stream: T,
    made: OwnedStreamGuard<T>,
    lending: &mut OwnedStreamGuard<T>,
    lent: &mut T,
    taking: &mut OwnedStreamGuard<T>,
    taken: T,
)
    requires
        call_ensures(OwnedStreamGuard::<T>::new, (stream,), made),
        *old(lending) == made,
        call_ensures(OwnedStreamGuard::<T>::stream_mut, (lending,), lent),
        *old(taking) == *final(lending),
        call_ensures(OwnedStreamGuard::<T>::take_stream, (taking,), taken),
    ensures
        made.stream == Some(stream),
        *old(lent) == stream,
        taken == *final(lent),
        final(taking).stream is None,
{
}

/// A guard that still holds its stream gives it up when it is dropped, cancelled or not, as any
/// stream is given up; one that handed it on does nothing.
pub proof fn law_dropped_guard_gives_its_stream_up<T>(
    guard: &mut OwnedStreamGuard<T>,
    state: &mut CancellableRequestState,
    owner: &mut StopOwner,
    given_up: &mut CancellableRequestState,
    given_up_owner: &mut StopOwner,
)
    requires
        *old(given_up) == *old(state),
        old(given_up_owner).requests@ == old(owner).requests@,
        call_ensures(OwnedStreamGuard::<T>::release, (guard, state, owner), ()),
        call_ensures(
            CancellableRequestState::apply_drop_cleanup_to_owner,
            (given_up, given_up_owner),
            (),
        ),
    ensures
        old(guard).stream is Some ==> *final(state) == *final(given_up) && final(owner).requests@
            == final(given_up_owner).requests@,
        old(guard).stream is None ==> *final(state) == *old(state) && final(owner).requests@ == old(owner).requests@,
        *final(guard) == *old(guard),
{
}

/// A response body holds the stream and the sender that it is given, and records that its request
/// was sent whole and its body is being read, and nothing else.
pub proof fn law_response_body_holds_its_stream<T, S>(
    stream: T,
    sender: S,
    state: &mut CancellableRequestState,
    body: CancellableH3Body<T, S>,
)
    requires
        call_ensures(CancellableH3Body::<T, S>::new, (stream, sender, state), body),
    ensures
        body.stream == Some(stream),
        body.sender == sender,
        *final(state) == (CancellableRequestState {
            phase: RequestPhase::ReadingResponseBody,
            send_finished: true,
            ..*old(state)
        }),
{
}

/// A response body that still holds its stream gives it up as any stream is given up; one without a
/// stream does nothing.
pub proof fn law_unfinished_body_gives_its_stream_up<T, S>(
    body: &mut CancellableH3Body<T, S>,
    state: &mut CancellableRequestState,
    owner: &mut StopOwner,
    given_up: &mut CancellableRequestState,
    given_up_owner: &mut StopOwner,
)
    requires
        *old(given_up) == *old(state),
        old(given_up_owner).requests@ == old(owner).requests@,
        call_ensures(
            CancellableH3Body::<T, S>::cleanup_unfinished_response_body,
            (body, state, owner),
            (),
        ),
        call_ensures(
            CancellableRequestState::apply_drop_cleanup_to_owner,
            (given_up, given_up_owner),
            (),
        ),
    ensures
        old(body).stream is Some ==> *final(state) == *final(given_up) && final(owner).requests@
            == final(given_up_owner).requests@,
        old(body).stream is None ==> *final(state) == *old(state) && final(owner).requests@ == old(owner).requests@,
        *final(body) == *old(body),
{
}

/// The handle of a response body is one for the state that it shares.
pub proof fn law_body_handle_is_for_its_state<'a, T, S>(
    body: CancellableH3Body<T, S>,
    state: &'a mut CancellableRequestState,
    handle: RequestCancelHandle<'a>,
)
    requires
        call_ensures(CancellableH3Body::<T, S>::cancel_handle, (&body, state), handle),
    ensures
        *old(handle.state) == *old(state),
        *final(state) == *final(handle.state),
{
}

} // verus!
