//! The state that a request, its response body and its cancel handles share.
//!
//! The holder of the state keeps it behind a lock and lends it, exclusively, to one operation at
//! a time.

use crate::codes::request_cancel_code;
use crate::codes::REQUEST_CANCEL_CODE;
use vstd::prelude::*;

verus! {

/// How far a request has come.
#[derive(Clone, Copy, Debug, PartialEq, Eq, Structural)]
pub enum RequestPhase {
    /// Nothing was asked of the connection yet.
    BeforeStreamOpen,
    /// A connection to the peer is being obtained.
    OpeningRequestStream,
    /// The request line and headers are being sent.
    SendingRequestHeaders,
    /// The request body is being sent.
    SendingRequestBody,
    /// The sending direction is being finished.
    FinishingRequest,
    /// The response headers are awaited.
    WaitingResponseHeaders,
    /// The response body is being read.
    ReadingResponseBody,
    /// The response has ended.
    Complete,
}

/// A direction of a request stream.
#[derive(Clone, Copy, Debug, PartialEq, Eq, Structural)]
pub enum StopSide {
    /// The response direction: the peer is told to stop sending.
    Receive,
    /// The request direction: it is reset.
    Send,
}

/// An order to stop one direction of a request stream.
#[derive(Clone, Copy, Debug, PartialEq, Eq, Structural)]
pub struct StopRequest {
    /// The direction to stop.
    pub side: StopSide,
    /// The HTTP/3 error code to stop it with.
    pub code: u64,
}

/// The order that a cancelled request gives for `side`.
pub open spec fn cancel_stop(side: StopSide) -> StopRequest {
    StopRequest { side, code: REQUEST_CANCEL_CODE }
}

/// The stop orders for the owner of a request stream, oldest first.
#[derive(Debug)]
pub struct StopOwner {
    /// The orders that are still to be carried out.
    pub requests: Vec<StopRequest>,
}

impl View for StopOwner {
    type V = Seq<StopRequest>;

    open spec fn view(&self) -> Seq<StopRequest> {
        self.requests@
    }
}

impl StopOwner {
    /// An owner without orders.
    pub fn new() -> (owner: Self)
        ensures
            owner@ == Seq::<StopRequest>::empty(),
    {
        StopOwner { requests: Vec::new() }
    }

    /// Orders the receiving direction to be stopped.
    pub fn stop_receive(&mut self)
        ensures
            final(self)@ == old(self)@.push(cancel_stop(StopSide::Receive)),
    {
        self.requests.push(StopRequest { side: StopSide::Receive, code: request_cancel_code() });
    }

    /// Orders the sending direction to be stopped.
    pub fn stop_send(&mut self)
        ensures
            final(self)@ == old(self)@.push(cancel_stop(StopSide::Send)),
    {
        self.requests.push(StopRequest { side: StopSide::Send, code: request_cancel_code() });
    }
}

/// What a request, its response body and its cancel handles know of each other.
#[derive(Clone, Copy, Debug, PartialEq, Eq, Structural)]
pub struct CancellableRequestState {
    /// Cancellation was asked for.
    pub cancelled: bool,
    /// How far the request has come.
    pub phase: RequestPhase,
    /// The sending direction needs no stop: the request was sent whole.
    pub send_finished: bool,
    /// The receiving direction needs no stop: the response has ended.
    pub recv_terminal: bool,
    /// The receiving direction was ordered to stop.
    pub receive_stop_sent: bool,
    /// The sending direction was ordered to stop.
    pub send_stop_sent: bool,
    /// The reader of the response body was told of the cancellation.
    pub cancel_error_emitted: bool,
}

impl CancellableRequestState {
    /// A request of which nothing has happened yet.
    pub open spec fn initial() -> Self {
        CancellableRequestState {
            cancelled: false,
            phase: RequestPhase::BeforeStreamOpen,
            send_finished: false,
            recv_terminal: false,
            receive_stop_sent: false,
            send_stop_sent: false,
            cancel_error_emitted: false,
        }
    }

    /// This state in phase `phase`.
    pub open spec fn in_phase(self, phase: RequestPhase) -> Self {
        CancellableRequestState { phase, ..self }
    }

    /// This state once the request was sent whole.
    pub open spec fn with_send_finished(self) -> Self {
        CancellableRequestState { send_finished: true, ..self }
    }

    /// This state once the response has ended.
    pub open spec fn with_recv_terminal(self) -> Self {
        CancellableRequestState {
            recv_terminal: true,
            send_finished: true,
            phase: RequestPhase::Complete,
            ..self
        }
    }

    /// This state once cancellation was asked for.
    pub open spec fn with_cancelled(self) -> Self {
        CancellableRequestState { cancelled: true, ..self }
    }

    /// This state once the reader was told of the cancellation.
    pub open spec fn with_cancel_error_emitted(self) -> Self {
        CancellableRequestState { cancel_error_emitted: true, ..self }
    }

    /// The receiving direction is open and was not ordered to stop.
    pub open spec fn receive_is_live(self) -> bool {
        !self.recv_terminal && !self.receive_stop_sent
    }

    /// The sending direction is open and was not ordered to stop.
    pub open spec fn send_is_live(self) -> bool {
        !self.send_finished && !self.send_stop_sent
    }

    /// The orders that stop every live direction, the receiving one first.
    pub open spec fn live_stops(self) -> Seq<StopRequest> {
        (if self.receive_is_live() {
            seq![cancel_stop(StopSide::Receive)]
        } else {
            seq![]
        }) + (if self.send_is_live() {
            seq![cancel_stop(StopSide::Send)]
        } else {
            seq![]
        })
    }

    /// This state once every live direction was ordered to stop.
    pub open spec fn with_live_stopped(self) -> Self {
        CancellableRequestState {
            receive_stop_sent: self.receive_stop_sent || self.receive_is_live(),
            send_stop_sent: self.send_stop_sent || self.send_is_live(),
            ..self
        }
    }

    /// The orders that [`Self::apply_cancel_to_owner`] gives.
    pub open spec fn cancel_stops(self) -> Seq<StopRequest> {
        if self.cancelled {
            self.live_stops()
        } else {
            seq![]
        }
    }

    /// The state that [`Self::apply_cancel_to_owner`] leaves.
    pub open spec fn with_cancel_applied(self) -> Self {
        if self.cancelled {
            self.with_live_stopped()
        } else {
            self
        }
    }

    /// A request of which nothing has happened yet.
    pub fn new() -> (state: Self)
        ensures
            state == Self::initial(),
    {
        CancellableRequestState {
            cancelled: false,
            phase: RequestPhase::BeforeStreamOpen,
            send_finished: false,
            recv_terminal: false,
            receive_stop_sent: false,
            send_stop_sent: false,
            cancel_error_emitted: false,
        }
    }

    /// Records how far the request has come.
    pub fn mark_phase(&mut self, phase: RequestPhase)
        ensures
            *final(self) == old(self).in_phase(phase),
    {
        self.phase = phase;
    }

    /// Records that the request was sent whole.
    pub fn mark_send_finished(&mut self)
        ensures
            *final(self) == old(self).with_send_finished(),
    {
        self.send_finished = true;
    }

    /// Records that the response has ended.
    pub fn mark_recv_terminal(&mut self)
        ensures
            *final(self) == old(self).with_recv_terminal(),
    {
        self.recv_terminal = true;
        self.send_finished = true;
        self.phase = RequestPhase::Complete;
    }

    /// Whether cancellation was asked for.
    pub fn is_cancelled(&self) -> (cancelled: bool)
        ensures
            cancelled == self.cancelled,
    {
        self.cancelled
    }

    /// Claims the one report of the cancellation to the reader; false where it was claimed before.
    pub fn take_cancel_error_to_emit(&mut self) -> (emit: bool)
        ensures
            emit == !old(self).cancel_error_emitted,
            *final(self) == old(self).with_cancel_error_emitted(),
    {
        if self.cancel_error_emitted {
            false
        } else {
            self.cancel_error_emitted = true;
            true
        }
    }

    /// Claims the stop of every live direction: first whether to stop receiving, then whether to
    /// stop sending.
    fn claim_live_stops(&mut self) -> (stops: (bool, bool))
        ensures
            stops.0 == old(self).receive_is_live(),
            stops.1 == old(self).send_is_live(),
            *final(self) == old(self).with_live_stopped(),
    {
        let stop_receive = !self.recv_terminal && !self.receive_stop_sent;
        let stop_send = !self.send_finished && !self.send_stop_sent;
        if stop_receive {
            self.receive_stop_sent = true;
        }
        if stop_send {
            self.send_stop_sent = true;
        }
        (stop_receive, stop_send)
    }

    /// Orders the live directions of a cancelled request to be stopped. A request that was not
    /// cancelled is left alone.
    pub fn apply_cancel_to_owner(&mut self, owner: &mut StopOwner)
        ensures
            final(owner)@ == old(owner)@ + old(self).cancel_stops(),
            *final(self) == old(self).with_cancel_applied(),
    {
        if self.cancelled {
            self.apply_drop_cleanup_to_owner(owner);
        }
    }

    /// Orders the live directions of a stream that is given up to be stopped, cancelled or not.
    pub fn apply_drop_cleanup_to_owner(&mut self, owner: &mut StopOwner)
        ensures
            final(owner)@ == old(owner)@ + old(self).live_stops(),
            *final(self) == old(self).with_live_stopped(),
    {
        let (stop_receive, stop_send) = self.claim_live_stops();
        if stop_receive {
            owner.stop_receive();
        }
        if stop_send {
            owner.stop_send();
        }
    }
}

/// A handle that cancels a request, on the state that it was made for.
pub struct RequestCancelHandle<'a> {
    /// The state of the request.
    pub state: &'a mut CancellableRequestState,
}

impl View for RequestCancelHandle<'_> {
    type V = CancellableRequestState;

    open spec fn view(&self) -> CancellableRequestState {
        *self.state
    }
}

impl<'a> RequestCancelHandle<'a> {
    /// The handle for the request with this state.
    pub fn new(state: &'a mut CancellableRequestState) -> (handle: Self)
        ensures
            handle@ == *old(state),
            *final(state) == *final(handle.state),
    {
        RequestCancelHandle { state }
    }

    /// Asks for cancellation. True where it was not asked for before: the task that waits on the
    /// request has to be woken.
    pub fn cancel(&mut self) -> (wake: bool)
        ensures
            wake == !old(self)@.cancelled,
            final(self)@ == old(self)@.with_cancelled(),
            *final(final(self).state) == *final(old(self).state),
    {
        let wake = !self.state.cancelled;
        self.state.cancelled = true;
        wake
    }

    /// Whether cancellation was asked for.
    pub fn is_cancelled(&self) -> (cancelled: bool)
        ensures
            cancelled == self@.cancelled,
    {
        self.state.cancelled
    }
}

} // verus!
