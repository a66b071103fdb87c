//! A request from the moment it is made until its response headers are here.
//!
//! The request asks for one operation at a time: a sender to the peer, the headers sent, the body
//! sent, the sending direction finished, the response headers received. Between operations it
//! looks at the shared state, which a cancel handle may have changed.

use crate::body::Body;
#[allow(unused_imports)]
use crate::body::BodyView;
#[allow(unused_imports)]
use crate::buffer::bytes_contents;
use crate::cancel::h3_body::CancellableH3Body;
use crate::cancel::state::{CancellableRequestState, RequestCancelHandle, RequestPhase, StopOwner};
#[allow(unused_imports)]
use crate::cancel::state::StopRequest;
use crate::error::{transport, Error};
use bytes::Bytes;
use vstd::prelude::*;

verus! {

/// Where a request stands.
#[derive(Clone, Copy, Debug, PartialEq, Eq, Structural)]
pub enum RequestStage {
    /// It was not polled yet.
    BeforeStreamOpen,
    /// A sender to the peer is being obtained.
    GettingSender,
    /// The request headers are being sent.
    SendingRequestHeaders,
    /// The request body is being sent.
    SendingRequestBody,
    /// The sending direction is being finished.
    FinishingRequest,
    /// The response headers are awaited.
    WaitingResponseHeaders,
    /// It has ended.
    Complete,
}

/// What happens to a request.
pub enum RequestEvent {
    /// Its task polls it.
    Poll,
    /// The operation in flight succeeds.
    Succeeded,
    /// The operation in flight fails.
    Failed,
    /// A handle cancels it.
    Cancel,
    /// Its task drops it.
    Abandon,
}

/// What a request does.
pub enum RequestEffect {
    /// Nothing.
    Nothing,
    /// It waits for the operation in flight.
    Wait,
    /// It starts the operation of the stage that it enters.
    Start,
    /// It fails, as cancelled.
    Cancelled,
    /// It fails with what the operation failed with.
    Fail,
    /// It gives the response.
    Respond,
}

/// A request together with its shared state.
pub struct RequestModel {
    /// Where the request stands.
    pub stage: RequestStage,
    /// The state it shares.
    pub state: CancellableRequestState,
}

/// What an event does to a request.
pub struct RequestStep {
    /// The request after it.
    pub model: RequestModel,
    /// What the request does.
    pub effect: RequestEffect,
    /// The stop orders for its stream.
    pub stops: Seq<StopRequest>,
}

/// The request enters `stage` with `state`, starting its operation.
pub open spec fn start_stage(stage: RequestStage, state: CancellableRequestState) -> RequestStep {
    RequestStep {
        model: RequestModel { stage, state },
        effect: RequestEffect::Start,
        stops: seq![],
    }
}

/// The request ends without a stream to stop.
pub open spec fn end_request(state: CancellableRequestState, effect: RequestEffect) -> RequestStep {
    RequestStep {
        model: RequestModel { stage: RequestStage::Complete, state },
        effect,
        stops: seq![],
    }
}

/// The request fails and gives its stream up.
pub open spec fn fail_with_stream(state: CancellableRequestState) -> RequestStep {
    RequestStep {
        model: RequestModel { stage: RequestStage::Complete, state: state.with_live_stopped() },
        effect: RequestEffect::Fail,
        stops: state.live_stops(),
    }
}

/// Nothing changes.
pub open spec fn keep_request(model: RequestModel, effect: RequestEffect) -> RequestStep {
    RequestStep { model, effect, stops: seq![] }
}

/// What a poll does. Cancellation is looked at before anything else.
pub open spec fn poll_step(model: RequestModel) -> RequestStep {
    if model.state.cancelled {
        end_request(model.state, RequestEffect::Cancelled)
    } else {
        match model.stage {
            RequestStage::BeforeStreamOpen => start_stage(
                RequestStage::GettingSender,
                model.state.in_phase(RequestPhase::OpeningRequestStream),
            ),
            RequestStage::Complete => end_request(model.state, RequestEffect::Cancelled),
            _ => keep_request(model, RequestEffect::Wait),
        }
    }
}

/// What the success of the operation in flight does.
pub open spec fn success_step(model: RequestModel) -> RequestStep {
    match model.stage {
        RequestStage::GettingSender => start_stage(
            RequestStage::SendingRequestHeaders,
            model.state.in_phase(RequestPhase::SendingRequestHeaders),
        ),
        RequestStage::SendingRequestHeaders => start_stage(
            RequestStage::SendingRequestBody,
            model.state.in_phase(RequestPhase::SendingRequestBody),
        ),
        RequestStage::SendingRequestBody => start_stage(
            RequestStage::FinishingRequest,
            model.state.in_phase(RequestPhase::FinishingRequest),
        ),
        RequestStage::FinishingRequest => start_stage(
            RequestStage::WaitingResponseHeaders,
            model.state.with_send_finished().in_phase(RequestPhase::WaitingResponseHeaders),
        ),
        RequestStage::WaitingResponseHeaders => end_request(
            model.state.in_phase(RequestPhase::ReadingResponseBody).with_send_finished(),
            RequestEffect::Respond,
        ),
        _ => keep_request(model, RequestEffect::Nothing),
    }
}

/// What the failure of the operation in flight does. From the body on there is a stream to stop.
pub open spec fn failure_step(model: RequestModel) -> RequestStep {
    match model.stage {
        RequestStage::GettingSender | RequestStage::SendingRequestHeaders => end_request(
            model.state,
            RequestEffect::Fail,
        ),
        RequestStage::SendingRequestBody
        | RequestStage::FinishingRequest
        | RequestStage::WaitingResponseHeaders => fail_with_stream(model.state),
        _ => keep_request(model, RequestEffect::Nothing),
    }
}

/// What `event` does to a request.
pub open spec fn request_step(model: RequestModel, event: RequestEvent) -> RequestStep {
    match event {
        RequestEvent::Poll => poll_step(model),
        RequestEvent::Succeeded => success_step(model),
        RequestEvent::Failed => failure_step(model),
        RequestEvent::Cancel => keep_request(
            RequestModel { state: model.state.with_cancelled(), ..model },
            RequestEffect::Nothing,
        ),
        RequestEvent::Abandon => end_request(model.state, RequestEffect::Nothing),
    }
}

/// What a request that was not polled yet holds, or how far it has come since. `M` obtains senders,
/// `P` names the peer and `Q` is the request line with its headers.
pub enum PendingRequestStage<M, P, Q> {
    /// It was not polled yet.
    BeforeStreamOpen(OpenRequest<M, P, Q>),
    /// A sender to the peer is being obtained.
    GettingSender,
    /// The request headers are being sent.
    SendingRequestHeaders,
    /// The request body is being sent.
    SendingRequestBody,
    /// The sending direction is being finished.
    FinishingRequest,
    /// The response headers are awaited.
    WaitingResponseHeaders,
    /// It has ended.
    Complete,
}

/// A request to send, and to whom.
pub struct OpenRequest<M, P, Q> {
    /// Obtains senders.
    pub connection_manager: M,
    /// The peer.
    pub peer_id: P,
    /// The request line and headers.
    pub request: Q,
    /// The request body.
    pub body: Bytes,
}

/// What to do after a poll.
pub enum PollStep<M, P, Q, E> {
    /// Obtain a sender to the peer.
    GetSender(OpenRequest<M, P, Q>),
    /// Poll the operation in flight.
    Wait,
    /// Fail.
    Ready(Error<E>),
}

/// Request headers to send.
pub struct SendRequest<S, Q> {
    /// The sender to send them on.
    pub sender: S,
    /// The request line and headers.
    pub request: Q,
    /// The request body, to be sent after them.
    pub body: Bytes,
}

/// A request body to send on a stream that carries the headers.
pub struct SendBody<S, T> {
    /// The sender that the stream is from.
    pub sender: S,
    /// The stream.
    pub stream: T,
    /// The bytes to send, where there are any.
    pub data: Option<Bytes>,
}

/// A request that failed on a stream, which is to be stopped as ordered and dropped.
pub struct FailedRequest<T, E> {
    /// The stream.
    pub stream: T,
    /// What it failed with.
    pub error: Error<E>,
}

/// A response: its headers `H`, and a body that is still to be read.
pub struct Response<H, B, T, S> {
    /// The response line and headers.
    pub inner: H,
    /// The response body.
    pub body: Body<B, CancellableH3Body<T, S>>,
}

/// A cancellable request that has been created but not yet resolved.
pub struct PendingRequest<M, P, Q> {
    /// Where the request stands, and what it holds there.
    pub stage: PendingRequestStage<M, P, Q>,
}

/// What the sending of a request body has to send: nothing where the body is empty.
pub fn body_to_send(body: Bytes) -> (data: Option<Bytes>)
    ensures
        data == if bytes_contents(body).len() == 0 {
            None
        } else {
            Some(body)
        },
{
    if body.is_empty() {
        None
    } else {
        Some(body)
    }
}

impl<M, P, Q> PendingRequest<M, P, Q> {
    /// Where the request stands.
    pub open spec fn at(self) -> RequestStage {
        match self.stage {
            PendingRequestStage::BeforeStreamOpen(_) => RequestStage::BeforeStreamOpen,
            PendingRequestStage::GettingSender => RequestStage::GettingSender,
            PendingRequestStage::SendingRequestHeaders => RequestStage::SendingRequestHeaders,
            PendingRequestStage::SendingRequestBody => RequestStage::SendingRequestBody,
            PendingRequestStage::FinishingRequest => RequestStage::FinishingRequest,
            PendingRequestStage::WaitingResponseHeaders => RequestStage::WaitingResponseHeaders,
            PendingRequestStage::Complete => RequestStage::Complete,
        }
    }

    /// The request together with the state it shares.
    pub open spec fn with_state(self, state: CancellableRequestState) -> RequestModel {
        RequestModel { stage: self.at(), state }
    }

    /// A request that was not polled yet.
    pub fn new(connection_manager: M, peer_id: P, request: Q, body: Bytes) -> (pending: Self)
        ensures
            pending.stage == PendingRequestStage::BeforeStreamOpen(
                OpenRequest { connection_manager, peer_id, request, body },
            ),
    {
        PendingRequest {
            stage: PendingRequestStage::BeforeStreamOpen(
                OpenRequest { connection_manager, peer_id, request, body },
            ),
        }
    }

    /// A handle that cancels this request, whose state is `state`.
    pub fn cancel_handle<'a>(&self, state: &'a mut CancellableRequestState) -> (handle:
        RequestCancelHandle<'a>)
        ensures
            handle@ == *old(state),
            *final(state) == *final(handle.state),
    {
        RequestCancelHandle::new(state)
    }

    /// Polls the request: looks at cancellation, and says what to do. A request that is cancelled,
    /// or polled after it ended, fails as cancelled.
    pub fn poll<E>(&mut self, state: &mut CancellableRequestState) -> (step: PollStep<M, P, Q, E>)
        ensures
            final(self).with_state(*final(state)) == poll_step(
                old(self).with_state(*old(state)),
            ).model,
            step == match poll_step(old(self).with_state(*old(state))).effect {
                RequestEffect::Start => PollStep::<M, P, Q, E>::GetSender(
                    old(self).stage->BeforeStreamOpen_0,
                ),
                RequestEffect::Wait => PollStep::Wait,
                _ => PollStep::Ready(Error::Cancelled),
            },
    {
        if state.is_cancelled() {
            self.stage = PendingRequestStage::Complete;
            return PollStep::Ready(Error::Cancelled);
        }
        let mut stage = PendingRequestStage::GettingSender;
        std::mem::swap(&mut self.stage, &mut stage);
        match stage {
            PendingRequestStage::BeforeStreamOpen(open) => {
                state.mark_phase(RequestPhase::OpeningRequestStream);
                PollStep::GetSender(open)
            },
            PendingRequestStage::Complete => {
                self.stage = PendingRequestStage::Complete;
                PollStep::Ready(Error::Cancelled)
            },
            stage => {
                self.stage = stage;
                PollStep::Wait
            },
        }
    }

    /// Takes the sender that was to be obtained for `request` and `body`. On success the request
    /// headers are to be sent on it.
    pub fn on_sender<S, E>(
        &mut self,
        state: &mut CancellableRequestState,
        request: Q,
        body: Bytes,
        result: Result<S, Error<E>>,
    ) -> (next: Result<SendRequest<S, Q>, Error<E>>)
        requires
            old(self).at() == RequestStage::GettingSender,
        ensures
            next == match result {
                Ok(sender) => Ok::<SendRequest<S, Q>, Error<E>>(
                    SendRequest { sender, request, body },
                ),
                Err(error) => Err(error),
            },
            final(self).with_state(*final(state)) == (if result is Ok {
                success_step(old(self).with_state(*old(state)))
            } else {
                failure_step(old(self).with_state(*old(state)))
            }).model,
    {
        match result {
            Ok(sender) => {
                state.mark_phase(RequestPhase::SendingRequestHeaders);
                self.stage = PendingRequestStage::SendingRequestHeaders;
                Ok(SendRequest { sender, request, body })
            },
            Err(error) => {
                self.stage = PendingRequestStage::Complete;
                Err(error)
            },
        }
    }

    /// Takes what came of sending the request headers on `sender`. On success the body is to be
    /// sent on the stream that carries them.
    pub fn on_request_sent<S, T, E>(
        &mut self,
        state: &mut CancellableRequestState,
        sender: S,
        body: Bytes,
        result: Result<T, E>,
    ) -> (next: Result<SendBody<S, T>, Error<E>>)
        requires
            old(self).at() == RequestStage::SendingRequestHeaders,
        ensures
            next == match result {
                Ok(stream) => Ok::<SendBody<S, T>, Error<E>>(
                    SendBody {
                        sender,
                        stream,
                        data: if bytes_contents(body).len() == 0 {
                            None
                        } else {
                            Some(body)
                        },
                    },
                ),
                Err(error) => Err(Error::Transport(error)),
            },
            final(self).with_state(*final(state)) == (if result is Ok {
                success_step(old(self).with_state(*old(state)))
            } else {
                failure_step(old(self).with_state(*old(state)))
            }).model,
    {
        match transport(result) {
            Ok(stream) => {
                state.mark_phase(RequestPhase::SendingRequestBody);
                self.stage = PendingRequestStage::SendingRequestBody;
                Ok(SendBody { sender, stream, data: body_to_send(body) })
            },
            Err(error) => {
                self.stage = PendingRequestStage::Complete;
                Err(error)
            },
        }
    }

    /// Takes what came of sending the request body on `stream`. On success its sending direction is
    /// to be finished.
    pub fn on_body_sent<S, T, E>(
        &mut self,
        state: &mut CancellableRequestState,
        owner: &mut StopOwner,
        sender: S,
        stream: T,
        result: Result<(), E>,
    ) -> (next: Result<(S, T), FailedRequest<T, E>>)
        requires
            old(self).at() == RequestStage::SendingRequestBody,
        ensures
            next == match result {
                Ok(_) => Ok::<(S, T), FailedRequest<T, E>>((sender, stream)),
                Err(error) => Err(FailedRequest { stream, error: Error::Transport(error) }),
            },
            ({
                let before = old(self).with_state(*old(state));
                let step = if result is Ok {
                    success_step(before)
                } else {
                    failure_step(before)
                };
                &&& final(self).with_state(*final(state)) == step.model
                &&& final(owner)@ == old(owner)@ + step.stops
            }),
    {
        match transport(result) {
            Ok(_) => {
                state.mark_phase(RequestPhase::FinishingRequest);
                self.stage = PendingRequestStage::FinishingRequest;
                Ok((sender, stream))
            },
            Err(error) => {
                state.apply_drop_cleanup_to_owner(owner);
                self.stage = PendingRequestStage::Complete;
                Err(FailedRequest { stream, error })
            },
        }
    }

    /// Takes what came of finishing the sending direction of `stream`. On success the response
    /// headers are to be received on it.
    pub fn on_request_finished<S, T, E>(
        &mut self,
        state: &mut CancellableRequestState,
        owner: &mut StopOwner,
        sender: S,
        stream: T,
        result: Result<(), E>,
    ) -> (next: Result<(S, T), FailedRequest<T, E>>)
        requires
            old(self).at() == RequestStage::FinishingRequest,
        ensures
            next == match result {
                Ok(_) => Ok::<(S, T), FailedRequest<T, E>>((sender, stream)),
                Err(error) => Err(FailedRequest { stream, error: Error::Transport(error) }),
            },
            ({
                let before = old(self).with_state(*old(state));
                let step = if result is Ok {
                    success_step(before)
                } else {
                    failure_step(before)
                };
                &&& final(self).with_state(*final(state)) == step.model
                &&& final(owner)@ == old(owner)@ + step.stops
            }),
    {
        match transport(result) {
            Ok(_) => {
                state.mark_send_finished();
                state.mark_phase(RequestPhase::WaitingResponseHeaders);
                self.stage = PendingRequestStage::WaitingResponseHeaders;
                Ok((sender, stream))
            },
            Err(error) => {
                state.apply_drop_cleanup_to_owner(owner);
                self.stage = PendingRequestStage::Complete;
                Err(FailedRequest { stream, error })
            },
        }
    }

    /// Takes what came of receiving the response headers on `stream`. On success the request
    /// resolves to the response, whose body is still to be read from the stream.
    pub fn on_response<H, B, S, T, E>(
        &mut self,
        state: &mut CancellableRequestState,
        owner: &mut StopOwner,
        sender: S,
        stream: T,
        result: Result<H, E>,
    ) -> (next: Result<Response<H, B, T, S>, FailedRequest<T, E>>)
        requires
            old(self).at() == RequestStage::WaitingResponseHeaders,
        ensures
            match result {
                Ok(inner) => next matches Ok(response) && response.inner == inner
                    && response.body@ == BodyView::<B, CancellableH3Body<T, S>>::CancellableH3(
                    CancellableH3Body { stream: Some(stream), sender },
                ),
                Err(error) => next == Err::<Response<H, B, T, S>, FailedRequest<T, E>>(
                    FailedRequest { stream, error: Error::Transport(error) },
                ),
            },
            ({
                let before = old(self).with_state(*old(state));
                let step = if result is Ok {
                    success_step(before)
                } else {
                    failure_step(before)
                };
                &&& final(self).with_state(*final(state)) == step.model
                &&& final(owner)@ == old(owner)@ + step.stops
            }),
    {
        match transport(result) {
            Ok(inner) => {
                let body = Body::cancellable_h3(CancellableH3Body::new(stream, sender, state));
                self.stage = PendingRequestStage::Complete;
                Ok(Response { inner, body })
            },
            Err(error) => {
                state.apply_drop_cleanup_to_owner(owner);
                self.stage = PendingRequestStage::Complete;
                Err(FailedRequest { stream, error })
            },
        }
    }

    /// Ends the request without a result, when its task drops it.
    pub fn abandon(&mut self)
        ensures
            final(self).at() == RequestStage::Complete,
    {
        self.stage = PendingRequestStage::Complete;
    }
}

} // verus!
