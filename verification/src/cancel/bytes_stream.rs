//! Reading a response body whose request can be cancelled.

use crate::cancel::h3_body::CancellableH3Body;
#[allow(unused_imports)]
use crate::cancel::h3_body::{release_stops, released_state};
use crate::cancel::state::{CancellableRequestState, RequestCancelHandle, StopOwner};
#[allow(unused_imports)]
use crate::cancel::state::StopRequest;
use crate::error::Error;
use bytes::Bytes;
use h3::error::StreamError;
use vstd::prelude::*;

verus! {

/// `h3::error::StreamError`, the failure of an HTTP/3 stream.
#[verifier::external_type_specification]
#[verifier::external_body]
pub struct ExStreamError(StreamError);

/// What `StreamError::is_h3_no_error` says of a failure: it is the code by which the peer, or this
/// side, closes without an error.
pub uninterp spec fn is_no_error(error: StreamError) -> bool;

/// `StreamError::is_h3_no_error` reads nothing but the failure. Which failures it holds of is left
/// unsaid: a `StreamError` is opaque here.
pub assume_specification[ StreamError::is_h3_no_error ](error: &StreamError) -> (no_error: bool)
    ensures
        no_error == is_no_error(*error),
;

/// What receiving on a request stream gives.
pub enum Received<E> {
    /// A piece of the response body.
    Data(Bytes),
    /// A failure of the transport.
    Failed {
        /// The failure.
        error: E,
        /// It is how a side closes without an error.
        no_error: bool,
    },
    /// The end of the response body.
    End,
}

impl Received<StreamError> {
    /// A failure of the transport.
    pub fn failed(error: StreamError) -> (received: Self)
        ensures
            received == (Received::Failed { error, no_error: is_no_error(error) }),
    {
        let no_error = error.is_h3_no_error();
        Received::Failed { error, no_error }
    }
}

/// What happens to a response body stream.
pub enum BodyEvent<E> {
    /// Its reader polls it.
    Poll,
    /// Receiving on the request stream gives this.
    Receive(Received<E>),
    /// A handle cancels the request.
    Cancel,
    /// Its reader drops it.
    Release,
}

/// What a response body stream gives its reader.
pub enum Delivery<E> {
    /// Nothing: the event was not the reader's.
    Nothing,
    /// Nothing yet: receive on the request stream.
    Receive,
    /// A piece of the body, a failure, or the end of the stream.
    Item(Option<Result<Bytes, Error<E>>>),
}

/// A response body stream together with the state it shares.
pub struct BodyModel {
    /// The stream has not ended.
    pub open: bool,
    /// The state it shares.
    pub state: CancellableRequestState,
}

/// What an event does to a response body stream.
pub struct BodyStep<E> {
    /// The stream after it.
    pub model: BodyModel,
    /// What the reader is given.
    pub delivery: Delivery<E>,
    /// The stop orders for the request stream.
    pub stops: Seq<StopRequest>,
}

/// The stream ends with `item`, of a response that has ended.
pub open spec fn end_body<E>(
    state: CancellableRequestState,
    item: Option<Result<Bytes, Error<E>>>,
) -> BodyStep<E> {
    BodyStep {
        model: BodyModel { open: false, state: state.with_recv_terminal() },
        delivery: Delivery::Item(item),
        stops: seq![],
    }
}

/// The stream ends because its request is cancelled. The reader learns it once.
pub open spec fn cancel_body<E>(state: CancellableRequestState) -> BodyStep<E> {
    BodyStep {
        model: BodyModel {
            open: false,
            state: state.with_cancel_applied().with_cancel_error_emitted(),
        },
        delivery: Delivery::Item(
            if state.cancel_error_emitted {
                None
            } else {
                Some(Err(Error::Cancelled))
            },
        ),
        stops: state.cancel_stops(),
    }
}

/// What a poll does to the stream.
pub open spec fn poll_body<E>(model: BodyModel) -> BodyStep<E> {
    if !model.open {
        BodyStep { model, delivery: Delivery::Item(None), stops: seq![] }
    } else if model.state.cancelled {
        cancel_body(model.state)
    } else {
        BodyStep { model, delivery: Delivery::Receive, stops: seq![] }
    }
}

/// What receiving `received` does to a stream that is open. Where the request was cancelled
/// meanwhile, what was received is dropped.
pub open spec fn receive_body<E>(
    state: CancellableRequestState,
    received: Received<E>,
) -> BodyStep<E> {
    if state.cancelled {
        cancel_body(state)
    } else {
        match received {
            Received::Data(bytes) => BodyStep {
                model: BodyModel { open: true, state },
                delivery: Delivery::Item(Some(Ok(bytes))),
                stops: seq![],
            },
            Received::Failed { error, no_error } => end_body(
                state,
                if no_error {
                    None
                } else {
                    Some(Err(Error::Transport(error)))
                },
            ),
            Received::End => end_body(state, None),
        }
    }
}

/// What `event` does to a response body stream.
pub open spec fn body_step<E>(model: BodyModel, event: BodyEvent<E>) -> BodyStep<E> {
    match event {
        BodyEvent::Poll => poll_body(model),
        BodyEvent::Receive(received) => if model.open {
            receive_body(model.state, received)
        } else {
            BodyStep { model, delivery: Delivery::Nothing, stops: seq![] }
        },
        BodyEvent::Cancel => BodyStep {
            model: BodyModel { state: model.state.with_cancelled(), ..model },
            delivery: Delivery::Nothing,
            stops: seq![],
        },
        BodyEvent::Release => BodyStep {
            model: BodyModel { open: false, state: released_state(model.state, model.open) },
            delivery: Delivery::Nothing,
            stops: release_stops(model.state, model.open),
        },
    }
}

/// An item for the reader. Where the stream ends with it, the body that was read comes along: its
/// request stream is to be stopped as ordered, and dropped.
pub struct Delivered<T, S, E> {
    /// The item, `None` being the end of the stream.
    pub item: Option<Result<Bytes, Error<E>>>,
    /// The body that is read no more.
    pub retired: Option<CancellableH3Body<T, S>>,
}

/// What to do after a poll.
pub enum NextStep<T, S, E> {
    /// Receive on the request stream.
    Receive,
    /// Give the reader an item.
    Ready(Delivered<T, S, E>),
}

/// A response byte stream associated with a cancellation handle.
pub struct CancellableBytesStream<T, S> {
    /// The body, until the stream has ended.
    pub body: Option<CancellableH3Body<T, S>>,
}

impl<T, S> CancellableBytesStream<T, S> {
    /// A body that is read here has its request stream.
    pub open spec fn wf(self) -> bool {
        self.body matches Some(body) ==> body.stream is Some
    }

    /// The stream together with the state it shares.
    pub open spec fn with_state(self, state: CancellableRequestState) -> BodyModel {
        BodyModel { open: self.body is Some, state }
    }

    /// Reads `body`.
    pub fn new(body: CancellableH3Body<T, S>) -> (stream: Self)
        ensures
            stream.body == Some(body),
            body.stream is Some ==> stream.wf(),
    {
        CancellableBytesStream { body: Some(body) }
    }

    /// A handle that cancels this response body stream, whose state is `state`.
    pub fn cancel_handle<'a>(&self, state: &'a mut CancellableRequestState) -> (handle:
        RequestCancelHandle<'a>)
        requires
            self.body is Some,
        ensures
            handle@ == *old(state),
            *final(state) == *final(handle.state),
    {
        RequestCancelHandle::new(state)
    }

    /// Ends the stream because its request is cancelled.
    fn end_cancelled<E>(
        &mut self,
        state: &mut CancellableRequestState,
        owner: &mut StopOwner,
    ) -> (delivered: Delivered<T, S, E>)
        requires
            old(self).wf(),
            old(self).body is Some,
            old(state).cancelled,
        ensures
            final(self).wf(),
            final(self).with_state(*final(state)) == cancel_body::<E>(*old(state)).model,
            final(owner)@ == old(owner)@ + cancel_body::<E>(*old(state)).stops,
            Delivery::Item(delivered.item) == cancel_body::<E>(*old(state)).delivery,
            delivered.retired == old(self).body,
    {
        let mut retired = self.body.take();
        if let Some(body) = &mut retired {
            if body.stream.is_some() {
                state.apply_cancel_to_owner(owner);
            }
            let emit = state.take_cancel_error_to_emit();
            body.cleanup_unfinished_response_body(state, owner);
            if emit {
                return Delivered { item: Some(Err(Error::Cancelled)), retired };
            }
        }
        Delivered { item: None, retired }
    }

    /// Ends the stream because its response has ended.
    fn end_terminal<E>(
        &mut self,
        state: &mut CancellableRequestState,
        owner: &mut StopOwner,
        item: Option<Result<Bytes, Error<E>>>,
    ) -> (delivered: Delivered<T, S, E>)
        ensures
            final(self).body is None,
            *final(state) == old(state).with_recv_terminal(),
            final(owner)@ == old(owner)@,
            delivered == (Delivered { item, retired: old(self).body }),
    {
        state.mark_recv_terminal();
        let mut retired = self.body.take();
        if let Some(body) = &mut retired {
            body.cleanup_unfinished_response_body(state, owner);
        }
        Delivered { item, retired }
    }

    /// Polls the stream: looks at cancellation, and says what to do. A cancelled stream gives its
    /// reader one error, where none was given before, and then ends.
    pub fn poll_next<E>(
        &mut self,
        state: &mut CancellableRequestState,
        owner: &mut StopOwner,
    ) -> (next: NextStep<T, S, E>)
        requires
            old(self).wf(),
        ensures
            final(self).wf(),
            ({
                let step = poll_body::<E>(old(self).with_state(*old(state)));
                &&& final(self).with_state(*final(state)) == step.model
                &&& final(owner)@ == old(owner)@ + step.stops
                &&& match step.delivery {
                    Delivery::Item(item) => next == NextStep::Ready(
                        Delivered { item, retired: old(self).body },
                    ),
                    _ => next == NextStep::<T, S, E>::Receive && *final(self) == *old(self),
                }
            }),
    {
        if self.body.is_none() {
            return NextStep::Ready(Delivered { item: None, retired: None });
        }
        if state.is_cancelled() {
            return NextStep::Ready(self.end_cancelled(state, owner));
        }
        NextStep::Receive
    }

    /// Takes what was received on the request stream, and gives the reader an item.
    pub fn on_received<E>(
        &mut self,
        state: &mut CancellableRequestState,
        owner: &mut StopOwner,
        received: Received<E>,
    ) -> (delivered: Delivered<T, S, E>)
        requires
            old(self).wf(),
            old(self).body is Some,
        ensures
            final(self).wf(),
            ({
                let step = receive_body(*old(state), received);
                &&& final(self).with_state(*final(state)) == step.model
                &&& final(owner)@ == old(owner)@ + step.stops
                &&& Delivery::Item(delivered.item) == step.delivery
                &&& if step.model.open {
                    *final(self) == *old(self) && delivered.retired is None
                } else {
                    delivered.retired == old(self).body
                }
            }),
    {
        if state.is_cancelled() {
            return self.end_cancelled(state, owner);
        }
        match received {
            Received::Data(bytes) => Delivered { item: Some(Ok(bytes)), retired: None },
            Received::Failed { error, no_error } => if no_error {
                self.end_terminal(state, owner, None)
            } else {
                self.end_terminal(state, owner, Some(Err(Error::Transport(error))))
            },
            Received::End => self.end_terminal(state, owner, None),
        }
    }

    /// Gives the stream up, when its reader drops it: where it has not ended, the live directions
    /// of the request stream are ordered to be stopped. The body comes back, to be stopped and
    /// dropped.
    pub fn release(
        &mut self,
        state: &mut CancellableRequestState,
        owner: &mut StopOwner,
    ) -> (retired: Option<CancellableH3Body<T, S>>)
        requires
            old(self).wf(),
        ensures
            final(self).wf(),
            retired == old(self).body,
            ({
                let step = body_step::<()>(old(self).with_state(*old(state)), BodyEvent::Release);
                &&& final(self).with_state(*final(state)) == step.model
                &&& final(owner)@ == old(owner)@ + step.stops
            }),
    {
        let mut retired = self.body.take();
        if let Some(body) = &mut retired {
            body.cleanup_unfinished_response_body(state, owner);
        }
        retired
    }
}

} // verus!
