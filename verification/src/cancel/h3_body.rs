//! The owners of a request stream: one while an operation runs on it, one while its response body
//! is read.

use crate::cancel::state::{CancellableRequestState, RequestCancelHandle, RequestPhase, StopOwner};
#[allow(unused_imports)]
use crate::cancel::state::StopRequest;
use vstd::prelude::*;

verus! {

/// The orders that an owner gives when it gives its stream up, `held` telling whether it holds
/// one.
pub open spec fn release_stops(state: CancellableRequestState, held: bool) -> Seq<StopRequest> {
    if held {
        state.live_stops()
    } else {
        seq![]
    }
}

/// The state that an owner leaves when it gives its stream up, `held` telling whether it holds
/// one.
pub open spec fn released_state(
    state: CancellableRequestState,
    held: bool,
) -> CancellableRequestState {
    if held {
        state.with_live_stopped()
    } else {
        state
    }
}

/// Holds a request stream while an operation runs on it.
pub struct OwnedStreamGuard<T> {
    /// The stream, until the operation hands it on.
    pub stream: Option<T>,
}

impl<T> OwnedStreamGuard<T> {
    /// A guard that holds `stream`.
    pub fn new(stream: T) -> (guard: Self)
        ensures
            guard.stream == Some(stream),
    {
        OwnedStreamGuard { stream: Some(stream) }
    }

    /// The stream, to run the operation on.
    pub fn stream_mut(&mut self) -> (stream: &mut T)
        requires
            old(self).stream is Some,
        ensures
            Some(*stream) == old(self).stream,
            final(self).stream == Some(*final(stream)),
    {
        self.stream.as_mut().unwrap()
    }

    /// Takes the stream out, once the operation is over.
    pub fn take_stream(&mut self) -> (stream: T)
        requires
            old(self).stream is Some,
        ensures
            Some(stream) == old(self).stream,
            final(self).stream is None,
    {
        self.stream.take().unwrap()
    }

    /// Gives the stream up, where it was not handed on: its live directions are ordered to be
    /// stopped.
    pub fn release(&mut self, state: &mut CancellableRequestState, owner: &mut StopOwner)
        ensures
            *final(self) == *old(self),
            final(owner)@ == old(owner)@ + release_stops(*old(state), old(self).stream is Some),
            *final(state) == released_state(*old(state), old(self).stream is Some),
    {
        if self.stream.is_some() {
            if state.is_cancelled() {
                state.apply_cancel_to_owner(owner);
            } else {
                state.apply_drop_cleanup_to_owner(owner);
            }
        }
    }
}

/// A response body whose request can be cancelled. `T` is the request stream and `S` the sender
/// that keeps its connection open.
#[derive(Debug)]
pub struct CancellableH3Body<T, S> {
    /// The stream, until the body was read to its end.
    pub stream: Option<T>,
    /// The sender that the request went out on.
    pub sender: S,
}

impl<T, S> CancellableH3Body<T, S> {
    /// The body that follows the response headers on `stream`. The request was sent whole by then.
    pub fn new(stream: T, sender: S, state: &mut CancellableRequestState) -> (body: Self)
        ensures
            body == (CancellableH3Body { stream: Some(stream), sender }),
            *final(state) == old(state).in_phase(
                RequestPhase::ReadingResponseBody,
            ).with_send_finished(),
    {
        state.mark_phase(RequestPhase::ReadingResponseBody);
        state.mark_send_finished();
        CancellableH3Body { stream: Some(stream), sender }
    }

    /// A handle that cancels the request of this body, whose state is `state`.
    pub fn cancel_handle<'a>(&self, state: &'a mut CancellableRequestState) -> (handle:
        RequestCancelHandle<'a>)
        ensures
            handle@ == *old(state),
            *final(state) == *final(handle.state),
    {
        RequestCancelHandle::new(state)
    }

    /// Gives the body up: where it was not read to its end, the live directions of its stream are
    /// ordered to be stopped.
    pub fn cleanup_unfinished_response_body(
        &mut self,
        state: &mut CancellableRequestState,
        owner: &mut StopOwner,
    )
        ensures
            *final(self) == *old(self),
            final(owner)@ == old(owner)@ + release_stops(*old(state), old(self).stream is Some),
            *final(state) == released_state(*old(state), old(self).stream is Some),
    {
        if self.stream.is_some() {
            state.apply_drop_cleanup_to_owner(owner);
        }
    }
}

} // verus!
