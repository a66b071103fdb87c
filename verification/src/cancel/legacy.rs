//! Reading a response body without noticing cancellation.

use crate::body::LegacyCompatibleH3ResponseBody;
use crate::cancel::bytes_stream::Received;
#[allow(unused_imports)]
use crate::cancel::bytes_stream::{BodyEvent, BodyModel, BodyStep, Delivery};
use crate::cancel::h3_body::CancellableH3Body;
#[allow(unused_imports)]
use crate::cancel::h3_body::{release_stops, released_state};
use crate::cancel::state::{CancellableRequestState, StopOwner};
use crate::error::Error;
use bytes::Bytes;
use vstd::prelude::*;

verus! {

/// What [`LegacyCompatibleH3ResponseBody::on_frame`] gives for `received`.
pub open spec fn frame_of<E>(received: Received<E>) -> Option<Result<Bytes, Error<E>>> {
    match received {
        Received::Data(bytes) => Some(Ok(bytes)),
        Received::Failed { error, no_error } => if no_error {
            None
        } else {
            Some(Err(Error::Transport(error)))
        },
        Received::End => None,
    }
}

/// What receiving `received` does to a body that is open: data is given on, and anything else ends
/// the body. Cancellation is not looked at.
pub open spec fn receive_legacy<E>(
    state: CancellableRequestState,
    received: Received<E>,
) -> BodyStep<E> {
    BodyStep {
        model: if received is Data {
            BodyModel { open: true, state }
        } else {
            BodyModel { open: false, state: state.with_recv_terminal() }
        },
        delivery: Delivery::Item(frame_of(received)),
        stops: seq![],
    }
}

/// What giving the body up does: the live directions of its request stream are ordered to be
/// stopped, where it still has one.
pub open spec fn release_legacy<E>(model: BodyModel) -> BodyStep<E> {
    BodyStep {
        model: BodyModel { state: released_state(model.state, model.open), ..model },
        delivery: Delivery::Nothing,
        stops: release_stops(model.state, model.open),
    }
}

/// What `event` does to a body that is read without noticing cancellation.
pub open spec fn legacy_step<E>(model: BodyModel, event: BodyEvent<E>) -> BodyStep<E> {
    match event {
        BodyEvent::Poll => BodyStep {
            model,
            delivery: if model.open {
                Delivery::Receive
            } else {
                Delivery::Item(None)
            },
            stops: seq![],
        },
        BodyEvent::Receive(received) => if model.open {
            receive_legacy(model.state, received)
        } else {
            BodyStep { model, delivery: Delivery::Nothing, stops: seq![] }
        },
        BodyEvent::Cancel => BodyStep {
            model: BodyModel { state: model.state.with_cancelled(), ..model },
            delivery: Delivery::Nothing,
            stops: seq![],
        },
        BodyEvent::Release => release_legacy(model),
    }
}

impl<T, S> LegacyCompatibleH3ResponseBody<CancellableH3Body<T, S>> {
    /// There is a request stream to read the body from.
    pub open spec fn has_stream(self) -> bool {
        self.body matches Some(body) && body.stream is Some
    }

    /// The body together with the state it shares.
    pub open spec fn with_state(self, state: CancellableRequestState) -> BodyModel {
        BodyModel { open: self.has_stream(), state }
    }

    /// The body without its request stream.
    pub open spec fn without_stream(self) -> Self {
        LegacyCompatibleH3ResponseBody {
            body: match self.body {
                Some(body) => Some(CancellableH3Body { stream: None, ..body }),
                None => None,
            },
        }
    }

    /// Polls the body: true where the next frame is to be received on the request stream, false
    /// where the body has ended.
    pub fn poll_frame(&self) -> (receive: bool)
        ensures
            receive == self.has_stream(),
    {
        match &self.body {
            Some(body) => body.stream.is_some(),
            None => false,
        }
    }

    /// Takes what was received on the request stream, and gives the reader the next frame, `None`
    /// being the end of the body. Where the response has ended the request stream is let go.
    pub fn on_frame<E>(
        &mut self,
        state: &mut CancellableRequestState,
        received: Received<E>,
    ) -> (frame: Option<Result<Bytes, Error<E>>>)
        requires
            old(self).has_stream(),
        ensures
            ({
                let step = receive_legacy(*old(state), received);
                &&& final(self).with_state(*final(state)) == step.model
                &&& Delivery::Item(frame) == step.delivery
                &&& *final(self) == if step.model.open {
                    *old(self)
                } else {
                    old(self).without_stream()
                }
            }),
    {
        match received {
            Received::Data(bytes) => Some(Ok(bytes)),
            Received::Failed { error, no_error } => {
                self.end(state);
                if no_error {
                    None
                } else {
                    Some(Err(Error::Transport(error)))
                }
            },
            Received::End => {
                self.end(state);
                None
            },
        }
    }

    /// Records that the response has ended, and lets its request stream go.
    fn end(&mut self, state: &mut CancellableRequestState)
        ensures
            *final(self) == old(self).without_stream(),
            *final(state) == old(state).with_recv_terminal(),
    {
        state.mark_recv_terminal();
        if let Some(body) = &mut self.body {
            body.stream = None;
        }
    }

    /// Gives the body up, when its reader drops it: where it was not read to its end, the live
    /// directions of the request stream are ordered to be stopped.
    pub fn release(&mut self, state: &mut CancellableRequestState, owner: &mut StopOwner)
        ensures
            *final(self) == *old(self),
            ({
                let step = release_legacy::<()>(old(self).with_state(*old(state)));
                &&& final(self).with_state(*final(state)) == step.model
                &&& final(owner)@ == old(owner)@ + step.stops
            }),
    {
        if let Some(body) = &mut self.body {
            body.cleanup_unfinished_response_body(state, owner);
        }
    }
}

} // verus!
