//! What a client request can fail with.

use vstd::prelude::*;

verus! {

/// A failure that a middleware reports.
#[derive(Clone, Copy, Debug, PartialEq, Eq, Structural)]
pub enum MiddlewareError {
    /// The request took longer than it was allowed to.
    Timeout,
}

/// A failure of a client request, `E` being a failure of the HTTP/3 transport.
#[derive(Debug)]
pub enum Error<E> {
    /// The request was cancelled.
    Cancelled,
    /// The response body is not one that can be cancelled.
    BodyNotCancellable,
    /// The request body is not one that a cancellable request can send.
    RequestBodyNotCancellable,
    /// A middleware failed the request.
    Middleware(MiddlewareError),
    /// The transport failed.
    Transport(E),
}

/// What [`transport`] makes of `result`.
pub open spec fn transport_result<T, E>(result: Result<T, E>) -> Result<T, Error<E>> {
    match result {
        Ok(value) => Ok(value),
        Err(error) => Err(Error::Transport(error)),
    }
}

/// Reports a failure of the transport as a failure of the request.
pub fn transport<T, E>(result: Result<T, E>) -> (reported: Result<T, Error<E>>)
    ensures
        reported == transport_result(result),
{
    match result {
        Ok(value) => Ok(value),
        Err(error) => Err(Error::Transport(error)),
    }
}

/// A failure of the transport is reported with that very failure, and a success is kept.
pub proof fn law_transport_failures_are_kept<T, E>(
    result: Result<T, E>,
    reported: Result<T, Error<E>>,
)
    requires
        call_ensures(transport::<T, E>, (result,), reported),
    ensures
        result matches Ok(value) ==> reported == Ok::<T, Error<E>>(value),
        result matches Err(error) ==> reported == Err::<T, Error<E>>(Error::Transport(error)),
{
}

} // verus!
