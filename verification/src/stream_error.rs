//! How the failures of an iroh connection and its streams are reported to HTTP/3.

use iroh::endpoint::{ConnectionClose, TransportError};
use vstd::prelude::*;

verus! {

/// `iroh::endpoint::TransportError`, carried through unread.
#[verifier::external_type_specification]
#[verifier::external_body]
pub struct ExTransportError(TransportError);

/// `iroh::endpoint::ConnectionClose`, carried through unread.
#[verifier::external_type_specification]
#[verifier::external_body]
pub struct ExConnectionClose(ConnectionClose);

/// Why a connection was lost.
#[derive(Debug)]
pub enum ConnectionError {
    /// The peer supports no common version.
    VersionMismatch,
    /// The peer violated the QUIC protocol.
    TransportError(TransportError),
    /// The peer's QUIC stack aborted the connection.
    ConnectionClosed(ConnectionClose),
    /// The peer's application closed the connection.
    ApplicationClosed {
        /// The code the peer closed it with.
        error_code: u64,
    },
    /// The peer reset the connection.
    Reset,
    /// The connection was idle for too long.
    TimedOut,
    /// This side closed the connection.
    LocallyClosed,
    /// No connection identifier was left.
    CidsExhausted,
}

/// Why a read failed.
#[derive(Debug)]
pub enum ReadError {
    /// The peer reset the stream with this code.
    Reset(u64),
    /// The connection was lost.
    ConnectionLost(ConnectionError),
    /// The stream was stopped, finished or reset before.
    ClosedStream,
    /// The server rejected the early data.
    ZeroRttRejected,
}

/// Why a write failed.
#[derive(Debug)]
pub enum WriteError {
    /// The peer stopped the stream with this code.
    Stopped(u64),
    /// The connection was lost.
    ConnectionLost(ConnectionError),
    /// The stream was finished or reset before.
    ClosedStream,
    /// The server rejected the early data.
    ZeroRttRejected,
}

/// The stream was finished or reset before.
#[derive(Debug)]
pub struct ClosedStream;

/// A connection failure as HTTP/3 sees it.
#[derive(Debug)]
pub enum ConnectionErrorIncoming {
    /// The peer's application closed the connection.
    ApplicationClose {
        /// The code the peer closed it with.
        error_code: u64,
    },
    /// The connection timed out.
    Timeout,
    /// The streams were used against their contract.
    InternalError(String),
    /// A failure that HTTP/3 gives no meaning to.
    Undefined(ConnectionError),
}

/// A stream failure that HTTP/3 gives no meaning to.
#[derive(Debug)]
pub enum UnknownStreamError {
    /// It came from a read.
    Read(ReadError),
    /// It came from a write.
    Write(WriteError),
    /// It came from finishing a closed stream.
    Finish(ClosedStream),
}

/// A stream failure as HTTP/3 sees it.
#[derive(Debug)]
pub enum StreamErrorIncoming {
    /// The whole connection failed.
    ConnectionErrorIncoming {
        /// How it failed.
        connection_error: ConnectionErrorIncoming,
    },
    /// The peer ended this stream.
    StreamTerminated {
        /// The code the peer ended it with.
        error_code: u64,
    },
    /// A failure that HTTP/3 gives no meaning to.
    Unknown(UnknownStreamError),
}

/// What [`convert_connection_error`] makes of `error`: an application close keeps its code, a
/// timeout is a timeout, and anything else is handed on whole as undefined.
pub open spec fn incoming_connection_error(error: ConnectionError) -> ConnectionErrorIncoming {
    match error {
        ConnectionError::ApplicationClosed { error_code } => {
            ConnectionErrorIncoming::ApplicationClose { error_code }
        },
        ConnectionError::TimedOut => ConnectionErrorIncoming::Timeout,
        _ => ConnectionErrorIncoming::Undefined(error),
    }
}

/// The stream failure that a connection failure is.
pub open spec fn incoming_lost_connection(error: ConnectionError) -> StreamErrorIncoming {
    StreamErrorIncoming::ConnectionErrorIncoming {
        connection_error: incoming_connection_error(error),
    }
}

/// What [`convert_read_error_to_stream_error`] makes of `error`.
pub open spec fn incoming_read_error(error: ReadError) -> StreamErrorIncoming {
    match error {
        ReadError::Reset(error_code) => StreamErrorIncoming::StreamTerminated { error_code },
        ReadError::ConnectionLost(connection_error) => incoming_lost_connection(connection_error),
        _ => StreamErrorIncoming::Unknown(UnknownStreamError::Read(error)),
    }
}

/// What [`convert_write_error_to_stream_error`] makes of `error`.
pub open spec fn incoming_write_error(error: WriteError) -> StreamErrorIncoming {
    match error {
        WriteError::Stopped(error_code) => StreamErrorIncoming::StreamTerminated { error_code },
        WriteError::ConnectionLost(connection_error) => incoming_lost_connection(connection_error),
        _ => StreamErrorIncoming::Unknown(UnknownStreamError::Write(error)),
    }
}

/// Reports a lost connection to HTTP/3.
pub fn convert_connection_error(error: ConnectionError) -> (incoming: ConnectionErrorIncoming)
    ensures
        incoming == incoming_connection_error(error),
{
    match error {
        ConnectionError::ApplicationClosed { error_code } => {
            ConnectionErrorIncoming::ApplicationClose { error_code }
        },
        ConnectionError::TimedOut => ConnectionErrorIncoming::Timeout,
        error => ConnectionErrorIncoming::Undefined(error),
    }
}

/// Reports to HTTP/3 that a stream could not be opened or used because its connection is lost.
pub fn convert_lost_connection(error: ConnectionError) -> (incoming: StreamErrorIncoming)
    ensures
        incoming == incoming_lost_connection(error),
{
    StreamErrorIncoming::ConnectionErrorIncoming {
        connection_error: convert_connection_error(error),
    }
}

/// Reports a failed read to HTTP/3.
pub fn convert_read_error_to_stream_error(error: ReadError) -> (incoming: StreamErrorIncoming)
    ensures
        incoming == incoming_read_error(error),
{
    match error {
        ReadError::Reset(error_code) => StreamErrorIncoming::StreamTerminated { error_code },
        ReadError::ConnectionLost(connection_error) => convert_lost_connection(connection_error),
        error => StreamErrorIncoming::Unknown(UnknownStreamError::Read(error)),
    }
}

/// Reports a failed write to HTTP/3.
pub fn convert_write_error_to_stream_error(error: WriteError) -> (incoming: StreamErrorIncoming)
    ensures
        incoming == incoming_write_error(error),
{
    match error {
        WriteError::Stopped(error_code) => StreamErrorIncoming::StreamTerminated { error_code },
        WriteError::ConnectionLost(connection_error) => convert_lost_connection(connection_error),
        error => StreamErrorIncoming::Unknown(UnknownStreamError::Write(error)),
    }
}

/// An application close is reported with the very code that the peer closed with, a timeout as a
/// timeout, and any other failure whole; nothing else is reported as one of these.
pub proof fn law_connection_failures_are_reported(
    error: ConnectionError,
    incoming: ConnectionErrorIncoming,
)
    requires
        call_ensures(convert_connection_error, (error,), incoming),
    ensures
        error matches ConnectionError::ApplicationClosed { error_code: closed_with }
            ==> incoming matches ConnectionErrorIncoming::ApplicationClose { error_code: reported }
            && reported == closed_with,
        incoming is ApplicationClose <==> error is ApplicationClosed,
        incoming is Timeout <==> error is TimedOut,
        incoming is Undefined <==> !(error is ApplicationClosed) && !(error is TimedOut),
        incoming matches ConnectionErrorIncoming::Undefined(kept) ==> kept == error,
{
}

/// Two failures of a connection that are reported alike are the same.
pub proof fn law_connection_failures_are_told_apart(
    first: ConnectionError,
    second: ConnectionError,
    first_incoming: ConnectionErrorIncoming,
    second_incoming: ConnectionErrorIncoming,
)
    requires
        call_ensures(convert_connection_error, (first,), first_incoming),
        call_ensures(convert_connection_error, (second,), second_incoming),
    ensures
        first_incoming == second_incoming <==> first == second,
{
}

/// A stream that its lost connection fails is told what the connection is told.
pub proof fn law_streams_learn_of_a_lost_connection(
    error: ConnectionError,
    told: ConnectionErrorIncoming,
    incoming: StreamErrorIncoming,
)
    requires
        call_ensures(convert_connection_error, (error,), told),
        call_ensures(convert_lost_connection, (error,), incoming),
    ensures
        incoming == (StreamErrorIncoming::ConnectionErrorIncoming { connection_error: told }),
{
}

/// A reset is reported with the very code that the peer reset the stream with, a lost connection as
/// such, and any other failure of a read whole; nothing else is reported as one of these.
pub proof fn law_failed_reads_are_reported(
    error: ReadError,
    incoming: StreamErrorIncoming,
    lost: ConnectionError,
    told: StreamErrorIncoming,
)
    requires
        call_ensures(convert_read_error_to_stream_error, (error,), incoming),
        call_ensures(convert_lost_connection, (lost,), told),
    ensures
        error matches ReadError::Reset(reset_with)
            ==> incoming matches StreamErrorIncoming::StreamTerminated { error_code: reported }
            && reported == reset_with,
        error == ReadError::ConnectionLost(lost) ==> incoming == told,
        incoming is StreamTerminated <==> error is Reset,
        incoming is ConnectionErrorIncoming <==> error is ConnectionLost,
        incoming matches StreamErrorIncoming::Unknown(kept) ==> kept == UnknownStreamError::Read(
            error,
        ),
{
}

/// Two failures of a read that are reported alike are the same.
pub proof fn law_failed_reads_are_told_apart(
    first: ReadError,
    second: ReadError,
    first_incoming: StreamErrorIncoming,
    second_incoming: StreamErrorIncoming,
)
    requires
        call_ensures(convert_read_error_to_stream_error, (first,), first_incoming),
        call_ensures(convert_read_error_to_stream_error, (second,), second_incoming),
    ensures
        first_incoming == second_incoming <==> first == second,
{
}

/// A stop is reported with the very code that the peer stopped the stream with, a lost connection
/// as such, and any other failure of a write whole; nothing else is reported as one of these.
pub proof fn law_failed_writes_are_reported(
    error: WriteError,
    incoming: StreamErrorIncoming,
    lost: ConnectionError,
    told: StreamErrorIncoming,
)
    requires
        call_ensures(convert_write_error_to_stream_error, (error,), incoming),
        call_ensures(convert_lost_connection, (lost,), told),
    ensures
        error matches WriteError::Stopped(stopped_with)
            ==> incoming matches StreamErrorIncoming::StreamTerminated { error_code: reported }
            && reported == stopped_with,
        error == WriteError::ConnectionLost(lost) ==> incoming == told,
        incoming is StreamTerminated <==> error is Stopped,
        incoming is ConnectionErrorIncoming <==> error is ConnectionLost,
        incoming matches StreamErrorIncoming::Unknown(kept) ==> kept == UnknownStreamError::Write(
            error,
        ),
{
}

/// Two failures of a write that are reported alike are the same.
pub proof fn law_failed_writes_are_told_apart(
    first: WriteError,
    second: WriteError,
    first_incoming: StreamErrorIncoming,
    second_incoming: StreamErrorIncoming,
)
    requires
        call_ensures(convert_write_error_to_stream_error, (first,), first_incoming),
        call_ensures(convert_write_error_to_stream_error, (second,), second_incoming),
    ensures
        first_incoming == second_incoming <==> first == second,
{
}

} // verus!
