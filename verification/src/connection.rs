//! A QUIC connection: accepting the streams that the peer opens, and opening streams.

use crate::bidi_stream::BidiStream;
use crate::codes::{error_code, VAR_INT_BOUND};
use crate::recv_stream::RecvStream;
#[allow(unused_imports)]
use crate::recv_stream::RecvStreamState;
#[allow(unused_imports)]
use crate::send_stream::ReadyStep;
use crate::send_stream::SendStream;
use crate::stream_error::{
    convert_connection_error, convert_lost_connection, ConnectionError, ConnectionErrorIncoming,
    StreamErrorIncoming,
};
#[allow(unused_imports)]
use crate::stream_error::{incoming_connection_error, incoming_lost_connection};
#[allow(unused_imports)]
use vstd::pervasive::cloned;
use vstd::prelude::*;

verus! {

/// The receiving half of a QUIC stream, with its number.
pub struct NumberedRecv<S> {
    /// The QUIC stream.
    pub stream: S,
    /// Its number.
    pub number: u64,
}

/// The halves of a QUIC stream that was accepted or opened are those of `bidi`: nothing is queued
/// on the one, nothing was read from the other.
pub open spec fn is_fresh_bidi<T, S, F>(
    bidi: BidiStream<T, S, F>,
    send: T,
    recv: NumberedRecv<S>,
) -> bool {
    bidi == (BidiStream {
        send: SendStream { stream: send, writing: None },
        recv: RecvStream {
            recv_id: recv.number,
            state: RecvStreamState::<S, F>::Idle(recv.stream),
        },
    })
}

/// The stream made of two fresh halves.
fn fresh_bidi<T, S, F>(send: T, recv: NumberedRecv<S>) -> (bidi: BidiStream<T, S, F>)
    requires
        recv.number < VAR_INT_BOUND,
    ensures
        is_fresh_bidi(bidi, send, recv),
{
    BidiStream { send: SendStream::new(send), recv: RecvStream::new(recv.stream, recv.number) }
}

/// The stream that an attempt to open a bidirectional stream gave, or that the connection is lost.
pub fn opened_bidi<T, S, F>(
    result: Result<(T, NumberedRecv<S>), ConnectionError>,
) -> (opened: Result<BidiStream<T, S, F>, StreamErrorIncoming>)
    requires
        result matches Ok(halves) ==> halves.1.number < VAR_INT_BOUND,
    ensures
        match result {
            Ok((send, recv)) => opened matches Ok(bidi) && is_fresh_bidi(bidi, send, recv),
            Err(error) => opened == Err::<BidiStream<T, S, F>, StreamErrorIncoming>(
                incoming_lost_connection(error),
            ),
        },
{
    match result {
        Ok((send, recv)) => Ok(fresh_bidi(send, recv)),
        Err(error) => Err(convert_lost_connection(error)),
    }
}

/// The stream that an attempt to open a sending stream gave, or that the connection is lost.
pub fn opened_send<T>(result: Result<T, ConnectionError>) -> (opened: Result<
    SendStream<T>,
    StreamErrorIncoming,
>)
    ensures
        opened == match result {
            Ok(stream) => Ok::<SendStream<T>, StreamErrorIncoming>(
                SendStream { stream, writing: None },
            ),
            Err(error) => Err(incoming_lost_connection(error)),
        },
{
    match result {
        Ok(stream) => Ok(SendStream::new(stream)),
        Err(error) => Err(convert_lost_connection(error)),
    }
}

/// The attempt in `opening`, made on a clone of `conn` with `start` where there is none.
fn attempt<'a, C: Clone, O, G: FnOnce(C) -> O>(
    conn: &C,
    opening: &'a mut Option<O>,
    start: G,
) -> (attempt: &'a mut O)
    requires
        forall|c: C| cloned(*conn, c) ==> #[trigger] call_requires(start, (c,)),
    ensures
        match *old(opening) {
            Some(before) => *attempt == before,
            None => exists|c: C| cloned(*conn, c) && #[trigger] call_ensures(start, (c,), *attempt),
        },
        *final(opening) == Some(*final(attempt)),
{
    if opening.is_none() {
        *opening = Some(start(conn.clone()));
    }
    opening.as_mut().unwrap()
}

/// A handle for opening outgoing QUIC streams. `C` is the QUIC connection, and `B` and `U` are
/// attempts to open a bidirectional and a sending stream.
pub struct OpenStreams<C, B, U> {
    /// The QUIC connection.
    pub conn: C,
    /// The attempt to open a bidirectional stream, once there was one.
    pub opening_bi: Option<B>,
    /// The attempt to open a sending stream, once there was one.
    pub opening_uni: Option<U>,
}

impl<C: Clone, B, U> OpenStreams<C, B, U> {
    /// Polls for opening a new bidirectional stream: gives the attempt to be polled, started with
    /// `start` where there was none.
    pub fn poll_open_bidi<G: FnOnce(C) -> B>(&mut self, start: G) -> (opening: &mut B)
        requires
            forall|c: C| cloned(old(self).conn, c) ==> #[trigger] call_requires(start, (c,)),
        ensures
            match old(self).opening_bi {
                Some(before) => *opening == before,
                None => exists|c: C|
                    cloned(old(self).conn, c) && #[trigger] call_ensures(start, (c,), *opening),
            },
            *final(self) == (OpenStreams { opening_bi: Some(*final(opening)), ..*old(self) }),
    {
        attempt(&self.conn, &mut self.opening_bi, start)
    }

    /// Polls for opening a new unidirectional send stream: gives the attempt to be polled, started
    /// with `start` where there was none.
    pub fn poll_open_send<G: FnOnce(C) -> U>(&mut self, start: G) -> (opening: &mut U)
        requires
            forall|c: C| cloned(old(self).conn, c) ==> #[trigger] call_requires(start, (c,)),
        ensures
            match old(self).opening_uni {
                Some(before) => *opening == before,
                None => exists|c: C|
                    cloned(old(self).conn, c) && #[trigger] call_ensures(start, (c,), *opening),
            },
            *final(self) == (OpenStreams { opening_uni: Some(*final(opening)), ..*old(self) }),
    {
        attempt(&self.conn, &mut self.opening_uni, start)
    }

    /// The code to close the underlying connection with.
    pub fn close(&self, code: u64) -> (wire: u64)
        requires
            code < VAR_INT_BOUND,
        ensures
            wire == code,
    {
        error_code(code)
    }
}

impl<C: Clone, B, U> Clone for OpenStreams<C, B, U> {
    /// A handle on the same connection, without attempts of its own.
    fn clone(&self) -> (handle: Self)
        ensures
            cloned(self.conn, handle.conn),
            handle.opening_bi is None,
            handle.opening_uni is None,
    {
        OpenStreams { conn: self.conn.clone(), opening_bi: None, opening_uni: None }
    }
}

/// A QUIC connection for use in HTTP/3.
///
/// Manages incoming and outgoing unidirectional and bidirectional streams. `C` is the QUIC
/// connection, `A` and `I` yield the bidirectional and the unidirectional streams that the peer
/// opens, and `B` and `U` are attempts to open a bidirectional and a sending stream.
pub struct Connection<C, A, I, B, U> {
    /// The QUIC connection.
    pub conn: C,
    /// Yields the bidirectional streams that the peer opens.
    pub incoming_bi: A,
    /// The attempt to open a bidirectional stream, once there was one.
    pub opening_bi: Option<B>,
    /// Yields the unidirectional streams that the peer opens.
    pub incoming_uni: I,
    /// The attempt to open a sending stream, once there was one.
    pub opening_uni: Option<U>,
}

impl<C: Clone, A, I, B, U> Connection<C, A, I, B, U> {
    /// Creates a new [`Connection`] from an existing QUIC connection.
    ///
    /// This sets up, with `accept_bi` and `accept_uni`, the acceptance of incoming bidirectional
    /// and unidirectional QUIC streams.
    pub fn new<P: FnOnce(C) -> A, Q: FnOnce(C) -> I>(
        conn: C,
        accept_bi: P,
        accept_uni: Q,
    ) -> (connection: Self)
        requires
            forall|c: C| cloned(conn, c) ==> #[trigger] call_requires(accept_bi, (c,)),
            forall|c: C| cloned(conn, c) ==> #[trigger] call_requires(accept_uni, (c,)),
        ensures
            connection.conn == conn,
            exists|c: C|
                cloned(conn, c) && #[trigger] call_ensures(
                    accept_bi,
                    (c,),
                    connection.incoming_bi,
                ),
            exists|c: C|
                cloned(conn, c) && #[trigger] call_ensures(
                    accept_uni,
                    (c,),
                    connection.incoming_uni,
                ),
            connection.opening_bi is None,
            connection.opening_uni is None,
    {
        let bi_conn = conn.clone();
        let uni_conn = conn.clone();
        let ghost (bi, uni) = (bi_conn, uni_conn);
        let incoming_bi = accept_bi(bi_conn);
        let incoming_uni = accept_uni(uni_conn);
        let connection = Connection {
            conn,
            incoming_bi,
            opening_bi: None,
            incoming_uni,
            opening_uni: None,
        };
        assert(cloned(conn, bi) && call_ensures(accept_bi, (bi,), connection.incoming_bi));
        assert(cloned(conn, uni) && call_ensures(accept_uni, (uni,), connection.incoming_uni));
        connection
    }

    /// The bidirectional stream that the peer opened, or that the connection is lost.
    pub fn on_accepted_bidi<T, S, F>(
        &self,
        result: Result<(T, NumberedRecv<S>), ConnectionError>,
    ) -> (accepted: Result<BidiStream<T, S, F>, ConnectionErrorIncoming>)
        requires
            result matches Ok(halves) ==> halves.1.number < VAR_INT_BOUND,
        ensures
            match result {
                Ok((send, recv)) => accepted matches Ok(bidi) && is_fresh_bidi(bidi, send, recv),
                Err(error) => accepted == Err::<BidiStream<T, S, F>, ConnectionErrorIncoming>(
                    incoming_connection_error(error),
                ),
            },
    {
        match result {
            Ok((send, recv)) => Ok(fresh_bidi(send, recv)),
            Err(error) => Err(convert_connection_error(error)),
        }
    }

    /// The unidirectional stream that the peer opened, or that the connection is lost.
    pub fn on_accepted_recv<S, F>(
        &self,
        result: Result<NumberedRecv<S>, ConnectionError>,
    ) -> (accepted: Result<RecvStream<S, F>, ConnectionErrorIncoming>)
        requires
            result matches Ok(recv) ==> recv.number < VAR_INT_BOUND,
        ensures
            accepted == match result {
                Ok(recv) => Ok::<RecvStream<S, F>, ConnectionErrorIncoming>(
                    RecvStream {
                        recv_id: recv.number,
                        state: RecvStreamState::Idle(recv.stream),
                    },
                ),
                Err(error) => Err(incoming_connection_error(error)),
            },
    {
        match result {
            Ok(recv) => Ok(RecvStream::new(recv.stream, recv.number)),
            Err(error) => Err(convert_connection_error(error)),
        }
    }

    /// Returns a new [`OpenStreams`] handle for opening outgoing streams.
    pub fn opener(&self) -> (handle: OpenStreams<C, B, U>)
        ensures
            cloned(self.conn, handle.conn),
            handle.opening_bi is None,
            handle.opening_uni is None,
    {
        OpenStreams { conn: self.conn.clone(), opening_bi: None, opening_uni: None }
    }

    /// Attempts to open a new bidirectional stream for sending and receiving: gives the attempt to
    /// be polled, started with `start` where there was none.
    pub fn poll_open_bidi<G: FnOnce(C) -> B>(&mut self, start: G) -> (opening: &mut B)
        requires
            forall|c: C| cloned(old(self).conn, c) ==> #[trigger] call_requires(start, (c,)),
        ensures
            match old(self).opening_bi {
                Some(before) => *opening == before,
                None => exists|c: C|
                    cloned(old(self).conn, c) && #[trigger] call_ensures(start, (c,), *opening),
            },
            *final(self) == (Connection { opening_bi: Some(*final(opening)), ..*old(self) }),
    {
        attempt(&self.conn, &mut self.opening_bi, start)
    }

    /// Attempts to open a new unidirectional send stream: gives the attempt to be polled, started
    /// with `start` where there was none.
    pub fn poll_open_send<G: FnOnce(C) -> U>(&mut self, start: G) -> (opening: &mut U)
        requires
            forall|c: C| cloned(old(self).conn, c) ==> #[trigger] call_requires(start, (c,)),
        ensures
            match old(self).opening_uni {
                Some(before) => *opening == before,
                None => exists|c: C|
                    cloned(old(self).conn, c) && #[trigger] call_ensures(start, (c,), *opening),
            },
            *final(self) == (Connection { opening_uni: Some(*final(opening)), ..*old(self) }),
    {
        attempt(&self.conn, &mut self.opening_uni, start)
    }

    /// The code to close the QUIC connection with.
    pub fn close(&self, code: u64) -> (wire: u64)
        requires
            code < VAR_INT_BOUND,
        ensures
            wire == code,
    {
        error_code(code)
    }
}

/// Every bidirectional stream that is opened can be used from the start, whatever its number: its
/// receiving half holds the given QUIC stream and its sending half has nothing queued. An attempt
/// fails exactly where the connection is lost.
pub proof fn law_opened_stream_is_fresh<T, S, F>(
    result: Result<(T, NumberedRecv<S>), ConnectionError>,
    opened: Result<BidiStream<T, S, F>, StreamErrorIncoming>,
    error: ConnectionError,
    told: StreamErrorIncoming,
)
    requires
        call_ensures(opened_bidi::<T, S, F>, (result,), opened),
        call_ensures(convert_lost_connection, (error,), told),
    ensures
        opened is Ok <==> result is Ok,
        result matches Ok((send, recv)) ==> {
            &&& recv.number < 0x4000_0000_0000_0000 ==> call_requires(
                opened_bidi::<T, S, F>,
                (result,),
            )
            &&& opened matches Ok(bidi) && bidi.send.stream == send && bidi.send.writing is None
                && bidi.recv.recv_id == recv.number && bidi.recv.state == RecvStreamState::<
                S,
                F,
            >::Idle(recv.stream)
        },
        result == Err::<(T, NumberedRecv<S>), ConnectionError>(error) ==> opened == Err::<
            BidiStream<T, S, F>,
            StreamErrorIncoming,
        >(told),
{
}

/// The first poll of a bidirectional stream that was opened starts a read of the given QUIC stream,
/// whatever its number, and its sending half is ready.
pub proof fn law_opened_stream_can_be_read<T, S, F, G: FnOnce(S) -> F>(
    send: T,
    recv: NumberedRecv<S>,
    opened: Result<BidiStream<T, S, F>, StreamErrorIncoming>,
    bidi: &mut BidiStream<T, S, F>,
    start: G,
    read: Option<&mut F>,
    other: &mut BidiStream<T, S, F>,
    step: ReadyStep<'_, T>,
)
    requires
        call_ensures(opened_bidi::<T, S, F>, (Ok((send, recv)),), opened),
        opened == Ok::<BidiStream<T, S, F>, StreamErrorIncoming>(*old(bidi)),
        call_ensures(BidiStream::<T, S, F>::poll_data::<G>, (bidi, start), read),
        *old(other) == *old(bidi),
        call_ensures(BidiStream::<T, S, F>::poll_ready, (other,), step),
    ensures
        read matches Some(started) && call_ensures(start, (recv.stream,), *started),
        step is Ready,
{
}

/// Every bidirectional stream that is accepted can be used from the start, whatever its number, as
/// one that is opened. Accepting fails exactly where the connection is lost.
pub proof fn law_accepted_stream_is_fresh<C: Clone, A, I, B, U, T, S, F>(
    connection: Connection<C, A, I, B, U>,
    result: Result<(T, NumberedRecv<S>), ConnectionError>,
    accepted: Result<BidiStream<T, S, F>, ConnectionErrorIncoming>,
    error: ConnectionError,
    told: ConnectionErrorIncoming,
)
    requires
        call_ensures(
            Connection::<C, A, I, B, U>::on_accepted_bidi::<T, S, F>,
            (&connection, result),
            accepted,
        ),
        call_ensures(convert_connection_error, (error,), told),
    ensures
        accepted is Ok <==> result is Ok,
        result matches Ok((send, recv)) ==> {
            &&& recv.number < 0x4000_0000_0000_0000 ==> call_requires(
                Connection::<C, A, I, B, U>::on_accepted_bidi::<T, S, F>,
                (&connection, result),
            )
            &&& accepted matches Ok(bidi) && bidi.send.stream == send && bidi.send.writing is None
                && bidi.recv.recv_id == recv.number && bidi.recv.state == RecvStreamState::<
                S,
                F,
            >::Idle(recv.stream)
        },
        result == Err::<(T, NumberedRecv<S>), ConnectionError>(error) ==> accepted == Err::<
            BidiStream<T, S, F>,
            ConnectionErrorIncoming,
        >(told),
{
}

/// Every receiving stream that is accepted can be read from the start, whatever its number.
/// Accepting fails exactly where the connection is lost.
pub proof fn law_accepted_receiver_is_fresh<C: Clone, A, I, B, U, S, F>(
    connection: Connection<C, A, I, B, U>,
    result: Result<NumberedRecv<S>, ConnectionError>,
    accepted: Result<RecvStream<S, F>, ConnectionErrorIncoming>,
    error: ConnectionError,
    told: ConnectionErrorIncoming,
)
    requires
        call_ensures(
            Connection::<C, A, I, B, U>::on_accepted_recv::<S, F>,
            (&connection, result),
            accepted,
        ),
        call_ensures(convert_connection_error, (error,), told),
    ensures
        accepted is Ok <==> result is Ok,
        result matches Ok(recv) ==> {
            &&& recv.number < 0x4000_0000_0000_0000 ==> call_requires(
                Connection::<C, A, I, B, U>::on_accepted_recv::<S, F>,
                (&connection, result),
            )
            &&& accepted matches Ok(fresh) && fresh.recv_id == recv.number && fresh.state
                == RecvStreamState::<S, F>::Idle(recv.stream)
        },
        result == Err::<NumberedRecv<S>, ConnectionError>(error) ==> accepted == Err::<
            RecvStream<S, F>,
            ConnectionErrorIncoming,
        >(told),
{
}

/// Every sending stream that is opened holds the given QUIC stream and has nothing queued. An
/// attempt fails exactly where the connection is lost.
pub proof fn law_opened_sender_is_fresh<T>(
    result: Result<T, ConnectionError>,
    opened: Result<SendStream<T>, StreamErrorIncoming>,
    error: ConnectionError,
    told: StreamErrorIncoming,
)
    requires
        call_ensures(opened_send::<T>, (result,), opened),
        call_ensures(convert_lost_connection, (error,), told),
    ensures
        opened is Ok <==> result is Ok,
        result matches Ok(stream) ==> opened matches Ok(send) && send.stream == stream
            && send.writing is None,
        result == Err::<T, ConnectionError>(error) ==> opened == Err::<
            SendStream<T>,
            StreamErrorIncoming,
        >(told),
{
}

/// A new connection keeps the QUIC connection, accepts on clones of it, and has no attempt to open a
/// stream; and so has a handle that it gives, on a clone of the same QUIC connection.
pub proof fn law_new_connection_has_no_attempts<
    C: Clone,
    A,
    I,
    B,
    U,
    P: FnOnce(C) -> A,
    Q: FnOnce(C) -> I,
>(
    conn: C,
    accept_bi: P,
    accept_uni: Q,
    connection: Connection<C, A, I, B, U>,
    handle: OpenStreams<C, B, U>,
)
    requires
        call_ensures(
            Connection::<C, A, I, B, U>::new::<P, Q>,
            (conn, accept_bi, accept_uni),
            connection,
        ),
        call_ensures(Connection::<C, A, I, B, U>::opener, (&connection,), handle),
    ensures
        connection.conn == conn,
        connection.opening_bi is None && connection.opening_uni is None,
        exists|c: C|
            cloned(conn, c) && #[trigger] call_ensures(accept_bi, (c,), connection.incoming_bi),
        exists|c: C|
            cloned(conn, c) && #[trigger] call_ensures(accept_uni, (c,), connection.incoming_uni),
        cloned(conn, handle.conn),
        handle.opening_bi is None && handle.opening_uni is None,
{
}

/// A clone of a handle is on a clone of the same QUIC connection, and has no attempt of its own,
/// whatever the handle has.
pub proof fn law_cloned_handle_has_no_attempts<C: Clone, B, U>(
    handle: OpenStreams<C, B, U>,
    copy: OpenStreams<C, B, U>,
)
    requires
        call_ensures(OpenStreams::<C, B, U>::clone, (&handle,), copy),
    ensures
        cloned(handle.conn, copy.conn),
        copy.opening_bi is None && copy.opening_uni is None,
{
}

/// An attempt to open a bidirectional stream is started where there is none, on a clone of the QUIC
/// connection, and kept from then on; nothing else of the handle changes.
pub proof fn law_handle_keeps_its_attempt_to_open<C: Clone, B, U, G: FnOnce(C) -> B>(
    handle: &mut OpenStreams<C, B, U>,
    start: G,
    opening: &mut B,
)
    requires
        call_ensures(OpenStreams::<C, B, U>::poll_open_bidi::<G>, (handle, start), opening),
    ensures
        old(handle).opening_bi matches Some(before) ==> *old(opening) == before,
        old(handle).opening_bi is None ==> exists|c: C|
            cloned(old(handle).conn, c) && #[trigger] call_ensures(start, (c,), *old(opening)),
        final(handle).opening_bi == Some(*final(opening)),
        final(handle).opening_uni == old(handle).opening_uni,
        final(handle).conn == old(handle).conn,
{
}

/// An attempt to open a sending stream is started where there is none, on a clone of the QUIC
/// connection, and kept from then on; nothing else of the handle changes.
pub proof fn law_handle_keeps_its_attempt_to_send<C: Clone, B, U, G: FnOnce(C) -> U>(
    handle: &mut OpenStreams<C, B, U>,
    start: G,
    opening: &mut U,
)
    requires
        call_ensures(OpenStreams::<C, B, U>::poll_open_send::<G>, (handle, start), opening),
    ensures
        old(handle).opening_uni matches Some(before) ==> *old(opening) == before,
        old(handle).opening_uni is None ==> exists|c: C|
            cloned(old(handle).conn, c) && #[trigger] call_ensures(start, (c,), *old(opening)),
        final(handle).opening_uni == Some(*final(opening)),
        final(handle).opening_bi == old(handle).opening_bi,
        final(handle).conn == old(handle).conn,
{
}

/// An attempt of the connection itself to open a bidirectional stream is started where there is
/// none, and kept from then on; nothing else of the connection changes.
pub proof fn law_connection_keeps_its_attempt_to_open<C: Clone, A, I, B, U, G: FnOnce(C) -> B>(
    connection: &mut Connection<C, A, I, B, U>,
    start: G,
    opening: &mut B,
)
    requires
        call_ensures(
            Connection::<C, A, I, B, U>::poll_open_bidi::<G>,
            (connection, start),
            opening,
        ),
    ensures
        old(connection).opening_bi matches Some(before) ==> *old(opening) == before,
        old(connection).opening_bi is None ==> exists|c: C|
            cloned(old(connection).conn, c) && #[trigger] call_ensures(start, (c,), *old(opening)),
        final(connection).opening_bi == Some(*final(opening)),
        final(connection).opening_uni == old(connection).opening_uni,
        final(connection).conn == old(connection).conn,
        final(connection).incoming_bi == old(connection).incoming_bi,
        final(connection).incoming_uni == old(connection).incoming_uni,
{
}

/// An attempt of the connection itself to open a sending stream is started where there is none, and
/// kept from then on; nothing else of the connection changes.
pub proof fn law_connection_keeps_its_attempt_to_send<C: Clone, A, I, B, U, G: FnOnce(C) -> U>(
    connection: &mut Connection<C, A, I, B, U>,
    start: G,
    opening: &mut U,
)
    requires
        call_ensures(
            Connection::<C, A, I, B, U>::poll_open_send::<G>,
            (connection, start),
            opening,
        ),
    ensures
        old(connection).opening_uni matches Some(before) ==> *old(opening) == before,
        old(connection).opening_uni is None ==> exists|c: C|
            cloned(old(connection).conn, c) && #[trigger] call_ensures(start, (c,), *old(opening)),
        final(connection).opening_uni == Some(*final(opening)),
        final(connection).opening_bi == old(connection).opening_bi,
        final(connection).conn == old(connection).conn,
        final(connection).incoming_bi == old(connection).incoming_bi,
        final(connection).incoming_uni == old(connection).incoming_uni,
{
}

/// A connection is closed with the given code, through itself or through a handle, and with every
/// code below `2^62`.
pub proof fn law_close_code_is_kept<C: Clone, A, I, B, U>(
    connection: Connection<C, A, I, B, U>,
    handle: OpenStreams<C, B, U>,
    code: u64,
    wire: u64,
    handle_wire: u64,
)
    requires
        call_ensures(Connection::<C, A, I, B, U>::close, (&connection, code), wire),
        call_ensures(OpenStreams::<C, B, U>::close, (&handle, code), handle_wire),
    ensures
        code < 0x4000_0000_0000_0000 ==> call_requires(
            Connection::<C, A, I, B, U>::close,
            (&connection, code),
        ) && call_requires(OpenStreams::<C, B, U>::close, (&handle, code)),
        wire == code,
        handle_wire == code,
{
}

} // verus!
