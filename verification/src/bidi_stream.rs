//! A QUIC stream with both its halves.

#[allow(unused_imports)]
use crate::buffer::write_buf_contents;
use crate::codes::VAR_INT_BOUND;
use crate::recv_stream::{RecvStream, StopSending};
#[allow(unused_imports)]
use crate::recv_stream::{
    chunk_recv, poll_recv, stop_recv, Halted, RecvEffect, RecvPhase, RecvStreamState,
};
use crate::send_stream::{ReadyStep, SendStream};
#[allow(unused_imports)]
use crate::send_stream::is_write_in_progress;
use crate::stream_error::{
    ClosedStream, ReadError, StreamErrorIncoming, UnknownStreamError, WriteError,
};
#[allow(unused_imports)]
use crate::stream_error::{
    convert_write_error_to_stream_error, incoming_write_error, ConnectionErrorIncoming,
};
use bytes::Bytes;
use h3::quic::WriteBuf;
use vstd::prelude::*;

verus! {

/// A bidirectional QUIC stream that contains both send and receive halves.
///
/// Either half can be used through it, and it can be split.
pub struct BidiStream<T, S, F> {
    /// The sending half.
    pub send: SendStream<T>,
    /// The receiving half.
    pub recv: RecvStream<S, F>,
}

impl<T, S, F> BidiStream<T, S, F> {
    /// Splits the bidirectional stream into its send and receive halves.
    pub fn split(self) -> (halves: (SendStream<T>, RecvStream<S, F>))
        ensures
            halves == (self.send, self.recv),
    {
        (self.send, self.recv)
    }

    /// Polls for incoming data on the receive side of the stream, as [`RecvStream::poll_data`].
    pub fn poll_data<G: FnOnce(S) -> F>(&mut self, start: G) -> (read: Option<&mut F>)
        requires
            old(self).recv.state matches RecvStreamState::Idle(stream) ==> call_requires(
                start,
                (stream,),
            ),
        ensures
            final(self).send == old(self).send,
            final(self).recv.recv_id == old(self).recv.recv_id,
            final(self).recv.phase() == poll_recv(old(self).recv.phase()).phase,
            match poll_recv(old(self).recv.phase()).effect {
                RecvEffect::StartRead => read matches Some(started) && call_ensures(
                    start,
                    (old(self).recv.state->Idle_0,),
                    *started,
                ) && final(self).recv.state == RecvStreamState::<S, F>::Reading(*final(started)),
                RecvEffect::Wait => read matches Some(waiting) && old(self).recv.state
                    == RecvStreamState::<S, F>::Reading(*waiting) && final(self).recv.state
                    == RecvStreamState::<S, F>::Reading(*final(waiting)),
                _ => read is None && *final(self) == *old(self),
            },
    {
        self.recv.poll_data(start)
    }

    /// Takes what the read in flight gave, as [`RecvStream::on_chunk`].
    pub fn on_chunk(
        &mut self,
        stream: S,
        chunk: Result<Option<Bytes>, ReadError>,
    ) -> (data: Result<Option<Bytes>, StreamErrorIncoming>)
        requires
            old(self).recv.phase() == RecvPhase::Reading,
        ensures
            final(self).send == old(self).send,
            final(self).recv.recv_id == old(self).recv.recv_id,
            final(self).recv.phase() == chunk_recv(chunk).phase,
            RecvEffect::Deliver(data) == chunk_recv(chunk).effect,
            final(self).recv.phase() == RecvPhase::Idle ==> final(self).recv.state
                == RecvStreamState::<S, F>::Idle(stream),
    {
        self.recv.on_chunk(stream, chunk)
    }

    /// Informs the peer that the receiver is no longer interested in this stream, as
    /// [`RecvStream::stop_sending`].
    pub fn stop_sending(&mut self, error_code: u64) -> (stop: Option<StopSending<S, F>>)
        requires
            error_code < VAR_INT_BOUND,
        ensures
            final(self).send == old(self).send,
            final(self).recv.recv_id == old(self).recv.recv_id,
            final(self).recv.phase() == stop_recv(old(self).recv.phase(), error_code).phase,
            stop is Some <==> stop_recv(old(self).recv.phase(), error_code).effect
                == RecvEffect::TellPeer(error_code),
            stop == match old(self).recv.state {
                RecvStreamState::Idle(stream) => Some(
                    StopSending { stream: Halted::<S, F>::Idle(stream), code: error_code },
                ),
                RecvStreamState::Reading(read) => Some(
                    StopSending { stream: Halted::<S, F>::Reading(read), code: error_code },
                ),
                _ => None,
            },
    {
        self.recv.stop_sending(error_code)
    }

    /// Returns the QUIC stream ID for this receiving stream.
    pub fn recv_id(&self) -> (id: u64)
        ensures
            id == self.recv.recv_id,
    {
        self.recv.recv_id()
    }

    /// Polls for readiness to send data on the stream, as [`SendStream::poll_ready`].
    pub fn poll_ready(&mut self) -> (step: ReadyStep<'_, T>)
        ensures
            final(self).recv == old(self).recv,
            match step {
                ReadyStep::Write { stream, chunk } => {
                    &&& old(self).send.unsent().len() > 0
                    &&& chunk@.len() > 0
                    &&& chunk@.is_prefix_of(old(self).send.unsent())
                    &&& *stream == old(self).send.stream
                    &&& final(self).send == (SendStream {
                        stream: *final(stream),
                        writing: old(self).send.writing,
                    })
                },
                ReadyStep::Ready => {
                    &&& old(self).send.unsent().len() == 0
                    &&& final(self).send == (SendStream {
                        stream: old(self).send.stream,
                        writing: None,
                    })
                },
            },
    {
        self.send.poll_ready()
    }

    /// Takes what came of writing, as [`SendStream::on_written`].
    pub fn on_written(&mut self, result: Result<usize, WriteError>) -> (written: Result<
        (),
        StreamErrorIncoming,
    >)
        requires
            result matches Ok(count) ==> count <= old(self).send.unsent().len(),
        ensures
            final(self).recv == old(self).recv,
            final(self).send.stream == old(self).send.stream,
            match result {
                Ok(count) => {
                    &&& written is Ok
                    &&& final(self).send.writing is Some == old(self).send.writing is Some
                    &&& final(self).send.unsent() == old(self).send.unsent().skip(count as int)
                },
                Err(error) => {
                    &&& written == Err::<(), StreamErrorIncoming>(incoming_write_error(error))
                    &&& *final(self) == *old(self)
                },
            },
    {
        self.send.on_written(result)
    }

    /// Takes what came of finishing the send side, as [`SendStream::on_finished`].
    pub fn on_finished(&self, result: Result<(), ClosedStream>) -> (finished: Result<
        (),
        StreamErrorIncoming,
    >)
        ensures
            finished == match result {
                Ok(_) => Ok::<(), StreamErrorIncoming>(()),
                Err(error) => Err(StreamErrorIncoming::Unknown(UnknownStreamError::Finish(error))),
            },
    {
        self.send.on_finished(result)
    }

    /// The code to reset the send side of the stream with, as [`SendStream::reset`].
    pub fn reset(&self, reset_code: u64) -> (wire: u64)
        ensures
            wire == if reset_code < VAR_INT_BOUND {
                reset_code as int
            } else {
                VAR_INT_BOUND - 1
            },
    {
        self.send.reset(reset_code)
    }

    /// Queues a buffer of data to be sent on the stream, as [`SendStream::send_data`].
    pub fn send_data<D: Into<WriteBuf<Bytes>>>(&mut self, data: D) -> (queued: Result<
        (),
        StreamErrorIncoming,
    >)
        ensures
            final(self).recv == old(self).recv,
            final(self).send.stream == old(self).send.stream,
            if old(self).send.writing is Some {
                &&& queued matches Err(error) && is_write_in_progress(error)
                &&& *final(self) == *old(self)
            } else {
                &&& queued is Ok
                &&& final(self).send.writing matches Some(buf) && call_ensures(
                    <D as Into<WriteBuf<Bytes>>>::into,
                    (data,),
                    buf,
                )
            },
    {
        self.send.send_data(data)
    }

    /// Returns the QUIC stream ID for this sending stream, whose number is `number`.
    pub fn send_id(&self, number: u64) -> (id: u64)
        requires
            number < VAR_INT_BOUND,
        ensures
            id == number,
    {
        self.send.send_id(number)
    }

    /// The QUIC stream, to send unframed raw data on, as [`SendStream::poll_send`].
    pub fn poll_send(&mut self) -> (stream: &mut T)
        requires
            old(self).send.writing is None,
        ensures
            final(self).recv == old(self).recv,
            *stream == old(self).send.stream,
            final(self).send == (SendStream { stream: *final(stream), writing: None }),
    {
        self.send.poll_send()
    }

    /// Takes what came of sending unframed raw data, as [`SendStream::on_sent`].
    pub fn on_sent(&self, result: Result<usize, WriteError>) -> (sent: Result<
        usize,
        StreamErrorIncoming,
    >)
        ensures
            sent == match result {
                Ok(written) => Ok::<usize, StreamErrorIncoming>(written),
                Err(error) => Err(incoming_write_error(error)),
            },
    {
        self.send.on_sent(result)
    }
}

/// Splitting gives the two halves as they are.
pub proof fn law_split_gives_the_halves<T, S, F>(
    bidi: BidiStream<T, S, F>,
    halves: (SendStream<T>, RecvStream<S, F>),
)
    requires
        call_ensures(BidiStream::<T, S, F>::split, (bidi,), halves),
    ensures
        halves.0 == bidi.send,
        halves.1 == bidi.recv,
{
}

/// A poll reads on the receiving half until that has ended, and leaves the sending half alone.
pub proof fn law_bidi_poll_reads_until_the_end<T, S, F, G: FnOnce(S) -> F>(
    bidi: &mut BidiStream<T, S, F>,
    start: G,
    read: Option<&mut F>,
)
    requires
        call_ensures(BidiStream::<T, S, F>::poll_data::<G>, (bidi, start), read),
    ensures
        final(bidi).send == old(bidi).send,
        final(bidi).recv.recv_id == old(bidi).recv.recv_id,
        read is None <==> old(bidi).recv.state is Stopped || old(bidi).recv.state is Drained || old(bidi).recv.state is Failed,
        read is None ==> *final(bidi) == *old(bidi),
        read matches Some(kept) ==> final(bidi).recv.state == RecvStreamState::<S, F>::Reading(
            *final(kept),
        ),
        old(bidi).recv.state matches RecvStreamState::Reading(waiting) ==> read matches Some(given)
            && *given == waiting,
        old(bidi).recv.state matches RecvStreamState::Idle(stream) ==> read matches Some(started)
            && call_ensures(start, (stream,), *started),
{
}

/// What a read gave does to the receiving half what it does to a receiving stream, and leaves the
/// sending half alone.
pub proof fn law_bidi_chunk_is_for_the_receiving_half<T, S, F>(
    bidi: &mut BidiStream<T, S, F>,
    recv: &mut RecvStream<S, F>,
    stream: S,
    chunk: Result<Option<Bytes>, ReadError>,
    data: Result<Option<Bytes>, StreamErrorIncoming>,
    half_data: Result<Option<Bytes>, StreamErrorIncoming>,
)
    requires
        *old(recv) == old(bidi).recv,
        call_ensures(BidiStream::<T, S, F>::on_chunk, (bidi, stream, chunk), data),
        call_ensures(RecvStream::<S, F>::on_chunk, (recv, stream, chunk), half_data),
    ensures
        data == half_data,
        final(bidi).recv == *final(recv),
        final(bidi).send == old(bidi).send,
{
}

/// A stop does to the receiving half what it does to a receiving stream, and leaves the sending half
/// alone.
pub proof fn law_bidi_stop_is_for_the_receiving_half<T, S, F>(
    bidi: &mut BidiStream<T, S, F>,
    recv: &mut RecvStream<S, F>,
    code: u64,
    stop: Option<StopSending<S, F>>,
    half_stop: Option<StopSending<S, F>>,
)
    requires
        *old(recv) == old(bidi).recv,
        call_ensures(BidiStream::<T, S, F>::stop_sending, (bidi, code), stop),
        call_ensures(RecvStream::<S, F>::stop_sending, (recv, code), half_stop),
    ensures
        code < 0x4000_0000_0000_0000 ==> call_requires(
            BidiStream::<T, S, F>::stop_sending,
            (bidi, code),
        ),
        stop == half_stop,
        final(bidi).recv == *final(recv),
        final(bidi).send == old(bidi).send,
{
}

/// The sending half is ready exactly where nothing of its queued data is left. Otherwise it has the
/// next bytes of that data written. The receiving half is left alone.
pub proof fn law_bidi_is_ready_once_all_is_written<T, S, F>(
    bidi: &mut BidiStream<T, S, F>,
    step: ReadyStep<'_, T>,
)
    requires
        call_ensures(BidiStream::<T, S, F>::poll_ready, (bidi,), step),
    ensures
        final(bidi).recv == old(bidi).recv,
        old(bidi).send.writing is None ==> step is Ready,
        old(bidi).send.writing matches Some(queued) ==> (step is Ready <==> write_buf_contents(
            queued,
        ).len() == 0),
        step is Ready ==> final(bidi).send.writing is None && final(bidi).send.stream == old(bidi).send.stream,
        step matches ReadyStep::Write { stream, chunk } ==> {
            &&& *stream == old(bidi).send.stream
            &&& final(bidi).send.stream == *final(stream)
            &&& final(bidi).send.writing == old(bidi).send.writing
            &&& chunk@.len() > 0
            &&& old(bidi).send.writing matches Some(queued) && chunk@.is_prefix_of(
                write_buf_contents(queued),
            )
        },
{
}

/// A write of `count` bytes takes that many from the front of the queued data. A failed write is
/// reported, and takes nothing. The receiving half is left alone.
pub proof fn law_bidi_written_bytes_leave_the_queue<T, S, F>(
    bidi: &mut BidiStream<T, S, F>,
    result: Result<usize, WriteError>,
    written: Result<(), StreamErrorIncoming>,
    error: WriteError,
    incoming: StreamErrorIncoming,
)
    requires
        call_ensures(BidiStream::<T, S, F>::on_written, (bidi, result), written),
        call_ensures(convert_write_error_to_stream_error, (error,), incoming),
    ensures
        final(bidi).recv == old(bidi).recv,
        final(bidi).send.stream == old(bidi).send.stream,
        written is Ok <==> result is Ok,
        result matches Ok(count) ==> old(bidi).send.writing matches Some(before) ==> final(bidi).send.writing matches Some(after) && write_buf_contents(after) == write_buf_contents(
            before,
        ).skip(count as int),
        old(bidi).send.writing is None ==> final(bidi).send.writing is None,
        result == Err::<usize, WriteError>(error) ==> written == Err::<(), StreamErrorIncoming>(
            incoming,
        ) && *final(bidi) == *old(bidi),
{
}

/// Data is queued on the sending half exactly where none was queued before, and it is the given
/// data. Otherwise it is refused. The receiving half is left alone.
pub proof fn law_bidi_data_is_queued_once<T, S, F, D: Into<WriteBuf<Bytes>>>(
    bidi: &mut BidiStream<T, S, F>,
    data: D,
    queued: Result<(), StreamErrorIncoming>,
)
    requires
        call_ensures(BidiStream::<T, S, F>::send_data::<D>, (bidi, data), queued),
    ensures
        final(bidi).recv == old(bidi).recv,
        final(bidi).send.stream == old(bidi).send.stream,
        queued is Ok <==> old(bidi).send.writing is None,
        queued is Ok ==> (final(bidi).send.writing matches Some(buf) && call_ensures(
            <D as Into<WriteBuf<Bytes>>>::into,
            (data,),
            buf,
        )),
        queued matches Err(error) ==> {
            &&& *final(bidi) == *old(bidi)
            &&& error matches StreamErrorIncoming::ConnectionErrorIncoming { connection_error }
                && connection_error matches ConnectionErrorIncoming::InternalError(message)
                && message@ == "internal error in the http stack"@
        },
{
}

/// Unframed data goes to the QUIC stream of the sending half, and the receiving half is left alone.
pub proof fn law_bidi_unframed_data_goes_to_the_stream<T, S, F>(
    bidi: &mut BidiStream<T, S, F>,
    stream: &mut T,
)
    requires
        call_ensures(BidiStream::<T, S, F>::poll_send, (bidi,), stream),
    ensures
        final(bidi).recv == old(bidi).recv,
        *old(stream) == old(bidi).send.stream,
        final(bidi).send.stream == *final(stream),
        final(bidi).send.writing is None,
{
}

/// What is asked of a half through the stream is answered as the half answers it.
pub proof fn law_bidi_answers_as_its_halves<T, S, F>(
    bidi: BidiStream<T, S, F>,
    finish: Result<(), ClosedStream>,
    finished: (Result<(), StreamErrorIncoming>, Result<(), StreamErrorIncoming>),
    sending: Result<usize, WriteError>,
    sent: (Result<usize, StreamErrorIncoming>, Result<usize, StreamErrorIncoming>),
    code: u64,
    wire: (u64, u64),
    number: u64,
    send_id: (u64, u64),
    recv_id: (u64, u64),
)
    requires
        call_ensures(BidiStream::<T, S, F>::on_finished, (&bidi, finish), finished.0),
        call_ensures(SendStream::<T>::on_finished, (&bidi.send, finish), finished.1),
        call_ensures(BidiStream::<T, S, F>::on_sent, (&bidi, sending), sent.0),
        call_ensures(SendStream::<T>::on_sent, (&bidi.send, sending), sent.1),
        call_ensures(BidiStream::<T, S, F>::reset, (&bidi, code), wire.0),
        call_ensures(SendStream::<T>::reset, (&bidi.send, code), wire.1),
        call_ensures(BidiStream::<T, S, F>::send_id, (&bidi, number), send_id.0),
        call_ensures(SendStream::<T>::send_id, (&bidi.send, number), send_id.1),
        call_ensures(BidiStream::<T, S, F>::recv_id, (&bidi,), recv_id.0),
        call_ensures(RecvStream::<S, F>::recv_id, (&bidi.recv,), recv_id.1),
    ensures
        finished.0 == finished.1,
        sent.0 == sent.1,
        wire.0 == wire.1,
        send_id.0 == send_id.1,
        recv_id.0 == recv_id.1 && recv_id.0 == bidi.recv.recv_id,
{
}

} // verus!
