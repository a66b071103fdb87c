//! The sending half of a QUIC stream.

use crate::buffer::{write_buf_advance, write_buf_chunk, write_buf_has_remaining};
#[allow(unused_imports)]
use crate::buffer::write_buf_contents;
use crate::codes::{saturating_error_code, stream_id, VAR_INT_BOUND};
use crate::stream_error::{
    convert_write_error_to_stream_error, ClosedStream, ConnectionErrorIncoming,
    StreamErrorIncoming, UnknownStreamError, WriteError,
};
#[allow(unused_imports)]
use crate::stream_error::incoming_write_error;
use bytes::Bytes;
use h3::quic::WriteBuf;
use vstd::prelude::*;

verus! {

/// What to do to get a sending stream ready for more data.
pub enum ReadyStep<'a, T> {
    /// Write to the QUIC stream.
    Write {
        /// The QUIC stream.
        stream: &'a mut T,
        /// The bytes to write, as many of them as it takes.
        chunk: &'a [u8],
    },
    /// Nothing: it is ready.
    Ready,
}

/// A sending QUIC stream that transmits buffered data.
pub struct SendStream<T> {
    /// The QUIC stream.
    pub stream: T,
    /// The data that is being written.
    pub writing: Option<WriteBuf<Bytes>>,
}

/// The refusal of data that is queued while other data is being written.
pub open spec fn is_write_in_progress(error: StreamErrorIncoming) -> bool {
    error matches StreamErrorIncoming::ConnectionErrorIncoming { connection_error }
        && connection_error matches ConnectionErrorIncoming::InternalError(message) && message@
        == "internal error in the http stack"@
}

impl<T> SendStream<T> {
    /// The bytes of the queued data that the QUIC stream has not taken yet.
    pub open spec fn unsent(self) -> Seq<u8> {
        match self.writing {
            Some(data) => write_buf_contents(data),
            None => Seq::empty(),
        }
    }

    /// Sends on the QUIC stream `stream`.
    pub fn new(stream: T) -> (send: Self)
        ensures
            send == (SendStream { stream, writing: None }),
    {
        SendStream { stream, writing: None }
    }

    /// Polls to check if the stream is ready to send more data: while queued data is left, it has
    /// to be written first.
    pub fn poll_ready(&mut self) -> (step: ReadyStep<'_, T>)
        ensures
            match step {
                ReadyStep::Write { stream, chunk } => {
                    &&& old(self).unsent().len() > 0
                    &&& chunk@.len() > 0
                    &&& chunk@.is_prefix_of(old(self).unsent())
                    &&& *stream == old(self).stream
                    &&& *final(self) == (SendStream {
                        stream: *final(stream),
                        writing: old(self).writing,
                    })
                },
                ReadyStep::Ready => {
                    &&& old(self).unsent().len() == 0
                    &&& *final(self) == (SendStream { stream: old(self).stream, writing: None })
                },
            },
    {
        let left = match &self.writing {
            Some(data) => write_buf_has_remaining(data),
            None => false,
        };
        if !left {
            self.writing = None;
            return ReadyStep::Ready;
        }
        match &self.writing {
            Some(data) => ReadyStep::Write {
                stream: &mut self.stream,
                chunk: write_buf_chunk(data),
            },
            None => ReadyStep::Ready,
        }
    }

    /// Takes what came of writing: how many bytes the QUIC stream took, or a failure, which leaves
    /// the queued data as it was.
    pub fn on_written(&mut self, result: Result<usize, WriteError>) -> (written: Result<
        (),
        StreamErrorIncoming,
    >)
        requires
            result matches Ok(count) ==> count <= old(self).unsent().len(),
        ensures
            final(self).stream == old(self).stream,
            match result {
                Ok(count) => {
                    &&& written is Ok
                    &&& final(self).writing is Some == old(self).writing is Some
                    &&& final(self).unsent() == old(self).unsent().skip(count as int)
                },
                Err(error) => {
                    &&& written == Err::<(), StreamErrorIncoming>(incoming_write_error(error))
                    &&& *final(self) == *old(self)
                },
            },
    {
        match result {
            Ok(count) => {
                if let Some(data) = &mut self.writing {
                    write_buf_advance(data, count);
                }
                Ok(())
            },
            Err(error) => Err(convert_write_error_to_stream_error(error)),
        }
    }

    /// Queues data to be sent in the next `poll_ready` call.
    ///
    /// Returns an error if called while another write is still in progress.
    pub fn send_data<D: Into<WriteBuf<Bytes>>>(&mut self, data: D) -> (queued: Result<
        (),
        StreamErrorIncoming,
    >)
        ensures
            final(self).stream == old(self).stream,
            if old(self).writing is Some {
                &&& queued matches Err(error) && is_write_in_progress(error)
                &&& *final(self) == *old(self)
            } else {
                &&& queued is Ok
                &&& final(self).writing matches Some(buf) && call_ensures(
                    <D as Into<WriteBuf<Bytes>>>::into,
                    (data,),
                    buf,
                )
            },
    {
        if self.writing.is_some() {
            let message: String = "internal error in the http stack".to_owned();
            return Err(
                StreamErrorIncoming::ConnectionErrorIncoming {
                    connection_error: ConnectionErrorIncoming::InternalError(message),
                },
            );
        }
        self.writing = Some(data.into());
        Ok(())
    }

    /// Takes what came of finishing the QUIC stream.
    pub fn on_finished(&self, result: Result<(), ClosedStream>) -> (finished: Result<
        (),
        StreamErrorIncoming,
    >)
        ensures
            finished == match result {
                Ok(_) => Ok::<(), StreamErrorIncoming>(()),
                Err(error) => Err(StreamErrorIncoming::Unknown(UnknownStreamError::Finish(error))),
            },
    {
        match result {
            Ok(_) => Ok(()),
            Err(error) => Err(StreamErrorIncoming::Unknown(UnknownStreamError::Finish(error))),
        }
    }

    /// The code to reset the QUIC stream with: the provided one, or the largest that there is
    /// where that one is too large.
    pub fn reset(&self, reset_code: u64) -> (wire: u64)
        ensures
            wire == if reset_code < VAR_INT_BOUND {
                reset_code as int
            } else {
                VAR_INT_BOUND - 1
            },
    {
        saturating_error_code(reset_code)
    }

    /// Returns the QUIC stream ID for this sending stream, whose number is `number`.
    pub fn send_id(&self, number: u64) -> (id: u64)
        requires
            number < VAR_INT_BOUND,
        ensures
            id == number,
    {
        stream_id(number)
    }

    /// The QUIC stream, to send unframed raw data on. No queued data may be waiting.
    pub fn poll_send(&mut self) -> (stream: &mut T)
        requires
            old(self).writing is None,
        ensures
            *stream == old(self).stream,
            *final(self) == (SendStream { stream: *final(stream), writing: None }),
    {
        &mut self.stream
    }

    /// Takes what came of sending unframed raw data: the number of bytes that the QUIC stream took,
    /// which the data is to be advanced by, or a failure.
    pub fn on_sent(&self, result: Result<usize, WriteError>) -> (sent: Result<
        usize,
        StreamErrorIncoming,
    >)
        ensures
            sent == match result {
                Ok(written) => Ok::<usize, StreamErrorIncoming>(written),
                Err(error) => Err(incoming_write_error(error)),
            },
    {
        match result {
            Ok(written) => Ok(written),
            Err(error) => Err(convert_write_error_to_stream_error(error)),
        }
    }
}

/// Each write takes no more bytes than are left.
pub open spec fn writes_possible(data: Seq<u8>, counts: Seq<nat>) -> bool
    decreases counts.len(),
{
    counts.len() == 0 || {
        &&& counts.first() <= data.len()
        &&& writes_possible(data.skip(counts.first() as int), counts.drop_first())
    }
}

/// What is left of `data` after writes that took `counts` bytes.
pub open spec fn left_after(data: Seq<u8>, counts: Seq<nat>) -> Seq<u8>
    decreases counts.len(),
{
    if counts.len() == 0 {
        data
    } else {
        left_after(data.skip(counts.first() as int), counts.drop_first())
    }
}

/// What the QUIC stream has taken of `data` after writes that took `counts` bytes.
pub open spec fn taken_by(data: Seq<u8>, counts: Seq<nat>) -> Seq<u8>
    decreases counts.len(),
{
    if counts.len() == 0 {
        Seq::empty()
    } else {
        data.take(counts.first() as int) + taken_by(
            data.skip(counts.first() as int),
            counts.drop_first(),
        )
    }
}

/// However the writes are cut, what the QUIC stream has taken and what is left are the queued data;
/// so once nothing is left it has taken the data whole, in order.
pub proof fn law_writes_lose_nothing(data: Seq<u8>, counts: Seq<nat>)
    requires
        writes_possible(data, counts),
    ensures
        taken_by(data, counts) + left_after(data, counts) == data,
        left_after(data, counts).len() == 0 ==> taken_by(data, counts) == data,
    decreases counts.len(),
{
    if counts.len() != 0 {
        let n = counts.first() as int;
        law_writes_lose_nothing(data.skip(n), counts.drop_first());
        assert(data.take(n) + data.skip(n) =~= data);
        assert(taken_by(data, counts) + left_after(data, counts) =~= data.take(n) + (taken_by(
            data.skip(n),
            counts.drop_first(),
        ) + left_after(data.skip(n), counts.drop_first())));
    }
    assert(taken_by(data, counts) + Seq::<u8>::empty() =~= taken_by(data, counts));
    if left_after(data, counts).len() == 0 {
        assert(left_after(data, counts) =~= Seq::<u8>::empty());
    }
}

/// The bytes that a write takes of a chunk are those that it takes of the queued data.
pub proof fn law_chunk_bytes_are_the_next_bytes(data: Seq<u8>, chunk: Seq<u8>, count: nat)
    requires
        chunk.is_prefix_of(data),
        count <= chunk.len(),
    ensures
        chunk.take(count as int) == data.take(count as int),
        count <= data.len(),
{
    assert(chunk.take(count as int) =~= data.take(count as int));
}

/// A new sender holds the given QUIC stream and has nothing queued, so that it is ready.
pub proof fn law_new_sender_is_ready<T>(
    stream: T,
    made: SendStream<T>,
    send: &mut SendStream<T>,
    step: ReadyStep<'_, T>,
)
    requires
        call_ensures(SendStream::<T>::new, (stream,), made),
        *old(send) == made,
        call_ensures(SendStream::<T>::poll_ready, (send,), step),
    ensures
        made.stream == stream,
        made.writing is None,
        step is Ready,
        *final(send) == made,
{
}

/// A sender is ready exactly where nothing of the queued data is left, and keeps the data otherwise.
/// Then it has the next bytes of that data, and at least one, written to its QUIC stream.
pub proof fn law_sender_is_ready_once_all_is_written<T>(
    send: &mut SendStream<T>,
    step: ReadyStep<'_, T>,
)
    requires
        call_ensures(SendStream::<T>::poll_ready, (send,), step),
    ensures
        old(send).writing is None ==> step is Ready,
        old(send).writing matches Some(queued) ==> (step is Ready <==> write_buf_contents(
            queued,
        ).len() == 0),
        step is Ready ==> final(send).writing is None && final(send).stream == old(send).stream,
        step matches ReadyStep::Write { stream, chunk } ==> {
            &&& *stream == old(send).stream
            &&& final(send).stream == *final(stream)
            &&& final(send).writing == old(send).writing
            &&& chunk@.len() > 0
            &&& old(send).writing matches Some(queued) && chunk@.is_prefix_of(
                write_buf_contents(queued),
            )
        },
{
}

/// What a write took of the chunk, followed by what is queued after it, is what was queued before:
/// no byte is lost, repeated or moved.
pub proof fn law_a_write_takes_the_next_bytes<T>(
    send: &mut SendStream<T>,
    step: ReadyStep<'_, T>,
    again: &mut SendStream<T>,
    count: usize,
    written: Result<(), StreamErrorIncoming>,
)
    requires
        call_ensures(SendStream::<T>::poll_ready, (send,), step),
        step is Write,
        *old(again) == *final(send),
        count <= step->chunk@.len(),
        call_ensures(SendStream::<T>::on_written, (again, Ok(count)), written),
    ensures
        written is Ok,
        final(again).stream == old(again).stream,
        old(send).writing matches Some(before) && final(again).writing matches Some(after)
            && write_buf_contents(before) == step->chunk@.take(count as int) + write_buf_contents(
            after,
        ),
{
    let before = write_buf_contents(send.writing->0);
    let chunk = step->chunk@;
    assert(chunk.take(count as int) =~= before.take(count as int));
    assert(before =~= before.take(count as int) + before.skip(count as int));
}

/// A write of `count` bytes takes that many from the front of the queued data. A failed write is
/// reported, and takes nothing.
pub proof fn law_written_bytes_leave_the_queue<T>(
    send: &mut SendStream<T>,
    result: Result<usize, WriteError>,
    written: Result<(), StreamErrorIncoming>,
    error: WriteError,
    incoming: StreamErrorIncoming,
)
    requires
        call_ensures(SendStream::<T>::on_written, (send, result), written),
        result matches Ok(count) ==> old(send).writing matches Some(queued) ==> count
            <= write_buf_contents(queued).len(),
        call_ensures(convert_write_error_to_stream_error, (error,), incoming),
    ensures
        final(send).stream == old(send).stream,
        written is Ok <==> result is Ok,
        result matches Ok(count) ==> old(send).writing matches Some(before) ==> final(send).writing matches Some(after) && write_buf_contents(after).len() + count
            == write_buf_contents(before).len() && write_buf_contents(after) == write_buf_contents(
            before,
        ).skip(count as int),
        old(send).writing is None ==> final(send).writing is None,
        result == Err::<usize, WriteError>(error) ==> written == Err::<(), StreamErrorIncoming>(
            incoming,
        ) && *final(send) == *old(send),
{
}

/// Data is queued exactly where none was queued before, and it is the given data. Otherwise it is
/// refused, and what was queued stays.
pub proof fn law_data_is_queued_once<T, D: Into<WriteBuf<Bytes>>>(
    send: &mut SendStream<T>,
    data: D,
    queued: Result<(), StreamErrorIncoming>,
)
    requires
        call_ensures(SendStream::<T>::send_data::<D>, (send, data), queued),
    ensures
        queued is Ok <==> old(send).writing is None,
        queued is Ok ==> (final(send).writing matches Some(buf) && call_ensures(
            <D as Into<WriteBuf<Bytes>>>::into,
            (data,),
            buf,
        )),
        final(send).stream == old(send).stream,
        queued matches Err(error) ==> {
            &&& *final(send) == *old(send)
            &&& error matches StreamErrorIncoming::ConnectionErrorIncoming { connection_error }
                && connection_error matches ConnectionErrorIncoming::InternalError(message)
                && message@ == "internal error in the http stack"@
        },
{
}

/// Finishing fails exactly where the QUIC stream was closed, and says so.
pub proof fn law_finishing_a_closed_stream_fails<T>(
    send: SendStream<T>,
    result: Result<(), ClosedStream>,
    finished: Result<(), StreamErrorIncoming>,
)
    requires
        call_ensures(SendStream::<T>::on_finished, (&send, result), finished),
    ensures
        finished is Ok <==> result is Ok,
        result matches Err(error) ==> finished == Err::<(), StreamErrorIncoming>(
            StreamErrorIncoming::Unknown(UnknownStreamError::Finish(error)),
        ),
{
}

/// A stream is reset with the given code where that fits, and with the largest one otherwise.
pub proof fn law_reset_code_fits<T>(send: SendStream<T>, reset_code: u64, wire: u64)
    requires
        call_ensures(SendStream::<T>::reset, (&send, reset_code), wire),
    ensures
        wire < 0x4000_0000_0000_0000,
        reset_code < 0x4000_0000_0000_0000 ==> wire == reset_code,
        reset_code >= 0x4000_0000_0000_0000 ==> wire == 0x3fff_ffff_ffff_ffff,
{
}

/// The identifier of a sending stream is its number.
pub proof fn law_sending_identifier_is_kept<T>(send: SendStream<T>, number: u64, id: u64)
    requires
        call_ensures(SendStream::<T>::send_id, (&send, number), id),
    ensures
        number < 0x4000_0000_0000_0000 ==> call_requires(
            SendStream::<T>::send_id,
            (&send, number),
        ),
        id == number,
{
}

/// Unframed data goes to the QUIC stream itself, wherever nothing is queued, and leaves nothing
/// queued.
pub proof fn law_unframed_data_goes_to_the_stream<T>(send: &mut SendStream<T>, stream: &mut T)
    requires
        call_ensures(SendStream::<T>::poll_send, (send,), stream),
    ensures
        old(send).writing is None ==> call_requires(SendStream::<T>::poll_send, (send,)),
        *old(stream) == old(send).stream,
        final(send).stream == *final(stream),
        final(send).writing is None,
{
}

/// Sending unframed data gives the number of bytes that were taken, or reports the failure.
pub proof fn law_unframed_bytes_are_counted<T>(
    send: SendStream<T>,
    result: Result<usize, WriteError>,
    sent: Result<usize, StreamErrorIncoming>,
    error: WriteError,
    incoming: StreamErrorIncoming,
)
    requires
        call_ensures(SendStream::<T>::on_sent, (&send, result), sent),
        call_ensures(convert_write_error_to_stream_error, (error,), incoming),
    ensures
        result matches Ok(written) ==> sent == Ok::<usize, StreamErrorIncoming>(written),
        result == Err::<usize, WriteError>(error) ==> sent == Err::<usize, StreamErrorIncoming>(
            incoming,
        ),
{
}

} // verus!
