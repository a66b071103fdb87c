//! The receiving half of a QUIC stream.

use crate::codes::{error_code, stream_id, VAR_INT_BOUND};
use crate::stream_error::{convert_read_error_to_stream_error, ReadError, StreamErrorIncoming};
#[allow(unused_imports)]
use crate::stream_error::incoming_read_error;
use bytes::Bytes;
use vstd::prelude::*;

verus! {

/// Where a receiving stream stands.
#[derive(Clone, Copy, Debug, PartialEq, Eq, Structural)]
pub enum RecvPhase {
    /// No read is in flight.
    Idle,
    /// A read is in flight.
    Reading,
    /// It was stopped from this side.
    Stopped,
    /// The peer finished it, and it was read to its end.
    Drained,
    /// A read of it failed.
    Failed,
}

impl RecvPhase {
    /// Nothing will be read any more.
    pub open spec fn is_terminal(self) -> bool {
        self is Stopped || self is Drained || self is Failed
    }
}

/// What happens to a receiving stream.
pub enum RecvEvent {
    /// Its reader polls it.
    Poll,
    /// The read in flight gives this.
    Chunk(Result<Option<Bytes>, ReadError>),
    /// Its reader wants no more, and says so with this code.
    Stop(u64),
}

/// What a receiving stream does.
pub enum RecvEffect {
    /// Nothing.
    Nothing,
    /// It starts a read, and waits for it.
    StartRead,
    /// It waits for the read in flight.
    Wait,
    /// It gives its reader a chunk, the end of the stream (`None`), or a failure.
    Deliver(Result<Option<Bytes>, StreamErrorIncoming>),
    /// It tells the peer to stop sending, with this code.
    TellPeer(u64),
}

/// What an event does to a receiving stream.
pub struct RecvStep {
    /// Where the stream stands after it.
    pub phase: RecvPhase,
    /// What the stream does.
    pub effect: RecvEffect,
}

/// What a poll does: it reads, or gives the end of a stream that will not be read any more.
pub open spec fn poll_recv(phase: RecvPhase) -> RecvStep {
    match phase {
        RecvPhase::Idle => RecvStep { phase: RecvPhase::Reading, effect: RecvEffect::StartRead },
        RecvPhase::Reading => RecvStep { phase, effect: RecvEffect::Wait },
        _ => RecvStep { phase, effect: RecvEffect::Deliver(Ok(None)) },
    }
}

/// What the end of the read in flight does.
pub open spec fn chunk_recv(chunk: Result<Option<Bytes>, ReadError>) -> RecvStep {
    match chunk {
        Ok(Some(bytes)) => RecvStep {
            phase: RecvPhase::Idle,
            effect: RecvEffect::Deliver(Ok(Some(bytes))),
        },
        Ok(None) => RecvStep {
            phase: RecvPhase::Drained,
            effect: RecvEffect::Deliver(Ok(None)),
        },
        Err(error) => RecvStep {
            phase: RecvPhase::Failed,
            effect: RecvEffect::Deliver(Err(incoming_read_error(error))),
        },
    }
}

/// What stopping does: the peer is told the code, whether a read is in flight or not. A stream that
/// will not be read any more stays as it is.
pub open spec fn stop_recv(phase: RecvPhase, code: u64) -> RecvStep {
    match phase {
        RecvPhase::Idle | RecvPhase::Reading => RecvStep {
            phase: RecvPhase::Stopped,
            effect: RecvEffect::TellPeer(code),
        },
        _ => RecvStep { phase, effect: RecvEffect::Nothing },
    }
}

/// What `event` does to a receiving stream.
pub open spec fn recv_step(phase: RecvPhase, event: RecvEvent) -> RecvStep {
    match event {
        RecvEvent::Poll => poll_recv(phase),
        RecvEvent::Chunk(chunk) => if phase == RecvPhase::Reading {
            chunk_recv(chunk)
        } else {
            RecvStep { phase, effect: RecvEffect::Nothing }
        },
        RecvEvent::Stop(code) => stop_recv(phase, code),
    }
}

/// Where a receiving stream stands, and what it holds there: the QUIC stream `S`, or the read `F`
/// that has it.
pub enum RecvStreamState<S, F> {
    /// No read is in flight.
    Idle(S),
    /// A read is in flight.
    Reading(F),
    /// It was stopped from this side.
    Stopped,
    /// The peer finished it, and it was read to its end.
    Drained,
    /// A read of it failed.
    Failed,
}

/// What a receiving stream held when it was stopped.
pub enum Halted<S, F> {
    /// The QUIC stream.
    Idle(S),
    /// The read that has the QUIC stream, and that is given up.
    Reading(F),
}

/// A QUIC stream that its peer is to be told to stop sending on, and then to be dropped.
pub struct StopSending<S, F> {
    /// The stream, or the read that has it.
    pub stream: Halted<S, F>,
    /// The code to tell the peer.
    pub code: u64,
}

/// A receiving QUIC stream that reads ordered chunks of data.
///
/// Tracks whether it is idle, actively reading, or terminal.
pub struct RecvStream<S, F> {
    /// The identifier of the stream.
    pub recv_id: u64,
    /// Where the stream stands.
    pub state: RecvStreamState<S, F>,
}

impl<S, F> RecvStream<S, F> {
    /// Where the stream stands.
    pub open spec fn phase(self) -> RecvPhase {
        match self.state {
            RecvStreamState::Idle(_) => RecvPhase::Idle,
            RecvStreamState::Reading(_) => RecvPhase::Reading,
            RecvStreamState::Stopped => RecvPhase::Stopped,
            RecvStreamState::Drained => RecvPhase::Drained,
            RecvStreamState::Failed => RecvPhase::Failed,
        }
    }

    /// Receives on the QUIC stream `stream`, whose number is `number`.
    pub fn new(stream: S, number: u64) -> (recv: Self)
        requires
            number < VAR_INT_BOUND,
        ensures
            recv.recv_id == number,
            recv.state == RecvStreamState::<S, F>::Idle(stream),
    {
        RecvStream { recv_id: stream_id(number), state: RecvStreamState::Idle(stream) }
    }

    /// Polls for the next chunk of received data. Gives the read in flight, started with `start`
    /// where there was none, to be polled; or `None` where the stream has ended.
    pub fn poll_data<G: FnOnce(S) -> F>(&mut self, start: G) -> (read: Option<&mut F>)
        requires
            old(self).state matches RecvStreamState::Idle(stream) ==> call_requires(
                start,
                (stream,),
            ),
        ensures
            final(self).recv_id == old(self).recv_id,
            final(self).phase() == poll_recv(old(self).phase()).phase,
            match poll_recv(old(self).phase()).effect {
                RecvEffect::StartRead => read matches Some(started) && call_ensures(
                    start,
                    (old(self).state->Idle_0,),
                    *started,
                ) && final(self).state == RecvStreamState::<S, F>::Reading(*final(started)),
                RecvEffect::Wait => read matches Some(waiting) && old(self).state
                    == RecvStreamState::<S, F>::Reading(*waiting) && final(self).state
                    == RecvStreamState::<S, F>::Reading(*final(waiting)),
                _ => read is None && *final(self) == *old(self),
            },
    {
        let mut state = RecvStreamState::Stopped;
        std::mem::swap(&mut self.state, &mut state);
        match state {
            RecvStreamState::Idle(stream) => {
                self.state = RecvStreamState::Reading(start(stream));
            },
            state => {
                self.state = state;
            },
        }
        match &mut self.state {
            RecvStreamState::Reading(read) => Some(read),
            _ => None,
        }
    }

    /// Takes what the read in flight gave, with the QUIC stream that it had. Gives the chunk, the
    /// end of the stream, or the failure to the reader.
    pub fn on_chunk(
        &mut self,
        stream: S,
        chunk: Result<Option<Bytes>, ReadError>,
    ) -> (data: Result<Option<Bytes>, StreamErrorIncoming>)
        requires
            old(self).phase() == RecvPhase::Reading,
        ensures
            final(self).recv_id == old(self).recv_id,
            final(self).phase() == chunk_recv(chunk).phase,
            RecvEffect::Deliver(data) == chunk_recv(chunk).effect,
            final(self).phase() == RecvPhase::Idle ==> final(self).state
                == RecvStreamState::<S, F>::Idle(stream),
    {
        match chunk {
            Ok(Some(bytes)) => {
                self.state = RecvStreamState::Idle(stream);
                Ok(Some(bytes))
            },
            Ok(None) => {
                self.state = RecvStreamState::Drained;
                Ok(None)
            },
            Err(error) => {
                self.state = RecvStreamState::Failed;
                Err(convert_read_error_to_stream_error(error))
            },
        }
    }

    /// Cancels further reception on this stream with the given error code. Gives the QUIC stream, or
    /// the read that has it, with the code to tell the peer; `None` where the stream has ended.
    pub fn stop_sending(&mut self, code: u64) -> (stop: Option<StopSending<S, F>>)
        requires
            code < VAR_INT_BOUND,
        ensures
            final(self).recv_id == old(self).recv_id,
            final(self).phase() == stop_recv(old(self).phase(), code).phase,
            stop is Some <==> stop_recv(old(self).phase(), code).effect == RecvEffect::TellPeer(code),
            stop == match old(self).state {
                RecvStreamState::Idle(stream) => Some(
                    StopSending { stream: Halted::<S, F>::Idle(stream), code },
                ),
                RecvStreamState::Reading(read) => Some(
                    StopSending { stream: Halted::<S, F>::Reading(read), code },
                ),
                _ => None,
            },
    {
        let wire = error_code(code);
        let mut state = RecvStreamState::Stopped;
        std::mem::swap(&mut self.state, &mut state);
        match state {
            RecvStreamState::Idle(stream) => Some(
                StopSending { stream: Halted::Idle(stream), code: wire },
            ),
            RecvStreamState::Reading(read) => Some(
                StopSending { stream: Halted::Reading(read), code: wire },
            ),
            state => {
                self.state = state;
                None
            },
        }
    }

    /// Returns the QUIC stream ID associated with this receive stream.
    pub fn recv_id(&self) -> (id: u64)
        ensures
            id == self.recv_id,
    {
        self.recv_id
    }
}

/// Where a receiving stream stands after the history `events`.
pub open spec fn recv_run(phase: RecvPhase, events: Seq<RecvEvent>) -> RecvPhase
    decreases events.len(),
{
    if events.len() == 0 {
        phase
    } else {
        recv_run(recv_step(phase, events.first()).phase, events.drop_first())
    }
}

/// How often the history `events` tells the peer to stop sending.
pub open spec fn peer_stops(phase: RecvPhase, events: Seq<RecvEvent>) -> nat
    decreases events.len(),
{
    if events.len() == 0 {
        0
    } else {
        let step = recv_step(phase, events.first());
        peer_stops(step.phase, events.drop_first()) + (if step.effect is TellPeer {
            1nat
        } else {
            0
        })
    }
}

/// How often the history `events` gives the reader a failure.
pub open spec fn failures_delivered(phase: RecvPhase, events: Seq<RecvEvent>) -> nat
    decreases events.len(),
{
    if events.len() == 0 {
        0
    } else {
        let step = recv_step(phase, events.first());
        failures_delivered(step.phase, events.drop_first()) + (if step.effect
            matches RecvEffect::Deliver(Err(_)) {
            1nat
        } else {
            0
        })
    }
}

/// The chunks that the history `events` gives the reader, in order.
pub open spec fn chunks_delivered(phase: RecvPhase, events: Seq<RecvEvent>) -> Seq<Bytes>
    decreases events.len(),
{
    if events.len() == 0 {
        Seq::empty()
    } else {
        let step = recv_step(phase, events.first());
        let rest = chunks_delivered(step.phase, events.drop_first());
        match step.effect {
            RecvEffect::Deliver(Ok(Some(bytes))) => seq![bytes] + rest,
            _ => rest,
        }
    }
}

/// The chunks that the reads of the history `events` gave, in order.
pub open spec fn chunks_read(events: Seq<RecvEvent>) -> Seq<Bytes>
    decreases events.len(),
{
    if events.len() == 0 {
        Seq::empty()
    } else {
        let rest = chunks_read(events.drop_first());
        match events.first() {
            RecvEvent::Chunk(Ok(Some(bytes))) => seq![bytes] + rest,
            _ => rest,
        }
    }
}

/// Every event of the history is one that can come: a read ends only while one is in flight.
pub open spec fn recv_possible(phase: RecvPhase, events: Seq<RecvEvent>) -> bool
    decreases events.len(),
{
    events.len() == 0 || {
        &&& events.first() is Chunk ==> phase == RecvPhase::Reading
        &&& recv_possible(recv_step(phase, events.first()).phase, events.drop_first())
    }
}

/// A stream that has ended stays as it is whatever happens: every poll gives the end of the
/// stream, and the peer is told nothing.
pub proof fn law_ended_receiver_stays_ended(phase: RecvPhase, events: Seq<RecvEvent>)
    requires
        phase.is_terminal(),
    ensures
        recv_run(phase, events) == phase,
        poll_recv(recv_run(phase, events)).effect == RecvEffect::Deliver(Ok(None)),
        peer_stops(phase, events) == 0,
        failures_delivered(phase, events) == 0,
        chunks_delivered(phase, events) == Seq::<Bytes>::empty(),
    decreases events.len(),
{
    if events.len() != 0 {
        law_ended_receiver_stays_ended(phase, events.drop_first());
    }
}

/// Stopping ends a stream wherever it stands, so that the next poll gives the end of the stream at
/// once; a read in flight is given up.
pub proof fn law_stop_ends_the_receiver(phase: RecvPhase, code: u64, events: Seq<RecvEvent>)
    ensures
        stop_recv(phase, code).phase.is_terminal(),
        poll_recv(recv_run(stop_recv(phase, code).phase, events)).effect == RecvEffect::Deliver(
            Ok(None),
        ),
{
    law_ended_receiver_stays_ended(stop_recv(phase, code).phase, events);
}

/// Stopping a stream that has not ended tells the peer that code, whether a read is in flight or
/// not, and whatever happens then the peer is told nothing else.
pub proof fn law_stop_tells_the_peer_once(phase: RecvPhase, code: u64, events: Seq<RecvEvent>)
    requires
        !phase.is_terminal(),
    ensures
        recv_step(phase, RecvEvent::Stop(code)).effect == RecvEffect::TellPeer(code),
        peer_stops(phase, seq![RecvEvent::Stop(code)] + events) == 1,
{
    let history = seq![RecvEvent::Stop(code)] + events;
    assert(history.first() == RecvEvent::Stop(code));
    assert(history.drop_first() =~= events);
    law_ended_receiver_stays_ended(stop_recv(phase, code).phase, events);
}

/// Stopping again changes nothing and tells the peer nothing, whatever the codes.
pub proof fn law_stop_is_idempotent(phase: RecvPhase, first: u64, second: u64)
    ensures
        stop_recv(stop_recv(phase, first).phase, second) == (RecvStep {
            phase: stop_recv(phase, first).phase,
            effect: RecvEffect::Nothing,
        }),
{
}

/// Over any history the peer is told to stop at most once.
pub proof fn law_peer_is_told_at_most_once(phase: RecvPhase, events: Seq<RecvEvent>)
    ensures
        peer_stops(phase, events) <= 1,
    decreases events.len(),
{
    if events.len() != 0 {
        let step = recv_step(phase, events.first());
        law_peer_is_told_at_most_once(step.phase, events.drop_first());
        if step.effect is TellPeer {
            law_ended_receiver_stays_ended(step.phase, events.drop_first());
        }
    }
}

/// Over any history the reader is given at most one failure, and after it only the end of the
/// stream.
pub proof fn law_failure_is_delivered_once(
    phase: RecvPhase,
    error: ReadError,
    events: Seq<RecvEvent>,
)
    ensures
        failures_delivered(phase, events) <= 1,
        chunk_recv(Err(error)).effect == RecvEffect::Deliver(Err(incoming_read_error(error))),
        poll_recv(recv_run(chunk_recv(Err(error)).phase, events)).effect == RecvEffect::Deliver(
            Ok(None),
        ),
    decreases events.len(),
{
    law_ended_receiver_stays_ended(chunk_recv(Err(error)).phase, events);
    if events.len() != 0 {
        let step = recv_step(phase, events.first());
        law_failure_is_delivered_once(step.phase, error, events.drop_first());
        if step.effect matches RecvEffect::Deliver(Err(_)) {
            law_ended_receiver_stays_ended(step.phase, events.drop_first());
        }
    }
}

/// Every chunk that was read reaches the reader, unchanged and in order, and nothing else does.
pub proof fn law_chunks_are_delivered_in_order(phase: RecvPhase, events: Seq<RecvEvent>)
    requires
        recv_possible(phase, events),
    ensures
        chunks_delivered(phase, events) == chunks_read(events),
    decreases events.len(),
{
    if events.len() != 0 {
        law_chunks_are_delivered_in_order(
            recv_step(phase, events.first()).phase,
            events.drop_first(),
        );
    }
}

/// A new receiver has the given number, holds the given QUIC stream, and its first poll starts a
/// read of it, whatever the number.
pub proof fn law_new_receiver_can_be_read<S, F, G: FnOnce(S) -> F>(
    stream: S,
    number: u64,
    made: RecvStream<S, F>,
    recv: &mut RecvStream<S, F>,
    start: G,
    read: Option<&mut F>,
)
    requires
        call_ensures(RecvStream::<S, F>::new, (stream, number), made),
        *old(recv) == made,
        call_ensures(RecvStream::<S, F>::poll_data::<G>, (recv, start), read),
    ensures
        number < 0x4000_0000_0000_0000 ==> call_requires(
            RecvStream::<S, F>::new,
            (stream, number),
        ),
        made.recv_id == number,
        made.state == RecvStreamState::<S, F>::Idle(stream),
        read matches Some(started) && call_ensures(start, (stream,), *started),
{
}

/// A poll gives the end of the stream exactly where it was stopped, read to its end, or failed, and
/// changes nothing then. Otherwise it gives the read in flight, or starts one of the QUIC stream,
/// and keeps it.
pub proof fn law_poll_reads_until_the_end<S, F, G: FnOnce(S) -> F>(
    recv: &mut RecvStream<S, F>,
    start: G,
    read: Option<&mut F>,
)
    requires
        call_ensures(RecvStream::<S, F>::poll_data::<G>, (recv, start), read),
    ensures
        read is None <==> old(recv).state is Stopped || old(recv).state is Drained || old(recv).state is Failed,
        read is None ==> *final(recv) == *old(recv),
        read matches Some(kept) ==> final(recv).state == RecvStreamState::<S, F>::Reading(
            *final(kept),
        ),
        old(recv).state matches RecvStreamState::Reading(waiting) ==> read matches Some(given)
            && *given == waiting,
        old(recv).state matches RecvStreamState::Idle(stream) ==> read matches Some(started)
            && call_ensures(start, (stream,), *started),
        final(recv).recv_id == old(recv).recv_id,
{
}

/// A chunk is delivered as it was read and leaves the stream to be read on; the end is given, and
/// the stream drained, exactly where the peer finished it; a failure is given, and the stream
/// failed, exactly where the read failed.
pub proof fn law_read_results_are_delivered<S, F>(
    recv: &mut RecvStream<S, F>,
    stream: S,
    chunk: Result<Option<Bytes>, ReadError>,
    data: Result<Option<Bytes>, StreamErrorIncoming>,
    error: ReadError,
    incoming: StreamErrorIncoming,
)
    requires
        call_ensures(RecvStream::<S, F>::on_chunk, (recv, stream, chunk), data),
        call_ensures(convert_read_error_to_stream_error, (error,), incoming),
    ensures
        chunk matches Ok(Some(bytes)) ==> data == Ok::<Option<Bytes>, StreamErrorIncoming>(
            Some(bytes),
        ) && final(recv).state == RecvStreamState::<S, F>::Idle(stream),
        final(recv).state is Drained <==> chunk == Ok::<Option<Bytes>, ReadError>(None),
        final(recv).state is Drained ==> data == Ok::<Option<Bytes>, StreamErrorIncoming>(None),
        final(recv).state is Failed <==> chunk is Err,
        chunk == Err::<Option<Bytes>, ReadError>(error) ==> data == Err::<
            Option<Bytes>,
            StreamErrorIncoming,
        >(incoming),
        final(recv).recv_id == old(recv).recv_id,
{
}

/// A stream that delivered a chunk, of whatever length, has not ended: its next poll starts another
/// read of the same QUIC stream.
pub proof fn law_stream_is_read_on_after_a_chunk<S, F, G: FnOnce(S) -> F>(
    recv: &mut RecvStream<S, F>,
    stream: S,
    bytes: Bytes,
    data: Result<Option<Bytes>, StreamErrorIncoming>,
    again: &mut RecvStream<S, F>,
    start: G,
    read: Option<&mut F>,
)
    requires
        call_ensures(RecvStream::<S, F>::on_chunk, (recv, stream, Ok(Some(bytes))), data),
        *old(again) == *final(recv),
        call_ensures(RecvStream::<S, F>::poll_data::<G>, (again, start), read),
    ensures
        data == Ok::<Option<Bytes>, StreamErrorIncoming>(Some(bytes)),
        read matches Some(started) && call_ensures(start, (stream,), *started),
{
}

/// Over any history without the peer's finish, a failed read or a stop, a stream that was open stays
/// open, so that no poll gives its end.
pub proof fn law_stream_ends_only_for_a_reason(phase: RecvPhase, events: Seq<RecvEvent>)
    requires
        phase is Idle || phase is Reading,
        forall|i: int|
            0 <= i < events.len() ==> (#[trigger] events[i] is Poll || (events[i]
                matches RecvEvent::Chunk(chunk) && chunk is Ok && chunk->Ok_0 is Some)),
    ensures
        recv_run(phase, events) is Idle || recv_run(phase, events) is Reading,
        !(poll_recv(recv_run(phase, events)).effect is Deliver),
    decreases events.len(),
{
    if events.len() != 0 {
        let rest = events.drop_first();
        assert(events[0] is Poll || events[0] is Chunk);
        assert(forall|i: int| 0 <= i < rest.len() ==> rest[i] == events[i + 1]);
        law_stream_ends_only_for_a_reason(recv_step(phase, events.first()).phase, rest);
    }
}

/// A stop is accepted with every code below `2^62`. It hands out what a stream that has not ended
/// holds, with that code, and ends it; a stream that has ended it leaves as it is.
pub proof fn law_stop_hands_out_the_stream<S, F>(
    recv: &mut RecvStream<S, F>,
    code: u64,
    stop: Option<StopSending<S, F>>,
)
    requires
        call_ensures(RecvStream::<S, F>::stop_sending, (recv, code), stop),
    ensures
        code < 0x4000_0000_0000_0000 ==> call_requires(
            RecvStream::<S, F>::stop_sending,
            (recv, code),
        ),
        stop is Some <==> old(recv).state is Idle || old(recv).state is Reading,
        stop matches Some(told) ==> told.code == code && final(recv).state is Stopped,
        old(recv).state matches RecvStreamState::Idle(stream) ==> stop matches Some(told)
            && told.stream == Halted::<S, F>::Idle(stream),
        old(recv).state matches RecvStreamState::Reading(read) ==> stop matches Some(told)
            && told.stream == Halted::<S, F>::Reading(read),
        stop is None ==> *final(recv) == *old(recv),
        final(recv).recv_id == old(recv).recv_id,
{
}

/// After a stop every poll gives the end of the stream at once.
pub proof fn law_stopped_stream_gives_its_end<S, F, G: FnOnce(S) -> F>(
    recv: &mut RecvStream<S, F>,
    code: u64,
    stop: Option<StopSending<S, F>>,
    again: &mut RecvStream<S, F>,
    start: G,
    read: Option<&mut F>,
)
    requires
        call_ensures(RecvStream::<S, F>::stop_sending, (recv, code), stop),
        *old(again) == *final(recv),
        call_ensures(RecvStream::<S, F>::poll_data::<G>, (again, start), read),
    ensures
        read is None,
        *final(again) == *old(again),
{
}

/// The identifier is the one that the stream was made with.
pub proof fn law_identifier_is_kept<S, F>(
    stream: S,
    number: u64,
    recv: RecvStream<S, F>,
    id: u64,
)
    requires
        call_ensures(RecvStream::<S, F>::new, (stream, number), recv),
        call_ensures(RecvStream::<S, F>::recv_id, (&recv,), id),
    ensures
        id == number,
{
}

} // verus!
