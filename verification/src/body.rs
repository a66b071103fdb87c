//! Request and response bodies.

use crate::buffer::{bytes_as_slice, full_body};
#[allow(unused_imports)]
use crate::buffer::{bytes_contents, full_contents};
use crate::error::Error;
use bytes::Bytes;
use http_body_util::Full;
use vstd::prelude::*;

verus! {

/// What a body is made of.
#[derive(Debug)]
pub enum Inner<S, C> {
    /// A fixed set of bytes.
    Fixed(Bytes),
    /// A streaming body.
    Stream(S),
    /// A response body whose request can be cancelled.
    CancellableH3(C),
}

/// An HTTP/3 body that can be either a fixed set of bytes or a streaming body. `S` is a streaming
/// body and `C` a response body whose request can be cancelled.
#[derive(Debug)]
pub struct Body<S, C> {
    /// What the body is made of.
    pub inner: Inner<S, C>,
}

/// What a body stands for.
pub enum BodyView<S, C> {
    /// These bytes.
    Fixed(Seq<u8>),
    /// This streaming body.
    Stream(S),
    /// This response body.
    CancellableH3(C),
}

/// A body as a stream.
pub enum BodyStream<S, C> {
    /// The streaming body that it was.
    Stream(S),
    /// Fixed bytes in one chunk.
    Full(Full<Bytes>),
    /// A response body, to be read in the way that does not notice cancellation.
    Legacy(LegacyCompatibleH3ResponseBody<C>),
}

/// A response body that is read without noticing cancellation.
#[derive(Debug)]
pub struct LegacyCompatibleH3ResponseBody<C> {
    /// The body, as long as it is held.
    pub body: Option<C>,
}

impl<C> LegacyCompatibleH3ResponseBody<C> {
    /// Reads `body` without noticing cancellation.
    pub fn new(body: C) -> (legacy: Self)
        ensures
            legacy.body == Some(body),
    {
        LegacyCompatibleH3ResponseBody { body: Some(body) }
    }
}

/// What it takes to get all the bytes of a body.
pub enum BodyBytes<S, C> {
    /// Nothing: here they are.
    Ready(Bytes),
    /// To collect them from the stream, with a [`BodyCollector`].
    Collect(BodyStream<S, C>),
}

impl<S, C> View for Body<S, C> {
    type V = BodyView<S, C>;

    open spec fn view(&self) -> BodyView<S, C> {
        match self.inner {
            Inner::Fixed(bytes) => BodyView::Fixed(bytes_contents(bytes)),
            Inner::Stream(stream) => BodyView::Stream(stream),
            Inner::CancellableH3(body) => BodyView::CancellableH3(body),
        }
    }
}

/// The empty body.
pub open spec fn empty_body<S, C>() -> BodyView<S, C> {
    BodyView::Fixed(Seq::empty())
}

impl<S, C> Body<S, C> {
    /// Create an empty body.
    pub fn empty() -> (body: Self)
        ensures
            body@ == empty_body::<S, C>(),
    {
        Body { inner: Inner::Fixed(Bytes::new()) }
    }

    /// Create a body from the given bytes.
    pub fn bytes(bytes: Bytes) -> (body: Self)
        ensures
            body@ == BodyView::<S, C>::Fixed(bytes_contents(bytes)),
    {
        Body { inner: Inner::Fixed(bytes) }
    }

    /// Create a body from a streaming body.
    pub fn stream(stream: S) -> (body: Self)
        ensures
            body@ == BodyView::<S, C>::Stream(stream),
    {
        Body { inner: Inner::Stream(stream) }
    }

    /// Create a body from a response body whose request can be cancelled.
    pub fn cancellable_h3(body: C) -> (wrapped: Self)
        ensures
            wrapped@ == BodyView::<S, C>::CancellableH3(body),
    {
        Body { inner: Inner::CancellableH3(body) }
    }

    /// Consume the body and return its contents as bytes, or the stream that they have to be
    /// collected from.
    pub fn into_bytes(self) -> (bytes: BodyBytes<S, C>)
        ensures
            match self@ {
                BodyView::Fixed(contents) => bytes matches BodyBytes::Ready(ready)
                    && bytes_contents(ready) == contents,
                BodyView::Stream(stream) => bytes == BodyBytes::<S, C>::Collect(
                    BodyStream::Stream(stream),
                ),
                BodyView::CancellableH3(body) => bytes == BodyBytes::<S, C>::Collect(
                    BodyStream::Legacy(LegacyCompatibleH3ResponseBody { body: Some(body) }),
                ),
            },
    {
        match self.inner {
            Inner::Fixed(bytes) => BodyBytes::Ready(bytes),
            Inner::Stream(stream) => BodyBytes::Collect(BodyStream::Stream(stream)),
            Inner::CancellableH3(body) => BodyBytes::Collect(
                BodyStream::Legacy(LegacyCompatibleH3ResponseBody::new(body)),
            ),
        }
    }

    /// Consume the body and return it as a streaming body.
    pub fn into_stream(self) -> (stream: BodyStream<S, C>)
        ensures
            match self@ {
                BodyView::Fixed(contents) => stream matches BodyStream::Full(full)
                    && full_contents(full) == contents,
                BodyView::Stream(inner) => stream == BodyStream::<S, C>::Stream(inner),
                BodyView::CancellableH3(body) => stream == BodyStream::<S, C>::Legacy(
                    LegacyCompatibleH3ResponseBody { body: Some(body) },
                ),
            },
    {
        match self.inner {
            Inner::Stream(stream) => BodyStream::Stream(stream),
            Inner::Fixed(bytes) => BodyStream::Full(full_body(bytes)),
            Inner::CancellableH3(body) => BodyStream::Legacy(
                LegacyCompatibleH3ResponseBody::new(body),
            ),
        }
    }

    /// The bytes of a fixed body, for a cancellable request. Any other body is refused.
    pub fn into_fixed_bytes_for_cancellable_request<E>(self) -> (bytes: Result<Bytes, Error<E>>)
        ensures
            match self@ {
                BodyView::Fixed(contents) => bytes matches Ok(fixed) && bytes_contents(fixed)
                    == contents,
                _ => bytes == Err::<Bytes, Error<E>>(Error::RequestBodyNotCancellable),
            },
    {
        match self.inner {
            Inner::Fixed(bytes) => Ok(bytes),
            Inner::Stream(_) | Inner::CancellableH3(_) => Err(Error::RequestBodyNotCancellable),
        }
    }

    /// The response body whose request can be cancelled. Any other body is refused.
    pub fn into_cancellable_h3<E>(self) -> (body: Result<C, Error<E>>)
        ensures
            body == match self@ {
                BodyView::CancellableH3(inner) => Ok::<C, Error<E>>(inner),
                _ => Err(Error::BodyNotCancellable),
            },
    {
        match self.inner {
            Inner::CancellableH3(body) => Ok(body),
            Inner::Fixed(_) | Inner::Stream(_) => Err(Error::BodyNotCancellable),
        }
    }

    /// Take the body, replacing it with an empty body.
    pub fn take(&mut self) -> (taken: Self)
        ensures
            taken == *old(self),
            final(self)@ == empty_body::<S, C>(),
    {
        let mut taken = Self::empty();
        std::mem::swap(self, &mut taken);
        taken
    }
}

impl<S, C> Default for Body<S, C> {
    /// The empty body.
    fn default() -> (body: Self)
        ensures
            body@ == empty_body::<S, C>(),
    {
        Body::empty()
    }
}

/// Collects the chunks of a streaming body.
#[derive(Debug)]
pub struct BodyCollector {
    /// The bytes so far.
    pub buffer: Vec<u8>,
}

/// What an item of a streaming body does to its collection.
pub struct CollectStep<E> {
    /// The bytes so far.
    pub buffer: Seq<u8>,
    /// The result of the whole, once it is known.
    pub done: Option<Result<Seq<u8>, E>>,
}

/// What `item`, `None` being the end of the stream, does to a collection that holds `buffer`: a
/// chunk is added, a failure is the result, and at the end all the bytes are.
pub open spec fn collect_step<E>(buffer: Seq<u8>, item: Option<Result<Bytes, E>>) -> CollectStep<
    E,
> {
    match item {
        Some(Ok(chunk)) => CollectStep { buffer: buffer + bytes_contents(chunk), done: None },
        Some(Err(error)) => CollectStep { buffer, done: Some(Err(error)) },
        None => CollectStep { buffer: Seq::empty(), done: Some(Ok(buffer)) },
    }
}

/// A result with the bytes that it holds.
pub open spec fn result_contents<E>(done: Option<Result<Bytes, E>>) -> Option<
    Result<Seq<u8>, E>,
> {
    match done {
        Some(Ok(bytes)) => Some(Ok(bytes_contents(bytes))),
        Some(Err(error)) => Some(Err(error)),
        None => None,
    }
}

impl BodyCollector {
    /// A collector without bytes.
    pub fn new() -> (collector: Self)
        ensures
            collector.buffer@ == Seq::<u8>::empty(),
    {
        BodyCollector { buffer: Vec::new() }
    }

    /// Takes the next item of the stream, `None` being its end. Gives the result of the whole
    /// once it is known: all the bytes at the end of the stream, or the first failure.
    pub fn collect<E>(&mut self, item: Option<Result<Bytes, E>>) -> (done: Option<Result<Bytes, E>>)
        ensures
            final(self).buffer@ == collect_step(old(self).buffer@, item).buffer,
            result_contents(done) == collect_step(old(self).buffer@, item).done,
    {
        match item {
            Some(Ok(chunk)) => {
                self.buffer.extend_from_slice(bytes_as_slice(&chunk));
                None
            },
            Some(Err(error)) => Some(Err(error)),
            None => {
                let mut buffer: Vec<u8> = Vec::new();
                std::mem::swap(&mut self.buffer, &mut buffer);
                Some(Ok(Bytes::from(buffer)))
            },
        }
    }
}

/// The bytes of `chunks`, one after the other.
pub open spec fn joined(chunks: Seq<Bytes>) -> Seq<u8>
    decreases chunks.len(),
{
    if chunks.len() == 0 {
        Seq::empty()
    } else {
        joined(chunks.drop_last()) + bytes_contents(chunks.last())
    }
}

/// What a [`BodyCollector`] that holds `buffer` makes of a stream of these items: the first failure,
/// or all the bytes.
pub open spec fn collected<E>(buffer: Seq<u8>, items: Seq<Result<Bytes, E>>) -> Result<Seq<u8>, E>
    decreases items.len(),
{
    if items.len() == 0 {
        collect_step::<E>(buffer, None).done->0
    } else {
        let step = collect_step(buffer, Some(items.first()));
        match step.done {
            Some(result) => result,
            None => collected(step.buffer, items.drop_first()),
        }
    }
}

/// A stream without failures is collected to its chunks, one after the other.
pub proof fn law_collecting_joins_the_chunks<E>(
    buffer: Seq<u8>,
    items: Seq<Result<Bytes, E>>,
    chunks: Seq<Bytes>,
)
    requires
        items.len() == chunks.len(),
        forall|i: int| 0 <= i < chunks.len() ==> #[trigger] items[i] == Ok::<Bytes, E>(chunks[i]),
    ensures
        collected(buffer, items) == Ok::<Seq<u8>, E>(buffer + joined(chunks)),
    decreases items.len(),
{
    if items.len() == 0 {
        assert(buffer + joined(chunks) =~= buffer);
    } else {
        let first = bytes_contents(chunks.first());
        assert(items.first() == items[0]);
        assert(forall|i: int| 0 <= i < items.len() - 1 ==> items.drop_first()[i] == items[i + 1]);
        law_collecting_joins_the_chunks(buffer + first, items.drop_first(), chunks.drop_first());
        lemma_joined_from_the_front(chunks);
        assert((buffer + first) + joined(chunks.drop_first()) =~= buffer + (first + joined(
            chunks.drop_first(),
        )));
    }
}

/// Joining starts with the first chunk.
proof fn lemma_joined_from_the_front(chunks: Seq<Bytes>)
    requires
        chunks.len() > 0,
    ensures
        joined(chunks) == bytes_contents(chunks.first()) + joined(chunks.drop_first()),
    decreases chunks.len(),
{
    let first = bytes_contents(chunks.first());
    if chunks.len() == 1 {
        assert(chunks.drop_last() =~= Seq::<Bytes>::empty());
        assert(chunks.drop_first() =~= Seq::<Bytes>::empty());
        assert(joined(chunks) =~= first + joined(chunks.drop_first()));
    } else {
        lemma_joined_from_the_front(chunks.drop_last());
        assert(chunks.drop_last().drop_first() =~= chunks.drop_first().drop_last());
        assert(joined(chunks) =~= first + joined(chunks.drop_first()));
    }
}

/// A stream is collected to its first failure, whatever comes before or after it.
pub proof fn law_collecting_stops_at_the_first_failure<E>(
    buffer: Seq<u8>,
    items: Seq<Result<Bytes, E>>,
    failure: int,
)
    requires
        0 <= failure < items.len(),
        items[failure] is Err,
        forall|i: int| 0 <= i < failure ==> #[trigger] items[i] is Ok,
    ensures
        collected(buffer, items) == Err::<Seq<u8>, E>(items[failure]->Err_0),
    decreases items.len(),
{
    if failure > 0 {
        let chunk = items[0]->Ok_0;
        assert(items[0] is Ok);
        assert(forall|i: int| 0 <= i < items.len() - 1 ==> items.drop_first()[i] == items[i + 1]);
        law_collecting_stops_at_the_first_failure(
            buffer + bytes_contents(chunk),
            items.drop_first(),
            failure - 1,
        );
    }
}

/// What a body is made from is what it gives back as bytes: fixed bytes at once, whatever their
/// length, and a stream or a response body to be collected.
pub proof fn law_body_gives_its_bytes_back<S, C>(
    bytes: Bytes,
    stream: S,
    response: C,
    bodies: (Body<S, C>, Body<S, C>, Body<S, C>, Body<S, C>),
    results: (BodyBytes<S, C>, BodyBytes<S, C>, BodyBytes<S, C>, BodyBytes<S, C>),
)
    requires
        call_ensures(Body::<S, C>::bytes, (bytes,), bodies.0),
        call_ensures(Body::<S, C>::stream, (stream,), bodies.1),
        call_ensures(Body::<S, C>::cancellable_h3, (response,), bodies.2),
        call_ensures(Body::<S, C>::empty, (), bodies.3),
        call_ensures(Body::<S, C>::into_bytes, (bodies.0,), results.0),
        call_ensures(Body::<S, C>::into_bytes, (bodies.1,), results.1),
        call_ensures(Body::<S, C>::into_bytes, (bodies.2,), results.2),
        call_ensures(Body::<S, C>::into_bytes, (bodies.3,), results.3),
    ensures
        results.0 matches BodyBytes::Ready(given) && bytes_contents(given) == bytes_contents(bytes),
        results.1 matches BodyBytes::Collect(BodyStream::Stream(given)) && given == stream,
        results.2 matches BodyBytes::Collect(BodyStream::Legacy(legacy)) && legacy.body == Some(
            response,
        ),
        results.3 matches BodyBytes::Ready(given) && bytes_contents(given).len() == 0,
{
}

/// What a body is made from is what it streams: fixed bytes in one chunk, whatever their length, a
/// stream as it is, and a response body to be read without noticing cancellation.
pub proof fn law_body_streams_what_it_is_made_from<S, C>(
    bytes: Bytes,
    stream: S,
    response: C,
    bodies: (Body<S, C>, Body<S, C>, Body<S, C>, Body<S, C>),
    results: (BodyStream<S, C>, BodyStream<S, C>, BodyStream<S, C>, BodyStream<S, C>),
)
    requires
        call_ensures(Body::<S, C>::bytes, (bytes,), bodies.0),
        call_ensures(Body::<S, C>::stream, (stream,), bodies.1),
        call_ensures(Body::<S, C>::cancellable_h3, (response,), bodies.2),
        call_ensures(Body::<S, C>::empty, (), bodies.3),
        call_ensures(Body::<S, C>::into_stream, (bodies.0,), results.0),
        call_ensures(Body::<S, C>::into_stream, (bodies.1,), results.1),
        call_ensures(Body::<S, C>::into_stream, (bodies.2,), results.2),
        call_ensures(Body::<S, C>::into_stream, (bodies.3,), results.3),
    ensures
        results.0 matches BodyStream::Full(full) && full_contents(full) == bytes_contents(bytes),
        results.1 matches BodyStream::Stream(given) && given == stream,
        results.2 matches BodyStream::Legacy(legacy) && legacy.body == Some(response),
        results.3 matches BodyStream::Full(full) && full_contents(full).len() == 0,
{
}

/// A cancellable request sends exactly fixed bytes, and sends them whole; any other body it refuses.
pub proof fn law_cancellable_request_sends_fixed_bytes<S, C, E>(
    bytes: Bytes,
    stream: S,
    response: C,
    bodies: (Body<S, C>, Body<S, C>, Body<S, C>),
    results: (Result<Bytes, Error<E>>, Result<Bytes, Error<E>>, Result<Bytes, Error<E>>),
)
    requires
        call_ensures(Body::<S, C>::bytes, (bytes,), bodies.0),
        call_ensures(Body::<S, C>::stream, (stream,), bodies.1),
        call_ensures(Body::<S, C>::cancellable_h3, (response,), bodies.2),
        call_ensures(
            Body::<S, C>::into_fixed_bytes_for_cancellable_request::<E>,
            (bodies.0,),
            results.0,
        ),
        call_ensures(
            Body::<S, C>::into_fixed_bytes_for_cancellable_request::<E>,
            (bodies.1,),
            results.1,
        ),
        call_ensures(
            Body::<S, C>::into_fixed_bytes_for_cancellable_request::<E>,
            (bodies.2,),
            results.2,
        ),
    ensures
        results.0 matches Ok(fixed) && bytes_contents(fixed) == bytes_contents(bytes),
        results.1 matches Err(error) && error is RequestBodyNotCancellable,
        results.2 matches Err(error) && error is RequestBodyNotCancellable,
{
}

/// Only a response body can be cancelled, and it is given as it is; any other body is refused.
pub proof fn law_only_a_response_body_is_cancellable<S, C, E>(
    bytes: Bytes,
    stream: S,
    response: C,
    bodies: (Body<S, C>, Body<S, C>, Body<S, C>),
    results: (Result<C, Error<E>>, Result<C, Error<E>>, Result<C, Error<E>>),
)
    requires
        call_ensures(Body::<S, C>::bytes, (bytes,), bodies.0),
        call_ensures(Body::<S, C>::stream, (stream,), bodies.1),
        call_ensures(Body::<S, C>::cancellable_h3, (response,), bodies.2),
        call_ensures(Body::<S, C>::into_cancellable_h3::<E>, (bodies.0,), results.0),
        call_ensures(Body::<S, C>::into_cancellable_h3::<E>, (bodies.1,), results.1),
        call_ensures(Body::<S, C>::into_cancellable_h3::<E>, (bodies.2,), results.2),
    ensures
        results.0 matches Err(error) && error is BodyNotCancellable,
        results.1 matches Err(error) && error is BodyNotCancellable,
        results.2 == Ok::<C, Error<E>>(response),
{
}

/// Taking gives the whole body, whatever it is, and leaves one without bytes, like the default one.
pub proof fn law_take_leaves_an_empty_body<S, C>(
    body: &mut Body<S, C>,
    taken: Body<S, C>,
    left: BodyBytes<S, C>,
    default: Body<S, C>,
    default_bytes: BodyBytes<S, C>,
)
    requires
        call_ensures(Body::<S, C>::take, (body,), taken),
        call_ensures(Body::<S, C>::into_bytes, (*final(body),), left),
        call_ensures(Body::<S, C>::default, (), default),
        call_ensures(Body::<S, C>::into_bytes, (default,), default_bytes),
    ensures
        taken == *old(body),
        left matches BodyBytes::Ready(bytes) && bytes_contents(bytes).len() == 0,
        default_bytes matches BodyBytes::Ready(bytes) && bytes_contents(bytes).len() == 0,
{
}

/// A response body to be read without noticing cancellation holds that response body.
pub proof fn law_legacy_body_holds_its_response<C>(
    body: C,
    legacy: LegacyCompatibleH3ResponseBody<C>,
)
    requires
        call_ensures(LegacyCompatibleH3ResponseBody::<C>::new, (body,), legacy),
    ensures
        legacy.body == Some(body),
{
}

/// A collector starts without bytes. It adds every chunk whole behind what it has, whatever its
/// length, and goes on; it gives the first failure as it is; and at the end of the stream it gives
/// all that it has.
pub proof fn law_collector_keeps_every_byte<E>(
    made: BodyCollector,
    collector: &mut BodyCollector,
    item: Option<Result<Bytes, E>>,
    done: Option<Result<Bytes, E>>,
)
    requires
        call_ensures(BodyCollector::new, (), made),
        call_ensures(BodyCollector::collect::<E>, (collector, item), done),
    ensures
        made.buffer@.len() == 0,
        done is None <==> (item is Some && item->0 is Ok),
        item matches Some(Ok(chunk)) ==> final(collector).buffer@ == old(collector).buffer@
            + bytes_contents(chunk),
        item matches Some(Err(error)) ==> done == Some(Err::<Bytes, E>(error)),
        item is None ==> (done matches Some(Ok(bytes)) && bytes_contents(bytes) == old(collector).buffer@),
{
}

/// Two chunks and the end of the stream, collected one after the other, give the two chunks one
/// behind the other.
pub proof fn law_collector_joins_two_chunks<E>(
    first: &mut BodyCollector,
    second: &mut BodyCollector,
    third: &mut BodyCollector,
    chunks: (Bytes, Bytes),
    results: (Option<Result<Bytes, E>>, Option<Result<Bytes, E>>, Option<Result<Bytes, E>>),
)
    requires
        call_ensures(BodyCollector::new, (), *old(first)),
        call_ensures(BodyCollector::collect::<E>, (first, Some(Ok(chunks.0))), results.0),
        *old(second) == *final(first),
        call_ensures(BodyCollector::collect::<E>, (second, Some(Ok(chunks.1))), results.1),
        *old(third) == *final(second),
        call_ensures(BodyCollector::collect::<E>, (third, None), results.2),
    ensures
        results.0 is None && results.1 is None,
        results.2 matches Some(Ok(bytes)) && bytes_contents(bytes) == bytes_contents(chunks.0)
            + bytes_contents(chunks.1),
{
    assert(Seq::<u8>::empty() + bytes_contents(chunks.0) =~= bytes_contents(chunks.0));
}

} // verus!
