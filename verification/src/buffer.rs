//! Byte buffers of the `bytes`, `h3` and `http-body-util` crates, and what the library relies on
//! of each.

use bytes::{Buf, Bytes};
use h3::quic::WriteBuf;
use http_body_util::Full;
use vstd::prelude::*;

verus! {

/// `bytes::Bytes`, a cheaply clonable slice of bytes.
#[verifier::external_type_specification]
#[verifier::external_body]
pub struct ExBytes(Bytes);

/// `h3::quic::WriteBuf`, an encoded frame header followed by its payload.
#[verifier::external_type_specification]
#[verifier::external_body]
#[verifier::reject_recursive_types(B)]
pub struct ExWriteBuf<B>(WriteBuf<B>);

/// `http_body_util::Full`, a body that is one chunk.
#[verifier::external_type_specification]
#[verifier::external_body]
#[verifier::reject_recursive_types(D)]
pub struct ExFull<D>(Full<D>);

/// The bytes that a `Bytes` holds.
pub uninterp spec fn bytes_contents(bytes: Bytes) -> Seq<u8>;

/// The bytes of a `WriteBuf` that have not been consumed yet.
pub uninterp spec fn write_buf_contents(buf: WriteBuf<Bytes>) -> Seq<u8>;

/// The bytes that a `Full` body has yet to yield.
pub uninterp spec fn full_contents(body: Full<Bytes>) -> Seq<u8>;

/// `Bytes::new` holds nothing.
pub assume_specification[ Bytes::new ]() -> (bytes: Bytes)
    ensures
        bytes_contents(bytes) == Seq::<u8>::empty(),
;

/// `Bytes::is_empty` tells whether the buffer has length zero.
pub assume_specification[ Bytes::is_empty ](bytes: &Bytes) -> (empty: bool)
    ensures
        empty == (bytes_contents(*bytes).len() == 0),
;

/// `Bytes::from` of a vector holds the vector's bytes.
pub assume_specification[ <Bytes as From<Vec<u8>>>::from ](data: Vec<u8>) -> (bytes: Bytes)
    ensures
        bytes_contents(bytes) == data@,
;

/// Calls `Bytes::as_ref`: the slice is the buffer's contents.
#[verifier::external_body]
pub(crate) fn bytes_as_slice(bytes: &Bytes) -> (slice: &[u8])
    ensures
        slice@ == bytes_contents(*bytes),
{
    bytes.as_ref()
}

/// Calls `Full::new`: the body yields the given bytes.
#[verifier::external_body]
pub(crate) fn full_body(bytes: Bytes) -> (body: Full<Bytes>)
    ensures
        full_contents(body) == bytes_contents(bytes),
{
    Full::new(bytes)
}

/// Calls `Buf::has_remaining` on a `WriteBuf`: true while a byte is left.
#[verifier::external_body]
pub(crate) fn write_buf_has_remaining(buf: &WriteBuf<Bytes>) -> (left: bool)
    ensures
        left == (write_buf_contents(*buf).len() > 0),
{
    buf.has_remaining()
}

/// Calls `Buf::chunk` on a `WriteBuf`: the slice starts what is left, and is empty only where
/// nothing is left.
#[verifier::external_body]
pub(crate) fn write_buf_chunk(buf: &WriteBuf<Bytes>) -> (chunk: &[u8])
    ensures
        chunk@.is_prefix_of(write_buf_contents(*buf)),
        chunk@.len() == 0 ==> write_buf_contents(*buf).len() == 0,
{
    buf.chunk()
}

/// Calls `Buf::advance` on a `WriteBuf`: the first `count` bytes of what is left are consumed.
#[verifier::external_body]
pub(crate) fn write_buf_advance(buf: &mut WriteBuf<Bytes>, count: usize)
    requires
        count <= write_buf_contents(*old(buf)).len(),
    ensures
        write_buf_contents(*final(buf)) == write_buf_contents(*old(buf)).skip(count as int),
{
    buf.advance(count)
}

} // verus!
