//! The integers that QUIC and HTTP/3 put on the wire: error codes and stream identifiers.

use h3::error::Code;
use h3::quic::StreamId;
use iroh::endpoint::VarInt;
use vstd::prelude::*;

verus! {

/// One past the largest value of a QUIC variable-length integer, `2^62`.
pub const VAR_INT_BOUND: u64 = 0x4000_0000_0000_0000;

/// The HTTP/3 error code `H3_REQUEST_CANCELLED`.
pub const REQUEST_CANCEL_CODE: u64 = 0x10c;

/// Calls `iroh::endpoint::VarInt::from_u64`: it accepts exactly the values below `2^62` and keeps
/// them as they are.
#[verifier::external_body]
fn var_int_from_u64(value: u64) -> (code: Option<u64>)
    ensures
        code == if value < VAR_INT_BOUND {
            Some(value)
        } else {
            None
        },
{
    VarInt::from_u64(value).ok().map(|code| code.into_inner())
}

/// Reads `iroh::endpoint::VarInt::MAX`, which is `2^62 - 1`.
#[verifier::external_body]
fn var_int_max() -> (code: u64)
    ensures
        code == VAR_INT_BOUND - 1,
{
    VarInt::MAX.into_inner()
}

/// Calls `h3::quic::StreamId::try_from`: it accepts exactly the values below `2^62` and keeps them
/// as they are.
#[verifier::external_body]
fn stream_id_from_u64(value: u64) -> (id: Option<u64>)
    ensures
        id == if value < VAR_INT_BOUND {
            Some(value)
        } else {
            None
        },
{
    StreamId::try_from(value).ok().map(|id| id.into_inner())
}

/// Calls `h3::error::Code::value` on `H3_REQUEST_CANCELLED`, whose code is `0x10c`.
#[verifier::external_body]
pub(crate) fn request_cancel_code() -> (code: u64)
    ensures
        code == REQUEST_CANCEL_CODE,
{
    Code::H3_REQUEST_CANCELLED.value()
}

/// The error code to put on the wire for `code`, which has to fit a variable-length integer.
pub fn error_code(code: u64) -> (wire: u64)
    requires
        code < VAR_INT_BOUND,
    ensures
        wire == code,
{
    match var_int_from_u64(code) {
        Some(wire) => wire,
        None => code,
    }
}

/// The error code to put on the wire for `code`, or the largest one where `code` does not fit.
pub fn saturating_error_code(code: u64) -> (wire: u64)
    ensures
        wire == if code < VAR_INT_BOUND {
            code as int
        } else {
            VAR_INT_BOUND - 1
        },
        wire < VAR_INT_BOUND,
{
    match var_int_from_u64(code) {
        Some(wire) => wire,
        None => var_int_max(),
    }
}

/// The HTTP/3 identifier of the QUIC stream numbered `number`.
pub fn stream_id(number: u64) -> (id: u64)
    requires
        number < VAR_INT_BOUND,
    ensures
        id == number,
{
    match stream_id_from_u64(number) {
        Some(id) => id,
        None => number,
    }
}

/// Every code below `2^62` is accepted, and goes on the wire as it is.
pub proof fn law_error_codes_are_kept(code: u64, wire: u64)
    requires
        call_ensures(error_code, (code,), wire),
    ensures
        code < 0x4000_0000_0000_0000 ==> call_requires(error_code, (code,)),
        wire == code,
{
}

/// A code that fits goes on the wire as it is, what goes on the wire always fits, and a larger code
/// never gives a smaller one.
pub proof fn law_saturated_codes_fit(code: u64, wire: u64, larger: u64, larger_wire: u64)
    requires
        call_ensures(saturating_error_code, (code,), wire),
        call_ensures(saturating_error_code, (larger,), larger_wire),
        code <= larger,
    ensures
        code < 0x4000_0000_0000_0000 ==> wire == code,
        wire < 0x4000_0000_0000_0000,
        code >= 0x4000_0000_0000_0000 ==> wire == 0x3fff_ffff_ffff_ffff,
        wire <= larger_wire,
{
}

/// Every stream number below `2^62` has an identifier, and it is that number.
pub proof fn law_stream_ids_are_kept(number: u64, id: u64)
    requires
        call_ensures(stream_id, (number,), id),
    ensures
        number < 0x4000_0000_0000_0000 ==> call_requires(stream_id, (number,)),
        id == number,
{
}

} // verus!
