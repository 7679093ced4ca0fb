use vstd::prelude::*;

use crate::error::{FastTextError, ProtocolViolation};
use crate::protocol::{adapted, handle_result, NativeResult};

verus! {

/// Ends a dimension query: the model's dimension as the native side reported
/// it, or the native error.
pub fn dimension_from_reply(reply: NativeResult<i32>) -> (out: Result<i32, FastTextError>)
    ensures
        out == adapted(reply),
{
    handle_result(reply)
}

/// The length of the vectors of a model of dimension `d`, or a protocol error
/// where `d` is negative and so cannot size a vector.
pub open spec fn vector_len_of(d: i32) -> Result<usize, FastTextError> {
    if d < 0 {
        Err(FastTextError::Protocol(ProtocolViolation::NegativeDimension(d)))
    } else {
        Ok(d as usize)
    }
}

/// Sizes the buffer that a vector query hands to the native side to fill.
pub fn vector_len(d: i32) -> (out: Result<usize, FastTextError>)
    ensures
        out == vector_len_of(d),
{
    if d < 0 {
        Err(FastTextError::Protocol(ProtocolViolation::NegativeDimension(d)))
    } else {
        Ok(d as usize)
    }
}

/// Ends a vector query: `filled`, allocated with the model's dimension and
/// filled in place by the native side, is the result unless the native side
/// reported an error.
pub fn finish_vector<V>(dimension: usize, filled: Vec<V>, reply: NativeResult<()>) -> (out: Result<
    Vec<V>,
    FastTextError,
>)
    requires
        filled@.len() == dimension,
    ensures
        match reply.error {
            Some(m) => out == Err::<Vec<V>, FastTextError>(FastTextError::Native(m)),
            None => out is Ok && out->Ok_0@ == filled@ && out->Ok_0@.len() == dimension,
        },
{
    match handle_result(reply) {
        Ok(_) => Ok(filled),
        Err(e) => Err(e),
    }
}

} // verus!
