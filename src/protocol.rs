use vstd::prelude::*;

use crate::error::FastTextError;

verus! {

/// A native result envelope, with its error text already copied out of native
/// memory: `error` is `None` where the native error pointer was null.
#[derive(Debug, Clone)]
pub struct NativeResult<T> {
    pub result: T,
    pub error: Option<String>,
}

/// What the adapter makes of an envelope: the payload where no error was
/// reported, and the native message otherwise.
pub open spec fn adapted<T>(r: NativeResult<T>) -> Result<T, FastTextError> {
    match r.error {
        Some(m) => Err(FastTextError::Native(m)),
        None => Ok(r.result),
    }
}

/// The single gate through which every native envelope passes: the payload is
/// handed out only where the error indicator is absent.
pub fn handle_result<T>(r: NativeResult<T>) -> (out: Result<T, FastTextError>)
    ensures
        out == adapted(r),
{
    match r.error {
        Some(m) => Err(FastTextError::Native(m)),
        None => Ok(r.result),
    }
}

} // verus!
