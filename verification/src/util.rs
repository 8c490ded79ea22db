//! Interpreting OS call results.

use vstd::prelude::*;

verus! {

/// Marker for a failed OS call; the platform layer attaches the OS's own
/// error details when it sees one.
#[derive(Debug, Copy, Clone, PartialEq, Eq, Structural)]
pub struct OsFailure;

/// Interprets an OS call's integer result: zero signals failure, anything
/// else success.
pub fn validate(result: i32) -> (r: Result<(), OsFailure>)
    ensures
        r is Err <==> result == 0,
{
    if result == 0 {
        Err(OsFailure)
    } else {
        Ok(())
    }
}

} // verus!
