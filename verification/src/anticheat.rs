//! Status of the anti-cheat runtime. Nothing is implemented behind it yet.

use vstd::prelude::*;

verus! {

/// Why the anti-cheat runtime gave no status.
#[derive(Clone, Copy, Debug, PartialEq, Eq, Structural)]
pub enum AcError {
    Unimplemented,
}

impl AcError {
    /// The error in words.
    pub fn message(&self) -> (text: &'static str)
        ensures
            text@ == "unimplemented"@,
    {
        "unimplemented"
    }
}

/// The status of the running session. There is no runtime to ask, so the answer
/// is always that this is unimplemented.
pub fn session_status() -> (r: Result<&'static str, AcError>)
    ensures
        r is Err,
        r->Err_0 == AcError::Unimplemented,
{
    Err(AcError::Unimplemented)
}

} // verus!
