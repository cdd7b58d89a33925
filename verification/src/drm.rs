//! Entitlement checks of the DRM layer. Nothing is implemented behind them yet.

use vstd::prelude::*;

verus! {

/// Why an entitlement check gave no answer.
#[derive(Clone, Copy, Debug, PartialEq, Eq, Structural)]
pub enum DrmError {
    Unimplemented,
}

impl DrmError {
    /// The error in words.
    pub fn message(&self) -> (text: &'static str)
        ensures
            text@ == "unimplemented"@,
    {
        "unimplemented"
    }
}

/// Whether a user is entitled. There is no backend to ask, so every user gets
/// the same answer: the check is unimplemented.
pub fn check_entitlement(_user: &str) -> (r: Result<bool, DrmError>)
    ensures
        r == Err::<bool, DrmError>(DrmError::Unimplemented),
{
    Err(DrmError::Unimplemented)
}

} // verus!
