//! The simplified surface for game developers.

use vstd::prelude::*;
use crate::anticheat;
use crate::drm;

verus! {

/// Initialises the SDK and names what was initialised.
pub fn init() -> (name: &'static str)
    ensures
        name@ == "belladonna_play_init_stub"@,
{
    "belladonna_play_init_stub"
}

/// Whether a user is entitled; a check that gives no answer counts as no.
pub fn check_entitlement(user: &str) -> (entitled: bool)
    ensures
        !entitled,
{
    match drm::check_entitlement(user) {
        Ok(entitled) => entitled,
        Err(_) => false,
    }
}

/// The status of the anti-cheat session, or `uninit` where there is none.
pub fn status() -> (text: &'static str)
    ensures
        text@ == "uninit"@,
{
    match anticheat::session_status() {
        Ok(text) => text,
        Err(_) => "uninit",
    }
}

} // verus!
