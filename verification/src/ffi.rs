//! Values and codes of the C interface.

use vstd::prelude::*;
use crate::handle::{EntitlementCode, EntitlementResult, SdkHandle};

verus! {

/// Version of the C interface.
pub const ABI_VERSION: u32 = 1;

/// Success.
pub const BD_OK: i32 = 0;

/// The SDK could not be initialised.
pub const BD_ERR_INIT: i32 = 1;

/// Integrity monitoring could not be switched on.
pub const BD_ERR_INTEGRITY: i32 = 2;

/// The user is not entitled.
pub const BD_ERR_ENTITLEMENT: i32 = 3;

/// The user's licence has expired.
pub const BD_ERR_ENTITLEMENT_EXPIRED: i32 = 4;

/// A signature was rejected, or a signed file has changed.
pub const BD_ERR_SIGNATURE_INVALID: i32 = 5;

/// The licence cache is corrupt.
pub const BD_ERR_CACHE_CORRUPT: i32 = 6;

/// The network or the disk failed.
pub const BD_ERR_NETWORK: i32 = 7;

/// An envelope or a manifest is structurally broken.
pub const BD_ERR_FORMAT_INVALID: i32 = 8;

/// An argument is missing or empty.
pub const BD_ERR_INVALID_ARG: i32 = 100;

/// The caller's buffer is too small.
pub const BD_ERR_BUFFER_TOO_SMALL: i32 = 101;

/// The handle as a foreign caller sees it: nothing of it.
#[allow(non_camel_case_types)]
pub struct bd_handle {
    _priv: (),
}

/// The status that is written out to a foreign caller.
#[allow(non_camel_case_types)]
#[derive(Clone, Copy, Debug, PartialEq, Eq, Structural)]
pub struct bd_status_out {
    pub integrity_enabled: i32,
    pub reserved: u32,
}

/// The entitlement that is written out to a foreign caller.
#[allow(non_camel_case_types)]
#[derive(Clone, Copy, Debug, PartialEq, Eq, Structural)]
pub struct bd_entitlement_result {
    pub entitled: i32,
}

/// The number that stands for an entitlement code.
pub open spec fn entitlement_number(code: EntitlementCode) -> i32 {
    match code {
        EntitlementCode::Entitled => BD_OK,
        EntitlementCode::NotEntitled => BD_ERR_ENTITLEMENT,
        EntitlementCode::Expired => BD_ERR_ENTITLEMENT_EXPIRED,
        EntitlementCode::SignatureInvalid => BD_ERR_SIGNATURE_INVALID,
        EntitlementCode::CacheCorrupt => BD_ERR_CACHE_CORRUPT,
        EntitlementCode::NetworkError => BD_ERR_NETWORK,
        EntitlementCode::Error => BD_ERR_ENTITLEMENT,
    }
}

/// What a foreign caller gets for an entitlement check: the flag to write out
/// and the code to return.
pub fn entitlement_status(result: &EntitlementResult) -> (r: (bd_entitlement_result, i32))
    ensures
        r.0.entitled == if result.entitled { 1i32 } else { 0i32 },
        r.1 == entitlement_number(result.code),
{
    let entitled: i32 = if result.entitled { 1 } else { 0 };
    let code = match result.code {
        EntitlementCode::Entitled => BD_OK,
        EntitlementCode::NotEntitled => BD_ERR_ENTITLEMENT,
        EntitlementCode::Expired => BD_ERR_ENTITLEMENT_EXPIRED,
        EntitlementCode::SignatureInvalid => BD_ERR_SIGNATURE_INVALID,
        EntitlementCode::CacheCorrupt => BD_ERR_CACHE_CORRUPT,
        EntitlementCode::NetworkError => BD_ERR_NETWORK,
        EntitlementCode::Error => BD_ERR_ENTITLEMENT,
    };
    (bd_entitlement_result { entitled }, code)
}

/// The status of a handle as it is written out.
pub fn status_of(handle: &SdkHandle) -> (out: bd_status_out)
    ensures
        out.integrity_enabled == if handle@.integrity_enabled { 1i32 } else { 0i32 },
        out.reserved == 0,
{
    let integrity_enabled: i32 = if handle.is_integrity_enabled() { 1 } else { 0 };
    bd_status_out { integrity_enabled, reserved: 0 }
}

/// Whether a text of the given length, with its terminator, fits a buffer of
/// the given capacity: the code to return and the number to report as written,
/// which is the size that was needed where the buffer is too small.
pub fn export_status(capacity: u32, text_len: u32) -> (r: (i32, u32))
    requires
        text_len < u32::MAX,
    ensures
        capacity <= text_len ==> r == (BD_ERR_BUFFER_TOO_SMALL, (text_len + 1) as u32),
        capacity > text_len ==> r == (BD_OK, text_len),
{
    let required: u32 = text_len + 1;
    if capacity < required {
        (BD_ERR_BUFFER_TOO_SMALL, required)
    } else {
        (BD_OK, text_len)
    }
}

} // verus!
