//! What a verification can end in, and the codes that leave the library.

use vstd::prelude::*;
use crate::ffi::{BD_ERR_FORMAT_INVALID, BD_ERR_INVALID_ARG, BD_ERR_SIGNATURE_INVALID, BD_OK};

verus! {

/// How one verification ended.
#[derive(Clone, Copy, Debug, PartialEq, Eq, Structural)]
pub enum Outcome {
    /// The signature was accepted and every file that was read matched.
    Verified,
    /// The envelope or the manifest in it is structurally broken.
    FormatInvalid,
    /// The key or the signature has the wrong length, or the signature was rejected.
    SignatureInvalid,
    /// A listed file was read and its digest is not the recorded one.
    FileHashMismatch,
    /// A listed file was opened and reading it failed.
    FileUnreadable,
}

/// The codes that cross the boundary to a foreign caller.
#[derive(Clone, Copy, Debug, PartialEq, Eq, Structural)]
pub enum ErrorCode {
    Success,
    InvalidArgs,
    FormatInvalid,
    SignatureInvalid,
}

impl Outcome {
    /// The boundary code of an outcome: a file whose content differs and a file
    /// that could not be read to its end both count as a rejected signature.
    pub open spec fn code_spec(self) -> ErrorCode {
        match self {
            Outcome::Verified => ErrorCode::Success,
            Outcome::FormatInvalid => ErrorCode::FormatInvalid,
            Outcome::SignatureInvalid => ErrorCode::SignatureInvalid,
            Outcome::FileHashMismatch => ErrorCode::SignatureInvalid,
            Outcome::FileUnreadable => ErrorCode::SignatureInvalid,
        }
    }

    /// Collapses the outcome into its boundary code.
    pub fn code(self) -> (code: ErrorCode)
        ensures
            code == self.code_spec(),
            (code == ErrorCode::Success) == (self == Outcome::Verified),
            code != ErrorCode::InvalidArgs,
    {
        match self {
            Outcome::Verified => ErrorCode::Success,
            Outcome::FormatInvalid => ErrorCode::FormatInvalid,
            Outcome::SignatureInvalid => ErrorCode::SignatureInvalid,
            Outcome::FileHashMismatch => ErrorCode::SignatureInvalid,
            Outcome::FileUnreadable => ErrorCode::SignatureInvalid,
        }
    }
}

impl ErrorCode {
    /// The number that stands for a code on the wire.
    pub open spec fn number_spec(self) -> i32 {
        match self {
            ErrorCode::Success => BD_OK,
            ErrorCode::InvalidArgs => BD_ERR_INVALID_ARG,
            ErrorCode::FormatInvalid => BD_ERR_FORMAT_INVALID,
            ErrorCode::SignatureInvalid => BD_ERR_SIGNATURE_INVALID,
        }
    }

    /// The number that stands for this code on the wire.
    pub fn number(self) -> (n: i32)
        ensures
            n == self.number_spec(),
            (n == 0) == (self == ErrorCode::Success),
    {
        match self {
            ErrorCode::Success => BD_OK,
            ErrorCode::InvalidArgs => BD_ERR_INVALID_ARG,
            ErrorCode::FormatInvalid => BD_ERR_FORMAT_INVALID,
            ErrorCode::SignatureInvalid => BD_ERR_SIGNATURE_INVALID,
        }
    }

    /// The code that a number stands for, if any.
    pub open spec fn of_number(n: i32) -> Option<ErrorCode> {
        if n == BD_OK {
            Some(ErrorCode::Success)
        } else if n == BD_ERR_INVALID_ARG {
            Some(ErrorCode::InvalidArgs)
        } else if n == BD_ERR_FORMAT_INVALID {
            Some(ErrorCode::FormatInvalid)
        } else if n == BD_ERR_SIGNATURE_INVALID {
            Some(ErrorCode::SignatureInvalid)
        } else {
            None
        }
    }

    /// The code that a number stands for, if any.
    pub fn from_number(n: i32) -> (code: Option<ErrorCode>)
        ensures
            code == ErrorCode::of_number(n),
    {
        if n == BD_OK {
            Some(ErrorCode::Success)
        } else if n == BD_ERR_INVALID_ARG {
            Some(ErrorCode::InvalidArgs)
        } else if n == BD_ERR_FORMAT_INVALID {
            Some(ErrorCode::FormatInvalid)
        } else if n == BD_ERR_SIGNATURE_INVALID {
            Some(ErrorCode::SignatureInvalid)
        } else {
            None
        }
    }
}

/// A number stands for a code exactly if it is that code's number.
pub proof fn lemma_number_round_trip(code: ErrorCode, n: i32)
    ensures
        ErrorCode::of_number(code.number_spec()) == Some(code),
        ErrorCode::of_number(n) == Some(code) <==> code.number_spec() == n,
{
}

/// Distinct codes have distinct numbers.
pub proof fn lemma_numbers_distinct(a: ErrorCode, b: ErrorCode)
    ensures
        a.number_spec() == b.number_spec() ==> a == b,
{
}

} // verus!
