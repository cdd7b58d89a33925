//! The licence dialog: what to make of what the user entered.
//!
//! Showing a dialog is the caller's business. The caller reports how the
//! dialog ended and what was entered, trimmed, and is told how to go on.

use vstd::prelude::*;
use vstd::string::StringExecFns;
use vstd::utf8::encode_utf8;

verus! {

/// Errors of the licence dialog.
#[derive(Debug)]
pub enum LicenseGuiError {
    InitFailed(String),
    ValidationFailed(String),
    UserCancelled,
    Io(String),
}

/// The text of a [`LicenseGuiError`].
pub open spec fn gui_error_text(error: LicenseGuiError) -> Seq<char> {
    match error {
        LicenseGuiError::InitFailed(detail) => "GUI initialization failed: "@ + detail@,
        LicenseGuiError::ValidationFailed(detail) => "License key validation failed: "@ + detail@,
        LicenseGuiError::UserCancelled => "User cancelled license input"@,
        LicenseGuiError::Io(detail) => "IO error: "@ + detail@,
    }
}

impl LicenseGuiError {
    /// The error in words.
    pub fn message(&self) -> (text: String)
        ensures
            text@ == gui_error_text(*self),
    {
        match self {
            LicenseGuiError::InitFailed(detail) => String::from_str("GUI initialization failed: ").concat(
                detail.as_str(),
            ),
            LicenseGuiError::ValidationFailed(detail) => String::from_str(
                "License key validation failed: ",
            ).concat(detail.as_str()),
            LicenseGuiError::UserCancelled => String::from_str("User cancelled license input"),
            LicenseGuiError::Io(detail) => String::from_str("IO error: ").concat(detail.as_str()),
        }
    }
}

/// How the licence dialog looks and what it allows.
#[derive(Debug)]
pub struct LicenseDialogConfig {
    pub title: String,
    pub message: String,
    pub placeholder: String,
    pub allow_trial: bool,
    pub require_hardware_binding: bool,
    pub tmp_validation: bool,
}

impl Default for LicenseDialogConfig {
    fn default() -> (config: LicenseDialogConfig)
        ensures
            config.title@ == "Belladonna License Activation"@,
            config.message@ == "Enter your license key to unlock the full game experience:"@,
            config.placeholder@ == "Enter license key (e.g., BELL-XXXX-XXXX-XXXX)"@,
            config.allow_trial,
            config.require_hardware_binding,
            config.tmp_validation,
    {
        LicenseDialogConfig {
            title: String::from_str("Belladonna License Activation"),
            message: String::from_str("Enter your license key to unlock the full game experience:"),
            placeholder: String::from_str("Enter license key (e.g., BELL-XXXX-XXXX-XXXX)"),
            allow_trial: true,
            require_hardware_binding: true,
            tmp_validation: true,
        }
    }
}

/// The licence that the dialog ended with.
#[derive(Debug)]
pub struct LicenseResult {
    pub key: String,
    pub license_type: String,
    pub hardware_fingerprint: Option<String>,
    pub tmp_validated: bool,
}

/// Shortest licence key, in bytes, that is taken.
pub const MIN_KEY_LEN: usize = 10;

/// The length of a text in bytes, as UTF-8.
pub open spec fn byte_len(text: Seq<char>) -> usize {
    encode_utf8(text).len() as usize
}

/// How to go on after the key dialog.
pub enum LicenseStep {
    /// The dialog is over, with a licence or an error.
    Finished(Result<LicenseResult, LicenseGuiError>),
    /// Nothing was entered and a trial may be offered: ask the user.
    AskTrial,
}

impl LicenseResult {
    /// A licence of the given key and type, not bound to hardware and not validated.
    pub open spec fn is_plain(self, key: Seq<char>, license_type: Seq<char>) -> bool {
        &&& self.key@ == key
        &&& self.license_type@ == license_type
        &&& self.hardware_fingerprint.is_none()
        &&& !self.tmp_validated
    }
}

/// Decides how to go on after the key dialog. A dialog that did not end well
/// was cancelled. No key leads to the trial question where a trial is allowed,
/// and counts as cancelled where it is not. A key shorter than ten bytes is
/// refused; any other is a standard licence.
pub fn after_license_entry(config: &LicenseDialogConfig, dialog_succeeded: bool, license_key: String) -> (step:
    LicenseStep)
    ensures
        !dialog_succeeded ==> step is Finished && step->Finished_0 is Err && step->Finished_0->Err_0
            is UserCancelled,
        dialog_succeeded && license_key@.len() == 0 && config.allow_trial ==> step is AskTrial,
        dialog_succeeded && license_key@.len() == 0 && !config.allow_trial ==> step is Finished
            && step->Finished_0 is Err && step->Finished_0->Err_0 is UserCancelled,
        dialog_succeeded && license_key@.len() > 0 && byte_len(license_key@) < MIN_KEY_LEN
            ==> step is Finished && step->Finished_0 is Err && step->Finished_0->Err_0
            is ValidationFailed && step->Finished_0->Err_0->ValidationFailed_0@
            == "License key is too short"@,
        dialog_succeeded && license_key@.len() > 0 && byte_len(license_key@) >= MIN_KEY_LEN
            ==> step is Finished && step->Finished_0 is Ok && step->Finished_0->Ok_0.is_plain(
            license_key@,
            "Standard"@,
        ),
{
    if !dialog_succeeded {
        return LicenseStep::Finished(Err(LicenseGuiError::UserCancelled));
    }
    if license_key.as_str().is_empty() {
        if config.allow_trial {
            return LicenseStep::AskTrial;
        }
        return LicenseStep::Finished(Err(LicenseGuiError::UserCancelled));
    }
    if license_key.as_str().len() < MIN_KEY_LEN {
        return LicenseStep::Finished(
            Err(LicenseGuiError::ValidationFailed(String::from_str("License key is too short"))),
        );
    }
    LicenseStep::Finished(
        Ok(
            LicenseResult {
                key: license_key,
                license_type: String::from_str("Standard"),
                hardware_fingerprint: None,
                tmp_validated: false,
            },
        ),
    )
}

/// Decides how the dialog ends after the trial question: with a trial licence
/// where the user said yes, cancelled where not.
pub fn after_trial_choice(accepted: bool) -> (r: Result<LicenseResult, LicenseGuiError>)
    ensures
        accepted ==> r is Ok && r->Ok_0.is_plain("TRIAL-MODE"@, "Trial"@),
        !accepted ==> r is Err && r->Err_0 is UserCancelled,
{
    if accepted {
        Ok(
            LicenseResult {
                key: String::from_str("TRIAL-MODE"),
                license_type: String::from_str("Trial"),
                hardware_fingerprint: None,
                tmp_validated: false,
            },
        )
    } else {
        Err(LicenseGuiError::UserCancelled)
    }
}

} // verus!
