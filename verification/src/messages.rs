//! What an error reads like for the person at the console.

use vstd::prelude::*;
use vstd::string::StringExecFns;

use crate::error::{
    AppError, FinalizeUpdateError, StartUpdateError, UpdateFailure, VerifyUpdateImageError,
    WriteUpdateImageError,
};

verus! {

/// What a failure of the start stage means, in a sentence.
pub open spec fn spec_start_update_message(err: StartUpdateError) -> Seq<char> {
    match err {
        StartUpdateError::HeaderVersionCheckError => {
            "Firmware image is not an upgrade; downgrades are not allowed."@
        },
        StartUpdateError::HeaderCmacCheckError => "Firmware image header authentication failed."@,
        StartUpdateError::HeaderCapabilityInfoError => {
            "Firmware image header capability info is invalid."@
        },
        StartUpdateError::HeaderFlashEraseError => "Device failed to erase flash for the update."@,
        StartUpdateError::HeaderInfoNotReceived => "Device did not receive the firmware header."@,
        StartUpdateError::HeaderCommonParamError => {
            "Firmware image header parameters are invalid."@
        },
        StartUpdateError::HeaderOtherError => {
            "Firmware image header failed for an unknown reason."@
        },
    }
}

/// What a failure of the start stage means, in a sentence.
pub fn start_update_message(err: StartUpdateError) -> (text: String)
    ensures
        text@ == spec_start_update_message(err),
{
    match err {
        StartUpdateError::HeaderVersionCheckError => {
            "Firmware image is not an upgrade; downgrades are not allowed.".to_string()
        },
        StartUpdateError::HeaderCmacCheckError => {
            "Firmware image header authentication failed.".to_string()
        },
        StartUpdateError::HeaderCapabilityInfoError => {
            "Firmware image header capability info is invalid.".to_string()
        },
        StartUpdateError::HeaderFlashEraseError => {
            "Device failed to erase flash for the update.".to_string()
        },
        StartUpdateError::HeaderInfoNotReceived => {
            "Device did not receive the firmware header.".to_string()
        },
        StartUpdateError::HeaderCommonParamError => {
            "Firmware image header parameters are invalid.".to_string()
        },
        StartUpdateError::HeaderOtherError => {
            "Firmware image header failed for an unknown reason.".to_string()
        },
    }
}

/// What a failure of the write stage means, in a sentence.
pub open spec fn spec_write_update_message(err: WriteUpdateImageError) -> Seq<char> {
    match err {
        WriteUpdateImageError::WriteImageFlashWriteError => {
            "Device failed while writing the firmware image."@
        },
        WriteUpdateImageError::WriteUpdateNotStarted => {
            "WriteUpdateImage was sent before StartUpdate completed."@
        },
        WriteUpdateImageError::WriteImageCommonParamError => {
            "Firmware image parameters are invalid."@
        },
        WriteUpdateImageError::WriteImageOtherError => {
            "Firmware image write failed for an unknown reason."@
        },
    }
}

/// What a failure of the write stage means, in a sentence.
pub fn write_update_message(err: WriteUpdateImageError) -> (text: String)
    ensures
        text@ == spec_write_update_message(err),
{
    match err {
        WriteUpdateImageError::WriteImageFlashWriteError => {
            "Device failed while writing the firmware image.".to_string()
        },
        WriteUpdateImageError::WriteUpdateNotStarted => {
            "WriteUpdateImage was sent before StartUpdate completed.".to_string()
        },
        WriteUpdateImageError::WriteImageCommonParamError => {
            "Firmware image parameters are invalid.".to_string()
        },
        WriteUpdateImageError::WriteImageOtherError => {
            "Firmware image write failed for an unknown reason.".to_string()
        },
    }
}

/// What a failure of the verify stage means, in a sentence.
pub open spec fn spec_verify_update_message(err: VerifyUpdateImageError) -> Seq<char> {
    match err {
        VerifyUpdateImageError::VerifyHeaderCmacCheckError => {
            "Firmware image header authentication failed during verify."@
        },
        VerifyUpdateImageError::VerifyHeaderVersionCheckError => {
            "Firmware image is not an upgrade; downgrades are not allowed."@
        },
        VerifyUpdateImageError::VerifyCapabilityInfoError => {
            "Firmware image capability info is invalid."@
        },
        VerifyUpdateImageError::VerifyFwBodyCmacCheckError => {
            "Firmware image body authentication failed."@
        },
        VerifyUpdateImageError::VerifyCommonParamError => "Firmware image parameters are invalid."@,
        VerifyUpdateImageError::VerifyOtherError => {
            "Firmware image verification failed for an unknown reason."@
        },
    }
}

/// What a failure of the verify stage means, in a sentence.
pub fn verify_update_message(err: VerifyUpdateImageError) -> (text: String)
    ensures
        text@ == spec_verify_update_message(err),
{
    match err {
        VerifyUpdateImageError::VerifyHeaderCmacCheckError => {
            "Firmware image header authentication failed during verify.".to_string()
        },
        VerifyUpdateImageError::VerifyHeaderVersionCheckError => {
            "Firmware image is not an upgrade; downgrades are not allowed.".to_string()
        },
        VerifyUpdateImageError::VerifyCapabilityInfoError => {
            "Firmware image capability info is invalid.".to_string()
        },
        VerifyUpdateImageError::VerifyFwBodyCmacCheckError => {
            "Firmware image body authentication failed.".to_string()
        },
        VerifyUpdateImageError::VerifyCommonParamError => {
            "Firmware image parameters are invalid.".to_string()
        },
        VerifyUpdateImageError::VerifyOtherError => {
            "Firmware image verification failed for an unknown reason.".to_string()
        },
    }
}

/// What a failure of the finalize stage means, in a sentence.
pub open spec fn spec_finalize_update_message(err: FinalizeUpdateError) -> Seq<char> {
    match err {
        FinalizeUpdateError::FinalizeOtherError => "FinalizeUpdate failed for an unknown reason."@,
    }
}

/// What a failure of the finalize stage means, in a sentence.
pub fn finalize_update_message(err: FinalizeUpdateError) -> (text: String)
    ensures
        text@ == spec_finalize_update_message(err),
{
    match err {
        FinalizeUpdateError::FinalizeOtherError => {
            "FinalizeUpdate failed for an unknown reason.".to_string()
        },
    }
}

/// What a failed stage means, in a sentence.
pub open spec fn spec_update_failure_message(failure: UpdateFailure) -> Seq<char> {
    match failure {
        UpdateFailure::StartUpdate(err) => spec_start_update_message(err),
        UpdateFailure::WriteUpdateImage(err) => spec_write_update_message(err),
        UpdateFailure::VerifyUpdateImage(err) => spec_verify_update_message(err),
        UpdateFailure::FinalizeUpdate(err) => spec_finalize_update_message(err),
    }
}

/// What a failed stage means, in a sentence.
pub fn update_failure_message(failure: &UpdateFailure) -> (text: String)
    ensures
        text@ == spec_update_failure_message(*failure),
{
    match failure {
        UpdateFailure::StartUpdate(err) => start_update_message(*err),
        UpdateFailure::WriteUpdateImage(err) => write_update_message(*err),
        UpdateFailure::VerifyUpdateImage(err) => verify_update_message(*err),
        UpdateFailure::FinalizeUpdate(err) => finalize_update_message(*err),
    }
}

/// The failed stage and the name of its reason, as diagnostics spell them:
/// `UpdateFailed(`, the stage, `(`, the reason, `))`.
pub open spec fn spec_update_failure_debug(failure: UpdateFailure) -> Seq<char> {
    match failure {
        UpdateFailure::StartUpdate(err) => "UpdateFailed(StartUpdate("@ + err.spec_name() + "))"@,
        UpdateFailure::WriteUpdateImage(err) => "UpdateFailed(WriteUpdateImage("@
            + err.spec_name() + "))"@,
        UpdateFailure::VerifyUpdateImage(err) => "UpdateFailed(VerifyUpdateImage("@
            + err.spec_name() + "))"@,
        UpdateFailure::FinalizeUpdate(err) => "UpdateFailed(FinalizeUpdate("@ + err.spec_name()
            + "))"@,
    }
}

/// The failed stage and the name of its reason, as diagnostics spell them.
pub fn update_failure_debug(failure: &UpdateFailure) -> (text: String)
    ensures
        text@ == spec_update_failure_debug(*failure),
{
    let (mut text, name) = match failure {
        UpdateFailure::StartUpdate(err) => ("UpdateFailed(StartUpdate(".to_string(), err.name()),
        UpdateFailure::WriteUpdateImage(err) => (
            "UpdateFailed(WriteUpdateImage(".to_string(),
            err.name(),
        ),
        UpdateFailure::VerifyUpdateImage(err) => (
            "UpdateFailed(VerifyUpdateImage(".to_string(),
            err.name(),
        ),
        UpdateFailure::FinalizeUpdate(err) => (
            "UpdateFailed(FinalizeUpdate(".to_string(),
            err.name(),
        ),
    };
    text.append(name);
    text.append("))");
    text
}

/// The line that reports an error at the console.
///
/// A failed stage is reported by what the failure means, with the stage and
/// the name of the reason in brackets behind it. Every other error is reported
/// by what it says, with the code `0x00` behind it.
pub open spec fn spec_format_error(err: AppError) -> Seq<char> {
    match err {
        AppError::UpdateFailed(failure) => spec_update_failure_message(failure) + " ("@
            + spec_update_failure_debug(failure) + ")"@,
        _ => err.spec_message() + " (0x00)"@,
    }
}

/// Writes the line that reports an error at the console.
pub fn format_error(err: &AppError) -> (text: String)
    ensures
        text@ == spec_format_error(*err),
{
    match err {
        AppError::UpdateFailed(failure) => {
            let mut text = update_failure_message(failure);
            text.append(" (");
            text.append(update_failure_debug(failure).as_str());
            text.append(")");
            text
        },
        _ => {
            let mut text = err.message();
            text.append(" (0x00)");
            text
        },
    }
}

} // verus!
