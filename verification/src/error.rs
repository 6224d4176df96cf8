//! The error taxonomy: what can end a call, and why.

use vstd::prelude::*;
use vstd::string::StringExecFns;

use crate::protocol::UpdateCommand;
use crate::text::{decimal, hex4, to_decimal, to_hex4};

verus! {

/// Why the device refused the image header.
#[derive(Debug, Copy, Clone, PartialEq, Eq, Structural)]
pub enum StartUpdateError {
    HeaderCmacCheckError,
    HeaderVersionCheckError,
    HeaderCapabilityInfoError,
    HeaderFlashEraseError,
    HeaderInfoNotReceived,
    HeaderCommonParamError,
    HeaderOtherError,
}

impl StartUpdateError {
    /// The name of the reason in diagnostics.
    pub open spec fn spec_name(self) -> Seq<char> {
        match self {
            Self::HeaderCmacCheckError => "HEADER_CMAC_CHECK_ERROR"@,
            Self::HeaderVersionCheckError => "HEADER_VERSION_CHECK_ERROR"@,
            Self::HeaderCapabilityInfoError => "HEADER_CAPABILITY_INFO_ERROR"@,
            Self::HeaderFlashEraseError => "HEADER_FLASH_ERASE_ERROR"@,
            Self::HeaderInfoNotReceived => "HEADER_INFO_NOT_RECEIVED"@,
            Self::HeaderCommonParamError => "HEADER_COMMON_PARAM_ERROR"@,
            Self::HeaderOtherError => "HEADER_OTHER_ERROR"@,
        }
    }

    /// The name of the reason, as the device documentation spells it.
    pub fn name(self) -> (text: &'static str)
        ensures
            text@ == self.spec_name(),
    {
        match self {
            Self::HeaderCmacCheckError => "HEADER_CMAC_CHECK_ERROR",
            Self::HeaderVersionCheckError => "HEADER_VERSION_CHECK_ERROR",
            Self::HeaderCapabilityInfoError => "HEADER_CAPABILITY_INFO_ERROR",
            Self::HeaderFlashEraseError => "HEADER_FLASH_ERASE_ERROR",
            Self::HeaderInfoNotReceived => "HEADER_INFO_NOT_RECEIVED",
            Self::HeaderCommonParamError => "HEADER_COMMON_PARAM_ERROR",
            Self::HeaderOtherError => "HEADER_OTHER_ERROR",
        }
    }
}

/// Why the device stopped accepting the image.
#[derive(Debug, Copy, Clone, PartialEq, Eq, Structural)]
pub enum WriteUpdateImageError {
    WriteImageFlashWriteError,
    WriteUpdateNotStarted,
    WriteImageCommonParamError,
    WriteImageOtherError,
}

impl WriteUpdateImageError {
    /// The name of the reason in diagnostics.
    pub open spec fn spec_name(self) -> Seq<char> {
        match self {
            Self::WriteImageFlashWriteError => "WRITE_IMAGE_FLASH_WRITE_ERROR"@,
            Self::WriteUpdateNotStarted => "WRITE_UPDATE_NOT_STARTED"@,
            Self::WriteImageCommonParamError => "WRITE_IMAGE_COMMON_PARAM_ERROR"@,
            Self::WriteImageOtherError => "WRITE_IMAGE_OTHER_ERROR"@,
        }
    }

    /// The name of the reason, as the device documentation spells it.
    pub fn name(self) -> (text: &'static str)
        ensures
            text@ == self.spec_name(),
    {
        match self {
            Self::WriteImageFlashWriteError => "WRITE_IMAGE_FLASH_WRITE_ERROR",
            Self::WriteUpdateNotStarted => "WRITE_UPDATE_NOT_STARTED",
            Self::WriteImageCommonParamError => "WRITE_IMAGE_COMMON_PARAM_ERROR",
            Self::WriteImageOtherError => "WRITE_IMAGE_OTHER_ERROR",
        }
    }
}

/// Why the device rejected the transferred image.
#[derive(Debug, Copy, Clone, PartialEq, Eq, Structural)]
pub enum VerifyUpdateImageError {
    VerifyHeaderCmacCheckError,
    VerifyHeaderVersionCheckError,
    VerifyCapabilityInfoError,
    VerifyFwBodyCmacCheckError,
    VerifyCommonParamError,
    VerifyOtherError,
}

impl VerifyUpdateImageError {
    /// The name of the reason in diagnostics.
    pub open spec fn spec_name(self) -> Seq<char> {
        match self {
            Self::VerifyHeaderCmacCheckError => "VERIFY_HEADER_CMAC_CHECK_ERROR"@,
            Self::VerifyHeaderVersionCheckError => "VERIFY_HEADER_VERSION_CHECK_ERROR"@,
            Self::VerifyCapabilityInfoError => "VERIFY_CAPABILITY_INFO_ERROR"@,
            Self::VerifyFwBodyCmacCheckError => "VERIFY_FW_BODY_CMAC_CHECK_ERROR"@,
            Self::VerifyCommonParamError => "VERIFY_COMMON_PARAM_ERROR"@,
            Self::VerifyOtherError => "VERIFY_OTHER_ERROR"@,
        }
    }

    /// The name of the reason, as the device documentation spells it.
    pub fn name(self) -> (text: &'static str)
        ensures
            text@ == self.spec_name(),
    {
        match self {
            Self::VerifyHeaderCmacCheckError => "VERIFY_HEADER_CMAC_CHECK_ERROR",
            Self::VerifyHeaderVersionCheckError => "VERIFY_HEADER_VERSION_CHECK_ERROR",
            Self::VerifyCapabilityInfoError => "VERIFY_CAPABILITY_INFO_ERROR",
            Self::VerifyFwBodyCmacCheckError => "VERIFY_FW_BODY_CMAC_CHECK_ERROR",
            Self::VerifyCommonParamError => "VERIFY_COMMON_PARAM_ERROR",
            Self::VerifyOtherError => "VERIFY_OTHER_ERROR",
        }
    }
}

/// Why the device could not finalize the update. No status is read after the
/// finalize command, so nothing in the protocol produces this today.
#[derive(Debug, Copy, Clone, PartialEq, Eq, Structural)]
pub enum FinalizeUpdateError {
    FinalizeOtherError,
}

impl FinalizeUpdateError {
    /// The name of the reason in diagnostics.
    pub open spec fn spec_name(self) -> Seq<char> {
        match self {
            Self::FinalizeOtherError => "FINALIZE_OTHER_ERROR"@,
        }
    }

    /// The name of the reason, as the device documentation spells it.
    pub fn name(self) -> (text: &'static str)
        ensures
            text@ == self.spec_name(),
    {
        match self {
            Self::FinalizeOtherError => "FINALIZE_OTHER_ERROR",
        }
    }
}

/// A stage that the device ended with a named reason.
#[derive(Debug, Copy, Clone, PartialEq, Eq, Structural)]
pub enum UpdateFailure {
    StartUpdate(StartUpdateError),
    WriteUpdateImage(WriteUpdateImageError),
    VerifyUpdateImage(VerifyUpdateImageError),
    FinalizeUpdate(FinalizeUpdateError),
}

impl UpdateFailure {
    /// The failed stage and the name of its reason.
    pub open spec fn spec_message(self) -> Seq<char> {
        match self {
            UpdateFailure::StartUpdate(err) => "StartUpdate failed: "@ + err.spec_name(),
            UpdateFailure::WriteUpdateImage(err) => "WriteUpdateImage failed: "@ + err.spec_name(),
            UpdateFailure::VerifyUpdateImage(err) => "VerifyUpdateImage failed: "@
                + err.spec_name(),
            UpdateFailure::FinalizeUpdate(err) => "FinalizeUpdate failed: "@ + err.spec_name(),
        }
    }

    /// The failed stage and the name of its reason.
    pub fn message(&self) -> (text: String)
        ensures
            text@ == self.spec_message(),
    {
        let (mut text, name) = match self {
            UpdateFailure::StartUpdate(err) => ("StartUpdate failed: ".to_string(), err.name()),
            UpdateFailure::WriteUpdateImage(err) => (
                "WriteUpdateImage failed: ".to_string(),
                err.name(),
            ),
            UpdateFailure::VerifyUpdateImage(err) => (
                "VerifyUpdateImage failed: ".to_string(),
                err.name(),
            ),
            UpdateFailure::FinalizeUpdate(err) => (
                "FinalizeUpdate failed: ".to_string(),
                err.name(),
            ),
        };
        text.append(name);
        text
    }
}

/// Everything that can end a call into this crate, or into the driver around it.
#[derive(Debug, PartialEq, Eq)]
pub enum AppError {
    /// The transport failed; the text is the transport's own message.
    Hid(String),
    /// Reading the image or the console failed; the text is the system's message.
    Io(String),
    DeviceNotFound { vid: u16, pid: u16 },
    DevicePathNotMatched(String),
    MissingFirmwareImageForUpdate,
    MissingFirmwareImageForInteractive,
    FirmwareImageTooSmall,
    FirmwareImageTooSmallForHeader,
    InvalidUpdateStreamLength(usize),
    UpdateImageTooLarge(usize),
    FirmwareInfoTooShort(usize),
    FirmwareInfoPayloadTooShort(usize),
    UpdateStatusEmpty,
    UpdateStatusMalformed(usize),
    /// A status report answered another command than the one sent: first the
    /// command it named, then the one expected.
    UnexpectedUpdateStatusCommand(UpdateCommand, UpdateCommand),
    UpdateFailed(UpdateFailure),
}

impl AppError {
    /// What the error says.
    pub open spec fn spec_message(self) -> Seq<char> {
        match self {
            AppError::Hid(message) => "HID error: "@ + message@,
            AppError::Io(message) => "IO error: "@ + message@,
            AppError::DeviceNotFound { vid, pid } => "Device not found for VID:PID "@ + hex4(vid)
                + ":"@ + hex4(pid),
            AppError::DevicePathNotMatched(path) => "No device path matched "@ + path@,
            AppError::MissingFirmwareImageForUpdate => "FW_IMAGE is required for update commands"@,
            AppError::MissingFirmwareImageForInteractive => {
                "FW_IMAGE is required when no flags are provided"@
            },
            AppError::FirmwareImageTooSmall => "Firmware image is too small to read version"@,
            AppError::FirmwareImageTooSmallForHeader => {
                "Firmware image must be at least 256 bytes"@
            },
            AppError::InvalidUpdateStreamLength(len) => "Update stream must be 256 bytes, got "@
                + decimal(len as nat),
            AppError::UpdateImageTooLarge(len) => "Update image must be <= 0x8000 bytes, got "@
                + decimal(len as nat),
            AppError::FirmwareInfoTooShort(len) => "Firmware info report too short: "@ + decimal(
                len as nat,
            ) + " bytes"@,
            AppError::FirmwareInfoPayloadTooShort(len) => "Firmware info payload too short: "@
                + decimal(len as nat) + " bytes"@,
            AppError::UpdateStatusEmpty => "Update status report is empty"@,
            AppError::UpdateStatusMalformed(len) => "Update status report malformed: "@ + decimal(
                len as nat,
            ) + " bytes"@,
            AppError::UnexpectedUpdateStatusCommand(got, expected) => {
                "Unexpected update status command: "@ + got.spec_name() + " (expected "@
                    + expected.spec_name() + ")"@
            },
            AppError::UpdateFailed(failure) => "Update failed: "@ + failure.spec_message(),
        }
    }

    /// What the error says.
    pub fn message(&self) -> (text: String)
        ensures
            text@ == self.spec_message(),
    {
        match self {
            AppError::Hid(message) => {
                let mut text = "HID error: ".to_string();
                text.append(message.as_str());
                text
            },
            AppError::Io(message) => {
                let mut text = "IO error: ".to_string();
                text.append(message.as_str());
                text
            },
            AppError::DeviceNotFound { vid, pid } => {
                let mut text = "Device not found for VID:PID ".to_string();
                text.append(to_hex4(*vid).as_str());
                text.append(":");
                text.append(to_hex4(*pid).as_str());
                text
            },
            AppError::DevicePathNotMatched(path) => {
                let mut text = "No device path matched ".to_string();
                text.append(path.as_str());
                text
            },
            AppError::MissingFirmwareImageForUpdate => {
                "FW_IMAGE is required for update commands".to_string()
            },
            AppError::MissingFirmwareImageForInteractive => {
                "FW_IMAGE is required when no flags are provided".to_string()
            },
            AppError::FirmwareImageTooSmall => {
                "Firmware image is too small to read version".to_string()
            },
            AppError::FirmwareImageTooSmallForHeader => {
                "Firmware image must be at least 256 bytes".to_string()
            },
            AppError::InvalidUpdateStreamLength(len) => {
                let mut text = "Update stream must be 256 bytes, got ".to_string();
                text.append(to_decimal(*len).as_str());
                text
            },
            AppError::UpdateImageTooLarge(len) => {
                let mut text = "Update image must be <= 0x8000 bytes, got ".to_string();
                text.append(to_decimal(*len).as_str());
                text
            },
            AppError::FirmwareInfoTooShort(len) => {
                let mut text = "Firmware info report too short: ".to_string();
                text.append(to_decimal(*len).as_str());
                text.append(" bytes");
                text
            },
            AppError::FirmwareInfoPayloadTooShort(len) => {
                let mut text = "Firmware info payload too short: ".to_string();
                text.append(to_decimal(*len).as_str());
                text.append(" bytes");
                text
            },
            AppError::UpdateStatusEmpty => "Update status report is empty".to_string(),
            AppError::UpdateStatusMalformed(len) => {
                let mut text = "Update status report malformed: ".to_string();
                text.append(to_decimal(*len).as_str());
                text.append(" bytes");
                text
            },
            AppError::UnexpectedUpdateStatusCommand(got, expected) => {
                let mut text = "Unexpected update status command: ".to_string();
                text.append(got.name());
                text.append(" (expected ");
                text.append(expected.name());
                text.append(")");
                text
            },
            AppError::UpdateFailed(failure) => {
                let mut text = "Update failed: ".to_string();
                text.append(failure.message().as_str());
                text
            },
        }
    }

    /// A second copy of the error.
    pub fn duplicate(&self) -> (copy: AppError)
        ensures
            copy == *self,
    {
        match self {
            AppError::Hid(message) => AppError::Hid(message.clone()),
            AppError::Io(message) => AppError::Io(message.clone()),
            AppError::DeviceNotFound { vid, pid } => AppError::DeviceNotFound {
                vid: *vid,
                pid: *pid,
            },
            AppError::DevicePathNotMatched(path) => AppError::DevicePathNotMatched(path.clone()),
            AppError::MissingFirmwareImageForUpdate => AppError::MissingFirmwareImageForUpdate,
            AppError::MissingFirmwareImageForInteractive => {
                AppError::MissingFirmwareImageForInteractive
            },
            AppError::FirmwareImageTooSmall => AppError::FirmwareImageTooSmall,
            AppError::FirmwareImageTooSmallForHeader => AppError::FirmwareImageTooSmallForHeader,
            AppError::InvalidUpdateStreamLength(len) => AppError::InvalidUpdateStreamLength(*len),
            AppError::UpdateImageTooLarge(len) => AppError::UpdateImageTooLarge(*len),
            AppError::FirmwareInfoTooShort(len) => AppError::FirmwareInfoTooShort(*len),
            AppError::FirmwareInfoPayloadTooShort(len) => AppError::FirmwareInfoPayloadTooShort(
                *len,
            ),
            AppError::UpdateStatusEmpty => AppError::UpdateStatusEmpty,
            AppError::UpdateStatusMalformed(len) => AppError::UpdateStatusMalformed(*len),
            AppError::UnexpectedUpdateStatusCommand(got, expected) => {
                AppError::UnexpectedUpdateStatusCommand(*got, *expected)
            },
            AppError::UpdateFailed(failure) => AppError::UpdateFailed(*failure),
        }
    }
}

} // verus!
