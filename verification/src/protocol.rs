//! Wire constants, command and status vocabularies, and the decoded reports.

use vstd::prelude::*;
use vstd::slice::slice_subrange;
use vstd::utf8::{
    decode_utf8, encode_utf8, encode_utf8_decode_utf8, encode_utf8_valid_utf8, is_ascii_chars,
    is_ascii_chars_encode_utf8, valid_utf8,
};

use crate::error::{
    StartUpdateError, UpdateFailure, VerifyUpdateImageError, WriteUpdateImageError,
};

verus! {

/// Report identifier of the firmware information report.
pub const REPORT_ID_FIRMWARE_INFO: u8 = 0x20;

/// Report identifier of a command report sent to the device.
pub const REPORT_ID_UPDATE_COMMAND: u8 = 0xF4;

/// Report identifier of the status report that answers a command.
pub const REPORT_ID_UPDATE_STATUS: u8 = 0xF5;

/// What a raw status byte means for the stage that reads it.
#[derive(Debug, Copy, Clone, PartialEq, Eq, Structural)]
pub enum Outcome {
    /// The device accepted the command; the stage may proceed.
    Success,
    /// The device is still busy; the status has to be read again.
    Transient,
    /// The stage failed for the given reason.
    Terminal(UpdateFailure),
}

/// The stage that a command report starts, or that a status report answers.
#[derive(Debug, Copy, Clone, PartialEq, Eq, Structural)]
pub enum UpdateCommand {
    StartUpdate,
    WriteUpdateImage,
    VerifyUpdateImage,
    FinalizeUpdate,
    Unknown,
}

impl UpdateCommand {
    /// The command that a command byte stands for.
    pub open spec fn spec_from_int(value: u8) -> Self {
        match value {
            0x00 => Self::StartUpdate,
            0x01 => Self::WriteUpdateImage,
            0x02 => Self::VerifyUpdateImage,
            0x03 => Self::FinalizeUpdate,
            _ => Self::Unknown,
        }
    }

    /// The byte that stands for a command on the wire.
    pub open spec fn spec_to_int(self) -> u8 {
        match self {
            Self::StartUpdate => 0x00,
            Self::WriteUpdateImage => 0x01,
            Self::VerifyUpdateImage => 0x02,
            Self::FinalizeUpdate => 0x03,
            Self::Unknown => 0xFF,
        }
    }

    /// The name of a command in diagnostics.
    pub open spec fn spec_name(self) -> Seq<char> {
        match self {
            Self::StartUpdate => "StartUpdate"@,
            Self::WriteUpdateImage => "WriteUpdateImage"@,
            Self::VerifyUpdateImage => "VerifyUpdateImage"@,
            Self::FinalizeUpdate => "FinalizeUpdate"@,
            Self::Unknown => "Unknown"@,
        }
    }

    /// The name of the command.
    pub fn name(self) -> (text: &'static str)
        ensures
            text@ == self.spec_name(),
    {
        match self {
            Self::StartUpdate => "StartUpdate",
            Self::WriteUpdateImage => "WriteUpdateImage",
            Self::VerifyUpdateImage => "VerifyUpdateImage",
            Self::FinalizeUpdate => "FinalizeUpdate",
            Self::Unknown => "Unknown",
        }
    }

    /// Decodes a command byte. Every byte other than the four known ones is
    /// `Unknown`.
    pub fn from_int(value: u8) -> (command: Self)
        ensures
            command == Self::spec_from_int(value),
    {
        match value {
            0x00 => Self::StartUpdate,
            0x01 => Self::WriteUpdateImage,
            0x02 => Self::VerifyUpdateImage,
            0x03 => Self::FinalizeUpdate,
            _ => Self::Unknown,
        }
    }

    /// Encodes a command as its wire byte.
    pub fn to_int(self) -> (value: u8)
        ensures
            value == self.spec_to_int(),
    {
        match self {
            Self::StartUpdate => 0x00,
            Self::WriteUpdateImage => 0x01,
            Self::VerifyUpdateImage => 0x02,
            Self::FinalizeUpdate => 0x03,
            Self::Unknown => 0xFF,
        }
    }
}

/// Every command survives the trip through its wire byte.
pub proof fn lemma_command_round_trip(command: UpdateCommand)
    ensures
        UpdateCommand::spec_from_int(command.spec_to_int()) == command,
{
}

/// Status of the start stage, which checks the image header.
#[derive(Debug, Copy, Clone, PartialEq, Eq, Structural)]
pub enum StartUpdateStatusCode {
    Success,
    HeaderCmacCheckError,
    HeaderVersionCheckError,
    HeaderCapabilityInfoError,
    Processing,
    HeaderFlashEraseError,
    HeaderInfoNotReceived,
    Retry,
    HeaderCommonParamError,
    HeaderOtherError,
}

impl StartUpdateStatusCode {
    /// The status that a raw status byte stands for in the start stage.
    pub open spec fn spec_from_int(value: u8) -> Self {
        match value {
            0x00 => Self::Success,
            0x01 => Self::HeaderCmacCheckError,
            0x02 => Self::HeaderVersionCheckError,
            0x03 => Self::HeaderCapabilityInfoError,
            0x04 => Self::Processing,
            0x05 => Self::HeaderFlashEraseError,
            0x06 => Self::HeaderInfoNotReceived,
            0x10 => Self::Retry,
            0x11 => Self::HeaderCommonParamError,
            _ => Self::HeaderOtherError,
        }
    }

    /// The byte that stands for a status on the wire.
    pub open spec fn spec_to_int(self) -> u8 {
        match self {
            Self::Success => 0x00,
            Self::HeaderCmacCheckError => 0x01,
            Self::HeaderVersionCheckError => 0x02,
            Self::HeaderCapabilityInfoError => 0x03,
            Self::Processing => 0x04,
            Self::HeaderFlashEraseError => 0x05,
            Self::HeaderInfoNotReceived => 0x06,
            Self::Retry => 0x10,
            Self::HeaderCommonParamError => 0x11,
            Self::HeaderOtherError => 0xFF,
        }
    }

    /// The name of a status in diagnostics.
    pub open spec fn spec_name(self) -> Seq<char> {
        match self {
            Self::Success => "SUCCESS"@,
            Self::HeaderCmacCheckError => "HEADER_CMAC_CHECK_ERROR"@,
            Self::HeaderVersionCheckError => "HEADER_VERSION_CHECK_ERROR"@,
            Self::HeaderCapabilityInfoError => "HEADER_CAPABILITY_INFO_ERROR"@,
            Self::Processing => "PROCESSING"@,
            Self::HeaderFlashEraseError => "HEADER_FLASH_ERASE_ERROR"@,
            Self::HeaderInfoNotReceived => "HEADER_INFO_NOT_RECEIVED"@,
            Self::Retry => "RETRY"@,
            Self::HeaderCommonParamError => "HEADER_COMMON_PARAM_ERROR"@,
            Self::HeaderOtherError => "HEADER_OTHER_ERROR"@,
        }
    }

    /// Whether a status completes the stage, asks for another poll, or ends the
    /// stage with a named reason.
    pub open spec fn spec_outcome(self) -> Outcome {
        match self {
            Self::Success => Outcome::Success,
            Self::HeaderCmacCheckError => Outcome::Terminal(
                UpdateFailure::StartUpdate(StartUpdateError::HeaderCmacCheckError),
            ),
            Self::HeaderVersionCheckError => Outcome::Terminal(
                UpdateFailure::StartUpdate(StartUpdateError::HeaderVersionCheckError),
            ),
            Self::HeaderCapabilityInfoError => Outcome::Terminal(
                UpdateFailure::StartUpdate(StartUpdateError::HeaderCapabilityInfoError),
            ),
            Self::Processing => Outcome::Transient,
            Self::HeaderFlashEraseError => Outcome::Terminal(
                UpdateFailure::StartUpdate(StartUpdateError::HeaderFlashEraseError),
            ),
            Self::HeaderInfoNotReceived => Outcome::Terminal(
                UpdateFailure::StartUpdate(StartUpdateError::HeaderInfoNotReceived),
            ),
            Self::Retry => Outcome::Transient,
            Self::HeaderCommonParamError => Outcome::Terminal(
                UpdateFailure::StartUpdate(StartUpdateError::HeaderCommonParamError),
            ),
            Self::HeaderOtherError => Outcome::Terminal(
                UpdateFailure::StartUpdate(StartUpdateError::HeaderOtherError),
            ),
        }
    }

    /// Decodes a raw status byte. A byte that the table does not list is the
    /// stage's catch-all error.
    pub fn from_int(value: u8) -> (status: Self)
        ensures
            status == Self::spec_from_int(value),
    {
        match value {
            0x00 => Self::Success,
            0x01 => Self::HeaderCmacCheckError,
            0x02 => Self::HeaderVersionCheckError,
            0x03 => Self::HeaderCapabilityInfoError,
            0x04 => Self::Processing,
            0x05 => Self::HeaderFlashEraseError,
            0x06 => Self::HeaderInfoNotReceived,
            0x10 => Self::Retry,
            0x11 => Self::HeaderCommonParamError,
            _ => Self::HeaderOtherError,
        }
    }

    /// Encodes a status as its wire byte.
    pub fn to_int(self) -> (value: u8)
        ensures
            value == self.spec_to_int(),
    {
        match self {
            Self::Success => 0x00,
            Self::HeaderCmacCheckError => 0x01,
            Self::HeaderVersionCheckError => 0x02,
            Self::HeaderCapabilityInfoError => 0x03,
            Self::Processing => 0x04,
            Self::HeaderFlashEraseError => 0x05,
            Self::HeaderInfoNotReceived => 0x06,
            Self::Retry => 0x10,
            Self::HeaderCommonParamError => 0x11,
            Self::HeaderOtherError => 0xFF,
        }
    }

    /// The name of the status, as the device documentation spells it.
    pub fn name(self) -> (text: &'static str)
        ensures
            text@ == self.spec_name(),
    {
        match self {
            Self::Success => "SUCCESS",
            Self::HeaderCmacCheckError => "HEADER_CMAC_CHECK_ERROR",
            Self::HeaderVersionCheckError => "HEADER_VERSION_CHECK_ERROR",
            Self::HeaderCapabilityInfoError => "HEADER_CAPABILITY_INFO_ERROR",
            Self::Processing => "PROCESSING",
            Self::HeaderFlashEraseError => "HEADER_FLASH_ERASE_ERROR",
            Self::HeaderInfoNotReceived => "HEADER_INFO_NOT_RECEIVED",
            Self::Retry => "RETRY",
            Self::HeaderCommonParamError => "HEADER_COMMON_PARAM_ERROR",
            Self::HeaderOtherError => "HEADER_OTHER_ERROR",
        }
    }

    /// Classifies the status.
    pub fn outcome(self) -> (outcome: Outcome)
        ensures
            outcome == self.spec_outcome(),
    {
        match self {
            Self::Success => Outcome::Success,
            Self::HeaderCmacCheckError => Outcome::Terminal(
                UpdateFailure::StartUpdate(StartUpdateError::HeaderCmacCheckError),
            ),
            Self::HeaderVersionCheckError => Outcome::Terminal(
                UpdateFailure::StartUpdate(StartUpdateError::HeaderVersionCheckError),
            ),
            Self::HeaderCapabilityInfoError => Outcome::Terminal(
                UpdateFailure::StartUpdate(StartUpdateError::HeaderCapabilityInfoError),
            ),
            Self::Processing => Outcome::Transient,
            Self::HeaderFlashEraseError => Outcome::Terminal(
                UpdateFailure::StartUpdate(StartUpdateError::HeaderFlashEraseError),
            ),
            Self::HeaderInfoNotReceived => Outcome::Terminal(
                UpdateFailure::StartUpdate(StartUpdateError::HeaderInfoNotReceived),
            ),
            Self::Retry => Outcome::Transient,
            Self::HeaderCommonParamError => Outcome::Terminal(
                UpdateFailure::StartUpdate(StartUpdateError::HeaderCommonParamError),
            ),
            Self::HeaderOtherError => Outcome::Terminal(
                UpdateFailure::StartUpdate(StartUpdateError::HeaderOtherError),
            ),
        }
    }
}

/// Status of the write stage, which transfers the image.
#[derive(Debug, Copy, Clone, PartialEq, Eq, Structural)]
pub enum WriteUpdateStatusCode {
    Success,
    Retry,
    WriteImageFlashWriteError,
    SendNext,
    WriteUpdateNotStarted,
    AlsoRetry,
    WriteImageCommonParamError,
    WriteImageOtherError,
}

impl WriteUpdateStatusCode {
    /// The status that a raw status byte stands for in the write stage.
    pub open spec fn spec_from_int(value: u8) -> Self {
        match value {
            0x00 => Self::Success,
            0x01 => Self::Retry,
            0x02 => Self::WriteImageFlashWriteError,
            0x03 => Self::SendNext,
            0x04 => Self::WriteUpdateNotStarted,
            0x10 => Self::AlsoRetry,
            0x11 => Self::WriteImageCommonParamError,
            _ => Self::WriteImageOtherError,
        }
    }

    /// The byte that stands for a status on the wire.
    pub open spec fn spec_to_int(self) -> u8 {
        match self {
            Self::Success => 0x00,
            Self::Retry => 0x01,
            Self::WriteImageFlashWriteError => 0x02,
            Self::SendNext => 0x03,
            Self::WriteUpdateNotStarted => 0x04,
            Self::AlsoRetry => 0x10,
            Self::WriteImageCommonParamError => 0x11,
            Self::WriteImageOtherError => 0xFF,
        }
    }

    /// The name of a status in diagnostics.
    pub open spec fn spec_name(self) -> Seq<char> {
        match self {
            Self::Success => "SUCCESS"@,
            Self::Retry => "RETRY"@,
            Self::WriteImageFlashWriteError => "WRITE_IMAGE_FLASH_WRITE_ERROR"@,
            Self::SendNext => "SEND_NEXT"@,
            Self::WriteUpdateNotStarted => "WRITE_UPDATE_NOT_STARTED"@,
            Self::AlsoRetry => "ALSO_RETRY"@,
            Self::WriteImageCommonParamError => "WRITE_IMAGE_COMMON_PARAM_ERROR"@,
            Self::WriteImageOtherError => "WRITE_IMAGE_OTHER_ERROR"@,
        }
    }

    /// Whether a status completes the stage, asks for another poll, or ends the
    /// stage with a named reason.
    pub open spec fn spec_outcome(self) -> Outcome {
        match self {
            Self::Success => Outcome::Success,
            Self::Retry => Outcome::Transient,
            Self::WriteImageFlashWriteError => Outcome::Terminal(
                UpdateFailure::WriteUpdateImage(WriteUpdateImageError::WriteImageFlashWriteError),
            ),
            Self::SendNext => Outcome::Success,
            Self::WriteUpdateNotStarted => Outcome::Terminal(
                UpdateFailure::WriteUpdateImage(WriteUpdateImageError::WriteUpdateNotStarted),
            ),
            Self::AlsoRetry => Outcome::Transient,
            Self::WriteImageCommonParamError => Outcome::Terminal(
                UpdateFailure::WriteUpdateImage(WriteUpdateImageError::WriteImageCommonParamError),
            ),
            Self::WriteImageOtherError => Outcome::Terminal(
                UpdateFailure::WriteUpdateImage(WriteUpdateImageError::WriteImageOtherError),
            ),
        }
    }

    /// Decodes a raw status byte. A byte that the table does not list is the
    /// stage's catch-all error.
    pub fn from_int(value: u8) -> (status: Self)
        ensures
            status == Self::spec_from_int(value),
    {
        match value {
            0x00 => Self::Success,
            0x01 => Self::Retry,
            0x02 => Self::WriteImageFlashWriteError,
            0x03 => Self::SendNext,
            0x04 => Self::WriteUpdateNotStarted,
            0x10 => Self::AlsoRetry,
            0x11 => Self::WriteImageCommonParamError,
            _ => Self::WriteImageOtherError,
        }
    }

    /// Encodes a status as its wire byte.
    pub fn to_int(self) -> (value: u8)
        ensures
            value == self.spec_to_int(),
    {
        match self {
            Self::Success => 0x00,
            Self::Retry => 0x01,
            Self::WriteImageFlashWriteError => 0x02,
            Self::SendNext => 0x03,
            Self::WriteUpdateNotStarted => 0x04,
            Self::AlsoRetry => 0x10,
            Self::WriteImageCommonParamError => 0x11,
            Self::WriteImageOtherError => 0xFF,
        }
    }

    /// The name of the status, as the device documentation spells it.
    pub fn name(self) -> (text: &'static str)
        ensures
            text@ == self.spec_name(),
    {
        match self {
            Self::Success => "SUCCESS",
            Self::Retry => "RETRY",
            Self::WriteImageFlashWriteError => "WRITE_IMAGE_FLASH_WRITE_ERROR",
            Self::SendNext => "SEND_NEXT",
            Self::WriteUpdateNotStarted => "WRITE_UPDATE_NOT_STARTED",
            Self::AlsoRetry => "ALSO_RETRY",
            Self::WriteImageCommonParamError => "WRITE_IMAGE_COMMON_PARAM_ERROR",
            Self::WriteImageOtherError => "WRITE_IMAGE_OTHER_ERROR",
        }
    }

    /// Classifies the status.
    pub fn outcome(self) -> (outcome: Outcome)
        ensures
            outcome == self.spec_outcome(),
    {
        match self {
            Self::Success => Outcome::Success,
            Self::Retry => Outcome::Transient,
            Self::WriteImageFlashWriteError => Outcome::Terminal(
                UpdateFailure::WriteUpdateImage(WriteUpdateImageError::WriteImageFlashWriteError),
            ),
            Self::SendNext => Outcome::Success,
            Self::WriteUpdateNotStarted => Outcome::Terminal(
                UpdateFailure::WriteUpdateImage(WriteUpdateImageError::WriteUpdateNotStarted),
            ),
            Self::AlsoRetry => Outcome::Transient,
            Self::WriteImageCommonParamError => Outcome::Terminal(
                UpdateFailure::WriteUpdateImage(WriteUpdateImageError::WriteImageCommonParamError),
            ),
            Self::WriteImageOtherError => Outcome::Terminal(
                UpdateFailure::WriteUpdateImage(WriteUpdateImageError::WriteImageOtherError),
            ),
        }
    }
}

/// Status of the verify stage, which checks the transferred image.
#[derive(Debug, Copy, Clone, PartialEq, Eq, Structural)]
pub enum VerifyUpdateStatusCode {
    Success,
    KeepPolling,
    VerifyHeaderCmacCheckError,
    VerifyHeaderVersionCheckError,
    VerifyCapabilityInfoError,
    VerifyFwBodyCmacCheckError,
    VerifyCommonParamError,
    VerifyOtherError,
}

impl VerifyUpdateStatusCode {
    /// The status that a raw status byte stands for in the verify stage.
    pub open spec fn spec_from_int(value: u8) -> Self {
        match value {
            0x00 => Self::Success,
            0x10 => Self::KeepPolling,
            0x01 => Self::VerifyHeaderCmacCheckError,
            0x02 => Self::VerifyHeaderVersionCheckError,
            0x03 => Self::VerifyCapabilityInfoError,
            0x04 => Self::VerifyFwBodyCmacCheckError,
            0x11 => Self::VerifyCommonParamError,
            _ => Self::VerifyOtherError,
        }
    }

    /// The byte that stands for a status on the wire.
    pub open spec fn spec_to_int(self) -> u8 {
        match self {
            Self::Success => 0x00,
            Self::KeepPolling => 0x10,
            Self::VerifyHeaderCmacCheckError => 0x01,
            Self::VerifyHeaderVersionCheckError => 0x02,
            Self::VerifyCapabilityInfoError => 0x03,
            Self::VerifyFwBodyCmacCheckError => 0x04,
            Self::VerifyCommonParamError => 0x11,
            Self::VerifyOtherError => 0xFF,
        }
    }

    /// The name of a status in diagnostics.
    pub open spec fn spec_name(self) -> Seq<char> {
        match self {
            Self::Success => "SUCCESS"@,
            Self::KeepPolling => "KEEP_POLLING"@,
            Self::VerifyHeaderCmacCheckError => "VERIFY_HEADER_CMAC_CHECK_ERROR"@,
            Self::VerifyHeaderVersionCheckError => "VERIFY_HEADER_VERSION_CHECK_ERROR"@,
            Self::VerifyCapabilityInfoError => "VERIFY_CAPABILITY_INFO_ERROR"@,
            Self::VerifyFwBodyCmacCheckError => "VERIFY_FW_BODY_CMAC_CHECK_ERROR"@,
            Self::VerifyCommonParamError => "VERIFY_COMMON_PARAM_ERROR"@,
            Self::VerifyOtherError => "VERIFY_OTHER_ERROR"@,
        }
    }

    /// Whether a status completes the stage, asks for another poll, or ends the
    /// stage with a named reason.
    pub open spec fn spec_outcome(self) -> Outcome {
        match self {
            Self::Success => Outcome::Success,
            Self::KeepPolling => Outcome::Transient,
            Self::VerifyHeaderCmacCheckError => Outcome::Terminal(
                UpdateFailure::VerifyUpdateImage(
                    VerifyUpdateImageError::VerifyHeaderCmacCheckError,
                ),
            ),
            Self::VerifyHeaderVersionCheckError => Outcome::Terminal(
                UpdateFailure::VerifyUpdateImage(
                    VerifyUpdateImageError::VerifyHeaderVersionCheckError,
                ),
            ),
            Self::VerifyCapabilityInfoError => Outcome::Terminal(
                UpdateFailure::VerifyUpdateImage(VerifyUpdateImageError::VerifyCapabilityInfoError),
            ),
            Self::VerifyFwBodyCmacCheckError => Outcome::Terminal(
                UpdateFailure::VerifyUpdateImage(
                    VerifyUpdateImageError::VerifyFwBodyCmacCheckError,
                ),
            ),
            Self::VerifyCommonParamError => Outcome::Terminal(
                UpdateFailure::VerifyUpdateImage(VerifyUpdateImageError::VerifyCommonParamError),
            ),
            Self::VerifyOtherError => Outcome::Terminal(
                UpdateFailure::VerifyUpdateImage(VerifyUpdateImageError::VerifyOtherError),
            ),
        }
    }

    /// Decodes a raw status byte. A byte that the table does not list is the
    /// stage's catch-all error.
    pub fn from_int(value: u8) -> (status: Self)
        ensures
            status == Self::spec_from_int(value),
    {
        match value {
            0x00 => Self::Success,
            0x10 => Self::KeepPolling,
            0x01 => Self::VerifyHeaderCmacCheckError,
            0x02 => Self::VerifyHeaderVersionCheckError,
            0x03 => Self::VerifyCapabilityInfoError,
            0x04 => Self::VerifyFwBodyCmacCheckError,
            0x11 => Self::VerifyCommonParamError,
            _ => Self::VerifyOtherError,
        }
    }

    /// Encodes a status as its wire byte.
    pub fn to_int(self) -> (value: u8)
        ensures
            value == self.spec_to_int(),
    {
        match self {
            Self::Success => 0x00,
            Self::KeepPolling => 0x10,
            Self::VerifyHeaderCmacCheckError => 0x01,
            Self::VerifyHeaderVersionCheckError => 0x02,
            Self::VerifyCapabilityInfoError => 0x03,
            Self::VerifyFwBodyCmacCheckError => 0x04,
            Self::VerifyCommonParamError => 0x11,
            Self::VerifyOtherError => 0xFF,
        }
    }

    /// The name of the status, as the device documentation spells it.
    pub fn name(self) -> (text: &'static str)
        ensures
            text@ == self.spec_name(),
    {
        match self {
            Self::Success => "SUCCESS",
            Self::KeepPolling => "KEEP_POLLING",
            Self::VerifyHeaderCmacCheckError => "VERIFY_HEADER_CMAC_CHECK_ERROR",
            Self::VerifyHeaderVersionCheckError => "VERIFY_HEADER_VERSION_CHECK_ERROR",
            Self::VerifyCapabilityInfoError => "VERIFY_CAPABILITY_INFO_ERROR",
            Self::VerifyFwBodyCmacCheckError => "VERIFY_FW_BODY_CMAC_CHECK_ERROR",
            Self::VerifyCommonParamError => "VERIFY_COMMON_PARAM_ERROR",
            Self::VerifyOtherError => "VERIFY_OTHER_ERROR",
        }
    }

    /// Classifies the status.
    pub fn outcome(self) -> (outcome: Outcome)
        ensures
            outcome == self.spec_outcome(),
    {
        match self {
            Self::Success => Outcome::Success,
            Self::KeepPolling => Outcome::Transient,
            Self::VerifyHeaderCmacCheckError => Outcome::Terminal(
                UpdateFailure::VerifyUpdateImage(
                    VerifyUpdateImageError::VerifyHeaderCmacCheckError,
                ),
            ),
            Self::VerifyHeaderVersionCheckError => Outcome::Terminal(
                UpdateFailure::VerifyUpdateImage(
                    VerifyUpdateImageError::VerifyHeaderVersionCheckError,
                ),
            ),
            Self::VerifyCapabilityInfoError => Outcome::Terminal(
                UpdateFailure::VerifyUpdateImage(VerifyUpdateImageError::VerifyCapabilityInfoError),
            ),
            Self::VerifyFwBodyCmacCheckError => Outcome::Terminal(
                UpdateFailure::VerifyUpdateImage(
                    VerifyUpdateImageError::VerifyFwBodyCmacCheckError,
                ),
            ),
            Self::VerifyCommonParamError => Outcome::Terminal(
                UpdateFailure::VerifyUpdateImage(VerifyUpdateImageError::VerifyCommonParamError),
            ),
            Self::VerifyOtherError => Outcome::Terminal(
                UpdateFailure::VerifyUpdateImage(VerifyUpdateImageError::VerifyOtherError),
            ),
        }
    }
}

/// The start table. `0x00` is success, `0x04` and `0x10` ask for another poll,
/// and every other byte ends the stage: six bytes with a reason of their own,
/// all the rest with `HeaderOtherError`.
pub proof fn lemma_start_table(raw: u8)
    ensures
        ({
            let outcome = StartUpdateStatusCode::spec_from_int(raw).spec_outcome();
            let named = raw == 0x01 || raw == 0x02 || raw == 0x03 || raw == 0x05 || raw == 0x06
                || raw == 0x11;
            &&& outcome is Success <==> raw == 0x00
            &&& outcome is Transient <==> raw == 0x04 || raw == 0x10
            &&& outcome is Terminal <==> raw != 0x00 && raw != 0x04 && raw != 0x10
            &&& outcome is Terminal ==> outcome->Terminal_0 is StartUpdate
            &&& outcome == Outcome::Terminal(
                UpdateFailure::StartUpdate(StartUpdateError::HeaderOtherError),
            ) <==> raw != 0x00 && raw != 0x04 && raw != 0x10 && !named
            &&& raw == 0x01 ==> outcome == Outcome::Terminal(
                UpdateFailure::StartUpdate(StartUpdateError::HeaderCmacCheckError),
            )
            &&& raw == 0x02 ==> outcome == Outcome::Terminal(
                UpdateFailure::StartUpdate(StartUpdateError::HeaderVersionCheckError),
            )
            &&& raw == 0x03 ==> outcome == Outcome::Terminal(
                UpdateFailure::StartUpdate(StartUpdateError::HeaderCapabilityInfoError),
            )
            &&& raw == 0x05 ==> outcome == Outcome::Terminal(
                UpdateFailure::StartUpdate(StartUpdateError::HeaderFlashEraseError),
            )
            &&& raw == 0x06 ==> outcome == Outcome::Terminal(
                UpdateFailure::StartUpdate(StartUpdateError::HeaderInfoNotReceived),
            )
            &&& raw == 0x11 ==> outcome == Outcome::Terminal(
                UpdateFailure::StartUpdate(StartUpdateError::HeaderCommonParamError),
            )
        }),
{
}

/// The write table. `0x00` and `0x03` let the transfer go on, `0x01` and
/// `0x10` ask for another poll, and every other byte ends the stage: three
/// bytes with a reason of their own, all the rest with `WriteImageOtherError`.
pub proof fn lemma_write_table(raw: u8)
    ensures
        ({
            let outcome = WriteUpdateStatusCode::spec_from_int(raw).spec_outcome();
            let named = raw == 0x02 || raw == 0x04 || raw == 0x11;
            &&& outcome is Success <==> raw == 0x00 || raw == 0x03
            &&& outcome is Transient <==> raw == 0x01 || raw == 0x10
            &&& outcome is Terminal <==> raw != 0x00 && raw != 0x03 && raw != 0x01 && raw != 0x10
            &&& outcome is Terminal ==> outcome->Terminal_0 is WriteUpdateImage
            &&& outcome == Outcome::Terminal(
                UpdateFailure::WriteUpdateImage(WriteUpdateImageError::WriteImageOtherError),
            ) <==> raw != 0x00 && raw != 0x03 && raw != 0x01 && raw != 0x10 && !named
            &&& raw == 0x02 ==> outcome == Outcome::Terminal(
                UpdateFailure::WriteUpdateImage(WriteUpdateImageError::WriteImageFlashWriteError),
            )
            &&& raw == 0x04 ==> outcome == Outcome::Terminal(
                UpdateFailure::WriteUpdateImage(WriteUpdateImageError::WriteUpdateNotStarted),
            )
            &&& raw == 0x11 ==> outcome == Outcome::Terminal(
                UpdateFailure::WriteUpdateImage(WriteUpdateImageError::WriteImageCommonParamError),
            )
        }),
{
}

/// The verify table. `0x00` is success, `0x10` asks for another poll, and
/// every other byte ends the stage: five bytes with a reason of their own, all
/// the rest with `VerifyOtherError`.
pub proof fn lemma_verify_table(raw: u8)
    ensures
        ({
            let outcome = VerifyUpdateStatusCode::spec_from_int(raw).spec_outcome();
            let named = raw == 0x01 || raw == 0x02 || raw == 0x03 || raw == 0x04 || raw == 0x11;
            &&& outcome is Success <==> raw == 0x00
            &&& outcome is Transient <==> raw == 0x10
            &&& outcome is Terminal <==> raw != 0x00 && raw != 0x10
            &&& outcome is Terminal ==> outcome->Terminal_0 is VerifyUpdateImage
            &&& outcome == Outcome::Terminal(
                UpdateFailure::VerifyUpdateImage(VerifyUpdateImageError::VerifyOtherError),
            ) <==> raw != 0x00 && raw != 0x10 && !named
            &&& raw == 0x01 ==> outcome == Outcome::Terminal(
                UpdateFailure::VerifyUpdateImage(
                    VerifyUpdateImageError::VerifyHeaderCmacCheckError,
                ),
            )
            &&& raw == 0x02 ==> outcome == Outcome::Terminal(
                UpdateFailure::VerifyUpdateImage(
                    VerifyUpdateImageError::VerifyHeaderVersionCheckError,
                ),
            )
            &&& raw == 0x03 ==> outcome == Outcome::Terminal(
                UpdateFailure::VerifyUpdateImage(VerifyUpdateImageError::VerifyCapabilityInfoError),
            )
            &&& raw == 0x04 ==> outcome == Outcome::Terminal(
                UpdateFailure::VerifyUpdateImage(
                    VerifyUpdateImageError::VerifyFwBodyCmacCheckError,
                ),
            )
            &&& raw == 0x11 ==> outcome == Outcome::Terminal(
                UpdateFailure::VerifyUpdateImage(VerifyUpdateImageError::VerifyCommonParamError),
            )
        }),
{
}

/// A status byte and its status stand for one another: a known status encodes
/// to the byte it was decoded from.
pub proof fn lemma_status_round_trip(raw: u8)
    ensures
        StartUpdateStatusCode::spec_from_int(raw) != StartUpdateStatusCode::HeaderOtherError
            ==> StartUpdateStatusCode::spec_from_int(raw).spec_to_int() == raw,
        WriteUpdateStatusCode::spec_from_int(raw) != WriteUpdateStatusCode::WriteImageOtherError
            ==> WriteUpdateStatusCode::spec_from_int(raw).spec_to_int() == raw,
        VerifyUpdateStatusCode::spec_from_int(raw) != VerifyUpdateStatusCode::VerifyOtherError
            ==> VerifyUpdateStatusCode::spec_from_int(raw).spec_to_int() == raw,
{
}

/// The number of bytes in front of the first NUL byte: the length of the text
/// that a NUL-padded field holds.
pub open spec fn text_len(data: Seq<u8>) -> nat
    decreases data.len(),
{
    if data.len() == 0 || data[0] == 0 {
        0
    } else {
        1 + text_len(data.drop_first())
    }
}

/// The bytes in front of the first NUL byte; all of them where there is none.
pub open spec fn until_nul(data: Seq<u8>) -> Seq<u8> {
    data.take(text_len(data) as int)
}

/// `text_len` is the position of the first NUL byte, or the length of the data
/// where no byte is NUL.
pub proof fn lemma_text_len(data: Seq<u8>)
    ensures
        text_len(data) <= data.len(),
        forall|i: int| 0 <= i < text_len(data) ==> data[i] != 0,
        text_len(data) < data.len() ==> data[text_len(data) as int] == 0,
    decreases data.len(),
{
    if data.len() == 0 || data[0] == 0 {
    } else {
        let rest = data.drop_first();
        lemma_text_len(rest);
        assert forall|i: int| 0 <= i < text_len(data) implies data[i] != 0 by {
            if i > 0 {
                assert(data[i] == rest[i - 1]);
            }
        }
        if text_len(data) < data.len() {
            assert(data[text_len(data) as int] == rest[text_len(rest) as int]);
        }
    }
}

/// A position with no NUL byte in front of it, and with a NUL byte or the end
/// of the data at it, is `text_len`.
pub proof fn lemma_text_len_unique(data: Seq<u8>, n: int)
    requires
        0 <= n <= data.len(),
        forall|i: int| 0 <= i < n ==> data[i] != 0,
        n < data.len() ==> data[n] == 0,
    ensures
        text_len(data) == n,
{
    lemma_text_len(data);
    let m = text_len(data) as int;
    if m < n {
        assert(data[m] == 0);
    } else if n < m {
        assert(data[n] != 0);
    }
}

/// What `String::from_utf8_lossy` makes of a byte string: its text where the
/// bytes are UTF-8, and otherwise a text in which each malformed stretch has
/// become a replacement character.
pub uninterp spec fn utf8_lossy(bytes: Seq<u8>) -> Seq<char>;

/// The text of a NUL-padded field: what the bytes in front of the first NUL
/// byte read as.
pub open spec fn ascii_text(data: Seq<u8>) -> Seq<char> {
    utf8_lossy(until_nul(data))
}

/// Whether the bytes are ASCII: each of them below `0x80`.
pub open spec fn is_plain(bytes: Seq<u8>) -> bool {
    forall|i: int| 0 <= i < bytes.len() ==> #[trigger] bytes[i] < 0x80
}

/// The characters that ASCII bytes stand for, one for one.
pub open spec fn plain_text(bytes: Seq<u8>) -> Seq<char> {
    Seq::new(bytes.len(), |i: int| bytes[i] as char)
}

/// ASCII bytes are valid UTF-8, and the text they encode is their characters.
pub proof fn lemma_plain_is_utf8(bytes: Seq<u8>)
    requires
        is_plain(bytes),
    ensures
        valid_utf8(bytes),
        decode_utf8(bytes) == plain_text(bytes),
{
    let chars = plain_text(bytes);
    assert(is_ascii_chars(chars));
    is_ascii_chars_encode_utf8(chars);
    assert(encode_utf8(chars) =~= bytes);
    encode_utf8_valid_utf8(chars);
    encode_utf8_decode_utf8(chars);
}

/// Calls `String::from_utf8_lossy`. The text it returns depends on the bytes
/// alone, and for bytes that are valid UTF-8 it is the text they encode.
#[verifier::external_body]
fn from_utf8_lossy(bytes: &[u8]) -> (text: String)
    ensures
        text@ == utf8_lossy(bytes@),
        valid_utf8(bytes@) ==> text@ == decode_utf8(bytes@),
{
    String::from_utf8_lossy(bytes).into_owned()
}

/// Reads a NUL-padded text field: the bytes up to the first NUL byte, decoded
/// as UTF-8, with a replacement character for what is not UTF-8.
pub fn decode_ascii(data: &[u8]) -> (text: String)
    ensures
        text@ == ascii_text(data@),
        is_plain(until_nul(data@)) ==> text@ == plain_text(until_nul(data@)),
{
    let mut end: usize = 0;
    while end < data.len() && data[end] != 0
        invariant
            end <= data.len(),
            forall|i: int| 0 <= i < end ==> data@[i] != 0,
        decreases data.len() - end,
    {
        end = end + 1;
    }
    proof {
        lemma_text_len_unique(data@, end as int);
        if is_plain(until_nul(data@)) {
            lemma_plain_is_utf8(until_nul(data@));
        }
    }
    from_utf8_lossy(slice_subrange(data, 0, end))
}

/// The number that two bytes hold in little-endian order.
pub open spec fn le16(low: u8, high: u8) -> u16 {
    (low as int + 256 * (high as int)) as u16
}

/// What the device reports about the firmware it runs.
#[derive(Debug, Clone, PartialEq, Eq)]
pub struct FirmwareInfo {
    pub build_date: String,
    pub build_time: String,
    pub firmware_version: u16,
    /// The payload behind the two text fields, not interpreted further.
    pub unknown: Vec<u8>,
    /// The report as it was read.
    pub raw: Vec<u8>,
}

/// A `FirmwareInfo` as contracts see it.
pub struct FirmwareInfoView {
    pub build_date: Seq<char>,
    pub build_time: Seq<char>,
    pub firmware_version: u16,
    pub unknown: Seq<u8>,
    pub raw: Seq<u8>,
}

impl View for FirmwareInfo {
    type V = FirmwareInfoView;

    open spec fn view(&self) -> FirmwareInfoView {
        FirmwareInfoView {
            build_date: self.build_date@,
            build_time: self.build_time@,
            firmware_version: self.firmware_version,
            unknown: self.unknown@,
            raw: self.raw@,
        }
    }
}

/// A decoded status report.
#[derive(Debug, Clone, PartialEq, Eq)]
pub struct UpdateStatus {
    pub report_id: u8,
    /// The command that the status answers.
    pub command: UpdateCommand,
    /// The status byte, to be read by the table of that command's stage.
    pub status_raw: u8,
    /// The report as it was read.
    pub raw: Vec<u8>,
}

/// An `UpdateStatus` as contracts see it.
pub struct UpdateStatusView {
    pub report_id: u8,
    pub command: UpdateCommand,
    pub status_raw: u8,
    pub raw: Seq<u8>,
}

impl View for UpdateStatus {
    type V = UpdateStatusView;

    open spec fn view(&self) -> UpdateStatusView {
        UpdateStatusView {
            report_id: self.report_id,
            command: self.command,
            status_raw: self.status_raw,
            raw: self.raw@,
        }
    }
}

} // verus!
