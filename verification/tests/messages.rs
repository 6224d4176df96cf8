use dualsense_updater::error::{
    AppError, FinalizeUpdateError, StartUpdateError, UpdateFailure, VerifyUpdateImageError,
    WriteUpdateImageError,
};
use dualsense_updater::messages::{
    finalize_update_message, format_error, start_update_message, update_failure_debug,
    update_failure_message, verify_update_message, write_update_message,
};
use dualsense_updater::protocol::UpdateCommand;
use dualsense_updater::text::{to_decimal, to_hex4};

#[test]
fn decimal_notation() {
    for n in [0usize, 1, 9, 10, 11, 99, 100, 256, 0x8000, 0x8001, 1234567890, usize::MAX] {
        assert_eq!(to_decimal(n), format!("{}", n));
    }
}

#[test]
fn hexadecimal_notation() {
    for v in [0u16, 1, 0x0f, 0x10, 0xff, 0x100, 0x054c, 0x0ce6, 0xabcd, 0xffff] {
        assert_eq!(to_hex4(v), format!("{:04x}", v));
    }
}

#[test]
fn start_update_messages() {
    assert_eq!(
        start_update_message(StartUpdateError::HeaderVersionCheckError),
        "Firmware image is not an upgrade; downgrades are not allowed."
    );
    assert_eq!(
        start_update_message(StartUpdateError::HeaderCmacCheckError),
        "Firmware image header authentication failed."
    );
    assert_eq!(
        start_update_message(StartUpdateError::HeaderCapabilityInfoError),
        "Firmware image header capability info is invalid."
    );
    assert_eq!(
        start_update_message(StartUpdateError::HeaderFlashEraseError),
        "Device failed to erase flash for the update."
    );
    assert_eq!(
        start_update_message(StartUpdateError::HeaderInfoNotReceived),
        "Device did not receive the firmware header."
    );
    assert_eq!(
        start_update_message(StartUpdateError::HeaderCommonParamError),
        "Firmware image header parameters are invalid."
    );
    assert_eq!(
        start_update_message(StartUpdateError::HeaderOtherError),
        "Firmware image header failed for an unknown reason."
    );
}

#[test]
fn write_update_messages() {
    assert_eq!(
        write_update_message(WriteUpdateImageError::WriteImageFlashWriteError),
        "Device failed while writing the firmware image."
    );
    assert_eq!(
        write_update_message(WriteUpdateImageError::WriteUpdateNotStarted),
        "WriteUpdateImage was sent before StartUpdate completed."
    );
    assert_eq!(
        write_update_message(WriteUpdateImageError::WriteImageCommonParamError),
        "Firmware image parameters are invalid."
    );
    assert_eq!(
        write_update_message(WriteUpdateImageError::WriteImageOtherError),
        "Firmware image write failed for an unknown reason."
    );
}

#[test]
fn verify_update_messages() {
    assert_eq!(
        verify_update_message(VerifyUpdateImageError::VerifyHeaderCmacCheckError),
        "Firmware image header authentication failed during verify."
    );
    assert_eq!(
        verify_update_message(VerifyUpdateImageError::VerifyHeaderVersionCheckError),
        "Firmware image is not an upgrade; downgrades are not allowed."
    );
    assert_eq!(
        verify_update_message(VerifyUpdateImageError::VerifyCapabilityInfoError),
        "Firmware image capability info is invalid."
    );
    assert_eq!(
        verify_update_message(VerifyUpdateImageError::VerifyFwBodyCmacCheckError),
        "Firmware image body authentication failed."
    );
    assert_eq!(
        verify_update_message(VerifyUpdateImageError::VerifyCommonParamError),
        "Firmware image parameters are invalid."
    );
    assert_eq!(
        verify_update_message(VerifyUpdateImageError::VerifyOtherError),
        "Firmware image verification failed for an unknown reason."
    );
}

#[test]
fn finalize_update_messages() {
    assert_eq!(
        finalize_update_message(FinalizeUpdateError::FinalizeOtherError),
        "FinalizeUpdate failed for an unknown reason."
    );
}

#[test]
fn failure_messages_follow_the_stage() {
    assert_eq!(
        update_failure_message(&UpdateFailure::StartUpdate(StartUpdateError::HeaderCmacCheckError)),
        "Firmware image header authentication failed."
    );
    assert_eq!(
        update_failure_message(&UpdateFailure::WriteUpdateImage(
            WriteUpdateImageError::WriteUpdateNotStarted
        )),
        "WriteUpdateImage was sent before StartUpdate completed."
    );
    assert_eq!(
        update_failure_message(&UpdateFailure::VerifyUpdateImage(
            VerifyUpdateImageError::VerifyOtherError
        )),
        "Firmware image verification failed for an unknown reason."
    );
    assert_eq!(
        update_failure_message(&UpdateFailure::FinalizeUpdate(
            FinalizeUpdateError::FinalizeOtherError
        )),
        "FinalizeUpdate failed for an unknown reason."
    );
}

#[test]
fn failure_debug_names_stage_and_reason() {
    assert_eq!(
        update_failure_debug(&UpdateFailure::StartUpdate(
            StartUpdateError::HeaderVersionCheckError
        )),
        "UpdateFailed(StartUpdate(HEADER_VERSION_CHECK_ERROR))"
    );
    assert_eq!(
        update_failure_debug(&UpdateFailure::WriteUpdateImage(
            WriteUpdateImageError::WriteImageFlashWriteError
        )),
        "UpdateFailed(WriteUpdateImage(WRITE_IMAGE_FLASH_WRITE_ERROR))"
    );
    assert_eq!(
        update_failure_debug(&UpdateFailure::VerifyUpdateImage(
            VerifyUpdateImageError::VerifyCommonParamError
        )),
        "UpdateFailed(VerifyUpdateImage(VERIFY_COMMON_PARAM_ERROR))"
    );
    assert_eq!(
        update_failure_debug(&UpdateFailure::FinalizeUpdate(
            FinalizeUpdateError::FinalizeOtherError
        )),
        "UpdateFailed(FinalizeUpdate(FINALIZE_OTHER_ERROR))"
    );
}

#[test]
fn failure_says_stage_and_reason() {
    assert_eq!(
        UpdateFailure::StartUpdate(StartUpdateError::HeaderOtherError).message(),
        "StartUpdate failed: HEADER_OTHER_ERROR"
    );
    assert_eq!(
        UpdateFailure::WriteUpdateImage(WriteUpdateImageError::WriteImageOtherError).message(),
        "WriteUpdateImage failed: WRITE_IMAGE_OTHER_ERROR"
    );
    assert_eq!(
        UpdateFailure::VerifyUpdateImage(VerifyUpdateImageError::VerifyOtherError).message(),
        "VerifyUpdateImage failed: VERIFY_OTHER_ERROR"
    );
    assert_eq!(
        UpdateFailure::FinalizeUpdate(FinalizeUpdateError::FinalizeOtherError).message(),
        "FinalizeUpdate failed: FINALIZE_OTHER_ERROR"
    );
}

#[test]
fn every_error_says_what_it_is() {
    assert_eq!(AppError::Hid("device gone".to_string()).message(), "HID error: device gone");
    assert_eq!(AppError::Io("no such file".to_string()).message(), "IO error: no such file");
    assert_eq!(
        AppError::DeviceNotFound { vid: 0x054c, pid: 0x0ce6 }.message(),
        "Device not found for VID:PID 054c:0ce6"
    );
    assert_eq!(
        AppError::DevicePathNotMatched("/dev/hidraw3".to_string()).message(),
        "No device path matched /dev/hidraw3"
    );
    assert_eq!(
        AppError::MissingFirmwareImageForUpdate.message(),
        "FW_IMAGE is required for update commands"
    );
    assert_eq!(
        AppError::MissingFirmwareImageForInteractive.message(),
        "FW_IMAGE is required when no flags are provided"
    );
    assert_eq!(
        AppError::FirmwareImageTooSmall.message(),
        "Firmware image is too small to read version"
    );
    assert_eq!(
        AppError::FirmwareImageTooSmallForHeader.message(),
        "Firmware image must be at least 256 bytes"
    );
    assert_eq!(
        AppError::InvalidUpdateStreamLength(255).message(),
        "Update stream must be 256 bytes, got 255"
    );
    assert_eq!(
        AppError::UpdateImageTooLarge(32769).message(),
        "Update image must be <= 0x8000 bytes, got 32769"
    );
    assert_eq!(
        AppError::FirmwareInfoTooShort(19).message(),
        "Firmware info report too short: 19 bytes"
    );
    assert_eq!(
        AppError::FirmwareInfoPayloadTooShort(46).message(),
        "Firmware info payload too short: 46 bytes"
    );
    assert_eq!(AppError::UpdateStatusEmpty.message(), "Update status report is empty");
    assert_eq!(
        AppError::UpdateStatusMalformed(3).message(),
        "Update status report malformed: 3 bytes"
    );
    assert_eq!(
        AppError::UnexpectedUpdateStatusCommand(
            UpdateCommand::VerifyUpdateImage,
            UpdateCommand::StartUpdate
        )
        .message(),
        "Unexpected update status command: VerifyUpdateImage (expected StartUpdate)"
    );
    assert_eq!(
        AppError::UpdateFailed(UpdateFailure::StartUpdate(StartUpdateError::HeaderCmacCheckError))
            .message(),
        "Update failed: StartUpdate failed: HEADER_CMAC_CHECK_ERROR"
    );
}

#[test]
fn console_line_of_a_failed_stage() {
    assert_eq!(
        format_error(&AppError::UpdateFailed(UpdateFailure::StartUpdate(
            StartUpdateError::HeaderVersionCheckError
        ))),
        "Firmware image is not an upgrade; downgrades are not allowed. \
         (UpdateFailed(StartUpdate(HEADER_VERSION_CHECK_ERROR)))"
    );
    assert_eq!(
        format_error(&AppError::UpdateFailed(UpdateFailure::WriteUpdateImage(
            WriteUpdateImageError::WriteImageFlashWriteError
        ))),
        "Device failed while writing the firmware image. \
         (UpdateFailed(WriteUpdateImage(WRITE_IMAGE_FLASH_WRITE_ERROR)))"
    );
}

#[test]
fn console_line_of_any_other_error() {
    assert_eq!(
        format_error(&AppError::FirmwareImageTooSmallForHeader),
        "Firmware image must be at least 256 bytes (0x00)"
    );
    assert_eq!(
        format_error(&AppError::DeviceNotFound { vid: 0x054c, pid: 0x0ce6 }),
        "Device not found for VID:PID 054c:0ce6 (0x00)"
    );
    assert_eq!(
        format_error(&AppError::Hid("hidapi error: timeout".to_string())),
        "HID error: hidapi error: timeout (0x00)"
    );
    assert_eq!(
        format_error(&AppError::UpdateStatusMalformed(5)),
        "Update status report malformed: 5 bytes (0x00)"
    );
}

#[test]
fn duplicate_is_equal() {
    let errors = vec![
        AppError::Hid("x".to_string()),
        AppError::Io("y".to_string()),
        AppError::DeviceNotFound { vid: 1, pid: 2 },
        AppError::DevicePathNotMatched("p".to_string()),
        AppError::MissingFirmwareImageForUpdate,
        AppError::MissingFirmwareImageForInteractive,
        AppError::FirmwareImageTooSmall,
        AppError::FirmwareImageTooSmallForHeader,
        AppError::InvalidUpdateStreamLength(3),
        AppError::UpdateImageTooLarge(4),
        AppError::FirmwareInfoTooShort(5),
        AppError::FirmwareInfoPayloadTooShort(6),
        AppError::UpdateStatusEmpty,
        AppError::UpdateStatusMalformed(7),
        AppError::UnexpectedUpdateStatusCommand(
            UpdateCommand::Unknown,
            UpdateCommand::FinalizeUpdate,
        ),
        AppError::UpdateFailed(UpdateFailure::FinalizeUpdate(
            FinalizeUpdateError::FinalizeOtherError,
        )),
    ];
    for error in &errors {
        assert_eq!(&error.duplicate(), error);
    }
}
