use dualsense_updater::error::{
    AppError, StartUpdateError, UpdateFailure, VerifyUpdateImageError, WriteUpdateImageError,
};
use dualsense_updater::hid::DualSenseHid;
use dualsense_updater::protocol::UpdateCommand;
use dualsense_updater::update::{Action, DualSenseUpdater, Event, HEADER_LEN, POLL_INTERVAL_MS};

/// What a driver saw while it ran a stage against a scripted device.
struct Trace {
    result: Result<(), AppError>,
    sent: Vec<Vec<u8>>,
    polls: usize,
    sleeps: usize,
    /// The order of what was done: `S` for a send, `P` for a poll, `W` for a wait.
    order: String,
}

fn updater() -> DualSenseUpdater {
    DualSenseUpdater::new(DualSenseHid::open(&[], 0x054c, 0x0ce6, Some("/dev/hidraw0")).unwrap())
}

fn status(command: u8, code: u8) -> Vec<u8> {
    vec![0xF5, command, code, 0x00]
}

/// Runs the stage that `updater` has begun. Each poll is answered with the
/// next of `answers`.
fn drive(updater: &mut DualSenseUpdater, answers: Vec<Vec<u8>>) -> Trace {
    let mut answers = answers.into_iter();
    let mut trace = Trace {
        result: Ok(()),
        sent: Vec::new(),
        polls: 0,
        sleeps: 0,
        order: String::new(),
    };
    loop {
        assert!(trace.order.len() < 100_000, "the stage does not end");
        match updater.action() {
            Action::Send(report) => {
                assert!(!updater.is_finished());
                trace.sent.push(report);
                trace.order.push('S');
                updater.step(Event::Sent);
            }
            Action::Poll { report_id, length } => {
                assert_eq!((report_id, length), (0xF5, 4));
                assert!(!updater.is_finished());
                trace.polls += 1;
                trace.order.push('P');
                let answer = answers.next().expect("the stage polls more often than scripted");
                updater.step(Event::Status(answer));
            }
            Action::Sleep { millis } => {
                assert_eq!(millis, 10);
                assert!(!updater.is_finished());
                trace.sleeps += 1;
                trace.order.push('W');
                updater.step(Event::Slept);
            }
            Action::Finish(result) => {
                assert!(updater.is_finished());
                trace.result = result;
                break;
            }
        }
    }
    assert!(answers.next().is_none(), "the stage polls less often than scripted");
    trace
}

fn image(len: usize) -> Vec<u8> {
    (0..len).map(|i| (i * 13 + 5) as u8).collect()
}

fn payload_of(reports: &[Vec<u8>], command: u8) -> Vec<u8> {
    let mut payload = Vec::new();
    for report in reports {
        assert_eq!(report[0], 0xF4);
        assert_eq!(report[1], command);
        assert_eq!(report[2] as usize, report.len() - 3);
        assert!(report.len() <= 3 + 0x39);
        payload.extend_from_slice(&report[3..]);
    }
    payload
}

#[test]
fn constants() {
    assert_eq!(HEADER_LEN, 256);
    assert_eq!(POLL_INTERVAL_MS, 10);
}

#[test]
fn a_new_updater_has_nothing_to_do() {
    let mut updater = updater();
    assert_eq!(updater.dev().path(), "/dev/hidraw0");
    assert!(updater.is_finished());
    assert_eq!(updater.action(), Action::Finish(Ok(())));
    updater.step(Event::Sent);
    updater.step(Event::Status(status(0, 1)));
    updater.step(Event::Slept);
    assert_eq!(updater.action(), Action::Finish(Ok(())));
}

#[test]
fn start_update_succeeds_with_one_poll() {
    let image = image(256);
    let mut updater = updater();
    assert_eq!(updater.start_update(&image), Ok(()));
    let trace = drive(&mut updater, vec![status(0x00, 0x00)]);
    assert_eq!(trace.result, Ok(()));
    assert_eq!(trace.polls, 1);
    assert_eq!(trace.sleeps, 0);
    assert_eq!(trace.order, "SSSSSP");
    assert_eq!(trace.sent.len(), 5);
    assert_eq!(payload_of(&trace.sent, 0x00), image);
}

#[test]
fn start_update_sends_only_the_header() {
    let image = image(1000);
    let mut updater = updater();
    assert_eq!(updater.start_update(&image), Ok(()));
    let trace = drive(&mut updater, vec![status(0x00, 0x00)]);
    assert_eq!(trace.result, Ok(()));
    assert_eq!(payload_of(&trace.sent, 0x00), image[..256].to_vec());
}

#[test]
fn start_update_rejects_a_short_image() {
    let mut updater = updater();
    assert_eq!(
        updater.start_update(&image(255)),
        Err(AppError::FirmwareImageTooSmallForHeader)
    );
    assert_eq!(updater.start_update(&[]), Err(AppError::FirmwareImageTooSmallForHeader));
    assert_eq!(updater.action(), Action::Finish(Ok(())));
}

#[test]
fn a_rejected_stage_leaves_the_running_one_alone() {
    let mut updater = updater();
    updater.verify_update_image();
    assert_eq!(
        updater.start_update(&image(10)),
        Err(AppError::FirmwareImageTooSmallForHeader)
    );
    assert_eq!(updater.action(), Action::Send(vec![0xF4, 0x02, 0x00]));
}

#[test]
fn start_update_polls_while_the_device_is_busy() {
    let mut updater = updater();
    updater.start_update(&image(256)).unwrap();
    let trace = drive(
        &mut updater,
        vec![status(0x00, 0x04), status(0x00, 0x10), status(0x00, 0x04), status(0x00, 0x00)],
    );
    assert_eq!(trace.result, Ok(()));
    assert_eq!(trace.polls, 4);
    assert_eq!(trace.sleeps, 3);
    assert_eq!(trace.order, "SSSSSPWPWPWP");
}

#[test]
fn start_update_fails_with_the_reason_the_device_gives() {
    let cases = [
        (0x01u8, StartUpdateError::HeaderCmacCheckError),
        (0x02, StartUpdateError::HeaderVersionCheckError),
        (0x03, StartUpdateError::HeaderCapabilityInfoError),
        (0x05, StartUpdateError::HeaderFlashEraseError),
        (0x06, StartUpdateError::HeaderInfoNotReceived),
        (0x11, StartUpdateError::HeaderCommonParamError),
        (0x07, StartUpdateError::HeaderOtherError),
        (0xFF, StartUpdateError::HeaderOtherError),
    ];
    for (code, reason) in cases {
        let mut updater = updater();
        updater.start_update(&image(256)).unwrap();
        let trace = drive(&mut updater, vec![status(0x00, 0x04), status(0x00, code)]);
        assert_eq!(
            trace.result,
            Err(AppError::UpdateFailed(UpdateFailure::StartUpdate(reason)))
        );
        assert_eq!(trace.polls, 2);
    }
}

#[test]
fn a_status_for_another_command_is_a_sequence_error() {
    let mut updater = updater();
    updater.start_update(&image(256)).unwrap();
    let trace = drive(&mut updater, vec![status(0x02, 0x00)]);
    assert_eq!(
        trace.result,
        Err(AppError::UnexpectedUpdateStatusCommand(
            UpdateCommand::VerifyUpdateImage,
            UpdateCommand::StartUpdate
        ))
    );
    assert_eq!(trace.polls, 1);
    assert_eq!(trace.sleeps, 0);
}

#[test]
fn a_status_for_another_command_is_not_retried_even_if_transient() {
    let mut updater = updater();
    updater.verify_update_image();
    let trace = drive(&mut updater, vec![status(0x02, 0x10), status(0x7F, 0x10)]);
    assert_eq!(
        trace.result,
        Err(AppError::UnexpectedUpdateStatusCommand(
            UpdateCommand::Unknown,
            UpdateCommand::VerifyUpdateImage
        ))
    );
    assert_eq!(trace.polls, 2);
    assert_eq!(trace.sleeps, 1);
}

#[test]
fn an_empty_status_ends_the_stage() {
    let mut updater = updater();
    updater.verify_update_image();
    let trace = drive(&mut updater, vec![Vec::new()]);
    assert_eq!(trace.result, Err(AppError::UpdateStatusEmpty));
}

#[test]
fn a_malformed_status_ends_the_stage() {
    let mut updater = updater();
    updater.verify_update_image();
    let trace = drive(&mut updater, vec![vec![0xF5, 0x02, 0x00]]);
    assert_eq!(trace.result, Err(AppError::UpdateStatusMalformed(3)));

    let mut updater = self::updater();
    updater.start_update(&image(256)).unwrap();
    let trace = drive(&mut updater, vec![vec![0x00, 0x00, 0x00, 0x00]]);
    assert_eq!(trace.result, Err(AppError::UpdateStatusMalformed(4)));
}

#[test]
fn a_finished_stage_stays_finished() {
    let mut updater = updater();
    updater.verify_update_image();
    let trace = drive(&mut updater, vec![status(0x02, 0x03)]);
    let failed = Err(AppError::UpdateFailed(UpdateFailure::VerifyUpdateImage(
        VerifyUpdateImageError::VerifyCapabilityInfoError,
    )));
    assert_eq!(trace.result, failed);
    updater.step(Event::Sent);
    updater.step(Event::Status(status(0x02, 0x00)));
    updater.step(Event::Slept);
    assert_eq!(updater.action(), Action::Finish(failed));
}

#[test]
fn an_event_that_was_not_asked_for_changes_nothing() {
    let mut updater = updater();
    updater.verify_update_image();
    let send = Action::Send(vec![0xF4, 0x02, 0x00]);
    let poll = Action::Poll { report_id: 0xF5, length: 4 };
    assert_eq!(updater.action(), send);
    updater.step(Event::Slept);
    updater.step(Event::Status(status(0x02, 0x00)));
    assert_eq!(updater.action(), send);
    updater.step(Event::Sent);
    assert_eq!(updater.action(), poll);
    updater.step(Event::Sent);
    updater.step(Event::Slept);
    assert_eq!(updater.action(), poll);
    updater.step(Event::Status(status(0x02, 0x10)));
    assert_eq!(updater.action(), Action::Sleep { millis: 10 });
    updater.step(Event::Status(status(0x02, 0x00)));
    updater.step(Event::Sent);
    assert_eq!(updater.action(), Action::Sleep { millis: 10 });
    updater.step(Event::Slept);
    assert_eq!(updater.action(), poll);
    updater.step(Event::Status(status(0x02, 0x00)));
    assert_eq!(updater.action(), Action::Finish(Ok(())));
}

#[test]
fn write_update_image_polls_once_per_chunk() {
    let image = image(0x10005);
    let mut updater = updater();
    updater.write_update_image(&image);
    let trace = drive(
        &mut updater,
        vec![status(0x01, 0x03), status(0x01, 0x03), status(0x01, 0x00)],
    );
    assert_eq!(trace.result, Ok(()));
    assert_eq!(trace.polls, 3);
    assert_eq!(trace.sleeps, 0);
    let per_chunk = (0x8000 + 0x38) / 0x39;
    assert_eq!(trace.sent.len(), 2 * per_chunk + 1);
    let expected_order =
        format!("{}P{}P{}P", "S".repeat(per_chunk), "S".repeat(per_chunk), "S");
    assert_eq!(trace.order, expected_order);
    assert_eq!(payload_of(&trace.sent, 0x01), image);
    assert_eq!(trace.sent[per_chunk - 1].len(), 3 + 0x8000 % 0x39);
    assert_eq!(trace.sent[2 * per_chunk].len(), 3 + 5);
}

#[test]
fn write_update_image_waits_on_the_same_chunk() {
    let image = image(0x8001);
    let mut updater = updater();
    updater.write_update_image(&image);
    let trace = drive(
        &mut updater,
        vec![
            status(0x01, 0x01),
            status(0x01, 0x10),
            status(0x01, 0x03),
            status(0x01, 0x10),
            status(0x01, 0x00),
        ],
    );
    assert_eq!(trace.result, Ok(()));
    assert_eq!(trace.polls, 5);
    assert_eq!(trace.sleeps, 3);
    assert_eq!(payload_of(&trace.sent, 0x01), image);
    let per_chunk = (0x8000 + 0x38) / 0x39;
    assert_eq!(trace.order, format!("{}PWPWPSPWP", "S".repeat(per_chunk)));
}

#[test]
fn write_update_image_stops_at_the_first_failure() {
    let cases = [
        (0x02u8, WriteUpdateImageError::WriteImageFlashWriteError),
        (0x04, WriteUpdateImageError::WriteUpdateNotStarted),
        (0x11, WriteUpdateImageError::WriteImageCommonParamError),
        (0x05, WriteUpdateImageError::WriteImageOtherError),
    ];
    for (code, reason) in cases {
        let image = image(0x18000);
        let mut updater = updater();
        updater.write_update_image(&image);
        let trace = drive(&mut updater, vec![status(0x01, 0x03), status(0x01, code)]);
        assert_eq!(
            trace.result,
            Err(AppError::UpdateFailed(UpdateFailure::WriteUpdateImage(reason)))
        );
        assert_eq!(payload_of(&trace.sent, 0x01), image[..0x10000].to_vec());
    }
}

#[test]
fn write_update_image_of_an_empty_image_does_nothing() {
    let mut updater = updater();
    updater.write_update_image(&[]);
    let trace = drive(&mut updater, Vec::new());
    assert_eq!(trace.result, Ok(()));
    assert!(trace.sent.is_empty());
    assert_eq!(trace.polls, 0);
}

#[test]
fn verify_update_image_polls_until_the_device_has_decided() {
    let mut updater = updater();
    updater.verify_update_image();
    let trace = drive(
        &mut updater,
        vec![status(0x02, 0x10), status(0x02, 0x10), status(0x02, 0x00)],
    );
    assert_eq!(trace.result, Ok(()));
    assert_eq!(trace.sent, vec![vec![0xF4, 0x02, 0x00]]);
    assert_eq!(trace.order, "SPWPWP");
}

#[test]
fn verify_update_image_fails_with_the_reason_the_device_gives() {
    let cases = [
        (0x01u8, VerifyUpdateImageError::VerifyHeaderCmacCheckError),
        (0x02, VerifyUpdateImageError::VerifyHeaderVersionCheckError),
        (0x03, VerifyUpdateImageError::VerifyCapabilityInfoError),
        (0x04, VerifyUpdateImageError::VerifyFwBodyCmacCheckError),
        (0x11, VerifyUpdateImageError::VerifyCommonParamError),
        (0x12, VerifyUpdateImageError::VerifyOtherError),
    ];
    for (code, reason) in cases {
        let mut updater = updater();
        updater.verify_update_image();
        let trace = drive(&mut updater, vec![status(0x02, code)]);
        assert_eq!(
            trace.result,
            Err(AppError::UpdateFailed(UpdateFailure::VerifyUpdateImage(reason)))
        );
    }
}

#[test]
fn finalize_update_sends_and_does_not_poll() {
    let mut updater = updater();
    updater.finalize_update();
    let trace = drive(&mut updater, Vec::new());
    assert_eq!(trace.result, Ok(()));
    assert_eq!(trace.sent, vec![vec![0xF4, 0x03, 0x00]]);
    assert_eq!(trace.polls, 0);
    assert_eq!(trace.order, "S");
}

#[test]
fn the_four_stages_in_a_row() {
    let image = image(0x9000);
    let mut updater = updater();
    updater.start_update(&image).unwrap();
    assert_eq!(drive(&mut updater, vec![status(0x00, 0x00)]).result, Ok(()));
    updater.write_update_image(&image);
    let written = drive(&mut updater, vec![status(0x01, 0x03), status(0x01, 0x00)]);
    assert_eq!(written.result, Ok(()));
    assert_eq!(payload_of(&written.sent, 0x01), image);
    updater.verify_update_image();
    assert_eq!(drive(&mut updater, vec![status(0x02, 0x00)]).result, Ok(()));
    updater.finalize_update();
    assert_eq!(drive(&mut updater, Vec::new()).result, Ok(()));
}

#[test]
fn a_start_command_takes_exactly_the_header() {
    let mut updater = updater();
    assert_eq!(
        updater.send_start_update_and_wait(&image(255)),
        Err(AppError::InvalidUpdateStreamLength(255))
    );
    assert_eq!(
        updater.send_start_update_and_wait(&image(257)),
        Err(AppError::InvalidUpdateStreamLength(257))
    );
    assert_eq!(updater.action(), Action::Finish(Ok(())));
    assert_eq!(updater.send_start_update_and_wait(&image(256)), Ok(()));
    let trace = drive(&mut updater, vec![status(0x00, 0x00)]);
    assert_eq!(payload_of(&trace.sent, 0x00), image(256));
}

#[test]
fn a_write_command_takes_at_most_a_chunk() {
    let mut updater = updater();
    assert_eq!(
        updater.send_write_update_image_and_wait(&image(0x8001)),
        Err(AppError::UpdateImageTooLarge(0x8001))
    );
    assert_eq!(updater.action(), Action::Finish(Ok(())));
    assert_eq!(updater.send_write_update_image_and_wait(&image(0x8000)), Ok(()));
    let trace = drive(&mut updater, vec![status(0x01, 0x00)]);
    assert_eq!(trace.result, Ok(()));
    assert_eq!(payload_of(&trace.sent, 0x01), image(0x8000));
}

#[test]
fn a_write_command_without_payload_is_still_sent() {
    let mut updater = updater();
    assert_eq!(updater.send_write_update_image_and_wait(&[]), Ok(()));
    let trace = drive(&mut updater, vec![status(0x01, 0x00)]);
    assert_eq!(trace.result, Ok(()));
    assert_eq!(trace.sent, vec![vec![0xF4, 0x01, 0x00]]);
}

#[test]
fn single_commands_of_verify_and_finalize() {
    let mut updater = updater();
    updater.send_verify_update_image_and_wait();
    let trace = drive(&mut updater, vec![status(0x02, 0x00)]);
    assert_eq!(trace.sent, vec![vec![0xF4, 0x02, 0x00]]);
    updater.send_finalize_update();
    let trace = drive(&mut updater, Vec::new());
    assert_eq!(trace.sent, vec![vec![0xF4, 0x03, 0x00]]);
    assert_eq!(trace.result, Ok(()));
}

#[test]
fn firmware_version_of_an_image() {
    let mut image = vec![0u8; 0x7A];
    image[0x78] = 0x34;
    image[0x79] = 0x12;
    assert_eq!(DualSenseUpdater::firmware_version_from_image(&image), Ok(0x1234));
    image[0x78] = 0xFF;
    image[0x79] = 0xFF;
    image.push(0x01);
    assert_eq!(DualSenseUpdater::firmware_version_from_image(&image), Ok(0xFFFF));
}

#[test]
fn firmware_version_of_a_short_image() {
    assert_eq!(
        DualSenseUpdater::firmware_version_from_image(&vec![0u8; 0x79]),
        Err(AppError::FirmwareImageTooSmall)
    );
    assert_eq!(
        DualSenseUpdater::firmware_version_from_image(&[]),
        Err(AppError::FirmwareImageTooSmall)
    );
}

#[test]
fn read_firmware_info_decodes_the_report() {
    let mut raw = vec![0u8; 64];
    raw[..8].copy_from_slice(b"20230101");
    raw[12..17].copy_from_slice(b"09:15");
    raw[44] = 0x01;
    raw[45] = 0x02;
    let info = updater().read_firmware_info(raw).unwrap();
    assert_eq!(info.build_date, "20230101");
    assert_eq!(info.build_time, "09:15");
    assert_eq!(info.firmware_version, 0x0201);
    assert_eq!(
        updater().read_firmware_info(vec![0u8; 5]),
        Err(AppError::FirmwareInfoTooShort(5))
    );
}
