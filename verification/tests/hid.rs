use dualsense_updater::error::{AppError, UpdateFailure, WriteUpdateImageError};
use dualsense_updater::hid::{
    find_first_device_path, find_path, DeviceInfo, DualSenseHid, FIRMWARE_INFO_REPORT_LEN,
    UPDATE_STATUS_REPORT_LEN,
};
use dualsense_updater::protocol::{Outcome, UpdateCommand, WriteUpdateStatusCode};

fn device(vid: u16, pid: u16, path: &str) -> DeviceInfo {
    DeviceInfo { vendor_id: vid, product_id: pid, path: path.to_string() }
}

fn well_formed_info() -> Vec<u8> {
    let mut raw = vec![0u8; 64];
    raw[..8].copy_from_slice(b"20230101");
    raw[12..20].copy_from_slice(b"12:34:56");
    raw[44] = 0x01;
    raw[45] = 0x02;
    raw[50] = 0x99;
    raw
}

#[test]
fn report_lengths() {
    assert_eq!(FIRMWARE_INFO_REPORT_LEN, 64);
    assert_eq!(UPDATE_STATUS_REPORT_LEN, 4);
}

#[test]
fn firmware_info_decodes_a_well_formed_report() {
    let raw = well_formed_info();
    let info = DualSenseHid::get_firmware_info(raw.clone()).unwrap();
    assert_eq!(info.build_date, "20230101");
    assert_eq!(info.build_time, "12:34:56");
    assert_eq!(info.firmware_version, 0x0201);
    assert_eq!(info.unknown, raw[20..].to_vec());
    assert_eq!(info.raw, raw);
}

#[test]
fn firmware_info_drops_an_echoed_report_id() {
    let mut raw = vec![0x20u8];
    raw.extend_from_slice(&well_formed_info());
    let info = DualSenseHid::get_firmware_info(raw.clone()).unwrap();
    assert_eq!(info.build_date, "20230101");
    assert_eq!(info.build_time, "12:34:56");
    assert_eq!(info.firmware_version, 0x0201);
    assert_eq!(info.unknown, raw[21..].to_vec());
    assert_eq!(info.raw, raw);
}

#[test]
fn firmware_info_keeps_the_first_byte_of_a_report_of_64_bytes() {
    let mut raw = well_formed_info();
    raw[0] = 0x20;
    let info = DualSenseHid::get_firmware_info(raw).unwrap();
    assert_eq!(info.build_date, "\u{20}0230101");
}

#[test]
fn firmware_info_keeps_the_first_byte_where_it_is_not_the_report_id() {
    let mut raw = well_formed_info();
    raw.push(0x55);
    let info = DualSenseHid::get_firmware_info(raw.clone()).unwrap();
    assert_eq!(info.build_date, "20230101");
    assert_eq!(info.unknown, raw[20..].to_vec());
}

#[test]
fn firmware_info_too_short() {
    assert_eq!(
        DualSenseHid::get_firmware_info(vec![0u8; 19]),
        Err(AppError::FirmwareInfoTooShort(19))
    );
    assert_eq!(
        DualSenseHid::get_firmware_info(Vec::new()),
        Err(AppError::FirmwareInfoTooShort(0))
    );
}

#[test]
fn firmware_info_payload_too_short() {
    assert_eq!(
        DualSenseHid::get_firmware_info(vec![0u8; 20]),
        Err(AppError::FirmwareInfoPayloadTooShort(20))
    );
    assert_eq!(
        DualSenseHid::get_firmware_info(vec![0u8; 46]),
        Err(AppError::FirmwareInfoPayloadTooShort(46))
    );
    assert!(DualSenseHid::get_firmware_info(vec![0u8; 47]).is_ok());
}

#[test]
fn status_decodes_a_well_formed_report() {
    let status = DualSenseHid::get_update_status(vec![0xF5, 0x01, 0x02, 0x00]).unwrap();
    assert_eq!(status.report_id, 0xF5);
    assert_eq!(status.command, UpdateCommand::WriteUpdateImage);
    assert_eq!(status.status_raw, 0x02);
    assert_eq!(status.raw, vec![0xF5, 0x01, 0x02, 0x00]);
    let code = WriteUpdateStatusCode::from_int(status.status_raw);
    assert_eq!(code, WriteUpdateStatusCode::WriteImageFlashWriteError);
    assert_eq!(
        code.outcome(),
        Outcome::Terminal(UpdateFailure::WriteUpdateImage(
            WriteUpdateImageError::WriteImageFlashWriteError
        ))
    );
}

#[test]
fn status_of_an_unknown_command() {
    let status = DualSenseHid::get_update_status(vec![0xF5, 0x7E, 0x10, 0xAA]).unwrap();
    assert_eq!(status.command, UpdateCommand::Unknown);
    assert_eq!(status.status_raw, 0x10);
}

#[test]
fn status_empty() {
    assert_eq!(DualSenseHid::get_update_status(Vec::new()), Err(AppError::UpdateStatusEmpty));
}

#[test]
fn status_malformed() {
    assert_eq!(
        DualSenseHid::get_update_status(vec![0xF4, 0x00, 0x00, 0x00]),
        Err(AppError::UpdateStatusMalformed(4))
    );
    assert_eq!(
        DualSenseHid::get_update_status(vec![0xF5, 0x00, 0x00]),
        Err(AppError::UpdateStatusMalformed(3))
    );
    assert_eq!(
        DualSenseHid::get_update_status(vec![0xF5, 0x00, 0x00, 0x00, 0x00]),
        Err(AppError::UpdateStatusMalformed(5))
    );
    assert_eq!(
        DualSenseHid::get_update_status(vec![0x00]),
        Err(AppError::UpdateStatusMalformed(1))
    );
}

#[test]
fn decoding_twice_gives_the_same() {
    let raw = vec![0xF5, 0x02, 0x10, 0x00];
    assert_eq!(
        DualSenseHid::get_update_status(raw.clone()),
        DualSenseHid::get_update_status(raw)
    );
    let bad = vec![0xF5, 0x02];
    assert_eq!(
        DualSenseHid::get_update_status(bad.clone()),
        DualSenseHid::get_update_status(bad)
    );
    let info = well_formed_info();
    assert_eq!(
        DualSenseHid::get_firmware_info(info.clone()),
        DualSenseHid::get_firmware_info(info)
    );
}

#[test]
fn command_without_payload_is_one_report() {
    assert_eq!(
        DualSenseHid::send_update_command(UpdateCommand::VerifyUpdateImage, &[]),
        vec![vec![0xF4, 0x02, 0x00]]
    );
    assert_eq!(
        DualSenseHid::send_update_command(UpdateCommand::FinalizeUpdate, &[]),
        vec![vec![0xF4, 0x03, 0x00]]
    );
}

#[test]
fn command_reports_carry_the_payload_in_order() {
    let payload: Vec<u8> = (0..130u8).collect();
    let reports = DualSenseHid::send_update_command(UpdateCommand::WriteUpdateImage, &payload);
    assert_eq!(reports.len(), 3);
    let mut carried = Vec::new();
    for (report, len) in reports.iter().zip([57usize, 57, 16]) {
        assert_eq!(report[0], 0xF4);
        assert_eq!(report[1], 0x01);
        assert_eq!(report[2] as usize, len);
        assert_eq!(report.len(), 3 + len);
        carried.extend_from_slice(&report[3..]);
    }
    assert_eq!(carried, payload);
}

#[test]
fn one_command_report() {
    assert_eq!(
        DualSenseHid::encode_command_report(UpdateCommand::StartUpdate, &[0xAA, 0xBB]),
        vec![0xF4, 0x00, 0x02, 0xAA, 0xBB]
    );
    let full = [0x11u8; 0x39];
    let report = DualSenseHid::encode_command_report(UpdateCommand::Unknown, &full);
    assert_eq!(&report[..3], &[0xF4, 0xFF, 0x39]);
    assert_eq!(&report[3..], &full[..]);
}

#[test]
fn feature_report_buffer_names_the_report() {
    assert_eq!(DualSenseHid::feature_report_buffer(0xF5, 4), vec![0xF5, 0, 0, 0]);
    assert_eq!(DualSenseHid::feature_report_buffer(0x20, 1), vec![0x20]);
    assert_eq!(DualSenseHid::feature_report_buffer(0x20, 0), Vec::<u8>::new());
    let buffer = DualSenseHid::feature_report_buffer(0x20, 64);
    assert_eq!(buffer.len(), 64);
    assert_eq!(buffer[0], 0x20);
    assert!(buffer[1..].iter().all(|b| *b == 0));
}

#[test]
fn first_device_with_the_identifiers() {
    let devices = vec![
        device(0x1234, 0x0ce6, "/dev/hidraw0"),
        device(0x054c, 0x0ce6, "/dev/hidraw1"),
        device(0x054c, 0x0ce6, "/dev/hidraw2"),
    ];
    assert_eq!(
        find_first_device_path(&devices, 0x054c, 0x0ce6),
        Ok("/dev/hidraw1".to_string())
    );
    assert_eq!(
        find_first_device_path(&devices, 0x054c, 0x0001),
        Err(AppError::DeviceNotFound { vid: 0x054c, pid: 0x0001 })
    );
    assert_eq!(
        find_first_device_path(&[], 1, 2),
        Err(AppError::DeviceNotFound { vid: 1, pid: 2 })
    );
}

#[test]
fn device_by_path() {
    let devices = vec![
        device(0x1234, 0x0ce6, "/dev/hidraw2"),
        device(0x054c, 0x0ce6, "/dev/hidraw1"),
        device(0x054c, 0x0ce6, "/dev/hidraw2"),
    ];
    assert_eq!(
        find_path(&devices, 0x054c, 0x0ce6, "/dev/hidraw2"),
        Ok("/dev/hidraw2".to_string())
    );
    assert_eq!(
        find_path(&devices, 0x1234, 0x0ce6, "/dev/hidraw1"),
        Err(AppError::DevicePathNotMatched("/dev/hidraw1".to_string()))
    );
}

#[test]
fn open_without_a_path_takes_the_first_device() {
    let devices = vec![
        device(0x1234, 0x0ce6, "/dev/hidraw0"),
        device(0x054c, 0x0ce6, "/dev/hidraw1"),
    ];
    let dev = DualSenseHid::open(&devices, 0x054c, 0x0ce6, None).unwrap();
    assert_eq!(dev.path(), "/dev/hidraw1");
    assert_eq!(
        DualSenseHid::open(&devices, 0x054c, 0x0001, None),
        Err(AppError::DeviceNotFound { vid: 0x054c, pid: 0x0001 })
    );
}

#[test]
fn open_takes_a_path_as_it_is() {
    let dev = DualSenseHid::open(&[], 0x054c, 0x0ce6, Some("/dev/hidraw7")).unwrap();
    assert_eq!(dev.path(), "/dev/hidraw7");
}

#[test]
fn open_looks_up_a_path_with_a_nul_byte() {
    let devices = vec![device(0x054c, 0x0ce6, "/dev/hid\0raw1")];
    let dev = DualSenseHid::open(&devices, 0x054c, 0x0ce6, Some("/dev/hid\0raw1")).unwrap();
    assert_eq!(dev.path(), "/dev/hid\0raw1");
    assert_eq!(
        DualSenseHid::open(&devices, 0x054c, 0x0ce6, Some("/dev/hid\0raw2")),
        Err(AppError::DevicePathNotMatched("/dev/hid\0raw2".to_string()))
    );
    assert_eq!(
        DualSenseHid::open(&devices, 0x054c, 0x0001, Some("/dev/hid\0raw1")),
        Err(AppError::DevicePathNotMatched("/dev/hid\0raw1".to_string()))
    );
}
