//! The reports that travel between host and controller: how a command is laid
//! out for sending, and how what the device answers is read.

use vstd::prelude::*;
use vstd::slice::{slice_subrange, slice_to_vec};
use vstd::string::StringSliceAdditionalSpecFns;

use crate::chunking::{concat, fragments, lemma_fragments, split_payload, MAX_FRAGMENT_LEN};
use crate::error::AppError;
use crate::protocol::{
    ascii_text, decode_ascii, is_plain, le16, plain_text, text_len, until_nul, FirmwareInfo,
    FirmwareInfoView, UpdateCommand, UpdateStatus, UpdateStatusView, REPORT_ID_FIRMWARE_INFO,
    REPORT_ID_UPDATE_COMMAND, REPORT_ID_UPDATE_STATUS,
};

verus! {

/// The length that a firmware information report is asked for with.
pub const FIRMWARE_INFO_REPORT_LEN: usize = 64;

/// The length of a status report.
pub const UPDATE_STATUS_REPORT_LEN: usize = 4;

/// One command report: the report identifier, the command byte, the length of
/// the fragment, and the fragment.
pub open spec fn command_report(command: UpdateCommand, fragment: Seq<u8>) -> Seq<u8> {
    seq![REPORT_ID_UPDATE_COMMAND, command.spec_to_int(), fragment.len() as u8] + fragment
}

/// The reports that carry one command: one for each fragment of its payload,
/// in order.
pub open spec fn command_reports(command: UpdateCommand, payload: Seq<u8>) -> Seq<Seq<u8>> {
    Seq::new(fragments(payload).len(), |i: int| command_report(command, fragments(payload)[i]))
}

/// The buffer that a feature report is read into: `length` bytes, all zero but
/// the first, which names the report.
pub open spec fn feature_report_buffer(report_id: u8, length: nat) -> Seq<u8> {
    Seq::new(
        length,
        |i: int|
            if i == 0 {
                report_id
            } else {
                0u8
            },
    )
}

/// The part of a firmware information report that holds the fields. Some
/// transports put the report identifier in front of a full-length report; it
/// is dropped then.
pub open spec fn firmware_info_payload(raw: Seq<u8>) -> Seq<u8> {
    if raw.len() > 64 && raw[0] == REPORT_ID_FIRMWARE_INFO {
        raw.drop_first()
    } else {
        raw
    }
}

/// What a firmware information report decodes to.
///
/// The build date is in bytes 0 to 11 of the payload, the build time in bytes
/// 12 to 19, the firmware version in bytes 44 and 45, low byte first.
pub open spec fn decode_firmware_info(raw: Seq<u8>) -> Result<FirmwareInfoView, AppError> {
    let payload = firmware_info_payload(raw);
    if raw.len() < 20 {
        Err(AppError::FirmwareInfoTooShort(raw.len() as usize))
    } else if payload.len() < 47 {
        Err(AppError::FirmwareInfoPayloadTooShort(payload.len() as usize))
    } else {
        Ok(
            FirmwareInfoView {
                build_date: ascii_text(payload.subrange(0, 12)),
                build_time: ascii_text(payload.subrange(12, 20)),
                firmware_version: le16(payload[44], payload[45]),
                unknown: payload.subrange(20, payload.len() as int),
                raw: raw,
            },
        )
    }
}

/// What a status report decodes to.
///
/// A status report is the report identifier, the command it answers, the
/// status byte and one reserved byte.
pub open spec fn decode_update_status(raw: Seq<u8>) -> Result<UpdateStatusView, AppError> {
    if raw.len() == 0 {
        Err(AppError::UpdateStatusEmpty)
    } else if raw[0] != REPORT_ID_UPDATE_STATUS || raw.len() != 4 {
        Err(AppError::UpdateStatusMalformed(raw.len() as usize))
    } else {
        Ok(
            UpdateStatusView {
                report_id: raw[0],
                command: UpdateCommand::spec_from_int(raw[1]),
                status_raw: raw[2],
                raw: raw,
            },
        )
    }
}

/// Whether `result` is what `raw` decodes to as a firmware information report.
pub open spec fn is_firmware_info_of(result: Result<FirmwareInfo, AppError>, raw: Seq<u8>) -> bool {
    match result {
        Ok(info) => decode_firmware_info(raw) == Ok::<FirmwareInfoView, AppError>(info@),
        Err(e) => decode_firmware_info(raw) == Err::<FirmwareInfoView, AppError>(e),
    }
}

/// Whether `result` is what `raw` decodes to as a status report.
pub open spec fn is_update_status_of(result: Result<UpdateStatus, AppError>, raw: Seq<u8>) -> bool {
    match result {
        Ok(status) => decode_update_status(raw) == Ok::<UpdateStatusView, AppError>(status@),
        Err(e) => decode_update_status(raw) == Err::<UpdateStatusView, AppError>(e),
    }
}

/// Reading a status report has no memory: whatever two readings of the same
/// bytes return is the same.
pub proof fn lemma_update_status_deterministic(
    raw: Seq<u8>,
    first: Result<UpdateStatus, AppError>,
    second: Result<UpdateStatus, AppError>,
)
    requires
        is_update_status_of(first, raw),
        is_update_status_of(second, raw),
    ensures
        match (first, second) {
            (Ok(a), Ok(b)) => a@ == b@,
            (Err(a), Err(b)) => a == b,
            _ => false,
        },
{
}

/// Reading a firmware information report has no memory: whatever two readings
/// of the same bytes return is the same.
pub proof fn lemma_firmware_info_deterministic(
    raw: Seq<u8>,
    first: Result<FirmwareInfo, AppError>,
    second: Result<FirmwareInfo, AppError>,
)
    requires
        is_firmware_info_of(first, raw),
        is_firmware_info_of(second, raw),
    ensures
        match (first, second) {
            (Ok(a), Ok(b)) => a@ == b@,
            (Err(a), Err(b)) => a == b,
            _ => false,
        },
{
}

/// A command report never exceeds what the transport carries: three bytes of
/// header and at most `MAX_FRAGMENT_LEN` bytes of payload, with the length
/// byte saying how many. The payloads of the reports of a command, joined in
/// order, are the payload of the command.
pub proof fn lemma_command_reports(command: UpdateCommand, payload: Seq<u8>)
    ensures
        command_reports(command, payload).len() == fragments(payload).len(),
        forall|i: int|
            0 <= i < command_reports(command, payload).len() ==> {
                let report = #[trigger] command_reports(command, payload)[i];
                &&& 3 <= report.len() <= 3 + 0x39
                &&& report[0] == REPORT_ID_UPDATE_COMMAND
                &&& report[1] == command.spec_to_int()
                &&& report[2] == report.len() - 3
                &&& report.subrange(3, report.len() as int) == fragments(payload)[i]
            },
        concat(fragments(payload)) == payload,
{
    lemma_fragments(payload);
    assert forall|i: int| 0 <= i < command_reports(command, payload).len() implies {
        let report = #[trigger] command_reports(command, payload)[i];
        &&& 3 <= report.len() <= 3 + 0x39
        &&& report[0] == REPORT_ID_UPDATE_COMMAND
        &&& report[1] == command.spec_to_int()
        &&& report[2] == report.len() - 3
        &&& report.subrange(3, report.len() as int) == fragments(payload)[i]
    } by {
        let fragment = fragments(payload)[i];
        let report = command_report(command, fragment);
        assert(fragment.len() <= 0x39);
        assert(report.subrange(3, report.len() as int) =~= fragment);
    }
}

/// One entry of the list of connected HID devices.
#[derive(Debug, Clone, PartialEq, Eq)]
pub struct DeviceInfo {
    pub vendor_id: u16,
    pub product_id: u16,
    /// The path by which the system opens the device.
    pub path: String,
}

/// Whether a device carries the given vendor and product identifiers.
pub open spec fn has_ids(device: DeviceInfo, vid: u16, pid: u16) -> bool {
    device.vendor_id == vid && device.product_id == pid
}

/// Whether the device at position `i` is the first in the list with the given
/// identifiers.
pub open spec fn is_first_with_ids(devices: Seq<DeviceInfo>, vid: u16, pid: u16, i: int) -> bool {
    &&& 0 <= i < devices.len()
    &&& has_ids(devices[i], vid, pid)
    &&& forall|j: int| 0 <= j < i ==> !has_ids(#[trigger] devices[j], vid, pid)
}

/// Whether the device at position `i` is the first in the list with the given
/// identifiers and the given path.
pub open spec fn is_first_with_path(
    devices: Seq<DeviceInfo>,
    vid: u16,
    pid: u16,
    path: Seq<char>,
    i: int,
) -> bool {
    &&& 0 <= i < devices.len()
    &&& has_ids(devices[i], vid, pid)
    &&& devices[i].path@ == path
    &&& forall|j: int|
        0 <= j < i ==> !(has_ids(#[trigger] devices[j], vid, pid) && devices[j].path@ == path)
}

/// Whether a path holds a NUL byte. The system takes paths that end at the
/// first NUL byte, so such a path cannot be handed to it as it is.
pub open spec fn has_nul(path: Seq<u8>) -> bool {
    text_len(path) < path.len()
}

/// The position of the first device with the given identifiers, if there is
/// one.
fn position_with_ids(devices: &[DeviceInfo], vid: u16, pid: u16) -> (found: Option<usize>)
    ensures
        match found {
            Some(i) => is_first_with_ids(devices@, vid, pid, i as int),
            None => forall|j: int|
                0 <= j < devices@.len() ==> !has_ids(#[trigger] devices@[j], vid, pid),
        },
{
    let mut i: usize = 0;
    while i < devices.len()
        invariant
            i <= devices@.len(),
            forall|j: int| 0 <= j < i ==> !has_ids(#[trigger] devices@[j], vid, pid),
        decreases devices@.len() - i,
    {
        if devices[i].vendor_id == vid && devices[i].product_id == pid {
            return Some(i);
        }
        i = i + 1;
    }
    None
}

/// The path of the first connected device with the given identifiers.
///
/// Fails with `DeviceNotFound` where the list holds no such device.
pub fn find_first_device_path(devices: &[DeviceInfo], vid: u16, pid: u16) -> (result: Result<
    String,
    AppError,
>)
    ensures
        match result {
            Ok(path) => exists|i: int|
                is_first_with_ids(devices@, vid, pid, i) && path@ == (#[trigger] devices@[i]).path@,
            Err(e) => e == (AppError::DeviceNotFound { vid, pid }) && forall|j: int|
                0 <= j < devices@.len() ==> !has_ids(#[trigger] devices@[j], vid, pid),
        },
{
    match position_with_ids(devices, vid, pid) {
        Some(i) => Ok(devices[i].path.clone()),
        None => Err(AppError::DeviceNotFound { vid, pid }),
    }
}

/// The path of the first connected device with the given identifiers whose
/// path is `path`.
///
/// Fails with `DevicePathNotMatched` where the list holds no such device.
pub fn find_path(devices: &[DeviceInfo], vid: u16, pid: u16, path: &str) -> (result: Result<
    String,
    AppError,
>)
    ensures
        match result {
            Ok(found) => found@ == path@ && exists|i: int|
                is_first_with_path(devices@, vid, pid, path@, i),
            Err(e) => (e matches AppError::DevicePathNotMatched(p) && p@ == path@) && forall|
                j: int,
            |
                0 <= j < devices@.len() ==> !(has_ids(#[trigger] devices@[j], vid, pid)
                    && devices@[j].path@ == path@),
        },
{
    let wanted = path.to_owned();
    let mut i: usize = 0;
    while i < devices.len()
        invariant
            i <= devices@.len(),
            wanted@ == path@,
            forall|j: int|
                0 <= j < i ==> !(has_ids(#[trigger] devices@[j], vid, pid) && devices@[j].path@
                    == path@),
        decreases devices@.len() - i,
    {
        if devices[i].vendor_id == vid && devices[i].product_id == pid && devices[i].path
            == wanted {
            assert(is_first_with_path(devices@, vid, pid, path@, i as int));
            return Ok(devices[i].path.clone());
        }
        i = i + 1;
    }
    Err(AppError::DevicePathNotMatched(wanted))
}

/// Whether the bytes of a path hold a NUL byte.
fn path_has_nul(path: &str) -> (found: bool)
    ensures
        found == has_nul(path.spec_bytes()),
{
    let bytes = path.as_bytes();
    let mut i: usize = 0;
    while i < bytes.len() && bytes[i] != 0
        invariant
            i <= bytes@.len(),
            forall|j: int| 0 <= j < i ==> bytes@[j] != 0,
        decreases bytes@.len() - i,
    {
        i = i + 1;
    }
    proof {
        crate::protocol::lemma_text_len_unique(bytes@, i as int);
    }
    i < bytes.len()
}

/// The controller that a session talks to: the device that the driver is to
/// open, and the reports that it exchanges with it.
#[derive(Debug, PartialEq, Eq)]
pub struct DualSenseHid {
    path: String,
}

impl DualSenseHid {
    /// The path by which the system opens the device.
    pub closed spec fn spec_path(&self) -> Seq<char> {
        self.path@
    }

    /// The path by which the system opens the device.
    pub fn path(&self) -> (path: &str)
        ensures
            path@ == self.spec_path(),
    {
        self.path.as_str()
    }

    /// Picks the device to open.
    ///
    /// Without a path it is the first connected device with the given
    /// identifiers; `DeviceNotFound` where there is none. A path is taken as it
    /// is, unless it holds a NUL byte: then it has to be the path of a
    /// connected device with the given identifiers, or the call fails with
    /// `DevicePathNotMatched`.
    pub fn open(devices: &[DeviceInfo], vid: u16, pid: u16, path: Option<&str>) -> (result: Result<
        DualSenseHid,
        AppError,
    >)
        ensures
            match path {
                None => match result {
                    Ok(dev) => exists|i: int|
                        is_first_with_ids(devices@, vid, pid, i) && dev.spec_path() == (
                        #[trigger] devices@[i]).path@,
                    Err(e) => e == (AppError::DeviceNotFound { vid, pid }) && forall|j: int|
                        0 <= j < devices@.len() ==> !has_ids(#[trigger] devices@[j], vid, pid),
                },
                Some(wanted) => match result {
                    Ok(dev) => dev.spec_path() == wanted@ && (has_nul(wanted.spec_bytes())
                        ==> exists|i: int| is_first_with_path(devices@, vid, pid, wanted@, i)),
                    Err(e) => has_nul(wanted.spec_bytes()) && (e matches
                    AppError::DevicePathNotMatched(p) && p@ == wanted@) && forall|j: int|
                        0 <= j < devices@.len() ==> !(has_ids(#[trigger] devices@[j], vid, pid)
                            && devices@[j].path@ == wanted@),
                },
            },
    {
        match path {
            Some(wanted) => {
                if !path_has_nul(wanted) {
                    Ok(DualSenseHid { path: wanted.to_owned() })
                } else {
                    match find_path(devices, vid, pid, wanted) {
                        Ok(found) => Ok(DualSenseHid { path: found }),
                        Err(e) => Err(e),
                    }
                }
            },
            None => match find_first_device_path(devices, vid, pid) {
                Ok(found) => Ok(DualSenseHid { path: found }),
                Err(e) => Err(e),
            },
        }
    }

    /// Makes the buffer to read a feature report into: `length` bytes, the
    /// first of which names the report.
    pub fn feature_report_buffer(report_id: u8, length: usize) -> (buffer: Vec<u8>)
        ensures
            buffer@ == feature_report_buffer(report_id, length as nat),
    {
        let mut buffer: Vec<u8> = vec![0u8; length];
        if length > 0 {
            buffer[0] = report_id;
        }
        buffer
    }

    /// Lays out one command report.
    pub fn encode_command_report(command: UpdateCommand, fragment: &[u8]) -> (report: Vec<u8>)
        requires
            fragment@.len() <= MAX_FRAGMENT_LEN,
        ensures
            report@ == command_report(command, fragment@),
    {
        let mut report: Vec<u8> = Vec::new();
        report.push(REPORT_ID_UPDATE_COMMAND);
        report.push(command.to_int());
        report.push(fragment.len() as u8);
        report.extend_from_slice(fragment);
        report
    }

    /// Lays out the reports that carry one command.
    ///
    /// The payload goes out in fragments of at most `MAX_FRAGMENT_LEN` bytes,
    /// one report each. A command without payload is one report with an empty
    /// fragment.
    pub fn send_update_command(command: UpdateCommand, payload: &[u8]) -> (reports: Vec<Vec<u8>>)
        ensures
            reports.deep_view() == command_reports(command, payload@),
    {
        let parts = split_payload(payload);
        let mut reports: Vec<Vec<u8>> = Vec::new();
        let mut i: usize = 0;
        proof {
            lemma_fragments(payload@);
        }
        while i < parts.len()
            invariant
                i <= parts.len(),
                reports.len() == i,
                parts.deep_view() == fragments(payload@),
                forall|k: int|
                    0 <= k < fragments(payload@).len() ==> (#[trigger] fragments(
                        payload@,
                    )[k]).len() <= 0x39,
                forall|k: int|
                    0 <= k < i ==> (#[trigger] reports[k])@ == command_report(
                        command,
                        fragments(payload@)[k],
                    ),
            decreases parts.len() - i,
        {
            proof {
                assert(parts.deep_view()[i as int] == fragments(payload@)[i as int]);
            }
            let report = Self::encode_command_report(command, parts[i].as_slice());
            reports.push(report);
            i = i + 1;
        }
        proof {
            assert(reports.deep_view() =~~= command_reports(command, payload@));
        }
        reports
    }

    /// Reads a status report.
    ///
    /// Fails with `UpdateStatusEmpty` on no bytes at all, and with
    /// `UpdateStatusMalformed` on a report that does not start with the status
    /// report identifier or is not four bytes long.
    pub fn get_update_status(raw: Vec<u8>) -> (result: Result<UpdateStatus, AppError>)
        ensures
            is_update_status_of(result, raw@),
    {
        if raw.len() == 0 {
            return Err(AppError::UpdateStatusEmpty);
        }
        if raw[0] != REPORT_ID_UPDATE_STATUS || raw.len() != 4 {
            return Err(AppError::UpdateStatusMalformed(raw.len()));
        }
        let command = UpdateCommand::from_int(raw[1]);
        Ok(UpdateStatus { report_id: raw[0], command, status_raw: raw[2], raw })
    }

    /// Reads a firmware information report.
    ///
    /// Fails with `FirmwareInfoTooShort` on fewer than 20 bytes, and with
    /// `FirmwareInfoPayloadTooShort` where fewer than 47 bytes of payload are
    /// left.
    pub fn get_firmware_info(raw: Vec<u8>) -> (result: Result<FirmwareInfo, AppError>)
        ensures
            is_firmware_info_of(result, raw@),
            result matches Ok(info) ==> {
                let date = until_nul(firmware_info_payload(raw@).subrange(0, 12));
                let time = until_nul(firmware_info_payload(raw@).subrange(12, 20));
                &&& is_plain(date) ==> info.build_date@ == plain_text(date)
                &&& is_plain(time) ==> info.build_time@ == plain_text(time)
            },
    {
        if raw.len() < 20 {
            return Err(AppError::FirmwareInfoTooShort(raw.len()));
        }
        let payload: &[u8] = if raw.len() > 64 && raw[0] == REPORT_ID_FIRMWARE_INFO {
            slice_subrange(raw.as_slice(), 1, raw.len())
        } else {
            raw.as_slice()
        };
        if payload.len() < 47 {
            return Err(AppError::FirmwareInfoPayloadTooShort(payload.len()));
        }
        let build_date = decode_ascii(slice_subrange(payload, 0, 12));
        let build_time = decode_ascii(slice_subrange(payload, 12, 20));
        let firmware_version: u16 = payload[44] as u16 + 256 * (payload[45] as u16);
        let unknown = slice_to_vec(slice_subrange(payload, 20, payload.len()));
        Ok(FirmwareInfo { build_date, build_time, firmware_version, unknown, raw })
    }
}

} // verus!
