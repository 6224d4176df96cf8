//! What the command line asks for: the arguments, how numbers and replies on
//! it read, and the steps that a set of arguments selects.

use vstd::prelude::*;
use vstd::string::StrSliceExecFns;

use crate::error::AppError;
use crate::hid::{find_first_device_path, has_ids, is_first_with_ids, DeviceInfo};

verus! {

/// The vendor identifier of the controller.
pub const DEFAULT_VID: u16 = 0x054c;

/// The product identifier of the controller.
pub const DEFAULT_PID: u16 = 0x0ce6;

/// The arguments of a run.
#[derive(Debug, Clone, PartialEq, Eq)]
pub struct Args {
    pub vid: u16,
    pub pid: u16,
    /// The path of the firmware image; empty where none was given.
    pub fw_image: String,
    /// Only run the start stage.
    pub start_update: bool,
    /// Only run the write stage.
    pub write_update_image: bool,
    /// Only run the verify stage.
    pub verify_update_image: bool,
    /// Only run the finalize stage.
    pub finalize_update: bool,
    pub verbose: bool,
    /// Print what firmware the device runs.
    pub print_firmware_info: bool,
    /// The path of the device to open; empty where the first one found is
    /// to be taken.
    pub path: String,
}

/// A thing that a run does with the device.
#[derive(Debug, Copy, Clone, PartialEq, Eq, Structural)]
pub enum Step {
    PrintFirmwareInfo,
    StartUpdate,
    WriteUpdateImage,
    VerifyUpdateImage,
    FinalizeUpdate,
}

/// What a run does.
#[derive(Debug, PartialEq, Eq)]
pub enum Plan {
    /// A full update on the first device found, after the versions have been
    /// shown and the person at the console has agreed.
    Interactive,
    /// These steps, in this order.
    Steps(Vec<Step>),
}

/// A `Plan` as contracts see it.
pub enum PlanView {
    Interactive,
    Steps(Seq<Step>),
}

impl View for Plan {
    type V = PlanView;

    open spec fn view(&self) -> PlanView {
        match self {
            Plan::Interactive => PlanView::Interactive,
            Plan::Steps(steps) => PlanView::Steps(steps@),
        }
    }
}

/// The list that holds `step` where `wanted`, and nothing otherwise.
pub open spec fn step_if(wanted: bool, step: Step) -> Seq<Step> {
    if wanted {
        seq![step]
    } else {
        Seq::empty()
    }
}

/// The steps that the flags select: each step whose flag is set, in the order
/// in which an update goes.
pub open spec fn selected_steps(args: Args) -> Seq<Step> {
    step_if(args.print_firmware_info, Step::PrintFirmwareInfo) + step_if(
        args.start_update,
        Step::StartUpdate,
    ) + step_if(args.write_update_image, Step::WriteUpdateImage) + step_if(
        args.verify_update_image,
        Step::VerifyUpdateImage,
    ) + step_if(args.finalize_update, Step::FinalizeUpdate)
}

/// The steps of a full update.
pub open spec fn full_update() -> Seq<Step> {
    seq![Step::StartUpdate, Step::WriteUpdateImage, Step::VerifyUpdateImage, Step::FinalizeUpdate]
}

/// Whether any flag selects a step.
pub open spec fn has_action(args: Args) -> bool {
    args.print_firmware_info || args.start_update || args.write_update_image
        || args.verify_update_image || args.finalize_update
}

/// What a set of arguments asks for.
///
/// The start and the write stage need an image: without one the arguments are
/// refused with `MissingFirmwareImageForUpdate`. Without any flag the run is
/// interactive, and needs an image too: `MissingFirmwareImageForInteractive`.
pub open spec fn spec_plan(args: Args) -> Result<PlanView, AppError> {
    if (args.start_update || args.write_update_image) && args.fw_image@.len() == 0 {
        Err(AppError::MissingFirmwareImageForUpdate)
    } else if !has_action(args) {
        if args.fw_image@.len() == 0 {
            Err(AppError::MissingFirmwareImageForInteractive)
        } else {
            Ok(PlanView::Interactive)
        }
    } else {
        Ok(PlanView::Steps(selected_steps(args)))
    }
}

/// Decides what a run does.
pub fn plan(args: &Args) -> (result: Result<Plan, AppError>)
    ensures
        match result {
            Ok(plan) => spec_plan(*args) == Ok::<PlanView, AppError>(plan@),
            Err(e) => spec_plan(*args) == Err::<PlanView, AppError>(e),
        },
{
    let no_image = args.fw_image.as_str().is_empty();
    if (args.start_update || args.write_update_image) && no_image {
        return Err(AppError::MissingFirmwareImageForUpdate);
    }
    let has_action = args.print_firmware_info || args.start_update || args.write_update_image
        || args.verify_update_image || args.finalize_update;
    if !has_action {
        if no_image {
            return Err(AppError::MissingFirmwareImageForInteractive);
        }
        return Ok(Plan::Interactive);
    }
    let mut steps: Vec<Step> = Vec::new();
    if args.print_firmware_info {
        steps.push(Step::PrintFirmwareInfo);
    }
    if args.start_update {
        steps.push(Step::StartUpdate);
    }
    if args.write_update_image {
        steps.push(Step::WriteUpdateImage);
    }
    if args.verify_update_image {
        steps.push(Step::VerifyUpdateImage);
    }
    if args.finalize_update {
        steps.push(Step::FinalizeUpdate);
    }
    proof {
        assert(steps@ =~= selected_steps(*args));
    }
    Ok(Plan::Steps(steps))
}

/// The steps that an interactive run performs once the person at the console
/// has agreed: a full update.
pub fn interactive_steps() -> (steps: Vec<Step>)
    ensures
        steps@ == full_update(),
{
    let mut steps: Vec<Step> = Vec::new();
    steps.push(Step::StartUpdate);
    steps.push(Step::WriteUpdateImage);
    steps.push(Step::VerifyUpdateImage);
    steps.push(Step::FinalizeUpdate);
    steps
}

/// Picks the path of the device that a run opens.
///
/// An interactive run takes the first connected device with the identifiers
/// of the arguments. Any other run takes the path of the arguments, and the
/// first connected device only where that path is empty. Fails with
/// `DeviceNotFound` where a connected device is needed and there is none.
pub fn device_path(args: &Args, interactive: bool, devices: &[DeviceInfo]) -> (result: Result<
    String,
    AppError,
>)
    ensures
        !interactive && args.path@.len() > 0 ==> result is Ok && result->Ok_0@ == args.path@,
        interactive || args.path@.len() == 0 ==> match result {
            Ok(path) => exists|i: int|
                is_first_with_ids(devices@, args.vid, args.pid, i) && path@ == (
                #[trigger] devices@[i]).path@,
            Err(e) => e == (AppError::DeviceNotFound { vid: args.vid, pid: args.pid })
                && forall|j: int|
                0 <= j < devices@.len() ==> !has_ids(#[trigger] devices@[j], args.vid, args.pid),
        },
{
    if interactive || args.path.as_str().is_empty() {
        find_first_device_path(devices, args.vid, args.pid)
    } else {
        Ok(args.path.clone())
    }
}

/// The value of a digit in the given base, if it is one: `0` to `9` stand for
/// themselves, and the letters, in either case, for ten and up.
pub open spec fn digit_value(c: char, radix: u32) -> Option<int> {
    let value = if '0' <= c <= '9' {
        c as int - '0' as int
    } else if 'a' <= c <= 'z' {
        c as int - 'a' as int + 10
    } else if 'A' <= c <= 'Z' {
        c as int - 'A' as int + 10
    } else {
        radix as int
    };
    if value < radix {
        Some(value)
    } else {
        None
    }
}

/// The number that a string of digits stands for in the given base, if every
/// character of it is a digit.
pub open spec fn digits_value(digits: Seq<char>, radix: u32) -> Option<int>
    decreases digits.len(),
{
    if digits.len() == 0 {
        Some(0)
    } else {
        match (digits_value(digits.drop_last(), radix), digit_value(digits.last(), radix)) {
            (Some(front), Some(last)) => Some(front * radix + last),
            _ => None,
        }
    }
}

/// The number that a text stands for in the given base: an optional `+`, then
/// at least one digit and nothing but digits, for a number of at most `max`.
pub open spec fn parse_unsigned(text: Seq<char>, radix: u32, max: int) -> Option<int> {
    let digits = if text.len() > 0 && text[0] == '+' {
        text.drop_first()
    } else {
        text
    };
    if digits.len() == 0 {
        None
    } else {
        match digits_value(digits, radix) {
            Some(value) => if value <= max {
                Some(value)
            } else {
                None
            },
            None => None,
        }
    }
}

/// The 16-bit number that an argument stands for: hexadecimal behind `0x`,
/// decimal otherwise.
pub open spec fn spec_parse_u16(value: Seq<char>) -> Option<int> {
    if value.len() >= 2 && value[0] == '0' && value[1] == 'x' {
        parse_unsigned(value.subrange(2, value.len() as int), 16, 0xFFFF)
    } else {
        parse_unsigned(value, 10, 0xFFFF)
    }
}

/// `core::num::ParseIntError`, the reason that the standard library gives
/// where a text is not a number. Nothing is known of it here but that it can
/// be shown as text.
#[verifier::external_type_specification]
#[verifier::external_body]
pub struct ExParseIntError(core::num::ParseIntError);

/// Calls `u16::from_str_radix`, which reads an optional `+` and then digits of
/// the given base, and fails on an empty text, on any other character and on
/// a number that does not fit into 16 bits.
#[verifier::external_body]
fn from_str_radix(text: &str, radix: u32) -> (result: Result<u16, core::num::ParseIntError>)
    requires
        2 <= radix <= 36,
    ensures
        match result {
            Ok(value) => parse_unsigned(text@, radix, 0xFFFF) == Some(value as int),
            Err(_) => parse_unsigned(text@, radix, 0xFFFF) is None,
        },
{
    u16::from_str_radix(text, radix)
}

/// Reads a 16-bit number from an argument: hexadecimal behind `0x`, decimal
/// otherwise. The error is the parser's own message.
pub fn parse_u16(value: &str) -> (result: Result<u16, String>)
    ensures
        match result {
            Ok(number) => spec_parse_u16(value@) == Some(number as int),
            Err(_) => spec_parse_u16(value@) is None,
        },
{
    let len = value.unicode_len();
    let parsed = if len >= 2 && value.get_char(0) == '0' && value.get_char(1) == 'x' {
        from_str_radix(value.substring_char(2, len), 16)
    } else {
        from_str_radix(value, 10)
    };
    match parsed {
        Ok(number) => Ok(number),
        Err(e) => Err(e.to_string()),
    }
}

/// What `str::trim` leaves of a text: the text without the white space at its
/// ends.
pub uninterp spec fn trimmed(text: Seq<char>) -> Seq<char>;

/// What `str::to_lowercase` makes of a text: the text in lower case.
pub uninterp spec fn lowercased(text: Seq<char>) -> Seq<char>;

/// Calls `str::trim`. What it returns depends on the text alone.
#[verifier::external_body]
fn trim(text: &str) -> (rest: &str)
    ensures
        rest@ == trimmed(text@),
{
    text.trim()
}

/// Calls `str::to_lowercase`. What it returns depends on the text alone.
#[verifier::external_body]
fn to_lowercase(text: &str) -> (lower: String)
    ensures
        lower@ == lowercased(text@),
{
    text.to_lowercase()
}

/// What a reply means once it is trimmed and in lower case: nothing, `n` and
/// `no` decline, `y` and `yes` agree, and anything else is no answer.
pub open spec fn spec_reply_meaning(reply: Seq<char>) -> Option<bool> {
    if reply.len() == 0 || reply == "n"@ || reply == "no"@ {
        Some(false)
    } else if reply == "y"@ || reply == "yes"@ {
        Some(true)
    } else {
        None
    }
}

/// Reads a reply that is already trimmed and in lower case. `None` means
/// that the question has to be asked again.
pub fn reply_meaning(reply: &str) -> (answer: Option<bool>)
    ensures
        answer == spec_reply_meaning(reply@),
{
    let reply = reply.to_owned();
    if reply.as_str().is_empty() || reply == "n".to_string() || reply == "no".to_string() {
        Some(false)
    } else if reply == "y".to_string() || reply == "yes".to_string() {
        Some(true)
    } else {
        None
    }
}

/// Reads a line typed in reply to a yes-or-no question, white space and case
/// aside.
pub fn interpret_reply(input: &str) -> (answer: Option<bool>)
    ensures
        answer == spec_reply_meaning(lowercased(trimmed(input@))),
{
    let lower = to_lowercase(trim(input));
    reply_meaning(lower.as_str())
}

} // verus!
