//! The update engine: the four stages of an update, each as a state machine
//! that tells its driver what to do and is told what came of it.
//!
//! A stage is a series of commands. Each command goes out as one or more
//! reports; all stages but the last then read a status until the device has
//! made up its mind. The engine decides; sending, reading and waiting are the
//! driver's.

use vstd::prelude::*;
use vstd::slice::{slice_subrange, slice_to_vec};

use crate::chunking::{
    concat, fragments, image_chunks, lemma_fragments, lemma_image_chunks, lemma_piece_len,
    split_image, IMAGE_CHUNK_LEN, MAX_FRAGMENT_LEN,
};
use crate::error::{AppError, UpdateFailure};
use crate::hid::{
    command_reports, decode_update_status, firmware_info_payload, is_firmware_info_of,
    lemma_command_reports, DualSenseHid, UPDATE_STATUS_REPORT_LEN,
};
use crate::protocol::{
    is_plain, le16, plain_text, until_nul, FirmwareInfo, Outcome, StartUpdateStatusCode,
    UpdateCommand, VerifyUpdateStatusCode, WriteUpdateStatusCode, REPORT_ID_UPDATE_COMMAND,
    REPORT_ID_UPDATE_STATUS,
};

verus! {

/// The number of image bytes that the start command carries: the image header.
pub const HEADER_LEN: usize = 256;

/// The milliseconds to wait before a status is read again where the device
/// was busy.
pub const POLL_INTERVAL_MS: u64 = 10;

/// What the driver has to do next.
#[derive(Debug, PartialEq, Eq)]
pub enum Action {
    /// Send this command report.
    Send(Vec<u8>),
    /// Read the feature report with this identifier, of at most this length:
    /// the status report.
    Poll { report_id: u8, length: usize },
    /// Wait for this many milliseconds.
    Sleep { millis: u64 },
    /// Nothing more: the stage has ended, with this result.
    Finish(Result<(), AppError>),
}

/// An `Action` as contracts see it.
pub enum ActionView {
    Send(Seq<u8>),
    Poll { report_id: u8, length: usize },
    Sleep { millis: u64 },
    Finish(Result<(), AppError>),
}

impl View for Action {
    type V = ActionView;

    open spec fn view(&self) -> ActionView {
        match self {
            Action::Send(report) => ActionView::Send(report@),
            Action::Poll { report_id, length } => ActionView::Poll {
                report_id: *report_id,
                length: *length,
            },
            Action::Sleep { millis } => ActionView::Sleep { millis: *millis },
            Action::Finish(result) => ActionView::Finish(*result),
        }
    }
}

/// What came of the action that the driver was asked for.
#[derive(Debug, PartialEq, Eq)]
pub enum Event {
    /// The report went out.
    Sent,
    /// A status report was read: these are its bytes.
    Status(Vec<u8>),
    /// The wait is over.
    Slept,
}

/// An `Event` as contracts see it.
pub enum EventView {
    Sent,
    Status(Seq<u8>),
    Slept,
}

impl View for Event {
    type V = EventView;

    open spec fn view(&self) -> EventView {
        match self {
            Event::Sent => EventView::Sent,
            Event::Status(raw) => EventView::Status(raw@),
            Event::Slept => EventView::Slept,
        }
    }
}

/// Where a stage stands.
#[derive(Debug, PartialEq, Eq)]
pub enum Phase {
    /// A report of the command in progress is to go out.
    Sending,
    /// The command in progress has gone out; its status is to be read.
    Polling,
    /// The device was busy; the status is to be read again after a wait.
    Sleeping,
    /// The stage has ended well.
    Done,
    /// The stage has ended with an error.
    Failed(AppError),
}

/// Whether a status is read after the command has gone out. The finalize
/// command is sent and not asked about.
pub open spec fn awaits_status(command: UpdateCommand) -> bool {
    command == UpdateCommand::StartUpdate || command == UpdateCommand::WriteUpdateImage || command
        == UpdateCommand::VerifyUpdateImage
}

/// How the stage of `command` reads a status byte; `None` for a command whose
/// status is never read.
pub open spec fn stage_outcome(command: UpdateCommand, status_raw: u8) -> Option<Outcome> {
    match command {
        UpdateCommand::StartUpdate => Some(
            StartUpdateStatusCode::spec_from_int(status_raw).spec_outcome(),
        ),
        UpdateCommand::WriteUpdateImage => Some(
            WriteUpdateStatusCode::spec_from_int(status_raw).spec_outcome(),
        ),
        UpdateCommand::VerifyUpdateImage => Some(
            VerifyUpdateStatusCode::spec_from_int(status_raw).spec_outcome(),
        ),
        _ => None,
    }
}

/// The state of an updater, as contracts see it: the stage that it
/// runs, and how far that stage has come.
pub struct UpdaterView {
    /// The command of the stage.
    pub command: UpdateCommand,
    /// The payloads of the commands that make up the stage, in order.
    pub payloads: Seq<Seq<u8>>,
    /// The position in `payloads` of the command in progress.
    pub index: int,
    /// How many reports of the command in progress have gone out.
    pub sent: int,
    pub phase: Phase,
}

impl UpdaterView {
    /// An updater that has not been given a stage.
    pub open spec fn idle() -> UpdaterView {
        UpdaterView::begin(UpdateCommand::Unknown, Seq::empty())
    }

    /// A stage that has not done anything yet. A stage without commands has
    /// ended before it began.
    pub open spec fn begin(command: UpdateCommand, payloads: Seq<Seq<u8>>) -> UpdaterView {
        UpdaterView {
            command,
            payloads,
            index: 0,
            sent: 0,
            phase: if payloads.len() == 0 {
                Phase::Done
            } else {
                Phase::Sending
            },
        }
    }

    /// The states that a stage can be in.
    pub open spec fn wf(self) -> bool {
        &&& self.payloads.len() > 0 ==> self.command != UpdateCommand::Unknown
        &&& 0 <= self.index <= self.payloads.len()
        &&& match self.phase {
            Phase::Sending => {
                &&& self.index < self.payloads.len()
                &&& 0 <= self.sent < fragments(self.payloads[self.index]).len()
            },
            Phase::Polling | Phase::Sleeping | Phase::Failed(_) => {
                &&& self.index < self.payloads.len()
                &&& self.sent == fragments(self.payloads[self.index]).len()
                &&& awaits_status(self.command)
            },
            Phase::Done => self.index == self.payloads.len() && self.sent == 0,
        }
    }

    /// Whether the stage has ended.
    pub open spec fn is_finished(self) -> bool {
        self.phase is Done || self.phase is Failed
    }

    /// What the driver has to do in this state.
    pub open spec fn action(self) -> ActionView {
        match self.phase {
            Phase::Sending => ActionView::Send(
                command_reports(self.command, self.payloads[self.index])[self.sent],
            ),
            Phase::Polling => ActionView::Poll {
                report_id: REPORT_ID_UPDATE_STATUS,
                length: UPDATE_STATUS_REPORT_LEN,
            },
            Phase::Sleeping => ActionView::Sleep { millis: POLL_INTERVAL_MS },
            Phase::Done => ActionView::Finish(Ok(())),
            Phase::Failed(error) => ActionView::Finish(Err(error)),
        }
    }

    /// The stage has ended with an error.
    pub open spec fn fail(self, error: AppError) -> UpdaterView {
        UpdaterView { phase: Phase::Failed(error), ..self }
    }

    /// The command in progress is done: the next one is taken up, and after
    /// the last one the stage has ended well.
    pub open spec fn advance(self) -> UpdaterView {
        if self.index + 1 < self.payloads.len() {
            UpdaterView { index: self.index + 1, sent: 0, phase: Phase::Sending, ..self }
        } else {
            UpdaterView {
                index: self.payloads.len() as int,
                sent: 0,
                phase: Phase::Done,
                ..self
            }
        }
    }

    /// A report has gone out: the next report of the command follows; after
    /// the last one the status is read, or, where none is read, the command is
    /// done.
    pub open spec fn on_sent(self) -> UpdaterView {
        if self.sent + 1 < fragments(self.payloads[self.index]).len() {
            UpdaterView { sent: self.sent + 1, ..self }
        } else if awaits_status(self.command) {
            UpdaterView { sent: self.sent + 1, phase: Phase::Polling, ..self }
        } else {
            self.advance()
        }
    }

    /// A status report has been read.
    ///
    /// A report that does not decode ends the stage with the decoder's error,
    /// and one that answers another command with
    /// `UnexpectedUpdateStatusCommand`. Otherwise the stage's table decides: on
    /// success the command is done, on a transient status the status is read
    /// again after a wait, and a terminal status ends the stage with its
    /// reason.
    pub open spec fn on_status(self, raw: Seq<u8>) -> UpdaterView {
        match decode_update_status(raw) {
            Err(error) => self.fail(error),
            Ok(status) => if status.command != self.command {
                self.fail(AppError::UnexpectedUpdateStatusCommand(status.command, self.command))
            } else {
                match stage_outcome(self.command, status.status_raw) {
                    Some(Outcome::Success) => self.advance(),
                    Some(Outcome::Transient) => UpdaterView { phase: Phase::Sleeping, ..self },
                    Some(Outcome::Terminal(failure)) => self.fail(AppError::UpdateFailed(failure)),
                    None => self,
                }
            },
        }
    }

    /// The state after `event`. An event that does not answer the action of
    /// the state changes nothing.
    pub open spec fn next(self, event: EventView) -> UpdaterView {
        match (self.phase, event) {
            (Phase::Sending, EventView::Sent) => self.on_sent(),
            (Phase::Polling, EventView::Status(raw)) => self.on_status(raw),
            (Phase::Sleeping, EventView::Slept) => UpdaterView { phase: Phase::Polling, ..self },
            _ => self,
        }
    }

    /// The state after a series of events.
    pub open spec fn run(self, events: Seq<EventView>) -> UpdaterView
        decreases events.len(),
    {
        if events.len() == 0 {
            self
        } else {
            self.run(events.drop_last()).next(events.last())
        }
    }

    /// The reports that went out during a series of events: for each `Sent`
    /// that answered a `Send`, the report of that `Send`.
    pub open spec fn sent_reports(self, events: Seq<EventView>) -> Seq<Seq<u8>>
        decreases events.len(),
    {
        if events.len() == 0 {
            Seq::empty()
        } else {
            let before = self.run(events.drop_last());
            let earlier = self.sent_reports(events.drop_last());
            if before.phase is Sending && events.last() is Sent {
                earlier.push(before.action()->Send_0)
            } else {
                earlier
            }
        }
    }

    /// The reports that are out when a stage has come to this state: all
    /// reports of the commands that are done, and the first `sent` reports of
    /// the command in progress.
    pub open spec fn reports_so_far(self) -> Seq<Seq<u8>> {
        stage_reports(self.command, self.payloads.take(self.index)) + if self.index
            < self.payloads.len() {
            command_reports(self.command, self.payloads[self.index]).take(self.sent)
        } else {
            Seq::empty()
        }
    }
}

/// A status report that answers `command` with success.
pub open spec fn success_status(command: UpdateCommand) -> Seq<u8> {
    seq![REPORT_ID_UPDATE_STATUS, command.spec_to_int(), 0x00u8, 0x00u8]
}

/// What happens to one command when nothing goes wrong: each of its reports
/// goes out, and where a status is read, the first one read is success.
pub open spec fn smooth_command(command: UpdateCommand, payload: Seq<u8>) -> Seq<EventView> {
    Seq::new(fragments(payload).len(), |i: int| EventView::Sent) + if awaits_status(command) {
        seq![EventView::Status(success_status(command))]
    } else {
        Seq::empty()
    }
}

/// What happens to the first `count` commands of a stage when nothing goes
/// wrong.
pub open spec fn smooth_run(command: UpdateCommand, payloads: Seq<Seq<u8>>, count: nat) -> Seq<
    EventView,
>
    decreases count,
{
    if count == 0 {
        Seq::empty()
    } else {
        smooth_run(command, payloads, (count - 1) as nat) + smooth_command(
            command,
            payloads[count - 1],
        )
    }
}

/// How many of the events are status reports.
pub open spec fn polls(events: Seq<EventView>) -> nat
    decreases events.len(),
{
    if events.len() == 0 {
        0
    } else if events.last() is Status {
        polls(events.drop_last()) + 1
    } else {
        polls(events.drop_last())
    }
}

/// All reports of a stage: the reports of each of its commands, in order.
pub open spec fn stage_reports(command: UpdateCommand, payloads: Seq<Seq<u8>>) -> Seq<Seq<u8>>
    decreases payloads.len(),
{
    if payloads.len() == 0 {
        Seq::empty()
    } else {
        stage_reports(command, payloads.drop_last()) + command_reports(command, payloads.last())
    }
}

/// The payload bytes that a series of command reports carries: what is behind
/// the three header bytes of each, joined in order.
pub open spec fn carried(reports: Seq<Seq<u8>>) -> Seq<u8>
    decreases reports.len(),
{
    if reports.len() == 0 {
        Seq::empty()
    } else {
        carried(reports.drop_last()) + reports.last().subrange(3, reports.last().len() as int)
    }
}

/// A stage begins in a state that it can be in.
pub proof fn lemma_begin_wf(command: UpdateCommand, payloads: Seq<Seq<u8>>)
    requires
        payloads.len() > 0 ==> command != UpdateCommand::Unknown,
    ensures
        UpdaterView::begin(command, payloads).wf(),
{
    if payloads.len() > 0 {
        lemma_fragments(payloads[0]);
    }
}

/// Whatever happens, the stage stays in a state that it can be in.
pub proof fn lemma_next_wf(state: UpdaterView, event: EventView)
    requires
        state.wf(),
    ensures
        state.next(event).wf(),
{
    if state.index + 1 < state.payloads.len() {
        lemma_fragments(state.payloads[state.index + 1]);
    }
}

/// A stage that has ended stays as it is, whatever it is told.
pub proof fn lemma_finished_is_final(state: UpdaterView, event: EventView)
    requires
        state.is_finished(),
    ensures
        state.next(event) == state,
{
}

/// A status that answers another command than the one sent is never
/// accepted: whatever status byte it carries, the stage ends with
/// `UnexpectedUpdateStatusCommand`, naming the command that the status
/// answers and the command that was sent.
pub proof fn lemma_unexpected_command_fails(state: UpdaterView, raw: Seq<u8>)
    requires
        state.phase is Polling,
        decode_update_status(raw) is Ok,
        decode_update_status(raw)->Ok_0.command != state.command,
    ensures
        state.next(EventView::Status(raw)).phase == Phase::Failed(
            AppError::UnexpectedUpdateStatusCommand(
                decode_update_status(raw)->Ok_0.command,
                state.command,
            ),
        ),
        state.next(EventView::Status(raw)).action() == ActionView::Finish(
            Err(
                AppError::UnexpectedUpdateStatusCommand(
                    decode_update_status(raw)->Ok_0.command,
                    state.command,
                ),
            ),
        ),
{
}

/// A status report that does not decode ends the stage with the decoder's
/// error.
pub proof fn lemma_malformed_status_fails(state: UpdaterView, raw: Seq<u8>)
    requires
        state.phase is Polling,
        decode_update_status(raw) is Err,
    ensures
        state.next(EventView::Status(raw)).phase == Phase::Failed(
            decode_update_status(raw)->Err_0,
        ),
{
}

/// What the table of the stage says of a status that answers the command
/// sent is what happens: on success the command is done, a transient status
/// leads to a wait with nothing else changed, and a terminal status ends the
/// stage with its reason.
pub proof fn lemma_status_decides(state: UpdaterView, raw: Seq<u8>)
    requires
        state.wf(),
        state.phase is Polling,
        decode_update_status(raw) is Ok,
        decode_update_status(raw)->Ok_0.command == state.command,
    ensures
        ({
            let outcome = stage_outcome(state.command, raw[2]);
            let next = state.next(EventView::Status(raw));
            &&& outcome is Some
            &&& outcome == Some(Outcome::Success) ==> next == state.advance()
            &&& outcome == Some(Outcome::Transient) ==> next == UpdaterView {
                phase: Phase::Sleeping,
                ..state
            }
            &&& forall|failure: UpdateFailure|
                outcome == Some(Outcome::Terminal(failure)) ==> next.phase == Phase::Failed(
                    AppError::UpdateFailed(failure),
                )
        }),
{
}

/// Every report that a stage asks to have sent is a command report of the
/// stage's command that carries at most `MAX_FRAGMENT_LEN` payload bytes.
pub proof fn lemma_send_is_bounded(state: UpdaterView)
    requires
        state.wf(),
        state.phase is Sending,
    ensures
        state.action() is Send,
        ({
            let report = state.action()->Send_0;
            &&& 3 <= report.len() <= 3 + 0x39
            &&& report[0] == REPORT_ID_UPDATE_COMMAND
            &&& report[1] == state.command.spec_to_int()
            &&& report[2] == report.len() - 3
        }),
{
    lemma_command_reports(state.command, state.payloads[state.index]);
}

/// The reports of the first `k + 1` commands are those of the first `k` and
/// then those of command `k`.
proof fn lemma_stage_reports_step(command: UpdateCommand, payloads: Seq<Seq<u8>>, k: int)
    requires
        0 <= k < payloads.len(),
    ensures
        stage_reports(command, payloads.take(k + 1)) == stage_reports(command, payloads.take(k))
            + command_reports(command, payloads[k]),
{
    let head = payloads.take(k + 1);
    assert(head.drop_last() =~= payloads.take(k));
    assert(head.last() == payloads[k]);
}

/// The reports of the first `k` commands are the beginning of the reports of
/// the stage.
proof fn lemma_stage_reports_prefix(command: UpdateCommand, payloads: Seq<Seq<u8>>, k: int)
    requires
        0 <= k <= payloads.len(),
    ensures
        stage_reports(command, payloads.take(k)).is_prefix_of(stage_reports(command, payloads)),
    decreases payloads.len() - k,
{
    if k == payloads.len() {
        assert(payloads.take(k) =~= payloads);
    } else {
        lemma_stage_reports_step(command, payloads, k);
        lemma_stage_reports_prefix(command, payloads, k + 1);
        let shorter = stage_reports(command, payloads.take(k));
        let longer = stage_reports(command, payloads.take(k + 1));
        let all = stage_reports(command, payloads);
        assert(shorter.is_prefix_of(longer));
        assert(shorter.is_prefix_of(all));
    }
}

/// One event adds to the reports that are out the report that it says has
/// gone out, and nothing else.
proof fn lemma_next_reports(state: UpdaterView, event: EventView)
    requires
        state.wf(),
    ensures
        state.next(event).reports_so_far() == if state.phase is Sending && event is Sent {
            state.reports_so_far().push(state.action()->Send_0)
        } else {
            state.reports_so_far()
        },
{
    let next = state.next(event);
    let done = stage_reports(state.command, state.payloads.take(state.index));
    if state.index < state.payloads.len() {
        let reports = command_reports(state.command, state.payloads[state.index]);
        lemma_stage_reports_step(state.command, state.payloads, state.index);
        if state.phase is Sending && event is Sent {
            assert(reports.take(state.sent + 1) =~= reports.take(state.sent).push(
                reports[state.sent],
            ));
            assert(done + reports.take(state.sent).push(reports[state.sent]) =~= (done
                + reports.take(state.sent)).push(reports[state.sent]));
            if state.sent + 1 == reports.len() {
                assert(reports.take(state.sent + 1) =~= reports);
            }
            if next.index != state.index {
                assert(next.reports_so_far() =~= done + reports);
            }
        } else if next.index != state.index {
            assert(state.phase is Polling);
            assert(reports.take(state.sent) =~= reports);
            assert(next.reports_so_far() =~= done + reports);
        }
    }
}

/// Joining the carried bytes of two series of reports is the same as joining
/// the series first.
proof fn lemma_carried_add(first: Seq<Seq<u8>>, second: Seq<Seq<u8>>)
    ensures
        carried(first + second) == carried(first) + carried(second),
    decreases second.len(),
{
    if second.len() == 0 {
        assert(first + second =~= first);
        assert(carried(first) + carried(second) =~= carried(first));
    } else {
        lemma_carried_add(first, second.drop_last());
        assert((first + second).drop_last() =~= first + second.drop_last());
        assert((first + second).last() == second.last());
        let tail = second.last().subrange(3, second.last().len() as int);
        assert(carried(first) + (carried(second.drop_last()) + tail) =~= (carried(first) + carried(
            second.drop_last(),
        )) + tail);
    }
}

/// The first `k` reports of a command carry the first `k` fragments of its
/// payload.
proof fn lemma_carried_prefix(command: UpdateCommand, payload: Seq<u8>, k: int)
    requires
        0 <= k <= fragments(payload).len(),
    ensures
        carried(command_reports(command, payload).take(k)) == concat(fragments(payload).take(k)),
    decreases k,
{
    let reports = command_reports(command, payload);
    let parts = fragments(payload);
    if k == 0 {
        assert(carried(reports.take(0)) =~= concat(parts.take(0)));
    } else {
        lemma_carried_prefix(command, payload, k - 1);
        lemma_command_reports(command, payload);
        assert(reports.take(k).drop_last() =~= reports.take(k - 1));
        assert(parts.take(k).drop_last() =~= parts.take(k - 1));
        assert(reports.take(k).last() == reports[k - 1]);
        assert(parts.take(k).last() == parts[k - 1]);
    }
}

/// The reports of a command carry its payload, whole and in order.
pub proof fn lemma_command_carries_payload(command: UpdateCommand, payload: Seq<u8>)
    ensures
        carried(command_reports(command, payload)) == payload,
{
    let reports = command_reports(command, payload);
    let parts = fragments(payload);
    lemma_carried_prefix(command, payload, parts.len() as int);
    lemma_fragments(payload);
    assert(reports.take(parts.len() as int) =~= reports);
    assert(parts.take(parts.len() as int) =~= parts);
}

/// The reports of a stage carry the payloads of its commands, whole and in
/// order.
pub proof fn lemma_stage_carries_payloads(command: UpdateCommand, payloads: Seq<Seq<u8>>)
    ensures
        carried(stage_reports(command, payloads)) == concat(payloads),
    decreases payloads.len(),
{
    if payloads.len() > 0 {
        lemma_stage_carries_payloads(command, payloads.drop_last());
        lemma_carried_add(
            stage_reports(command, payloads.drop_last()),
            command_reports(command, payloads.last()),
        );
        lemma_command_carries_payload(command, payloads.last());
    }
}

/// Events change neither the command nor the payloads of a stage.
proof fn lemma_next_keeps_stage(state: UpdaterView, event: EventView)
    ensures
        state.next(event).command == state.command,
        state.next(event).payloads == state.payloads,
{
}

/// What is out in a state that a stage can be in is a beginning of the
/// reports of the stage, and all of them once the stage has ended well.
proof fn lemma_reports_so_far_prefix(state: UpdaterView)
    requires
        state.wf(),
    ensures
        state.reports_so_far().is_prefix_of(stage_reports(state.command, state.payloads)),
        state.phase is Done ==> state.reports_so_far() == stage_reports(
            state.command,
            state.payloads,
        ),
{
    let command = state.command;
    let payloads = state.payloads;
    let done = stage_reports(command, payloads.take(state.index));
    if state.index < payloads.len() {
        lemma_stage_reports_step(command, payloads, state.index);
        lemma_stage_reports_prefix(command, payloads, state.index + 1);
        let reports = command_reports(command, payloads[state.index]);
        let part = reports.take(state.sent);
        assert(0 <= state.sent <= reports.len()) by {
            lemma_fragments(payloads[state.index]);
        }
        assert((done + part).is_prefix_of(done + reports));
        assert((done + part).is_prefix_of(stage_reports(command, payloads)));
    } else {
        assert(payloads.take(state.index) =~= payloads);
        assert(state.reports_so_far() =~= stage_reports(command, payloads));
    }
}

/// However a stage is driven, it stays in a state that it can be in, and what
/// has gone out is what its state says is out.
proof fn lemma_run(command: UpdateCommand, payloads: Seq<Seq<u8>>, events: Seq<EventView>)
    requires
        payloads.len() > 0 ==> command != UpdateCommand::Unknown,
    ensures
        UpdaterView::begin(command, payloads).run(events).wf(),
        UpdaterView::begin(command, payloads).run(events).command == command,
        UpdaterView::begin(command, payloads).run(events).payloads == payloads,
        UpdaterView::begin(command, payloads).sent_reports(events) == UpdaterView::begin(
            command,
            payloads,
        ).run(events).reports_so_far(),
    decreases events.len(),
{
    let begin = UpdaterView::begin(command, payloads);
    if events.len() == 0 {
        lemma_begin_wf(command, payloads);
        assert(payloads.take(0) =~= Seq::<Seq<u8>>::empty());
        assert(begin.reports_so_far() =~= Seq::<Seq<u8>>::empty());
    } else {
        lemma_run(command, payloads, events.drop_last());
        let before = begin.run(events.drop_last());
        lemma_next_wf(before, events.last());
        lemma_next_keeps_stage(before, events.last());
        lemma_next_reports(before, events.last());
    }
}

/// However a stage is driven, what has gone out is a beginning of the reports
/// of the stage, and once the stage has ended well it is all of them: no
/// report is left out, none goes out twice, and none out of order.
pub proof fn lemma_sent_reports(
    command: UpdateCommand,
    payloads: Seq<Seq<u8>>,
    events: Seq<EventView>,
)
    requires
        payloads.len() > 0 ==> command != UpdateCommand::Unknown,
    ensures
        UpdaterView::begin(command, payloads).sent_reports(events).is_prefix_of(
            stage_reports(command, payloads),
        ),
        UpdaterView::begin(command, payloads).run(events).phase is Done ==> UpdaterView::begin(
            command,
            payloads,
        ).sent_reports(events) == stage_reports(command, payloads),
{
    lemma_run(command, payloads, events);
    lemma_reports_so_far_prefix(UpdaterView::begin(command, payloads).run(events));
}

/// A stage that has ended well has carried the payloads of its commands to
/// the device, whole and in order.
pub proof fn lemma_finished_stage_carried_all(
    command: UpdateCommand,
    payloads: Seq<Seq<u8>>,
    events: Seq<EventView>,
)
    requires
        payloads.len() > 0 ==> command != UpdateCommand::Unknown,
        UpdaterView::begin(command, payloads).run(events).phase is Done,
    ensures
        carried(UpdaterView::begin(command, payloads).sent_reports(events)) == concat(payloads),
{
    lemma_sent_reports(command, payloads, events);
    lemma_stage_carries_payloads(command, payloads);
}

/// Running through two series of events in a row is running through them
/// joined.
proof fn lemma_run_add(state: UpdaterView, first: Seq<EventView>, second: Seq<EventView>)
    ensures
        state.run(first + second) == state.run(first).run(second),
    decreases second.len(),
{
    if second.len() == 0 {
        assert(first + second =~= first);
    } else {
        lemma_run_add(state, first, second.drop_last());
        assert((first + second).drop_last() =~= first + second.drop_last());
        assert((first + second).last() == second.last());
    }
}

/// Joining two series of events adds up their status reports.
proof fn lemma_polls_add(first: Seq<EventView>, second: Seq<EventView>)
    ensures
        polls(first + second) == polls(first) + polls(second),
    decreases second.len(),
{
    if second.len() == 0 {
        assert(first + second =~= first);
    } else {
        lemma_polls_add(first, second.drop_last());
        assert((first + second).drop_last() =~= first + second.drop_last());
        assert((first + second).last() == second.last());
    }
}

/// While reports of a command are left, each `Sent` moves on by one report.
proof fn lemma_run_sends(state: UpdaterView, count: nat)
    requires
        state.phase is Sending,
        0 <= state.index < state.payloads.len(),
        0 <= state.sent,
        state.sent + count < fragments(state.payloads[state.index]).len(),
    ensures
        state.run(Seq::new(count, |i: int| EventView::Sent)) == (UpdaterView {
            sent: state.sent + count,
            ..state
        }),
        polls(Seq::new(count, |i: int| EventView::Sent)) == 0,
    decreases count,
{
    let events = Seq::new(count, |i: int| EventView::Sent);
    if count > 0 {
        lemma_run_sends(state, (count - 1) as nat);
        assert(events.drop_last() =~= Seq::new((count - 1) as nat, |i: int| EventView::Sent));
    }
}

/// When nothing goes wrong, a command in progress is done after its events.
proof fn lemma_smooth_command(state: UpdaterView)
    requires
        state.wf(),
        state.phase is Sending,
        state.sent == 0,
    ensures
        state.run(smooth_command(state.command, state.payloads[state.index])) == state.advance(),
        polls(smooth_command(state.command, state.payloads[state.index])) == if awaits_status(
            state.command,
        ) {
            1nat
        } else {
            0nat
        },
{
    let command = state.command;
    let payload = state.payloads[state.index];
    let count = fragments(payload).len();
    let all_but_one = Seq::new((count - 1) as nat, |i: int| EventView::Sent);
    let sends = Seq::new(count, |i: int| EventView::Sent);
    let poll = seq![EventView::Status(success_status(command))];
    lemma_fragments(payload);
    lemma_run_sends(state, (count - 1) as nat);
    assert(sends.drop_last() =~= all_but_one);
    assert(sends.last() == EventView::Sent);
    let last_send = UpdaterView { sent: count - 1, ..state };
    assert(state.run(sends) == last_send.next(EventView::Sent));
    if awaits_status(command) {
        let polling = UpdaterView { sent: count as int, phase: Phase::Polling, ..state };
        assert(state.run(sends) == polling);
        assert(poll.drop_last() =~= Seq::<EventView>::empty());
        assert(polling.run(poll.drop_last()) == polling);
        assert(poll.last() == EventView::Status(success_status(command)));
        assert(polling.run(poll) == polling.next(EventView::Status(success_status(command))));
        assert(decode_update_status(success_status(command)) is Ok);
        assert(polling.run(poll) == state.advance());
        lemma_run_add(state, sends, poll);
        lemma_polls_add(sends, poll);
        assert(polls(poll) == 1) by {
            assert(polls(poll.drop_last()) == 0);
        }
    } else {
        assert(smooth_command(command, payload) =~= sends);
    }
}

/// When nothing goes wrong, the first `count` commands of a stage are done
/// after their events, with one status read for each command that asks for
/// one.
proof fn lemma_smooth_prefix(command: UpdateCommand, payloads: Seq<Seq<u8>>, count: nat)
    requires
        payloads.len() > 0,
        command != UpdateCommand::Unknown,
        count <= payloads.len(),
    ensures
        UpdaterView::begin(command, payloads).run(smooth_run(command, payloads, count)) == (
        UpdaterView {
            command,
            payloads,
            index: count as int,
            sent: 0,
            phase: if count < payloads.len() {
                Phase::Sending
            } else {
                Phase::Done
            },
        }),
        polls(smooth_run(command, payloads, count)) == if awaits_status(command) {
            count
        } else {
            0nat
        },
    decreases count,
{
    if count > 0 {
        let before = (count - 1) as nat;
        lemma_smooth_prefix(command, payloads, before);
        let state = UpdaterView::begin(command, payloads).run(
            smooth_run(command, payloads, before),
        );
        lemma_fragments(payloads[before as int]);
        lemma_smooth_command(state);
        lemma_run_add(
            UpdaterView::begin(command, payloads),
            smooth_run(command, payloads, before),
            smooth_command(command, payloads[before as int]),
        );
        lemma_polls_add(
            smooth_run(command, payloads, before),
            smooth_command(command, payloads[before as int]),
        );
    }
}

/// When every report goes out and every status read is success, the stage
/// ends well, and one status has been read for each command: none where the
/// stage reads no status.
pub proof fn lemma_smooth_run_ends_well(command: UpdateCommand, payloads: Seq<Seq<u8>>)
    requires
        payloads.len() > 0 ==> command != UpdateCommand::Unknown,
    ensures
        UpdaterView::begin(command, payloads).run(
            smooth_run(command, payloads, payloads.len()),
        ).phase is Done,
        polls(smooth_run(command, payloads, payloads.len())) == if awaits_status(command) {
            payloads.len()
        } else {
            0nat
        },
{
    if payloads.len() > 0 {
        lemma_smooth_prefix(command, payloads, payloads.len());
    }
}

/// A write stage that has ended well has carried the image to the device,
/// whole and in order.
pub proof fn lemma_written_image_arrives(image: Seq<u8>, events: Seq<EventView>)
    requires
        UpdaterView::begin(UpdateCommand::WriteUpdateImage, image_chunks(image)).run(
            events,
        ).phase is Done,
    ensures
        carried(
            UpdaterView::begin(UpdateCommand::WriteUpdateImage, image_chunks(image)).sent_reports(
                events,
            ),
        ) == image,
{
    lemma_finished_stage_carried_all(
        UpdateCommand::WriteUpdateImage,
        image_chunks(image),
        events,
    );
    lemma_image_chunks(image);
}

/// The number of reports that a payload of `len` bytes goes out in.
fn fragment_count(len: usize) -> (count: usize)
    ensures
        forall|payload: Seq<u8>|
            payload.len() == len ==> count == (#[trigger] fragments(payload)).len(),
        count >= 1,
{
    if len == 0 {
        1
    } else {
        (len - 1) / MAX_FRAGMENT_LEN + 1
    }
}

/// Reads a status byte by the table of the stage of `command`.
fn read_status(command: UpdateCommand, status_raw: u8) -> (outcome: Option<Outcome>)
    ensures
        outcome == stage_outcome(command, status_raw),
{
    match command {
        UpdateCommand::StartUpdate => Some(StartUpdateStatusCode::from_int(status_raw).outcome()),
        UpdateCommand::WriteUpdateImage => Some(
            WriteUpdateStatusCode::from_int(status_raw).outcome(),
        ),
        UpdateCommand::VerifyUpdateImage => Some(
            VerifyUpdateStatusCode::from_int(status_raw).outcome(),
        ),
        _ => None,
    }
}

/// A stage in progress.
struct StageRun {
    command: UpdateCommand,
    payloads: Vec<Vec<u8>>,
    index: usize,
    sent: usize,
    phase: Phase,
}

impl View for StageRun {
    type V = UpdaterView;

    closed spec fn view(&self) -> UpdaterView {
        UpdaterView {
            command: self.command,
            payloads: self.payloads.deep_view(),
            index: self.index as int,
            sent: self.sent as int,
            phase: self.phase,
        }
    }
}

impl StageRun {
    #[verifier::type_invariant]
    spec fn inv(self) -> bool {
        self@.wf()
    }

    /// A stage of `command` that has yet to send the first of `payloads`.
    fn begin(command: UpdateCommand, payloads: Vec<Vec<u8>>) -> (run: StageRun)
        requires
            payloads.len() > 0 ==> command != UpdateCommand::Unknown,
        ensures
            run@ == UpdaterView::begin(command, payloads.deep_view()),
    {
        proof {
            if payloads.len() > 0 {
                lemma_fragments(payloads.deep_view()[0]);
            }
        }
        let phase = if payloads.len() == 0 {
            Phase::Done
        } else {
            Phase::Sending
        };
        StageRun { command, payloads, index: 0, sent: 0, phase }
    }

    /// What the driver has to do now.
    fn action(&self) -> (action: Action)
        ensures
            action@ == self@.action(),
    {
        proof {
            use_type_invariant(self);
        }
        match &self.phase {
            Phase::Sending => {
                let payload = self.payloads[self.index].as_slice();
                let len = payload.len();
                proof {
                    assert(self.payloads.deep_view()[self.index as int] =~= payload@);
                    lemma_fragments(payload@);
                    if payload@.len() > 0 {
                        lemma_piece_len(payload@, 0x39, self.sent as int);
                    }
                }
                let start: usize = self.sent * MAX_FRAGMENT_LEN;
                let end: usize = if len - start <= MAX_FRAGMENT_LEN {
                    len
                } else {
                    start + MAX_FRAGMENT_LEN
                };
                let fragment = slice_subrange(payload, start, end);
                Action::Send(DualSenseHid::encode_command_report(self.command, fragment))
            },
            Phase::Polling => Action::Poll {
                report_id: REPORT_ID_UPDATE_STATUS,
                length: UPDATE_STATUS_REPORT_LEN,
            },
            Phase::Sleeping => Action::Sleep { millis: POLL_INTERVAL_MS },
            Phase::Done => Action::Finish(Ok(())),
            Phase::Failed(error) => Action::Finish(Err(error.duplicate())),
        }
    }

    /// Whether the stage has ended.
    fn is_finished(&self) -> (finished: bool)
        ensures
            finished == self@.is_finished(),
    {
        match &self.phase {
            Phase::Done => true,
            Phase::Failed(_) => true,
            _ => false,
        }
    }

    /// The state after `event`.
    fn step(self, event: Event) -> (next: StageRun)
        ensures
            next@ == self@.next(event@),
    {
        proof {
            use_type_invariant(&self);
        }
        let StageRun { command, payloads, index, sent, phase } = self;
        match phase {
            Phase::Sending => match event {
                Event::Sent => {
                    let count = fragment_count(payloads[index].len());
                    if sent + 1 < count {
                        StageRun { command, payloads, index, sent: sent + 1, phase: Phase::Sending }
                    } else if command == UpdateCommand::StartUpdate || command
                        == UpdateCommand::WriteUpdateImage || command
                        == UpdateCommand::VerifyUpdateImage {
                        StageRun { command, payloads, index, sent: sent + 1, phase: Phase::Polling }
                    } else {
                        Self::advance(command, payloads, index)
                    }
                },
                _ => StageRun { command, payloads, index, sent, phase: Phase::Sending },
            },
            Phase::Polling => match event {
                Event::Status(raw) => match DualSenseHid::get_update_status(raw) {
                    Err(error) => StageRun {
                        command,
                        payloads,
                        index,
                        sent,
                        phase: Phase::Failed(error),
                    },
                    Ok(status) => if status.command != command {
                        StageRun {
                            command,
                            payloads,
                            index,
                            sent,
                            phase: Phase::Failed(
                                AppError::UnexpectedUpdateStatusCommand(status.command, command),
                            ),
                        }
                    } else {
                        match read_status(command, status.status_raw) {
                            Some(Outcome::Success) => Self::advance(command, payloads, index),
                            Some(Outcome::Transient) => StageRun {
                                command,
                                payloads,
                                index,
                                sent,
                                phase: Phase::Sleeping,
                            },
                            Some(Outcome::Terminal(failure)) => StageRun {
                                command,
                                payloads,
                                index,
                                sent,
                                phase: Phase::Failed(AppError::UpdateFailed(failure)),
                            },
                            None => StageRun {
                                command,
                                payloads,
                                index,
                                sent,
                                phase: Phase::Polling,
                            },
                        }
                    },
                },
                _ => StageRun { command, payloads, index, sent, phase: Phase::Polling },
            },
            Phase::Sleeping => match event {
                Event::Slept => StageRun { command, payloads, index, sent, phase: Phase::Polling },
                _ => StageRun { command, payloads, index, sent, phase: Phase::Sleeping },
            },
            Phase::Done => StageRun { command, payloads, index, sent, phase: Phase::Done },
            Phase::Failed(error) => StageRun {
                command,
                payloads,
                index,
                sent,
                phase: Phase::Failed(error),
            },
        }
    }

    /// The state in which the command at `index` is done.
    fn advance(command: UpdateCommand, payloads: Vec<Vec<u8>>, index: usize) -> (next: StageRun)
        requires
            command != UpdateCommand::Unknown,
            index < payloads.len(),
        ensures
            next@.command == command,
            next@.payloads == payloads.deep_view(),
            next@.index == if index + 1 < payloads.len() {
                index + 1
            } else {
                payloads.len() as int
            },
            next@.sent == 0,
            next@.phase == if index + 1 < payloads.len() {
                Phase::Sending
            } else {
                Phase::Done
            },
    {
        if index + 1 < payloads.len() {
            proof {
                lemma_fragments(payloads.deep_view()[index + 1]);
            }
            StageRun { command, payloads, index: index + 1, sent: 0, phase: Phase::Sending }
        } else {
            let index = payloads.len();
            StageRun { command, payloads, index, sent: 0, phase: Phase::Done }
        }
    }
}

/// The number that an image carries as its firmware version: the two bytes at
/// offset `0x78`, low byte first.
pub open spec fn image_firmware_version(image: Seq<u8>) -> u16 {
    le16(image[0x78], image[0x79])
}

/// Drives a firmware update, one stage at a time.
///
/// A stage is begun with one of `start_update`, `write_update_image`,
/// `verify_update_image` and `finalize_update`. The driver then does what
/// `action` says and hands what came of it to `step`, until the action is
/// `Finish`. The updater does not remember earlier stages: what state the
/// device is in is for the device to say.
pub struct DualSenseUpdater {
    dev: DualSenseHid,
    stage: StageRun,
}

impl View for DualSenseUpdater {
    type V = UpdaterView;

    closed spec fn view(&self) -> UpdaterView {
        self.stage@
    }
}

impl DualSenseUpdater {
    /// An updater for the device `dev`, with no stage begun.
    pub fn new(dev: DualSenseHid) -> (updater: DualSenseUpdater)
        ensures
            updater@ == UpdaterView::idle(),
            updater.device() == dev,
    {
        let payloads: Vec<Vec<u8>> = Vec::new();
        proof {
            assert(payloads.deep_view() =~= Seq::<Seq<u8>>::empty());
        }
        DualSenseUpdater { dev, stage: StageRun::begin(UpdateCommand::Unknown, payloads) }
    }

    /// The device that the updater was made for.
    pub closed spec fn device(&self) -> DualSenseHid {
        self.dev
    }

    /// The device that the updater was made for.
    pub fn dev(&self) -> (dev: &DualSenseHid)
        ensures
            *dev == self.device(),
    {
        &self.dev
    }

    /// Reads the firmware version that an image file carries.
    ///
    /// Fails with `FirmwareImageTooSmall` on an image that ends before the
    /// version does.
    pub fn firmware_version_from_image(image: &[u8]) -> (result: Result<u16, AppError>)
        ensures
            image@.len() < 0x7A ==> result == Err::<u16, AppError>(
                AppError::FirmwareImageTooSmall,
            ),
            image@.len() >= 0x7A ==> result == Ok::<u16, AppError>(
                image_firmware_version(image@),
            ),
    {
        let offset: usize = 0x78;
        if image.len() < offset + 2 {
            return Err(AppError::FirmwareImageTooSmall);
        }
        Ok(image[offset] as u16 + 256 * (image[offset + 1] as u16))
    }

    /// Decodes the firmware information report that the driver has read.
    pub fn read_firmware_info(&self, raw: Vec<u8>) -> (result: Result<FirmwareInfo, AppError>)
        ensures
            is_firmware_info_of(result, raw@),
            result matches Ok(info) ==> {
                let date = until_nul(firmware_info_payload(raw@).subrange(0, 12));
                let time = until_nul(firmware_info_payload(raw@).subrange(12, 20));
                &&& is_plain(date) ==> info.build_date@ == plain_text(date)
                &&& is_plain(time) ==> info.build_time@ == plain_text(time)
            },
    {
        DualSenseHid::get_firmware_info(raw)
    }

    /// Begins the start stage: the first `HEADER_LEN` bytes of the image go out
    /// as one command, and its status is read until the device has decided.
    ///
    /// Fails with `FirmwareImageTooSmallForHeader` on an image of fewer bytes,
    /// and then leaves the updater as it was.
    pub fn start_update(&mut self, image: &[u8]) -> (result: Result<(), AppError>)
        ensures
            image@.len() < 256 ==> result == Err::<(), AppError>(
                AppError::FirmwareImageTooSmallForHeader,
            ) && *final(self) == *old(self),
            image@.len() >= 256 ==> result is Ok && final(self)@ == UpdaterView::begin(
                UpdateCommand::StartUpdate,
                seq![image@.subrange(0, 256)],
            ),
            final(self).device() == old(self).device(),
    {
        if image.len() < HEADER_LEN {
            return Err(AppError::FirmwareImageTooSmallForHeader);
        }
        self.send_start_update_and_wait(slice_subrange(image, 0, HEADER_LEN))
    }

    /// Begins the write stage: the image goes out in chunks of
    /// `IMAGE_CHUNK_LEN` bytes, each as a command of its own whose status is
    /// read before the next chunk follows. An empty image is a stage with
    /// nothing to do.
    pub fn write_update_image(&mut self, image: &[u8])
        ensures
            final(self)@ == UpdaterView::begin(
                UpdateCommand::WriteUpdateImage,
                image_chunks(image@),
            ),
            final(self).device() == old(self).device(),
    {
        self.stage = StageRun::begin(UpdateCommand::WriteUpdateImage, split_image(image));
    }

    /// Begins the verify stage: one command without payload, whose status is
    /// read until the device has decided.
    pub fn verify_update_image(&mut self)
        ensures
            final(self)@ == UpdaterView::begin(
                UpdateCommand::VerifyUpdateImage,
                seq![Seq::<u8>::empty()],
            ),
            final(self).device() == old(self).device(),
    {
        self.send_verify_update_image_and_wait()
    }

    /// Begins the finalize stage: one command without payload. No status is
    /// read after it, so the stage ends when the command has gone out.
    pub fn finalize_update(&mut self)
        ensures
            final(self)@ == UpdaterView::begin(
                UpdateCommand::FinalizeUpdate,
                seq![Seq::<u8>::empty()],
            ),
            final(self).device() == old(self).device(),
    {
        self.send_finalize_update()
    }

    /// Begins a stage that is one start command with `data` as its payload.
    ///
    /// Fails with `InvalidUpdateStreamLength` on data that is not `HEADER_LEN`
    /// bytes long, and then leaves the updater as it was.
    pub fn send_start_update_and_wait(&mut self, data: &[u8]) -> (result: Result<(), AppError>)
        ensures
            data@.len() != 256 ==> result == Err::<(), AppError>(
                AppError::InvalidUpdateStreamLength(data@.len() as usize),
            ) && *final(self) == *old(self),
            data@.len() == 256 ==> result is Ok && final(self)@ == UpdaterView::begin(
                UpdateCommand::StartUpdate,
                seq![data@],
            ),
            final(self).device() == old(self).device(),
    {
        if data.len() != HEADER_LEN {
            return Err(AppError::InvalidUpdateStreamLength(data.len()));
        }
        self.stage = StageRun::begin(UpdateCommand::StartUpdate, one_payload(data));
        Ok(())
    }

    /// Begins a stage that is one write command with `data` as its payload.
    ///
    /// Fails with `UpdateImageTooLarge` on more than `IMAGE_CHUNK_LEN` bytes,
    /// and then leaves the updater as it was.
    pub fn send_write_update_image_and_wait(&mut self, data: &[u8]) -> (result: Result<
        (),
        AppError,
    >)
        ensures
            data@.len() > 0x8000 ==> result == Err::<(), AppError>(
                AppError::UpdateImageTooLarge(data@.len() as usize),
            ) && *final(self) == *old(self),
            data@.len() <= 0x8000 ==> result is Ok && final(self)@ == UpdaterView::begin(
                UpdateCommand::WriteUpdateImage,
                seq![data@],
            ),
            final(self).device() == old(self).device(),
    {
        if data.len() > IMAGE_CHUNK_LEN {
            return Err(AppError::UpdateImageTooLarge(data.len()));
        }
        self.stage = StageRun::begin(UpdateCommand::WriteUpdateImage, one_payload(data));
        Ok(())
    }

    /// Begins a stage that is one verify command.
    pub fn send_verify_update_image_and_wait(&mut self)
        ensures
            final(self)@ == UpdaterView::begin(
                UpdateCommand::VerifyUpdateImage,
                seq![Seq::<u8>::empty()],
            ),
            final(self).device() == old(self).device(),
    {
        let empty: Vec<u8> = Vec::new();
        let payloads = one_payload(empty.as_slice());
        self.stage = StageRun::begin(UpdateCommand::VerifyUpdateImage, payloads);
    }

    /// Begins a stage that is one finalize command.
    pub fn send_finalize_update(&mut self)
        ensures
            final(self)@ == UpdaterView::begin(
                UpdateCommand::FinalizeUpdate,
                seq![Seq::<u8>::empty()],
            ),
            final(self).device() == old(self).device(),
    {
        let empty: Vec<u8> = Vec::new();
        let payloads = one_payload(empty.as_slice());
        self.stage = StageRun::begin(UpdateCommand::FinalizeUpdate, payloads);
    }

    /// What the driver has to do now.
    ///
    /// `Send` carries the next report of the command in progress. `Finish`
    /// carries the result of the stage; an updater without a stage has
    /// finished well.
    pub fn action(&self) -> (action: Action)
        ensures
            action@ == self@.action(),
    {
        self.stage.action()
    }

    /// Whether the stage has ended, or none was begun.
    pub fn is_finished(&self) -> (finished: bool)
        ensures
            finished == self@.is_finished(),
    {
        self.stage.is_finished()
    }

    /// Takes in what came of the last action, and moves on.
    ///
    /// An event that does not answer the action changes nothing, and neither
    /// does any event once the stage has ended.
    pub fn step(&mut self, event: Event)
        ensures
            final(self)@ == old(self)@.next(event@),
            final(self).device() == old(self).device(),
    {
        let mut stage = StageRun::begin(UpdateCommand::Unknown, Vec::new());
        core::mem::swap(&mut self.stage, &mut stage);
        self.stage = stage.step(event);
    }
}

/// The payloads of a stage that is a single command.
fn one_payload(data: &[u8]) -> (payloads: Vec<Vec<u8>>)
    ensures
        payloads.deep_view() == seq![data@],
{
    let mut payloads: Vec<Vec<u8>> = Vec::new();
    payloads.push(slice_to_vec(data));
    proof {
        assert(payloads.deep_view() =~~= seq![data@]);
    }
    payloads
}

} // verus!
