//! What stands on the wire, byte by byte, and what becomes of it.
use vstd::prelude::*;

use crate::clock::Moment;
use crate::protocol::codec::{
    be_positive_i32, be_u16, child_disposition_bytes, child_role_code, cleanup_status_code,
    failure_code_code, guardian_exit_bytes, phase_code, session_status_code, stop_action_code,
    unix_signal_code, valid_child_disposition, valid_guardian_exit, valid_process_group,
    valid_terminal_size, worker_join_status_code,
};
use crate::protocol::frame::{command_frame, event_frame, first_frame, header_fields};
use crate::protocol::framing::{ReceiveModel, SendModel, StageModel};
use crate::protocol::message::{
    ChildDisposition, ChildRole, CleanupStatus, CoordinatorCommand, FailureCode, GuardianEvent,
    GuardianExitDisposition, Phase, ProtocolError, SessionStatus, StopAction, UnixSignal,
    WorkerJoinStatus,
};
use crate::protocol::transfer::{
    shared_step, ReadModel, ReadPart, TransferPhase, TransferStep, WireAction, WireEvent,
    WriteModel,
};
use crate::protocol::wire::{
    command_valid, event_valid, frame_command, frame_event, spells_command, spells_event,
};

verus! {

// ---------------------------------------------------------------------------
// Values.
// ---------------------------------------------------------------------------

/// Every exit code can be written, and is written as itself: the guardian's as
/// `1` and the code, a child's as `1`, the code and what was done to the child.
/// A signal can be written exactly if it is a number that a child can die of.
pub proof fn law_every_exit_code_is_written_as_itself(
    code: u8,
    signal: u8,
    core_dumped: bool,
    stop_action: StopAction,
)
    ensures
        valid_guardian_exit(GuardianExitDisposition::Code(code)),
        guardian_exit_bytes(GuardianExitDisposition::Code(code)) == seq![1u8, code],
        valid_guardian_exit(GuardianExitDisposition::Signal(signal)) <==> 0 < signal < 128,
        guardian_exit_bytes(GuardianExitDisposition::Signal(signal)) == seq![2u8, signal],
        valid_guardian_exit(GuardianExitDisposition::InternalFailure),
        guardian_exit_bytes(GuardianExitDisposition::InternalFailure) == seq![3u8, 0u8],
        valid_child_disposition(ChildDisposition::NotStarted),
        child_disposition_bytes(ChildDisposition::NotStarted) == seq![0u8, 0u8, 0u8, 0u8],
        valid_child_disposition(ChildDisposition::Exited { code, stop_action }),
        child_disposition_bytes(ChildDisposition::Exited { code, stop_action }) == seq![
            1u8,
            code,
            stop_action_code(stop_action),
            0u8,
        ],
        valid_child_disposition(ChildDisposition::Signaled { signal, core_dumped, stop_action })
            <==> 0 < signal < 128,
        child_disposition_bytes(ChildDisposition::Signaled { signal, core_dumped, stop_action })
            == seq![
            2u8,
            signal,
            stop_action_code(stop_action),
            if core_dumped {
                1u8
            } else {
                0u8
            },
        ],
{
}

/// Numbers are written most significant byte first, and a size or a process
/// number can be written exactly if it can be one.
pub proof fn law_numbers_are_written_big_end_first(rows: u16, cols: u16, pid: i32, pgid: i32)
    ensures
        be_u16(rows).len() == 2,
        be_u16(rows)[0] * 256 + be_u16(rows)[1] == rows,
        pid >= 0 ==> be_positive_i32(pid).len() == 4 && be_positive_i32(pid)[0] * 16777216
            + be_positive_i32(pid)[1] * 65536 + be_positive_i32(pid)[2] * 256 + be_positive_i32(
            pid,
        )[3] == pid,
        valid_terminal_size(rows, cols) <==> rows >= 1 && cols >= 1,
        valid_process_group(pid, pgid) <==> pid >= 1 && pgid == pid,
{
    if pid >= 0 {
        crate::protocol::codec::lemma_i32_round_trip(pid, be_positive_i32(pid));
    }
}

/// The lifecycle phases, in the order in which they are numbered from one.
pub open spec fn phases() -> Seq<Phase> {
    seq![
        Phase::Lease,
        Phase::Runtime,
        Phase::Worker,
        Phase::AppServer,
        Phase::Tui,
        Phase::Readiness,
        Phase::Shutdown,
        Phase::Reap,
        Phase::Cleanup,
        Phase::Protocol,
        Phase::Terminal,
        Phase::Pump,
        Phase::Signal,
        Phase::Restore,
    ]
}

/// The failures, in the order in which they are numbered from one.
pub open spec fn failures() -> Seq<FailureCode> {
    seq![
        FailureCode::Timeout,
        FailureCode::Descriptor,
        FailureCode::Lease,
        FailureCode::Spawn,
        FailureCode::EarlyExit,
        FailureCode::Worker,
        FailureCode::Containment,
        FailureCode::Wait,
        FailureCode::CleanupMismatch,
        FailureCode::InvalidControl,
        FailureCode::Internal,
        FailureCode::Terminal,
        FailureCode::Pump,
        FailureCode::Signal,
        FailureCode::Restore,
    ]
}

/// Every choice is written as its place in a fixed order: phases, failures,
/// roles, signals and the outcome of a session count from one; what was done to
/// a child and how the worker was joined count from zero.
pub proof fn law_choices_are_written_by_their_place(place: int)
    ensures
        0 <= place < 14 ==> phase_code(phases()[place]) == place + 1,
        0 <= place < 15 ==> failure_code_code(failures()[place]) == place + 1,
        0 <= place < 2 ==> child_role_code(seq![ChildRole::AppServer, ChildRole::Tui][place])
            == place + 1,
        0 <= place < 4 ==> unix_signal_code(
            seq![UnixSignal::Hup, UnixSignal::Int, UnixSignal::Quit, UnixSignal::Term][place],
        ) == place + 1,
        0 <= place < 2 ==> session_status_code(
            seq![SessionStatus::Completed, SessionStatus::Failed][place],
        ) == place + 1,
        0 <= place < 3 ==> stop_action_code(
            seq![StopAction::NoAction, StopAction::Term, StopAction::Kill][place],
        ) == place,
        0 <= place < 4 ==> worker_join_status_code(
            seq![
                WorkerJoinStatus::NotStarted,
                WorkerJoinStatus::JoinedClean,
                WorkerJoinStatus::JoinedFailed,
                WorkerJoinStatus::JoinedPanicked,
            ][place],
        ) == place,
        cleanup_status_code(CleanupStatus::Complete) == 1,
        phases().len() == 14 && forall|phase: Phase| phases().contains(phase),
        failures().len() == 15 && forall|code: FailureCode| failures().contains(code),
{
    assert forall|phase: Phase| phases().contains(phase) by {
        assert(phases()[phase_code(phase) - 1] == phase);
    }
    assert forall|code: FailureCode| failures().contains(code) by {
        assert(failures()[failure_code_code(code) - 1] == code);
    }
}

// ---------------------------------------------------------------------------
// Frames.
// ---------------------------------------------------------------------------

/// The eight bytes in front of a body: `CLFR`, version one, the type with its
/// direction, and the length of the body.
pub open spec fn opens_frame(frame: Seq<u8>, type_byte: int, body_len: int) -> bool {
    &&& frame.len() == 8 + body_len
    &&& frame[0] == 0x43 && frame[1] == 0x4c && frame[2] == 0x46 && frame[3] == 0x52
    &&& frame[4] == 1
    &&& frame[5] == type_byte
    &&& frame[6] == 0 && frame[7] == body_len
    &&& frame[8] == 1
}

/// The layout of every command: its frame opens with its number below 128, and
/// a signal, a new size or a resumed size follows the version of the body.
pub proof fn law_command_frames_are_laid_out(command: CoordinatorCommand)
    ensures
        ({
            let frame = command_frame(command);
            match command {
                CoordinatorCommand::Start => opens_frame(frame, 1, 1),
                CoordinatorCommand::Stop => opens_frame(frame, 2, 1),
                CoordinatorCommand::OpenInputGate => opens_frame(frame, 3, 1),
                CoordinatorCommand::Signal { signal } => opens_frame(frame, 4, 2) && frame[9] == (
                match signal {
                    UnixSignal::Hup => 1u8,
                    UnixSignal::Int => 2u8,
                    UnixSignal::Quit => 3u8,
                    UnixSignal::Term => 4u8,
                }),
                CoordinatorCommand::Resize { rows, cols } => opens_frame(frame, 5, 5) && frame[9]
                    * 256 + frame[10] == rows && frame[11] * 256 + frame[12] == cols,
                CoordinatorCommand::Suspend => opens_frame(frame, 6, 1),
                CoordinatorCommand::Resume { rows, cols } => opens_frame(frame, 7, 5) && frame[9]
                    * 256 + frame[10] == rows && frame[11] * 256 + frame[12] == cols,
                CoordinatorCommand::TerminalRestored => opens_frame(frame, 8, 1),
                CoordinatorCommand::TerminalArmAccepted => opens_frame(frame, 9, 1),
            }
        }),
        command_valid(command) <==> match command {
            CoordinatorCommand::Resize { rows, cols } => rows >= 1 && cols >= 1,
            CoordinatorCommand::Resume { rows, cols } => rows >= 1 && cols >= 1,
            _ => true,
        },
{
}

/// The layout of every event but the terminal frame: its frame opens with its
/// number above 128, and what it tells follows the version of the body.
pub proof fn law_event_frames_are_laid_out(event: GuardianEvent)
    ensures
        ({
            let frame = event_frame(event);
            match event {
                GuardianEvent::LeaseCommitted => opens_frame(frame, 0x81, 1),
                GuardianEvent::ChildStarted { role, pid, pgid } => {
                    &&& opens_frame(frame, 0x82, 10)
                    &&& frame[9] == (if role == ChildRole::AppServer {
                        1u8
                    } else {
                        2u8
                    })
                    &&& pid >= 0 ==> frame[10] * 16777216 + frame[11] * 65536 + frame[12] * 256
                        + frame[13] == pid
                    &&& pgid >= 0 ==> frame[14] * 16777216 + frame[15] * 65536 + frame[16] * 256
                        + frame[17] == pgid
                },
                GuardianEvent::Ready => opens_frame(frame, 0x83, 1),
                GuardianEvent::Failed { phase, code } => opens_frame(frame, 0x84, 3) && frame[9]
                    == phase_code(phase) && frame[10] == failure_code_code(code),
                GuardianEvent::TerminalArmed { snapshot } => snapshot.digest().len() == 32 ==> {
                    &&& opens_frame(frame, 0x86, 33)
                    &&& forall|i: int| 0 <= i < 32 ==> #[trigger] frame[9 + i] == snapshot.digest()[i]
                },
                GuardianEvent::InputGateOpened => opens_frame(frame, 0x87, 1),
                GuardianEvent::SignalForwarded { signal } => opens_frame(frame, 0x88, 2) && frame[9]
                    == (match signal {
                    UnixSignal::Hup => 1u8,
                    UnixSignal::Int => 2u8,
                    UnixSignal::Quit => 3u8,
                    UnixSignal::Term => 4u8,
                }),
                GuardianEvent::ResizeApplied { rows, cols } => opens_frame(frame, 0x89, 5)
                    && frame[9] * 256 + frame[10] == rows && frame[11] * 256 + frame[12] == cols,
                GuardianEvent::Suspended => opens_frame(frame, 0x8a, 1),
                GuardianEvent::Resumed { rows, cols } => opens_frame(frame, 0x8b, 5) && frame[9]
                    * 256 + frame[10] == rows && frame[11] * 256 + frame[12] == cols,
                GuardianEvent::TerminalQuiesced => opens_frame(frame, 0x8c, 1),
                GuardianEvent::TerminalRecoveryDisarmed => opens_frame(frame, 0x8d, 1),
                GuardianEvent::ChildrenReaped { .. } => opens_frame(frame, 0x85, 14),
            }
        }),
        event_valid(event) <==> match event {
            GuardianEvent::ChildStarted { pid, pgid, .. } => pid >= 1 && pgid == pid,
            GuardianEvent::ResizeApplied { rows, cols } => rows >= 1 && cols >= 1,
            GuardianEvent::Resumed { rows, cols } => rows >= 1 && cols >= 1,
            GuardianEvent::ChildrenReaped { app, tui, guardian_exit, .. } => {
                &&& app matches ChildDisposition::Signaled { signal, .. } ==> 0 < signal < 128
                &&& tui matches ChildDisposition::Signaled { signal, .. } ==> 0 < signal < 128
                &&& guardian_exit matches GuardianExitDisposition::Signal(signal) ==> 0 < signal
                    < 128
            },
            _ => true,
        },
{
    if let GuardianEvent::ChildStarted { pid, pgid, .. } = event {
        law_numbers_are_written_big_end_first(0, 0, pid, pgid);
        law_numbers_are_written_big_end_first(0, 0, pgid, pgid);
    }
    if let GuardianEvent::TerminalArmed { snapshot } = event {
        if snapshot.digest().len() == 32 {
            let frame = event_frame(event);
            assert(frame.subrange(9, 41) =~= snapshot.digest());
            assert forall|i: int| 0 <= i < 32 implies #[trigger] frame[9 + i]
                == snapshot.digest()[i] by {
                assert(frame.subrange(9, 41)[i] == frame[9 + i]);
            }
        }
    }
}

/// The layout of the terminal frame: the App Server, then the TUI, then worker,
/// cleanup, session and the guardian's own exit.
pub proof fn law_terminal_frame_is_laid_out(
    app: ChildDisposition,
    tui: ChildDisposition,
    worker: WorkerJoinStatus,
    cleanup: CleanupStatus,
    session: SessionStatus,
    guardian_exit: GuardianExitDisposition,
)
    ensures
        ({
            let frame = event_frame(
                GuardianEvent::ChildrenReaped { app, tui, worker, cleanup, session, guardian_exit },
            );
            &&& opens_frame(frame, 0x85, 14)
            &&& frame.subrange(9, 13) == child_disposition_bytes(app)
            &&& frame.subrange(13, 17) == child_disposition_bytes(tui)
            &&& frame[17] == worker_join_status_code(worker)
            &&& frame[18] == 1
            &&& frame[19] == (if session == SessionStatus::Completed {
                1u8
            } else {
                2u8
            })
            &&& frame.subrange(20, 22) == guardian_exit_bytes(guardian_exit)
        }),
{
    let frame = event_frame(
        GuardianEvent::ChildrenReaped { app, tui, worker, cleanup, session, guardian_exit },
    );
    assert(frame.subrange(9, 13) =~= child_disposition_bytes(app));
    assert(frame.subrange(13, 17) =~= child_disposition_bytes(tui));
    assert(frame.subrange(20, 22) =~= guardian_exit_bytes(guardian_exit));
}

/// What is wrong with a header is told in this order: its magic, its version,
/// its direction, a type of zero, an empty body, a body of more than 56 bytes.
/// Any other header is good for the type and the length that it names.
pub proof fn law_header_is_judged_in_order(header: Seq<u8>, from_guardian: bool)
    requires
        header.len() == 8,
    ensures
        ({
            let direction: u8 = if from_guardian {
                0x80
            } else {
                0
            };
            let length = header[6] * 256 + header[7];
            let magic = header[0] == 0x43 && header[1] == 0x4c && header[2] == 0x46 && header[3]
                == 0x52;
            let directed = from_guardian <==> header[5] >= 128;
            let message_type = if header[5] >= 128 {
                header[5] - 128
            } else {
                header[5] as int
            };
            match header_fields(header, direction) {
                Ok((kind, size)) => magic && header[4] == 1 && directed && message_type > 0 && 0
                    < length <= 56 && kind == message_type && size == length,
                Err(error) => if !magic {
                    error == ProtocolError::BadMagic
                } else if header[4] != 1 {
                    error == ProtocolError::UnsupportedVersion
                } else if !directed {
                    error == ProtocolError::WrongDirection
                } else if message_type == 0 {
                    error == ProtocolError::UnknownType
                } else if length == 0 {
                    error == ProtocolError::ZeroLength
                } else {
                    length > 56 && error == ProtocolError::OversizedBody
                },
            }
        }),
{
    let opening = header.subrange(0, 4);
    assert(opening[0] == header[0] && opening[1] == header[1] && opening[2] == header[2]
        && opening[3] == header[3]);
    assert(opening == crate::protocol::wire::magic() <==> (header[0] == 0x43 && header[1] == 0x4c
        && header[2] == 0x46 && header[3] == 0x52)) by {
        if header[0] == 0x43 && header[1] == 0x4c && header[2] == 0x46 && header[3] == 0x52 {
            assert(opening =~= crate::protocol::wire::magic());
        }
    }
}

/// A stream that ends early is told apart by where it ends: before the frame,
/// within its header, or within its body. A frame that is there whole is cut out
/// exactly.
pub proof fn law_early_end_is_told_apart(stream: Seq<u8>, direction: u8)
    ensures
        first_frame(stream, direction) == Err::<(u8, Seq<u8>), ProtocolError>(
            ProtocolError::UnexpectedEof,
        ) <==> stream.len() == 0,
        first_frame(stream, direction) == Err::<(u8, Seq<u8>), ProtocolError>(
            ProtocolError::TruncatedHeader,
        ) <==> 0 < stream.len() < 8,
        first_frame(stream, direction) == Err::<(u8, Seq<u8>), ProtocolError>(
            ProtocolError::TruncatedBody,
        ) ==> stream.len() >= 8 && stream.len() < 8 + stream[6] * 256 + stream[7],
        first_frame(stream, direction) matches Ok((_, body)) ==> {
            &&& body.len() == stream[6] * 256 + stream[7]
            &&& stream.len() >= 8 + body.len()
            &&& body == stream.subrange(8, 8 + body.len() as int)
        },
{
    if stream.len() >= 8 {
        let header = stream.subrange(0, 8);
        assert(header[6] == stream[6] && header[7] == stream[7]);
    }
}

/// A body is judged by its type, then by its length, then by its values: only
/// the nine commands and the thirteen events are known, each with one length.
pub proof fn law_body_is_judged_in_order(message_type: u8, body: Seq<u8>)
    ensures
        ({
            let size: int = if message_type == 4 {
                2
            } else if message_type == 5 || message_type == 7 {
                5
            } else {
                1
            };
            match frame_command(message_type, body) {
                Ok(command) => 1 <= message_type <= 9 && body.len() == size && spells_command(
                    command,
                    message_type,
                    body,
                ),
                Err(error) => if !(1 <= message_type <= 9) {
                    error == ProtocolError::UnknownType
                } else if body.len() < size {
                    error == ProtocolError::InvalidLength
                } else if body.len() > size {
                    error == ProtocolError::TrailingData
                } else {
                    error == ProtocolError::InvalidValue && forall|command: CoordinatorCommand|
                        !spells_command(command, message_type, body)
                },
            }
        }),
        ({
            let size: int = if message_type == 2 {
                10
            } else if message_type == 4 {
                3
            } else if message_type == 5 {
                14
            } else if message_type == 6 {
                33
            } else if message_type == 8 {
                2
            } else if message_type == 9 || message_type == 11 {
                5
            } else {
                1
            };
            match frame_event(message_type, body) {
                Ok(event) => 1 <= message_type <= 13 && body.len() == size && spells_event(
                    event,
                    message_type,
                    body,
                ),
                Err(error) => if !(1 <= message_type <= 13) {
                    error == ProtocolError::UnknownType
                } else if body.len() < size {
                    error == ProtocolError::InvalidLength
                } else if body.len() > size {
                    error == ProtocolError::TrailingData
                } else {
                    error == ProtocolError::InvalidValue && forall|event: GuardianEvent|
                        !spells_event(event, message_type, body)
                },
            }
        }),
{
}

// ---------------------------------------------------------------------------
// Transfers.
// ---------------------------------------------------------------------------

/// A clock decides only by the deadline: before it, whatever was pending goes on
/// to be done; from it on, everything that asked for the clock ends in a
/// timeout.
pub proof fn law_clock_decides_by_the_deadline(
    phase: TransferPhase,
    now: Moment,
    deadline: Moment,
)
    requires
        phase == TransferPhase::BeforeAttempt || phase == TransferPhase::BeforeYield || phase
            == TransferPhase::AfterYield,
    ensures
        now.nanos >= deadline.nanos ==> shared_step(phase, WireEvent::Clock(now), deadline) == Some(
            TransferPhase::Aborted(ProtocolError::Timeout),
        ),
        now.nanos < deadline.nanos ==> shared_step(phase, WireEvent::Clock(now), deadline) == Some(
            if phase == TransferPhase::BeforeAttempt {
                TransferPhase::Attempt
            } else if phase == TransferPhase::BeforeYield {
                TransferPhase::Yielding
            } else {
                TransferPhase::BeforeAttempt
            },
        ),
{
}

/// A channel that is interrupted, or is not ready, loses nothing: an attempt
/// comes back to where it was, with what it had. A channel that fails ends it.
pub proof fn law_interrupted_transfer_loses_nothing(
    read: ReadModel,
    write: WriteModel,
    early: Moment,
)
    requires
        read.phase == TransferPhase::Attempt,
        write.phase == TransferPhase::Attempt,
        early.nanos < read.deadline.nanos,
        early.nanos < write.deadline.nanos,
    ensures
        read.after(WireEvent::Interrupted).after(WireEvent::Clock(early)) == read,
        write.after(WireEvent::Interrupted).after(WireEvent::Clock(early)) == write,
        read.after(WireEvent::NotReady).after(WireEvent::Clock(early)).after(
            WireEvent::Yielded,
        ).after(WireEvent::Clock(early)).after(WireEvent::Clock(early)) == read,
        write.after(WireEvent::NotReady).after(WireEvent::Clock(early)).after(
            WireEvent::Yielded,
        ).after(WireEvent::Clock(early)).after(WireEvent::Clock(early)) == write,
        read.after(WireEvent::Failed).step() == TransferStep::Done(
            Err::<(), ProtocolError>(ProtocolError::Io),
        ),
        write.after(WireEvent::Failed).step() == TransferStep::Done(
            Err::<(), ProtocolError>(ProtocolError::Io),
        ),
{
}

/// The end of the stream within a read is told by the part that it cuts short,
/// and a channel that claims more than it was asked for, or a write that writes
/// nothing, is a broken channel.
pub proof fn law_broken_channel_is_told(
    read: ReadModel,
    write: WriteModel,
    buffer: Vec<u8>,
    count: usize,
)
    requires
        read.phase == TransferPhase::Attempt,
        write.phase == TransferPhase::Attempt,
        read.data.len() < read.wanted,
        write.offset < write.input.len(),
    ensures
        count == 0 ==> read.after(WireEvent::Read { buffer, count }).step() == TransferStep::Done(
            Err::<(), ProtocolError>(
                if read.part == ReadPart::Body {
                    ProtocolError::TruncatedBody
                } else if read.data.len() == 0 {
                    ProtocolError::UnexpectedEof
                } else {
                    ProtocolError::TruncatedHeader
                },
            ),
        ),
        count > read.wanted - read.data.len() ==> read.after(
            WireEvent::Read { buffer, count },
        ).step() == TransferStep::Done(Err::<(), ProtocolError>(ProtocolError::Io)),
        count == 0 || count > write.input.len() - write.offset ==> write.after(
            WireEvent::Wrote(count),
        ).step() == TransferStep::Done(Err::<(), ProtocolError>(ProtocolError::Io)),
{
}

/// A frame that the channel takes at once is sent: clock, write, clock, flush,
/// clock, and it is done, as long as every clock is early.
pub proof fn law_prompt_channel_sends_a_frame(frame: Seq<u8>, early: Moment, deadline: Moment)
    requires
        0 < frame.len() <= usize::MAX,
        early.nanos < deadline.nanos,
    ensures
        ({
            let fresh = SendModel::start(frame, deadline);
            let asked = fresh.after(WireEvent::Clock(early));
            let wrote = asked.after(WireEvent::Wrote(frame.len() as usize)).after(
                WireEvent::Clock(early),
            );
            let flushing = wrote.after(WireEvent::Clock(early));
            let done = flushing.after(WireEvent::Flushed).after(WireEvent::Clock(early));
            &&& fresh.step() == TransferStep::<()>::Next(WireAction::ReadClock)
            &&& asked.step() == TransferStep::<()>::Next(WireAction::Write { offset: 0 })
            &&& wrote.step() == TransferStep::<()>::Next(WireAction::ReadClock)
            &&& flushing.step() == TransferStep::<()>::Next(WireAction::Flush)
            &&& done.step() == TransferStep::Done(Ok::<(), ProtocolError>(()))
        }),
{
}

/// A frame that the channel gives at once is received: its header, then its
/// body, and what was sent is there, as long as every clock is early.
pub proof fn law_prompt_channel_delivers_a_frame(
    direction: u8,
    header: Vec<u8>,
    body: Vec<u8>,
    early: Moment,
    deadline: Moment,
)
    requires
        header@.len() == 8,
        early.nanos < deadline.nanos,
        header_fields(header@, direction) matches Ok((_, size)) && size == body@.len() && size > 0,
    ensures
        ({
            let fresh = ReceiveModel::start(direction, deadline);
            let asked = fresh.after(WireEvent::Clock(early));
            let opened = asked.after(WireEvent::Read { buffer: header, count: 8 }).after(
                WireEvent::Clock(early),
            );
            let reading = opened.after(WireEvent::Clock(early));
            let done = reading.after(
                WireEvent::Read { buffer: body, count: body@.len() as usize },
            ).after(WireEvent::Clock(early));
            &&& asked.step() == TransferStep::<()>::Next(WireAction::Read { limit: 8 })
            &&& reading.step() == TransferStep::<()>::Next(
                WireAction::Read { limit: body@.len() as usize },
            )
            &&& done.stage == (StageModel::Complete {
                message_type: (header_fields(header@, direction)->Ok_0).0,
                body: body@,
            })
        }),
{
    assert(header@.take(8) =~= header@);
    assert(Seq::<u8>::empty() + header@ =~= header@);
    assert(body@.take(body@.len() as int) =~= body@);
    assert(Seq::<u8>::empty() + body@ =~= body@);
}

} // verus!
