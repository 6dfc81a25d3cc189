//! The lifecycle wire, driven over byte channels.
use std::io::{self, Cursor, Read, Write};
use std::time::{Duration, SystemTime, UNIX_EPOCH};

use codex_supervisor::clock::Moment;
use codex_supervisor::protocol::coordinator::CoordinatorReceiver as CoordinatorTranscriptOwner;
use codex_supervisor::protocol::framing::{self, FrameReceiver, FrameSender};
use codex_supervisor::protocol::guardian::GuardianCommandReceiver as GuardianTranscriptOwner;
use codex_supervisor::protocol::lifecycle::TerminalLifecycleValidator;
use codex_supervisor::protocol::message::{
    ChildDisposition, ChildRole, CleanupStatus, CoordinatorCommand, FailureCode, GuardianEvent,
    GuardianExitDisposition, Phase, ProtocolError, SessionStatus, StopAction,
    TerminalSnapshotFingerprint, UnixSignal, WorkerJoinStatus, SNAPSHOT_FINGERPRINT_BYTES,
};
use codex_supervisor::protocol::proof_token::{
    VerifiedGuardianExitDisposition, VerifiedInitialOpenGateCommand, VerifiedOpenGateAck,
    VerifiedReady, VerifiedResizeCommand, VerifiedResumeCommand, VerifiedResumeOpenGateCommand,
    VerifiedSuspendCommand, VerifiedTerminalRestoredCommand,
};
use codex_supervisor::protocol::transfer::{TransferStep, WireAction, WireEvent};
use codex_supervisor::protocol::wire::{
    CHILD_STARTED_BODY_BYTES, COORDINATOR_DIRECTION, COORDINATOR_SIGNAL, GUARDIAN_CHILD_STARTED,
    GUARDIAN_DIRECTION, GUARDIAN_READY, GUARDIAN_TERMINAL_ARMED, HEADER_BYTES, MAX_BODY_BYTES,
    MAX_FRAME_BYTES, PAYLOAD_VERSION, PROTOCOL_VERSION, TERMINAL_ARMED_BODY_BYTES, TYPE_MASK,
};

const MAGIC: [u8; 4] = *b"CLFR";

fn now() -> Moment {
    let since = SystemTime::now().duration_since(UNIX_EPOCH).unwrap_or(Duration::ZERO);
    Moment { nanos: since.as_nanos() as u64 }
}

fn after_millis(millis: u64) -> Moment {
    Moment { nanos: now().nanos + millis * 1_000_000 }
}

fn deadline() -> Moment {
    after_millis(1_000)
}

fn channel_error(error: io::Error) -> WireEvent {
    match error.kind() {
        io::ErrorKind::Interrupted => WireEvent::Interrupted,
        io::ErrorKind::WouldBlock | io::ErrorKind::TimedOut => WireEvent::NotReady,
        _ => WireEvent::Failed,
    }
}

fn perform_read<R: Read>(reader: &mut R, action: WireAction) -> WireEvent {
    match action {
        WireAction::ReadClock => WireEvent::Clock(now()),
        WireAction::Read { limit } => {
            let mut buffer = vec![0_u8; limit];
            match reader.read(&mut buffer) {
                Ok(count) => WireEvent::Read { buffer, count },
                Err(error) => channel_error(error),
            }
        }
        WireAction::Yield => WireEvent::Yielded,
        WireAction::Write { .. } | WireAction::Flush => WireEvent::Failed,
    }
}

fn drive_send<W: Write>(writer: &mut W, mut sender: FrameSender) -> Result<(), ProtocolError> {
    let mut step = sender.step();
    loop {
        let event = match step {
            TransferStep::Done(outcome) => return outcome,
            TransferStep::Next(WireAction::ReadClock) => WireEvent::Clock(now()),
            TransferStep::Next(WireAction::Write { .. }) => {
                match writer.write(sender.write.remaining()) {
                    Ok(count) => WireEvent::Wrote(count),
                    Err(error) => channel_error(error),
                }
            }
            TransferStep::Next(WireAction::Flush) => match writer.flush() {
                Ok(()) => WireEvent::Flushed,
                Err(error) => channel_error(error),
            },
            TransferStep::Next(WireAction::Yield) => WireEvent::Yielded,
            TransferStep::Next(WireAction::Read { .. }) => WireEvent::Failed,
        };
        step = sender.advance(&event);
    }
}

fn drive_event<R: Read>(
    reader: &mut R,
    mut frame: FrameReceiver,
) -> Result<GuardianEvent, ProtocolError> {
    let mut action = match frame.step() {
        TransferStep::Next(action) => action,
        TransferStep::Done(_) => return Err(ProtocolError::Io),
    };
    loop {
        let event = perform_read(reader, action);
        match framing::receive_guardian_event(&mut frame, &event) {
            TransferStep::Next(next) => action = next,
            TransferStep::Done(outcome) => return outcome,
        }
    }
}

fn drive_command<R: Read>(
    reader: &mut R,
    mut frame: FrameReceiver,
) -> Result<CoordinatorCommand, ProtocolError> {
    let mut action = match frame.step() {
        TransferStep::Next(action) => action,
        TransferStep::Done(_) => return Err(ProtocolError::Io),
    };
    loop {
        let event = perform_read(reader, action);
        match framing::receive_coordinator_command(&mut frame, &event) {
            TransferStep::Next(next) => action = next,
            TransferStep::Done(outcome) => return outcome,
        }
    }
}

fn send_coordinator_command<W: Write>(
    writer: &mut W,
    command: CoordinatorCommand,
    deadline: Moment,
) -> Result<(), ProtocolError> {
    drive_send(writer, framing::send_coordinator_command(command, deadline)?)
}

fn send_guardian_event<W: Write>(
    writer: &mut W,
    event: GuardianEvent,
    deadline: Moment,
) -> Result<(), ProtocolError> {
    drive_send(writer, framing::send_guardian_event(event, deadline)?)
}

fn receive_guardian_event<R: Read>(
    reader: &mut R,
    deadline: Moment,
) -> Result<GuardianEvent, ProtocolError> {
    drive_event(reader, FrameReceiver::new(GUARDIAN_DIRECTION, deadline))
}

fn receive_coordinator_command<R: Read>(
    reader: &mut R,
    deadline: Moment,
) -> Result<CoordinatorCommand, ProtocolError> {
    drive_command(reader, FrameReceiver::new(COORDINATOR_DIRECTION, deadline))
}

/// The coordinator's receiver together with the channel that it reads.
struct CoordinatorReceiver<R> {
    reader: R,
    inner: CoordinatorTranscriptOwner<()>,
}

impl<R: Read> CoordinatorReceiver<R> {
    fn new(reader: R) -> Self {
        Self { reader, inner: CoordinatorTranscriptOwner::new(()) }
    }

    fn new_terminal(reader: R) -> Self {
        Self { reader, inner: CoordinatorTranscriptOwner::new_terminal(()) }
    }

    fn receive(&mut self, deadline: Moment) -> Result<GuardianEvent, ProtocolError> {
        let frame = self.inner.begin_receive(deadline)?;
        let outcome = drive_event(&mut self.reader, frame);
        self.inner.receive(outcome)
    }

    fn record_command(&mut self, command: CoordinatorCommand) -> Result<(), ProtocolError> {
        self.inner.record_command(command)
    }

    fn take_verified_ready(&mut self) -> Result<VerifiedReady, ProtocolError> {
        self.inner.take_verified_ready()
    }

    fn take_verified_open_gate_ack(&mut self) -> Result<VerifiedOpenGateAck, ProtocolError> {
        self.inner.take_verified_open_gate_ack()
    }

    fn take_verified_exit_disposition(
        &mut self,
    ) -> Result<VerifiedGuardianExitDisposition, ProtocolError> {
        self.inner.take_verified_exit_disposition()
    }

    fn input_gate_opened(&self) -> bool {
        self.inner.input_gate_opened()
    }

    fn terminal_received(&self) -> bool {
        self.inner.terminal_received()
    }

    fn verify_terminal_eof(&mut self, deadline: Moment) -> Result<(), ProtocolError> {
        let mut probe = match self.inner.begin_terminal_eof(deadline)? {
            Some(probe) => probe,
            None => return Ok(()),
        };
        let mut step = probe.step();
        while let TransferStep::Next(action) = step {
            let event = perform_read(&mut self.reader, action);
            step = probe.advance(&event);
        }
        self.inner.verify_terminal_eof(&probe)
    }
}

/// The guardian's receiver together with the channel that it reads.
struct GuardianCommandReceiver<R> {
    reader: R,
    inner: GuardianTranscriptOwner<()>,
}

impl<R: Read> GuardianCommandReceiver<R> {
    fn new(reader: R) -> Self {
        Self { reader, inner: GuardianTranscriptOwner::new(()) }
    }

    fn new_terminal(reader: R) -> Self {
        Self { reader, inner: GuardianTranscriptOwner::new_terminal(()) }
    }

    fn receive(&mut self, deadline: Moment) -> Result<CoordinatorCommand, ProtocolError> {
        let frame = self.inner.begin_receive(deadline)?;
        let outcome = drive_command(&mut self.reader, frame);
        self.inner.receive(outcome)
    }

    fn record_event(&mut self, event: GuardianEvent) -> Result<(), ProtocolError> {
        self.inner.record_event(event)
    }

    fn arm_recovery_command_race(&mut self) -> Result<(), ProtocolError> {
        self.inner.arm_recovery_command_race()
    }

    fn take_verified_initial_open_gate_command(
        &mut self,
    ) -> Result<VerifiedInitialOpenGateCommand, ProtocolError> {
        self.inner.take_verified_initial_open_gate_command()
    }

    fn take_verified_resume_open_gate_command(
        &mut self,
    ) -> Result<VerifiedResumeOpenGateCommand, ProtocolError> {
        self.inner.take_verified_resume_open_gate_command()
    }

    fn take_verified_suspend_command(&mut self) -> Result<VerifiedSuspendCommand, ProtocolError> {
        self.inner.take_verified_suspend_command()
    }

    fn take_verified_resume_command(&mut self) -> Result<VerifiedResumeCommand, ProtocolError> {
        self.inner.take_verified_resume_command()
    }

    fn take_verified_resize_command(&mut self) -> Result<VerifiedResizeCommand, ProtocolError> {
        self.inner.take_verified_resize_command()
    }

    fn take_verified_terminal_restored_command(
        &mut self,
    ) -> Result<VerifiedTerminalRestoredCommand, ProtocolError> {
        self.inner.take_verified_terminal_restored_command()
    }

    fn take_verified_exit_disposition(
        &mut self,
    ) -> Result<VerifiedGuardianExitDisposition, ProtocolError> {
        self.inner.take_verified_exit_disposition()
    }

    fn input_gate_opened(&self) -> bool {
        self.inner.input_gate_opened()
    }

    fn terminal_received(&self) -> bool {
        self.inner.terminal_received()
    }
}

fn encode_coordinator(command: CoordinatorCommand) -> Result<Vec<u8>, ProtocolError> {
    let mut wire = Vec::new();
    send_coordinator_command(&mut wire, command, deadline())?;
    Ok(wire)
}

fn encode_guardian(event: GuardianEvent) -> Result<Vec<u8>, ProtocolError> {
    let mut wire = Vec::new();
    send_guardian_event(&mut wire, event, deadline())?;
    Ok(wire)
}

fn raw_frame(direction_and_type: u8, body: &[u8]) -> Vec<u8> {
    let mut frame = Vec::with_capacity(HEADER_BYTES + body.len());
    frame.extend_from_slice(&MAGIC);
    frame.push(PROTOCOL_VERSION);
    frame.push(direction_and_type);
    frame.extend_from_slice(&(body.len() as u16).to_be_bytes());
    frame.extend_from_slice(body);
    frame
}

fn app_started() -> GuardianEvent {
    GuardianEvent::ChildStarted {
        role: ChildRole::AppServer,
        pid: 101,
        pgid: 101,
    }
}

fn tui_started() -> GuardianEvent {
    GuardianEvent::ChildStarted {
        role: ChildRole::Tui,
        pid: 202,
        pgid: 202,
    }
}

fn exited(code: u8) -> ChildDisposition {
    ChildDisposition::Exited {
        code,
        stop_action: StopAction::NoAction,
    }
}

fn completed_terminal() -> GuardianEvent {
    GuardianEvent::ChildrenReaped {
        app: ChildDisposition::Signaled {
            signal: 15,
            core_dumped: false,
            stop_action: StopAction::Term,
        },
        tui: exited(0),
        worker: WorkerJoinStatus::JoinedClean,
        cleanup: CleanupStatus::Complete,
        session: SessionStatus::Completed,
        guardian_exit: GuardianExitDisposition::Code(0),
    }
}

fn failed_terminal(app_started: bool, tui_started: bool) -> GuardianEvent {
    let app = if app_started {
        exited(17)
    } else {
        ChildDisposition::NotStarted
    };
    let tui = if tui_started {
        exited(19)
    } else {
        ChildDisposition::NotStarted
    };
    GuardianEvent::ChildrenReaped {
        app,
        tui,
        worker: if app_started || tui_started {
            WorkerJoinStatus::JoinedFailed
        } else {
            WorkerJoinStatus::NotStarted
        },
        cleanup: CleanupStatus::Complete,
        session: SessionStatus::Failed,
        guardian_exit: GuardianExitDisposition::InternalFailure,
    }
}

fn append_event(wire: &mut Vec<u8>, event: GuardianEvent) -> Result<(), ProtocolError> {
    wire.extend_from_slice(&encode_guardian(event)?);
    Ok(())
}

#[test]
fn coordinator_start_uses_the_fixed_binary_frame() -> Result<(), ProtocolError> {
    let wire = encode_coordinator(CoordinatorCommand::Start)?;
    assert_eq!(wire, [b'C', b'L', b'F', b'R', 1, 1, 0, 1, 1]);
    Ok(())
}

#[test]
fn guardian_events_round_trip_without_allocation_contract_leaks() -> Result<(), ProtocolError>
{
    for event in [
        GuardianEvent::LeaseCommitted,
        app_started(),
        tui_started(),
        GuardianEvent::Ready,
        GuardianEvent::Failed {
            phase: Phase::Readiness,
            code: FailureCode::Timeout,
        },
        completed_terminal(),
    ] {
        let wire = encode_guardian(event)?;
        let decoded = receive_guardian_event(&mut Cursor::new(wire), deadline())?;
        assert!(decoded == event);
    }
    Ok(())
}

#[test]
fn fragmented_reads_and_writes_preserve_one_frame() -> Result<(), ProtocolError> {
    let expected = encode_guardian(app_started())?;
    let mut writer = FragmentedWriter::new(1);
    send_guardian_event(&mut writer, app_started(), deadline())?;
    assert_eq!(writer.bytes, expected);

    let mut reader = FragmentedReader::new(Cursor::new(expected), 1);
    assert!(receive_guardian_event(&mut reader, deadline())? == app_started());
    Ok(())
}

#[test]
fn coalesced_frames_remain_separate() -> Result<(), ProtocolError> {
    let mut wire = Vec::new();
    append_event(&mut wire, GuardianEvent::LeaseCommitted)?;
    append_event(&mut wire, app_started())?;
    append_event(&mut wire, tui_started())?;
    append_event(&mut wire, GuardianEvent::Ready)?;
    append_event(&mut wire, completed_terminal())?;
    let mut receiver = CoordinatorReceiver::new(Cursor::new(wire));
    assert!(receiver.receive(deadline())? == GuardianEvent::LeaseCommitted);
    assert!(receiver.receive(deadline())? == app_started());
    assert!(receiver.receive(deadline())? == tui_started());
    assert!(receiver.receive(deadline())? == GuardianEvent::Ready);
    assert!(receiver.receive(deadline())? == completed_terminal());
    assert!(receiver.terminal_received());
    receiver.verify_terminal_eof(deadline())?;
    Ok(())
}

#[test]
fn empty_partial_header_and_partial_body_are_distinct() -> Result<(), ProtocolError> {
    let wire = encode_guardian(GuardianEvent::LeaseCommitted)?;
    assert!(receive_guardian_event(&mut Cursor::new(Vec::<u8>::new()), deadline()) == Err(ProtocolError::UnexpectedEof));
    assert!(receive_guardian_event(&mut Cursor::new(wire[..3].to_vec()), deadline()) == Err(ProtocolError::TruncatedHeader));
    assert!(receive_guardian_event(&mut Cursor::new(wire[..HEADER_BYTES].to_vec()), deadline()) == Err(ProtocolError::TruncatedBody));
    Ok(())
}

#[test]
fn zero_and_oversized_bodies_fail_before_body_read() {
    let zero = raw_frame(GUARDIAN_DIRECTION | GUARDIAN_READY, &[]);
    assert!(receive_guardian_event(&mut Cursor::new(zero), deadline()) == Err(ProtocolError::ZeroLength));

    let at_limit = raw_frame(
        GUARDIAN_DIRECTION | GUARDIAN_READY,
        &[PAYLOAD_VERSION; MAX_BODY_BYTES],
    );
    assert!(receive_guardian_event(&mut Cursor::new(at_limit), deadline()) == Err(ProtocolError::TrailingData));

    let over_limit = raw_frame(
        GUARDIAN_DIRECTION | GUARDIAN_READY,
        &[PAYLOAD_VERSION; MAX_BODY_BYTES + 1],
    );
    assert!(receive_guardian_event(&mut Cursor::new(over_limit), deadline()) == Err(ProtocolError::OversizedBody));
}

#[test]
fn header_identity_direction_type_and_version_are_strict() -> Result<(), ProtocolError> {
    let valid = encode_guardian(GuardianEvent::LeaseCommitted)?;
    let mut bad_magic = valid.clone();
    bad_magic[0] ^= 0xff;
    assert!(receive_guardian_event(&mut Cursor::new(bad_magic), deadline()) == Err(ProtocolError::BadMagic));

    let mut bad_version = valid.clone();
    bad_version[4] = PROTOCOL_VERSION + 1;
    assert!(receive_guardian_event(&mut Cursor::new(bad_version), deadline()) == Err(ProtocolError::UnsupportedVersion));

    let coordinator = encode_coordinator(CoordinatorCommand::Start)?;
    assert!(receive_guardian_event(&mut Cursor::new(coordinator), deadline()) == Err(ProtocolError::WrongDirection));

    let unknown = raw_frame(GUARDIAN_DIRECTION | TYPE_MASK, &[PAYLOAD_VERSION]);
    assert!(receive_guardian_event(&mut Cursor::new(unknown), deadline()) == Err(ProtocolError::UnknownType));
    Ok(())
}

#[test]
fn per_type_length_payload_version_and_trailing_bytes_are_strict() {
    let short = raw_frame(
        GUARDIAN_DIRECTION | GUARDIAN_CHILD_STARTED,
        &[PAYLOAD_VERSION; CHILD_STARTED_BODY_BYTES - 1],
    );
    assert!(receive_guardian_event(&mut Cursor::new(short), deadline()) == Err(ProtocolError::InvalidLength));
    let long = raw_frame(
        GUARDIAN_DIRECTION | GUARDIAN_CHILD_STARTED,
        &[PAYLOAD_VERSION; CHILD_STARTED_BODY_BYTES + 1],
    );
    assert!(receive_guardian_event(&mut Cursor::new(long), deadline()) == Err(ProtocolError::TrailingData));
    let bad_payload_version = raw_frame(GUARDIAN_DIRECTION | GUARDIAN_READY, &[2]);
    assert!(receive_guardian_event(&mut Cursor::new(bad_payload_version), deadline()) == Err(ProtocolError::InvalidValue));
}

#[test]
fn process_identifiers_are_positive_group_leaders() -> Result<(), ProtocolError> {
    for invalid in [
        GuardianEvent::ChildStarted {
            role: ChildRole::AppServer,
            pid: 0,
            pgid: 0,
        },
        GuardianEvent::ChildStarted {
            role: ChildRole::AppServer,
            pid: 1,
            pgid: 9,
        },
        GuardianEvent::ChildStarted {
            role: ChildRole::Tui,
            pid: -2,
            pgid: -2,
        },
    ] {
        assert!(send_guardian_event(&mut Vec::new(), invalid, deadline()) == Err(ProtocolError::InvalidValue));
    }

    let mut raw = encode_guardian(app_started())?;
    raw[HEADER_BYTES + 6..HEADER_BYTES + 10].copy_from_slice(&999_i32.to_be_bytes());
    assert!(receive_guardian_event(&mut Cursor::new(raw), deadline()) == Err(ProtocolError::InvalidValue));

    let mut invalid_role = encode_guardian(app_started())?;
    invalid_role[HEADER_BYTES + 1] = 0xff;
    assert!(receive_guardian_event(&mut Cursor::new(invalid_role), deadline()) == Err(ProtocolError::InvalidValue));
    Ok(())
}

#[test]
fn disposition_values_are_bounded() -> Result<(), ProtocolError> {
    let invalid_signal = GuardianEvent::ChildrenReaped {
        app: ChildDisposition::Signaled {
            signal: 0,
            core_dumped: false,
            stop_action: StopAction::NoAction,
        },
        tui: exited(0),
        worker: WorkerJoinStatus::JoinedClean,
        cleanup: CleanupStatus::Complete,
        session: SessionStatus::Completed,
        guardian_exit: GuardianExitDisposition::Code(0),
    };
    assert!(send_guardian_event(&mut Vec::new(), invalid_signal, deadline()) == Err(ProtocolError::InvalidValue));

    let mut raw = encode_guardian(completed_terminal())?;
    raw[HEADER_BYTES + 1] = 0;
    raw[HEADER_BYTES + 2] = 1;
    assert!(receive_guardian_event(&mut Cursor::new(raw), deadline()) == Err(ProtocolError::InvalidValue));
    Ok(())
}

#[test]
fn every_bounded_enum_rejects_unknown_wire_values() -> Result<(), ProtocolError> {
    let failure = encode_guardian(GuardianEvent::Failed {
        phase: Phase::Readiness,
        code: FailureCode::Timeout,
    })?;
    for offset in [1_usize, 2_usize] {
        let mut invalid = failure.clone();
        invalid[HEADER_BYTES + offset] = 0xff;
        assert!(receive_guardian_event(&mut Cursor::new(invalid), deadline()) == Err(ProtocolError::InvalidValue));
    }

    let terminal = encode_guardian(completed_terminal())?;
    for offset in [3_usize, 9_usize, 10_usize, 11_usize] {
        let mut invalid = terminal.clone();
        invalid[HEADER_BYTES + offset] = 0xff;
        assert!(receive_guardian_event(&mut Cursor::new(invalid), deadline()) == Err(ProtocolError::InvalidValue));
    }
    Ok(())
}

#[test]
fn coordinator_requires_the_exact_success_order() -> Result<(), ProtocolError> {
    for first in [
        app_started(),
        tui_started(),
        GuardianEvent::Ready,
        completed_terminal(),
    ] {
        let wire = encode_guardian(first)?;
        let mut receiver = CoordinatorReceiver::new(Cursor::new(wire));
        assert!(receiver.receive(deadline()) == Err(ProtocolError::UnexpectedState));
    }
    Ok(())
}

#[test]
fn duplicate_events_poison_the_coordinator_stream() -> Result<(), ProtocolError> {
    let mut wire = Vec::new();
    append_event(&mut wire, GuardianEvent::LeaseCommitted)?;
    append_event(&mut wire, GuardianEvent::LeaseCommitted)?;
    append_event(&mut wire, app_started())?;
    let mut receiver = CoordinatorReceiver::new(Cursor::new(wire));
    assert!(receiver.receive(deadline())? == GuardianEvent::LeaseCommitted);
    assert!(receiver.receive(deadline()) == Err(ProtocolError::UnexpectedState));
    assert!(receiver.receive(deadline()) == Err(ProtocolError::UnexpectedState));
    Ok(())
}

#[test]
fn child_start_order_and_duplicate_roles_are_rejected() -> Result<(), ProtocolError> {
    for sequence in [
        vec![GuardianEvent::LeaseCommitted, tui_started()],
        vec![GuardianEvent::LeaseCommitted, app_started(), app_started()],
        vec![
            GuardianEvent::LeaseCommitted,
            app_started(),
            tui_started(),
            tui_started(),
        ],
    ] {
        let mut wire = Vec::new();
        for event in &sequence {
            append_event(&mut wire, *event)?;
        }
        let mut receiver = CoordinatorReceiver::new(Cursor::new(wire));
        let mut final_result = Ok(GuardianEvent::LeaseCommitted);
        for _ in 0..sequence.len() {
            final_result = receiver.receive(deadline());
            if final_result.is_err() {
                break;
            }
        }
        assert!(final_result == Err(ProtocolError::UnexpectedState));
        assert!(receiver.receive(deadline()) == Err(ProtocolError::UnexpectedState));
    }
    Ok(())
}

#[test]
fn eof_after_app_start_never_becomes_terminal_authority() -> Result<(), ProtocolError> {
    let mut wire = Vec::new();
    append_event(&mut wire, GuardianEvent::LeaseCommitted)?;
    append_event(&mut wire, app_started())?;
    let mut receiver = CoordinatorReceiver::new(Cursor::new(wire));
    assert!(receiver.receive(deadline())? == GuardianEvent::LeaseCommitted);
    assert!(receiver.receive(deadline())? == app_started());
    assert!(receiver.receive(deadline()) == Err(ProtocolError::UnexpectedEof));
    assert!(!receiver.terminal_received());
    Ok(())
}

#[test]
fn failure_is_allowed_from_each_nonterminal_state_and_requires_failed_terminal()
-> Result<(), ProtocolError> {
    for prefix in [
        vec![],
        vec![GuardianEvent::LeaseCommitted],
        vec![GuardianEvent::LeaseCommitted, app_started()],
        vec![GuardianEvent::LeaseCommitted, app_started(), tui_started()],
        vec![
            GuardianEvent::LeaseCommitted,
            app_started(),
            tui_started(),
            GuardianEvent::Ready,
        ],
    ] {
        let observed_app = prefix.contains(&app_started());
        let observed_tui = prefix.contains(&tui_started());
        let mut wire = Vec::new();
        for event in prefix {
            append_event(&mut wire, event)?;
        }
        let failure = GuardianEvent::Failed {
            phase: Phase::Worker,
            code: FailureCode::Worker,
        };
        append_event(&mut wire, failure)?;
        append_event(&mut wire, failed_terminal(observed_app, observed_tui))?;
        let mut receiver = CoordinatorReceiver::new(Cursor::new(wire));
        loop {
            let event = receiver.receive(deadline())?;
            if event == failure {
                break;
            }
        }
        assert!(receiver.receive(deadline())? == failed_terminal(observed_app, observed_tui));
        assert!(receiver.terminal_received());
    }
    Ok(())
}

#[test]
fn only_children_reaped_may_follow_failure() -> Result<(), ProtocolError> {
    for after in [
        GuardianEvent::LeaseCommitted,
        app_started(),
        tui_started(),
        GuardianEvent::Ready,
        GuardianEvent::Failed {
            phase: Phase::Protocol,
            code: FailureCode::InvalidControl,
        },
    ] {
        let mut wire = Vec::new();
        append_event(
            &mut wire,
            GuardianEvent::Failed {
                phase: Phase::Lease,
                code: FailureCode::Lease,
            },
        )?;
        append_event(&mut wire, after)?;
        let mut receiver = CoordinatorReceiver::new(Cursor::new(wire));
        let _failure = receiver.receive(deadline())?;
        assert!(receiver.receive(deadline()) == Err(ProtocolError::UnexpectedState));
    }
    Ok(())
}

#[test]
fn cleanup_failure_can_never_be_upgraded_to_terminal_authority() -> Result<(), ProtocolError> {
    let mut wire = Vec::new();
    append_event(&mut wire, GuardianEvent::LeaseCommitted)?;
    append_event(
        &mut wire,
        GuardianEvent::Failed {
            phase: Phase::Cleanup,
            code: FailureCode::CleanupMismatch,
        },
    )?;
    append_event(&mut wire, failed_terminal(false, false))?;
    let mut receiver = CoordinatorReceiver::new(Cursor::new(wire));
    let _lease = receiver.receive(deadline())?;
    let _failure = receiver.receive(deadline())?;
    assert!(receiver.receive(deadline()) == Err(ProtocolError::UnexpectedState));
    assert!(!receiver.terminal_received());
    Ok(())
}

#[test]
fn terminal_dispositions_must_match_observed_child_spawn() -> Result<(), ProtocolError> {
    let mismatched = GuardianEvent::ChildrenReaped {
        app: exited(0),
        tui: ChildDisposition::NotStarted,
        worker: WorkerJoinStatus::JoinedFailed,
        cleanup: CleanupStatus::Complete,
        session: SessionStatus::Failed,
        guardian_exit: GuardianExitDisposition::InternalFailure,
    };
    let mut wire = Vec::new();
    append_event(&mut wire, GuardianEvent::LeaseCommitted)?;
    append_event(&mut wire, app_started())?;
    append_event(&mut wire, tui_started())?;
    append_event(
        &mut wire,
        GuardianEvent::Failed {
            phase: Phase::Readiness,
            code: FailureCode::EarlyExit,
        },
    )?;
    append_event(&mut wire, mismatched)?;
    let mut receiver = CoordinatorReceiver::new(Cursor::new(wire));
    let _lease = receiver.receive(deadline())?;
    let _app = receiver.receive(deadline())?;
    let _tui = receiver.receive(deadline())?;
    let _failure = receiver.receive(deadline())?;
    assert!(receiver.receive(deadline()) == Err(ProtocolError::InvalidValue));
    Ok(())
}

#[test]
fn live_guardian_can_report_app_only_after_tui_spawn_failure() -> Result<(), ProtocolError> {
    let terminal = GuardianEvent::ChildrenReaped {
        app: exited(0),
        tui: ChildDisposition::NotStarted,
        worker: WorkerJoinStatus::JoinedFailed,
        cleanup: CleanupStatus::Complete,
        session: SessionStatus::Failed,
        guardian_exit: GuardianExitDisposition::InternalFailure,
    };
    let mut wire = Vec::new();
    append_event(&mut wire, GuardianEvent::LeaseCommitted)?;
    append_event(&mut wire, app_started())?;
    append_event(
        &mut wire,
        GuardianEvent::Failed {
            phase: Phase::Tui,
            code: FailureCode::Spawn,
        },
    )?;
    append_event(&mut wire, terminal)?;
    let mut receiver = CoordinatorReceiver::new(Cursor::new(wire));
    let _lease = receiver.receive(deadline())?;
    let _app = receiver.receive(deadline())?;
    let _failure = receiver.receive(deadline())?;
    assert!(receiver.receive(deadline())? == terminal);
    assert!(receiver.terminal_received());
    Ok(())
}

#[test]
fn successful_terminal_requires_clean_worker_and_completed_session()
-> Result<(), ProtocolError> {
    for terminal in [
        GuardianEvent::ChildrenReaped {
            app: exited(0),
            tui: exited(0),
            worker: WorkerJoinStatus::JoinedFailed,
            cleanup: CleanupStatus::Complete,
            session: SessionStatus::Completed,
            guardian_exit: GuardianExitDisposition::Code(0),
        },
        GuardianEvent::ChildrenReaped {
            app: exited(0),
            tui: exited(0),
            worker: WorkerJoinStatus::JoinedClean,
            cleanup: CleanupStatus::Complete,
            session: SessionStatus::Failed,
            guardian_exit: GuardianExitDisposition::Code(0),
        },
    ] {
        let mut wire = Vec::new();
        append_event(&mut wire, GuardianEvent::LeaseCommitted)?;
        append_event(&mut wire, app_started())?;
        append_event(&mut wire, tui_started())?;
        append_event(&mut wire, GuardianEvent::Ready)?;
        append_event(&mut wire, terminal)?;
        let mut receiver = CoordinatorReceiver::new(Cursor::new(wire));
        let _lease = receiver.receive(deadline())?;
        let _app = receiver.receive(deadline())?;
        let _tui = receiver.receive(deadline())?;
        let _ready = receiver.receive(deadline())?;
        assert!(receiver.receive(deadline()) == Err(ProtocolError::InvalidValue));
    }
    Ok(())
}

#[test]
fn terminal_eof_check_rejects_trailing_bytes() -> Result<(), ProtocolError> {
    let mut wire = Vec::new();
    append_event(&mut wire, GuardianEvent::LeaseCommitted)?;
    append_event(&mut wire, app_started())?;
    append_event(&mut wire, tui_started())?;
    append_event(&mut wire, GuardianEvent::Ready)?;
    append_event(&mut wire, completed_terminal())?;
    wire.push(b'X');
    let mut receiver = CoordinatorReceiver::new(Cursor::new(wire));
    let _lease = receiver.receive(deadline())?;
    let _app = receiver.receive(deadline())?;
    let _tui = receiver.receive(deadline())?;
    let _ready = receiver.receive(deadline())?;
    let _terminal = receiver.receive(deadline())?;
    assert!(receiver.verify_terminal_eof(deadline()) == Err(ProtocolError::TrailingData));
    Ok(())
}

#[test]
fn terminal_eof_check_obeys_its_deadline_when_guardian_stays_open() -> Result<(), ProtocolError>
{
    let mut wire = Vec::new();
    append_event(&mut wire, GuardianEvent::LeaseCommitted)?;
    append_event(&mut wire, app_started())?;
    append_event(&mut wire, tui_started())?;
    append_event(&mut wire, GuardianEvent::Ready)?;
    append_event(&mut wire, completed_terminal())?;
    let mut receiver = CoordinatorReceiver::new(NonClosingReader {
        inner: Cursor::new(wire),
    });
    let _lease = receiver.receive(deadline())?;
    let _app = receiver.receive(deadline())?;
    let _tui = receiver.receive(deadline())?;
    let _ready = receiver.receive(deadline())?;
    let _terminal = receiver.receive(deadline())?;
    assert!(receiver.verify_terminal_eof(after_millis(5)) == Err(ProtocolError::Timeout));
    Ok(())
}

#[test]
fn eof_check_is_unavailable_before_a_trusted_terminal() -> Result<(), ProtocolError> {
    let wire = encode_guardian(GuardianEvent::LeaseCommitted)?;
    let mut receiver = CoordinatorReceiver::new(Cursor::new(wire));
    let _lease = receiver.receive(deadline())?;
    assert!(receiver.verify_terminal_eof(deadline()) == Err(ProtocolError::UnexpectedState));
    Ok(())
}

#[test]
fn guardian_accepts_start_once_and_stop_only_after_start() -> Result<(), ProtocolError> {
    let mut wire = encode_coordinator(CoordinatorCommand::Start)?;
    wire.extend_from_slice(&encode_coordinator(CoordinatorCommand::Stop)?);
    let mut receiver = GuardianCommandReceiver::new(Cursor::new(wire));
    assert!(receiver.receive(deadline())? == CoordinatorCommand::Start);
    assert!(receiver.receive(deadline())? == CoordinatorCommand::Stop);

    let mut stop_first = GuardianCommandReceiver::new(Cursor::new(encode_coordinator(
        CoordinatorCommand::Stop,
    )?));
    assert!(stop_first.receive(deadline()) == Err(ProtocolError::UnexpectedState));
    Ok(())
}

#[test]
fn duplicate_guardian_commands_poison_the_stream() -> Result<(), ProtocolError> {
    for duplicate in [CoordinatorCommand::Start, CoordinatorCommand::Stop] {
        let first = if duplicate == CoordinatorCommand::Start {
            CoordinatorCommand::Start
        } else {
            CoordinatorCommand::Stop
        };
        let mut wire = Vec::new();
        if duplicate == CoordinatorCommand::Stop {
            wire.extend_from_slice(&encode_coordinator(CoordinatorCommand::Start)?);
        }
        wire.extend_from_slice(&encode_coordinator(first)?);
        wire.extend_from_slice(&encode_coordinator(duplicate)?);
        let mut receiver = GuardianCommandReceiver::new(Cursor::new(wire));
        if duplicate == CoordinatorCommand::Stop {
            let _start = receiver.receive(deadline())?;
        }
        let _first = receiver.receive(deadline())?;
        assert!(receiver.receive(deadline()) == Err(ProtocolError::UnexpectedState));
    }
    Ok(())
}

#[test]
fn terminal_control_frames_are_typed_bounded_and_round_trip() -> Result<(), ProtocolError> {
    for command in [
        CoordinatorCommand::TerminalArmAccepted,
        CoordinatorCommand::OpenInputGate,
        CoordinatorCommand::Signal {
            signal: UnixSignal::Hup,
        },
        CoordinatorCommand::Signal {
            signal: UnixSignal::Int,
        },
        CoordinatorCommand::Signal {
            signal: UnixSignal::Quit,
        },
        CoordinatorCommand::Signal {
            signal: UnixSignal::Term,
        },
        CoordinatorCommand::Resize { rows: 24, cols: 80 },
        CoordinatorCommand::Suspend,
        CoordinatorCommand::Resume {
            rows: 48,
            cols: 160,
        },
        CoordinatorCommand::TerminalRestored,
    ] {
        let wire = encode_coordinator(command)?;
        assert!(wire.len() <= MAX_FRAME_BYTES);
        assert!(receive_coordinator_command(&mut Cursor::new(wire), deadline())? == command);
    }

    for event in [
        terminal_armed(),
        GuardianEvent::InputGateOpened,
        GuardianEvent::SignalForwarded {
            signal: UnixSignal::Int,
        },
        GuardianEvent::ResizeApplied { rows: 24, cols: 80 },
        GuardianEvent::Suspended,
        GuardianEvent::Resumed {
            rows: 48,
            cols: 160,
        },
        GuardianEvent::TerminalQuiesced,
        GuardianEvent::TerminalRecoveryDisarmed,
    ] {
        let wire = encode_guardian(event)?;
        assert!(wire.len() <= MAX_FRAME_BYTES);
        assert!(receive_guardian_event(&mut Cursor::new(wire), deadline())? == event);
    }
    assert_eq!(MAX_FRAME_BYTES, 64);

    for (phase, code) in [
        (Phase::Terminal, FailureCode::Terminal),
        (Phase::Pump, FailureCode::Pump),
        (Phase::Signal, FailureCode::Signal),
        (Phase::Restore, FailureCode::Restore),
    ] {
        let event = GuardianEvent::Failed { phase, code };
        assert!(receive_guardian_event(&mut Cursor::new(encode_guardian(event)?), deadline())? == event);
    }
    Ok(())
}

#[test]
fn a_fingerprint_with_one_flipped_bit_does_not_match() {
    let expected = TerminalSnapshotFingerprint::from_digest([0x5a; SNAPSHOT_FINGERPRINT_BYTES]);
    let corrupted = expected.corrupted_for_fixture();
    assert!(!expected.matches(corrupted));
    assert_eq!(corrupted.as_bytes()[0], 0xda);
    assert_eq!(corrupted.as_bytes()[1..], expected.as_bytes()[1..]);
    assert!(corrupted.corrupted_for_fixture().matches(expected));
}

#[test]
fn terminal_arm_fingerprint_is_fixed_redacted_and_constant_time_comparable()
-> Result<(), ProtocolError> {
    let expected = TerminalSnapshotFingerprint::from_digest([0x5a; SNAPSHOT_FINGERPRINT_BYTES]);
    let same = TerminalSnapshotFingerprint::from_digest([0x5a; SNAPSHOT_FINGERPRINT_BYTES]);
    let different =
        TerminalSnapshotFingerprint::from_digest([0xa5; SNAPSHOT_FINGERPRINT_BYTES]);
    assert!(expected.matches(same));
    assert!(!expected.matches(different));
    assert!(expected == same);
    assert!(expected != different);
    assert_eq!(
        expected.redacted(),
        "TerminalSnapshotFingerprint(<redacted>)"
    );

    let short = raw_frame(
        GUARDIAN_DIRECTION | GUARDIAN_TERMINAL_ARMED,
        &[PAYLOAD_VERSION; TERMINAL_ARMED_BODY_BYTES - 1],
    );
    assert!(receive_guardian_event(&mut Cursor::new(short), deadline()) == Err(ProtocolError::InvalidLength));
    let long = raw_frame(
        GUARDIAN_DIRECTION | GUARDIAN_TERMINAL_ARMED,
        &[PAYLOAD_VERSION; TERMINAL_ARMED_BODY_BYTES + 1],
    );
    assert!(receive_guardian_event(&mut Cursor::new(long), deadline()) == Err(ProtocolError::TrailingData));
    Ok(())
}

#[test]
fn terminal_arm_acceptance_is_a_spawn_order_barrier() -> Result<(), ProtocolError> {
    let mut wire = Vec::new();
    for event in [
        GuardianEvent::LeaseCommitted,
        terminal_armed(),
        app_started(),
    ] {
        append_event(&mut wire, event)?;
    }
    let mut coordinator = CoordinatorReceiver::new_terminal(Cursor::new(wire));
    assert!(coordinator.receive(deadline())? == GuardianEvent::LeaseCommitted);
    coordinator.record_command(CoordinatorCommand::Start)?;
    assert!(coordinator.receive(deadline())? == terminal_armed());
    assert!(coordinator.receive(deadline()) == Err(ProtocolError::UnexpectedState));

    let commands = encode_coordinator(CoordinatorCommand::Start)?;
    let mut guardian = GuardianCommandReceiver::new_terminal(Cursor::new(commands));
    guardian.record_event(GuardianEvent::LeaseCommitted)?;
    assert!(guardian.receive(deadline())? == CoordinatorCommand::Start);
    guardian.record_event(terminal_armed())?;
    assert_eq!(
        guardian.record_event(app_started()),
        Err(ProtocolError::UnexpectedState)
    );
    Ok(())
}

#[test]
fn terminal_sizes_and_signal_wire_values_are_strict() -> Result<(), ProtocolError> {
    for command in [
        CoordinatorCommand::Resize { rows: 0, cols: 80 },
        CoordinatorCommand::Resize { rows: 24, cols: 0 },
        CoordinatorCommand::Resume { rows: 0, cols: 80 },
        CoordinatorCommand::Resume { rows: 24, cols: 0 },
    ] {
        assert!(send_coordinator_command(&mut Vec::new(), command, deadline()) == Err(ProtocolError::InvalidValue));
    }
    for event in [
        GuardianEvent::ResizeApplied { rows: 0, cols: 80 },
        GuardianEvent::Resumed { rows: 24, cols: 0 },
    ] {
        assert!(send_guardian_event(&mut Vec::new(), event, deadline()) == Err(ProtocolError::InvalidValue));
    }

    let invalid_signal = raw_frame(
        COORDINATOR_DIRECTION | COORDINATOR_SIGNAL,
        &[PAYLOAD_VERSION, 0xff],
    );
    assert!(receive_coordinator_command(&mut Cursor::new(invalid_signal), deadline()) == Err(ProtocolError::InvalidValue));
    Ok(())
}

fn active_terminal_validator() -> Result<TerminalLifecycleValidator, ProtocolError> {
    let mut validator = TerminalLifecycleValidator::before_start();
    validator.accept_event(GuardianEvent::LeaseCommitted)?;
    validator.accept_command(CoordinatorCommand::Start)?;
    validator.accept_event(terminal_armed())?;
    validator.accept_command(CoordinatorCommand::TerminalArmAccepted)?;
    validator.accept_event(app_started())?;
    validator.accept_event(tui_started())?;
    validator.accept_event(GuardianEvent::Ready)?;
    validator.accept_command(CoordinatorCommand::OpenInputGate)?;
    validator.accept_event(GuardianEvent::InputGateOpened)?;
    Ok(validator)
}

fn complete_terminal_event(tui: ChildDisposition, session: SessionStatus) -> GuardianEvent {
    let guardian_exit = match tui {
        ChildDisposition::Exited { code, .. } => GuardianExitDisposition::Code(code),
        ChildDisposition::Signaled {
            stop_action: StopAction::Term,
            ..
        } => GuardianExitDisposition::Code(0),
        ChildDisposition::Signaled { signal, .. } => GuardianExitDisposition::Signal(signal),
        ChildDisposition::NotStarted => GuardianExitDisposition::InternalFailure,
    };
    GuardianEvent::ChildrenReaped {
        app: ChildDisposition::Signaled {
            signal: 15,
            core_dumped: false,
            stop_action: StopAction::Term,
        },
        tui,
        worker: WorkerJoinStatus::JoinedClean,
        cleanup: CleanupStatus::Complete,
        session,
        guardian_exit,
    }
}

#[test]
fn terminal_semantics_accept_natural_nonzero_without_infrastructure_failure()
-> Result<(), ProtocolError> {
    let tui = ChildDisposition::Exited {
        code: 23,
        stop_action: StopAction::NoAction,
    };
    let mut validator = active_terminal_validator()?;
    validator.accept_event(GuardianEvent::TerminalQuiesced)?;
    validator.accept_command(CoordinatorCommand::TerminalRestored)?;
    validator.accept_event(GuardianEvent::TerminalRecoveryDisarmed)?;
    validator.accept_event(complete_terminal_event(tui, SessionStatus::Failed))?;
    assert_eq!(
        validator.take_terminal_exit_disposition(),
        Some(GuardianExitDisposition::Code(23))
    );

    let mut invalid = active_terminal_validator()?;
    invalid.accept_event(GuardianEvent::TerminalQuiesced)?;
    invalid.accept_command(CoordinatorCommand::TerminalRestored)?;
    invalid.accept_event(GuardianEvent::TerminalRecoveryDisarmed)?;
    assert!(invalid.accept_event(complete_terminal_event(tui, SessionStatus::Completed)) == Err(ProtocolError::InvalidValue));
    Ok(())
}

#[test]
fn terminal_semantics_bind_stop_and_forwarded_signal_to_exact_exit()
-> Result<(), ProtocolError> {
    let mut stopped = active_terminal_validator()?;
    stopped.accept_command(CoordinatorCommand::Stop)?;
    stopped.accept_event(GuardianEvent::TerminalQuiesced)?;
    stopped.accept_command(CoordinatorCommand::TerminalRestored)?;
    stopped.accept_event(GuardianEvent::TerminalRecoveryDisarmed)?;
    stopped.accept_event(complete_terminal_event(
        ChildDisposition::Signaled {
            signal: 15,
            core_dumped: false,
            stop_action: StopAction::Term,
        },
        SessionStatus::Completed,
    ))?;
    assert_eq!(
        stopped.take_terminal_exit_disposition(),
        Some(GuardianExitDisposition::Code(0))
    );

    let mut forwarded = active_terminal_validator()?;
    forwarded.accept_command(CoordinatorCommand::Signal {
        signal: UnixSignal::Hup,
    })?;
    forwarded.accept_event(GuardianEvent::SignalForwarded {
        signal: UnixSignal::Hup,
    })?;
    forwarded.accept_event(GuardianEvent::TerminalQuiesced)?;
    forwarded.accept_command(CoordinatorCommand::TerminalRestored)?;
    forwarded.accept_event(GuardianEvent::TerminalRecoveryDisarmed)?;
    forwarded.accept_event(complete_terminal_event(
        ChildDisposition::Signaled {
            signal: 1,
            core_dumped: false,
            stop_action: StopAction::NoAction,
        },
        SessionStatus::Completed,
    ))?;
    assert_eq!(
        forwarded.take_terminal_exit_disposition(),
        Some(GuardianExitDisposition::Signal(1))
    );
    Ok(())
}

#[test]
fn terminal_receiver_requires_arming_ready_and_gate_ack_before_input_state()
-> Result<(), ProtocolError> {
    let mut wire = Vec::new();
    append_event(&mut wire, GuardianEvent::LeaseCommitted)?;
    append_event(&mut wire, terminal_armed())?;
    append_event(&mut wire, app_started())?;
    append_event(&mut wire, tui_started())?;
    append_event(&mut wire, GuardianEvent::Ready)?;
    append_event(&mut wire, GuardianEvent::InputGateOpened)?;
    let mut receiver = CoordinatorReceiver::new_terminal(Cursor::new(wire));

    assert!(matches!(
        receiver.take_verified_ready(),
        Err(ProtocolError::UnexpectedState)
    ));
    assert!(matches!(
        receiver.take_verified_open_gate_ack(),
        Err(ProtocolError::UnexpectedState)
    ));
    assert!(receiver.receive(deadline())? == GuardianEvent::LeaseCommitted);
    receiver.record_command(CoordinatorCommand::Start)?;
    assert!(receiver.receive(deadline())? == terminal_armed());
    receiver.record_command(CoordinatorCommand::TerminalArmAccepted)?;
    for expected in [app_started(), tui_started(), GuardianEvent::Ready] {
        assert!(receiver.receive(deadline())? == expected);
    }
    let readiness = receiver.take_verified_ready()?;
    assert_eq!(readiness.redacted(), "VerifiedReady(<redacted>)");
    assert_eq!(std::mem::size_of_val(&readiness), 0);
    assert!(matches!(
        receiver.take_verified_ready(),
        Err(ProtocolError::UnexpectedState)
    ));
    receiver.record_command(CoordinatorCommand::OpenInputGate)?;
    assert!(receiver.receive(deadline())? == GuardianEvent::InputGateOpened);
    let acknowledgement = receiver.take_verified_open_gate_ack()?;
    assert_eq!(
        acknowledgement.redacted(),
        "VerifiedOpenGateAck(<redacted>)"
    );
    assert_eq!(std::mem::size_of_val(&acknowledgement), 0);
    assert!(matches!(
        receiver.take_verified_open_gate_ack(),
        Err(ProtocolError::UnexpectedState)
    ));
    assert!(receiver.input_gate_opened());
    Ok(())
}

#[test]
fn terminal_receiver_rejects_shared_app_and_tui_process_groups() -> Result<(), ProtocolError> {
    let snapshot = TerminalSnapshotFingerprint::from_digest([0x31; 32]);
    let app = GuardianEvent::ChildStarted {
        role: ChildRole::AppServer,
        pid: 101,
        pgid: 101,
    };
    let tui_same_group = GuardianEvent::ChildStarted {
        role: ChildRole::Tui,
        pid: 101,
        pgid: 101,
    };
    let mut wire = Vec::new();
    for event in [
        GuardianEvent::LeaseCommitted,
        GuardianEvent::TerminalArmed { snapshot },
        app,
        tui_same_group,
    ] {
        append_event(&mut wire, event)?;
    }
    let mut receiver = CoordinatorReceiver::new_terminal(Cursor::new(wire));
    assert!(receiver.receive(deadline())? == GuardianEvent::LeaseCommitted);
    receiver.record_command(CoordinatorCommand::Start)?;
    assert!(receiver.receive(deadline())? == GuardianEvent::TerminalArmed { snapshot });
    receiver.record_command(CoordinatorCommand::TerminalArmAccepted)?;
    assert!(receiver.receive(deadline())? == app);
    assert!(receiver.receive(deadline()) == Err(ProtocolError::InvalidValue));
    assert!(receiver.receive(deadline()) == Err(ProtocolError::UnexpectedState));
    Ok(())
}

#[test]
fn terminal_capability_proofs_expire_when_the_transcript_advances() -> Result<(), ProtocolError>
{
    let mut wire = Vec::new();
    for event in [
        GuardianEvent::LeaseCommitted,
        terminal_armed(),
        app_started(),
        tui_started(),
        GuardianEvent::Ready,
        GuardianEvent::InputGateOpened,
    ] {
        append_event(&mut wire, event)?;
    }
    let mut receiver = CoordinatorReceiver::new_terminal(Cursor::new(wire));
    assert!(receiver.receive(deadline())? == GuardianEvent::LeaseCommitted);
    receiver.record_command(CoordinatorCommand::Start)?;
    assert!(receiver.receive(deadline())? == terminal_armed());
    receiver.record_command(CoordinatorCommand::TerminalArmAccepted)?;
    for expected in [app_started(), tui_started(), GuardianEvent::Ready] {
        assert!(receiver.receive(deadline())? == expected);
    }

    // Advancing with the command without consuming readiness permanently
    // invalidates that proof.
    receiver.record_command(CoordinatorCommand::OpenInputGate)?;
    assert!(matches!(
        receiver.take_verified_ready(),
        Err(ProtocolError::UnexpectedState)
    ));
    assert!(receiver.receive(deadline())? == GuardianEvent::InputGateOpened);

    // The same rule applies to an unconsumed gate acknowledgement.
    receiver.record_command(CoordinatorCommand::Stop)?;
    assert!(matches!(
        receiver.take_verified_open_gate_ack(),
        Err(ProtocolError::UnexpectedState)
    ));
    Ok(())
}

#[test]
fn ready_without_terminal_arming_or_open_gate_cannot_authorize_input()
-> Result<(), ProtocolError> {
    let mut wrong_order = Vec::new();
    append_event(&mut wrong_order, GuardianEvent::LeaseCommitted)?;
    append_event(&mut wrong_order, app_started())?;
    let mut receiver = CoordinatorReceiver::new_terminal(Cursor::new(wrong_order));
    assert!(receiver.receive(deadline())? == GuardianEvent::LeaseCommitted);
    receiver.record_command(CoordinatorCommand::Start)?;
    assert!(receiver.receive(deadline()) == Err(ProtocolError::UnexpectedState));
    assert!(receiver.record_command(CoordinatorCommand::OpenInputGate) == Err(ProtocolError::UnexpectedState));

    let mut ready_wire = Vec::new();
    append_event(&mut ready_wire, GuardianEvent::LeaseCommitted)?;
    append_event(&mut ready_wire, terminal_armed())?;
    append_event(&mut ready_wire, app_started())?;
    append_event(&mut ready_wire, tui_started())?;
    append_event(&mut ready_wire, GuardianEvent::Ready)?;
    append_event(
        &mut ready_wire,
        GuardianEvent::ResizeApplied { rows: 24, cols: 80 },
    )?;
    let mut receiver = CoordinatorReceiver::new_terminal(Cursor::new(ready_wire));
    receive_terminal_ready(&mut receiver)?;
    assert!(!receiver.input_gate_opened());
    assert!(receiver.receive(deadline()) == Err(ProtocolError::UnexpectedState));
    assert!(receiver.receive(deadline()) == Err(ProtocolError::UnexpectedState));
    Ok(())
}

#[test]
fn terminal_receiver_validates_signal_resize_suspend_and_fresh_resume_gate()
-> Result<(), ProtocolError> {
    let events = [
        GuardianEvent::LeaseCommitted,
        terminal_armed(),
        app_started(),
        tui_started(),
        GuardianEvent::Ready,
        GuardianEvent::InputGateOpened,
        GuardianEvent::SignalForwarded {
            signal: UnixSignal::Int,
        },
        GuardianEvent::ResizeApplied {
            rows: 50,
            cols: 120,
        },
        GuardianEvent::Suspended,
        GuardianEvent::Resumed {
            rows: 60,
            cols: 140,
        },
        GuardianEvent::InputGateOpened,
    ];
    let mut wire = Vec::new();
    for event in events {
        append_event(&mut wire, event)?;
    }
    let mut receiver = CoordinatorReceiver::new_terminal(Cursor::new(wire));
    receive_terminal_ready(&mut receiver)?;
    receiver.record_command(CoordinatorCommand::OpenInputGate)?;
    assert!(receiver.receive(deadline())? == GuardianEvent::InputGateOpened);
    receiver.record_command(CoordinatorCommand::Signal {
        signal: UnixSignal::Int,
    })?;
    assert!(receiver.receive(deadline())? == GuardianEvent::SignalForwarded {
            signal: UnixSignal::Int
        });
    receiver.record_command(CoordinatorCommand::Resize {
        rows: 50,
        cols: 120,
    })?;
    assert!(receiver.receive(deadline())? == GuardianEvent::ResizeApplied {
            rows: 50,
            cols: 120
        });
    receiver.record_command(CoordinatorCommand::Suspend)?;
    assert!(receiver.receive(deadline())? == GuardianEvent::Suspended);
    receiver.record_command(CoordinatorCommand::Resume {
        rows: 60,
        cols: 140,
    })?;
    assert!(receiver.receive(deadline())? == GuardianEvent::Resumed {
            rows: 60,
            cols: 140
        });
    assert!(!receiver.input_gate_opened());
    receiver.record_command(CoordinatorCommand::OpenInputGate)?;
    assert!(receiver.receive(deadline())? == GuardianEvent::InputGateOpened);
    assert!(receiver.input_gate_opened());
    Ok(())
}

#[test]
fn interrupt_and_quit_continue_while_hup_and_term_begin_shutdown() -> Result<(), ProtocolError>
{
    for signal in [UnixSignal::Int, UnixSignal::Quit] {
        let mut wire = terminal_ready_events()?;
        append_event(&mut wire, GuardianEvent::InputGateOpened)?;
        append_event(&mut wire, GuardianEvent::SignalForwarded { signal })?;
        let mut receiver = CoordinatorReceiver::new_terminal(Cursor::new(wire));
        receive_terminal_ready(&mut receiver)?;
        receiver.record_command(CoordinatorCommand::OpenInputGate)?;
        let _gate = receiver.receive(deadline())?;
        receiver.record_command(CoordinatorCommand::Signal { signal })?;
        assert!(receiver.receive(deadline())? == GuardianEvent::SignalForwarded { signal });
        assert!(receiver.input_gate_opened());
    }

    for signal in [UnixSignal::Hup, UnixSignal::Term] {
        let mut wire = terminal_ready_events()?;
        for event in [
            GuardianEvent::InputGateOpened,
            GuardianEvent::SignalForwarded { signal },
            GuardianEvent::TerminalQuiesced,
            GuardianEvent::TerminalRecoveryDisarmed,
            completed_terminal(),
        ] {
            append_event(&mut wire, event)?;
        }
        let mut receiver = CoordinatorReceiver::new_terminal(Cursor::new(wire));
        receive_terminal_ready(&mut receiver)?;
        receiver.record_command(CoordinatorCommand::OpenInputGate)?;
        let _gate = receiver.receive(deadline())?;
        receiver.record_command(CoordinatorCommand::Signal { signal })?;
        assert!(!receiver.input_gate_opened());
        let _forwarded = receiver.receive(deadline())?;
        assert!(!receiver.input_gate_opened());
        assert!(receiver.receive(deadline())? == GuardianEvent::TerminalQuiesced);
        receiver.record_command(CoordinatorCommand::TerminalRestored)?;
        let _disarmed = receiver.receive(deadline())?;
        let _terminal = receiver.receive(deadline())?;
        assert!(receiver.terminal_received());
    }
    Ok(())
}

#[test]
fn natural_exit_supersedes_only_foreground_interactive_controls() -> Result<(), ProtocolError>
{
    for command in [
        CoordinatorCommand::Signal {
            signal: UnixSignal::Int,
        },
        CoordinatorCommand::Signal {
            signal: UnixSignal::Quit,
        },
        CoordinatorCommand::Resize {
            rows: 41,
            cols: 123,
        },
    ] {
        let mut wire = terminal_ready_events()?;
        for event in [
            GuardianEvent::InputGateOpened,
            GuardianEvent::TerminalQuiesced,
            GuardianEvent::TerminalRecoveryDisarmed,
            completed_terminal(),
        ] {
            append_event(&mut wire, event)?;
        }
        let mut receiver = CoordinatorReceiver::new_terminal(Cursor::new(wire));
        receive_terminal_ready(&mut receiver)?;
        receiver.record_command(CoordinatorCommand::OpenInputGate)?;
        assert!(receiver.receive(deadline())? == GuardianEvent::InputGateOpened);
        receiver.record_command(command)?;
        assert!(receiver.receive(deadline())? == GuardianEvent::TerminalQuiesced);
        receiver.record_command(CoordinatorCommand::TerminalRestored)?;
        assert!(receiver.receive(deadline())? == GuardianEvent::TerminalRecoveryDisarmed);
        assert!(receiver.receive(deadline())? == completed_terminal());
    }

    for signal in [UnixSignal::Hup, UnixSignal::Term] {
        let mut wire = terminal_ready_events()?;
        append_event(&mut wire, GuardianEvent::InputGateOpened)?;
        append_event(&mut wire, GuardianEvent::TerminalQuiesced)?;
        let mut receiver = CoordinatorReceiver::new_terminal(Cursor::new(wire));
        receive_terminal_ready(&mut receiver)?;
        receiver.record_command(CoordinatorCommand::OpenInputGate)?;
        let _gate = receiver.receive(deadline())?;
        receiver.record_command(CoordinatorCommand::Signal { signal })?;
        assert!(receiver.receive(deadline()) == Err(ProtocolError::UnexpectedState));
    }
    Ok(())
}

#[test]
fn failure_can_precede_quiescence_while_interactive_control_is_outstanding()
-> Result<(), ProtocolError> {
    let failure = GuardianEvent::Failed {
        phase: Phase::Tui,
        code: FailureCode::EarlyExit,
    };
    let mut wire = terminal_ready_events()?;
    for event in [
        GuardianEvent::InputGateOpened,
        failure,
        GuardianEvent::TerminalQuiesced,
        GuardianEvent::TerminalRecoveryDisarmed,
        failed_terminal(true, true),
    ] {
        append_event(&mut wire, event)?;
    }
    let mut receiver = CoordinatorReceiver::new_terminal(Cursor::new(wire));
    receive_terminal_ready(&mut receiver)?;
    receiver.record_command(CoordinatorCommand::OpenInputGate)?;
    let _gate = receiver.receive(deadline())?;
    receiver.record_command(CoordinatorCommand::Resize {
        rows: 41,
        cols: 123,
    })?;
    assert!(receiver.receive(deadline())? == failure);
    assert!(receiver.receive(deadline())? == GuardianEvent::TerminalQuiesced);
    receiver.record_command(CoordinatorCommand::TerminalRestored)?;
    assert!(receiver.receive(deadline())? == GuardianEvent::TerminalRecoveryDisarmed);
    assert!(receiver.receive(deadline())? == failed_terminal(true, true));
    Ok(())
}

#[test]
fn terminal_shutdown_requires_quiesced_restored_disarmed_then_reaped()
-> Result<(), ProtocolError> {
    let mut wire = Vec::new();
    for event in [
        GuardianEvent::LeaseCommitted,
        terminal_armed(),
        app_started(),
        tui_started(),
        GuardianEvent::Ready,
        GuardianEvent::InputGateOpened,
        GuardianEvent::TerminalQuiesced,
        GuardianEvent::TerminalRecoveryDisarmed,
        completed_terminal(),
    ] {
        append_event(&mut wire, event)?;
    }
    let mut receiver = CoordinatorReceiver::new_terminal(Cursor::new(wire));
    receive_terminal_ready(&mut receiver)?;
    receiver.record_command(CoordinatorCommand::OpenInputGate)?;
    let _gate = receiver.receive(deadline())?;
    receiver.record_command(CoordinatorCommand::Stop)?;
    assert!(receiver.receive(deadline())? == GuardianEvent::TerminalQuiesced);
    receiver.record_command(CoordinatorCommand::TerminalRestored)?;
    assert!(receiver.receive(deadline())? == GuardianEvent::TerminalRecoveryDisarmed);
    assert!(receiver.receive(deadline())? == completed_terminal());
    assert!(receiver.terminal_received());
    Ok(())
}

#[test]
fn coordinator_accepts_trusted_natural_tui_exit_after_gate_open() -> Result<(), ProtocolError>
{
    let mut wire = terminal_ready_events()?;
    for event in [
        GuardianEvent::InputGateOpened,
        GuardianEvent::TerminalQuiesced,
        GuardianEvent::TerminalRecoveryDisarmed,
        completed_terminal(),
    ] {
        append_event(&mut wire, event)?;
    }
    let mut receiver = CoordinatorReceiver::new_terminal(Cursor::new(wire));
    receive_terminal_ready(&mut receiver)?;
    receiver.record_command(CoordinatorCommand::OpenInputGate)?;
    assert!(receiver.receive(deadline())? == GuardianEvent::InputGateOpened);

    // No STOP is sent: exact TUI EOF is itself the shutdown trigger.
    assert!(receiver.receive(deadline())? == GuardianEvent::TerminalQuiesced);
    assert!(!receiver.input_gate_opened());
    receiver.record_command(CoordinatorCommand::TerminalRestored)?;
    assert!(receiver.receive(deadline())? == GuardianEvent::TerminalRecoveryDisarmed);
    assert!(receiver.receive(deadline())? == completed_terminal());
    assert!(receiver.terminal_received());
    Ok(())
}

#[test]
fn guardian_accepts_trusted_natural_tui_exit_after_gate_open() -> Result<(), ProtocolError> {
    let mut commands = encode_coordinator(CoordinatorCommand::Start)?;
    commands.extend_from_slice(&encode_coordinator(
        CoordinatorCommand::TerminalArmAccepted,
    )?);
    commands.extend_from_slice(&encode_coordinator(CoordinatorCommand::OpenInputGate)?);
    commands.extend_from_slice(&encode_coordinator(CoordinatorCommand::TerminalRestored)?);
    let mut receiver = GuardianCommandReceiver::new_terminal(Cursor::new(commands));
    receiver.record_event(GuardianEvent::LeaseCommitted)?;
    assert!(receiver.receive(deadline())? == CoordinatorCommand::Start);
    record_guardian_terminal_ready(&mut receiver)?;
    assert!(receiver.receive(deadline())? == CoordinatorCommand::OpenInputGate);
    receiver.record_event(GuardianEvent::InputGateOpened)?;

    // The guardian may publish exact natural completion without waiting
    // for a coordinator STOP that can no longer be caused by user input.
    receiver.record_event(GuardianEvent::TerminalQuiesced)?;
    assert!(receiver.receive(deadline())? == CoordinatorCommand::TerminalRestored);
    let restored = receiver.take_verified_terminal_restored_command()?;
    assert_eq!(
        restored.redacted(),
        "VerifiedTerminalRestoredCommand(<redacted>)"
    );
    assert_eq!(std::mem::size_of_val(&restored), 0);
    assert!(matches!(
        receiver.take_verified_terminal_restored_command(),
        Err(ProtocolError::UnexpectedState)
    ));
    receiver.record_event(GuardianEvent::TerminalRecoveryDisarmed)?;
    receiver.record_event(completed_terminal())?;
    assert!(receiver.terminal_received());
    Ok(())
}

#[test]
fn guardian_mints_distinct_one_shot_gate_proofs_for_initial_and_resume_cycles()
-> Result<(), ProtocolError> {
    let mut commands = encode_coordinator(CoordinatorCommand::Start)?;
    commands.extend_from_slice(&encode_coordinator(
        CoordinatorCommand::TerminalArmAccepted,
    )?);
    commands.extend_from_slice(&encode_coordinator(CoordinatorCommand::OpenInputGate)?);
    commands.extend_from_slice(&encode_coordinator(CoordinatorCommand::Resize {
        rows: 37,
        cols: 111,
    })?);
    commands.extend_from_slice(&encode_coordinator(CoordinatorCommand::Suspend)?);
    commands.extend_from_slice(&encode_coordinator(CoordinatorCommand::Resume {
        rows: 41,
        cols: 123,
    })?);
    commands.extend_from_slice(&encode_coordinator(CoordinatorCommand::OpenInputGate)?);

    let mut receiver = GuardianCommandReceiver::new_terminal(Cursor::new(commands));
    receiver.record_event(GuardianEvent::LeaseCommitted)?;
    assert!(receiver.receive(deadline())? == CoordinatorCommand::Start);
    record_guardian_terminal_ready(&mut receiver)?;

    assert!(matches!(
        receiver.take_verified_initial_open_gate_command(),
        Err(ProtocolError::UnexpectedState)
    ));
    assert!(receiver.receive(deadline())? == CoordinatorCommand::OpenInputGate);
    let initial = receiver.take_verified_initial_open_gate_command()?;
    assert_eq!(
        initial.redacted(),
        "VerifiedInitialOpenGateCommand(<redacted>)"
    );
    assert_eq!(std::mem::size_of_val(&initial), 0);
    assert!(matches!(
        receiver.take_verified_initial_open_gate_command(),
        Err(ProtocolError::UnexpectedState)
    ));
    assert!(matches!(
        receiver.take_verified_resume_open_gate_command(),
        Err(ProtocolError::UnexpectedState)
    ));
    receiver.record_event(GuardianEvent::InputGateOpened)?;

    assert!(receiver.receive(deadline())? == CoordinatorCommand::Resize {
            rows: 37,
            cols: 111,
        });
    let resize = receiver.take_verified_resize_command()?;
    assert_eq!((resize.rows(), resize.cols()), (37, 111));
    assert_eq!(resize.redacted(), "VerifiedResizeCommand(<redacted>)");
    assert!(matches!(
        receiver.take_verified_resize_command(),
        Err(ProtocolError::UnexpectedState)
    ));
    receiver.record_event(GuardianEvent::ResizeApplied {
        rows: 37,
        cols: 111,
    })?;

    assert!(receiver.receive(deadline())? == CoordinatorCommand::Suspend);
    let suspend = receiver.take_verified_suspend_command()?;
    assert_eq!(suspend.redacted(), "VerifiedSuspendCommand(<redacted>)");
    assert!(matches!(
        receiver.take_verified_suspend_command(),
        Err(ProtocolError::UnexpectedState)
    ));
    receiver.record_event(GuardianEvent::Suspended)?;
    assert!(receiver.receive(deadline())? == CoordinatorCommand::Resume {
            rows: 41,
            cols: 123,
        });
    let resume = receiver.take_verified_resume_command()?;
    assert_eq!((resume.rows(), resume.cols()), (41, 123));
    assert_eq!(resume.redacted(), "VerifiedResumeCommand(<redacted>)");
    assert!(matches!(
        receiver.take_verified_resume_command(),
        Err(ProtocolError::UnexpectedState)
    ));
    receiver.record_event(GuardianEvent::Resumed {
        rows: 41,
        cols: 123,
    })?;
    assert!(receiver.receive(deadline())? == CoordinatorCommand::OpenInputGate);
    assert!(matches!(
        receiver.take_verified_initial_open_gate_command(),
        Err(ProtocolError::UnexpectedState)
    ));
    let resumed = receiver.take_verified_resume_open_gate_command()?;
    assert_eq!(
        resumed.redacted(),
        "VerifiedResumeOpenGateCommand(<redacted>)"
    );
    assert_eq!(std::mem::size_of_val(&resumed), 0);
    assert!(matches!(
        receiver.take_verified_resume_open_gate_command(),
        Err(ProtocolError::UnexpectedState)
    ));
    Ok(())
}

#[test]
fn worker_failure_discovered_after_recovery_disarm_remains_typed() -> Result<(), ProtocolError>
{
    let failure = GuardianEvent::Failed {
        phase: Phase::Worker,
        code: FailureCode::Worker,
    };
    let terminal = GuardianEvent::ChildrenReaped {
        app: ChildDisposition::Signaled {
            signal: 15,
            core_dumped: false,
            stop_action: StopAction::Term,
        },
        tui: exited(0),
        worker: WorkerJoinStatus::JoinedFailed,
        cleanup: CleanupStatus::Complete,
        session: SessionStatus::Failed,
        guardian_exit: GuardianExitDisposition::InternalFailure,
    };
    let mut wire = terminal_ready_events()?;
    for event in [
        GuardianEvent::InputGateOpened,
        GuardianEvent::TerminalQuiesced,
        GuardianEvent::TerminalRecoveryDisarmed,
        failure,
        terminal,
    ] {
        append_event(&mut wire, event)?;
    }
    let mut receiver = CoordinatorReceiver::new_terminal(Cursor::new(wire));
    receive_terminal_ready(&mut receiver)?;
    receiver.record_command(CoordinatorCommand::OpenInputGate)?;
    assert!(receiver.receive(deadline())? == GuardianEvent::InputGateOpened);
    assert!(receiver.receive(deadline())? == GuardianEvent::TerminalQuiesced);
    receiver.record_command(CoordinatorCommand::TerminalRestored)?;
    assert!(receiver.receive(deadline())? == GuardianEvent::TerminalRecoveryDisarmed);
    assert!(receiver.receive(deadline())? == failure);
    assert!(receiver.receive(deadline())? == terminal);
    assert!(receiver.terminal_received());
    Ok(())
}

#[test]
fn guardian_discards_one_queued_interactive_control_after_natural_quiescence()
-> Result<(), ProtocolError> {
    for failure in [
        None,
        Some(GuardianEvent::Failed {
            phase: Phase::Pump,
            code: FailureCode::Pump,
        }),
    ] {
        let mut commands = encode_coordinator(CoordinatorCommand::Start)?;
        commands.extend_from_slice(&encode_coordinator(
            CoordinatorCommand::TerminalArmAccepted,
        )?);
        commands.extend_from_slice(&encode_coordinator(CoordinatorCommand::OpenInputGate)?);
        commands.extend_from_slice(&encode_coordinator(CoordinatorCommand::Resize {
            rows: 41,
            cols: 123,
        })?);
        commands.extend_from_slice(&encode_coordinator(CoordinatorCommand::TerminalRestored)?);
        let mut receiver = GuardianCommandReceiver::new_terminal(Cursor::new(commands));
        receiver.record_event(GuardianEvent::LeaseCommitted)?;
        assert!(receiver.receive(deadline())? == CoordinatorCommand::Start);
        record_guardian_terminal_ready(&mut receiver)?;
        assert!(receiver.receive(deadline())? == CoordinatorCommand::OpenInputGate);
        receiver.record_event(GuardianEvent::InputGateOpened)?;
        if let Some(failure) = failure {
            receiver.record_event(failure)?;
        }
        receiver.record_event(GuardianEvent::TerminalQuiesced)?;
        assert!(receiver.receive(deadline())? == CoordinatorCommand::Resize {
                rows: 41,
                cols: 123,
            });
        assert!(receiver.receive(deadline())? == CoordinatorCommand::TerminalRestored);
        receiver.record_event(GuardianEvent::TerminalRecoveryDisarmed)?;
        receiver.record_event(if failure.is_some() {
            failed_terminal(true, true)
        } else {
            completed_terminal()
        })?;
        assert!(receiver.terminal_received());
    }
    Ok(())
}

#[test]
fn guardian_never_discards_shutdown_signal_after_quiescence() -> Result<(), ProtocolError> {
    for signal in [UnixSignal::Hup, UnixSignal::Term] {
        let mut commands = encode_coordinator(CoordinatorCommand::Start)?;
        commands.extend_from_slice(&encode_coordinator(
            CoordinatorCommand::TerminalArmAccepted,
        )?);
        commands.extend_from_slice(&encode_coordinator(CoordinatorCommand::OpenInputGate)?);
        commands.extend_from_slice(&encode_coordinator(CoordinatorCommand::Signal { signal })?);
        let mut receiver = GuardianCommandReceiver::new_terminal(Cursor::new(commands));
        receiver.record_event(GuardianEvent::LeaseCommitted)?;
        assert!(receiver.receive(deadline())? == CoordinatorCommand::Start);
        record_guardian_terminal_ready(&mut receiver)?;
        assert!(receiver.receive(deadline())? == CoordinatorCommand::OpenInputGate);
        receiver.record_event(GuardianEvent::InputGateOpened)?;
        receiver.record_event(GuardianEvent::TerminalQuiesced)?;
        assert!(receiver.receive(deadline()) == Err(ProtocolError::UnexpectedState));
    }
    Ok(())
}

#[derive(Clone, Copy)]
enum RecoveryRaceState {
    ReadyForGate,
    Active,
    Suspended,
}

fn recovery_failure() -> GuardianEvent {
    GuardianEvent::Failed {
        phase: Phase::Protocol,
        code: FailureCode::Internal,
    }
}

fn guardian_at_recovery_race_state(
    state: RecoveryRaceState,
    queued: &[CoordinatorCommand],
) -> Result<GuardianCommandReceiver<Cursor<Vec<u8>>>, ProtocolError> {
    let mut commands = encode_coordinator(CoordinatorCommand::Start)?;
    commands.extend_from_slice(&encode_coordinator(
        CoordinatorCommand::TerminalArmAccepted,
    )?);
    if matches!(
        state,
        RecoveryRaceState::Active | RecoveryRaceState::Suspended
    ) {
        commands.extend_from_slice(&encode_coordinator(CoordinatorCommand::OpenInputGate)?);
    }
    if matches!(state, RecoveryRaceState::Suspended) {
        commands.extend_from_slice(&encode_coordinator(CoordinatorCommand::Suspend)?);
    }
    for command in queued {
        commands.extend_from_slice(&encode_coordinator(*command)?);
    }

    let mut receiver = GuardianCommandReceiver::new_terminal(Cursor::new(commands));
    receiver.record_event(GuardianEvent::LeaseCommitted)?;
    if receiver.receive(deadline())? != CoordinatorCommand::Start {
        return Err(ProtocolError::UnexpectedState);
    }
    record_guardian_terminal_ready(&mut receiver)?;
    if matches!(
        state,
        RecoveryRaceState::Active | RecoveryRaceState::Suspended
    ) {
        if receiver.receive(deadline())? != CoordinatorCommand::OpenInputGate {
            return Err(ProtocolError::UnexpectedState);
        }
        let _proof = receiver.take_verified_initial_open_gate_command()?;
        receiver.record_event(GuardianEvent::InputGateOpened)?;
    }
    if matches!(state, RecoveryRaceState::Suspended) {
        if receiver.receive(deadline())? != CoordinatorCommand::Suspend {
            return Err(ProtocolError::UnexpectedState);
        }
        let _proof = receiver.take_verified_suspend_command()?;
        receiver.record_event(GuardianEvent::Suspended)?;
    }
    Ok(receiver)
}

fn assert_no_superseded_command_proof(receiver: &mut GuardianCommandReceiver<Cursor<Vec<u8>>>) {
    assert!(matches!(
        receiver.take_verified_initial_open_gate_command(),
        Err(ProtocolError::UnexpectedState)
    ));
    assert!(matches!(
        receiver.take_verified_resume_open_gate_command(),
        Err(ProtocolError::UnexpectedState)
    ));
    assert!(matches!(
        receiver.take_verified_suspend_command(),
        Err(ProtocolError::UnexpectedState)
    ));
    assert!(matches!(
        receiver.take_verified_resume_command(),
        Err(ProtocolError::UnexpectedState)
    ));
    assert!(matches!(
        receiver.take_verified_resize_command(),
        Err(ProtocolError::UnexpectedState)
    ));
}

fn assert_no_recovery_race_termination_cause(
    receiver: &GuardianCommandReceiver<Cursor<Vec<u8>>>,
) {
    assert!(receiver.inner.termination_cause() == None);
}

#[test]
fn recovery_and_in_flight_controls_are_deterministic_in_both_arrival_orders()
-> Result<(), ProtocolError> {
    for (state, command) in [
        (
            RecoveryRaceState::Active,
            CoordinatorCommand::Signal {
                signal: UnixSignal::Hup,
            },
        ),
        (
            RecoveryRaceState::Active,
            CoordinatorCommand::Signal {
                signal: UnixSignal::Term,
            },
        ),
        (RecoveryRaceState::Active, CoordinatorCommand::Suspend),
        (
            RecoveryRaceState::Suspended,
            CoordinatorCommand::Resume {
                rows: 41,
                cols: 123,
            },
        ),
    ] {
        // Recovery is observed before the guardian reads the already-written
        // command. It may drain that exact frame only after quiescence.
        let mut recovery_first = guardian_at_recovery_race_state(
            state,
            &[command, CoordinatorCommand::TerminalRestored],
        )?;
        recovery_first.arm_recovery_command_race()?;
        recovery_first.record_event(recovery_failure())?;
        recovery_first.record_event(GuardianEvent::TerminalQuiesced)?;
        assert!(recovery_first.receive(deadline())? == command);
        assert_no_superseded_command_proof(&mut recovery_first);
        assert_no_recovery_race_termination_cause(&recovery_first);
        assert!(recovery_first.receive(deadline())? == CoordinatorCommand::TerminalRestored);
        let _restored = recovery_first.take_verified_terminal_restored_command()?;

        // The command reaches the guardian first. The subsequent recovery
        // failure invalidates its unconsumed operation proof and still does
        // not manufacture an ACK or termination cause.
        let mut command_first = guardian_at_recovery_race_state(
            state,
            &[command, CoordinatorCommand::TerminalRestored],
        )?;
        assert!(command_first.receive(deadline())? == command);
        command_first.record_event(recovery_failure())?;
        command_first.record_event(GuardianEvent::TerminalQuiesced)?;
        assert_no_superseded_command_proof(&mut command_first);
        assert_no_recovery_race_termination_cause(&command_first);
        assert!(command_first.receive(deadline())? == CoordinatorCommand::TerminalRestored);
        let _restored = command_first.take_verified_terminal_restored_command()?;
    }
    Ok(())
}

#[test]
fn recovery_command_allowance_is_state_scoped_one_shot_and_expires_on_restore()
-> Result<(), ProtocolError> {
    for (state, command) in [
        (
            RecoveryRaceState::ReadyForGate,
            CoordinatorCommand::OpenInputGate,
        ),
        (RecoveryRaceState::ReadyForGate, CoordinatorCommand::Stop),
        (
            RecoveryRaceState::Active,
            CoordinatorCommand::Resize {
                rows: 41,
                cols: 123,
            },
        ),
        (RecoveryRaceState::Active, CoordinatorCommand::Stop),
        (
            RecoveryRaceState::Suspended,
            CoordinatorCommand::Signal {
                signal: UnixSignal::Quit,
            },
        ),
        (RecoveryRaceState::Suspended, CoordinatorCommand::Stop),
    ] {
        let mut receiver = guardian_at_recovery_race_state(
            state,
            &[command, CoordinatorCommand::TerminalRestored],
        )?;
        receiver.arm_recovery_command_race()?;
        receiver.record_event(recovery_failure())?;
        receiver.record_event(GuardianEvent::TerminalQuiesced)?;
        assert!(receiver.receive(deadline())? == command);
        assert_no_superseded_command_proof(&mut receiver);
        assert_no_recovery_race_termination_cause(&receiver);
        assert!(receiver.receive(deadline())? == CoordinatorCommand::TerminalRestored);
    }

    for (state, invalid) in [
        (RecoveryRaceState::ReadyForGate, CoordinatorCommand::Suspend),
        (
            RecoveryRaceState::Active,
            CoordinatorCommand::Resume {
                rows: 41,
                cols: 123,
            },
        ),
        (
            RecoveryRaceState::Suspended,
            CoordinatorCommand::Resize {
                rows: 41,
                cols: 123,
            },
        ),
    ] {
        let mut receiver = guardian_at_recovery_race_state(state, &[invalid])?;
        receiver.arm_recovery_command_race()?;
        receiver.record_event(recovery_failure())?;
        receiver.record_event(GuardianEvent::TerminalQuiesced)?;
        assert!(receiver.receive(deadline()) == Err(ProtocolError::UnexpectedState));
    }

    for replay in [
        CoordinatorCommand::Signal {
            signal: UnixSignal::Hup,
        },
        CoordinatorCommand::Signal {
            signal: UnixSignal::Int,
        },
        CoordinatorCommand::Resize {
            rows: 41,
            cols: 123,
        },
    ] {
        let mut replayed = guardian_at_recovery_race_state(
            RecoveryRaceState::Active,
            &[replay, replay, CoordinatorCommand::TerminalRestored],
        )?;
        replayed.arm_recovery_command_race()?;
        replayed.record_event(recovery_failure())?;
        replayed.record_event(GuardianEvent::TerminalQuiesced)?;
        assert!(replayed.receive(deadline())? == replay);
        assert!(replayed.receive(deadline()) == Err(ProtocolError::UnexpectedState));
    }

    let mut expired = guardian_at_recovery_race_state(
        RecoveryRaceState::ReadyForGate,
        &[
            CoordinatorCommand::TerminalRestored,
            CoordinatorCommand::OpenInputGate,
        ],
    )?;
    expired.arm_recovery_command_race()?;
    expired.record_event(recovery_failure())?;
    expired.record_event(GuardianEvent::TerminalQuiesced)?;
    assert!(expired.receive(deadline())? == CoordinatorCommand::TerminalRestored);
    assert!(expired.receive(deadline()) == Err(ProtocolError::UnexpectedState));
    Ok(())
}

#[test]
fn natural_tui_exit_before_gate_open_requires_a_failure_event() -> Result<(), ProtocolError> {
    let mut wire = terminal_ready_events()?;
    append_event(&mut wire, GuardianEvent::TerminalQuiesced)?;
    let mut receiver = CoordinatorReceiver::new_terminal(Cursor::new(wire));
    receive_terminal_ready(&mut receiver)?;
    assert!(receiver.receive(deadline()) == Err(ProtocolError::UnexpectedState));
    assert!(receiver.record_command(CoordinatorCommand::TerminalRestored) == Err(ProtocolError::UnexpectedState));
    Ok(())
}

#[test]
fn failed_pre_gate_exit_consumes_one_in_flight_gate_before_terminal_restore()
-> Result<(), ProtocolError> {
    let mut commands = encode_coordinator(CoordinatorCommand::Start)?;
    commands.extend_from_slice(&encode_coordinator(
        CoordinatorCommand::TerminalArmAccepted,
    )?);
    commands.extend_from_slice(&encode_coordinator(CoordinatorCommand::OpenInputGate)?);
    commands.extend_from_slice(&encode_coordinator(CoordinatorCommand::TerminalRestored)?);
    let mut receiver = GuardianCommandReceiver::new_terminal(Cursor::new(commands));
    receiver.record_event(GuardianEvent::LeaseCommitted)?;
    assert!(receiver.receive(deadline())? == CoordinatorCommand::Start);
    record_guardian_terminal_ready(&mut receiver)?;

    receiver.record_event(GuardianEvent::Failed {
        phase: Phase::Readiness,
        code: FailureCode::EarlyExit,
    })?;
    receiver.record_event(GuardianEvent::TerminalQuiesced)?;
    assert!(receiver.receive(deadline())? == CoordinatorCommand::OpenInputGate);
    assert!(receiver.receive(deadline())? == CoordinatorCommand::TerminalRestored);
    receiver.record_event(GuardianEvent::TerminalRecoveryDisarmed)?;
    receiver.record_event(failed_terminal(true, true))?;
    assert!(receiver.terminal_received());
    Ok(())
}

#[test]
fn tui_exit_while_suspended_requires_a_failure_event() -> Result<(), ProtocolError> {
    let mut wire = terminal_ready_events()?;
    for event in [
        GuardianEvent::InputGateOpened,
        GuardianEvent::Suspended,
        GuardianEvent::TerminalQuiesced,
    ] {
        append_event(&mut wire, event)?;
    }
    let mut receiver = CoordinatorReceiver::new_terminal(Cursor::new(wire));
    receive_terminal_ready(&mut receiver)?;
    receiver.record_command(CoordinatorCommand::OpenInputGate)?;
    let _gate = receiver.receive(deadline())?;
    receiver.record_command(CoordinatorCommand::Suspend)?;
    assert!(receiver.receive(deadline())? == GuardianEvent::Suspended);
    assert!(receiver.receive(deadline()) == Err(ProtocolError::UnexpectedState));
    Ok(())
}

#[test]
fn terminal_failure_before_raw_still_requires_restore_sequence() -> Result<(), ProtocolError> {
    let failure = GuardianEvent::Failed {
        phase: Phase::Terminal,
        code: FailureCode::Terminal,
    };
    let mut wire = Vec::new();
    for event in [
        GuardianEvent::LeaseCommitted,
        failure,
        GuardianEvent::TerminalQuiesced,
        GuardianEvent::TerminalRecoveryDisarmed,
        failed_terminal(false, false),
    ] {
        append_event(&mut wire, event)?;
    }
    let mut receiver = CoordinatorReceiver::new_terminal(Cursor::new(wire));
    assert!(receiver.receive(deadline())? == GuardianEvent::LeaseCommitted);
    receiver.record_command(CoordinatorCommand::Start)?;
    assert!(receiver.receive(deadline())? == failure);
    assert!(receiver.receive(deadline())? == GuardianEvent::TerminalQuiesced);
    receiver.record_command(CoordinatorCommand::TerminalRestored)?;
    assert!(receiver.receive(deadline())? == GuardianEvent::TerminalRecoveryDisarmed);
    assert!(receiver.receive(deadline())? == failed_terminal(false, false));
    assert!(receiver.terminal_received());
    Ok(())
}

#[test]
fn terminal_failure_after_gate_still_requires_restore_sequence() -> Result<(), ProtocolError> {
    let failure = GuardianEvent::Failed {
        phase: Phase::Pump,
        code: FailureCode::Pump,
    };
    let mut wire = terminal_ready_events()?;
    for event in [
        GuardianEvent::InputGateOpened,
        failure,
        GuardianEvent::TerminalQuiesced,
        GuardianEvent::TerminalRecoveryDisarmed,
        failed_terminal(true, true),
    ] {
        append_event(&mut wire, event)?;
    }
    let mut receiver = CoordinatorReceiver::new_terminal(Cursor::new(wire));
    receive_terminal_ready(&mut receiver)?;
    receiver.record_command(CoordinatorCommand::OpenInputGate)?;
    let _gate = receiver.receive(deadline())?;
    assert!(receiver.receive(deadline())? == failure);
    assert!(!receiver.input_gate_opened());
    assert!(receiver.receive(deadline())? == GuardianEvent::TerminalQuiesced);
    receiver.record_command(CoordinatorCommand::TerminalRestored)?;
    let _disarmed = receiver.receive(deadline())?;
    assert!(receiver.receive(deadline())? == failed_terminal(true, true));
    assert!(receiver.terminal_received());
    Ok(())
}

#[test]
fn skipped_terminal_recovery_steps_poison_the_receiver() -> Result<(), ProtocolError> {
    // DISARMED cannot replace QUIESCED.
    let mut wire = terminal_ready_events()?;
    for event in [
        GuardianEvent::InputGateOpened,
        GuardianEvent::TerminalRecoveryDisarmed,
    ] {
        append_event(&mut wire, event)?;
    }
    let mut receiver = CoordinatorReceiver::new_terminal(Cursor::new(wire));
    receive_terminal_ready(&mut receiver)?;
    receiver.record_command(CoordinatorCommand::OpenInputGate)?;
    let _gate = receiver.receive(deadline())?;
    receiver.record_command(CoordinatorCommand::Stop)?;
    assert!(receiver.receive(deadline()) == Err(ProtocolError::UnexpectedState));

    // QUIESCED cannot authorize DISARMED without RESTORED.
    let mut wire = terminal_ready_events()?;
    for event in [
        GuardianEvent::InputGateOpened,
        GuardianEvent::TerminalQuiesced,
        GuardianEvent::TerminalRecoveryDisarmed,
    ] {
        append_event(&mut wire, event)?;
    }
    let mut receiver = CoordinatorReceiver::new_terminal(Cursor::new(wire));
    receive_terminal_ready(&mut receiver)?;
    receiver.record_command(CoordinatorCommand::OpenInputGate)?;
    let _gate = receiver.receive(deadline())?;
    receiver.record_command(CoordinatorCommand::Stop)?;
    let _quiesced = receiver.receive(deadline())?;
    assert!(receiver.receive(deadline()) == Err(ProtocolError::UnexpectedState));

    // CHILDREN_REAPED cannot replace the explicit DISARMED acknowledgement.
    let mut wire = terminal_ready_events()?;
    for event in [
        GuardianEvent::InputGateOpened,
        GuardianEvent::TerminalQuiesced,
        completed_terminal(),
    ] {
        append_event(&mut wire, event)?;
    }
    let mut receiver = CoordinatorReceiver::new_terminal(Cursor::new(wire));
    receive_terminal_ready(&mut receiver)?;
    receiver.record_command(CoordinatorCommand::OpenInputGate)?;
    let _gate = receiver.receive(deadline())?;
    receiver.record_command(CoordinatorCommand::Stop)?;
    let _quiesced = receiver.receive(deadline())?;
    receiver.record_command(CoordinatorCommand::TerminalRestored)?;
    assert!(receiver.receive(deadline()) == Err(ProtocolError::UnexpectedState));
    Ok(())
}

#[test]
fn wrong_terminal_ack_or_duplicate_command_poisons_the_receiver() -> Result<(), ProtocolError>
{
    let mut wire = Vec::new();
    for event in [
        GuardianEvent::LeaseCommitted,
        terminal_armed(),
        app_started(),
        tui_started(),
        GuardianEvent::Ready,
        GuardianEvent::InputGateOpened,
        GuardianEvent::SignalForwarded {
            signal: UnixSignal::Term,
        },
    ] {
        append_event(&mut wire, event)?;
    }
    let mut receiver = CoordinatorReceiver::new_terminal(Cursor::new(wire));
    receive_terminal_ready(&mut receiver)?;
    receiver.record_command(CoordinatorCommand::OpenInputGate)?;
    let _gate = receiver.receive(deadline())?;
    receiver.record_command(CoordinatorCommand::Signal {
        signal: UnixSignal::Int,
    })?;
    assert!(receiver.receive(deadline()) == Err(ProtocolError::UnexpectedState));
    assert!(receiver.record_command(CoordinatorCommand::Stop) == Err(ProtocolError::UnexpectedState));

    let mut receiver = CoordinatorReceiver::new_terminal(Cursor::new(Vec::<u8>::new()));
    assert!(receiver.record_command(CoordinatorCommand::OpenInputGate) == Err(ProtocolError::UnexpectedState));
    assert!(receiver.record_command(CoordinatorCommand::OpenInputGate) == Err(ProtocolError::UnexpectedState));
    Ok(())
}

#[test]
fn guardian_terminal_receiver_cross_checks_its_emitted_events() -> Result<(), ProtocolError> {
    let mut commands = encode_coordinator(CoordinatorCommand::Start)?;
    commands.extend_from_slice(&encode_coordinator(
        CoordinatorCommand::TerminalArmAccepted,
    )?);
    commands.extend_from_slice(&encode_coordinator(CoordinatorCommand::OpenInputGate)?);
    let mut receiver = GuardianCommandReceiver::new_terminal(Cursor::new(commands));
    receiver.record_event(GuardianEvent::LeaseCommitted)?;
    assert!(receiver.receive(deadline())? == CoordinatorCommand::Start);
    record_guardian_terminal_ready(&mut receiver)?;
    assert!(receiver.receive(deadline())? == CoordinatorCommand::OpenInputGate);
    receiver.record_event(GuardianEvent::InputGateOpened)?;
    assert!(receiver.input_gate_opened());
    Ok(())
}

#[test]
fn coordinator_terminal_receiver_requires_lease_commit_before_start()
-> Result<(), ProtocolError> {
    let lease = encode_guardian(GuardianEvent::LeaseCommitted)?;
    let mut receiver = CoordinatorReceiver::new_terminal(Cursor::new(lease));
    assert!(receiver.record_command(CoordinatorCommand::Start) == Err(ProtocolError::UnexpectedState));
    assert!(receiver.receive(deadline()) == Err(ProtocolError::UnexpectedState));

    let mut wire = Vec::new();
    append_event(&mut wire, GuardianEvent::LeaseCommitted)?;
    append_event(&mut wire, terminal_armed())?;
    let mut receiver = CoordinatorReceiver::new_terminal(Cursor::new(wire));
    assert!(receiver.receive(deadline())? == GuardianEvent::LeaseCommitted);
    receiver.record_command(CoordinatorCommand::Start)?;
    assert!(receiver.receive(deadline())? == terminal_armed());
    Ok(())
}

#[test]
fn guardian_terminal_receiver_requires_lease_commit_before_start() -> Result<(), ProtocolError>
{
    let commands = encode_coordinator(CoordinatorCommand::Start)?;
    let mut receiver = GuardianCommandReceiver::new_terminal(Cursor::new(commands));
    assert!(receiver.receive(deadline()) == Err(ProtocolError::UnexpectedState));
    assert!(receiver.record_event(GuardianEvent::LeaseCommitted) == Err(ProtocolError::UnexpectedState));

    let commands = encode_coordinator(CoordinatorCommand::Start)?;
    let mut receiver = GuardianCommandReceiver::new_terminal(Cursor::new(commands));
    receiver.record_event(GuardianEvent::LeaseCommitted)?;
    assert!(receiver.receive(deadline())? == CoordinatorCommand::Start);
    receiver.record_event(terminal_armed())?;
    Ok(())
}

fn terminal_ready_events() -> Result<Vec<u8>, ProtocolError> {
    let mut wire = Vec::new();
    for event in [
        GuardianEvent::LeaseCommitted,
        terminal_armed(),
        app_started(),
        tui_started(),
        GuardianEvent::Ready,
    ] {
        append_event(&mut wire, event)?;
    }
    Ok(wire)
}

fn terminal_armed() -> GuardianEvent {
    GuardianEvent::TerminalArmed {
        snapshot: TerminalSnapshotFingerprint::from_digest([0x5a; SNAPSHOT_FINGERPRINT_BYTES]),
    }
}

fn receive_terminal_ready<R: Read>(
    receiver: &mut CoordinatorReceiver<R>,
) -> Result<(), ProtocolError> {
    if receiver.receive(deadline())? != GuardianEvent::LeaseCommitted {
        return Err(ProtocolError::UnexpectedState);
    }
    receiver.record_command(CoordinatorCommand::Start)?;
    if !matches!(
        receiver.receive(deadline())?,
        GuardianEvent::TerminalArmed { .. }
    ) {
        return Err(ProtocolError::UnexpectedState);
    }
    receiver.record_command(CoordinatorCommand::TerminalArmAccepted)?;
    for _ in 0..3 {
        let _event = receiver.receive(deadline())?;
    }
    Ok(())
}

fn record_guardian_terminal_ready<R: Read>(
    receiver: &mut GuardianCommandReceiver<R>,
) -> Result<(), ProtocolError> {
    receiver.record_event(terminal_armed())?;
    if receiver.receive(deadline())? != CoordinatorCommand::TerminalArmAccepted {
        return Err(ProtocolError::UnexpectedState);
    }
    for event in [app_started(), tui_started(), GuardianEvent::Ready] {
        receiver.record_event(event)?;
    }
    Ok(())
}

#[test]
fn read_and_write_deadlines_are_mandatory_and_redacted() {
    let expired = now();
    assert!(receive_guardian_event(&mut AlwaysWouldBlock, expired) == Err(ProtocolError::Timeout));
    assert!(send_coordinator_command(&mut AlwaysWouldBlock, CoordinatorCommand::Start, expired) == Err(ProtocolError::Timeout));

    let soon = after_millis(5);
    assert!(receive_guardian_event(&mut AlwaysWouldBlock, soon) == Err(ProtocolError::Timeout));
    let soon = after_millis(5);
    assert!(send_coordinator_command(&mut AlwaysWouldBlock, CoordinatorCommand::Start, soon) == Err(ProtocolError::Timeout));
}

#[test]
fn protocol_errors_never_retain_input_sentinels() {
    let sentinel = b"credential-sentinel-must-not-escape";
    let mut wire = raw_frame(GUARDIAN_DIRECTION | GUARDIAN_READY, sentinel);
    wire[0] = b'X';
    let error = receive_guardian_event(&mut Cursor::new(wire), deadline())
        .err()
        .unwrap_or(ProtocolError::Io);
    assert_eq!(error, ProtocolError::BadMagic);
    assert!(!format!("{error:?}").contains("credential-sentinel"));
    assert!(!error.message().contains("credential-sentinel"));
}

struct FragmentedReader<R> {
    inner: R,
    maximum: usize,
}

impl<R> FragmentedReader<R> {
    fn new(inner: R, maximum: usize) -> Self {
        Self { inner, maximum }
    }
}

impl<R: Read> Read for FragmentedReader<R> {
    fn read(&mut self, output: &mut [u8]) -> io::Result<usize> {
        let length = output.len().min(self.maximum);
        self.inner.read(&mut output[..length])
    }
}

struct FragmentedWriter {
    bytes: Vec<u8>,
    maximum: usize,
}

impl FragmentedWriter {
    fn new(maximum: usize) -> Self {
        Self {
            bytes: Vec::new(),
            maximum,
        }
    }
}

impl Write for FragmentedWriter {
    fn write(&mut self, input: &[u8]) -> io::Result<usize> {
        let length = input.len().min(self.maximum);
        self.bytes.extend_from_slice(&input[..length]);
        Ok(length)
    }

    fn flush(&mut self) -> io::Result<()> {
        Ok(())
    }
}

struct AlwaysWouldBlock;

struct NonClosingReader {
    inner: Cursor<Vec<u8>>,
}

impl Read for NonClosingReader {
    fn read(&mut self, output: &mut [u8]) -> io::Result<usize> {
        match self.inner.read(output)? {
            0 => Err(io::Error::from(io::ErrorKind::WouldBlock)),
            read => Ok(read),
        }
    }
}

impl Read for AlwaysWouldBlock {
    fn read(&mut self, _output: &mut [u8]) -> io::Result<usize> {
        Err(io::Error::from(io::ErrorKind::WouldBlock))
    }
}

impl Write for AlwaysWouldBlock {
    fn write(&mut self, _input: &[u8]) -> io::Result<usize> {
        Err(io::Error::from(io::ErrorKind::WouldBlock))
    }

    fn flush(&mut self) -> io::Result<()> {
        Err(io::Error::from(io::ErrorKind::WouldBlock))
    }
}
