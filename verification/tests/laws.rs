//! The laws of the library, each on concrete values.
use codex_supervisor::clock::Moment;
use codex_supervisor::process::child::{
    ChildAuthority, ChildState, GroupContainmentPolicy, ManagedGroupChild,
};
use codex_supervisor::process::error::{record_first_error, ProcessError};
use codex_supervisor::process::observe::{ChildAction, ChildEvent};
use codex_supervisor::process::status::{
    bounded_exit_code, bounded_signal, observed_waitid_disposition, project_disposition, ExitStatus,
    Signal, WaitStatus,
};
use codex_supervisor::process::termination::{begin_termination, Termination};
use codex_supervisor::protocol::codec::{
    decode_child_disposition, encode_child_disposition, CHILD_DISPOSITION_BYTES,
};
use codex_supervisor::protocol::coordinator::CoordinatorReceiver;
use codex_supervisor::protocol::framing::{self, FrameReceiver};
use codex_supervisor::protocol::guardian::GuardianCommandReceiver;
use codex_supervisor::protocol::lifecycle::TerminalLifecycleValidator;
use codex_supervisor::protocol::message::{
    ChildDisposition, ChildRole, CleanupStatus, CoordinatorCommand, FailureCode, GuardianEvent,
    GuardianExitDisposition, Phase, ProtocolError, SessionStatus, SessionTerminationCause,
    StopAction, TerminalSnapshotFingerprint, UnixSignal, WorkerJoinStatus,
};
use codex_supervisor::protocol::semantics::project_terminal_semantics;
use codex_supervisor::protocol::transfer::{TransferStep, WireAction, WireEvent};
use codex_supervisor::protocol::wire::{
    decode_command, decode_event, encode_command, encode_event, ReceivedFrame,
    COORDINATOR_DIRECTION, GUARDIAN_DIRECTION,
};

fn at(nanos: u64) -> Moment {
    Moment { nanos }
}

fn armed() -> GuardianEvent {
    GuardianEvent::TerminalArmed {
        snapshot: TerminalSnapshotFingerprint::from_digest([0x11; 32]),
    }
}

fn started(role: ChildRole, pid: i32) -> GuardianEvent {
    GuardianEvent::ChildStarted { role, pid, pgid: pid }
}

fn commands() -> Vec<CoordinatorCommand> {
    vec![
        CoordinatorCommand::Start,
        CoordinatorCommand::Stop,
        CoordinatorCommand::OpenInputGate,
        CoordinatorCommand::Signal { signal: UnixSignal::Hup },
        CoordinatorCommand::Signal { signal: UnixSignal::Int },
        CoordinatorCommand::Signal { signal: UnixSignal::Quit },
        CoordinatorCommand::Signal { signal: UnixSignal::Term },
        CoordinatorCommand::Resize { rows: 1, cols: 65_535 },
        CoordinatorCommand::Suspend,
        CoordinatorCommand::Resume { rows: 258, cols: 3 },
        CoordinatorCommand::TerminalRestored,
        CoordinatorCommand::TerminalArmAccepted,
    ]
}

fn reaped(tui: ChildDisposition, exit: GuardianExitDisposition) -> GuardianEvent {
    GuardianEvent::ChildrenReaped {
        app: ChildDisposition::Exited { code: 0, stop_action: StopAction::Term },
        tui,
        worker: WorkerJoinStatus::JoinedClean,
        cleanup: CleanupStatus::Complete,
        session: SessionStatus::Completed,
        guardian_exit: exit,
    }
}

fn events() -> Vec<GuardianEvent> {
    vec![
        GuardianEvent::LeaseCommitted,
        started(ChildRole::AppServer, 1),
        started(ChildRole::Tui, i32::MAX),
        GuardianEvent::Ready,
        GuardianEvent::Failed { phase: Phase::Cleanup, code: FailureCode::CleanupMismatch },
        reaped(
            ChildDisposition::Signaled {
                signal: 127,
                core_dumped: true,
                stop_action: StopAction::Kill,
            },
            GuardianExitDisposition::Signal(127),
        ),
        armed(),
        GuardianEvent::InputGateOpened,
        GuardianEvent::SignalForwarded { signal: UnixSignal::Quit },
        GuardianEvent::ResizeApplied { rows: 24, cols: 80 },
        GuardianEvent::Suspended,
        GuardianEvent::Resumed { rows: 24, cols: 80 },
        GuardianEvent::TerminalQuiesced,
        GuardianEvent::TerminalRecoveryDisarmed,
    ]
}

fn event_bytes(event: GuardianEvent) -> Vec<u8> {
    match framing::send_guardian_event(event, at(1)) {
        Ok(sender) => sender.write.remaining().to_vec(),
        Err(_) => panic!("the event can be written"),
    }
}

/// Feeds a wire in pieces of at most `piece` bytes and with `refusals` refused
/// reads before each of them. Gives the outcome and how much was taken.
fn receive_in_pieces(
    wire: &[u8],
    piece: usize,
    refusals: usize,
) -> (Result<GuardianEvent, ProtocolError>, usize) {
    let mut frame = FrameReceiver::new(GUARDIAN_DIRECTION, at(u64::MAX));
    let mut taken = 0_usize;
    let mut refused = 0_usize;
    let mut clock = 0_u64;
    let mut action = match frame.step() {
        TransferStep::Next(action) => action,
        TransferStep::Done(_) => panic!("a frame cannot begin done"),
    };
    loop {
        let event = match action {
            WireAction::ReadClock => {
                clock += 1;
                WireEvent::Clock(at(clock))
            }
            WireAction::Read { .. } if refused < refusals => {
                refused += 1;
                if refused % 2 == 0 { WireEvent::NotReady } else { WireEvent::Interrupted }
            }
            WireAction::Read { limit } => {
                refused = 0;
                let count = limit.min(piece).min(wire.len() - taken);
                let buffer = wire[taken..taken + count].to_vec();
                taken += count;
                WireEvent::Read { buffer, count }
            }
            _ => WireEvent::Yielded,
        };
        match framing::receive_guardian_event(&mut frame, &event) {
            TransferStep::Next(next) => action = next,
            TransferStep::Done(outcome) => return (outcome, taken),
        }
    }
}

// ---------------------------------------------------------------------------
// The wire.
// ---------------------------------------------------------------------------

#[test]
fn every_command_has_exactly_one_spelling() {
    let mut spelled = Vec::new();
    for command in commands() {
        let (message_type, body) = match encode_command(command) {
            Ok(encoded) => encoded,
            Err(_) => panic!("the command can be written"),
        };
        let frame = ReceivedFrame { message_type, body: body.clone() };
        assert_eq!(decode_command(&frame), Ok(command));
        assert!(!spelled.contains(&(message_type, body.clone())));
        for index in 0..body.len() {
            for flipped in 0..=255_u8 {
                let mut other = body.clone();
                other[index] = flipped;
                let other = ReceivedFrame { message_type, body: other };
                if let Ok(read) = decode_command(&other) {
                    assert_eq!(encode_command(read), Ok((message_type, other.body.clone())));
                }
            }
        }
        spelled.push((message_type, body));
    }
}

#[test]
fn every_event_has_exactly_one_spelling() {
    let mut spelled = Vec::new();
    for event in events() {
        let (message_type, body) = match encode_event(event) {
            Ok(encoded) => encoded,
            Err(_) => panic!("the event can be written"),
        };
        let frame = ReceivedFrame { message_type, body: body.clone() };
        assert!(decode_event(&frame) == Ok(event));
        assert!(!spelled.contains(&(message_type, body.clone())));
        for index in 0..body.len() {
            for flipped in [0_u8, 1, 2, 3, 127, 128, 255] {
                let mut other = body.clone();
                other[index] = flipped;
                let other = ReceivedFrame { message_type, body: other };
                if let Ok(read) = decode_event(&other) {
                    assert_eq!(encode_event(read), Ok((message_type, other.body.clone())));
                }
            }
        }
        spelled.push((message_type, body));
    }
}

#[test]
fn an_event_depends_on_the_bytes_alone_and_later_bytes_stay_unread() {
    for event in events() {
        let mut wire = event_bytes(event);
        let length = wire.len();
        wire.extend_from_slice(b"later bytes");
        for (piece, refusals) in [(1, 0), (3, 4), (64, 1), (7, 3)] {
            let (outcome, taken) = receive_in_pieces(&wire, piece, refusals);
            assert!(outcome == Ok(event));
            assert_eq!(taken, length);
        }
    }
}

#[test]
fn fixture_frames_are_refused() {
    let malformed = framing::send_fixture_malformed_guardian_frame(at(1));
    let (outcome, _) = receive_in_pieces(malformed.write.remaining(), 64, 0);
    assert!(outcome == Err(ProtocolError::BadMagic));

    let trailing = match framing::send_fixture_trailing_terminal_armed(
        TerminalSnapshotFingerprint::from_digest([0x11; 32]),
        at(1),
    ) {
        Ok(sender) => sender,
        Err(_) => panic!("the frame is short enough"),
    };
    let (outcome, _) = receive_in_pieces(trailing.write.remaining(), 64, 0);
    assert!(outcome == Err(ProtocolError::TrailingData));
}

#[test]
fn a_late_clock_ends_a_receive_whatever_has_arrived() {
    let wire = event_bytes(GuardianEvent::Ready);
    for arrived in 0..wire.len() {
        let mut frame = FrameReceiver::new(GUARDIAN_DIRECTION, at(10));
        let mut taken = 0_usize;
        let mut step = match frame.step() {
            TransferStep::Next(action) => action,
            TransferStep::Done(_) => panic!("a frame cannot begin done"),
        };
        let outcome = loop {
            let event = match step {
                WireAction::ReadClock => WireEvent::Clock(at(if taken < arrived { 9 } else { 10 })),
                WireAction::Read { limit } => {
                    let count = limit.min(1);
                    let buffer = wire[taken..taken + count].to_vec();
                    taken += count;
                    WireEvent::Read { buffer, count }
                }
                _ => WireEvent::Yielded,
            };
            match framing::receive_guardian_event(&mut frame, &event) {
                TransferStep::Next(next) => step = next,
                TransferStep::Done(outcome) => break outcome,
            }
        };
        assert!(outcome == Err(ProtocolError::Timeout));
    }
}

#[test]
fn a_channel_that_fails_or_lies_is_an_io_error() {
    for event in [
        WireEvent::Failed,
        WireEvent::Read { buffer: vec![0; 4], count: 9 },
        WireEvent::Read { buffer: vec![0; 2], count: 3 },
    ] {
        let mut frame = FrameReceiver::new(COORDINATOR_DIRECTION, at(10));
        let begun = framing::receive_coordinator_command(&mut frame, &WireEvent::Clock(at(0)));
        assert!(matches!(begun, TransferStep::Next(WireAction::Read { limit: 8 })));
        let step = framing::receive_coordinator_command(&mut frame, &event);
        assert!(matches!(step, TransferStep::Done(Err(ProtocolError::Io))));
    }
}

#[test]
fn an_unwritable_channel_never_loses_or_repeats_a_byte() {
    let mut sender = match framing::send_coordinator_command(
        CoordinatorCommand::Resume { rows: 7, cols: 9 },
        at(100),
    ) {
        Ok(sender) => sender,
        Err(_) => panic!("the command can be written"),
    };
    let expected = sender.write.remaining().to_vec();
    let mut written = Vec::new();
    let mut turn = 0_usize;
    let mut step = sender.step();
    let outcome = loop {
        let event = match step {
            TransferStep::Done(outcome) => break outcome,
            TransferStep::Next(WireAction::ReadClock) => WireEvent::Clock(at(1)),
            TransferStep::Next(WireAction::Write { offset }) => {
                assert_eq!(offset, written.len());
                turn += 1;
                match turn % 3 {
                    0 => WireEvent::NotReady,
                    1 => WireEvent::Interrupted,
                    _ => {
                        let count = 2.min(sender.write.remaining().len());
                        written.extend_from_slice(&sender.write.remaining()[..count]);
                        WireEvent::Wrote(count)
                    }
                }
            }
            TransferStep::Next(WireAction::Flush) => WireEvent::Flushed,
            TransferStep::Next(_) => WireEvent::Yielded,
        };
        step = sender.advance(&event);
    };
    assert_eq!(outcome, Ok(()));
    assert_eq!(written, expected);
}

// ---------------------------------------------------------------------------
// The transcript.
// ---------------------------------------------------------------------------

#[test]
fn both_ends_of_a_whole_session_agree() {
    enum Step {
        Command(CoordinatorCommand),
        Event(GuardianEvent),
    }
    let end = reaped(
        ChildDisposition::Exited { code: 0, stop_action: StopAction::NoAction },
        GuardianExitDisposition::Code(0),
    );
    let steps = [
        Step::Event(GuardianEvent::LeaseCommitted),
        Step::Command(CoordinatorCommand::Start),
        Step::Event(armed()),
        Step::Command(CoordinatorCommand::TerminalArmAccepted),
        Step::Event(started(ChildRole::AppServer, 10)),
        Step::Event(started(ChildRole::Tui, 20)),
        Step::Event(GuardianEvent::Ready),
        Step::Command(CoordinatorCommand::OpenInputGate),
        Step::Event(GuardianEvent::InputGateOpened),
        Step::Command(CoordinatorCommand::Suspend),
        Step::Event(GuardianEvent::Suspended),
        Step::Command(CoordinatorCommand::Resume { rows: 3, cols: 4 }),
        Step::Event(GuardianEvent::Resumed { rows: 3, cols: 4 }),
        Step::Command(CoordinatorCommand::OpenInputGate),
        Step::Event(GuardianEvent::InputGateOpened),
        Step::Event(GuardianEvent::TerminalQuiesced),
        Step::Command(CoordinatorCommand::TerminalRestored),
        Step::Event(GuardianEvent::TerminalRecoveryDisarmed),
        Step::Event(end),
    ];
    let mut coordinator = CoordinatorReceiver::new_terminal("coordinator wire");
    let mut guardian = GuardianCommandReceiver::new_terminal("guardian wire");
    for step in steps {
        match step {
            Step::Command(command) => {
                assert_eq!(coordinator.record_command(command), Ok(()));
                assert_eq!(guardian.receive(Ok(command)), Ok(command));
            }
            Step::Event(event) => {
                assert_eq!(guardian.record_event(event), Ok(()));
                assert!(coordinator.receive(Ok(event)) == Ok(event));
            }
        }
        assert_eq!(coordinator.input_gate_opened(), guardian.input_gate_opened());
        assert_eq!(coordinator.terminal_received(), guardian.terminal_received());
    }
    assert!(coordinator.terminal_received());
    assert_eq!((*coordinator.wire(), *guardian.wire()), ("coordinator wire", "guardian wire"));
    let exit = match coordinator.take_verified_exit_disposition() {
        Ok(exit) => exit.into_disposition(),
        Err(_) => panic!("the exit disposition is there once"),
    };
    assert_eq!(exit, GuardianExitDisposition::Code(0));
    assert!(coordinator.take_verified_exit_disposition().is_err());
    assert!(guardian.take_verified_exit_disposition().is_ok());
    assert!(guardian.take_verified_exit_disposition().is_err());
}

fn active() -> TerminalLifecycleValidator {
    let mut validator = TerminalLifecycleValidator::before_start();
    assert_eq!(validator.accept_event(GuardianEvent::LeaseCommitted), Ok(()));
    assert!(validator.accept_command(CoordinatorCommand::Start).is_ok());
    assert_eq!(validator.accept_event(armed()), Ok(()));
    assert!(validator.accept_command(CoordinatorCommand::TerminalArmAccepted).is_ok());
    assert_eq!(validator.accept_event(started(ChildRole::AppServer, 10)), Ok(()));
    assert_eq!(validator.accept_event(started(ChildRole::Tui, 20)), Ok(()));
    assert_eq!(validator.accept_event(GuardianEvent::Ready), Ok(()));
    assert!(validator.accept_command(CoordinatorCommand::OpenInputGate).is_ok());
    assert!(!validator.input_gate_opened());
    assert_eq!(validator.accept_event(GuardianEvent::InputGateOpened), Ok(()));
    assert!(validator.input_gate_opened());
    validator
}

#[test]
fn a_refused_message_changes_nothing() {
    let mut validator = active();
    let before = format!("{validator:?}");
    for event in [
        GuardianEvent::LeaseCommitted,
        armed(),
        GuardianEvent::Ready,
        GuardianEvent::InputGateOpened,
        GuardianEvent::Suspended,
        GuardianEvent::TerminalRecoveryDisarmed,
    ] {
        assert!(validator.accept_event(event).is_err());
        assert_eq!(format!("{validator:?}"), before);
    }
    for command in [
        CoordinatorCommand::Start,
        CoordinatorCommand::TerminalArmAccepted,
        CoordinatorCommand::OpenInputGate,
        CoordinatorCommand::Resume { rows: 1, cols: 1 },
        CoordinatorCommand::TerminalRestored,
        CoordinatorCommand::Resize { rows: 0, cols: 1 },
    ] {
        assert!(validator.accept_command(command).is_err());
        assert_eq!(format!("{validator:?}"), before);
    }
}

#[test]
fn a_failure_is_permanent_and_closes_the_input() {
    let mut validator = active();
    assert_eq!(validator.accept_failure(Phase::Pump, FailureCode::Pump), Ok(()));
    assert!(!validator.input_gate_opened());
    assert!(validator.accept_failure(Phase::Worker, FailureCode::Worker).is_err());
    assert_eq!(validator.failure, Some((Phase::Pump, FailureCode::Pump)));
    assert_eq!(validator.accept_event(GuardianEvent::TerminalQuiesced), Ok(()));
    assert!(validator.accept_command(CoordinatorCommand::TerminalRestored).is_ok());
    assert_eq!(validator.accept_event(GuardianEvent::TerminalRecoveryDisarmed), Ok(()));
    let completed = reaped(
        ChildDisposition::Exited { code: 0, stop_action: StopAction::NoAction },
        GuardianExitDisposition::Code(0),
    );
    assert_eq!(validator.accept_event(completed), Err(ProtocolError::InvalidValue));
    assert_eq!(validator.failure, Some((Phase::Pump, FailureCode::Pump)));
    assert!(!validator.terminal_received());
}

#[test]
fn nothing_follows_the_terminal_frame() {
    let mut validator = active();
    assert_eq!(validator.accept_event(GuardianEvent::TerminalQuiesced), Ok(()));
    assert!(validator.accept_command(CoordinatorCommand::TerminalRestored).is_ok());
    assert_eq!(validator.accept_event(GuardianEvent::TerminalRecoveryDisarmed), Ok(()));
    let completed = reaped(
        ChildDisposition::Exited { code: 0, stop_action: StopAction::NoAction },
        GuardianExitDisposition::Code(0),
    );
    assert_eq!(validator.accept_event(completed), Ok(()));
    assert!(validator.terminal_received());
    for event in events() {
        assert!(validator.accept_event(event).is_err());
    }
    for command in commands() {
        assert!(validator.accept_command(command).is_err());
    }
    assert_eq!(
        validator.take_terminal_exit_disposition(),
        Some(GuardianExitDisposition::Code(0))
    );
    assert_eq!(validator.take_terminal_exit_disposition(), None);
}

#[test]
fn a_poisoned_receiver_refuses_everything() {
    let mut guardian = GuardianCommandReceiver::new_terminal(());
    assert_eq!(guardian.receive(Err(ProtocolError::Io)), Err(ProtocolError::Io));
    for command in commands() {
        assert_eq!(guardian.receive(Ok(command)), Err(ProtocolError::UnexpectedState));
    }
    for event in events() {
        assert_eq!(guardian.record_event(event), Err(ProtocolError::UnexpectedState));
    }
    assert!(guardian.begin_receive(at(1)).is_err());
    assert!(guardian.arm_recovery_command_race().is_err());

    let mut guardian = GuardianCommandReceiver::new_terminal(());
    assert!(guardian.record_and_send(GuardianEvent::LeaseCommitted, at(1)).is_ok());
    assert_eq!(guardian.finish_send(Ok(())), Ok(()));
    assert_eq!(guardian.receive(Ok(CoordinatorCommand::Start)), Ok(CoordinatorCommand::Start));
    assert_eq!(guardian.finish_send(Err(ProtocolError::Timeout)), Err(ProtocolError::Timeout));
    assert_eq!(guardian.record_event(armed()), Err(ProtocolError::UnexpectedState));

    let mut coordinator = CoordinatorReceiver::new_terminal(());
    assert!(coordinator.receive(Err(ProtocolError::Timeout)) == Err(ProtocolError::Timeout));
    for event in events() {
        assert!(coordinator.receive(Ok(event)) == Err(ProtocolError::UnexpectedState));
    }
    for command in commands() {
        assert_eq!(coordinator.record_command(command), Err(ProtocolError::UnexpectedState));
        assert!(coordinator.record_and_send(command, at(1)).is_err());
    }
    assert!(coordinator.begin_terminal_eof(at(1)).is_err());
}

// ---------------------------------------------------------------------------
// What the end means.
// ---------------------------------------------------------------------------

#[test]
fn a_session_completes_only_with_clean_children() {
    let drained = ChildDisposition::Exited { code: 0, stop_action: StopAction::Term };
    let natural = ChildDisposition::Exited { code: 0, stop_action: StopAction::NoAction };
    let cause = SessionTerminationCause::NaturalTuiEof;
    let internal = (SessionStatus::Failed, GuardianExitDisposition::InternalFailure);
    let clean = WorkerJoinStatus::JoinedClean;
    assert_eq!(
        project_terminal_semantics(drained, natural, clean, cause),
        (SessionStatus::Completed, GuardianExitDisposition::Code(0))
    );
    for worker in [WorkerJoinStatus::JoinedFailed, WorkerJoinStatus::NotStarted] {
        assert_eq!(project_terminal_semantics(drained, natural, worker, cause), internal);
    }
    for app in [
        ChildDisposition::NotStarted,
        ChildDisposition::Exited { code: 1, stop_action: StopAction::Term },
        ChildDisposition::Exited { code: 0, stop_action: StopAction::Kill },
        ChildDisposition::Signaled {
            signal: 15,
            core_dumped: true,
            stop_action: StopAction::Term,
        },
        ChildDisposition::Signaled {
            signal: 9,
            core_dumped: false,
            stop_action: StopAction::Term,
        },
    ] {
        assert_eq!(project_terminal_semantics(app, natural, clean, cause), internal);
    }
    for tui in [
        ChildDisposition::NotStarted,
        ChildDisposition::Exited { code: 0, stop_action: StopAction::Kill },
        ChildDisposition::Signaled {
            signal: 9,
            core_dumped: false,
            stop_action: StopAction::Kill,
        },
    ] {
        for cause in [
            SessionTerminationCause::NaturalTuiEof,
            SessionTerminationCause::CoordinatorStop,
            SessionTerminationCause::ForwardedHup,
            SessionTerminationCause::ForwardedTerm,
        ] {
            assert_eq!(project_terminal_semantics(drained, tui, clean, cause), internal);
        }
    }
}

#[test]
fn the_guardian_repeats_the_exit_of_the_tui() {
    let drained = ChildDisposition::Exited { code: 0, stop_action: StopAction::Term };
    let clean = WorkerJoinStatus::JoinedClean;
    let signaled = |signal| ChildDisposition::Signaled {
        signal,
        core_dumped: false,
        stop_action: StopAction::NoAction,
    };
    assert_eq!(
        project_terminal_semantics(
            drained,
            signaled(11),
            clean,
            SessionTerminationCause::NaturalTuiEof,
        ),
        (SessionStatus::Failed, GuardianExitDisposition::Signal(11))
    );
    assert_eq!(
        project_terminal_semantics(
            drained,
            signaled(15),
            clean,
            SessionTerminationCause::ForwardedTerm,
        ),
        (SessionStatus::Completed, GuardianExitDisposition::Signal(15))
    );
    assert_eq!(
        project_terminal_semantics(
            drained,
            ChildDisposition::Exited { code: 42, stop_action: StopAction::NoAction },
            clean,
            SessionTerminationCause::ForwardedHup,
        ),
        (SessionStatus::Failed, GuardianExitDisposition::Code(42))
    );
}

#[test]
fn projected_dispositions_can_always_be_written() {
    for (code, clamped) in [(-1, 0), (0, 0), (7, 7), (255, 255), (256, 255), (i32::MAX, 255)] {
        assert_eq!(bounded_exit_code(code), clamped);
    }
    for (signal, known) in
        [(None, 127), (Some(0), 127), (Some(-3), 127), (Some(9), 9), (Some(127), 127), (Some(128), 127)]
    {
        assert_eq!(bounded_signal(signal), known);
    }
    for (code, signal) in [(Some(i32::MIN), None), (Some(300), None), (None, Some(0)), (None, None)] {
        for stop_action in [StopAction::NoAction, StopAction::Term, StopAction::Kill] {
            let projected =
                project_disposition(ExitStatus { code, signal, core_dumped: true }, stop_action);
            let mut bytes = [0_u8; CHILD_DISPOSITION_BYTES];
            assert_eq!(encode_child_disposition(projected, &mut bytes), Ok(()));
            assert_eq!(decode_child_disposition(&bytes), Ok(projected));
        }
    }
    assert_eq!(
        observed_waitid_disposition(WaitStatus {
            stopped: false,
            exited: true,
            killed: false,
            dumped: false,
            exit_status: None,
            terminating_signal: None,
        }),
        ChildDisposition::Exited { code: 0, stop_action: StopAction::NoAction }
    );
}

// ---------------------------------------------------------------------------
// The children.
// ---------------------------------------------------------------------------

#[test]
fn the_first_error_is_kept() {
    let mut first = None;
    record_first_error(&mut first, ProcessError::Deadline);
    record_first_error(&mut first, ProcessError::RetryAfterResolution);
    assert_eq!(first, Some(ProcessError::Deadline));
}

#[test]
fn an_app_server_is_signalled_once_and_only_at_its_leader() {
    let mut app = ManagedGroupChild {
        handle: (),
        state: ChildState::publish(
            ChildRole::AppServer,
            ChildAuthority::for_test(1),
            30,
            false,
            GroupContainmentPolicy::ProductionStrict,
        ),
    };
    let mut sent = Vec::new();
    for _ in 0..2 {
        let mut termination = begin_termination(&mut app.state, at(1_000));
        while let Some(action) = termination.action() {
            let event = match action {
                ChildAction::SignalLeader(signal) => {
                    sent.push(signal);
                    ChildEvent::Signaled(Ok(()))
                }
                ChildAction::WaitExit => ChildEvent::Waited(Ok(None)),
                ChildAction::WaitStoppedOrExit | ChildAction::ConsumeStop => {
                    ChildEvent::Waited(Ok(Some(WaitStatus {
                        stopped: true,
                        exited: false,
                        killed: false,
                        dumped: false,
                        exit_status: None,
                        terminating_signal: None,
                    })))
                }
                ChildAction::ReadClock => ChildEvent::Clock(at(1)),
                _ => panic!("an App Server gets no other action"),
            };
            termination.advance(&mut app.state, event);
        }
        assert!(matches!(termination, Termination::App(_)));
    }
    assert_eq!(sent, [Signal::Stop, Signal::Term, Signal::Cont]);
}
