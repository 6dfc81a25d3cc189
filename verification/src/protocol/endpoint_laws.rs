//! What holds of both ends of the lifecycle wire.
use vstd::prelude::*;

use crate::clock::Moment;
use crate::protocol::coordinator::{
    awaited_event, CoordinatorState, CoordinatorTranscript, EofState,
};
use crate::protocol::guardian::{
    awaited_command, GuardianCommandState, GuardianTranscript, OpenGateCommandCycle,
};
use crate::protocol::lifecycle::{
    TerminalCommandAcceptance, TerminalLifecycleState, TerminalLifecycleValidator,
};
use crate::protocol::message::{
    ChildDisposition, ChildRole, CleanupStatus, CoordinatorCommand, FailureCode, GuardianEvent,
    GuardianExitDisposition, Phase, ProtocolError, SessionStatus, UnixSignal, WorkerJoinStatus,
};
use crate::protocol::transfer::{TransferStep, WireAction, WireEvent};

verus! {

// ---------------------------------------------------------------------------
// A session without a terminal.
// ---------------------------------------------------------------------------

/// The events of a session without a terminal come in one order: lease, App
/// Server, TUI, readiness, and the end. A child counts as started only if it
/// leads its own group. A failure may come once, before the end. Everything else
/// is out of place.
pub proof fn law_plain_events_come_in_order(transcript: CoordinatorTranscript, event: GuardianEvent)
    ensures
        ({
            let next = transcript.after_plain_event(event);
            let state = transcript.state;
            match event {
                GuardianEvent::LeaseCommitted => {
                    &&& next is Ok <==> state == CoordinatorState::AwaitLease
                    &&& next matches Ok(next) ==> next == (CoordinatorTranscript {
                        lease_committed: true,
                        state: CoordinatorState::AwaitApp,
                        ..transcript
                    })
                    &&& next matches Err(error) ==> error == ProtocolError::UnexpectedState
                },
                GuardianEvent::ChildStarted { role, pid, pgid } => {
                    let place = match role {
                        ChildRole::AppServer => CoordinatorState::AwaitApp,
                        ChildRole::Tui => CoordinatorState::AwaitTui,
                    };
                    &&& next is Ok <==> state == place && pid > 0 && pgid == pid
                    &&& state == place && !(pid > 0 && pgid == pid) ==> next == Err::<
                        CoordinatorTranscript,
                        ProtocolError,
                    >(ProtocolError::InvalidValue)
                    &&& state != place ==> next == Err::<CoordinatorTranscript, ProtocolError>(
                        ProtocolError::UnexpectedState,
                    )
                    &&& next matches Ok(next) ==> next == (match role {
                        ChildRole::AppServer => CoordinatorTranscript {
                            app_started: true,
                            state: CoordinatorState::AwaitTui,
                            ..transcript
                        },
                        ChildRole::Tui => CoordinatorTranscript {
                            tui_started: true,
                            state: CoordinatorState::AwaitReady,
                            ..transcript
                        },
                    })
                },
                GuardianEvent::Ready => {
                    &&& next is Ok <==> state == CoordinatorState::AwaitReady
                    &&& next matches Ok(next) ==> next == (CoordinatorTranscript {
                        state: CoordinatorState::Ready,
                        ..transcript
                    })
                    &&& next matches Err(error) ==> error == ProtocolError::UnexpectedState
                },
                GuardianEvent::Failed { phase, code } => {
                    &&& next is Ok <==> state != CoordinatorState::Failed && state
                        != CoordinatorState::Terminal
                    &&& next matches Ok(next) ==> next == (CoordinatorTranscript {
                        failure: Some((phase, code)),
                        state: CoordinatorState::Failed,
                        ..transcript
                    })
                    &&& next matches Err(error) ==> error == ProtocolError::UnexpectedState
                },
                GuardianEvent::ChildrenReaped { .. } => {
                    &&& next is Ok ==> state == CoordinatorState::Ready || state
                        == CoordinatorState::Failed
                    &&& next matches Ok(next) ==> next == (CoordinatorTranscript {
                        state: CoordinatorState::Terminal,
                        ..transcript
                    })
                    &&& state != CoordinatorState::Ready && state != CoordinatorState::Failed
                        ==> next == Err::<CoordinatorTranscript, ProtocolError>(
                        ProtocolError::UnexpectedState,
                    )
                },
                _ => next == Err::<CoordinatorTranscript, ProtocolError>(
                    ProtocolError::UnexpectedState,
                ),
            }
        }),
{
}

/// The last frame of a session that came to readiness without a failure is taken
/// exactly if both children are reported as ended, the worker was joined clean,
/// the session completed, and the guardian ends with code zero.
pub proof fn law_plain_session_ends_clean(
    transcript: CoordinatorTranscript,
    app: ChildDisposition,
    tui: ChildDisposition,
    worker: WorkerJoinStatus,
    cleanup: CleanupStatus,
    session: SessionStatus,
    guardian_exit: GuardianExitDisposition,
)
    requires
        transcript.state == CoordinatorState::Ready,
        transcript.failure is None,
        transcript.lease_committed && transcript.app_started && transcript.tui_started,
    ensures
        ({
            let event = GuardianEvent::ChildrenReaped {
                app,
                tui,
                worker,
                cleanup,
                session,
                guardian_exit,
            };
            let next = transcript.after_plain_event(event);
            &&& next is Ok <==> {
                &&& app != ChildDisposition::NotStarted
                &&& tui != ChildDisposition::NotStarted
                &&& worker == WorkerJoinStatus::JoinedClean
                &&& session == SessionStatus::Completed
                &&& guardian_exit == GuardianExitDisposition::Code(0)
            }
            &&& next matches Err(error) ==> error == ProtocolError::InvalidValue
        }),
{
}

/// The last frame of a session that failed is taken exactly if it reports the
/// children that were started and no others, a worker wherever a TUI was
/// started, a failed session, and an internal failure of the guardian. A failed
/// cleanup has no last frame at all.
pub proof fn law_plain_session_ends_failed(
    transcript: CoordinatorTranscript,
    phase: Phase,
    code: FailureCode,
    app: ChildDisposition,
    tui: ChildDisposition,
    worker: WorkerJoinStatus,
    cleanup: CleanupStatus,
    session: SessionStatus,
    guardian_exit: GuardianExitDisposition,
)
    requires
        transcript.state == CoordinatorState::Failed,
        transcript.failure == Some((phase, code)),
    ensures
        ({
            let event = GuardianEvent::ChildrenReaped {
                app,
                tui,
                worker,
                cleanup,
                session,
                guardian_exit,
            };
            let next = transcript.after_plain_event(event);
            let children = (app != ChildDisposition::NotStarted <==> transcript.app_started) && (tui
                != ChildDisposition::NotStarted <==> transcript.tui_started) && (tui
                != ChildDisposition::NotStarted ==> worker != WorkerJoinStatus::NotStarted);
            let unclean = phase == Phase::Cleanup || code == FailureCode::CleanupMismatch;
            &&& next is Ok <==> children && !unclean && session == SessionStatus::Failed
                && guardian_exit == GuardianExitDisposition::InternalFailure
            &&& !children ==> next == Err::<CoordinatorTranscript, ProtocolError>(
                ProtocolError::InvalidValue,
            )
            &&& children && unclean ==> next == Err::<CoordinatorTranscript, ProtocolError>(
                ProtocolError::UnexpectedState,
            )
            &&& children && !unclean && next is Err ==> next == Err::<
                CoordinatorTranscript,
                ProtocolError,
            >(ProtocolError::InvalidValue)
        }),
{
}

/// A session without a terminal runs from its lease to its clean end, whatever
/// its children's numbers and however they ended.
pub proof fn law_plain_session_runs_through(
    app_pid: i32,
    tui_pid: i32,
    app: ChildDisposition,
    tui: ChildDisposition,
    cleanup: CleanupStatus,
)
    requires
        app_pid > 0,
        tui_pid > 0,
        app != ChildDisposition::NotStarted,
        tui != ChildDisposition::NotStarted,
    ensures
        ({
            let a = CoordinatorTranscript::start(None);
            let b = a.after_receive(Ok(GuardianEvent::LeaseCommitted));
            let c = b.0.after_receive(
                Ok(
                    GuardianEvent::ChildStarted {
                        role: ChildRole::AppServer,
                        pid: app_pid,
                        pgid: app_pid,
                    },
                ),
            );
            let d = c.0.after_receive(
                Ok(
                    GuardianEvent::ChildStarted {
                        role: ChildRole::Tui,
                        pid: tui_pid,
                        pgid: tui_pid,
                    },
                ),
            );
            let e = d.0.after_receive(Ok(GuardianEvent::Ready));
            let f = e.0.after_receive(
                Ok(
                    GuardianEvent::ChildrenReaped {
                        app,
                        tui,
                        worker: WorkerJoinStatus::JoinedClean,
                        cleanup,
                        session: SessionStatus::Completed,
                        guardian_exit: GuardianExitDisposition::Code(0),
                    },
                ),
            );
            &&& !a.ended() && !e.0.ended()
            &&& b.1 is Ok && c.1 is Ok && d.1 is Ok && e.1 is Ok && f.1 is Ok
            &&& f.0.ended()
        }),
{
}

/// A guardian without a terminal takes one start and then one stop, and nothing
/// else; after the stop it takes nothing more.
pub proof fn law_plain_guardian_starts_then_stops(
    transcript: GuardianTranscript,
    command: CoordinatorCommand,
)
    requires
        transcript.terminal is None,
        !transcript.poisoned,
    ensures
        ({
            let (next, answer) = transcript.after_receive(Ok(command));
            &&& answer is Ok <==> {
                ||| transcript.state == GuardianCommandState::AwaitStart && command is Start
                ||| transcript.state == GuardianCommandState::Started && command is Stop
            }
            &&& answer matches Ok(taken) ==> taken == command && !next.poisoned
            &&& answer matches Err(error) ==> error == ProtocolError::UnexpectedState
            &&& answer is Ok && command is Start ==> next.state == GuardianCommandState::Started
                && !next.ended()
            &&& answer is Ok && command is Stop ==> next.state == GuardianCommandState::Stopped
                && next.ended()
        }),
        GuardianTranscript::start(None).state == GuardianCommandState::AwaitStart,
        !GuardianTranscript::start(None).poisoned,
{
}

/// Both ends begin with nothing seen, nothing wrong and nothing to take.
pub proof fn law_fresh_ends_hold_nothing(
    terminal: Option<TerminalLifecycleValidator>,
    cycle: OpenGateCommandCycle,
)
    requires
        terminal matches Some(validator) ==> validator.terminal_exit_disposition is None,
    ensures
        ({
            let fresh = CoordinatorTranscript::start(terminal);
            &&& fresh.terminal == terminal
            &&& fresh.state == CoordinatorState::AwaitLease
            &&& !fresh.lease_committed && !fresh.app_started && !fresh.tui_started
            &&& fresh.failure is None
            &&& !fresh.poisoned && !fresh.eof_verified
            &&& !fresh.taking_ready().1 && !fresh.taking_gate_ack().1
            &&& fresh.taking_exit().1 is None
        }),
        ({
            let fresh = GuardianTranscript::start(terminal);
            &&& fresh.terminal == terminal
            &&& fresh.state == GuardianCommandState::AwaitStart
            &&& !fresh.poisoned
            &&& !fresh.taking_gate(cycle).1 && !fresh.taking_suspend().1
                && !fresh.taking_restored().1
            &&& fresh.taking_resume().1 is None && fresh.taking_resize().1 is None
            &&& fresh.taking_exit().1 is None
        }),
{
}

/// What an end that still listens records moves its transcript as the session
/// itself moves: a command at the coordinator and an event at the guardian are
/// recorded exactly if the session takes them, and refused with its own error.
/// Without a terminal neither end records anything.
pub proof fn law_recorded_message_moves_the_session(
    coordinator: CoordinatorTranscript,
    guardian: GuardianTranscript,
    command: CoordinatorCommand,
    event: GuardianEvent,
)
    requires
        !coordinator.poisoned && !coordinator.ended(),
        !guardian.poisoned,
    ensures
        ({
            let (next, answer) = coordinator.after_command(command);
            match coordinator.terminal {
                None => next.poisoned && answer == Err::<(), ProtocolError>(
                    ProtocolError::UnexpectedState,
                ),
                Some(validator) => match validator.after_command(command) {
                    Ok((moved, _)) => answer is Ok && next.terminal == Some(moved)
                        && !next.poisoned && next.eof_verified == coordinator.eof_verified,
                    Err(error) => answer == Err::<(), ProtocolError>(error) && next.poisoned
                        && next.terminal == coordinator.terminal,
                },
            }
        }),
        ({
            let (next, answer) = guardian.after_event(event);
            match guardian.terminal {
                None => next.poisoned && answer == Err::<(), ProtocolError>(
                    ProtocolError::UnexpectedState,
                ),
                Some(validator) => match validator.after_event(event) {
                    Ok(moved) => answer is Ok && next.terminal == Some(moved) && !next.poisoned
                        && next.state == guardian.state,
                    Err(error) => answer == Err::<(), ProtocolError>(error) && next.poisoned
                        && next.terminal == guardian.terminal,
                },
            }
        }),
{
}

/// Recovery is selected at the guardian exactly if the session allows it; a
/// refused selection poisons nothing, and the session stays where it was.
pub proof fn law_recovery_selection_does_not_poison(
    guardian: GuardianTranscript,
    validator: TerminalLifecycleValidator,
)
    requires
        guardian.terminal == Some(validator),
        !guardian.closed_to_commands(),
    ensures
        ({
            let (next, answer) = guardian.after_arming_recovery();
            &&& !next.poisoned
            &&& match validator.after_arming_recovery() {
                Ok(moved) => answer is Ok && next.terminal == Some(moved),
                Err(error) => answer == Err::<(), ProtocolError>(error) && next.terminal == Some(
                    validator,
                ),
            }
        }),
{
}

/// What comes off a broken wire is told as the wire tells it, and poisons the
/// end that was listening; the session stays where it was.
pub proof fn law_broken_wire_poisons(
    coordinator: CoordinatorTranscript,
    guardian: GuardianTranscript,
    error: ProtocolError,
)
    requires
        !coordinator.poisoned && !coordinator.ended(),
        !guardian.closed_to_commands(),
    ensures
        ({
            let (next, answer) = coordinator.after_receive(Err(error));
            &&& answer == Err::<GuardianEvent, ProtocolError>(error)
            &&& next.poisoned && next.terminal == coordinator.terminal && next.state
                == coordinator.state
        }),
        ({
            let (next, answer) = guardian.after_receive(Err(error));
            &&& answer == Err::<CoordinatorCommand, ProtocolError>(error)
            &&& next.poisoned && next.terminal == guardian.terminal && next.state
                == guardian.state
        }),
{
}

// ---------------------------------------------------------------------------
// Proofs.
// ---------------------------------------------------------------------------

/// An event that the coordinator takes is handed on as it is. Right after it the
/// readiness proof is there exactly if the event was a readiness, first or
/// after a resume, and the acknowledgement exactly if the input gate was opened.
pub proof fn law_event_mints_its_proof(
    transcript: CoordinatorTranscript,
    validator: TerminalLifecycleValidator,
    event: GuardianEvent,
)
    requires
        transcript.terminal == Some(validator),
        !transcript.poisoned,
        validator.state != TerminalLifecycleState::Terminal,
        validator.after_event(event) is Ok,
    ensures
        ({
            let (next, answer) = transcript.after_receive(Ok(event));
            &&& answer == Ok::<GuardianEvent, ProtocolError>(event)
            &&& !next.poisoned
            &&& next.terminal == Some(validator.after_event(event)->Ok_0)
            &&& next.taking_ready().1 <==> event is Ready || event is Resumed
            &&& next.taking_gate_ack().1 <==> event is InputGateOpened
        }),
{
}

/// A coordinator's proof can be taken once, and taking it changes nothing else;
/// a poisoned coordinator hands none out.
pub proof fn law_coordinator_proof_is_taken_once(transcript: CoordinatorTranscript)
    ensures
        ({
            let (after, taken) = transcript.taking_ready();
            &&& taken ==> !transcript.poisoned && !after.taking_ready().1
                && after.taking_gate_ack().1 == transcript.taking_gate_ack().1 && after.terminal
                == transcript.terminal
            &&& !taken ==> after == transcript
        }),
        ({
            let (after, taken) = transcript.taking_gate_ack();
            &&& taken ==> !transcript.poisoned && !after.taking_gate_ack().1
                && after.taking_ready().1 == transcript.taking_ready().1 && after.terminal
                == transcript.terminal
            &&& !taken ==> after == transcript
        }),
        transcript.poisoned ==> !transcript.taking_ready().1 && !transcript.taking_gate_ack().1,
{
}

/// A command that is applied leaves the proof that it names and no other, with
/// the command's own size. The input gate proof is of the first generation exactly as
/// long as no gate was ever opened.
pub proof fn law_command_mints_its_proof(
    transcript: GuardianTranscript,
    validator: TerminalLifecycleValidator,
    command: CoordinatorCommand,
)
    requires
        transcript.terminal == Some(validator),
        !transcript.closed_to_commands(),
        validator.after_command(command) matches Ok((_, acceptance)) && acceptance
            == TerminalCommandAcceptance::Applied,
    ensures
        ({
            let (next, answer) = transcript.after_receive(Ok(command));
            &&& answer == Ok::<CoordinatorCommand, ProtocolError>(command)
            &&& !next.poisoned
            &&& next.terminal == Some((validator.after_command(command)->Ok_0).0)
            &&& next.taking_gate(OpenGateCommandCycle::Initial).1 <==> command is OpenInputGate
                && !validator.gate_ever_opened
            &&& next.taking_gate(OpenGateCommandCycle::Resume).1 <==> command is OpenInputGate
                && validator.gate_ever_opened
            &&& next.taking_suspend().1 <==> command is Suspend
            &&& next.taking_restored().1 <==> command is TerminalRestored
            &&& next.taking_resume().1 is Some <==> command is Resume
            &&& next.taking_resize().1 is Some <==> command is Resize
            &&& next.taking_resume().1 matches Some((rows, cols)) ==> command
                == (CoordinatorCommand::Resume { rows, cols })
            &&& next.taking_resize().1 matches Some((rows, cols)) ==> command
                == (CoordinatorCommand::Resize { rows, cols })
        }),
{
}

/// A guardian's proof can be taken once, and the transcript itself stays as it
/// was; a poisoned guardian hands none out.
pub proof fn law_guardian_proof_is_taken_once(
    transcript: GuardianTranscript,
    cycle: OpenGateCommandCycle,
)
    ensures
        ({
            let (after, taken) = transcript.taking_gate(cycle);
            &&& after.terminal == transcript.terminal && after.poisoned == transcript.poisoned
            &&& !after.taking_gate(cycle).1
            &&& taken ==> !transcript.poisoned
            &&& !taken ==> after == transcript
        }),
        ({
            let (after, taken) = transcript.taking_suspend();
            &&& after.terminal == transcript.terminal && after.poisoned == transcript.poisoned
            &&& !after.taking_suspend().1
            &&& taken ==> !transcript.poisoned
            &&& !taken ==> after == transcript
        }),
        ({
            let (after, taken) = transcript.taking_restored();
            &&& after.terminal == transcript.terminal && after.poisoned == transcript.poisoned
            &&& !after.taking_restored().1
            &&& taken ==> !transcript.poisoned
            &&& !taken ==> after == transcript
        }),
        ({
            let (after, taken) = transcript.taking_resume();
            &&& after.terminal == transcript.terminal && after.poisoned == transcript.poisoned
            &&& after.taking_resume().1 is None
            &&& taken is Some ==> !transcript.poisoned
        }),
        ({
            let (after, taken) = transcript.taking_resize();
            &&& after.terminal == transcript.terminal && after.poisoned == transcript.poisoned
            &&& after.taking_resize().1 is None
            &&& taken is Some ==> !transcript.poisoned
        }),
{
}

/// Once a terminal frame was taken, both ends hand out the exit that it
/// reported, to the value, and each of them once. A poisoned end never does.
pub proof fn law_reported_exit_is_handed_out_once(
    coordinator: CoordinatorTranscript,
    guardian: GuardianTranscript,
    validator: TerminalLifecycleValidator,
    app: ChildDisposition,
    tui: ChildDisposition,
    worker: WorkerJoinStatus,
    cleanup: CleanupStatus,
    session: SessionStatus,
    guardian_exit: GuardianExitDisposition,
)
    requires
        coordinator.terminal == Some(validator),
        guardian.terminal == Some(validator),
        !coordinator.poisoned,
        !guardian.poisoned,
        validator.state != TerminalLifecycleState::Terminal,
        validator.after_event(
            GuardianEvent::ChildrenReaped { app, tui, worker, cleanup, session, guardian_exit },
        ) is Ok,
    ensures
        ({
            let event = GuardianEvent::ChildrenReaped {
                app,
                tui,
                worker,
                cleanup,
                session,
                guardian_exit,
            };
            let told = coordinator.after_receive(Ok(event)).0;
            let recorded = guardian.after_event(event).0;
            &&& told.ended() && recorded.ended()
            &&& told.taking_exit().1 == Some(guardian_exit)
            &&& told.taking_exit().0.taking_exit().1 is None
            &&& recorded.taking_exit().1 == Some(guardian_exit)
            &&& recorded.taking_exit().0.taking_exit().1 is None
            &&& told.poison().taking_exit().1 is None
            &&& recorded.poison().taking_exit().1 is None
        }),
{
}

/// Input may flow exactly in activity, while a resize is on its way, and while a
/// signal is that neither ends the session nor came during a suspension; never
/// on a poisoned end.
pub proof fn law_input_flows_in_activity(
    coordinator: CoordinatorTranscript,
    guardian: GuardianTranscript,
    validator: TerminalLifecycleValidator,
)
    requires
        coordinator.terminal == Some(validator),
        guardian.terminal == Some(validator),
    ensures
        ({
            let flows = match validator.state {
                TerminalLifecycleState::Active => true,
                TerminalLifecycleState::AwaitResizeApplied { .. } => true,
                TerminalLifecycleState::AwaitSignalForwarded { signal, was_suspended } => (signal
                    == UnixSignal::Int || signal == UnixSignal::Quit) && !was_suspended,
                _ => false,
            };
            &&& coordinator.gate_open() <==> !coordinator.poisoned && flows
            &&& guardian.gate_open() <==> !guardian.poisoned && flows
        }),
{
}

/// An event that could not be written poisons the guardian and leaves it without
/// a proof; one that was written changes nothing.
pub proof fn law_failed_write_poisons(
    transcript: GuardianTranscript,
    error: ProtocolError,
    cycle: OpenGateCommandCycle,
)
    ensures
        transcript.after_sending(Ok(())) == transcript,
        ({
            let after = transcript.after_sending(Err(error));
            &&& after.poisoned
            &&& !after.taking_gate(cycle).1 && !after.taking_suspend().1
                && !after.taking_restored().1
            &&& after.taking_resume().1 is None && after.taking_resize().1 is None
            &&& after.taking_exit().1 is None
        }),
{
}

/// Each end waits for the frames of the other one: the coordinator for those
/// with the top bit of their type set, the guardian for those without it, and
/// both by the deadline that they were given.
pub proof fn law_each_end_waits_for_the_other(deadline: Moment)
    ensures
        awaited_event(deadline).expected_direction == 128,
        awaited_command(deadline).expected_direction == 0,
        awaited_event(deadline).deadline == deadline,
        awaited_command(deadline).deadline == deadline,
{
}

// ---------------------------------------------------------------------------
// The end of the stream.
// ---------------------------------------------------------------------------

/// After the terminal frame one byte is asked for. The end of the stream in time
/// verifies it; a byte is trailing data and a broken channel an I/O error, and
/// both poison; a deadline before the channel answered leaves everything as it
/// was, and one after it poisons.
pub proof fn law_stream_ends_with_the_terminal_frame(
    transcript: CoordinatorTranscript,
    deadline: Moment,
    early: Moment,
    soon: Moment,
    late: Moment,
    event: WireEvent,
)
    requires
        transcript.ended(),
        !transcript.eof_verified,
        early.nanos < deadline.nanos,
        soon.nanos < deadline.nanos,
        late.nanos >= deadline.nanos,
        event matches WireEvent::Read { .. },
    ensures
        ({
            let probe = EofState::start(deadline);
            let asking = probe.after(WireEvent::Clock(early));
            let answered = asking.after(event);
            let done = answered.after(WireEvent::Clock(soon));
            let overdue = answered.after(WireEvent::Clock(late));
            let expired = probe.after(WireEvent::Clock(late));
            let broken = asking.after(WireEvent::Failed);
            let ended = event matches WireEvent::Read { count, .. } && count == 0;
            let (verified, answer) = transcript.after_eof(done);
            &&& probe.spec_step() == TransferStep::<()>::Next(WireAction::ReadClock)
            &&& asking.spec_step() == TransferStep::<()>::Next(WireAction::Read { limit: 1 })
            &&& answered.spec_step() == TransferStep::<()>::Next(WireAction::ReadClock)
            &&& done.finished() && overdue.finished() && expired.finished() && broken.finished()
            &&& ended ==> answer == Ok::<(), ProtocolError>(()) && verified == (
            CoordinatorTranscript { eof_verified: true, ..transcript })
            &&& !ended ==> answer == Err::<(), ProtocolError>(ProtocolError::TrailingData)
                && verified.poisoned
            &&& transcript.after_eof(broken).1 == Err::<(), ProtocolError>(ProtocolError::Io)
                && transcript.after_eof(broken).0.poisoned
            &&& transcript.after_eof(expired) == (transcript, Err::<(), ProtocolError>(
                ProtocolError::Timeout,
            ))
            &&& transcript.after_eof(overdue).1 == Err::<(), ProtocolError>(ProtocolError::Timeout)
                && transcript.after_eof(overdue).0.poisoned
        }),
{
}

/// An end that was verified stays verified, and a stream that has not ended has
/// no end to verify.
pub proof fn law_end_is_verified_once(transcript: CoordinatorTranscript, probe: EofState)
    ensures
        !transcript.ended() ==> transcript.after_eof(probe) == (transcript, Err::<
            (),
            ProtocolError,
        >(ProtocolError::UnexpectedState)),
        transcript.ended() && transcript.eof_verified ==> transcript.after_eof(probe) == (
            transcript,
            Ok::<(), ProtocolError>(()),
        ),
{
}

} // verus!
