//! What a session may do, told by its messages rather than by its states.
use vstd::prelude::*;

use crate::protocol::lifecycle::{
    gate_open_state, TerminalCommandAcceptance, TerminalLifecycleState, TerminalLifecycleValidator,
};
use crate::protocol::message::{
    ChildDisposition, ChildRole, CleanupStatus, CoordinatorCommand, FailureCode, GuardianEvent,
    GuardianExitDisposition, Phase, ProtocolError, SessionStatus, SessionTerminationCause,
    StopAction, TerminalSnapshotFingerprint, UnixSignal, WorkerJoinStatus,
};
use crate::protocol::semantics::{did_its_part, terminal_semantics};
use crate::protocol::transcript::{apply, messages, reachable_invariant, run, TranscriptStep};

verus! {

// ---------------------------------------------------------------------------
// Requests and their acknowledgements.
// ---------------------------------------------------------------------------

/// INT and QUIT come and go: once such a signal was forwarded, everything is as
/// it was before, whether the session was active or suspended. No other
/// acknowledgement is taken for it.
pub proof fn law_interactive_signal_returns_to_where_it_came_from(
    validator: TerminalLifecycleValidator,
    signal: UnixSignal,
    other: UnixSignal,
)
    requires
        signal is Int || signal is Quit,
        validator.state == TerminalLifecycleState::Active || validator.state
            == TerminalLifecycleState::Suspended,
    ensures
        validator.after_command(CoordinatorCommand::Signal { signal }) matches Ok((asked, taken))
            && {
            &&& taken == TerminalCommandAcceptance::Applied
            &&& asked.after_event(GuardianEvent::SignalForwarded { signal }) == Ok::<
                TerminalLifecycleValidator,
                ProtocolError,
            >(validator)
            &&& other != signal ==> asked.after_event(
                GuardianEvent::SignalForwarded { signal: other },
            ) is Err
            &&& gate_open_state(asked.state) == gate_open_state(validator.state)
        },
{
}

/// HUP and TERM do not come back: once forwarded, they are the cause of the end,
/// each its own, and quiescence is awaited with the input gate closed.
pub proof fn law_ending_signal_becomes_the_cause(
    validator: TerminalLifecycleValidator,
    signal: UnixSignal,
)
    requires
        signal is Hup || signal is Term,
        validator.state == TerminalLifecycleState::Active || validator.state
            == TerminalLifecycleState::Suspended,
    ensures
        validator.after_command(CoordinatorCommand::Signal { signal }) matches Ok((asked, _)) && {
            &&& !gate_open_state(asked.state)
            &&& asked.after_event(GuardianEvent::TerminalQuiesced) is Err
            &&& asked.after_event(GuardianEvent::SignalForwarded { signal }) matches Ok(told) && {
                &&& told.termination_cause == Some(
                    if signal is Hup {
                        SessionTerminationCause::ForwardedHup
                    } else {
                        SessionTerminationCause::ForwardedTerm
                    },
                )
                &&& !gate_open_state(told.state)
                &&& told.after_event(GuardianEvent::TerminalQuiesced) matches Ok(quiet)
                    && quiet.termination_cause == told.termination_cause
            }
        },
{
}

/// A resize is acknowledged with its own size and no other, and then everything
/// is as it was before. A terminal without rows or columns is never asked for.
pub proof fn law_resize_returns_to_activity(
    validator: TerminalLifecycleValidator,
    rows: u16,
    cols: u16,
    other_rows: u16,
    other_cols: u16,
)
    requires
        validator.state == TerminalLifecycleState::Active,
    ensures
        rows > 0 && cols > 0 ==> (validator.after_command(
            CoordinatorCommand::Resize { rows, cols },
        ) matches Ok((asked, taken)) && {
            &&& taken == TerminalCommandAcceptance::Applied
            &&& asked.after_event(GuardianEvent::ResizeApplied { rows, cols }) == Ok::<
                TerminalLifecycleValidator,
                ProtocolError,
            >(validator)
            &&& (other_rows, other_cols) != (rows, cols) ==> asked.after_event(
                GuardianEvent::ResizeApplied { rows: other_rows, cols: other_cols },
            ) is Err
            &&& gate_open_state(asked.state)
        }),
        rows == 0 || cols == 0 ==> validator.after_command(
            CoordinatorCommand::Resize { rows, cols },
        ) == Err::<(TerminalLifecycleValidator, TerminalCommandAcceptance), ProtocolError>(
            ProtocolError::InvalidValue,
        ),
{
}

/// A suspended session comes back only through a resumption with its own size,
/// and then it is where a session stands that is ready for a gate: the input
/// still needs a fresh one.
pub proof fn law_resume_leads_to_a_fresh_gate(
    validator: TerminalLifecycleValidator,
    rows: u16,
    cols: u16,
    other_rows: u16,
    other_cols: u16,
)
    requires
        validator.state == TerminalLifecycleState::Active,
        rows > 0 && cols > 0,
    ensures
        validator.after_command(CoordinatorCommand::Suspend) matches Ok((asked, _)) && {
            &&& !gate_open_state(asked.state)
            &&& asked.after_event(GuardianEvent::Suspended) matches Ok(suspended) && {
                &&& !gate_open_state(suspended.state)
                &&& suspended.after_command(CoordinatorCommand::OpenInputGate) is Err
                &&& suspended.after_command(CoordinatorCommand::Resume { rows, cols }) matches Ok(
                    (resuming, _),
                ) && {
                    &&& !gate_open_state(resuming.state)
                    &&& (other_rows, other_cols) != (rows, cols) ==> resuming.after_event(
                        GuardianEvent::Resumed { rows: other_rows, cols: other_cols },
                    ) is Err
                    &&& resuming.after_event(GuardianEvent::Resumed { rows, cols }) matches Ok(ready)
                        && {
                        &&& !gate_open_state(ready.state)
                        &&& ready.after_command(CoordinatorCommand::OpenInputGate) matches Ok(
                            (opening, _),
                        ) && {
                            &&& !gate_open_state(opening.state)
                            &&& opening.after_event(GuardianEvent::InputGateOpened) matches Ok(open)
                                && gate_open_state(open.state) && open.state == validator.state
                                && open.failure == validator.failure && open.termination_cause
                                == validator.termination_cause
                        }
                    }
                }
            }
        },
{
}

// ---------------------------------------------------------------------------
// Input.
// ---------------------------------------------------------------------------

/// How far the messages have come since the session was last suspended: 0 right
/// after the suspension, then 1 with the resumption asked for, 2 with it
/// acknowledged, 3 with a gate asked for and 4 with the input gate open. A session
/// that was never suspended stands at 4.
pub open spec fn way_back(seen: Seq<TranscriptStep>) -> int
    decreases seen.len(),
{
    if seen.len() == 0 {
        4
    } else {
        let before = way_back(seen.drop_last());
        match seen.last() {
            TranscriptStep::Event(GuardianEvent::Suspended) => 0,
            TranscriptStep::Command(CoordinatorCommand::Resume { .. }) => if before == 0 {
                1
            } else {
                before
            },
            TranscriptStep::Event(GuardianEvent::Resumed { .. }) => if before == 1 {
                2
            } else {
                before
            },
            TranscriptStep::Command(CoordinatorCommand::OpenInputGate) => if before == 2 {
                3
            } else {
                before
            },
            TranscriptStep::Event(GuardianEvent::InputGateOpened) => if before == 3 {
                4
            } else {
                before
            },
            _ => before,
        }
    }
}

spec fn way_back_of(state: TerminalLifecycleState, way: int) -> bool {
    match state {
        TerminalLifecycleState::Suspended => way == 0,
        TerminalLifecycleState::AwaitSignalForwarded { was_suspended, .. } => way == (
        if was_suspended {
            0int
        } else {
            4int
        }),
        TerminalLifecycleState::AwaitResumed { .. } => way == 1,
        TerminalLifecycleState::ReadyForGate => way == 2 || way == 4,
        TerminalLifecycleState::AwaitGateOpened => way == 3 || way == 4,
        TerminalLifecycleState::Active => way == 4,
        TerminalLifecycleState::AwaitResizeApplied { .. } => way == 4,
        TerminalLifecycleState::AwaitSuspended => way == 4,
        TerminalLifecycleState::AwaitLeaseBeforeStart => way == 4,
        TerminalLifecycleState::AwaitStart => way == 4,
        TerminalLifecycleState::AwaitTerminalArmed => way == 4,
        TerminalLifecycleState::AwaitTerminalArmAcceptance => way == 4,
        TerminalLifecycleState::AwaitApp => way == 4,
        TerminalLifecycleState::AwaitTui => way == 4,
        TerminalLifecycleState::AwaitReady => way == 4,
        _ => true,
    }
}

proof fn lemma_way_back(steps: Seq<TranscriptStep>)
    ensures
        run(steps) matches Some(validator) ==> way_back_of(
            validator.state,
            way_back(messages(steps)),
        ),
    decreases steps.len(),
{
    if steps.len() != 0 {
        let before = steps.drop_last();
        let step = steps.last();
        lemma_way_back(before);
        if step is Command || step is Event {
            let seen = messages(before);
            assert(seen.push(step).drop_last() =~= seen);
        }
    }
}

/// Once a session was suspended, no input flows until it was resumed, the
/// resumption was acknowledged, a gate was asked for and that gate was opened,
/// in this order; nothing else that may happen on the way opens it.
pub proof fn law_suspended_input_needs_a_fresh_gate(steps: Seq<TranscriptStep>)
    ensures
        run(steps) matches Some(validator) ==> gate_open_state(validator.state) ==> way_back(
            messages(steps),
        ) == 4,
{
    lemma_way_back(steps);
}

/// Input flows exactly while the session is active, and while a resize or an
/// interactive signal that came in activity waits for its acknowledgement. So
/// an open gate is opened by nothing but its own acknowledgement, or was open.
pub proof fn law_gate_opens_only_by_its_acknowledgement(
    validator: TerminalLifecycleValidator,
    step: TranscriptStep,
)
    requires
        reachable_invariant(validator),
        !gate_open_state(validator.state),
    ensures
        apply(validator, step) matches Some(next) ==> gate_open_state(next.state) ==> step
            == TranscriptStep::Event(GuardianEvent::InputGateOpened) && next.gate_ever_opened,
{
}

/// What closes the input gate: a suspension, an ending signal, a stop, quiescence or a
/// failure. An active session keeps it open through everything else.
pub proof fn law_gate_stays_open_in_activity(
    validator: TerminalLifecycleValidator,
    step: TranscriptStep,
)
    requires
        gate_open_state(validator.state),
    ensures
        apply(validator, step) matches Some(next) ==> {
            gate_open_state(next.state) <==> match step {
                TranscriptStep::Command(CoordinatorCommand::Stop) => false,
                TranscriptStep::Command(CoordinatorCommand::Suspend) => false,
                TranscriptStep::Command(CoordinatorCommand::Signal { signal }) => signal is Int
                    || signal is Quit,
                TranscriptStep::Event(GuardianEvent::TerminalQuiesced) => false,
                TranscriptStep::Event(GuardianEvent::Failed { .. }) => false,
                _ => true,
            }
        },
{
}

// ---------------------------------------------------------------------------
// What is taken where.
// ---------------------------------------------------------------------------

/// Each command is applied in the states that it belongs to, and only there.
/// After quiescence INT, QUIT and a resize that were already on their way are
/// still taken, a gate command only where a failure overtook it, and then the
/// restoration of the terminal.
pub proof fn law_each_command_has_its_place(
    validator: TerminalLifecycleValidator,
    command: CoordinatorCommand,
)
    requires
        validator.recovery_command_allowance is Inactive,
    ensures
        validator.after_command(command) is Ok <==> match command {
            CoordinatorCommand::Start => validator.state == TerminalLifecycleState::AwaitStart,
            CoordinatorCommand::TerminalArmAccepted => validator.state
                == TerminalLifecycleState::AwaitTerminalArmAcceptance,
            CoordinatorCommand::OpenInputGate => validator.state
                == TerminalLifecycleState::ReadyForGate || (validator.state
                == TerminalLifecycleState::Quiesced && validator.superseded_gate_may_be_pending),
            CoordinatorCommand::Stop => validator.state == TerminalLifecycleState::ReadyForGate
                || validator.state == TerminalLifecycleState::Active || validator.state
                == TerminalLifecycleState::Suspended,
            CoordinatorCommand::Suspend => validator.state == TerminalLifecycleState::Active,
            CoordinatorCommand::Signal { signal } => validator.state
                == TerminalLifecycleState::Active || validator.state
                == TerminalLifecycleState::Suspended || (validator.state
                == TerminalLifecycleState::Quiesced && (signal is Int || signal is Quit)),
            CoordinatorCommand::Resize { rows, cols } => rows > 0 && cols > 0 && (validator.state
                == TerminalLifecycleState::Active || validator.state
                == TerminalLifecycleState::Quiesced),
            CoordinatorCommand::Resume { rows, cols } => rows > 0 && cols > 0 && validator.state
                == TerminalLifecycleState::Suspended,
            CoordinatorCommand::TerminalRestored => validator.state
                == TerminalLifecycleState::Quiesced,
        },
        validator.after_command(command) matches Ok((_, taken)) ==> taken
            == TerminalCommandAcceptance::Applied,
        validator.after_command(command) matches Err(error) ==> {
            ||| error == ProtocolError::UnexpectedState
            ||| error == ProtocolError::InvalidValue && match command {
                CoordinatorCommand::Resize { rows, cols } => rows == 0 || cols == 0,
                CoordinatorCommand::Resume { rows, cols } => rows == 0 || cols == 0,
                _ => false,
            }
        },
{
}

/// A command changes where the session stands and, if it is the coordinator's
/// stop, why it ends. It changes nothing of what started, failed or was opened,
/// and where a session that is not quiesced stands tells which command it was.
pub proof fn law_command_moves_the_session_only(
    validator: TerminalLifecycleValidator,
    command: CoordinatorCommand,
)
    ensures
        validator.after_command(command) matches Ok((next, taken)) ==> {
            &&& next.lease_committed == validator.lease_committed
            &&& next.app_started == validator.app_started
            &&& next.tui_started == validator.tui_started
            &&& next.app_process_group == validator.app_process_group
            &&& next.gate_ever_opened == validator.gate_ever_opened
            &&& next.failure == validator.failure
            &&& next.terminal_exit_disposition == validator.terminal_exit_disposition
            &&& next.termination_cause == (if command is Stop && taken
                == TerminalCommandAcceptance::Applied {
                Some(SessionTerminationCause::CoordinatorStop)
            } else {
                validator.termination_cause
            })
            &&& next.superseded_gate_may_be_pending ==> validator.superseded_gate_may_be_pending
            &&& match next.state {
                TerminalLifecycleState::AwaitTerminalArmed => command is Start,
                TerminalLifecycleState::AwaitApp => command is TerminalArmAccepted,
                TerminalLifecycleState::AwaitGateOpened => command is OpenInputGate,
                TerminalLifecycleState::AwaitSignalForwarded { signal, was_suspended } => command
                    == (CoordinatorCommand::Signal { signal }) && (was_suspended <==> validator.state
                    == TerminalLifecycleState::Suspended),
                TerminalLifecycleState::AwaitResizeApplied { rows, cols } => command == (
                CoordinatorCommand::Resize { rows, cols }),
                TerminalLifecycleState::AwaitSuspended => command is Suspend,
                TerminalLifecycleState::AwaitResumed { rows, cols } => command == (
                CoordinatorCommand::Resume { rows, cols }),
                TerminalLifecycleState::AwaitQuiesced => command is Stop,
                TerminalLifecycleState::AwaitRecoveryDisarmed => command is TerminalRestored,
                TerminalLifecycleState::Quiesced => validator.state
                    == TerminalLifecycleState::Quiesced,
                _ => false,
            }
        },
{
}

/// Each event is taken where what it acknowledges was asked for, and only there.
/// Quiescence comes after a stop, an ending signal or a failure; a TUI that
/// ended by itself quiesces an active session, also one that still waits for a
/// resize or an interactive signal of that activity.
pub proof fn law_each_event_has_its_place(
    validator: TerminalLifecycleValidator,
    event: GuardianEvent,
)
    requires
        !(event is Failed),
        !(event is ChildrenReaped),
    ensures
        validator.after_event(event) is Ok <==> match event {
            GuardianEvent::LeaseCommitted => validator.state
                == TerminalLifecycleState::AwaitLeaseBeforeStart,
            GuardianEvent::TerminalArmed { .. } => validator.state
                == TerminalLifecycleState::AwaitTerminalArmed,
            GuardianEvent::ChildStarted { role, pid, pgid } => pid > 0 && pgid == pid && ((role
                == ChildRole::AppServer && validator.state == TerminalLifecycleState::AwaitApp) || (
            role == ChildRole::Tui && validator.state == TerminalLifecycleState::AwaitTui
                && validator.app_process_group != Some(pgid))),
            GuardianEvent::Ready => validator.state == TerminalLifecycleState::AwaitReady,
            GuardianEvent::InputGateOpened => validator.state
                == TerminalLifecycleState::AwaitGateOpened,
            GuardianEvent::SignalForwarded { signal } => {
                ||| validator.state == (TerminalLifecycleState::AwaitSignalForwarded {
                    signal,
                    was_suspended: false,
                })
                ||| validator.state == (TerminalLifecycleState::AwaitSignalForwarded {
                    signal,
                    was_suspended: true,
                })
            },
            GuardianEvent::ResizeApplied { rows, cols } => validator.state == (
            TerminalLifecycleState::AwaitResizeApplied { rows, cols }),
            GuardianEvent::Suspended => validator.state == TerminalLifecycleState::AwaitSuspended,
            GuardianEvent::Resumed { rows, cols } => validator.state == (
            TerminalLifecycleState::AwaitResumed { rows, cols }),
            GuardianEvent::TerminalQuiesced => {
                ||| validator.state == TerminalLifecycleState::AwaitQuiesced
                ||| validator.state == TerminalLifecycleState::FailedAwaitQuiesced
                ||| validator.state == TerminalLifecycleState::Active
                ||| validator.state is AwaitResizeApplied
                ||| validator.state == (TerminalLifecycleState::AwaitSignalForwarded {
                    signal: UnixSignal::Int,
                    was_suspended: false,
                })
                ||| validator.state == (TerminalLifecycleState::AwaitSignalForwarded {
                    signal: UnixSignal::Quit,
                    was_suspended: false,
                })
            },
            GuardianEvent::TerminalRecoveryDisarmed => validator.state
                == TerminalLifecycleState::AwaitRecoveryDisarmed,
            _ => false,
        },
        validator.after_event(event) matches Err(error) ==> {
            ||| error == ProtocolError::UnexpectedState
            ||| error == ProtocolError::InvalidValue && (event matches
                GuardianEvent::ChildStarted { pid, pgid, .. } && (pid <= 0 || pgid != pid
                || validator.app_process_group == Some(pgid)))
        },
{
}

/// What is written down of an event: the lease with its commitment, each child
/// and the App Server's group with its start, the input gate with its opening, and
/// why the session ends with an ending signal or with quiescence out of
/// activity. An event writes nothing else down, and the first cause stays.
pub proof fn law_event_is_written_down(
    validator: TerminalLifecycleValidator,
    event: GuardianEvent,
)
    requires
        !(event is Failed),
    ensures
        validator.after_event(event) matches Ok(next) ==> {
            &&& next.lease_committed == (validator.lease_committed || event is LeaseCommitted)
            &&& next.app_started == (validator.app_started || (event matches
                GuardianEvent::ChildStarted { role, .. } && role == ChildRole::AppServer))
            &&& next.tui_started == (validator.tui_started || (event matches
                GuardianEvent::ChildStarted { role, .. } && role == ChildRole::Tui))
            &&& next.app_process_group == (match event {
                GuardianEvent::ChildStarted { role: ChildRole::AppServer, pgid, .. } => Some(pgid),
                _ => validator.app_process_group,
            })
            &&& next.gate_ever_opened == (validator.gate_ever_opened || event is InputGateOpened)
            &&& next.failure == validator.failure
            &&& next.recovery_command_allowance == validator.recovery_command_allowance
            &&& next.superseded_gate_may_be_pending == validator.superseded_gate_may_be_pending
            &&& next.terminal_exit_disposition == (match event {
                GuardianEvent::ChildrenReaped { guardian_exit, .. } => Some(guardian_exit),
                _ => validator.terminal_exit_disposition,
            })
            &&& next.termination_cause == (match event {
                GuardianEvent::SignalForwarded { signal: UnixSignal::Hup } => Some(
                    SessionTerminationCause::ForwardedHup,
                ),
                GuardianEvent::SignalForwarded { signal: UnixSignal::Term } => Some(
                    SessionTerminationCause::ForwardedTerm,
                ),
                GuardianEvent::TerminalQuiesced => if validator.termination_cause is None
                    && validator.state != TerminalLifecycleState::AwaitQuiesced && validator.state
                    != TerminalLifecycleState::FailedAwaitQuiesced {
                    Some(SessionTerminationCause::NaturalTuiEof)
                } else {
                    validator.termination_cause
                },
                _ => validator.termination_cause,
            })
        },
{
}

/// Where an event leads: on along the startup, into activity, back to where a
/// request came from, or on along the teardown.
pub proof fn law_event_leads_on(validator: TerminalLifecycleValidator, event: GuardianEvent)
    requires
        !(event is Failed),
    ensures
        validator.after_event(event) matches Ok(next) ==> match event {
            GuardianEvent::LeaseCommitted => next.state == TerminalLifecycleState::AwaitStart,
            GuardianEvent::TerminalArmed { .. } => next.state
                == TerminalLifecycleState::AwaitTerminalArmAcceptance,
            GuardianEvent::ChildStarted { role, .. } => next.state == (if role
                == ChildRole::AppServer {
                TerminalLifecycleState::AwaitTui
            } else {
                TerminalLifecycleState::AwaitReady
            }),
            GuardianEvent::Ready => next.state == TerminalLifecycleState::ReadyForGate,
            GuardianEvent::Resumed { .. } => next.state == TerminalLifecycleState::ReadyForGate,
            GuardianEvent::InputGateOpened => next.state == TerminalLifecycleState::Active,
            GuardianEvent::ResizeApplied { .. } => next.state == TerminalLifecycleState::Active,
            GuardianEvent::Suspended => next.state == TerminalLifecycleState::Suspended,
            GuardianEvent::SignalForwarded { signal } => if signal is Hup || signal is Term {
                next.state == TerminalLifecycleState::AwaitQuiesced
            } else {
                next.state == (if (validator.state matches
                    TerminalLifecycleState::AwaitSignalForwarded { was_suspended, .. }
                    && was_suspended) {
                    TerminalLifecycleState::Suspended
                } else {
                    TerminalLifecycleState::Active
                })
            },
            GuardianEvent::TerminalQuiesced => next.state == TerminalLifecycleState::Quiesced,
            GuardianEvent::TerminalRecoveryDisarmed => next.state
                == TerminalLifecycleState::RecoveryDisarmed,
            GuardianEvent::ChildrenReaped { .. } => next.state == TerminalLifecycleState::Terminal,
            _ => false,
        },
{
}

// ---------------------------------------------------------------------------
// Failure and recovery.
// ---------------------------------------------------------------------------

/// The first failure may be announced from the start command on until the
/// terminal frame; once recovery is disarmed, only a worker that could not be
/// joined. It is written down as it was told, closes the input gate and asks for
/// quiescence, unless that has come already. What started and why the session
/// ends stays.
pub proof fn law_first_failure_is_taken(
    validator: TerminalLifecycleValidator,
    phase: Phase,
    code: FailureCode,
)
    requires
        validator.recovery_command_allowance is Inactive,
    ensures
        validator.after_event(GuardianEvent::Failed { phase, code }) is Ok <==> {
            &&& validator.failure is None
            &&& validator.state != TerminalLifecycleState::AwaitLeaseBeforeStart
            &&& validator.state != TerminalLifecycleState::AwaitStart
            &&& validator.state != TerminalLifecycleState::FailedAwaitQuiesced
            &&& validator.state != TerminalLifecycleState::Terminal
            &&& validator.state == TerminalLifecycleState::RecoveryDisarmed ==> phase
                == Phase::Worker && code == FailureCode::Worker
        },
        validator.after_event(GuardianEvent::Failed { phase, code }) matches Ok(next) ==> {
            &&& next.failure == Some((phase, code))
            &&& !gate_open_state(next.state)
            &&& next.state == (if validator.state == TerminalLifecycleState::Quiesced
                || validator.state == TerminalLifecycleState::AwaitRecoveryDisarmed
                || validator.state == TerminalLifecycleState::RecoveryDisarmed {
                validator.state
            } else {
                TerminalLifecycleState::FailedAwaitQuiesced
            })
            &&& next.superseded_gate_may_be_pending <==> validator.state
                == TerminalLifecycleState::ReadyForGate
            &&& next.recovery_command_allowance is Inactive
            &&& next.lease_committed == validator.lease_committed
            &&& next.app_started == validator.app_started
            &&& next.tui_started == validator.tui_started
            &&& next.app_process_group == validator.app_process_group
            &&& next.gate_ever_opened == validator.gate_ever_opened
            &&& next.termination_cause == validator.termination_cause
            &&& next.terminal_exit_disposition == validator.terminal_exit_disposition
        },
        validator.after_event(GuardianEvent::Failed { phase, code }) matches Err(error) ==> error
            == ProtocolError::UnexpectedState,
{
}

/// A failure that overtakes a gate command lets exactly that command, and it
/// once, be taken after quiescence; it opens nothing, and then the terminal is
/// restored.
pub proof fn law_overtaken_gate_command_is_drained_once(
    validator: TerminalLifecycleValidator,
    phase: Phase,
    code: FailureCode,
)
    requires
        validator.state == TerminalLifecycleState::ReadyForGate,
        validator.failure is None,
        validator.recovery_command_allowance is Inactive,
    ensures
        validator.after_event(GuardianEvent::Failed { phase, code }) matches Ok(failed) && (
        failed.after_event(GuardianEvent::TerminalQuiesced) matches Ok(quiet) && {
            &&& quiet.after_command(CoordinatorCommand::OpenInputGate) matches Ok((drained, _)) && {
                &&& drained.state == TerminalLifecycleState::Quiesced
                &&& drained.after_command(CoordinatorCommand::OpenInputGate) is Err
                &&& drained.after_command(CoordinatorCommand::TerminalRestored) is Ok
            }
            &&& quiet.after_command(CoordinatorCommand::TerminalRestored) is Ok
        }),
{
}

/// Recovery may be selected in a session that is ready for a gate, active or
/// suspended, before any failure and once. It must then be announced as an
/// internal protocol failure; until that is done no other failure is taken.
pub proof fn law_recovery_is_selected_then_announced(
    validator: TerminalLifecycleValidator,
    phase: Phase,
    code: FailureCode,
)
    ensures
        validator.after_arming_recovery() is Ok <==> {
            &&& validator.failure is None
            &&& validator.recovery_command_allowance is Inactive
            &&& validator.state == TerminalLifecycleState::ReadyForGate || validator.state
                == TerminalLifecycleState::Active || validator.state
                == TerminalLifecycleState::Suspended
        },
        validator.after_arming_recovery() matches Err(error) ==> error
            == ProtocolError::UnexpectedState,
        validator.after_arming_recovery() matches Ok(armed) ==> {
            &&& armed.state == validator.state
            &&& armed.failure is None
            &&& armed.after_arming_recovery() is Err
            &&& armed.after_event(GuardianEvent::Failed { phase, code }) is Ok <==> phase
                == Phase::Protocol && code == FailureCode::Internal
            &&& armed.after_event(GuardianEvent::Failed { phase, code }) matches Ok(failed) ==> {
                &&& failed.failure == Some((Phase::Protocol, FailureCode::Internal))
                &&& !gate_open_state(failed.state)
                &&& !failed.superseded_gate_may_be_pending
                &&& failed.after_event(GuardianEvent::TerminalQuiesced) is Ok
            }
        },
{
}

/// After recovery was selected, announced and quiesced, exactly one command is
/// drained: one that the coordinator could have written where recovery was
/// selected, with a usable size if it has one. It changes nothing of the
/// session. Restoration is taken with or without it.
pub proof fn law_recovery_drains_what_was_on_its_way(
    validator: TerminalLifecycleValidator,
    command: CoordinatorCommand,
)
    requires
        validator.failure is None,
        validator.recovery_command_allowance is Inactive,
        validator.state == TerminalLifecycleState::ReadyForGate || validator.state
            == TerminalLifecycleState::Active || validator.state
            == TerminalLifecycleState::Suspended,
    ensures
        validator.after_arming_recovery() matches Ok(armed) && (armed.after_event(
            GuardianEvent::Failed { phase: Phase::Protocol, code: FailureCode::Internal },
        ) matches Ok(failed) && (failed.after_event(GuardianEvent::TerminalQuiesced) matches Ok(
            quiet,
        ) && {
            &&& quiet.after_command(CoordinatorCommand::TerminalRestored) matches Ok((restored, _))
                && restored.state == TerminalLifecycleState::AwaitRecoveryDisarmed
            &&& quiet.after_command(command) matches Ok((_, taken)) ==> (taken
                == TerminalCommandAcceptance::RecoverySuperseded <==> !(
            command is TerminalRestored))
            &&& quiet.after_command(command) is Ok <==> match command {
                CoordinatorCommand::TerminalRestored => true,
                CoordinatorCommand::Stop => true,
                CoordinatorCommand::OpenInputGate => validator.state
                    == TerminalLifecycleState::ReadyForGate,
                CoordinatorCommand::Signal { .. } => validator.state
                    != TerminalLifecycleState::ReadyForGate,
                CoordinatorCommand::Suspend => validator.state == TerminalLifecycleState::Active,
                CoordinatorCommand::Resize { rows, cols } => rows > 0 && cols > 0 && validator.state
                    == TerminalLifecycleState::Active,
                CoordinatorCommand::Resume { rows, cols } => rows > 0 && cols > 0 && validator.state
                    == TerminalLifecycleState::Suspended,
                CoordinatorCommand::Start => false,
                CoordinatorCommand::TerminalArmAccepted => false,
            }
            &&& !(command is TerminalRestored) ==> (quiet.after_command(command) matches Ok(
                (drained, _),
            ) ==> drained.state == TerminalLifecycleState::Quiesced && drained.termination_cause
                == quiet.termination_cause && drained.after_command(
                CoordinatorCommand::TerminalRestored,
            ) is Ok)
        })),
{
}

// ---------------------------------------------------------------------------
// The end.
// ---------------------------------------------------------------------------

/// Both children, as the terminal frame reports them, started as the session
/// saw them start.
pub open spec fn reports_what_started(
    validator: TerminalLifecycleValidator,
    app: ChildDisposition,
    tui: ChildDisposition,
) -> bool {
    (validator.app_started <==> app != ChildDisposition::NotStarted) && (validator.tui_started
        <==> tui != ChildDisposition::NotStarted)
}

/// The terminal frame of a session without failure is taken exactly if it tells
/// what both children came to: both started, the worker joined cleanly, input
/// was once open or the coordinator stopped the session before, and session and
/// guardian end as the children make them end; or the guardian owns up to an
/// internal failure of its own.
pub proof fn law_right_terminal_frame_is_taken(
    validator: TerminalLifecycleValidator,
    app: ChildDisposition,
    tui: ChildDisposition,
    worker: WorkerJoinStatus,
    cleanup: CleanupStatus,
    session: SessionStatus,
    guardian_exit: GuardianExitDisposition,
)
    requires
        validator.state == TerminalLifecycleState::RecoveryDisarmed,
        validator.failure is None,
    ensures
        validator.after_event(
            GuardianEvent::ChildrenReaped { app, tui, worker, cleanup, session, guardian_exit },
        ) is Ok <==> {
            &&& validator.lease_committed && validator.app_started && validator.tui_started
            &&& reports_what_started(validator, app, tui)
            &&& worker == WorkerJoinStatus::JoinedClean
            &&& validator.gate_ever_opened || validator.termination_cause == Some(
                SessionTerminationCause::CoordinatorStop,
            )
            &&& validator.termination_cause matches Some(cause) && {
                ||| (session, guardian_exit) == terminal_semantics(app, tui, worker, cause)
                ||| session == SessionStatus::Failed && guardian_exit
                    == GuardianExitDisposition::InternalFailure
            }
        },
{
}

/// After a failure the terminal frame is taken exactly if it tells which
/// children started and ends the session as failed by an internal failure;
/// never after a failure to clean up or to restore the terminal. A worker that
/// never started is believed only where no TUI was started.
pub proof fn law_terminal_frame_after_a_failure(
    validator: TerminalLifecycleValidator,
    phase: Phase,
    code: FailureCode,
    app: ChildDisposition,
    tui: ChildDisposition,
    worker: WorkerJoinStatus,
    cleanup: CleanupStatus,
    session: SessionStatus,
    guardian_exit: GuardianExitDisposition,
)
    requires
        validator.state == TerminalLifecycleState::RecoveryDisarmed,
        validator.failure == Some((phase, code)),
    ensures
        validator.after_event(
            GuardianEvent::ChildrenReaped { app, tui, worker, cleanup, session, guardian_exit },
        ) is Ok <==> {
            &&& reports_what_started(validator, app, tui)
            &&& worker == WorkerJoinStatus::NotStarted ==> !validator.tui_started
            &&& phase != Phase::Cleanup && phase != Phase::Restore
            &&& code != FailureCode::CleanupMismatch && code != FailureCode::Restore
            &&& session == SessionStatus::Failed
            &&& guardian_exit == GuardianExitDisposition::InternalFailure
        },
{
}

/// A refused event is told by why: one that is out of place as such, whatever it
/// carries; a child in its place that does not lead its own group, or a TUI in
/// the App Server's group, as a bad value. Any other refusal but that of a
/// terminal frame is about its place.
pub proof fn law_refused_event_is_told(validator: TerminalLifecycleValidator, event: GuardianEvent)
    requires
        validator.after_event(event) is Err,
        !(event is ChildrenReaped),
    ensures
        match event {
            GuardianEvent::ChildStarted { role, pid, pgid } => {
                let placed = match role {
                    ChildRole::AppServer => validator.state == TerminalLifecycleState::AwaitApp,
                    ChildRole::Tui => validator.state == TerminalLifecycleState::AwaitTui,
                };
                &&& placed ==> validator.after_event(event) == Err::<
                    TerminalLifecycleValidator,
                    ProtocolError,
                >(ProtocolError::InvalidValue)
                &&& !placed ==> validator.after_event(event) == Err::<
                    TerminalLifecycleValidator,
                    ProtocolError,
                >(ProtocolError::UnexpectedState)
            },
            _ => validator.after_event(event) == Err::<TerminalLifecycleValidator, ProtocolError>(
                ProtocolError::UnexpectedState,
            ),
        },
{
}

/// A terminal frame that comes in its place and is refused is told as out of
/// place only where it must not come at all: after a failure to clean up or to
/// restore, or without a cause for the end. Every other one is told as a bad
/// value, and so is one that does not report the children that were started,
/// before anything else.
pub proof fn law_refused_terminal_frame_is_told(
    validator: TerminalLifecycleValidator,
    app: ChildDisposition,
    tui: ChildDisposition,
    worker: WorkerJoinStatus,
    cleanup: CleanupStatus,
    session: SessionStatus,
    guardian_exit: GuardianExitDisposition,
)
    requires
        validator.state == TerminalLifecycleState::RecoveryDisarmed,
        validator.after_event(
            GuardianEvent::ChildrenReaped { app, tui, worker, cleanup, session, guardian_exit },
        ) is Err,
    ensures
        ({
            let refused = validator.after_event(
                GuardianEvent::ChildrenReaped { app, tui, worker, cleanup, session, guardian_exit },
            );
            let children = reports_what_started(validator, app, tui) && (worker
                == WorkerJoinStatus::NotStarted ==> !validator.tui_started && (
            validator.app_started ==> validator.failure is Some));
            let forbidden = match validator.failure {
                Some((phase, code)) => phase == Phase::Cleanup || phase == Phase::Restore || code
                    == FailureCode::CleanupMismatch || code == FailureCode::Restore,
                None => validator.termination_cause is None && worker
                    == WorkerJoinStatus::JoinedClean && validator.lease_committed
                    && validator.app_started && validator.tui_started
                    && validator.gate_ever_opened,
            };
            refused == Err::<TerminalLifecycleValidator, ProtocolError>(
                if children && forbidden {
                    ProtocolError::UnexpectedState
                } else {
                    ProtocolError::InvalidValue
                },
            )
        }),
{
}

/// No terminal frame is taken before recovery was disarmed.
pub proof fn law_terminal_frame_waits_for_the_teardown(
    validator: TerminalLifecycleValidator,
    app: ChildDisposition,
    tui: ChildDisposition,
    worker: WorkerJoinStatus,
    cleanup: CleanupStatus,
    session: SessionStatus,
    guardian_exit: GuardianExitDisposition,
)
    requires
        validator.state != TerminalLifecycleState::RecoveryDisarmed,
    ensures
        validator.after_event(
            GuardianEvent::ChildrenReaped { app, tui, worker, cleanup, session, guardian_exit },
        ) == Err::<TerminalLifecycleValidator, ProtocolError>(ProtocolError::UnexpectedState),
{
}

// ---------------------------------------------------------------------------
// Whole sessions.
// ---------------------------------------------------------------------------

/// The startup of a session, up to the open gate.
pub open spec fn startup(
    snapshot: TerminalSnapshotFingerprint,
    app_pid: i32,
    tui_pid: i32,
) -> Seq<TranscriptStep> {
    seq![
        TranscriptStep::Event(GuardianEvent::LeaseCommitted),
        TranscriptStep::Command(CoordinatorCommand::Start),
        TranscriptStep::Event(GuardianEvent::TerminalArmed { snapshot }),
        TranscriptStep::Command(CoordinatorCommand::TerminalArmAccepted),
        TranscriptStep::Event(
            GuardianEvent::ChildStarted { role: ChildRole::AppServer, pid: app_pid, pgid: app_pid },
        ),
        TranscriptStep::Event(
            GuardianEvent::ChildStarted { role: ChildRole::Tui, pid: tui_pid, pgid: tui_pid },
        ),
        TranscriptStep::Event(GuardianEvent::Ready),
        TranscriptStep::Command(CoordinatorCommand::OpenInputGate),
        TranscriptStep::Event(GuardianEvent::InputGateOpened),
    ]
}

/// The teardown of a session, from quiescence to the terminal frame.
pub open spec fn teardown(
    app: ChildDisposition,
    tui: ChildDisposition,
    session: SessionStatus,
    guardian_exit: GuardianExitDisposition,
) -> Seq<TranscriptStep> {
    seq![
        TranscriptStep::Event(GuardianEvent::TerminalQuiesced),
        TranscriptStep::Command(CoordinatorCommand::TerminalRestored),
        TranscriptStep::Event(GuardianEvent::TerminalRecoveryDisarmed),
        TranscriptStep::Event(
            GuardianEvent::ChildrenReaped {
                app,
                tui,
                worker: WorkerJoinStatus::JoinedClean,
                cleanup: CleanupStatus::Complete,
                session,
                guardian_exit,
            },
        ),
    ]
}

/// A run goes on from where it stands.
pub open spec fn run_on(
    from: Option<TerminalLifecycleValidator>,
    steps: Seq<TranscriptStep>,
) -> Option<TerminalLifecycleValidator>
    decreases steps.len(),
{
    if steps.len() == 0 {
        from
    } else {
        match from {
            Some(validator) => run_on(apply(validator, steps[0]), steps.skip(1)),
            None => None,
        }
    }
}

proof fn lemma_run_on(before: Seq<TranscriptStep>, steps: Seq<TranscriptStep>)
    ensures
        run(before + steps) == run_on(run(before), steps),
    decreases steps.len(),
{
    if steps.len() == 0 {
        assert(before + steps =~= before);
    } else {
        let longer = before.push(steps[0]);
        assert(longer.drop_last() =~= before);
        assert(longer + steps.skip(1) =~= before + steps);
        lemma_run_on(longer, steps.skip(1));
        if run(before) is None {
            lemma_run_on_nothing(steps.skip(1));
        }
    }
}

proof fn lemma_run_on_nothing(steps: Seq<TranscriptStep>)
    ensures
        run_on(None, steps) is None,
{
}

proof fn lemma_startup_runs(
    snapshot: TerminalSnapshotFingerprint,
    app_pid: i32,
    tui_pid: i32,
)
    requires
        app_pid > 0 && tui_pid > 0 && app_pid != tui_pid,
    ensures
        run(startup(snapshot, app_pid, tui_pid)) matches Some(validator) && {
            &&& validator.state == TerminalLifecycleState::Active
            &&& validator.lease_committed && validator.app_started && validator.tui_started
            &&& validator.gate_ever_opened
            &&& validator.failure is None && validator.termination_cause is None
            &&& validator.recovery_command_allowance is Inactive
            &&& validator.terminal_exit_disposition is None
        },
{
    let steps = startup(snapshot, app_pid, tui_pid);
    assert(steps.take(0) =~= Seq::<TranscriptStep>::empty());
    assert(steps.take(1).drop_last() =~= steps.take(0));
    assert(steps.take(2).drop_last() =~= steps.take(1));
    assert(steps.take(3).drop_last() =~= steps.take(2));
    assert(steps.take(4).drop_last() =~= steps.take(3));
    assert(steps.take(5).drop_last() =~= steps.take(4));
    assert(steps.take(6).drop_last() =~= steps.take(5));
    assert(steps.take(7).drop_last() =~= steps.take(6));
    assert(steps.take(8).drop_last() =~= steps.take(7));
    assert(steps.take(9).drop_last() =~= steps.take(8));
    assert(steps.take(9) =~= steps);
    assert(run(steps.take(0)) == Some(TerminalLifecycleValidator::initial()));
    assert(run(steps.take(1)) is Some);
    assert(run(steps.take(2)) is Some);
    assert(run(steps.take(3)) is Some);
    assert(run(steps.take(4)) is Some);
    assert(run(steps.take(5)) is Some);
    assert(run(steps.take(6)) is Some);
    assert(run(steps.take(7)) is Some);
    assert(run(steps.take(8)) is Some);
}

proof fn lemma_teardown_runs(
    validator: TerminalLifecycleValidator,
    app: ChildDisposition,
    tui: ChildDisposition,
    session: SessionStatus,
    guardian_exit: GuardianExitDisposition,
    cause: SessionTerminationCause,
)
    requires
        validator.state == TerminalLifecycleState::Active || validator.state
            == TerminalLifecycleState::AwaitQuiesced,
        validator.state == TerminalLifecycleState::Active ==> validator.termination_cause is None
            && cause == SessionTerminationCause::NaturalTuiEof,
        validator.state == TerminalLifecycleState::AwaitQuiesced ==> validator.termination_cause
            == Some(cause),
        validator.lease_committed && validator.app_started && validator.tui_started,
        validator.gate_ever_opened,
        validator.failure is None,
        validator.recovery_command_allowance is Inactive,
        app != ChildDisposition::NotStarted && tui != ChildDisposition::NotStarted,
        (session, guardian_exit) == terminal_semantics(
            app,
            tui,
            WorkerJoinStatus::JoinedClean,
            cause,
        ),
    ensures
        run_on(Some(validator), teardown(app, tui, session, guardian_exit)) matches Some(done) && {
            &&& done.state == TerminalLifecycleState::Terminal
            &&& done.terminal_exit_disposition == Some(guardian_exit)
        },
{
    let steps = teardown(app, tui, session, guardian_exit);
    let quiet = apply(validator, steps[0]);
    assert(quiet is Some);
    let restored = apply(quiet->0, steps[1]);
    assert(restored is Some);
    let disarmed = apply(restored->0, steps[2]);
    assert(disarmed is Some);
    law_right_terminal_frame_is_taken(
        disarmed->0,
        app,
        tui,
        WorkerJoinStatus::JoinedClean,
        CleanupStatus::Complete,
        session,
        guardian_exit,
    );
    assert(steps.skip(1).skip(1).skip(1).skip(1) =~= Seq::<TranscriptStep>::empty());
    assert(steps.skip(1)[0] == steps[1]);
    assert(steps.skip(1).skip(1)[0] == steps[2]);
    assert(steps.skip(1).skip(1).skip(1)[0] == steps[3]);
    reveal_with_fuel(run_on, 6);
}

/// A session whose TUI ends by itself runs to its end, whatever code it exits
/// with: from the lease to the terminal frame every message is taken, and the
/// guardian ends with that very code.
pub proof fn law_natural_session_ends_with_the_tuis_code(
    snapshot: TerminalSnapshotFingerprint,
    app_pid: i32,
    tui_pid: i32,
    app: ChildDisposition,
    code: u8,
)
    requires
        app_pid > 0 && tui_pid > 0 && app_pid != tui_pid,
        did_its_part(app),
    ensures
        run(
            startup(snapshot, app_pid, tui_pid) + teardown(
                app,
                ChildDisposition::Exited { code, stop_action: StopAction::NoAction },
                if code == 0 {
                    SessionStatus::Completed
                } else {
                    SessionStatus::Failed
                },
                GuardianExitDisposition::Code(code),
            ),
        ) matches Some(done) && {
            &&& done.state == TerminalLifecycleState::Terminal
            &&& done.terminal_exit_disposition == Some(GuardianExitDisposition::Code(code))
        },
{
    let tui = ChildDisposition::Exited { code, stop_action: StopAction::NoAction };
    let session = if code == 0 {
        SessionStatus::Completed
    } else {
        SessionStatus::Failed
    };
    let guardian_exit = GuardianExitDisposition::Code(code);
    lemma_startup_runs(snapshot, app_pid, tui_pid);
    let active = run(startup(snapshot, app_pid, tui_pid));
    lemma_teardown_runs(
        active->0,
        app,
        tui,
        session,
        guardian_exit,
        SessionTerminationCause::NaturalTuiEof,
    );
    lemma_run_on(startup(snapshot, app_pid, tui_pid), teardown(app, tui, session, guardian_exit));
}

/// A session that is ended by a forwarded HUP or TERM runs to its end, and the
/// guardian ends with that very signal, which completes the session.
pub proof fn law_forwarded_session_ends_with_the_signal(
    snapshot: TerminalSnapshotFingerprint,
    app_pid: i32,
    tui_pid: i32,
    app: ChildDisposition,
    signal: UnixSignal,
    core_dumped: bool,
)
    requires
        app_pid > 0 && tui_pid > 0 && app_pid != tui_pid,
        did_its_part(app),
        signal is Hup || signal is Term,
    ensures
        ({
            let number: u8 = if signal is Hup {
                1
            } else {
                15
            };
            run(
                startup(snapshot, app_pid, tui_pid) + (seq![
                    TranscriptStep::Command(CoordinatorCommand::Signal { signal }),
                    TranscriptStep::Event(GuardianEvent::SignalForwarded { signal }),
                ] + teardown(
                    app,
                    ChildDisposition::Signaled {
                        signal: number,
                        core_dumped,
                        stop_action: StopAction::NoAction,
                    },
                    SessionStatus::Completed,
                    GuardianExitDisposition::Signal(number),
                )),
            ) matches Some(done) && {
                &&& done.state == TerminalLifecycleState::Terminal
                &&& done.terminal_exit_disposition == Some(GuardianExitDisposition::Signal(number))
            }
        }),
{
    let number: u8 = if signal is Hup {
        1
    } else {
        15
    };
    let tui = ChildDisposition::Signaled {
        signal: number,
        core_dumped,
        stop_action: StopAction::NoAction,
    };
    let asked = seq![
        TranscriptStep::Command(CoordinatorCommand::Signal { signal }),
        TranscriptStep::Event(GuardianEvent::SignalForwarded { signal }),
    ];
    let ending = teardown(
        app,
        tui,
        SessionStatus::Completed,
        GuardianExitDisposition::Signal(number),
    );
    lemma_startup_runs(snapshot, app_pid, tui_pid);
    let begun = startup(snapshot, app_pid, tui_pid);
    let active = run(begun)->0;
    law_ending_signal_becomes_the_cause(active, signal);
    let waiting = apply(active, asked[0]);
    assert(waiting is Some);
    let told = apply(waiting->0, asked[1]);
    assert(told is Some);
    lemma_teardown_runs(
        told->0,
        app,
        tui,
        SessionStatus::Completed,
        GuardianExitDisposition::Signal(number),
        if signal is Hup {
            SessionTerminationCause::ForwardedHup
        } else {
            SessionTerminationCause::ForwardedTerm
        },
    );
    lemma_run_on(begun, asked + ending);
    assert((asked + ending).skip(1).skip(1) =~= ending);
    assert((asked + ending)[0] == asked[0]);
    assert((asked + ending).skip(1)[0] == asked[1]);
    reveal_with_fuel(run_on, 3);
}

/// A session that the coordinator stops runs to its end: a TUI that exits passes
/// its code on, and one that dies of the TERM it was sent has done well.
pub proof fn law_stopped_session_ends_as_asked(
    snapshot: TerminalSnapshotFingerprint,
    app_pid: i32,
    tui_pid: i32,
    app: ChildDisposition,
    tui: ChildDisposition,
    code: u8,
)
    requires
        app_pid > 0 && tui_pid > 0 && app_pid != tui_pid,
        did_its_part(app),
        tui == (ChildDisposition::Exited { code, stop_action: StopAction::Term }) || (code == 0
            && tui == (ChildDisposition::Signaled {
            signal: 15,
            core_dumped: false,
            stop_action: StopAction::Term,
        })),
    ensures
        run(
            startup(snapshot, app_pid, tui_pid) + (seq![
                TranscriptStep::Command(CoordinatorCommand::Stop),
            ] + teardown(
                app,
                tui,
                if code == 0 {
                    SessionStatus::Completed
                } else {
                    SessionStatus::Failed
                },
                GuardianExitDisposition::Code(code),
            )),
        ) matches Some(done) && {
            &&& done.state == TerminalLifecycleState::Terminal
            &&& done.terminal_exit_disposition == Some(GuardianExitDisposition::Code(code))
        },
{
    let session = if code == 0 {
        SessionStatus::Completed
    } else {
        SessionStatus::Failed
    };
    let asked = seq![TranscriptStep::Command(CoordinatorCommand::Stop)];
    let ending = teardown(app, tui, session, GuardianExitDisposition::Code(code));
    lemma_startup_runs(snapshot, app_pid, tui_pid);
    let begun = startup(snapshot, app_pid, tui_pid);
    let active = run(begun)->0;
    let told = apply(active, asked[0]);
    assert(told is Some);
    lemma_teardown_runs(
        told->0,
        app,
        tui,
        session,
        GuardianExitDisposition::Code(code),
        SessionTerminationCause::CoordinatorStop,
    );
    lemma_run_on(begun, asked + ending);
    assert((asked + ending).skip(1) =~= ending);
    assert((asked + ending)[0] == asked[0]);
    reveal_with_fuel(run_on, 2);
}

} // verus!
