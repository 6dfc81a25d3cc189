//! Validation of the full duplex terminal transcript.
//!
//! Both processes feed their received messages and their own emitted messages
//! through the same state machine. `Ready`, the raw-mode transition, the
//! input-gate command and its acknowledgement are distinct authorities: observing only one
//! side of the handshake can never authorize input.
use vstd::prelude::*;

use crate::protocol::codec::{valid_process_group, valid_terminal_size, validate_process_group, validate_terminal_size};
use crate::protocol::message::{
    ChildDisposition, ChildRole, CleanupStatus, CoordinatorCommand, FailureCode, GuardianEvent,
    GuardianExitDisposition, Phase, ProtocolError, SessionStatus, SessionTerminationCause,
    UnixSignal, WorkerJoinStatus,
};
use crate::protocol::semantics::{project_terminal_semantics, terminal_semantics};

verus! {

/// Where the transcript stands.
#[derive(Clone, Copy, Debug, PartialEq, Eq, Structural)]
pub enum TerminalLifecycleState {
    AwaitLeaseBeforeStart,
    AwaitStart,
    AwaitTerminalArmed,
    AwaitTerminalArmAcceptance,
    AwaitApp,
    AwaitTui,
    AwaitReady,
    ReadyForGate,
    AwaitGateOpened,
    Active,
    AwaitSignalForwarded { signal: UnixSignal, was_suspended: bool },
    AwaitResizeApplied { rows: u16, cols: u16 },
    AwaitSuspended,
    Suspended,
    AwaitResumed { rows: u16, cols: u16 },
    AwaitQuiesced,
    FailedAwaitQuiesced,
    Quiesced,
    AwaitRecoveryDisarmed,
    RecoveryDisarmed,
    Terminal,
}

/// The state in which an out-of-band recovery request was selected.
#[derive(Clone, Copy, Debug, PartialEq, Eq, Structural)]
pub enum RecoveryCommandWindow {
    ReadyForGate,
    Active,
    Suspended,
}

/// One state-scoped slot for a command that was already written when recovery
/// was selected.
#[derive(Clone, Copy, Debug, PartialEq, Eq, Structural)]
pub enum RecoveryCommandAllowance {
    Inactive,
    AwaitingFailure(RecoveryCommandWindow),
    Armed(RecoveryCommandWindow),
    Consumed,
}

/// Whether an accepted command took effect or was drained after recovery.
#[derive(Clone, Copy, Debug, PartialEq, Eq, Structural)]
pub enum TerminalCommandAcceptance {
    Applied,
    RecoverySuperseded,
}

/// The transcript validator shared by both process roles.
///
/// A failure observed in `ReadyForGate` can race exactly one gate command
/// already written by the peer: `superseded_gate_may_be_pending` lets it be
/// consumed after quiescence, but it can never mint an input acknowledgement or
/// survive terminal restoration.
#[derive(Clone, Copy, Debug)]
pub struct TerminalLifecycleValidator {
    pub state: TerminalLifecycleState,
    pub lease_committed: bool,
    pub app_started: bool,
    pub tui_started: bool,
    pub app_process_group: Option<i32>,
    pub gate_ever_opened: bool,
    pub superseded_gate_may_be_pending: bool,
    pub recovery_command_allowance: RecoveryCommandAllowance,
    pub failure: Option<(Phase, FailureCode)>,
    pub termination_cause: Option<SessionTerminationCause>,
    pub terminal_exit_disposition: Option<GuardianExitDisposition>,
}

/// The window in which recovery may be selected, by state.
pub open spec fn recovery_window(state: TerminalLifecycleState) -> Option<RecoveryCommandWindow> {
    match state {
        TerminalLifecycleState::ReadyForGate => Some(RecoveryCommandWindow::ReadyForGate),
        TerminalLifecycleState::Active => Some(RecoveryCommandWindow::Active),
        TerminalLifecycleState::Suspended => Some(RecoveryCommandWindow::Suspended),
        _ => None,
    }
}

/// The commands that the peer could legally have written in a window.
pub open spec fn window_admits(
    window: RecoveryCommandWindow,
    command: CoordinatorCommand,
) -> bool {
    match window {
        RecoveryCommandWindow::ReadyForGate => command is OpenInputGate || command is Stop,
        RecoveryCommandWindow::Active => command is Signal || command is Suspend || command is Stop
            || command is Resize,
        RecoveryCommandWindow::Suspended => command is Signal || command is Stop
            || command is Resume,
    }
}

/// A command that carries a terminal size carries a usable one.
pub open spec fn command_size_valid(command: CoordinatorCommand) -> bool {
    match command {
        CoordinatorCommand::Resize { rows, cols } => valid_terminal_size(rows, cols),
        CoordinatorCommand::Resume { rows, cols } => valid_terminal_size(rows, cols),
        _ => true,
    }
}

/// The state to which a command leads, where it is in order.
///
/// `TerminalQuiesced` is also the acknowledgement that a natural TUI exit
/// superseded one already-written foreground control, so INT, QUIT and a resize
/// are still drained there. HUP and TERM are not: their disposition requires an
/// explicit `SignalForwarded`.
pub open spec fn state_after_command(
    state: TerminalLifecycleState,
    command: CoordinatorCommand,
    superseded_gate: bool,
) -> Option<TerminalLifecycleState> {
    match (state, command) {
        (TerminalLifecycleState::AwaitStart, CoordinatorCommand::Start) => Some(
            TerminalLifecycleState::AwaitTerminalArmed,
        ),
        (
            TerminalLifecycleState::AwaitTerminalArmAcceptance,
            CoordinatorCommand::TerminalArmAccepted,
        ) => Some(TerminalLifecycleState::AwaitApp),
        (TerminalLifecycleState::ReadyForGate, CoordinatorCommand::OpenInputGate) => Some(
            TerminalLifecycleState::AwaitGateOpened,
        ),
        (TerminalLifecycleState::Active, CoordinatorCommand::Signal { signal }) => Some(
            TerminalLifecycleState::AwaitSignalForwarded { signal, was_suspended: false },
        ),
        (TerminalLifecycleState::Suspended, CoordinatorCommand::Signal { signal }) => Some(
            TerminalLifecycleState::AwaitSignalForwarded { signal, was_suspended: true },
        ),
        (TerminalLifecycleState::Active, CoordinatorCommand::Resize { rows, cols }) => Some(
            TerminalLifecycleState::AwaitResizeApplied { rows, cols },
        ),
        (TerminalLifecycleState::Active, CoordinatorCommand::Suspend) => Some(
            TerminalLifecycleState::AwaitSuspended,
        ),
        (TerminalLifecycleState::Suspended, CoordinatorCommand::Resume { rows, cols }) => Some(
            TerminalLifecycleState::AwaitResumed { rows, cols },
        ),
        (TerminalLifecycleState::ReadyForGate, CoordinatorCommand::Stop) => Some(
            TerminalLifecycleState::AwaitQuiesced,
        ),
        (TerminalLifecycleState::Active, CoordinatorCommand::Stop) => Some(
            TerminalLifecycleState::AwaitQuiesced,
        ),
        (TerminalLifecycleState::Suspended, CoordinatorCommand::Stop) => Some(
            TerminalLifecycleState::AwaitQuiesced,
        ),
        (TerminalLifecycleState::Quiesced, CoordinatorCommand::Signal { signal }) => if signal.ends_session() {
            None
        } else {
            Some(TerminalLifecycleState::Quiesced)
        },
        (TerminalLifecycleState::Quiesced, CoordinatorCommand::Resize { .. }) => Some(
            TerminalLifecycleState::Quiesced,
        ),
        (TerminalLifecycleState::Quiesced, CoordinatorCommand::OpenInputGate) => if superseded_gate {
            Some(TerminalLifecycleState::Quiesced)
        } else {
            None
        },
        (TerminalLifecycleState::Quiesced, CoordinatorCommand::TerminalRestored) => Some(
            TerminalLifecycleState::AwaitRecoveryDisarmed,
        ),
        _ => None,
    }
}

/// The state to which an event other than a failure leads, where it is in
/// order. The values an event carries are judged apart.
///
/// A natural TUI exit can race a best-effort foreground control after the
/// coordinator has written it. Exact quiescence supersedes only controls whose
/// Unix disposition does not define shutdown; HUP, TERM and suspended controls
/// still require their explicit acknowledgement.
pub open spec fn state_after_event(
    state: TerminalLifecycleState,
    event: GuardianEvent,
) -> Option<TerminalLifecycleState> {
    match (state, event) {
        (TerminalLifecycleState::AwaitLeaseBeforeStart, GuardianEvent::LeaseCommitted) => Some(
            TerminalLifecycleState::AwaitStart,
        ),
        (TerminalLifecycleState::AwaitTerminalArmed, GuardianEvent::TerminalArmed { .. }) => Some(
            TerminalLifecycleState::AwaitTerminalArmAcceptance,
        ),
        (TerminalLifecycleState::AwaitApp, GuardianEvent::ChildStarted { role, .. }) => if role
            == ChildRole::AppServer {
            Some(TerminalLifecycleState::AwaitTui)
        } else {
            None
        },
        (TerminalLifecycleState::AwaitTui, GuardianEvent::ChildStarted { role, .. }) => if role
            == ChildRole::Tui {
            Some(TerminalLifecycleState::AwaitReady)
        } else {
            None
        },
        (TerminalLifecycleState::AwaitReady, GuardianEvent::Ready) => Some(
            TerminalLifecycleState::ReadyForGate,
        ),
        (TerminalLifecycleState::AwaitGateOpened, GuardianEvent::InputGateOpened) => Some(
            TerminalLifecycleState::Active,
        ),
        (
            TerminalLifecycleState::AwaitSignalForwarded { signal: expected, was_suspended },
            GuardianEvent::SignalForwarded { signal },
        ) => if signal != expected {
            None
        } else if signal.ends_session() {
            Some(TerminalLifecycleState::AwaitQuiesced)
        } else if was_suspended {
            Some(TerminalLifecycleState::Suspended)
        } else {
            Some(TerminalLifecycleState::Active)
        },
        (
            TerminalLifecycleState::AwaitSignalForwarded { signal, was_suspended },
            GuardianEvent::TerminalQuiesced,
        ) => if !signal.ends_session() && !was_suspended {
            Some(TerminalLifecycleState::Quiesced)
        } else {
            None
        },
        (
            TerminalLifecycleState::AwaitResizeApplied { rows: expected_rows, cols: expected_cols },
            GuardianEvent::ResizeApplied { rows, cols },
        ) => if rows == expected_rows && cols == expected_cols {
            Some(TerminalLifecycleState::Active)
        } else {
            None
        },
        (TerminalLifecycleState::AwaitResizeApplied { .. }, GuardianEvent::TerminalQuiesced) => Some(
            TerminalLifecycleState::Quiesced,
        ),
        (TerminalLifecycleState::AwaitSuspended, GuardianEvent::Suspended) => Some(
            TerminalLifecycleState::Suspended,
        ),
        (
            TerminalLifecycleState::AwaitResumed { rows: expected_rows, cols: expected_cols },
            GuardianEvent::Resumed { rows, cols },
        ) => if rows == expected_rows && cols == expected_cols {
            Some(TerminalLifecycleState::ReadyForGate)
        } else {
            None
        },
        (TerminalLifecycleState::Active, GuardianEvent::TerminalQuiesced) => Some(
            TerminalLifecycleState::Quiesced,
        ),
        (TerminalLifecycleState::AwaitQuiesced, GuardianEvent::TerminalQuiesced) => Some(
            TerminalLifecycleState::Quiesced,
        ),
        (TerminalLifecycleState::FailedAwaitQuiesced, GuardianEvent::TerminalQuiesced) => Some(
            TerminalLifecycleState::Quiesced,
        ),
        (
            TerminalLifecycleState::AwaitRecoveryDisarmed,
            GuardianEvent::TerminalRecoveryDisarmed,
        ) => Some(TerminalLifecycleState::RecoveryDisarmed),
        (TerminalLifecycleState::RecoveryDisarmed, GuardianEvent::ChildrenReaped { .. }) => Some(
            TerminalLifecycleState::Terminal,
        ),
        _ => None,
    }
}

/// The states in which typed bytes may flow to the TUI.
pub open spec fn gate_open_state(state: TerminalLifecycleState) -> bool {
    match state {
        TerminalLifecycleState::Active => true,
        TerminalLifecycleState::AwaitSignalForwarded { signal, was_suspended } =>
            !signal.ends_session() && !was_suspended,
        TerminalLifecycleState::AwaitResizeApplied { .. } => true,
        _ => false,
    }
}

/// The termination cause that an acknowledged signal establishes.
pub open spec fn forwarded_cause(signal: UnixSignal) -> Option<SessionTerminationCause> {
    match signal {
        UnixSignal::Hup => Some(SessionTerminationCause::ForwardedHup),
        UnixSignal::Term => Some(SessionTerminationCause::ForwardedTerm),
        _ => None,
    }
}

/// Whether a new failure may be announced.
///
/// The worker is joined only after the terminal was restored and recovery was
/// disarmed, so a failed join is the sole failure that may come up there.
pub open spec fn failure_in_order(
    state: TerminalLifecycleState,
    phase: Phase,
    code: FailureCode,
) -> bool {
    match state {
        TerminalLifecycleState::AwaitLeaseBeforeStart => false,
        TerminalLifecycleState::AwaitStart => false,
        TerminalLifecycleState::Terminal => false,
        TerminalLifecycleState::FailedAwaitQuiesced => false,
        TerminalLifecycleState::RecoveryDisarmed => phase == Phase::Worker && code
            == FailureCode::Worker,
        _ => true,
    }
}

impl TerminalLifecycleValidator {
    /// The validator before anything was sent or received.
    pub open spec fn initial() -> Self {
        TerminalLifecycleValidator {
            state: TerminalLifecycleState::AwaitLeaseBeforeStart,
            lease_committed: false,
            app_started: false,
            tui_started: false,
            app_process_group: None,
            gate_ever_opened: false,
            superseded_gate_may_be_pending: false,
            recovery_command_allowance: RecoveryCommandAllowance::Inactive,
            failure: None,
            termination_cause: None,
            terminal_exit_disposition: None,
        }
    }

    pub fn before_start() -> (validator: Self)
        ensures
            validator == Self::initial(),
    {
        TerminalLifecycleValidator {
            state: TerminalLifecycleState::AwaitLeaseBeforeStart,
            lease_committed: false,
            app_started: false,
            tui_started: false,
            app_process_group: None,
            gate_ever_opened: false,
            superseded_gate_may_be_pending: false,
            recovery_command_allowance: RecoveryCommandAllowance::Inactive,
            failure: None,
            termination_cause: None,
            terminal_exit_disposition: None,
        }
    }

    /// The validator after recovery was selected in the present state.
    pub open spec fn after_arming_recovery(self) -> Result<Self, ProtocolError> {
        match recovery_window(self.state) {
            Some(window) => if self.failure is None && self.recovery_command_allowance
                == RecoveryCommandAllowance::Inactive {
                Ok(
                    TerminalLifecycleValidator {
                        recovery_command_allowance: RecoveryCommandAllowance::AwaitingFailure(
                            window,
                        ),
                        ..self
                    },
                )
            } else {
                Err(ProtocolError::UnexpectedState)
            },
            None => Err(ProtocolError::UnexpectedState),
        }
    }

    /// Opens the slot for one command that the peer may already have written.
    /// The recovery failure announced next must confirm it.
    pub fn arm_recovery_command_race(&mut self) -> (armed: Result<(), ProtocolError>)
        ensures
            match old(self).after_arming_recovery() {
                Ok(next) => armed == Ok::<(), ProtocolError>(()) && *final(self) == next,
                Err(error) => armed == Err::<(), ProtocolError>(error) && *final(self) == *old(
                    self,
                ),
            },
    {
        if self.failure.is_some() || self.recovery_command_allowance
            != RecoveryCommandAllowance::Inactive {
            return Err(ProtocolError::UnexpectedState);
        }
        let window = match self.state {
            TerminalLifecycleState::ReadyForGate => RecoveryCommandWindow::ReadyForGate,
            TerminalLifecycleState::Active => RecoveryCommandWindow::Active,
            TerminalLifecycleState::Suspended => RecoveryCommandWindow::Suspended,
            _ => {
                return Err(ProtocolError::UnexpectedState);
            },
        };
        self.recovery_command_allowance = RecoveryCommandAllowance::AwaitingFailure(window);
        Ok(())
    }

    /// How the recovery slot answers a command: it refuses it, drains it, or
    /// leaves it to the ordinary rules. The slot never outlives restoration.
    pub open spec fn recovery_slot(self, command: CoordinatorCommand) -> Result<
        (Self, Option<TerminalCommandAcceptance>),
        ProtocolError,
    > {
        if self.state != TerminalLifecycleState::Quiesced {
            Ok((self, None))
        } else {
            match self.recovery_command_allowance {
                RecoveryCommandAllowance::Inactive => Ok((self, None)),
                RecoveryCommandAllowance::AwaitingFailure(_) => Err(ProtocolError::UnexpectedState),
                RecoveryCommandAllowance::Consumed => if command is TerminalRestored {
                    Ok((self.with_slot_closed(), None))
                } else {
                    Err(ProtocolError::UnexpectedState)
                },
                RecoveryCommandAllowance::Armed(window) => if command is TerminalRestored {
                    Ok((self.with_slot_closed(), None))
                } else if !window_admits(window, command) {
                    Err(ProtocolError::UnexpectedState)
                } else if !command_size_valid(command) {
                    Err(ProtocolError::InvalidValue)
                } else {
                    Ok(
                        (
                            TerminalLifecycleValidator {
                                recovery_command_allowance: RecoveryCommandAllowance::Consumed,
                                superseded_gate_may_be_pending: false,
                                ..self
                            },
                            Some(TerminalCommandAcceptance::RecoverySuperseded),
                        ),
                    )
                },
            }
        }
    }

    pub open spec fn with_slot_closed(self) -> Self {
        TerminalLifecycleValidator {
            recovery_command_allowance: RecoveryCommandAllowance::Inactive,
            ..self
        }
    }

    pub fn accept_recovery_superseded_command(&mut self, command: CoordinatorCommand) -> (drained:
        Result<Option<TerminalCommandAcceptance>, ProtocolError>)
        ensures
            match old(self).recovery_slot(command) {
                Ok((next, acceptance)) => drained == Ok::<
                    Option<TerminalCommandAcceptance>,
                    ProtocolError,
                >(acceptance) && *final(self) == next,
                Err(error) => drained == Err::<Option<TerminalCommandAcceptance>, ProtocolError>(
                    error,
                ) && *final(self) == *old(self),
            },
    {
        if self.state != TerminalLifecycleState::Quiesced {
            return Ok(None);
        }
        let window = match self.recovery_command_allowance {
            RecoveryCommandAllowance::Inactive => {
                return Ok(None);
            },
            RecoveryCommandAllowance::AwaitingFailure(_) => {
                return Err(ProtocolError::UnexpectedState);
            },
            RecoveryCommandAllowance::Consumed => {
                if command == CoordinatorCommand::TerminalRestored {
                    self.recovery_command_allowance = RecoveryCommandAllowance::Inactive;
                    return Ok(None);
                }
                return Err(ProtocolError::UnexpectedState);
            },
            RecoveryCommandAllowance::Armed(window) => window,
        };
        if command == CoordinatorCommand::TerminalRestored {
            self.recovery_command_allowance = RecoveryCommandAllowance::Inactive;
            return Ok(None);
        }
        let allowed = match (window, command) {
            (
                RecoveryCommandWindow::ReadyForGate,
                CoordinatorCommand::OpenInputGate | CoordinatorCommand::Stop,
            ) => true,
            (
                RecoveryCommandWindow::Active,
                CoordinatorCommand::Signal { .. }
                | CoordinatorCommand::Suspend
                | CoordinatorCommand::Stop,
            ) => true,
            (
                RecoveryCommandWindow::Suspended,
                CoordinatorCommand::Signal { .. } | CoordinatorCommand::Stop,
            ) => true,
            (RecoveryCommandWindow::Active, CoordinatorCommand::Resize { rows, cols }) => {
                validate_terminal_size(rows, cols)?;
                true
            },
            (RecoveryCommandWindow::Suspended, CoordinatorCommand::Resume { rows, cols }) => {
                validate_terminal_size(rows, cols)?;
                true
            },
            _ => false,
        };
        if !allowed {
            return Err(ProtocolError::UnexpectedState);
        }
        self.recovery_command_allowance = RecoveryCommandAllowance::Consumed;
        self.superseded_gate_may_be_pending = false;
        Ok(Some(TerminalCommandAcceptance::RecoverySuperseded))
    }

    /// The validator after a command, and how the command was taken; or why it
    /// is refused.
    pub open spec fn after_command(self, command: CoordinatorCommand) -> Result<
        (Self, TerminalCommandAcceptance),
        ProtocolError,
    > {
        match self.recovery_slot(command) {
            Err(error) => Err(error),
            Ok((next, Some(acceptance))) => Ok((next, acceptance)),
            Ok((slot, None)) => match state_after_command(
                slot.state,
                command,
                slot.superseded_gate_may_be_pending,
            ) {
                None => Err(ProtocolError::UnexpectedState),
                Some(state) => if !command_size_valid(command) {
                    Err(ProtocolError::InvalidValue)
                } else {
                    Ok(
                        (
                            TerminalLifecycleValidator {
                                state,
                                superseded_gate_may_be_pending: slot.superseded_gate_may_be_pending
                                    && !(slot.state == TerminalLifecycleState::Quiesced && (
                                command is OpenInputGate || command is TerminalRestored)),
                                termination_cause: if command is Stop {
                                    Some(SessionTerminationCause::CoordinatorStop)
                                } else {
                                    slot.termination_cause
                                },
                                ..slot
                            },
                            TerminalCommandAcceptance::Applied,
                        ),
                    )
                },
            },
        }
    }

    /// Takes one command into the transcript. A refused command changes
    /// nothing.
    pub fn accept_command(&mut self, command: CoordinatorCommand) -> (accepted: Result<
        TerminalCommandAcceptance,
        ProtocolError,
    >)
        ensures
            match old(self).after_command(command) {
                Ok((next, acceptance)) => accepted == Ok::<
                    TerminalCommandAcceptance,
                    ProtocolError,
                >(acceptance) && *final(self) == next,
                Err(error) => accepted == Err::<TerminalCommandAcceptance, ProtocolError>(error)
                    && *final(self) == *old(self),
            },
    {
        match self.accept_recovery_superseded_command(command) {
            Err(error) => {
                return Err(error);
            },
            Ok(Some(acceptance)) => {
                return Ok(acceptance);
            },
            Ok(None) => {},
        }
        let coordinator_stop = matches!(
            (self.state, command),
            (
                TerminalLifecycleState::ReadyForGate
                | TerminalLifecycleState::Active
                | TerminalLifecycleState::Suspended,
                CoordinatorCommand::Stop,
            )
        );
        let next = match (self.state, command) {
            (TerminalLifecycleState::AwaitStart, CoordinatorCommand::Start) =>
                TerminalLifecycleState::AwaitTerminalArmed,
            (
                TerminalLifecycleState::AwaitTerminalArmAcceptance,
                CoordinatorCommand::TerminalArmAccepted,
            ) => TerminalLifecycleState::AwaitApp,
            (TerminalLifecycleState::ReadyForGate, CoordinatorCommand::OpenInputGate) =>
                TerminalLifecycleState::AwaitGateOpened,
            (TerminalLifecycleState::Active, CoordinatorCommand::Signal { signal }) =>
                TerminalLifecycleState::AwaitSignalForwarded { signal, was_suspended: false },
            (TerminalLifecycleState::Suspended, CoordinatorCommand::Signal { signal }) =>
                TerminalLifecycleState::AwaitSignalForwarded { signal, was_suspended: true },
            (TerminalLifecycleState::Active, CoordinatorCommand::Resize { rows, cols }) => {
                validate_terminal_size(rows, cols)?;
                TerminalLifecycleState::AwaitResizeApplied { rows, cols }
            },
            (TerminalLifecycleState::Active, CoordinatorCommand::Suspend) =>
                TerminalLifecycleState::AwaitSuspended,
            (TerminalLifecycleState::Suspended, CoordinatorCommand::Resume { rows, cols }) => {
                validate_terminal_size(rows, cols)?;
                TerminalLifecycleState::AwaitResumed { rows, cols }
            },
            (
                TerminalLifecycleState::ReadyForGate
                | TerminalLifecycleState::Active
                | TerminalLifecycleState::Suspended,
                CoordinatorCommand::Stop,
            ) => TerminalLifecycleState::AwaitQuiesced,
            (
                TerminalLifecycleState::Quiesced,
                CoordinatorCommand::Signal { signal: UnixSignal::Int | UnixSignal::Quit },
            ) => TerminalLifecycleState::Quiesced,
            (TerminalLifecycleState::Quiesced, CoordinatorCommand::Resize { rows, cols }) => {
                validate_terminal_size(rows, cols)?;
                TerminalLifecycleState::Quiesced
            },
            (TerminalLifecycleState::Quiesced, CoordinatorCommand::OpenInputGate) => {
                if !self.superseded_gate_may_be_pending {
                    return Err(ProtocolError::UnexpectedState);
                }
                self.superseded_gate_may_be_pending = false;
                TerminalLifecycleState::Quiesced
            },
            (TerminalLifecycleState::Quiesced, CoordinatorCommand::TerminalRestored) => {
                self.superseded_gate_may_be_pending = false;
                TerminalLifecycleState::AwaitRecoveryDisarmed
            },
            _ => {
                return Err(ProtocolError::UnexpectedState);
            },
        };
        self.state = next;
        if coordinator_stop {
            self.termination_cause = Some(SessionTerminationCause::CoordinatorStop);
        }
        Ok(TerminalCommandAcceptance::Applied)
    }

    /// The validator after an announced failure, or why it is refused.
    ///
    /// Recovery selected out of band must be confirmed by exactly the protocol
    /// failure that announces it; nothing else may be announced meanwhile.
    pub open spec fn after_failure(self, phase: Phase, code: FailureCode) -> Result<
        Self,
        ProtocolError,
    > {
        let slot = self.recovery_command_allowance;
        let confirms = slot is AwaitingFailure && phase == Phase::Protocol && code
            == FailureCode::Internal;
        if self.failure is Some || !failure_in_order(self.state, phase, code) || !(slot is Inactive
            || confirms) {
            Err(ProtocolError::UnexpectedState)
        } else {
            Ok(
                TerminalLifecycleValidator {
                    superseded_gate_may_be_pending: self.state
                        == TerminalLifecycleState::ReadyForGate && slot is Inactive,
                    recovery_command_allowance: match slot {
                        RecoveryCommandAllowance::AwaitingFailure(window) =>
                            RecoveryCommandAllowance::Armed(window),
                        _ => slot,
                    },
                    failure: Some((phase, code)),
                    state: match self.state {
                        TerminalLifecycleState::Quiesced => self.state,
                        TerminalLifecycleState::AwaitRecoveryDisarmed => self.state,
                        TerminalLifecycleState::RecoveryDisarmed => self.state,
                        _ => TerminalLifecycleState::FailedAwaitQuiesced,
                    },
                    ..self
                },
            )
        }
    }

    pub fn accept_failure(&mut self, phase: Phase, code: FailureCode) -> (accepted: Result<
        (),
        ProtocolError,
    >)
        ensures
            match old(self).after_failure(phase, code) {
                Ok(next) => accepted == Ok::<(), ProtocolError>(()) && *final(self) == next,
                Err(error) => accepted == Err::<(), ProtocolError>(error) && *final(self) == *old(
                    self,
                ),
            },
    {
        let post_recovery_worker_failure = self.state == TerminalLifecycleState::RecoveryDisarmed
            && phase == Phase::Worker && code == FailureCode::Worker;
        if self.failure.is_some() || matches!(
            self.state,
            TerminalLifecycleState::AwaitLeaseBeforeStart
            | TerminalLifecycleState::AwaitStart
            | TerminalLifecycleState::Terminal
            | TerminalLifecycleState::FailedAwaitQuiesced
        ) || (self.state == TerminalLifecycleState::RecoveryDisarmed
            && !post_recovery_worker_failure) {
            return Err(ProtocolError::UnexpectedState);
        }
        let confirmed = match self.recovery_command_allowance {
            RecoveryCommandAllowance::AwaitingFailure(window) => {
                if phase != Phase::Protocol || code != FailureCode::Internal {
                    return Err(ProtocolError::UnexpectedState);
                }
                Some(window)
            },
            RecoveryCommandAllowance::Armed(_) | RecoveryCommandAllowance::Consumed => {
                return Err(ProtocolError::UnexpectedState);
            },
            RecoveryCommandAllowance::Inactive => None,
        };
        self.superseded_gate_may_be_pending = self.state == TerminalLifecycleState::ReadyForGate
            && confirmed.is_none();
        if let Some(window) = confirmed {
            self.recovery_command_allowance = RecoveryCommandAllowance::Armed(window);
        }
        self.failure = Some((phase, code));
        if !matches!(
            self.state,
            TerminalLifecycleState::Quiesced
            | TerminalLifecycleState::AwaitRecoveryDisarmed
            | TerminalLifecycleState::RecoveryDisarmed
        ) {
            self.state = TerminalLifecycleState::FailedAwaitQuiesced;
        }
        Ok(())
    }

    /// The judgement on the terminal frame.
    ///
    /// Every started child is accounted for and none other, and a session
    /// without failure reports exactly what the two dispositions stand for (or
    /// an internal failure of the guardian itself). After an announced failure
    /// only a failed session with an internal failure is terminal, and a
    /// cleanup or restoration failure withholds terminal authority altogether.
    pub open spec fn terminal_verdict(self, event: GuardianEvent) -> Result<
        GuardianExitDisposition,
        ProtocolError,
    > {
        match event {
            GuardianEvent::ChildrenReaped { app, tui, worker, session, guardian_exit, .. } => {
                let app_reaped = !(app is NotStarted);
                let tui_reaped = !(tui is NotStarted);
                if app_reaped != self.app_started || tui_reaped != self.tui_started {
                    Err(ProtocolError::InvalidValue)
                } else if worker == WorkerJoinStatus::NotStarted && (tui_reaped || (app_reaped
                    && self.failure is None)) {
                    Err(ProtocolError::InvalidValue)
                } else {
                    match self.failure {
                        None => {
                            let stopped_before_gate = self.termination_cause == Some(
                                SessionTerminationCause::CoordinatorStop,
                            );
                            if worker != WorkerJoinStatus::JoinedClean || !self.lease_committed
                                || !self.app_started || !self.tui_started || !(
                            self.gate_ever_opened || stopped_before_gate) {
                                Err(ProtocolError::InvalidValue)
                            } else {
                                match self.termination_cause {
                                    None => Err(ProtocolError::UnexpectedState),
                                    Some(cause) => {
                                        let internal = guardian_exit
                                            == GuardianExitDisposition::InternalFailure && session
                                            == SessionStatus::Failed;
                                        if internal || (guardian_exit
                                            != GuardianExitDisposition::InternalFailure && (
                                            session,
                                            guardian_exit,
                                        ) == terminal_semantics(app, tui, worker, cause)) {
                                            Ok(guardian_exit)
                                        } else {
                                            Err(ProtocolError::InvalidValue)
                                        }
                                    },
                                }
                            }
                        },
                        Some((phase, code)) => if phase == Phase::Cleanup || phase == Phase::Restore
                            || code == FailureCode::CleanupMismatch || code
                            == FailureCode::Restore {
                            Err(ProtocolError::UnexpectedState)
                        } else if session == SessionStatus::Failed && guardian_exit
                            == GuardianExitDisposition::InternalFailure {
                            Ok(guardian_exit)
                        } else {
                            Err(ProtocolError::InvalidValue)
                        },
                    }
                }
            },
            _ => Err(ProtocolError::UnexpectedState),
        }
    }

    pub fn validate_terminal(&self, event: GuardianEvent) -> (verdict: Result<
        GuardianExitDisposition,
        ProtocolError,
    >)
        ensures
            verdict == self.terminal_verdict(event),
    {
        let (app, tui, worker, session, guardian_exit) = match event {
            GuardianEvent::ChildrenReaped {
                app,
                tui,
                worker,
                cleanup: CleanupStatus::Complete,
                session,
                guardian_exit,
            } => (app, tui, worker, session, guardian_exit),
            _ => {
                return Err(ProtocolError::UnexpectedState);
            },
        };
        let app_started = !matches!(app, ChildDisposition::NotStarted);
        let tui_started = !matches!(tui, ChildDisposition::NotStarted);
        if app_started != self.app_started || tui_started != self.tui_started {
            return Err(ProtocolError::InvalidValue);
        }
        if worker == WorkerJoinStatus::NotStarted && (tui_started || (app_started
            && self.failure.is_none())) {
            return Err(ProtocolError::InvalidValue);
        }
        match self.failure {
            None => {
                let stopped_before_gate = match self.termination_cause {
                    Some(SessionTerminationCause::CoordinatorStop) => true,
                    _ => false,
                };
                if worker != WorkerJoinStatus::JoinedClean || !self.lease_committed
                    || !self.app_started || !self.tui_started || (!self.gate_ever_opened
                    && !stopped_before_gate) {
                    return Err(ProtocolError::InvalidValue);
                }
                let cause = match self.termination_cause {
                    Some(cause) => cause,
                    None => {
                        return Err(ProtocolError::UnexpectedState);
                    },
                };
                let (expected_status, disposition) = project_terminal_semantics(
                    app,
                    tui,
                    worker,
                    cause,
                );
                if guardian_exit == GuardianExitDisposition::InternalFailure {
                    if session != SessionStatus::Failed {
                        return Err(ProtocolError::InvalidValue);
                    }
                } else if session != expected_status || guardian_exit != disposition {
                    return Err(ProtocolError::InvalidValue);
                }
            },
            Some((phase, code)) => {
                if matches!(phase, Phase::Cleanup | Phase::Restore) || matches!(
                    code,
                    FailureCode::CleanupMismatch | FailureCode::Restore
                ) {
                    return Err(ProtocolError::UnexpectedState);
                }
                if session != SessionStatus::Failed || guardian_exit
                    != GuardianExitDisposition::InternalFailure {
                    return Err(ProtocolError::InvalidValue);
                }
            },
        }
        Ok(guardian_exit)
    }

    /// Whether the values that an event carries may stand where it comes.
    pub open spec fn event_value(self, event: GuardianEvent) -> Result<(), ProtocolError> {
        match event {
            GuardianEvent::ChildStarted { role, pid, pgid } => if !valid_process_group(pid, pgid)
                || (role == ChildRole::Tui && self.app_process_group == Some(pgid)) {
                Err(ProtocolError::InvalidValue)
            } else {
                Ok(())
            },
            GuardianEvent::ChildrenReaped { .. } => match self.terminal_verdict(event) {
                Ok(_) => Ok(()),
                Err(error) => Err(error),
            },
            _ => Ok(()),
        }
    }

    /// The validator after an event, or why the event is refused.
    pub open spec fn after_event(self, event: GuardianEvent) -> Result<Self, ProtocolError> {
        match event {
            GuardianEvent::Failed { phase, code } => self.after_failure(phase, code),
            _ => match state_after_event(self.state, event) {
                None => Err(ProtocolError::UnexpectedState),
                Some(state) => match self.event_value(event) {
                    Err(error) => Err(error),
                    Ok(_) => Ok(
                        TerminalLifecycleValidator {
                            state,
                            lease_committed: self.lease_committed || event is LeaseCommitted,
                            app_started: self.app_started || state
                                == TerminalLifecycleState::AwaitTui,
                            tui_started: self.tui_started || state
                                == TerminalLifecycleState::AwaitReady,
                            app_process_group: match event {
                                GuardianEvent::ChildStarted {
                                    role: ChildRole::AppServer,
                                    pgid,
                                    ..
                                } => Some(pgid),
                                _ => self.app_process_group,
                            },
                            gate_ever_opened: self.gate_ever_opened || event is InputGateOpened,
                            termination_cause: match event {
                                GuardianEvent::SignalForwarded { signal } => if signal.ends_session() {
                                    forwarded_cause(signal)
                                } else {
                                    self.termination_cause
                                },
                                GuardianEvent::TerminalQuiesced => if gate_open_state(self.state)
                                    && self.termination_cause is None {
                                    Some(SessionTerminationCause::NaturalTuiEof)
                                } else {
                                    self.termination_cause
                                },
                                _ => self.termination_cause,
                            },
                            terminal_exit_disposition: match event {
                                GuardianEvent::ChildrenReaped { guardian_exit, .. } => Some(
                                    guardian_exit,
                                ),
                                _ => self.terminal_exit_disposition,
                            },
                            ..self
                        },
                    ),
                },
            },
        }
    }

    /// Takes one event into the transcript. A refused event changes nothing.
    pub fn accept_event(&mut self, event: GuardianEvent) -> (accepted: Result<(), ProtocolError>)
        ensures
            match old(self).after_event(event) {
                Ok(next) => accepted == Ok::<(), ProtocolError>(()) && *final(self) == next,
                Err(error) => accepted == Err::<(), ProtocolError>(error) && *final(self) == *old(
                    self,
                ),
            },
    {
        if let GuardianEvent::Failed { phase, code } = event {
            return self.accept_failure(phase, code);
        }
        let prior_state = self.state;
        let next = match (prior_state, event) {
            (TerminalLifecycleState::AwaitLeaseBeforeStart, GuardianEvent::LeaseCommitted) => {
                self.lease_committed = true;
                TerminalLifecycleState::AwaitStart
            },
            (TerminalLifecycleState::AwaitTerminalArmed, GuardianEvent::TerminalArmed { .. }) =>
                TerminalLifecycleState::AwaitTerminalArmAcceptance,
            (
                TerminalLifecycleState::AwaitApp,
                GuardianEvent::ChildStarted { role: ChildRole::AppServer, pid, pgid },
            ) => {
                validate_process_group(pid, pgid)?;
                self.app_started = true;
                self.app_process_group = Some(pgid);
                TerminalLifecycleState::AwaitTui
            },
            (
                TerminalLifecycleState::AwaitTui,
                GuardianEvent::ChildStarted { role: ChildRole::Tui, pid, pgid },
            ) => {
                validate_process_group(pid, pgid)?;
                if let Some(app_pgid) = self.app_process_group {
                    if app_pgid == pgid {
                        return Err(ProtocolError::InvalidValue);
                    }
                }
                self.tui_started = true;
                TerminalLifecycleState::AwaitReady
            },
            (TerminalLifecycleState::AwaitReady, GuardianEvent::Ready) =>
                TerminalLifecycleState::ReadyForGate,
            (TerminalLifecycleState::AwaitGateOpened, GuardianEvent::InputGateOpened) => {
                self.gate_ever_opened = true;
                TerminalLifecycleState::Active
            },
            (
                TerminalLifecycleState::AwaitSignalForwarded { signal: expected, was_suspended },
                GuardianEvent::SignalForwarded { signal },
            ) => {
                if signal != expected {
                    return Err(ProtocolError::UnexpectedState);
                }
                match signal {
                    UnixSignal::Hup => {
                        self.termination_cause = Some(SessionTerminationCause::ForwardedHup);
                        TerminalLifecycleState::AwaitQuiesced
                    },
                    UnixSignal::Term => {
                        self.termination_cause = Some(SessionTerminationCause::ForwardedTerm);
                        TerminalLifecycleState::AwaitQuiesced
                    },
                    UnixSignal::Int | UnixSignal::Quit => {
                        if was_suspended {
                            TerminalLifecycleState::Suspended
                        } else {
                            TerminalLifecycleState::Active
                        }
                    },
                }
            },
            (
                TerminalLifecycleState::AwaitResizeApplied {
                    rows: expected_rows,
                    cols: expected_cols,
                },
                GuardianEvent::ResizeApplied { rows, cols },
            ) => {
                if rows != expected_rows || cols != expected_cols {
                    return Err(ProtocolError::UnexpectedState);
                }
                TerminalLifecycleState::Active
            },
            (
                TerminalLifecycleState::AwaitSignalForwarded {
                    signal: UnixSignal::Int | UnixSignal::Quit,
                    was_suspended: false,
                },
                GuardianEvent::TerminalQuiesced,
            ) => TerminalLifecycleState::Quiesced,
            (TerminalLifecycleState::AwaitResizeApplied { .. }, GuardianEvent::TerminalQuiesced) =>
                TerminalLifecycleState::Quiesced,
            (TerminalLifecycleState::AwaitSuspended, GuardianEvent::Suspended) =>
                TerminalLifecycleState::Suspended,
            (
                TerminalLifecycleState::AwaitResumed { rows: expected_rows, cols: expected_cols },
                GuardianEvent::Resumed { rows, cols },
            ) => {
                if rows != expected_rows || cols != expected_cols {
                    return Err(ProtocolError::UnexpectedState);
                }
                TerminalLifecycleState::ReadyForGate
            },
            (
                TerminalLifecycleState::Active
                | TerminalLifecycleState::AwaitQuiesced
                | TerminalLifecycleState::FailedAwaitQuiesced,
                GuardianEvent::TerminalQuiesced,
            ) => TerminalLifecycleState::Quiesced,
            (
                TerminalLifecycleState::AwaitRecoveryDisarmed,
                GuardianEvent::TerminalRecoveryDisarmed,
            ) => TerminalLifecycleState::RecoveryDisarmed,
            (TerminalLifecycleState::RecoveryDisarmed, GuardianEvent::ChildrenReaped { .. }) => {
                let disposition = self.validate_terminal(event)?;
                self.terminal_exit_disposition = Some(disposition);
                TerminalLifecycleState::Terminal
            },
            _ => {
                return Err(ProtocolError::UnexpectedState);
            },
        };
        self.state = next;
        if matches!(event, GuardianEvent::TerminalQuiesced) && self.termination_cause.is_none()
            && matches!(
            prior_state,
            TerminalLifecycleState::Active
            | TerminalLifecycleState::AwaitResizeApplied { .. }
            | TerminalLifecycleState::AwaitSignalForwarded {
                signal: UnixSignal::Int | UnixSignal::Quit,
                was_suspended: false,
            }
        ) {
            self.termination_cause = Some(SessionTerminationCause::NaturalTuiEof);
        }
        Ok(())
    }

    /// Hands the terminal disposition out once.
    pub fn take_terminal_exit_disposition(&mut self) -> (taken: Option<GuardianExitDisposition>)
        ensures
            taken == old(self).terminal_exit_disposition,
            *final(self) == (TerminalLifecycleValidator {
                terminal_exit_disposition: None,
                ..*old(self)
            }),
    {
        let taken = self.terminal_exit_disposition;
        self.terminal_exit_disposition = None;
        taken
    }

    pub fn terminal_received(&self) -> (received: bool)
        ensures
            received == (self.state == TerminalLifecycleState::Terminal),
    {
        matches!(self.state, TerminalLifecycleState::Terminal)
    }

    pub fn input_gate_opened(&self) -> (opened: bool)
        ensures
            opened == gate_open_state(self.state),
    {
        matches!(
            self.state,
            TerminalLifecycleState::Active
            | TerminalLifecycleState::AwaitSignalForwarded {
                signal: UnixSignal::Int | UnixSignal::Quit,
                was_suspended: false,
            }
            | TerminalLifecycleState::AwaitResizeApplied { .. }
        )
    }
}

} // verus!
