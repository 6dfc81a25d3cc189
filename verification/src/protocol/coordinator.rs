//! The coordinator's end of the lifecycle wire.
//!
//! It receives and validates the guardian's events. A protocol error poisons
//! the receiver: a later terminal frame can never repair an invalid stream.
use vstd::prelude::*;

use crate::protocol::codec::{valid_process_group, validate_process_group};
use crate::clock::Moment;
use crate::protocol::frame::command_frame;
use crate::protocol::framing::{send_coordinator_command, FrameReceiver, FrameSender, ReceiveModel, SendModel};
use crate::protocol::lifecycle::{
    gate_open_state, TerminalLifecycleState, TerminalLifecycleValidator,
};
use crate::protocol::message::{
    ChildDisposition, ChildRole, CleanupStatus, CoordinatorCommand, FailureCode, GuardianEvent,
    GuardianExitDisposition, Phase, ProtocolError, SessionStatus, WorkerJoinStatus,
};
use crate::protocol::proof_token::{VerifiedGuardianExitDisposition, VerifiedOpenGateAck, VerifiedReady};
use crate::protocol::transfer::{
    phase_step, shared_step, unless_late, TransferPhase, TransferStep, WireAction, WireEvent,
};
use crate::protocol::wire::GUARDIAN_DIRECTION;

verus! {

/// Where the events of a session without a terminal stand.
#[derive(Clone, Copy, Debug, PartialEq, Eq, Structural)]
pub enum CoordinatorState {
    AwaitLease,
    AwaitApp,
    AwaitTui,
    AwaitReady,
    Ready,
    Failed,
    Terminal,
}

/// Everything the coordinator knows of the transcript.
///
/// With a `terminal` validator the full duplex transcript is judged by it and
/// the plain fields stay as they began; without one they judge the events.
#[derive(Clone, Copy, Debug)]
pub struct CoordinatorTranscript {
    pub terminal: Option<TerminalLifecycleValidator>,
    pub state: CoordinatorState,
    pub lease_committed: bool,
    pub app_started: bool,
    pub tui_started: bool,
    pub failure: Option<(Phase, FailureCode)>,
    pub poisoned: bool,
    pub eof_verified: bool,
    pub verified_ready_pending: bool,
    pub verified_open_gate_ack_pending: bool,
}

impl CoordinatorTranscript {
    pub open spec fn start(terminal: Option<TerminalLifecycleValidator>) -> Self {
        CoordinatorTranscript {
            terminal,
            state: CoordinatorState::AwaitLease,
            lease_committed: false,
            app_started: false,
            tui_started: false,
            failure: None,
            poisoned: false,
            eof_verified: false,
            verified_ready_pending: false,
            verified_open_gate_ack_pending: false,
        }
    }

    /// The terminal frame was accepted and nothing went wrong since.
    pub open spec fn ended(self) -> bool {
        !self.poisoned && match self.terminal {
            Some(validator) => validator.state == TerminalLifecycleState::Terminal,
            None => self.state == CoordinatorState::Terminal,
        }
    }

    pub open spec fn gate_open(self) -> bool {
        !self.poisoned && match self.terminal {
            Some(validator) => gate_open_state(validator.state),
            None => false,
        }
    }

    pub open spec fn poison(self) -> Self {
        CoordinatorTranscript { poisoned: true, ..self }
    }

    /// Proofs are valid only for the immediately preceding transition.
    pub open spec fn without_proofs(self) -> Self {
        CoordinatorTranscript {
            verified_ready_pending: false,
            verified_open_gate_ack_pending: false,
            ..self
        }
    }

    /// A proof that can be taken matches the state that minted it.
    pub open spec fn well_formed(self) -> bool {
        &&& self.verified_ready_pending ==> !self.poisoned && (self.terminal matches Some(validator)
            && validator.state == TerminalLifecycleState::ReadyForGate)
        &&& self.verified_open_gate_ack_pending ==> !self.poisoned && (self.terminal matches Some(
            validator,
        ) && validator.state == TerminalLifecycleState::Active)
        &&& self.eof_verified ==> self.ended()
    }

    /// The judgement on the terminal frame of a session without a terminal.
    pub open spec fn plain_verdict(self, event: GuardianEvent) -> Result<(), ProtocolError> {
        match event {
            GuardianEvent::ChildrenReaped { app, tui, worker, session, guardian_exit, .. } => {
                let app_reaped = !(app is NotStarted);
                let tui_reaped = !(tui is NotStarted);
                if app_reaped != self.app_started || tui_reaped != self.tui_started {
                    Err(ProtocolError::InvalidValue)
                } else if worker == WorkerJoinStatus::NotStarted && (tui_reaped || (app_reaped
                    && self.failure is None)) {
                    Err(ProtocolError::InvalidValue)
                } else {
                    match self.failure {
                        None => if self.state == CoordinatorState::Ready && session
                            == SessionStatus::Completed && worker == WorkerJoinStatus::JoinedClean
                            && self.lease_committed && self.app_started && self.tui_started
                            && guardian_exit == GuardianExitDisposition::Code(0) {
                            Ok(())
                        } else {
                            Err(ProtocolError::InvalidValue)
                        },
                        Some((phase, code)) => if phase == Phase::Cleanup || code
                            == FailureCode::CleanupMismatch {
                            Err(ProtocolError::UnexpectedState)
                        } else if session == SessionStatus::Failed && guardian_exit
                            == GuardianExitDisposition::InternalFailure {
                            Ok(())
                        } else {
                            Err(ProtocolError::InvalidValue)
                        },
                    }
                }
            },
            _ => Err(ProtocolError::UnexpectedState),
        }
    }

    /// The transcript of a session without a terminal after an event, or why
    /// the event is refused.
    pub open spec fn after_plain_event(self, event: GuardianEvent) -> Result<Self, ProtocolError> {
        match (self.state, event) {
            (CoordinatorState::AwaitLease, GuardianEvent::LeaseCommitted) => Ok(
                CoordinatorTranscript {
                    lease_committed: true,
                    state: CoordinatorState::AwaitApp,
                    ..self
                },
            ),
            (
                CoordinatorState::AwaitApp,
                GuardianEvent::ChildStarted { role: ChildRole::AppServer, pid, pgid },
            ) => if valid_process_group(pid, pgid) {
                Ok(
                    CoordinatorTranscript {
                        app_started: true,
                        state: CoordinatorState::AwaitTui,
                        ..self
                    },
                )
            } else {
                Err(ProtocolError::InvalidValue)
            },
            (
                CoordinatorState::AwaitTui,
                GuardianEvent::ChildStarted { role: ChildRole::Tui, pid, pgid },
            ) => if valid_process_group(pid, pgid) {
                Ok(
                    CoordinatorTranscript {
                        tui_started: true,
                        state: CoordinatorState::AwaitReady,
                        ..self
                    },
                )
            } else {
                Err(ProtocolError::InvalidValue)
            },
            (CoordinatorState::AwaitReady, GuardianEvent::Ready) => Ok(
                CoordinatorTranscript { state: CoordinatorState::Ready, ..self },
            ),
            (_, GuardianEvent::Failed { phase, code }) => if self.state == CoordinatorState::Failed
                || self.state == CoordinatorState::Terminal {
                Err(ProtocolError::UnexpectedState)
            } else {
                Ok(
                    CoordinatorTranscript {
                        failure: Some((phase, code)),
                        state: CoordinatorState::Failed,
                        ..self
                    },
                )
            },
            (_, GuardianEvent::ChildrenReaped { .. }) => if self.state == CoordinatorState::Ready
                || self.state == CoordinatorState::Failed {
                match self.plain_verdict(event) {
                    Ok(_) => Ok(
                        CoordinatorTranscript { state: CoordinatorState::Terminal, ..self },
                    ),
                    Err(error) => Err(error),
                }
            } else {
                Err(ProtocolError::UnexpectedState)
            },
            _ => Err(ProtocolError::UnexpectedState),
        }
    }

    /// The transcript after an event arrived in order, or why it did not.
    pub open spec fn after_event(self, event: GuardianEvent) -> Result<Self, ProtocolError> {
        match self.terminal {
            Some(validator) => match validator.after_event(event) {
                Ok(next) => Ok(
                    CoordinatorTranscript {
                        terminal: Some(next),
                        verified_ready_pending: event is Ready || event is Resumed,
                        verified_open_gate_ack_pending: event is InputGateOpened,
                        ..self
                    },
                ),
                Err(error) => Err(error),
            },
            None => self.after_plain_event(event),
        }
    }

    /// The transcript and the answer after a receive whose wire outcome is
    /// given. Any error poisons.
    pub open spec fn after_receive(self, outcome: Result<GuardianEvent, ProtocolError>) -> (
        Self,
        Result<GuardianEvent, ProtocolError>,
    ) {
        if self.poisoned || self.ended() {
            (self, Err(ProtocolError::UnexpectedState))
        } else {
            match outcome {
                Err(error) => (self.without_proofs().poison(), Err(error)),
                Ok(event) => match self.without_proofs().after_event(event) {
                    Err(error) => (self.without_proofs().poison(), Err(error)),
                    Ok(next) => (next, Ok(event)),
                },
            }
        }
    }

    /// The transcript and the answer after a command was recorded.
    pub open spec fn after_command(self, command: CoordinatorCommand) -> (
        Self,
        Result<(), ProtocolError>,
    ) {
        if self.poisoned || self.ended() {
            (self, Err(ProtocolError::UnexpectedState))
        } else {
            match self.terminal {
                None => (self.without_proofs().poison(), Err(ProtocolError::UnexpectedState)),
                Some(validator) => match validator.after_command(command) {
                    Err(error) => (self.without_proofs().poison(), Err(error)),
                    Ok((next, _)) => (
                        CoordinatorTranscript { terminal: Some(next), ..self.without_proofs() },
                        Ok(()),
                    ),
                },
            }
        }
    }

    /// The transcript after the readiness proof was asked for, and whether there
    /// was one to take.
    pub open spec fn taking_ready(self) -> (Self, bool) {
        if !self.poisoned && self.verified_ready_pending {
            (CoordinatorTranscript { verified_ready_pending: false, ..self }, true)
        } else {
            (self, false)
        }
    }

    /// The transcript after the input gate acknowledgement was asked for, and whether
    /// there was one to take.
    pub open spec fn taking_gate_ack(self) -> (Self, bool) {
        if !self.poisoned && self.verified_open_gate_ack_pending {
            (CoordinatorTranscript { verified_open_gate_ack_pending: false, ..self }, true)
        } else {
            (self, false)
        }
    }

    /// The transcript after the terminal disposition was asked for, and the
    /// disposition where there was one to take.
    pub open spec fn taking_exit(self) -> (Self, Option<GuardianExitDisposition>) {
        match self.terminal {
            Some(validator) => if !self.poisoned && validator.terminal_exit_disposition is Some {
                (
                    CoordinatorTranscript {
                        terminal: Some(
                            TerminalLifecycleValidator {
                                terminal_exit_disposition: None,
                                ..validator
                            },
                        ),
                        ..self
                    },
                    validator.terminal_exit_disposition,
                )
            } else {
                (self, None)
            },
            None => (self, None),
        }
    }

    /// The transcript and the answer after the end of the stream was probed. A
    /// probe that merely ran out of time leaves the transcript as it was.
    pub open spec fn after_eof(self, probe: EofState) -> (Self, Result<(), ProtocolError>) {
        if !self.ended() {
            (self, Err(ProtocolError::UnexpectedState))
        } else if self.eof_verified {
            (self, Ok(()))
        } else {
            match probe.phase {
                TransferPhase::Aborted(error) => (
                    CoordinatorTranscript { poisoned: probe.conclusive, ..self },
                    Err(error),
                ),
                _ => (CoordinatorTranscript { eof_verified: true, ..self }, Ok(())),
            }
        }
    }
}

// ---------------------------------------------------------------------------
// The end of the stream.
// ---------------------------------------------------------------------------

/// How far the check has come that nothing follows the terminal frame.
#[derive(Clone, Copy, Debug, PartialEq, Eq, Structural)]
pub struct EofState {
    pub deadline: Moment,
    pub phase: TransferPhase,
    /// A byte arrived where the end was expected.
    pub trailing: bool,
    /// The channel answered, or failed: what comes now is about the stream and
    /// not merely about time.
    pub conclusive: bool,
}

impl EofState {
    pub open spec fn start(deadline: Moment) -> Self {
        EofState {
            deadline,
            phase: TransferPhase::BeforeAttempt,
            trailing: false,
            conclusive: false,
        }
    }

    /// The probe after one event. An event that does not answer the outstanding
    /// action changes nothing.
    pub open spec fn after(self, event: WireEvent) -> Self {
        match shared_step(self.phase, event, self.deadline) {
            Some(phase) => EofState {
                phase,
                conclusive: self.conclusive || (self.phase == TransferPhase::Attempt
                    && event is Failed),
                ..self
            },
            None => match (self.phase, event) {
                (TransferPhase::Attempt, WireEvent::Read { count, .. }) => EofState {
                    phase: TransferPhase::AfterProgress,
                    trailing: count != 0,
                    conclusive: true,
                    ..self
                },
                (TransferPhase::AfterProgress, WireEvent::Clock(now)) => EofState {
                    phase: unless_late(
                        now,
                        self.deadline,
                        if self.trailing {
                            TransferPhase::Aborted(ProtocolError::TrailingData)
                        } else {
                            TransferPhase::Complete
                        },
                    ),
                    ..self
                },
                _ => self,
            },
        }
    }

    pub open spec fn spec_step(self) -> TransferStep<()> {
        phase_step(self.phase, WireAction::Read { limit: 1 })
    }

    pub open spec fn finished(self) -> bool {
        self.phase == TransferPhase::Complete || self.phase is Aborted
    }

    fn step(&self) -> (step: TransferStep<()>)
        ensures
            step == self.spec_step(),
    {
        match self.phase {
            TransferPhase::Attempt => TransferStep::Next(WireAction::Read { limit: 1 }),
            TransferPhase::Yielding => TransferStep::Next(WireAction::Yield),
            TransferPhase::Complete => TransferStep::Done(Ok(())),
            TransferPhase::Aborted(error) => TransferStep::Done(Err(error)),
            _ => TransferStep::Next(WireAction::ReadClock),
        }
    }

    fn advance(&mut self, event: &WireEvent) -> (step: TransferStep<()>)
        ensures
            *final(self) == old(self).after(*event),
            step == final(self).spec_step(),
    {
        match (self.phase, event) {
            (TransferPhase::BeforeAttempt, WireEvent::Clock(now)) => {
                self.phase = self.unless_late(*now, TransferPhase::Attempt);
            },
            (TransferPhase::Attempt, WireEvent::Interrupted) => {
                self.phase = TransferPhase::BeforeAttempt;
            },
            (TransferPhase::Attempt, WireEvent::NotReady) => {
                self.phase = TransferPhase::BeforeYield;
            },
            (TransferPhase::Attempt, WireEvent::Failed) => {
                self.conclusive = true;
                self.phase = TransferPhase::Aborted(ProtocolError::Io);
            },
            (TransferPhase::Attempt, WireEvent::Read { count, .. }) => {
                self.trailing = *count != 0;
                self.conclusive = true;
                self.phase = TransferPhase::AfterProgress;
            },
            (TransferPhase::AfterProgress, WireEvent::Clock(now)) => {
                let verdict = if self.trailing {
                    TransferPhase::Aborted(ProtocolError::TrailingData)
                } else {
                    TransferPhase::Complete
                };
                self.phase = self.unless_late(*now, verdict);
            },
            (TransferPhase::BeforeYield, WireEvent::Clock(now)) => {
                self.phase = self.unless_late(*now, TransferPhase::Yielding);
            },
            (TransferPhase::Yielding, WireEvent::Yielded) => {
                self.phase = TransferPhase::AfterYield;
            },
            (TransferPhase::AfterYield, WireEvent::Clock(now)) => {
                self.phase = self.unless_late(*now, TransferPhase::BeforeAttempt);
            },
            _ => {},
        }
        self.step()
    }

    fn unless_late(&self, now: Moment, phase: TransferPhase) -> (next: TransferPhase)
        ensures
            next == unless_late(now, self.deadline, phase),
    {
        if now.has_reached(self.deadline) {
            TransferPhase::Aborted(ProtocolError::Timeout)
        } else {
            phase
        }
    }
}

/// The check that nothing follows the terminal frame. Only a receiver begins
/// one.
pub struct EofProbe {
    state: EofState,
}

impl View for EofProbe {
    type V = EofState;

    closed spec fn view(&self) -> EofState {
        self.state
    }
}

impl EofProbe {
    /// What is to be done next.
    pub fn step(&self) -> (step: TransferStep<()>)
        ensures
            step == self@.spec_step(),
    {
        self.state.step()
    }

    /// Takes in what came of the last action.
    pub fn advance(&mut self, event: &WireEvent) -> (step: TransferStep<()>)
        ensures
            final(self)@ == old(self)@.after(*event),
            step == final(self)@.spec_step(),
    {
        self.state.advance(event)
    }
}

/// The frame that the coordinator's next event comes in.
pub open spec fn awaited_event(deadline: Moment) -> ReceiveModel {
    ReceiveModel::start(GUARDIAN_DIRECTION, deadline)
}

// ---------------------------------------------------------------------------
// The receiver.
// ---------------------------------------------------------------------------

/// The sole owner of the coordinator's wire and of its transcript.
pub struct CoordinatorReceiver<R> {
    reader: R,
    transcript: CoordinatorTranscript,
}

impl<R> CoordinatorReceiver<R> {
    pub closed spec fn transcript(&self) -> CoordinatorTranscript {
        self.transcript
    }

    pub closed spec fn channel(&self) -> R {
        self.reader
    }

    /// Borrows the exact owned wire for descriptor polling and fail-closed
    /// shutdown.
    pub fn wire(&self) -> (wire: &R)
        ensures
            *wire == self.channel(),
    {
        &self.reader
    }

    /// A receiver for a session without a terminal.
    pub fn new(reader: R) -> (receiver: Self)
        ensures
            receiver.channel() == reader,
            receiver.transcript() == CoordinatorTranscript::start(None),
            receiver.transcript().well_formed(),
    {
        CoordinatorReceiver {
            reader,
            transcript: CoordinatorTranscript {
                terminal: None,
                state: CoordinatorState::AwaitLease,
                lease_committed: false,
                app_started: false,
                tui_started: false,
                failure: None,
                poisoned: false,
                eof_verified: false,
                verified_ready_pending: false,
                verified_open_gate_ack_pending: false,
            },
        }
    }

    /// A receiver for a terminal session, before the coordinator writes
    /// `Start`.
    pub fn new_terminal(reader: R) -> (receiver: Self)
        ensures
            receiver.channel() == reader,
            receiver.transcript() == CoordinatorTranscript::start(
                Some(TerminalLifecycleValidator::initial()),
            ),
            receiver.transcript().well_formed(),
    {
        CoordinatorReceiver {
            reader,
            transcript: CoordinatorTranscript {
                terminal: Some(TerminalLifecycleValidator::before_start()),
                state: CoordinatorState::AwaitLease,
                lease_committed: false,
                app_started: false,
                tui_started: false,
                failure: None,
                poisoned: false,
                eof_verified: false,
                verified_ready_pending: false,
                verified_open_gate_ack_pending: false,
            },
        }
    }

    fn expire_proofs(&mut self)
        ensures
            final(self).transcript() == old(self).transcript().without_proofs(),
            final(self).channel() == old(self).channel(),
    {
        self.transcript.verified_ready_pending = false;
        self.transcript.verified_open_gate_ack_pending = false;
    }

    /// Whether another event may be read, and if so the frame to read it into.
    /// Nothing is read from a poisoned or finished stream, and reading on makes
    /// every proof that was not taken unavailable.
    pub fn begin_receive(&mut self, deadline: Moment) -> (frame: Result<
        FrameReceiver,
        ProtocolError,
    >)
        ensures
            final(self).channel() == old(self).channel(),
            match frame {
                Ok(frame) => {
                    &&& !old(self).transcript().poisoned && !old(self).transcript().ended()
                    &&& frame@ == ReceiveModel::start(GUARDIAN_DIRECTION, deadline)
                    &&& frame@ == awaited_event(deadline)
                    &&& frame@.consistent()
                    &&& final(self).transcript() == old(self).transcript().without_proofs()
                },
                Err(error) => {
                    &&& old(self).transcript().poisoned || old(self).transcript().ended()
                    &&& error == ProtocolError::UnexpectedState
                    &&& final(self).transcript() == old(self).transcript()
                },
            },
            old(self).transcript().well_formed() ==> final(self).transcript().well_formed(),
    {
        if self.transcript.poisoned || self.terminal_received() {
            return Err(ProtocolError::UnexpectedState);
        }
        self.expire_proofs();
        Ok(FrameReceiver::new(GUARDIAN_DIRECTION, deadline))
    }

    /// Takes the outcome of reading one event frame into the transcript.
    pub fn receive(&mut self, outcome: Result<GuardianEvent, ProtocolError>) -> (received: Result<
        GuardianEvent,
        ProtocolError,
    >)
        ensures
            (final(self).transcript(), received) == old(self).transcript().after_receive(outcome),
            final(self).channel() == old(self).channel(),
            old(self).transcript().well_formed() ==> final(self).transcript().well_formed(),
    {
        if self.transcript.poisoned || self.terminal_received() {
            return Err(ProtocolError::UnexpectedState);
        }
        self.expire_proofs();
        let event = match outcome {
            Ok(event) => event,
            Err(error) => {
                self.transcript.poisoned = true;
                return Err(error);
            },
        };
        match self.transcript.terminal {
            Some(validator) => {
                let mut next = validator;
                match next.accept_event(event) {
                    Ok(()) => {
                        self.transcript.terminal = Some(next);
                    },
                    Err(error) => {
                        self.transcript.poisoned = true;
                        return Err(error);
                    },
                }
                match event {
                    GuardianEvent::Ready | GuardianEvent::Resumed { .. } => {
                        self.transcript.verified_ready_pending = true;
                    },
                    GuardianEvent::InputGateOpened => {
                        self.transcript.verified_open_gate_ack_pending = true;
                    },
                    _ => {},
                }
            },
            None => match self.accept(event) {
                Ok(()) => {},
                Err(error) => {
                    self.transcript.poisoned = true;
                    return Err(error);
                },
            },
        }
        Ok(event)
    }

    /// Takes the readiness proof created by the immediately preceding accepted
    /// readiness transition.
    pub fn take_verified_ready(&mut self) -> (proof_token: Result<VerifiedReady, ProtocolError>)
        ensures
            (final(self).transcript(), proof_token is Ok) == old(self).transcript().taking_ready(),
            match proof_token {
                Ok(_) => {
                    &&& !old(self).transcript().poisoned && old(self).transcript().verified_ready_pending
                    &&& final(self).transcript() == (CoordinatorTranscript {
                        verified_ready_pending: false,
                        ..old(self).transcript()
                    })
                },
                Err(error) => {
                    &&& old(self).transcript().poisoned || !old(self).transcript().verified_ready_pending
                    &&& error == ProtocolError::UnexpectedState
                    &&& final(self).transcript() == old(self).transcript()
                },
            },
            final(self).channel() == old(self).channel(),
            old(self).transcript().well_formed() ==> final(self).transcript().well_formed(),
    {
        if self.transcript.poisoned || !self.transcript.verified_ready_pending {
            return Err(ProtocolError::UnexpectedState);
        }
        self.transcript.verified_ready_pending = false;
        Ok(VerifiedReady::mint())
    }

    /// Takes the acknowledgement proof created by the accepted `InputGateOpened`.
    /// It cannot be replayed: the pending bit is linear.
    pub fn take_verified_open_gate_ack(&mut self) -> (proof_token: Result<
        VerifiedOpenGateAck,
        ProtocolError,
    >)
        ensures
            (final(self).transcript(), proof_token is Ok) == old(self).transcript().taking_gate_ack(),
            match proof_token {
                Ok(_) => {
                    &&& !old(self).transcript().poisoned && old(self).transcript().verified_open_gate_ack_pending
                    &&& final(self).transcript() == (CoordinatorTranscript {
                        verified_open_gate_ack_pending: false,
                        ..old(self).transcript()
                    })
                },
                Err(error) => {
                    &&& old(self).transcript().poisoned || !old(self).transcript().verified_open_gate_ack_pending
                    &&& error == ProtocolError::UnexpectedState
                    &&& final(self).transcript() == old(self).transcript()
                },
            },
            final(self).channel() == old(self).channel(),
            old(self).transcript().well_formed() ==> final(self).transcript().well_formed(),
    {
        if self.transcript.poisoned || !self.transcript.verified_open_gate_ack_pending {
            return Err(ProtocolError::UnexpectedState);
        }
        self.transcript.verified_open_gate_ack_pending = false;
        Ok(VerifiedOpenGateAck::mint())
    }

    /// Takes the exact terminal disposition of the complete validated
    /// transcript. It exists only after an accepted `ChildrenReaped` and cannot
    /// be recovered after poisoning.
    pub fn take_verified_exit_disposition(&mut self) -> (proof_token: Result<
        VerifiedGuardianExitDisposition,
        ProtocolError,
    >)
        ensures
            (
                final(self).transcript(),
                match proof_token {
                    Ok(verified) => Some(verified.disposition()),
                    Err(_) => None,
                },
            ) == old(self).transcript().taking_exit(),
            ({
                let before = old(self).transcript();
                let held = match before.terminal {
                    Some(validator) => validator.terminal_exit_disposition,
                    None => None,
                };
                match proof_token {
                    Ok(verified) => {
                        &&& !before.poisoned && held == Some(verified.disposition())
                        &&& before.terminal matches Some(validator) && final(self).transcript() == (
                        CoordinatorTranscript {
                            terminal: Some(
                                TerminalLifecycleValidator {
                                    terminal_exit_disposition: None,
                                    ..validator
                                },
                            ),
                            ..before
                        })
                    },
                    Err(error) => {
                        &&& before.poisoned || held is None
                        &&& error == ProtocolError::UnexpectedState
                        &&& final(self).transcript() == before
                    },
                }
            }),
            final(self).channel() == old(self).channel(),
            old(self).transcript().well_formed() ==> final(self).transcript().well_formed(),
    {
        if self.transcript.poisoned {
            return Err(ProtocolError::UnexpectedState);
        }
        match self.transcript.terminal {
            Some(validator) => {
                let mut next = validator;
                match next.take_terminal_exit_disposition() {
                    Some(disposition) => {
                        self.transcript.terminal = Some(next);
                        Ok(VerifiedGuardianExitDisposition::mint(disposition))
                    },
                    None => Err(ProtocolError::UnexpectedState),
                }
            },
            None => Err(ProtocolError::UnexpectedState),
        }
    }

    /// Records a command emitted by the coordinator into the transcript.
    pub fn record_command(&mut self, command: CoordinatorCommand) -> (recorded: Result<
        (),
        ProtocolError,
    >)
        ensures
            (final(self).transcript(), recorded) == old(self).transcript().after_command(command),
            final(self).channel() == old(self).channel(),
            old(self).transcript().well_formed() ==> final(self).transcript().well_formed(),
    {
        if self.transcript.poisoned || self.terminal_received() {
            return Err(ProtocolError::UnexpectedState);
        }
        self.expire_proofs();
        match self.transcript.terminal {
            None => {
                self.transcript.poisoned = true;
                Err(ProtocolError::UnexpectedState)
            },
            Some(validator) => {
                let mut next = validator;
                match next.accept_command(command) {
                    Ok(_) => {
                        self.transcript.terminal = Some(next);
                        Ok(())
                    },
                    Err(error) => {
                        self.transcript.poisoned = true;
                        Err(error)
                    },
                }
            },
        }
    }

    pub fn input_gate_opened(&self) -> (opened: bool)
        ensures
            opened == self.transcript().gate_open(),
    {
        !self.transcript.poisoned && match &self.transcript.terminal {
            Some(validator) => validator.input_gate_opened(),
            None => false,
        }
    }

    pub fn terminal_received(&self) -> (received: bool)
        ensures
            received == self.transcript().ended(),
    {
        !self.transcript.poisoned && match &self.transcript.terminal {
            Some(validator) => validator.terminal_received(),
            None => matches!(self.transcript.state, CoordinatorState::Terminal),
        }
    }

    /// Whether the end of the stream is still to be checked, and if so the
    /// probe to check it with.
    pub fn begin_terminal_eof(&self, deadline: Moment) -> (probe: Result<
        Option<EofProbe>,
        ProtocolError,
    >)
        ensures
            if !self.transcript().ended() {
                probe == Err::<Option<EofProbe>, ProtocolError>(ProtocolError::UnexpectedState)
            } else if self.transcript().eof_verified {
                probe == Ok::<Option<EofProbe>, ProtocolError>(None)
            } else {
                probe matches Ok(Some(begun)) && begun@ == EofState::start(deadline)
            },
    {
        if self.transcript.poisoned || !self.terminal_received() {
            return Err(ProtocolError::UnexpectedState);
        }
        if self.transcript.eof_verified {
            return Ok(None);
        }
        Ok(
            Some(
                EofProbe {
                    state: EofState {
                        deadline,
                        phase: TransferPhase::BeforeAttempt,
                        trailing: false,
                        conclusive: false,
                    },
                },
            ),
        )
    }

    /// Takes the finished probe: the terminal frame must have been the final
    /// payload. A deadline that expired before the channel answered leaves the
    /// receiver as it was; anything else that is wrong poisons it.
    pub fn verify_terminal_eof(&mut self, probe: &EofProbe) -> (verified: Result<(), ProtocolError>)
        requires
            probe@.finished(),
        ensures
            (final(self).transcript(), verified) == old(self).transcript().after_eof(probe@),
            ({
                let before = old(self).transcript();
                if !before.ended() {
                    &&& verified == Err::<(), ProtocolError>(ProtocolError::UnexpectedState)
                    &&& final(self).transcript() == before
                } else if before.eof_verified {
                    &&& verified == Ok::<(), ProtocolError>(())
                    &&& final(self).transcript() == before
                } else {
                    match probe@.phase {
                        TransferPhase::Aborted(error) => {
                            &&& verified == Err::<(), ProtocolError>(error)
                            &&& final(self).transcript() == (CoordinatorTranscript {
                                poisoned: probe@.conclusive,
                                ..before
                            })
                        },
                        _ => {
                            &&& verified == Ok::<(), ProtocolError>(())
                            &&& final(self).transcript() == (CoordinatorTranscript {
                                eof_verified: true,
                                ..before
                            })
                        },
                    }
                }
            }),
            final(self).channel() == old(self).channel(),
            old(self).transcript().well_formed() ==> final(self).transcript().well_formed(),
    {
        if self.transcript.poisoned || !self.terminal_received() {
            return Err(ProtocolError::UnexpectedState);
        }
        if self.transcript.eof_verified {
            return Ok(());
        }
        match probe.state.phase {
            TransferPhase::Aborted(error) => {
                if probe.state.conclusive {
                    self.transcript.poisoned = true;
                }
                Err(error)
            },
            _ => {
                self.transcript.eof_verified = true;
                Ok(())
            },
        }
    }

    /// Takes one event of a session without a terminal. A refused event changes
    /// nothing.
    pub fn accept(&mut self, event: GuardianEvent) -> (accepted: Result<(), ProtocolError>)
        ensures
            match old(self).transcript().after_plain_event(event) {
                Ok(next) => accepted == Ok::<(), ProtocolError>(()) && final(self).transcript()
                    == next,
                Err(error) => accepted == Err::<(), ProtocolError>(error) && final(self).transcript() == old(self).transcript(),
            },
            final(self).channel() == old(self).channel(),
    {
        match (self.transcript.state, event) {
            (CoordinatorState::AwaitLease, GuardianEvent::LeaseCommitted) => {
                self.transcript.lease_committed = true;
                self.transcript.state = CoordinatorState::AwaitApp;
            },
            (
                CoordinatorState::AwaitApp,
                GuardianEvent::ChildStarted { role: ChildRole::AppServer, pid, pgid },
            ) => {
                validate_process_group(pid, pgid)?;
                self.transcript.app_started = true;
                self.transcript.state = CoordinatorState::AwaitTui;
            },
            (
                CoordinatorState::AwaitTui,
                GuardianEvent::ChildStarted { role: ChildRole::Tui, pid, pgid },
            ) => {
                validate_process_group(pid, pgid)?;
                self.transcript.tui_started = true;
                self.transcript.state = CoordinatorState::AwaitReady;
            },
            (CoordinatorState::AwaitReady, GuardianEvent::Ready) => {
                self.transcript.state = CoordinatorState::Ready;
            },
            (
                CoordinatorState::AwaitLease
                | CoordinatorState::AwaitApp
                | CoordinatorState::AwaitTui
                | CoordinatorState::AwaitReady
                | CoordinatorState::Ready,
                GuardianEvent::Failed { phase, code },
            ) => {
                self.transcript.failure = Some((phase, code));
                self.transcript.state = CoordinatorState::Failed;
            },
            (
                CoordinatorState::Ready | CoordinatorState::Failed,
                GuardianEvent::ChildrenReaped { .. },
            ) => {
                self.validate_terminal(event)?;
                self.transcript.state = CoordinatorState::Terminal;
            },
            _ => {
                return Err(ProtocolError::UnexpectedState);
            },
        }
        Ok(())
    }

    pub fn validate_terminal(&self, event: GuardianEvent) -> (verdict: Result<(), ProtocolError>)
        ensures
            verdict == self.transcript().plain_verdict(event),
    {
        let (app, tui, worker, session, guardian_exit) = match event {
            GuardianEvent::ChildrenReaped {
                app,
                tui,
                worker,
                cleanup: CleanupStatus::Complete,
                session,
                guardian_exit,
            } => (app, tui, worker, session, guardian_exit),
            _ => {
                return Err(ProtocolError::UnexpectedState);
            },
        };
        let app_started = !matches!(app, ChildDisposition::NotStarted);
        let tui_started = !matches!(tui, ChildDisposition::NotStarted);
        if app_started != self.transcript.app_started || tui_started
            != self.transcript.tui_started {
            return Err(ProtocolError::InvalidValue);
        }
        if worker == WorkerJoinStatus::NotStarted && (tui_started || (app_started
            && self.transcript.failure.is_none())) {
            return Err(ProtocolError::InvalidValue);
        }
        match self.transcript.failure {
            None => {
                if self.transcript.state != CoordinatorState::Ready || session
                    != SessionStatus::Completed || worker != WorkerJoinStatus::JoinedClean
                    || !self.transcript.lease_committed || !self.transcript.app_started
                    || !self.transcript.tui_started || guardian_exit
                    != GuardianExitDisposition::Code(0) {
                    return Err(ProtocolError::InvalidValue);
                }
            },
            Some((phase, code)) => {
                if phase == Phase::Cleanup || code == FailureCode::CleanupMismatch {
                    return Err(ProtocolError::UnexpectedState);
                }
                if session != SessionStatus::Failed || guardian_exit
                    != GuardianExitDisposition::InternalFailure {
                    return Err(ProtocolError::InvalidValue);
                }
            },
        }
        Ok(())
    }

    /// Advances the transcript, then starts sending the same command.
    ///
    /// The transcript is deliberately advanced first: if the write then fails,
    /// the session must enter fail-closed recovery, and replaying the command
    /// on a different channel is forbidden.
    pub fn record_and_send(&mut self, command: CoordinatorCommand, deadline: Moment) -> (sender:
        Result<FrameSender, ProtocolError>)
        ensures
            final(self).transcript() == old(self).transcript().after_command(command).0,
            match old(self).transcript().after_command(command).1 {
                Err(error) => sender == Err::<FrameSender, ProtocolError>(error),
                Ok(_) => sender matches Ok(sender) && sender@ == SendModel::start(
                    command_frame(command),
                    deadline,
                ) && sender@.write.consistent(),
            },
            final(self).channel() == old(self).channel(),
            old(self).transcript().well_formed() ==> final(self).transcript().well_formed(),
    {
        match self.record_command(command) {
            Ok(()) => {},
            Err(error) => {
                return Err(error);
            },
        }
        send_coordinator_command(command, deadline)
    }
}

} // verus!
