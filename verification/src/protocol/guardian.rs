//! The guardian's end of the lifecycle wire.
//!
//! It receives the coordinator's commands in their exact order and records
//! every event before it is published.
use vstd::prelude::*;

use crate::clock::Moment;
use crate::protocol::frame::event_frame;
use crate::protocol::framing::{send_guardian_event, FrameReceiver, FrameSender, ReceiveModel, SendModel};
use crate::protocol::lifecycle::{
    gate_open_state, TerminalCommandAcceptance, TerminalLifecycleState, TerminalLifecycleValidator,
};
use crate::protocol::message::{
    CoordinatorCommand, GuardianEvent, GuardianExitDisposition, ProtocolError,
    SessionTerminationCause,
};
use crate::protocol::proof_token::{
    VerifiedGuardianExitDisposition, VerifiedInitialOpenGateCommand, VerifiedResizeCommand,
    VerifiedResumeCommand, VerifiedResumeOpenGateCommand, VerifiedSuspendCommand,
    VerifiedTerminalRestoredCommand,
};
use crate::protocol::wire::{event_valid, COORDINATOR_DIRECTION};

verus! {

/// Whether a gate command opens the first or a later gate generation.
#[derive(Clone, Copy, Debug, PartialEq, Eq, Structural)]
pub enum OpenGateCommandCycle {
    Initial,
    Resume,
}

/// Where the commands of a session without a terminal stand.
#[derive(Clone, Copy, Debug, PartialEq, Eq, Structural)]
pub enum GuardianCommandState {
    AwaitStart,
    Started,
    Stopped,
}

/// Everything the guardian knows of the transcript.
#[derive(Clone, Copy, Debug)]
pub struct GuardianTranscript {
    pub terminal: Option<TerminalLifecycleValidator>,
    pub state: GuardianCommandState,
    pub poisoned: bool,
    pub verified_open_gate_command_pending: Option<OpenGateCommandCycle>,
    pub verified_suspend_command_pending: bool,
    pub verified_resume_command_pending: Option<(u16, u16)>,
    pub verified_resize_command_pending: Option<(u16, u16)>,
    pub verified_terminal_restored_command_pending: bool,
}

impl GuardianTranscript {
    pub open spec fn start(terminal: Option<TerminalLifecycleValidator>) -> Self {
        GuardianTranscript {
            terminal,
            state: GuardianCommandState::AwaitStart,
            poisoned: false,
            verified_open_gate_command_pending: None,
            verified_suspend_command_pending: false,
            verified_resume_command_pending: None,
            verified_resize_command_pending: None,
            verified_terminal_restored_command_pending: false,
        }
    }

    /// The last message of the session was taken and nothing went wrong since.
    pub open spec fn ended(self) -> bool {
        !self.poisoned && match self.terminal {
            Some(validator) => validator.state == TerminalLifecycleState::Terminal,
            None => self.state == GuardianCommandState::Stopped,
        }
    }

    /// No further command can be read.
    pub open spec fn closed_to_commands(self) -> bool {
        self.poisoned || self.state == GuardianCommandState::Stopped || self.ended()
    }

    pub open spec fn gate_open(self) -> bool {
        !self.poisoned && match self.terminal {
            Some(validator) => gate_open_state(validator.state),
            None => false,
        }
    }

    pub open spec fn poison(self) -> Self {
        GuardianTranscript { poisoned: true, ..self }
    }

    /// A command proof is valid only for the immediately preceding accepted
    /// command.
    pub open spec fn without_proofs(self) -> Self {
        GuardianTranscript {
            verified_open_gate_command_pending: None,
            verified_suspend_command_pending: false,
            verified_resume_command_pending: None,
            verified_resize_command_pending: None,
            verified_terminal_restored_command_pending: false,
            ..self
        }
    }

    /// A proof that can be taken matches the state that its command led to,
    /// and no two can be taken for one command.
    pub open spec fn well_formed(self) -> bool {
        &&& self.verified_open_gate_command_pending matches Some(cycle) ==> {
            self.terminal matches Some(validator) && {
                ||| validator.state == TerminalLifecycleState::AwaitGateOpened && (cycle
                    == OpenGateCommandCycle::Resume <==> validator.gate_ever_opened)
                ||| validator.state == TerminalLifecycleState::Quiesced
            }
        }
        &&& self.verified_suspend_command_pending ==> (self.terminal matches Some(validator)
            && validator.state == TerminalLifecycleState::AwaitSuspended)
        &&& self.verified_resume_command_pending matches Some((rows, cols)) ==> (
        self.terminal matches Some(validator) && validator.state
            == (TerminalLifecycleState::AwaitResumed { rows, cols }))
        &&& self.verified_resize_command_pending matches Some((rows, cols)) ==> (
        self.terminal matches Some(validator) && (validator.state
            == (TerminalLifecycleState::AwaitResizeApplied { rows, cols }) || validator.state
            == TerminalLifecycleState::Quiesced))
        &&& self.verified_terminal_restored_command_pending ==> (self.terminal matches Some(
            validator,
        ) && validator.state == TerminalLifecycleState::AwaitRecoveryDisarmed)
        &&& self.poisoned || self.ended() ==> self == self.without_proofs()
        &&& self.state == GuardianCommandState::AwaitStart || self.terminal is None
    }

    /// The proofs that an applied command leaves.
    pub open spec fn with_proofs_of(self, command: CoordinatorCommand, gate_ever_opened: bool) -> Self {
        GuardianTranscript {
            verified_open_gate_command_pending: if command is OpenInputGate {
                Some(
                    if gate_ever_opened {
                        OpenGateCommandCycle::Resume
                    } else {
                        OpenGateCommandCycle::Initial
                    },
                )
            } else {
                None
            },
            verified_suspend_command_pending: command is Suspend,
            verified_resume_command_pending: match command {
                CoordinatorCommand::Resume { rows, cols } => Some((rows, cols)),
                _ => None,
            },
            verified_resize_command_pending: match command {
                CoordinatorCommand::Resize { rows, cols } => Some((rows, cols)),
                _ => None,
            },
            verified_terminal_restored_command_pending: command is TerminalRestored,
            ..self
        }
    }

    /// The transcript and the answer after a receive whose wire outcome is
    /// given. Any error poisons. A command drained after recovery leaves no
    /// proof.
    pub open spec fn after_receive(self, outcome: Result<CoordinatorCommand, ProtocolError>) -> (
        Self,
        Result<CoordinatorCommand, ProtocolError>,
    ) {
        let base = self.without_proofs();
        if self.closed_to_commands() {
            (self, Err(ProtocolError::UnexpectedState))
        } else {
            match outcome {
                Err(error) => (base.poison(), Err(error)),
                Ok(command) => match self.terminal {
                    Some(validator) => match validator.after_command(command) {
                        Err(error) => (base.poison(), Err(error)),
                        Ok((next, acceptance)) => {
                            let moved = GuardianTranscript { terminal: Some(next), ..base };
                            (
                                if acceptance == TerminalCommandAcceptance::Applied {
                                    moved.with_proofs_of(command, validator.gate_ever_opened)
                                } else {
                                    moved
                                },
                                Ok(command),
                            )
                        },
                    },
                    None => match (self.state, command) {
                        (GuardianCommandState::AwaitStart, CoordinatorCommand::Start) => (
                            GuardianTranscript { state: GuardianCommandState::Started, ..base },
                            Ok(command),
                        ),
                        (GuardianCommandState::Started, CoordinatorCommand::Stop) => (
                            GuardianTranscript { state: GuardianCommandState::Stopped, ..base },
                            Ok(command),
                        ),
                        _ => (base.poison(), Err(ProtocolError::UnexpectedState)),
                    },
                },
            }
        }
    }

    /// The transcript and the answer after an event was recorded.
    pub open spec fn after_event(self, event: GuardianEvent) -> (Self, Result<(), ProtocolError>) {
        if self.poisoned {
            (self, Err(ProtocolError::UnexpectedState))
        } else {
            let base = self.without_proofs();
            match self.terminal {
                None => (base.poison(), Err(ProtocolError::UnexpectedState)),
                Some(validator) => match validator.after_event(event) {
                    Err(error) => (base.poison(), Err(error)),
                    Ok(next) => (GuardianTranscript { terminal: Some(next), ..base }, Ok(())),
                },
            }
        }
    }

    /// The transcript and the answer after recovery was selected. A refused
    /// selection expires the proofs but does not poison.
    pub open spec fn after_arming_recovery(self) -> (Self, Result<(), ProtocolError>) {
        if self.closed_to_commands() {
            (self, Err(ProtocolError::UnexpectedState))
        } else {
            let base = self.without_proofs();
            match self.terminal {
                None => (base, Err(ProtocolError::UnexpectedState)),
                Some(validator) => match validator.after_arming_recovery() {
                    Err(error) => (base, Err(error)),
                    Ok(next) => (GuardianTranscript { terminal: Some(next), ..base }, Ok(())),
                },
            }
        }
    }

    /// The transcript after a gate proof was asked for, and whether there was one
    /// of this generation to take.
    pub open spec fn taking_gate(self, cycle: OpenGateCommandCycle) -> (Self, bool) {
        if !self.poisoned && self.verified_open_gate_command_pending == Some(cycle) {
            (GuardianTranscript { verified_open_gate_command_pending: None, ..self }, true)
        } else {
            (self, false)
        }
    }

    pub open spec fn taking_suspend(self) -> (Self, bool) {
        if !self.poisoned && self.verified_suspend_command_pending {
            (GuardianTranscript { verified_suspend_command_pending: false, ..self }, true)
        } else {
            (self, false)
        }
    }

    /// The transcript after the resume proof was asked for, and its size where
    /// there was one to take.
    pub open spec fn taking_resume(self) -> (Self, Option<(u16, u16)>) {
        (
            GuardianTranscript { verified_resume_command_pending: None, ..self },
            if self.poisoned {
                None
            } else {
                self.verified_resume_command_pending
            },
        )
    }

    /// The transcript after the resize proof was asked for, and its size where
    /// there was one to take.
    pub open spec fn taking_resize(self) -> (Self, Option<(u16, u16)>) {
        (
            GuardianTranscript { verified_resize_command_pending: None, ..self },
            if self.poisoned {
                None
            } else {
                self.verified_resize_command_pending
            },
        )
    }

    pub open spec fn taking_restored(self) -> (Self, bool) {
        if !self.poisoned && self.verified_terminal_restored_command_pending {
            (GuardianTranscript { verified_terminal_restored_command_pending: false, ..self }, true)
        } else {
            (self, false)
        }
    }

    /// The transcript after the terminal disposition was asked for, and the
    /// disposition where there was one to take.
    pub open spec fn taking_exit(self) -> (Self, Option<GuardianExitDisposition>) {
        match self.terminal {
            Some(validator) => if !self.poisoned && validator.terminal_exit_disposition is Some {
                (
                    GuardianTranscript {
                        terminal: Some(
                            TerminalLifecycleValidator {
                                terminal_exit_disposition: None,
                                ..validator
                            },
                        ),
                        ..self
                    },
                    validator.terminal_exit_disposition,
                )
            } else {
                (self, None)
            },
            None => (self, None),
        }
    }

    /// The transcript after a recorded event was written, or failed to be.
    pub open spec fn after_sending(self, outcome: Result<(), ProtocolError>) -> Self {
        match outcome {
            Ok(_) => self,
            Err(_) => self.without_proofs().poison(),
        }
    }
}

/// The frame that the guardian's next command comes in.
pub open spec fn awaited_command(deadline: Moment) -> ReceiveModel {
    ReceiveModel::start(COORDINATOR_DIRECTION, deadline)
}

/// The sole owner of the guardian's wire and of its transcript.
pub struct GuardianCommandReceiver<R> {
    reader: R,
    transcript: GuardianTranscript,
}

impl<R> GuardianCommandReceiver<R> {
    pub closed spec fn transcript(&self) -> GuardianTranscript {
        self.transcript
    }

    pub closed spec fn channel(&self) -> R {
        self.reader
    }

    /// Borrows the exact owned wire for descriptor polling.
    pub fn wire(&self) -> (wire: &R)
        ensures
            *wire == self.channel(),
    {
        &self.reader
    }

    /// A receiver for a session without a terminal.
    pub fn new(reader: R) -> (receiver: Self)
        ensures
            receiver.channel() == reader,
            receiver.transcript() == GuardianTranscript::start(None),
            receiver.transcript().well_formed(),
    {
        GuardianCommandReceiver {
            reader,
            transcript: GuardianTranscript {
                terminal: None,
                state: GuardianCommandState::AwaitStart,
                poisoned: false,
                verified_open_gate_command_pending: None,
                verified_suspend_command_pending: false,
                verified_resume_command_pending: None,
                verified_resize_command_pending: None,
                verified_terminal_restored_command_pending: false,
            },
        }
    }

    /// A receiver for a terminal session. The guardian must record each event
    /// that it emits, so commands are accepted only after their exact
    /// prerequisite events.
    pub fn new_terminal(reader: R) -> (receiver: Self)
        ensures
            receiver.channel() == reader,
            receiver.transcript() == GuardianTranscript::start(
                Some(TerminalLifecycleValidator::initial()),
            ),
            receiver.transcript().well_formed(),
    {
        GuardianCommandReceiver {
            reader,
            transcript: GuardianTranscript {
                terminal: Some(TerminalLifecycleValidator::before_start()),
                state: GuardianCommandState::AwaitStart,
                poisoned: false,
                verified_open_gate_command_pending: None,
                verified_suspend_command_pending: false,
                verified_resume_command_pending: None,
                verified_resize_command_pending: None,
                verified_terminal_restored_command_pending: false,
            },
        }
    }

    fn expire_proofs(&mut self)
        ensures
            final(self).transcript() == old(self).transcript().without_proofs(),
            final(self).channel() == old(self).channel(),
    {
        self.transcript.verified_open_gate_command_pending = None;
        self.transcript.verified_suspend_command_pending = false;
        self.transcript.verified_resume_command_pending = None;
        self.transcript.verified_resize_command_pending = None;
        self.transcript.verified_terminal_restored_command_pending = false;
    }

    fn closed_to_commands(&self) -> (closed: bool)
        ensures
            closed == self.transcript().closed_to_commands(),
    {
        self.transcript.poisoned || self.transcript.state == GuardianCommandState::Stopped
            || self.terminal_received()
    }

    /// Whether another command may be read, and if so the frame to read it
    /// into. Reading on makes every proof that was not taken unavailable.
    pub fn begin_receive(&mut self, deadline: Moment) -> (frame: Result<
        FrameReceiver,
        ProtocolError,
    >)
        ensures
            final(self).channel() == old(self).channel(),
            match frame {
                Ok(frame) => {
                    &&& !old(self).transcript().closed_to_commands()
                    &&& frame@ == ReceiveModel::start(COORDINATOR_DIRECTION, deadline)
                    &&& frame@ == awaited_command(deadline)
                    &&& frame@.consistent()
                    &&& final(self).transcript() == old(self).transcript().without_proofs()
                },
                Err(error) => {
                    &&& old(self).transcript().closed_to_commands()
                    &&& error == ProtocolError::UnexpectedState
                    &&& final(self).transcript() == old(self).transcript()
                },
            },
            old(self).transcript().well_formed() ==> final(self).transcript().well_formed(),
    {
        if self.closed_to_commands() {
            return Err(ProtocolError::UnexpectedState);
        }
        self.expire_proofs();
        Ok(FrameReceiver::new(COORDINATOR_DIRECTION, deadline))
    }

    /// Takes the outcome of reading one command frame into the transcript.
    pub fn receive(&mut self, outcome: Result<CoordinatorCommand, ProtocolError>) -> (received:
        Result<CoordinatorCommand, ProtocolError>)
        ensures
            (final(self).transcript(), received) == old(self).transcript().after_receive(outcome),
            final(self).channel() == old(self).channel(),
            old(self).transcript().well_formed() ==> final(self).transcript().well_formed(),
    {
        if self.closed_to_commands() {
            return Err(ProtocolError::UnexpectedState);
        }
        self.expire_proofs();
        let command = match outcome {
            Ok(command) => command,
            Err(error) => {
                self.transcript.poisoned = true;
                return Err(error);
            },
        };
        match self.transcript.terminal {
            Some(validator) => {
                let mut next = validator;
                let acceptance = match next.accept_command(command) {
                    Ok(acceptance) => acceptance,
                    Err(error) => {
                        self.transcript.poisoned = true;
                        return Err(error);
                    },
                };
                self.transcript.terminal = Some(next);
                if acceptance == TerminalCommandAcceptance::Applied {
                    match command {
                        CoordinatorCommand::OpenInputGate => {
                            self.transcript.verified_open_gate_command_pending = Some(
                                if validator.gate_ever_opened {
                                    OpenGateCommandCycle::Resume
                                } else {
                                    OpenGateCommandCycle::Initial
                                },
                            );
                        },
                        CoordinatorCommand::Suspend => {
                            self.transcript.verified_suspend_command_pending = true;
                        },
                        CoordinatorCommand::Resume { rows, cols } => {
                            self.transcript.verified_resume_command_pending = Some((rows, cols));
                        },
                        CoordinatorCommand::Resize { rows, cols } => {
                            self.transcript.verified_resize_command_pending = Some((rows, cols));
                        },
                        CoordinatorCommand::TerminalRestored => {
                            self.transcript.verified_terminal_restored_command_pending = true;
                        },
                        _ => {},
                    }
                }
            },
            None => match (self.transcript.state, command) {
                (GuardianCommandState::AwaitStart, CoordinatorCommand::Start) => {
                    self.transcript.state = GuardianCommandState::Started;
                },
                (GuardianCommandState::Started, CoordinatorCommand::Stop) => {
                    self.transcript.state = GuardianCommandState::Stopped;
                },
                _ => {
                    self.transcript.poisoned = true;
                    return Err(ProtocolError::UnexpectedState);
                },
            },
        }
        Ok(command)
    }

    /// Records a guardian event before it is published on the wire.
    pub fn record_event(&mut self, event: GuardianEvent) -> (recorded: Result<(), ProtocolError>)
        ensures
            (final(self).transcript(), recorded) == old(self).transcript().after_event(event),
            final(self).channel() == old(self).channel(),
            old(self).transcript().well_formed() ==> final(self).transcript().well_formed(),
    {
        if self.transcript.poisoned {
            return Err(ProtocolError::UnexpectedState);
        }
        self.expire_proofs();
        match self.transcript.terminal {
            None => {
                self.transcript.poisoned = true;
                Err(ProtocolError::UnexpectedState)
            },
            Some(validator) => {
                let mut next = validator;
                match next.accept_event(event) {
                    Ok(()) => {
                        self.transcript.terminal = Some(next);
                        Ok(())
                    },
                    Err(error) => {
                        self.transcript.poisoned = true;
                        Err(error)
                    },
                }
            },
        }
    }

    /// Opens one state-scoped drain slot for an out-of-band recovery request
    /// selected before a concurrently written command is read. The recovery
    /// failure recorded next must confirm the slot.
    pub fn arm_recovery_command_race(&mut self) -> (armed: Result<(), ProtocolError>)
        ensures
            (final(self).transcript(), armed) == old(self).transcript().after_arming_recovery(),
            final(self).channel() == old(self).channel(),
            old(self).transcript().well_formed() ==> final(self).transcript().well_formed(),
    {
        if self.closed_to_commands() {
            return Err(ProtocolError::UnexpectedState);
        }
        self.expire_proofs();
        match self.transcript.terminal {
            None => Err(ProtocolError::UnexpectedState),
            Some(validator) => {
                let mut next = validator;
                match next.arm_recovery_command_race() {
                    Ok(()) => {
                        self.transcript.terminal = Some(next);
                        Ok(())
                    },
                    Err(error) => Err(error),
                }
            },
        }
    }

    fn take_gate_cycle(&mut self, cycle: OpenGateCommandCycle) -> (taken: bool)
        ensures
            taken == (!old(self).transcript().poisoned && old(self).transcript().verified_open_gate_command_pending == Some(cycle)),
            final(self).transcript() == (if taken {
                GuardianTranscript {
                    verified_open_gate_command_pending: None,
                    ..old(self).transcript()
                }
            } else {
                old(self).transcript()
            }),
            final(self).channel() == old(self).channel(),
    {
        if self.transcript.poisoned {
            return false;
        }
        match self.transcript.verified_open_gate_command_pending {
            Some(pending) => {
                if pending == cycle {
                    self.transcript.verified_open_gate_command_pending = None;
                    true
                } else {
                    false
                }
            },
            None => false,
        }
    }

    /// Takes the one-shot proof for the first input-gate generation.
    pub fn take_verified_initial_open_gate_command(&mut self) -> (proof_token: Result<
        VerifiedInitialOpenGateCommand,
        ProtocolError,
    >)
        ensures
            (final(self).transcript(), proof_token is Ok) == old(self).transcript().taking_gate(
                OpenGateCommandCycle::Initial,
            ),
            match proof_token {
                Ok(_) => {
                    &&& !old(self).transcript().poisoned
                    &&& old(self).transcript().verified_open_gate_command_pending == Some(
                        OpenGateCommandCycle::Initial,
                    )
                    &&& final(self).transcript() == (GuardianTranscript {
                        verified_open_gate_command_pending: None,
                        ..old(self).transcript()
                    })
                },
                Err(error) => {
                    &&& old(self).transcript().poisoned || old(self).transcript().verified_open_gate_command_pending != Some(
                        OpenGateCommandCycle::Initial,
                    )
                    &&& error == ProtocolError::UnexpectedState
                    &&& final(self).transcript() == old(self).transcript()
                },
            },
            final(self).channel() == old(self).channel(),
            old(self).transcript().well_formed() ==> final(self).transcript().well_formed(),
    {
        if self.take_gate_cycle(OpenGateCommandCycle::Initial) {
            Ok(VerifiedInitialOpenGateCommand::mint())
        } else {
            Err(ProtocolError::UnexpectedState)
        }
    }

    /// Takes the one-shot proof for a post-resume input-gate generation.
    pub fn take_verified_resume_open_gate_command(&mut self) -> (proof_token: Result<
        VerifiedResumeOpenGateCommand,
        ProtocolError,
    >)
        ensures
            (final(self).transcript(), proof_token is Ok) == old(self).transcript().taking_gate(
                OpenGateCommandCycle::Resume,
            ),
            match proof_token {
                Ok(_) => {
                    &&& !old(self).transcript().poisoned
                    &&& old(self).transcript().verified_open_gate_command_pending == Some(
                        OpenGateCommandCycle::Resume,
                    )
                    &&& final(self).transcript() == (GuardianTranscript {
                        verified_open_gate_command_pending: None,
                        ..old(self).transcript()
                    })
                },
                Err(error) => {
                    &&& old(self).transcript().poisoned || old(self).transcript().verified_open_gate_command_pending != Some(
                        OpenGateCommandCycle::Resume,
                    )
                    &&& error == ProtocolError::UnexpectedState
                    &&& final(self).transcript() == old(self).transcript()
                },
            },
            final(self).channel() == old(self).channel(),
            old(self).transcript().well_formed() ==> final(self).transcript().well_formed(),
    {
        if self.take_gate_cycle(OpenGateCommandCycle::Resume) {
            Ok(VerifiedResumeOpenGateCommand::mint())
        } else {
            Err(ProtocolError::UnexpectedState)
        }
    }

    pub fn take_verified_suspend_command(&mut self) -> (proof_token: Result<
        VerifiedSuspendCommand,
        ProtocolError,
    >)
        ensures
            (final(self).transcript(), proof_token is Ok) == old(self).transcript().taking_suspend(),
            match proof_token {
                Ok(_) => {
                    &&& !old(self).transcript().poisoned && old(self).transcript().verified_suspend_command_pending
                    &&& final(self).transcript() == (GuardianTranscript {
                        verified_suspend_command_pending: false,
                        ..old(self).transcript()
                    })
                },
                Err(error) => {
                    &&& old(self).transcript().poisoned || !old(self).transcript().verified_suspend_command_pending
                    &&& error == ProtocolError::UnexpectedState
                    &&& final(self).transcript() == old(self).transcript()
                },
            },
            final(self).channel() == old(self).channel(),
            old(self).transcript().well_formed() ==> final(self).transcript().well_formed(),
    {
        if self.transcript.poisoned || !self.transcript.verified_suspend_command_pending {
            return Err(ProtocolError::UnexpectedState);
        }
        self.transcript.verified_suspend_command_pending = false;
        Ok(VerifiedSuspendCommand::mint())
    }

    /// Takes the resume proof with its exact size. The slot is emptied even
    /// where a poisoned transcript withholds the proof.
    pub fn take_verified_resume_command(&mut self) -> (proof_token: Result<
        VerifiedResumeCommand,
        ProtocolError,
    >)
        ensures
            (
                final(self).transcript(),
                match proof_token {
                    Ok(verified) => Some(verified.size()),
                    Err(_) => None,
                },
            ) == old(self).transcript().taking_resume(),
            match proof_token {
                Ok(verified) => !old(self).transcript().poisoned && old(self).transcript().verified_resume_command_pending == Some(verified.size()),
                Err(error) => {
                    &&& old(self).transcript().poisoned || old(self).transcript().verified_resume_command_pending is None
                    &&& error == ProtocolError::UnexpectedState
                },
            },
            final(self).transcript() == (GuardianTranscript {
                verified_resume_command_pending: None,
                ..old(self).transcript()
            }),
            final(self).channel() == old(self).channel(),
            old(self).transcript().well_formed() ==> final(self).transcript().well_formed(),
    {
        let pending = self.transcript.verified_resume_command_pending;
        self.transcript.verified_resume_command_pending = None;
        match pending {
            Some((rows, cols)) => {
                if self.transcript.poisoned {
                    Err(ProtocolError::UnexpectedState)
                } else {
                    Ok(VerifiedResumeCommand::mint(rows, cols))
                }
            },
            None => Err(ProtocolError::UnexpectedState),
        }
    }

    /// Takes the resize proof with its exact geometry. The slot is emptied even
    /// where a poisoned transcript withholds the proof.
    pub fn take_verified_resize_command(&mut self) -> (proof_token: Result<
        VerifiedResizeCommand,
        ProtocolError,
    >)
        ensures
            (
                final(self).transcript(),
                match proof_token {
                    Ok(verified) => Some(verified.size()),
                    Err(_) => None,
                },
            ) == old(self).transcript().taking_resize(),
            match proof_token {
                Ok(verified) => !old(self).transcript().poisoned && old(self).transcript().verified_resize_command_pending == Some(verified.size()),
                Err(error) => {
                    &&& old(self).transcript().poisoned || old(self).transcript().verified_resize_command_pending is None
                    &&& error == ProtocolError::UnexpectedState
                },
            },
            final(self).transcript() == (GuardianTranscript {
                verified_resize_command_pending: None,
                ..old(self).transcript()
            }),
            final(self).channel() == old(self).channel(),
            old(self).transcript().well_formed() ==> final(self).transcript().well_formed(),
    {
        let pending = self.transcript.verified_resize_command_pending;
        self.transcript.verified_resize_command_pending = None;
        match pending {
            Some((rows, cols)) => {
                if self.transcript.poisoned {
                    Err(ProtocolError::UnexpectedState)
                } else {
                    Ok(VerifiedResizeCommand::mint(rows, cols))
                }
            },
            None => Err(ProtocolError::UnexpectedState),
        }
    }

    pub fn take_verified_terminal_restored_command(&mut self) -> (proof_token: Result<
        VerifiedTerminalRestoredCommand,
        ProtocolError,
    >)
        ensures
            (final(self).transcript(), proof_token is Ok) == old(self).transcript().taking_restored(),
            match proof_token {
                Ok(_) => {
                    &&& !old(self).transcript().poisoned && old(self).transcript().verified_terminal_restored_command_pending
                    &&& final(self).transcript() == (GuardianTranscript {
                        verified_terminal_restored_command_pending: false,
                        ..old(self).transcript()
                    })
                },
                Err(error) => {
                    &&& old(self).transcript().poisoned || !old(self).transcript().verified_terminal_restored_command_pending
                    &&& error == ProtocolError::UnexpectedState
                    &&& final(self).transcript() == old(self).transcript()
                },
            },
            final(self).channel() == old(self).channel(),
            old(self).transcript().well_formed() ==> final(self).transcript().well_formed(),
    {
        if self.transcript.poisoned || !self.transcript.verified_terminal_restored_command_pending {
            return Err(ProtocolError::UnexpectedState);
        }
        self.transcript.verified_terminal_restored_command_pending = false;
        Ok(VerifiedTerminalRestoredCommand::mint())
    }

    /// Takes the exact terminal disposition of the complete transcript. It is
    /// unavailable before `ChildrenReaped` and after a poisoning failure.
    pub fn take_verified_exit_disposition(&mut self) -> (proof_token: Result<
        VerifiedGuardianExitDisposition,
        ProtocolError,
    >)
        ensures
            (
                final(self).transcript(),
                match proof_token {
                    Ok(verified) => Some(verified.disposition()),
                    Err(_) => None,
                },
            ) == old(self).transcript().taking_exit(),
            ({
                let before = old(self).transcript();
                let held = match before.terminal {
                    Some(validator) => validator.terminal_exit_disposition,
                    None => None,
                };
                match proof_token {
                    Ok(verified) => {
                        &&& !before.poisoned && held == Some(verified.disposition())
                        &&& before.terminal matches Some(validator) && final(self).transcript() == (
                        GuardianTranscript {
                            terminal: Some(
                                TerminalLifecycleValidator {
                                    terminal_exit_disposition: None,
                                    ..validator
                                },
                            ),
                            ..before
                        })
                    },
                    Err(error) => {
                        &&& before.poisoned || held is None
                        &&& error == ProtocolError::UnexpectedState
                        &&& final(self).transcript() == before
                    },
                }
            }),
            final(self).channel() == old(self).channel(),
            old(self).transcript().well_formed() ==> final(self).transcript().well_formed(),
    {
        if self.transcript.poisoned {
            return Err(ProtocolError::UnexpectedState);
        }
        match self.transcript.terminal {
            Some(validator) => {
                let mut next = validator;
                match next.take_terminal_exit_disposition() {
                    Some(disposition) => {
                        self.transcript.terminal = Some(next);
                        Ok(VerifiedGuardianExitDisposition::mint(disposition))
                    },
                    None => Err(ProtocolError::UnexpectedState),
                }
            },
            None => Err(ProtocolError::UnexpectedState),
        }
    }

    /// What ended the session, as far as the transcript says.
    pub fn termination_cause(&self) -> (cause: Option<SessionTerminationCause>)
        ensures
            cause == (match self.transcript().terminal {
                Some(validator) => validator.termination_cause,
                None => None,
            }),
    {
        match self.transcript.terminal {
            Some(validator) => validator.termination_cause,
            None => None,
        }
    }

    pub fn input_gate_opened(&self) -> (opened: bool)
        ensures
            opened == self.transcript().gate_open(),
    {
        !self.transcript.poisoned && match &self.transcript.terminal {
            Some(validator) => validator.input_gate_opened(),
            None => false,
        }
    }

    pub fn terminal_received(&self) -> (received: bool)
        ensures
            received == self.transcript().ended(),
    {
        !self.transcript.poisoned && match &self.transcript.terminal {
            Some(validator) => validator.terminal_received(),
            None => matches!(self.transcript.state, GuardianCommandState::Stopped),
        }
    }

    /// Advances the transcript, then starts sending the same event. An event
    /// that cannot be written poisons: replay on another channel would create
    /// two competing lifecycle histories.
    pub fn record_and_send(&mut self, event: GuardianEvent, deadline: Moment) -> (sender: Result<
        FrameSender,
        ProtocolError,
    >)
        ensures
            ({
                let (recorded, answer) = old(self).transcript().after_event(event);
                match answer {
                    Err(error) => sender == Err::<FrameSender, ProtocolError>(error) && final(self).transcript() == recorded,
                    Ok(_) => if event_valid(event) {
                        &&& final(self).transcript() == recorded
                        &&& sender matches Ok(sender) && sender@ == SendModel::start(
                            event_frame(event),
                            deadline,
                        ) && sender@.write.consistent()
                    } else {
                        &&& final(self).transcript() == recorded.poison()
                        &&& sender == Err::<FrameSender, ProtocolError>(ProtocolError::InvalidValue)
                    },
                }
            }),
            final(self).channel() == old(self).channel(),
            old(self).transcript().well_formed() ==> final(self).transcript().well_formed(),
    {
        match self.record_event(event) {
            Ok(()) => {},
            Err(error) => {
                return Err(error);
            },
        }
        match send_guardian_event(event, deadline) {
            Ok(sender) => Ok(sender),
            Err(error) => {
                self.transcript.poisoned = true;
                Err(error)
            },
        }
    }

    /// Takes the outcome of writing a recorded event: a failed write poisons.
    /// The event expired the proofs when it was recorded, and none outlives a
    /// poisoned transcript.
    pub fn finish_send(&mut self, outcome: Result<(), ProtocolError>) -> (finished: Result<
        (),
        ProtocolError,
    >)
        ensures
            final(self).transcript() == old(self).transcript().after_sending(outcome),
            finished == outcome,
            final(self).transcript() == (if outcome is Ok {
                old(self).transcript()
            } else {
                old(self).transcript().without_proofs().poison()
            }),
            final(self).channel() == old(self).channel(),
            old(self).transcript().well_formed() ==> final(self).transcript().well_formed(),
    {
        if outcome.is_err() {
            self.expire_proofs();
            self.transcript.poisoned = true;
        }
        outcome
    }
}

} // verus!
