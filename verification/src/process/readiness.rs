//! Readiness of a started child.
//!
//! A child is ready when its channel carried exactly one fixed byte and was
//! then closed, and the child is still running at that point.
use vstd::prelude::*;

use crate::clock::Moment;
use crate::process::child::{pause, sleep_until_next_poll, ChildState};
use crate::process::error::{ProcessError, TuiReadinessError};
use crate::process::observe::{
    contain_and_reap_observed_exit, observe_exit_without_reaping, ChildAction, ChildEvent,
    ContainAndReap, ContainPhase, ObserveExit, ObservePhase, PollOutcome, ReadinessRead,
};
use crate::protocol::message::ChildRole;

verus! {

/// The byte that a supervised child writes to its standard output.
pub const READINESS_SENTINEL: u8 = 0x52;

/// The byte that the TUI launcher writes to its inherited descriptor.
pub const TUI_READINESS_TOKEN: u8 = 1;

// ---------------------------------------------------------------------------
// The launcher's token.
// ---------------------------------------------------------------------------

/// Proof that the launcher emitted exactly one token and then closed its write
/// half.
#[must_use]
pub struct VerifiedTuiReadiness {
    private: (),
}

impl VerifiedTuiReadiness {
    fn mint() -> Self {
        VerifiedTuiReadiness { private: () }
    }

    pub fn redacted(&self) -> (text: &'static str)
        ensures
            text@ == "VerifiedTuiReadiness(<verified>)"@,
    {
        "VerifiedTuiReadiness(<verified>)"
    }
}

/// What one read of at most two bytes came to.
#[derive(Clone, Copy, Debug, PartialEq, Eq, Structural)]
pub enum TokenRead {
    Bytes { count: usize, first: u8 },
    Interrupted,
    WouldBlock,
    Failed,
}

/// The guardian's half of the bounded launcher readiness protocol.
pub struct TuiReadinessReceiver {
    saw_token: bool,
}

/// The judgement on one read: the proof at the end that follows the token, the
/// token itself, nothing yet, or an error. Every other input is invalid.
pub open spec fn token_outcome(saw_token: bool, read: TokenRead) -> Result<
    (bool, bool),
    TuiReadinessError,
> {
    match read {
        TokenRead::Bytes { count, first } => if count == 0 && saw_token {
            Ok((true, true))
        } else if count == 1 && !saw_token && first == TUI_READINESS_TOKEN {
            Ok((true, false))
        } else {
            Err(TuiReadinessError::Invalid)
        },
        TokenRead::Interrupted => Ok((saw_token, false)),
        TokenRead::WouldBlock => Ok((saw_token, false)),
        TokenRead::Failed => Err(TuiReadinessError::Channel),
    }
}

impl TuiReadinessReceiver {
    /// The token has arrived.
    pub closed spec fn saw_token(&self) -> bool {
        self.saw_token
    }

    pub fn new() -> (receiver: Self)
        ensures
            !receiver.saw_token(),
    {
        TuiReadinessReceiver { saw_token: false }
    }

    /// Takes one bounded two-byte read.
    pub fn try_receive(&mut self, read: TokenRead) -> (received: Result<
        Option<VerifiedTuiReadiness>,
        TuiReadinessError,
    >)
        ensures
            match token_outcome(old(self).saw_token(), read) {
                Ok((saw_token, proven)) => {
                    &&& received matches Ok(proof_token) && (proof_token is Some <==> proven)
                    &&& final(self).saw_token() == saw_token
                },
                Err(error) => {
                    &&& received == Err::<Option<VerifiedTuiReadiness>, TuiReadinessError>(error)
                    &&& final(self).saw_token() == old(self).saw_token()
                },
            },
    {
        match read {
            TokenRead::Bytes { count, first } => {
                if count == 0 && self.saw_token {
                    return Ok(Some(VerifiedTuiReadiness::mint()));
                }
                if count == 1 && !self.saw_token && first == TUI_READINESS_TOKEN {
                    self.saw_token = true;
                    return Ok(None);
                }
                Err(TuiReadinessError::Invalid)
            },
            TokenRead::Interrupted | TokenRead::WouldBlock => Ok(None),
            TokenRead::Failed => Err(TuiReadinessError::Channel),
        }
    }
}

#[derive(Clone, Copy, Debug, PartialEq, Eq, Structural)]
pub enum TokenPhase {
    Clock,
    Poll { nanos: u64 },
    Read,
    Proven,
    Failed(TuiReadinessError),
}

/// What is to be done next about the launcher's channel.
#[derive(Clone, Copy, Debug, PartialEq, Eq, Structural)]
pub enum TokenAction {
    ReadClock,
    Poll { nanos: u64 },
    Read,
}

/// What came of it.
#[derive(Clone, Copy, Debug, PartialEq, Eq, Structural)]
pub enum TokenEvent {
    Clock(Moment),
    Polled(PollOutcome),
    Read(TokenRead),
}

/// The wait for token and end, which never extends the absolute deadline.
/// Whether the token has arrived is kept by the receiver, so that it outlives a
/// wait that ran out of time.
#[derive(Clone, Copy, Debug, PartialEq, Eq, Structural)]
pub struct TokenWait {
    pub deadline: Moment,
    pub phase: TokenPhase,
}

impl TokenWait {
    pub open spec fn start(deadline: Moment) -> Self {
        TokenWait { deadline, phase: TokenPhase::Clock }
    }

    pub open spec fn at(self, phase: TokenPhase) -> Self {
        TokenWait { phase, ..self }
    }

    /// The wait, and whether the receiver has the token, after one event.
    pub open spec fn after(self, saw_token: bool, event: TokenEvent) -> (Self, bool) {
        match (self.phase, event) {
            (TokenPhase::Clock, TokenEvent::Clock(now)) => (
                if now.reached(self.deadline) {
                    self.at(TokenPhase::Failed(TuiReadinessError::Timeout))
                } else {
                    self.at(TokenPhase::Poll { nanos: (self.deadline.nanos - now.nanos) as u64 })
                },
                saw_token,
            ),
            (TokenPhase::Poll { .. }, TokenEvent::Polled(outcome)) => (
                match outcome {
                    PollOutcome::Interrupted => self.at(TokenPhase::Clock),
                    PollOutcome::Failed => self.at(TokenPhase::Failed(TuiReadinessError::Channel)),
                    PollOutcome::Quiet => self.at(TokenPhase::Failed(TuiReadinessError::Timeout)),
                    PollOutcome::Ready { broken, readable } => if broken {
                        self.at(TokenPhase::Failed(TuiReadinessError::Channel))
                    } else if readable {
                        self.at(TokenPhase::Read)
                    } else {
                        self.at(TokenPhase::Clock)
                    },
                },
                saw_token,
            ),
            (TokenPhase::Read, TokenEvent::Read(read)) => match token_outcome(saw_token, read) {
                Ok((saw_after, proven)) => (
                    self.at(
                        if proven {
                            TokenPhase::Proven
                        } else {
                            TokenPhase::Clock
                        },
                    ),
                    saw_after,
                ),
                Err(error) => (self.at(TokenPhase::Failed(error)), saw_token),
            },
            _ => (self, saw_token),
        }
    }

    pub open spec fn spec_action(self) -> Option<TokenAction> {
        match self.phase {
            TokenPhase::Clock => Some(TokenAction::ReadClock),
            TokenPhase::Poll { nanos } => Some(TokenAction::Poll { nanos }),
            TokenPhase::Read => Some(TokenAction::Read),
            _ => None,
        }
    }

    pub fn begin(deadline: Moment) -> (wait: Self)
        ensures
            wait == Self::start(deadline),
    {
        TokenWait { deadline, phase: TokenPhase::Clock }
    }

    /// The next action; `None` once the wait is over.
    pub fn action(&self) -> (action: Option<TokenAction>)
        ensures
            action == self.spec_action(),
    {
        match self.phase {
            TokenPhase::Clock => Some(TokenAction::ReadClock),
            TokenPhase::Poll { nanos } => Some(TokenAction::Poll { nanos }),
            TokenPhase::Read => Some(TokenAction::Read),
            _ => None,
        }
    }
}

impl TuiReadinessReceiver {
    /// Takes what came of the last action of a wait on this receiver. The proof
    /// is handed out with the read that completes it.
    pub fn receive(&mut self, wait: &mut TokenWait, event: TokenEvent) -> (proof_token: Option<
        VerifiedTuiReadiness,
    >)
        ensures
            (*final(wait), final(self).saw_token()) == old(wait).after(
                old(self).saw_token(),
                event,
            ),
            proof_token is Some <==> (old(wait).phase == TokenPhase::Read && final(wait).phase
                == TokenPhase::Proven),
    {
        match (wait.phase, event) {
            (TokenPhase::Clock, TokenEvent::Clock(now)) => {
                wait.phase = if now.has_reached(wait.deadline) {
                    TokenPhase::Failed(TuiReadinessError::Timeout)
                } else {
                    TokenPhase::Poll { nanos: wait.deadline.nanos - now.nanos }
                };
            },
            (TokenPhase::Poll { .. }, TokenEvent::Polled(outcome)) => {
                wait.phase = match outcome {
                    PollOutcome::Interrupted => TokenPhase::Clock,
                    PollOutcome::Failed => TokenPhase::Failed(TuiReadinessError::Channel),
                    PollOutcome::Quiet => TokenPhase::Failed(TuiReadinessError::Timeout),
                    PollOutcome::Ready { broken, readable } => if broken {
                        TokenPhase::Failed(TuiReadinessError::Channel)
                    } else if readable {
                        TokenPhase::Read
                    } else {
                        TokenPhase::Clock
                    },
                };
            },
            (TokenPhase::Read, TokenEvent::Read(read)) => match self.try_receive(read) {
                Ok(Some(proof_token)) => {
                    wait.phase = TokenPhase::Proven;
                    return Some(proof_token);
                },
                Ok(None) => {
                    wait.phase = TokenPhase::Clock;
                },
                Err(error) => {
                    wait.phase = TokenPhase::Failed(error);
                },
            },
            _ => {},
        }
        None
    }
}

// ---------------------------------------------------------------------------
// A child that is confirmed running.
// ---------------------------------------------------------------------------

/// A wait that ran out of time while readiness was awaited is a readiness
/// timeout.
pub open spec fn readiness_error(error: ProcessError, role: ChildRole) -> ProcessError {
    match error {
        ProcessError::WaitTimeout { .. } => ProcessError::ReadinessTimeout { role },
        _ => error,
    }
}

#[derive(Clone, Copy, Debug, PartialEq, Eq, Structural)]
pub enum ConfirmPhase {
    Observe(ObserveExit),
    Contain(ContainAndReap),
    Running,
    Failed(ProcessError),
}

/// The check that a child has not exited; one that has is contained, reaped and
/// reported as an early exit.
#[derive(Clone, Copy, Debug, PartialEq, Eq, Structural)]
pub struct ConfirmRunning {
    pub deadline: Moment,
    pub phase: ConfirmPhase,
}

impl ConfirmRunning {
    pub open spec fn start(child: ChildState, deadline: Moment) -> (Self, ChildState) {
        ConfirmRunning { deadline, phase: ConfirmPhase::Running }.with_observation(
            child,
            ObserveExit::start(child, deadline),
        )
    }

    pub open spec fn at(self, phase: ConfirmPhase) -> Self {
        ConfirmRunning { phase, ..self }
    }

    pub open spec fn with_containment(self, child: ChildState, contain: ContainAndReap) -> Self {
        match contain.phase {
            ContainPhase::Done(disposition) => self.at(
                ConfirmPhase::Failed(ProcessError::EarlyExit { role: child.role, disposition }),
            ),
            ContainPhase::Failed(error) => self.at(ConfirmPhase::Failed(error)),
            _ => self.at(ConfirmPhase::Contain(contain)),
        }
    }

    pub open spec fn with_observation(self, child: ChildState, observe: ObserveExit) -> (
        Self,
        ChildState,
    ) {
        match observe.phase {
            ObservePhase::Done(true) => {
                let (contain, child) = ContainAndReap::start(child, self.deadline);
                (self.with_containment(child, contain), child)
            },
            ObservePhase::Done(false) => (self.at(ConfirmPhase::Running), child),
            ObservePhase::Failed(error) => (
                self.at(ConfirmPhase::Failed(readiness_error(error, child.role))),
                child,
            ),
            _ => (self.at(ConfirmPhase::Observe(observe)), child),
        }
    }

    pub open spec fn after(self, child: ChildState, event: ChildEvent) -> (Self, ChildState) {
        match self.phase {
            ConfirmPhase::Observe(observe) => {
                let (observe, child) = observe.after(child, event);
                self.with_observation(child, observe)
            },
            ConfirmPhase::Contain(contain) => {
                let (contain, child) = contain.after(child, event);
                (self.with_containment(child, contain), child)
            },
            _ => (self, child),
        }
    }

    pub open spec fn spec_action(self) -> Option<ChildAction> {
        match self.phase {
            ConfirmPhase::Observe(observe) => observe.spec_action(),
            ConfirmPhase::Contain(contain) => contain.spec_action(),
            _ => None,
        }
    }

    pub fn begin(child: &mut ChildState, deadline: Moment) -> (confirm: Self)
        ensures
            (confirm, *final(child)) == Self::start(*old(child), deadline),
    {
        let observe = ObserveExit::begin(child, deadline);
        let mut confirm = ConfirmRunning { deadline, phase: ConfirmPhase::Running };
        confirm.take_observation(child, observe);
        confirm
    }

    fn take_containment(&mut self, child: &ChildState, contain: ContainAndReap)
        ensures
            *final(self) == old(self).with_containment(*child, contain),
    {
        self.phase = match contain.phase {
            ContainPhase::Done(disposition) => ConfirmPhase::Failed(
                ProcessError::EarlyExit { role: child.role, disposition },
            ),
            ContainPhase::Failed(error) => ConfirmPhase::Failed(error),
            _ => ConfirmPhase::Contain(contain),
        };
    }

    fn take_observation(&mut self, child: &mut ChildState, observe: ObserveExit)
        ensures
            (*final(self), *final(child)) == old(self).with_observation(*old(child), observe),
    {
        match observe.phase {
            ObservePhase::Done(true) => {
                let contain = ContainAndReap::begin(child, self.deadline);
                self.take_containment(child, contain);
            },
            ObservePhase::Done(false) => {
                self.phase = ConfirmPhase::Running;
            },
            ObservePhase::Failed(error) => {
                self.phase = ConfirmPhase::Failed(
                    match error {
                        ProcessError::WaitTimeout { .. } => ProcessError::ReadinessTimeout {
                            role: child.role,
                        },
                        _ => error,
                    },
                );
            },
            _ => {
                self.phase = ConfirmPhase::Observe(observe);
            },
        }
    }

    /// The next system call; `None` once the check is over.
    pub fn action(&self) -> (action: Option<ChildAction>)
        ensures
            action == self.spec_action(),
    {
        match self.phase {
            ConfirmPhase::Observe(observe) => observe.action(),
            ConfirmPhase::Contain(contain) => contain.action(),
            _ => None,
        }
    }
}

/// Takes one event into the check.
pub fn confirm_running_after_readiness(
    confirm: &mut ConfirmRunning,
    child: &mut ChildState,
    event: ChildEvent,
)
    ensures
        (*final(confirm), *final(child)) == old(confirm).after(*old(child), event),
{
    match confirm.phase {
        ConfirmPhase::Observe(observe) => {
            let mut observe = observe;
            observe_exit_without_reaping(&mut observe, child, event);
            confirm.take_observation(child, observe);
        },
        ConfirmPhase::Contain(contain) => {
            let mut contain = contain;
            contain_and_reap_observed_exit(&mut contain, child, event);
            confirm.take_containment(child, contain);
        },
        _ => {},
    }
}

// ---------------------------------------------------------------------------
// Awaiting the sentinel.
// ---------------------------------------------------------------------------

#[derive(Clone, Copy, Debug, PartialEq, Eq, Structural)]
pub enum AwaitPhase {
    /// The liveness check at the top of every round.
    Confirm(ConfirmRunning),
    Clock,
    Poll { nanos: u64 },
    Read,
    /// The deadline check after an interrupted read.
    ReadClock,
    /// The liveness check after the channel was closed.
    Closing(ConfirmRunning),
    Ready,
    Failed(ProcessError),
}

/// The wait for the sentinel and the end of the readiness channel.
#[derive(Clone, Copy, Debug, PartialEq, Eq, Structural)]
pub struct AwaitReady {
    pub deadline: Moment,
    pub saw_sentinel: bool,
    pub phase: AwaitPhase,
}

impl AwaitReady {
    pub open spec fn at(self, phase: AwaitPhase) -> Self {
        AwaitReady { phase, ..self }
    }

    pub open spec fn failed(self, error: ProcessError) -> Self {
        self.at(AwaitPhase::Failed(error))
    }

    /// A round begins with a look at the child.
    pub open spec fn round(self, child: ChildState) -> (Self, ChildState) {
        let (confirm, child) = ConfirmRunning::start(child, self.deadline);
        (self.with_confirmation(confirm), child)
    }

    pub open spec fn with_confirmation(self, confirm: ConfirmRunning) -> Self {
        match confirm.phase {
            ConfirmPhase::Running => self.at(AwaitPhase::Clock),
            ConfirmPhase::Failed(error) => self.failed(error),
            _ => self.at(AwaitPhase::Confirm(confirm)),
        }
    }

    /// The channel is closed: with the sentinel the child is ready, provided it
    /// still runs.
    pub open spec fn with_closing(self, child: ChildState, confirm: ConfirmRunning) -> Self {
        match confirm.phase {
            ConfirmPhase::Running => if self.saw_sentinel {
                self.at(AwaitPhase::Ready)
            } else {
                self.failed(ProcessError::InvalidReadiness { role: child.role })
            },
            ConfirmPhase::Failed(error) => self.failed(error),
            _ => self.at(AwaitPhase::Closing(confirm)),
        }
    }

    pub open spec fn start(child: ChildState, deadline: Moment) -> (Self, ChildState) {
        let fresh = AwaitReady { deadline, saw_sentinel: false, phase: AwaitPhase::Clock };
        match child.disposition {
            Some(disposition) => (
                fresh.failed(ProcessError::EarlyExit { role: child.role, disposition }),
                child,
            ),
            None => if !child.readiness_open {
                (fresh.failed(ProcessError::ReadinessUnavailable { role: child.role }), child)
            } else {
                fresh.round(child)
            },
        }
    }

    pub open spec fn after_poll(self, child: ChildState, outcome: PollOutcome) -> (
        Self,
        ChildState,
    ) {
        match outcome {
            PollOutcome::Interrupted => self.round(child),
            PollOutcome::Failed => (
                self.failed(ProcessError::ReadinessIo { role: child.role }),
                child,
            ),
            PollOutcome::Quiet => self.round(child),
            PollOutcome::Ready { broken, readable } => if broken {
                (
                    self.failed(ProcessError::ReadinessIo { role: child.role }),
                    ChildState { readiness_open: false, ..child },
                )
            } else if readable {
                (self.at(AwaitPhase::Read), child)
            } else {
                self.round(child)
            },
        }
    }

    pub open spec fn after_read(self, child: ChildState, read: ReadinessRead) -> (
        Self,
        ChildState,
    ) {
        let closed = ChildState { readiness_open: false, ..child };
        match read {
            ReadinessRead::Interrupted => (self.at(AwaitPhase::ReadClock), child),
            ReadinessRead::Failed => (
                self.failed(ProcessError::ReadinessIo { role: child.role }),
                closed,
            ),
            ReadinessRead::Bytes { count, first } => if count == 0 {
                let (confirm, child) = ConfirmRunning::start(closed, self.deadline);
                (self.with_closing(child, confirm), child)
            } else if !self.saw_sentinel && count == 1 && first == READINESS_SENTINEL {
                AwaitReady { saw_sentinel: true, ..self }.round(child)
            } else {
                (self.failed(ProcessError::InvalidReadiness { role: child.role }), closed)
            },
        }
    }

    pub open spec fn after(self, child: ChildState, event: ChildEvent) -> (Self, ChildState) {
        match (self.phase, event) {
            (AwaitPhase::Confirm(confirm), _) => {
                let (confirm, child) = confirm.after(child, event);
                (self.with_confirmation(confirm), child)
            },
            (AwaitPhase::Closing(confirm), _) => {
                let (confirm, child) = confirm.after(child, event);
                (self.with_closing(child, confirm), child)
            },
            (AwaitPhase::Clock, ChildEvent::Clock(now)) => (
                if now.reached(self.deadline) {
                    self.failed(ProcessError::ReadinessTimeout { role: child.role })
                } else {
                    self.at(AwaitPhase::Poll { nanos: pause(now, self.deadline) as u64 })
                },
                child,
            ),
            (AwaitPhase::Poll { .. }, ChildEvent::Polled(outcome)) => self.after_poll(
                child,
                outcome,
            ),
            (AwaitPhase::Read, ChildEvent::ReadinessRead(read)) => self.after_read(child, read),
            (AwaitPhase::ReadClock, ChildEvent::Clock(now)) => (
                if now.reached(self.deadline) {
                    self.failed(ProcessError::ReadinessTimeout { role: child.role })
                } else {
                    self.at(AwaitPhase::Read)
                },
                child,
            ),
            _ => (self, child),
        }
    }

    pub open spec fn spec_action(self) -> Option<ChildAction> {
        match self.phase {
            AwaitPhase::Confirm(confirm) => confirm.spec_action(),
            AwaitPhase::Closing(confirm) => confirm.spec_action(),
            AwaitPhase::Clock => Some(ChildAction::ReadClock),
            AwaitPhase::ReadClock => Some(ChildAction::ReadClock),
            AwaitPhase::Poll { nanos } => Some(ChildAction::PollReadiness { nanos }),
            AwaitPhase::Read => Some(ChildAction::ReadReadiness),
            _ => None,
        }
    }

    pub fn begin(child: &mut ChildState, deadline: Moment) -> (wait: Self)
        ensures
            (wait, *final(child)) == Self::start(*old(child), deadline),
    {
        let mut wait = AwaitReady { deadline, saw_sentinel: false, phase: AwaitPhase::Clock };
        if let Some(disposition) = child.disposition {
            wait.phase = AwaitPhase::Failed(
                ProcessError::EarlyExit { role: child.role, disposition },
            );
            return wait;
        }
        if !child.readiness_open {
            wait.phase = AwaitPhase::Failed(
                ProcessError::ReadinessUnavailable { role: child.role },
            );
            return wait;
        }
        wait.begin_round(child);
        wait
    }

    fn begin_round(&mut self, child: &mut ChildState)
        ensures
            (*final(self), *final(child)) == old(self).round(*old(child)),
    {
        let confirm = ConfirmRunning::begin(child, self.deadline);
        self.take_confirmation(confirm);
    }

    fn take_confirmation(&mut self, confirm: ConfirmRunning)
        ensures
            *final(self) == old(self).with_confirmation(confirm),
    {
        self.phase = match confirm.phase {
            ConfirmPhase::Running => AwaitPhase::Clock,
            ConfirmPhase::Failed(error) => AwaitPhase::Failed(error),
            _ => AwaitPhase::Confirm(confirm),
        };
    }

    fn take_closing(&mut self, child: &ChildState, confirm: ConfirmRunning)
        ensures
            *final(self) == old(self).with_closing(*child, confirm),
    {
        self.phase = match confirm.phase {
            ConfirmPhase::Running => if self.saw_sentinel {
                AwaitPhase::Ready
            } else {
                AwaitPhase::Failed(ProcessError::InvalidReadiness { role: child.role })
            },
            ConfirmPhase::Failed(error) => AwaitPhase::Failed(error),
            _ => AwaitPhase::Closing(confirm),
        };
    }

    fn take_poll(&mut self, child: &mut ChildState, outcome: PollOutcome)
        ensures
            (*final(self), *final(child)) == old(self).after_poll(*old(child), outcome),
    {
        match outcome {
            PollOutcome::Interrupted | PollOutcome::Quiet => {
                self.begin_round(child);
            },
            PollOutcome::Failed => {
                self.phase = AwaitPhase::Failed(ProcessError::ReadinessIo { role: child.role });
            },
            PollOutcome::Ready { broken, readable } => {
                if broken {
                    child.readiness_open = false;
                    self.phase = AwaitPhase::Failed(
                        ProcessError::ReadinessIo { role: child.role },
                    );
                } else if readable {
                    self.phase = AwaitPhase::Read;
                } else {
                    self.begin_round(child);
                }
            },
        }
    }

    fn take_read(&mut self, child: &mut ChildState, read: ReadinessRead)
        ensures
            (*final(self), *final(child)) == old(self).after_read(*old(child), read),
    {
        match read {
            ReadinessRead::Interrupted => {
                self.phase = AwaitPhase::ReadClock;
            },
            ReadinessRead::Failed => {
                child.readiness_open = false;
                self.phase = AwaitPhase::Failed(ProcessError::ReadinessIo { role: child.role });
            },
            ReadinessRead::Bytes { count, first } => {
                if count == 0 {
                    child.readiness_open = false;
                    let confirm = ConfirmRunning::begin(child, self.deadline);
                    self.take_closing(child, confirm);
                } else if !self.saw_sentinel && count == 1 && first == READINESS_SENTINEL {
                    self.saw_sentinel = true;
                    self.begin_round(child);
                } else {
                    child.readiness_open = false;
                    self.phase = AwaitPhase::Failed(
                        ProcessError::InvalidReadiness { role: child.role },
                    );
                }
            },
        }
    }

    /// The next system call; `None` once the wait is over.
    pub fn action(&self) -> (action: Option<ChildAction>)
        ensures
            action == self.spec_action(),
    {
        match self.phase {
            AwaitPhase::Confirm(confirm) => confirm.action(),
            AwaitPhase::Closing(confirm) => confirm.action(),
            AwaitPhase::Clock | AwaitPhase::ReadClock => Some(ChildAction::ReadClock),
            AwaitPhase::Poll { nanos } => Some(ChildAction::PollReadiness { nanos }),
            AwaitPhase::Read => Some(ChildAction::ReadReadiness),
            _ => None,
        }
    }
}

/// Takes one event into the wait for readiness.
pub fn await_ready(wait: &mut AwaitReady, child: &mut ChildState, event: ChildEvent)
    ensures
        (*final(wait), *final(child)) == old(wait).after(*old(child), event),
{
    match (wait.phase, event) {
        (AwaitPhase::Confirm(confirm), _) => {
            let mut confirm = confirm;
            confirm_running_after_readiness(&mut confirm, child, event);
            wait.take_confirmation(confirm);
        },
        (AwaitPhase::Closing(confirm), _) => {
            let mut confirm = confirm;
            confirm_running_after_readiness(&mut confirm, child, event);
            wait.take_closing(child, confirm);
        },
        (AwaitPhase::Clock, ChildEvent::Clock(now)) => {
            wait.phase = if now.has_reached(wait.deadline) {
                AwaitPhase::Failed(ProcessError::ReadinessTimeout { role: child.role })
            } else {
                AwaitPhase::Poll { nanos: sleep_until_next_poll(now, wait.deadline) }
            };
        },
        (AwaitPhase::Poll { .. }, ChildEvent::Polled(outcome)) => {
            wait.take_poll(child, outcome);
        },
        (AwaitPhase::Read, ChildEvent::ReadinessRead(read)) => {
            wait.take_read(child, read);
        },
        (AwaitPhase::ReadClock, ChildEvent::Clock(now)) => {
            wait.phase = if now.has_reached(wait.deadline) {
                AwaitPhase::Failed(ProcessError::ReadinessTimeout { role: child.role })
            } else {
                AwaitPhase::Read
            };
        },
        _ => {},
    }
}

// ---------------------------------------------------------------------------
// Laws.
// ---------------------------------------------------------------------------

/// The wait, and the child, after a whole series of events.
pub open spec fn await_all(child: ChildState, deadline: Moment, events: Seq<ChildEvent>) -> (
    AwaitReady,
    ChildState,
)
    decreases events.len(),
{
    if events.len() == 0 {
        AwaitReady::start(child, deadline)
    } else {
        let (wait, child) = await_all(child, deadline, events.drop_last());
        wait.after(child, events.last())
    }
}

/// The bytes that the channel gave a wait over a series of events: the first
/// byte of each read, as often as the read counted, and whether it was closed.
pub open spec fn channel_bytes(child: ChildState, deadline: Moment, events: Seq<ChildEvent>) -> (
    Seq<u8>,
    bool,
)
    decreases events.len(),
{
    if events.len() == 0 {
        (Seq::empty(), false)
    } else {
        let (seen, closed) = channel_bytes(child, deadline, events.drop_last());
        let (wait, _) = await_all(child, deadline, events.drop_last());
        match (wait.phase, events.last()) {
            (
                AwaitPhase::Read,
                ChildEvent::ReadinessRead(ReadinessRead::Bytes { count, first }),
            ) => if count == 0 {
                (seen, true)
            } else {
                (seen + Seq::new(count as nat, |i: int| first), closed)
            },
            _ => (seen, closed),
        }
    }
}

spec fn channel_tracked(wait: AwaitReady, seen: Seq<u8>, closed: bool) -> bool {
    match wait.phase {
        AwaitPhase::Ready => closed && seen == seq![READINESS_SENTINEL],
        AwaitPhase::Failed(_) => true,
        AwaitPhase::Closing(_) => closed && wait.saw_sentinel == (seen == seq![READINESS_SENTINEL])
            && (seen.len() == 0 || wait.saw_sentinel),
        _ => !closed && seen == (if wait.saw_sentinel {
            seq![READINESS_SENTINEL]
        } else {
            Seq::empty()
        }),
    }
}

proof fn lemma_channel_tracked(child: ChildState, deadline: Moment, events: Seq<ChildEvent>)
    ensures
        ({
            let (wait, _) = await_all(child, deadline, events);
            let (seen, closed) = channel_bytes(child, deadline, events);
            channel_tracked(wait, seen, closed)
        }),
    decreases events.len(),
{
    if events.len() != 0 {
        let before = events.drop_last();
        lemma_channel_tracked(child, deadline, before);
        let (wait, record) = await_all(child, deadline, before);
        let (seen, closed) = channel_bytes(child, deadline, before);
        let (next, _) = wait.after(record, events.last());
        let (seen_after, closed_after) = channel_bytes(child, deadline, events);
        if let (
            AwaitPhase::Read,
            ChildEvent::ReadinessRead(ReadinessRead::Bytes { count, first }),
        ) = (wait.phase, events.last()) {
            if count == 1 && first == READINESS_SENTINEL && !wait.saw_sentinel {
                assert(seen_after =~= seq![READINESS_SENTINEL]);
            }
        }
    }
}

/// One use of a receiver: a single read, the beginning of a wait, or an event
/// of the wait that was begun last.
pub ghost enum TokenStep {
    TryReceive(TokenRead),
    Begin(Moment),
    Event(TokenEvent),
}

/// A receiver over its life: the last wait, whether the token has arrived, and
/// what its channel gave (the first byte of each read, as often as the read
/// counted, and whether it ended).
pub ghost struct TokenLife {
    pub wait: Option<TokenWait>,
    pub saw_token: bool,
    pub carried: Seq<u8>,
    pub ended: bool,
    /// A read was refused as invalid.
    pub refused: bool,
    /// The last step handed the proof out.
    pub proven: bool,
}

impl TokenLife {
    pub open spec fn fresh() -> Self {
        TokenLife {
            wait: None,
            saw_token: false,
            carried: Seq::empty(),
            ended: false,
            refused: false,
            proven: false,
        }
    }

    /// A read that the receiver takes, whoever asked for it.
    pub open spec fn reading(self, read: TokenRead) -> Self {
        let outcome = token_outcome(self.saw_token, read);
        TokenLife {
            wait: self.wait,
            saw_token: match outcome {
                Ok((saw_token, _)) => saw_token,
                Err(_) => self.saw_token,
            },
            carried: match read {
                TokenRead::Bytes { count, first } => self.carried + Seq::new(
                    count as nat,
                    |i: int| first,
                ),
                _ => self.carried,
            },
            ended: self.ended || (read matches TokenRead::Bytes { count, .. } && count == 0),
            refused: self.refused || outcome == Err::<(bool, bool), TuiReadinessError>(
                TuiReadinessError::Invalid,
            ),
            proven: outcome matches Ok((_, proven)) && proven,
        }
    }

    pub open spec fn after(self, step: TokenStep) -> Self {
        match step {
            TokenStep::TryReceive(read) => self.reading(read),
            TokenStep::Begin(deadline) => TokenLife {
                wait: Some(TokenWait::start(deadline)),
                proven: false,
                ..self
            },
            TokenStep::Event(event) => match self.wait {
                None => TokenLife { proven: false, ..self },
                Some(wait) => {
                    let (next, saw_token) = wait.after(self.saw_token, event);
                    let heard = match (wait.phase, event) {
                        (TokenPhase::Read, TokenEvent::Read(read)) => self.reading(read),
                        _ => self,
                    };
                    TokenLife {
                        wait: Some(next),
                        saw_token,
                        proven: wait.phase == TokenPhase::Read && next.phase == TokenPhase::Proven,
                        ..heard
                    }
                },
            },
        }
    }
}

pub open spec fn token_life(steps: Seq<TokenStep>) -> TokenLife
    decreases steps.len(),
{
    if steps.len() == 0 {
        TokenLife::fresh()
    } else {
        token_life(steps.drop_last()).after(steps.last())
    }
}

/// A receiver that has refused no read as invalid knows exactly what its channel
/// gave: the token where it says so, nothing where it does not. A wait that ran
/// out of time, or a channel that failed, takes nothing of that back.
pub proof fn law_receiver_remembers_the_token(steps: Seq<TokenStep>)
    ensures
        !token_life(steps).refused ==> token_life(steps).carried == (if token_life(
            steps,
        ).saw_token {
            seq![TUI_READINESS_TOKEN]
        } else {
            Seq::empty()
        }),
        steps.len() > 0 && token_life(steps.drop_last()).saw_token ==> token_life(steps).saw_token,
    decreases steps.len(),
{
    if steps.len() != 0 {
        let life = token_life(steps.drop_last());
        let next = token_life(steps);
        law_receiver_remembers_the_token(steps.drop_last());
        let read = match steps.last() {
            TokenStep::TryReceive(read) => Some(read),
            TokenStep::Event(TokenEvent::Read(read)) => Some(read),
            _ => None,
        };
        if let Some(TokenRead::Bytes { count, first }) = read {
            let added = Seq::new(count as nat, |i: int| first);
            if count == 0 {
                assert(life.carried + added =~= life.carried);
            } else if count == 1 && first == TUI_READINESS_TOKEN && !life.saw_token && !life.refused {
                assert(life.carried + added =~= seq![TUI_READINESS_TOKEN]);
            }
        }
    }
}

/// The readiness proof means that the launcher wrote exactly one token and then
/// closed its end, however the receiver was read: in one wait or several, by
/// single reads, or by a mix of them. Once a read was refused as invalid, a
/// later proof says nothing of what came before.
pub proof fn law_token_proof_means_one_token_and_the_end(steps: Seq<TokenStep>)
    requires
        !token_life(steps).refused,
    ensures
        token_life(steps).proven ==> token_life(steps).carried == seq![TUI_READINESS_TOKEN]
            && token_life(steps).ended,
{
    law_receiver_remembers_the_token(steps);
    if steps.len() > 0 {
        law_receiver_remembers_the_token(steps.drop_last());
    }
}

/// A child counts as ready only if its channel carried exactly the sentinel,
/// one byte, and was then closed.
pub proof fn law_ready_means_exactly_the_sentinel(
    child: ChildState,
    deadline: Moment,
    events: Seq<ChildEvent>,
)
    ensures
        await_all(child, deadline, events).0.phase == AwaitPhase::Ready ==> channel_bytes(
            child,
            deadline,
            events,
        ) == (seq![READINESS_SENTINEL], true),
{
    lemma_channel_tracked(child, deadline, events);
}

/// A child that ended, whether or not it was reaped, is never confirmed as
/// running.
pub proof fn law_ended_child_is_never_running(child: ChildState, deadline: Moment)
    requires
        child.ended(),
    ensures
        ConfirmRunning::start(child, deadline).0.phase != ConfirmPhase::Running,
{
}

} // verus!
