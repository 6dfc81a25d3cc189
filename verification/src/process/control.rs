//! Terminal control of a live TUI: forwarded signals, resizes, suspend and
//! resume. None of it is available for the App Server.
use vstd::prelude::*;

use crate::clock::Moment;
use crate::process::child::{
    ChildLiveness, ChildState, ForwardedTuiSignal, InteractiveTerminalSignal,
    TerminalShutdownSignal,
};
use crate::process::error::ProcessError;
use crate::process::observe::{
    contain_and_reap_observed_exit, observe_exit_without_reaping, signal_group, wait_for_stopped,
    ChildAction, ChildEvent, ContainAndReap, ContainPhase, GroupSignal, ObserveExit, ObservePhase,
    SignalPhase, StopWait, StopWaitPhase,
};
use crate::process::status::{Signal, WaitStatus};
use crate::protocol::message::{ChildRole, StopAction, UnixSignal};

verus! {

/// The liveness that an observation stands for.
pub open spec fn liveness(observed_exit: bool) -> ChildLiveness {
    if observed_exit {
        ChildLiveness::Exited
    } else {
        ChildLiveness::Running
    }
}

/// The liveness that a finished observation found.
pub fn poll_liveness(observe: &ObserveExit) -> (polled: Option<Result<ChildLiveness, ProcessError>>)
    ensures
        polled == (match observe.phase {
            ObservePhase::Done(observed) => Some(
                Ok::<ChildLiveness, ProcessError>(liveness(observed)),
            ),
            ObservePhase::Failed(error) => Some(Err::<ChildLiveness, ProcessError>(error)),
            _ => None,
        }),
{
    match observe.phase {
        ObservePhase::Done(true) => Some(Ok(ChildLiveness::Exited)),
        ObservePhase::Done(false) => Some(Ok(ChildLiveness::Running)),
        ObservePhase::Failed(error) => Some(Err(error)),
        _ => None,
    }
}

// ---------------------------------------------------------------------------
// A signal after which the TUI is looked at.
// ---------------------------------------------------------------------------

#[derive(Clone, Copy, Debug, PartialEq, Eq, Structural)]
pub enum ControlPhase {
    Signal(GroupSignal),
    Observe(ObserveExit),
    Done(ChildLiveness),
    Failed(ProcessError),
}

/// One control signal to the TUI's group, then its liveness.
#[derive(Clone, Copy, Debug, PartialEq, Eq, Structural)]
pub struct ControlSignal {
    pub deadline: Moment,
    pub phase: ControlPhase,
}

impl ControlSignal {
    pub open spec fn start(child: ChildState, signal: Signal, deadline: Moment) -> Self {
        ControlSignal { deadline, phase: ControlPhase::Done(ChildLiveness::Running) }.with_signal(
            child,
            GroupSignal::start(child, signal, StopAction::NoAction, deadline),
        )
    }

    pub open spec fn at(self, phase: ControlPhase) -> Self {
        ControlSignal { phase, ..self }
    }

    pub open spec fn with_observation(self, observe: ObserveExit) -> Self {
        match observe.phase {
            ObservePhase::Done(observed) => self.at(ControlPhase::Done(liveness(observed))),
            ObservePhase::Failed(error) => self.at(ControlPhase::Failed(error)),
            _ => self.at(ControlPhase::Observe(observe)),
        }
    }

    pub open spec fn with_signal(self, child: ChildState, sent: GroupSignal) -> Self {
        match sent.phase {
            SignalPhase::Done => self.with_observation(ObserveExit::start(child, self.deadline)),
            SignalPhase::Failed(error) => self.at(ControlPhase::Failed(error)),
            _ => self.at(ControlPhase::Signal(sent)),
        }
    }

    pub open spec fn after(self, child: ChildState, event: ChildEvent) -> (Self, ChildState) {
        match self.phase {
            ControlPhase::Signal(sent) => {
                let (sent, child) = sent.after(child, event);
                (self.with_signal(child, sent), child)
            },
            ControlPhase::Observe(observe) => {
                let (observe, child) = observe.after(child, event);
                (self.with_observation(observe), child)
            },
            _ => (self, child),
        }
    }

    pub open spec fn spec_action(self) -> Option<ChildAction> {
        match self.phase {
            ControlPhase::Signal(sent) => sent.spec_action(),
            ControlPhase::Observe(observe) => observe.spec_action(),
            _ => None,
        }
    }

    fn begin(child: &ChildState, signal: Signal, deadline: Moment) -> (control: Self)
        ensures
            control == Self::start(*child, signal, deadline),
    {
        let sent = GroupSignal::begin(child, signal, StopAction::NoAction, deadline);
        let mut control = ControlSignal {
            deadline,
            phase: ControlPhase::Done(ChildLiveness::Running),
        };
        control.take_signal(child, sent);
        control
    }

    fn take_observation(&mut self, observe: ObserveExit)
        ensures
            *final(self) == old(self).with_observation(observe),
    {
        self.phase = match observe.phase {
            ObservePhase::Done(true) => ControlPhase::Done(ChildLiveness::Exited),
            ObservePhase::Done(false) => ControlPhase::Done(ChildLiveness::Running),
            ObservePhase::Failed(error) => ControlPhase::Failed(error),
            _ => ControlPhase::Observe(observe),
        };
    }

    fn take_signal(&mut self, child: &ChildState, sent: GroupSignal)
        ensures
            *final(self) == old(self).with_signal(*child, sent),
    {
        match sent.phase {
            SignalPhase::Done => {
                let observe = ObserveExit::begin(child, self.deadline);
                self.take_observation(observe);
            },
            SignalPhase::Failed(error) => {
                self.phase = ControlPhase::Failed(error);
            },
            _ => {
                self.phase = ControlPhase::Signal(sent);
            },
        }
    }

    /// The next system call; `None` once the operation is over.
    pub fn action(&self) -> (action: Option<ChildAction>)
        ensures
            action == self.spec_action(),
    {
        match self.phase {
            ControlPhase::Signal(sent) => sent.action(),
            ControlPhase::Observe(observe) => observe.action(),
            _ => None,
        }
    }

    /// Takes in what came of the last system call.
    pub fn advance(&mut self, child: &mut ChildState, event: ChildEvent)
        ensures
            (*final(self), *final(child)) == old(self).after(*old(child), event),
    {
        match self.phase {
            ControlPhase::Signal(sent) => {
                let mut sent = sent;
                signal_group(&mut sent, child, event);
                self.take_signal(child, sent);
            },
            ControlPhase::Observe(observe) => {
                let mut observe = observe;
                observe_exit_without_reaping(&mut observe, child, event);
                self.take_observation(observe);
            },
            _ => {},
        }
    }
}

pub open spec fn interactive_signal(signal: InteractiveTerminalSignal) -> Signal {
    match signal {
        InteractiveTerminalSignal::Int => Signal::Int,
        InteractiveTerminalSignal::Quit => Signal::Quit,
    }
}

/// The control of a TUI by an interactive signal; another child has none.
pub open spec fn interactive_control(
    child: ChildState,
    signal: InteractiveTerminalSignal,
    deadline: Moment,
) -> Result<ControlSignal, ProcessError> {
    match child.role_outcome(ChildRole::Tui) {
        Ok(_) => Ok(ControlSignal::start(child, interactive_signal(signal), deadline)),
        Err(error) => Err(error),
    }
}

/// Starts forwarding one interactive signal to the TUI's group.
pub fn forward_interactive_terminal_signal(
    child: &ChildState,
    signal: InteractiveTerminalSignal,
    deadline: Moment,
) -> (control: Result<ControlSignal, ProcessError>)
    ensures
        control == interactive_control(*child, signal, deadline),
{
    child.role_matches(ChildRole::Tui)?;
    let signal = match signal {
        InteractiveTerminalSignal::Int => Signal::Int,
        InteractiveTerminalSignal::Quit => Signal::Quit,
    };
    Ok(ControlSignal::begin(child, signal, deadline))
}

/// The control of a TUI whose terminal was resized.
pub open spec fn resize_control(child: ChildState, deadline: Moment) -> Result<
    ControlSignal,
    ProcessError,
> {
    match child.role_outcome(ChildRole::Tui) {
        Ok(_) => Ok(ControlSignal::start(child, Signal::Winch, deadline)),
        Err(error) => Err(error),
    }
}

/// Starts publishing a terminal resize, after the terminal size itself was
/// updated.
pub fn notify_terminal_resize(child: &ChildState, deadline: Moment) -> (control: Result<
    ControlSignal,
    ProcessError,
>)
    ensures
        control == resize_control(*child, deadline),
{
    child.role_matches(ChildRole::Tui)?;
    Ok(ControlSignal::begin(child, Signal::Winch, deadline))
}

// ---------------------------------------------------------------------------
// Forwarded shutdown.
// ---------------------------------------------------------------------------

/// One HUP or TERM on its way to the TUI's group.
///
/// Forwarding leaves the stop action of the child alone: if the TUI exits from
/// this original signal, the exact wait keeps that disposition.
#[derive(Clone, Copy, Debug, PartialEq, Eq, Structural)]
pub struct ShutdownForward {
    pub signal: TerminalShutdownSignal,
    pub sent: GroupSignal,
}

pub open spec fn shutdown_signal(signal: TerminalShutdownSignal) -> Signal {
    match signal {
        TerminalShutdownSignal::Hup => Signal::Hup,
        TerminalShutdownSignal::Term => Signal::Term,
    }
}

impl ShutdownForward {
    pub open spec fn start(
        child: ChildState,
        signal: TerminalShutdownSignal,
        deadline: Moment,
    ) -> Self {
        ShutdownForward {
            signal,
            sent: GroupSignal::start(
                child,
                shutdown_signal(signal),
                StopAction::NoAction,
                deadline,
            ),
        }
    }

    /// The next system call; `None` once the signal is settled.
    pub fn action(&self) -> (action: Option<ChildAction>)
        ensures
            action == self.sent.spec_action(),
    {
        self.sent.action()
    }

    /// Takes in what came of the last system call.
    pub fn advance(&mut self, child: &mut ChildState, event: ChildEvent)
        ensures
            (final(self).sent, *final(child)) == old(self).sent.after(*old(child), event),
            final(self).signal == old(self).signal,
    {
        let mut sent = self.sent;
        signal_group(&mut sent, child, event);
        self.sent = sent;
    }

    /// Hands out the identity-bound proof of a settled forwarding.
    pub fn finish(&self, child: &ChildState) -> (forwarded: Option<
        Result<ForwardedTuiSignal, ProcessError>,
    >)
        ensures
            match self.sent.phase {
                SignalPhase::Done => forwarded matches Some(Ok(proof_token)) && {
                    &&& proof_token.forwarded() == self.signal
                    &&& proof_token.identity() == (child.role, child.pid, child.pgid)
                    &&& proof_token.bound_to() == child.authority
                },
                SignalPhase::Failed(error) => forwarded matches Some(Err(failure)) && failure
                    == error,
                _ => forwarded is None,
            },
    {
        match self.sent.phase {
            SignalPhase::Done => Some(Ok(ForwardedTuiSignal::mint(self.signal, child))),
            SignalPhase::Failed(error) => Some(Err(error)),
            _ => None,
        }
    }
}

/// The forwarding of one HUP or TERM to a TUI.
pub open spec fn shutdown_forward(
    child: ChildState,
    signal: TerminalShutdownSignal,
    deadline: Moment,
) -> Result<ShutdownForward, ProcessError> {
    match child.role_outcome(ChildRole::Tui) {
        Ok(_) => Ok(ShutdownForward::start(child, signal, deadline)),
        Err(error) => Err(error),
    }
}

/// Starts forwarding one HUP or TERM to the TUI's group.
pub fn forward_terminal_shutdown_signal(
    child: &ChildState,
    signal: TerminalShutdownSignal,
    deadline: Moment,
) -> (forward: Result<ShutdownForward, ProcessError>)
    ensures
        forward == shutdown_forward(*child, signal, deadline),
{
    child.role_matches(ChildRole::Tui)?;
    let unix_signal = match signal {
        TerminalShutdownSignal::Hup => Signal::Hup,
        TerminalShutdownSignal::Term => Signal::Term,
    };
    Ok(
        ShutdownForward {
            signal,
            sent: GroupSignal::begin(child, unix_signal, StopAction::NoAction, deadline),
        },
    )
}

/// The continuation of a stopped TUI after a shutdown signal was forwarded.
pub open spec fn continuation(
    child: ChildState,
    forwarded: ForwardedTuiSignal,
    deadline: Moment,
) -> Result<GroupSignal, ProcessError> {
    match child.role_outcome(ChildRole::Tui) {
        Err(error) => Err(error),
        Ok(_) => if forwarded.proves(child) {
            Ok(GroupSignal::start(child, Signal::Cont, StopAction::NoAction, deadline))
        } else {
            Err(ProcessError::ForwardedSignalMismatch { role: ChildRole::Tui })
        },
    }
}

/// Starts continuing a stopped TUI, only to deliver a shutdown signal that was
/// already forwarded to exactly this TUI. No input authority is created here.
pub fn continue_after_forwarded_shutdown(
    child: &ChildState,
    forwarded: &ForwardedTuiSignal,
    deadline: Moment,
) -> (sent: Result<GroupSignal, ProcessError>)
    ensures
        sent == continuation(*child, *forwarded, deadline),
{
    child.role_matches(ChildRole::Tui)?;
    if !forwarded.matches(child) {
        return Err(ProcessError::ForwardedSignalMismatch { role: ChildRole::Tui });
    }
    Ok(GroupSignal::begin(child, Signal::Cont, StopAction::NoAction, deadline))
}

// ---------------------------------------------------------------------------
// Suspend.
// ---------------------------------------------------------------------------

#[derive(Clone, Copy, Debug, PartialEq, Eq, Structural)]
pub enum SuspendPhase {
    Ask(GroupSignal),
    AwaitAsked(StopWait),
    /// The sweep that no descendant can ignore.
    Force { sent: GroupSignal, leader_stopped: bool },
    AwaitForced(StopWait),
    Stopped,
    Failed(ProcessError),
}

/// The stop of the complete TUI group.
///
/// TSTP keeps normal job-control semantics, but a descendant may ignore it even
/// after the leader reports that it stopped, so a group-wide STOP is mandatory.
/// A leader that stopped when asked need not report a second time.
#[derive(Clone, Copy, Debug, PartialEq, Eq, Structural)]
pub struct Suspend {
    pub graceful_deadline: Moment,
    pub forced_deadline: Moment,
    pub phase: SuspendPhase,
}

impl Suspend {
    pub open spec fn start(
        child: ChildState,
        graceful_deadline: Moment,
        forced_deadline: Moment,
    ) -> Self {
        Suspend { graceful_deadline, forced_deadline, phase: SuspendPhase::Stopped }.with_ask(
            GroupSignal::start(child, Signal::Tstp, StopAction::NoAction, graceful_deadline),
        )
    }

    pub open spec fn at(self, phase: SuspendPhase) -> Self {
        Suspend { phase, ..self }
    }

    pub open spec fn with_ask(self, sent: GroupSignal) -> Self {
        match sent.phase {
            SignalPhase::Done => self.at(
                SuspendPhase::AwaitAsked(StopWait::start(self.graceful_deadline)),
            ),
            SignalPhase::Failed(error) => self.at(SuspendPhase::Failed(error)),
            _ => self.at(SuspendPhase::Ask(sent)),
        }
    }

    pub open spec fn with_asked_wait(self, child: ChildState, wait: StopWait) -> Self {
        match wait.phase {
            StopWaitPhase::Done(leader_stopped) => self.with_force(
                GroupSignal::start(
                    child,
                    Signal::Stop,
                    StopAction::NoAction,
                    self.forced_deadline,
                ),
                leader_stopped,
            ),
            StopWaitPhase::Failed(error) => self.at(SuspendPhase::Failed(error)),
            _ => self.at(SuspendPhase::AwaitAsked(wait)),
        }
    }

    pub open spec fn with_force(self, sent: GroupSignal, leader_stopped: bool) -> Self {
        match sent.phase {
            SignalPhase::Done => if leader_stopped {
                self.at(SuspendPhase::Stopped)
            } else {
                self.at(SuspendPhase::AwaitForced(StopWait::start(self.forced_deadline)))
            },
            SignalPhase::Failed(error) => self.at(SuspendPhase::Failed(error)),
            _ => self.at(SuspendPhase::Force { sent, leader_stopped }),
        }
    }

    pub open spec fn with_forced_wait(self, child: ChildState, wait: StopWait) -> Self {
        match wait.phase {
            StopWaitPhase::Done(true) => self.at(SuspendPhase::Stopped),
            StopWaitPhase::Done(false) => self.at(
                SuspendPhase::Failed(ProcessError::SuspendTimeout { role: child.role }),
            ),
            StopWaitPhase::Failed(error) => self.at(SuspendPhase::Failed(error)),
            _ => self.at(SuspendPhase::AwaitForced(wait)),
        }
    }

    pub open spec fn after(self, child: ChildState, event: ChildEvent) -> (Self, ChildState) {
        match self.phase {
            SuspendPhase::Ask(sent) => {
                let (sent, child) = sent.after(child, event);
                (self.with_ask(sent), child)
            },
            SuspendPhase::AwaitAsked(wait) => {
                let (wait, child) = wait.after(child, event);
                (self.with_asked_wait(child, wait), child)
            },
            SuspendPhase::Force { sent, leader_stopped } => {
                let (sent, child) = sent.after(child, event);
                (self.with_force(sent, leader_stopped), child)
            },
            SuspendPhase::AwaitForced(wait) => {
                let (wait, child) = wait.after(child, event);
                (self.with_forced_wait(child, wait), child)
            },
            _ => (self, child),
        }
    }

    pub open spec fn spec_action(self) -> Option<ChildAction> {
        match self.phase {
            SuspendPhase::Ask(sent) => sent.spec_action(),
            SuspendPhase::AwaitAsked(wait) => wait.spec_action(),
            SuspendPhase::Force { sent, .. } => sent.spec_action(),
            SuspendPhase::AwaitForced(wait) => wait.spec_action(),
            _ => None,
        }
    }

    fn take_ask(&mut self, sent: GroupSignal)
        ensures
            *final(self) == old(self).with_ask(sent),
    {
        self.phase = match sent.phase {
            SignalPhase::Done => SuspendPhase::AwaitAsked(StopWait::begin(self.graceful_deadline)),
            SignalPhase::Failed(error) => SuspendPhase::Failed(error),
            _ => SuspendPhase::Ask(sent),
        };
    }

    fn take_force(&mut self, sent: GroupSignal, leader_stopped: bool)
        ensures
            *final(self) == old(self).with_force(sent, leader_stopped),
    {
        self.phase = match sent.phase {
            SignalPhase::Done => if leader_stopped {
                SuspendPhase::Stopped
            } else {
                SuspendPhase::AwaitForced(StopWait::begin(self.forced_deadline))
            },
            SignalPhase::Failed(error) => SuspendPhase::Failed(error),
            _ => SuspendPhase::Force { sent, leader_stopped },
        };
    }

    fn take_asked_wait(&mut self, child: &ChildState, wait: StopWait)
        ensures
            *final(self) == old(self).with_asked_wait(*child, wait),
    {
        match wait.phase {
            StopWaitPhase::Done(leader_stopped) => {
                let sent = GroupSignal::begin(
                    child,
                    Signal::Stop,
                    StopAction::NoAction,
                    self.forced_deadline,
                );
                self.take_force(sent, leader_stopped);
            },
            StopWaitPhase::Failed(error) => {
                self.phase = SuspendPhase::Failed(error);
            },
            _ => {
                self.phase = SuspendPhase::AwaitAsked(wait);
            },
        }
    }

    fn take_forced_wait(&mut self, child: &ChildState, wait: StopWait)
        ensures
            *final(self) == old(self).with_forced_wait(*child, wait),
    {
        self.phase = match wait.phase {
            StopWaitPhase::Done(true) => SuspendPhase::Stopped,
            StopWaitPhase::Done(false) => SuspendPhase::Failed(
                ProcessError::SuspendTimeout { role: child.role },
            ),
            StopWaitPhase::Failed(error) => SuspendPhase::Failed(error),
            _ => SuspendPhase::AwaitForced(wait),
        };
    }

    /// The next system call; `None` once the operation is over.
    pub fn action(&self) -> (action: Option<ChildAction>)
        ensures
            action == self.spec_action(),
    {
        match self.phase {
            SuspendPhase::Ask(sent) => sent.action(),
            SuspendPhase::AwaitAsked(wait) => wait.action(),
            SuspendPhase::Force { sent, .. } => sent.action(),
            SuspendPhase::AwaitForced(wait) => wait.action(),
            _ => None,
        }
    }

    /// Takes in what came of the last system call.
    pub fn advance(&mut self, child: &mut ChildState, event: ChildEvent)
        ensures
            (*final(self), *final(child)) == old(self).after(*old(child), event),
    {
        match self.phase {
            SuspendPhase::Ask(sent) => {
                let mut sent = sent;
                signal_group(&mut sent, child, event);
                self.take_ask(sent);
            },
            SuspendPhase::AwaitAsked(wait) => {
                let mut wait = wait;
                wait_for_stopped(&mut wait, child, event);
                self.take_asked_wait(child, wait);
            },
            SuspendPhase::Force { sent, leader_stopped } => {
                let mut sent = sent;
                signal_group(&mut sent, child, event);
                self.take_force(sent, leader_stopped);
            },
            SuspendPhase::AwaitForced(wait) => {
                let mut wait = wait;
                wait_for_stopped(&mut wait, child, event);
                self.take_forced_wait(child, wait);
            },
            _ => {},
        }
    }
}

/// The suspension of a TUI. The forced deadline must not come first.
pub open spec fn suspension(
    child: ChildState,
    graceful_deadline: Moment,
    forced_deadline: Moment,
) -> Result<Suspend, ProcessError> {
    match child.role_outcome(ChildRole::Tui) {
        Err(error) => Err(error),
        Ok(_) => if forced_deadline.nanos < graceful_deadline.nanos {
            Err(ProcessError::Deadline)
        } else {
            Ok(Suspend::start(child, graceful_deadline, forced_deadline))
        },
    }
}

/// Starts stopping the complete TUI group.
pub fn suspend(child: &ChildState, graceful_deadline: Moment, forced_deadline: Moment) -> (operation:
    Result<Suspend, ProcessError>)
    ensures
        operation == suspension(*child, graceful_deadline, forced_deadline),
{
    child.role_matches(ChildRole::Tui)?;
    if forced_deadline.nanos < graceful_deadline.nanos {
        return Err(ProcessError::Deadline);
    }
    let sent = GroupSignal::begin(child, Signal::Tstp, StopAction::NoAction, graceful_deadline);
    let mut operation = Suspend {
        graceful_deadline,
        forced_deadline,
        phase: SuspendPhase::Stopped,
    };
    operation.take_ask(sent);
    Ok(operation)
}

// ---------------------------------------------------------------------------
// Resume.
// ---------------------------------------------------------------------------

#[derive(Clone, Copy, Debug, PartialEq, Eq, Structural)]
pub enum ResumePhase {
    Signal(GroupSignal),
    Clock,
    Observe(ObserveExit),
    Contain(ContainAndReap),
    Resumed,
    Failed(ProcessError),
}

/// The continuation of a stopped TUI.
///
/// A successful CONT to the identity-pinned group is the continuation; no wait
/// notification is required for it. A child that has already exited is
/// contained and reported before the input gate can be reopened.
#[derive(Clone, Copy, Debug, PartialEq, Eq, Structural)]
pub struct Resume {
    pub deadline: Moment,
    pub phase: ResumePhase,
}

impl Resume {
    pub open spec fn start(child: ChildState, deadline: Moment) -> Self {
        Resume { deadline, phase: ResumePhase::Clock }.with_signal(
            GroupSignal::start(child, Signal::Cont, StopAction::NoAction, deadline),
        )
    }

    pub open spec fn at(self, phase: ResumePhase) -> Self {
        Resume { phase, ..self }
    }

    pub open spec fn with_signal(self, sent: GroupSignal) -> Self {
        match sent.phase {
            SignalPhase::Done => self.at(ResumePhase::Clock),
            SignalPhase::Failed(error) => self.at(ResumePhase::Failed(error)),
            _ => self.at(ResumePhase::Signal(sent)),
        }
    }

    pub open spec fn with_containment(self, child: ChildState, contain: ContainAndReap) -> Self {
        match contain.phase {
            ContainPhase::Done(disposition) => self.at(
                ResumePhase::Failed(ProcessError::EarlyExit { role: child.role, disposition }),
            ),
            ContainPhase::Failed(error) => self.at(ResumePhase::Failed(error)),
            _ => self.at(ResumePhase::Contain(contain)),
        }
    }

    pub open spec fn with_observation(self, child: ChildState, observe: ObserveExit) -> (
        Self,
        ChildState,
    ) {
        match observe.phase {
            ObservePhase::Done(true) => {
                let (contain, child) = ContainAndReap::start(child, self.deadline);
                (self.with_containment(child, contain), child)
            },
            ObservePhase::Done(false) => (self.at(ResumePhase::Resumed), child),
            ObservePhase::Failed(error) => (self.at(ResumePhase::Failed(error)), child),
            _ => (self.at(ResumePhase::Observe(observe)), child),
        }
    }

    /// The look at the child is made with the present moment as its deadline:
    /// it is not repeated.
    pub open spec fn after(self, child: ChildState, event: ChildEvent) -> (Self, ChildState) {
        match (self.phase, event) {
            (ResumePhase::Signal(sent), _) => {
                let (sent, child) = sent.after(child, event);
                (self.with_signal(sent), child)
            },
            (ResumePhase::Clock, ChildEvent::Clock(now)) => self.with_observation(
                child,
                ObserveExit::start(child, now),
            ),
            (ResumePhase::Observe(observe), _) => {
                let (observe, child) = observe.after(child, event);
                self.with_observation(child, observe)
            },
            (ResumePhase::Contain(contain), _) => {
                let (contain, child) = contain.after(child, event);
                (self.with_containment(child, contain), child)
            },
            _ => (self, child),
        }
    }

    pub open spec fn spec_action(self) -> Option<ChildAction> {
        match self.phase {
            ResumePhase::Signal(sent) => sent.spec_action(),
            ResumePhase::Clock => Some(ChildAction::ReadClock),
            ResumePhase::Observe(observe) => observe.spec_action(),
            ResumePhase::Contain(contain) => contain.spec_action(),
            _ => None,
        }
    }

    fn take_signal(&mut self, sent: GroupSignal)
        ensures
            *final(self) == old(self).with_signal(sent),
    {
        self.phase = match sent.phase {
            SignalPhase::Done => ResumePhase::Clock,
            SignalPhase::Failed(error) => ResumePhase::Failed(error),
            _ => ResumePhase::Signal(sent),
        };
    }

    fn take_containment(&mut self, child: &ChildState, contain: ContainAndReap)
        ensures
            *final(self) == old(self).with_containment(*child, contain),
    {
        self.phase = match contain.phase {
            ContainPhase::Done(disposition) => ResumePhase::Failed(
                ProcessError::EarlyExit { role: child.role, disposition },
            ),
            ContainPhase::Failed(error) => ResumePhase::Failed(error),
            _ => ResumePhase::Contain(contain),
        };
    }

    fn take_observation(&mut self, child: &mut ChildState, observe: ObserveExit)
        ensures
            (*final(self), *final(child)) == old(self).with_observation(*old(child), observe),
    {
        match observe.phase {
            ObservePhase::Done(true) => {
                let contain = ContainAndReap::begin(child, self.deadline);
                self.take_containment(child, contain);
            },
            ObservePhase::Done(false) => {
                self.phase = ResumePhase::Resumed;
            },
            ObservePhase::Failed(error) => {
                self.phase = ResumePhase::Failed(error);
            },
            _ => {
                self.phase = ResumePhase::Observe(observe);
            },
        }
    }

    /// The next system call; `None` once the operation is over.
    pub fn action(&self) -> (action: Option<ChildAction>)
        ensures
            action == self.spec_action(),
    {
        match self.phase {
            ResumePhase::Signal(sent) => sent.action(),
            ResumePhase::Clock => Some(ChildAction::ReadClock),
            ResumePhase::Observe(observe) => observe.action(),
            ResumePhase::Contain(contain) => contain.action(),
            _ => None,
        }
    }

    /// Takes in what came of the last system call.
    pub fn advance(&mut self, child: &mut ChildState, event: ChildEvent)
        ensures
            (*final(self), *final(child)) == old(self).after(*old(child), event),
    {
        match (self.phase, event) {
            (ResumePhase::Signal(sent), _) => {
                let mut sent = sent;
                signal_group(&mut sent, child, event);
                self.take_signal(sent);
            },
            (ResumePhase::Clock, ChildEvent::Clock(now)) => {
                let observe = ObserveExit::begin(child, now);
                self.take_observation(child, observe);
            },
            (ResumePhase::Observe(observe), _) => {
                let mut observe = observe;
                observe_exit_without_reaping(&mut observe, child, event);
                self.take_observation(child, observe);
            },
            (ResumePhase::Contain(contain), _) => {
                let mut contain = contain;
                contain_and_reap_observed_exit(&mut contain, child, event);
                self.take_containment(child, contain);
            },
            _ => {},
        }
    }
}

/// The resumption of a stopped TUI.
pub open spec fn resumption(child: ChildState, deadline: Moment) -> Result<Resume, ProcessError> {
    match child.role_outcome(ChildRole::Tui) {
        Err(error) => Err(error),
        Ok(_) => Ok(Resume::start(child, deadline)),
    }
}

/// Starts continuing a stopped TUI.
pub fn resume(child: &ChildState, deadline: Moment) -> (operation: Result<Resume, ProcessError>)
    ensures
        operation == resumption(*child, deadline),
{
    child.role_matches(ChildRole::Tui)?;
    let sent = GroupSignal::begin(child, Signal::Cont, StopAction::NoAction, deadline);
    let mut operation = Resume { deadline, phase: ResumePhase::Clock };
    operation.take_signal(sent);
    Ok(operation)
}

/// A suspend, and the child, after a whole series of events.
pub open spec fn suspend_all(
    child: ChildState,
    graceful_deadline: Moment,
    forced_deadline: Moment,
    events: Seq<ChildEvent>,
) -> (Suspend, ChildState)
    decreases events.len(),
{
    if events.len() == 0 {
        (Suspend::start(child, graceful_deadline, forced_deadline), child)
    } else {
        let (operation, record) = suspend_all(
            child,
            graceful_deadline,
            forced_deadline,
            events.drop_last(),
        );
        operation.after(record, events.last())
    }
}

/// The group was signalled with STOP at some point of the series.
pub open spec fn stop_sent(
    child: ChildState,
    graceful_deadline: Moment,
    forced_deadline: Moment,
    events: Seq<ChildEvent>,
) -> bool
    decreases events.len(),
{
    events.len() > 0 && {
        let before = events.drop_last();
        let (operation, _) = suspend_all(child, graceful_deadline, forced_deadline, before);
        ||| stop_sent(child, graceful_deadline, forced_deadline, before)
        ||| operation.spec_action() == Some(ChildAction::SignalGroup(Signal::Stop))
            && events.last() is Signaled
    }
}

/// That signal settled at some point of the series: it reached the group, or
/// the group was shown to be gone.
pub open spec fn stop_settled(
    child: ChildState,
    graceful_deadline: Moment,
    forced_deadline: Moment,
    events: Seq<ChildEvent>,
) -> bool
    decreases events.len(),
{
    events.len() > 0 && {
        let before = events.drop_last();
        let (operation, record) = suspend_all(child, graceful_deadline, forced_deadline, before);
        ||| stop_settled(child, graceful_deadline, forced_deadline, before)
        ||| operation.phase matches SuspendPhase::Force { sent, .. } && sent.signal == Signal::Stop
            && sent.after(record, events.last()).0.phase == SignalPhase::Done
    }
}

/// A suspend that succeeds has swept the whole group with STOP, whether or not
/// the leader stopped when it was asked: before it counts as stopped, STOP was
/// sent to the group and settled. A TUI that was reaped before the suspend began
/// has no group any more.
pub proof fn law_suspend_always_sweeps(
    child: ChildState,
    graceful_deadline: Moment,
    forced_deadline: Moment,
    events: Seq<ChildEvent>,
)
    requires
        child.disposition is None,
    ensures
        suspend_all(child, graceful_deadline, forced_deadline, events).0.phase
            == SuspendPhase::Stopped ==> {
            &&& stop_sent(child, graceful_deadline, forced_deadline, events)
            &&& stop_settled(child, graceful_deadline, forced_deadline, events)
        },
{
    lemma_suspend_swept(child, graceful_deadline, forced_deadline, events);
}

proof fn lemma_suspend_swept(
    child: ChildState,
    graceful_deadline: Moment,
    forced_deadline: Moment,
    events: Seq<ChildEvent>,
)
    requires
        child.disposition is None,
    ensures
        ({
            let (operation, record) = suspend_all(
                child,
                graceful_deadline,
                forced_deadline,
                events,
            );
            let sent_before = stop_sent(child, graceful_deadline, forced_deadline, events);
            let settled = stop_settled(child, graceful_deadline, forced_deadline, events);
            &&& record.disposition is None
            &&& operation.phase matches SuspendPhase::Force { sent, .. } ==> sent.signal
                == Signal::Stop && (sent.phase == SignalPhase::Send || sent_before)
            &&& operation.phase is AwaitForced || operation.phase is Stopped ==> sent_before
                && settled
        }),
    decreases events.len(),
{
    if events.len() > 0 {
        lemma_suspend_swept(child, graceful_deadline, forced_deadline, events.drop_last());
    }
}

/// Forwarding a shutdown signal leaves the stop action as it was, so a TUI that
/// ends from that signal is reported with the signal itself.
pub proof fn law_forwarding_leaves_the_stop_action(
    forward: ShutdownForward,
    child: ChildState,
    event: ChildEvent,
)
    ensures
        forward.sent.after(child, event).1.stop_action == child.stop_action,
        forward.sent.after(child, event).1.disposition == child.disposition,
{
}

/// The signal that a terminal user means, by the number that Unix gives it.
pub open spec fn meant_by(signal: UnixSignal) -> int {
    match signal {
        UnixSignal::Hup => 1,
        UnixSignal::Int => 2,
        UnixSignal::Quit => 3,
        UnixSignal::Term => 15,
    }
}

/// The number that Unix gives a signal which the guardian sends. Those that job
/// control uses differ between systems and are told apart here only.
pub open spec fn unix_number(signal: Signal) -> int {
    match signal {
        Signal::Hup => 1,
        Signal::Int => 2,
        Signal::Quit => 3,
        Signal::Kill => 9,
        Signal::Term => 15,
        Signal::Stop => 100,
        Signal::Tstp => 101,
        Signal::Cont => 102,
        Signal::Winch => 103,
    }
}

/// What a TUI that is not reaped is sent first is the very signal that was
/// asked for: each of INT, QUIT, HUP and TERM reaches its group as itself, and a
/// forwarded HUP or TERM is proven as the one that was sent.
pub proof fn law_each_signal_is_forwarded_as_itself(
    child: ChildState,
    interactive: InteractiveTerminalSignal,
    ending: TerminalShutdownSignal,
    deadline: Moment,
)
    requires
        child.role == ChildRole::Tui,
        child.disposition is None,
    ensures
        interactive_control(child, interactive, deadline) matches Ok(control)
            && control.spec_action() == Some(
            ChildAction::SignalGroup(
                match interactive {
                    InteractiveTerminalSignal::Int => Signal::Int,
                    InteractiveTerminalSignal::Quit => Signal::Quit,
                },
            ),
        ),
        shutdown_forward(child, ending, deadline) matches Ok(forward) && forward.signal == ending
            && forward.sent.spec_action() == Some(
            ChildAction::SignalGroup(
                match ending {
                    TerminalShutdownSignal::Hup => Signal::Hup,
                    TerminalShutdownSignal::Term => Signal::Term,
                },
            ),
        ),
{
}

/// Two different signals are never forwarded alike: whoever is sent the same
/// first was asked for the same, and an interactive signal is never sent as one
/// that ends the session.
pub proof fn law_different_signals_are_sent_apart(
    child: ChildState,
    left: InteractiveTerminalSignal,
    right: InteractiveTerminalSignal,
    first: TerminalShutdownSignal,
    second: TerminalShutdownSignal,
    deadline: Moment,
)
    requires
        child.role == ChildRole::Tui,
        child.disposition is None,
    ensures
        ({
            let one = interactive_control(child, left, deadline);
            let other = interactive_control(child, right, deadline);
            let ending = shutdown_forward(child, first, deadline);
            let ended = shutdown_forward(child, second, deadline);
            &&& one is Ok && other is Ok && ending is Ok && ended is Ok
            &&& one->Ok_0.spec_action() == other->Ok_0.spec_action() ==> left == right
            &&& ending->Ok_0.sent.spec_action() == ended->Ok_0.sent.spec_action() ==> first
                == second
            &&& one->Ok_0.spec_action() != ending->Ok_0.sent.spec_action()
        }),
{
}

/// A signal of the wire that does not end the session is forwarded to the TUI's
/// group as itself, to the number that Unix gives it; one that ends it is never
/// taken for an interactive one.
pub proof fn law_wire_signal_is_forwarded_by_its_number(
    child: ChildState,
    signal: UnixSignal,
    deadline: Moment,
)
    requires
        child.role == ChildRole::Tui,
        child.disposition is None,
    ensures
        match InteractiveTerminalSignal::narrowed(signal) {
            Some(interactive) => interactive_control(child, interactive, deadline) matches Ok(
                control,
            ) && (control.spec_action() matches Some(ChildAction::SignalGroup(sent))
                && unix_number(sent) == meant_by(signal)) && (meant_by(signal) == 2 || meant_by(
                signal,
            ) == 3),
            None => meant_by(signal) == 1 || meant_by(signal) == 15,
        },
{
}

/// Job control of a TUI that is not reaped: a resize is announced with WINCH, a
/// suspension asks with TSTP, and a stopped TUI is resumed, or continued to take
/// a forwarded signal, with CONT.
pub proof fn law_job_control_sends_its_own_signals(
    child: ChildState,
    forwarded: ForwardedTuiSignal,
    deadline: Moment,
    forced_deadline: Moment,
)
    requires
        child.role == ChildRole::Tui,
        child.disposition is None,
        deadline.nanos <= forced_deadline.nanos,
        forwarded.proves(child),
    ensures
        resize_control(child, deadline) matches Ok(control) && control.spec_action() == Some(
            ChildAction::SignalGroup(Signal::Winch),
        ),
        suspension(child, deadline, forced_deadline) matches Ok(operation)
            && operation.spec_action() == Some(ChildAction::SignalGroup(Signal::Tstp)),
        resumption(child, deadline) matches Ok(operation) && operation.spec_action() == Some(
            ChildAction::SignalGroup(Signal::Cont),
        ),
        continuation(child, forwarded, deadline) matches Ok(sent) && sent.spec_action() == Some(
            ChildAction::SignalGroup(Signal::Cont),
        ),
{
}

/// No control reaches an App Server: each refuses it by its role. A suspension
/// that would be forced before it was asked for is refused too, and so is a
/// continuation for a signal that went to another child.
pub proof fn law_controls_are_refused(
    child: ChildState,
    interactive: InteractiveTerminalSignal,
    ending: TerminalShutdownSignal,
    forwarded: ForwardedTuiSignal,
    deadline: Moment,
    forced_deadline: Moment,
)
    ensures
        child.role == ChildRole::AppServer ==> {
            let refusal = ProcessError::RoleMismatch {
                expected: ChildRole::Tui,
                actual: ChildRole::AppServer,
            };
            &&& interactive_control(child, interactive, deadline) == Err::<
                ControlSignal,
                ProcessError,
            >(refusal)
            &&& resize_control(child, deadline) == Err::<ControlSignal, ProcessError>(refusal)
            &&& shutdown_forward(child, ending, deadline) == Err::<ShutdownForward, ProcessError>(
                refusal,
            )
            &&& continuation(child, forwarded, deadline) == Err::<GroupSignal, ProcessError>(
                refusal,
            )
            &&& suspension(child, deadline, forced_deadline) == Err::<Suspend, ProcessError>(
                refusal,
            )
            &&& resumption(child, deadline) == Err::<Resume, ProcessError>(refusal)
        },
        child.role == ChildRole::Tui ==> {
            &&& interactive_control(child, interactive, deadline) is Ok
            &&& resize_control(child, deadline) is Ok
            &&& shutdown_forward(child, ending, deadline) is Ok
            &&& resumption(child, deadline) is Ok
            &&& suspension(child, deadline, forced_deadline) is Ok <==> deadline.nanos
                <= forced_deadline.nanos
            &&& suspension(child, deadline, forced_deadline) matches Err(error) ==> error
                == ProcessError::Deadline
            &&& continuation(child, forwarded, deadline) is Ok <==> {
                &&& forwarded.identity() == (ChildRole::Tui, child.pid, child.pgid)
                &&& forwarded.bound_to() == child.authority
            }
            &&& continuation(child, forwarded, deadline) matches Err(error) ==> error
                == (ProcessError::ForwardedSignalMismatch { role: ChildRole::Tui })
        },
{
}

/// A control that ends tells whether the TUI was seen to end, and a TUI that was
/// reaped is never signalled again.
pub proof fn law_controls_tell_the_liveness(
    child: ChildState,
    signal: Signal,
    deadline: Moment,
    forced_deadline: Moment,
    status: Option<WaitStatus>,
)
    requires
        child.role == ChildRole::Tui,
    ensures
        child.disposition is Some ==> {
            &&& ControlSignal::start(child, signal, deadline).phase == ControlPhase::Done(
                ChildLiveness::Exited,
            )
            &&& !(Suspend::start(child, deadline, forced_deadline).spec_action() matches Some(
                ChildAction::SignalGroup(_),
            ))
            &&& !(Resume::start(child, deadline).spec_action() matches Some(
                ChildAction::SignalGroup(_),
            ))
        },
        child.disposition is None && !child.observed_exit ==> {
            let sent = ControlSignal::start(child, signal, deadline).after(
                child,
                ChildEvent::Signaled(Ok(())),
            );
            let seen = sent.0.after(sent.1, ChildEvent::Waited(Ok(status)));
            &&& seen.0.phase == ControlPhase::Done(ChildLiveness::Exited) || seen.0.phase
                == ControlPhase::Done(ChildLiveness::Running)
            &&& seen.0.phase == ControlPhase::Done(ChildLiveness::Exited) <==> (
            status matches Some(status) && (status.exited || status.killed || status.dumped))
            &&& seen.1.observed_exit <==> seen.0.phase == ControlPhase::Done(ChildLiveness::Exited)
            &&& seen.1.stop_action == child.stop_action
        },
{
}

} // verus!
