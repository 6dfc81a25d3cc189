//! Observation, signalling and reaping of one direct child.
//!
//! Each operation is a machine. It names one system call at a time and is told
//! what came of it, together with the record of the child that it is about.
use vstd::prelude::*;

use crate::clock::Moment;
use crate::process::child::{absence_proven, group_absence_proven, ChildState, GroupAbsence};
use crate::process::error::ProcessError;
use crate::process::status::{
    disposition_of, observed_disposition, observed_waitid_disposition, project_disposition,
    ReapOutcome, Signal, SystemError, WaitOutcome,
};
use crate::protocol::message::{ChildDisposition, StopAction};

verus! {

/// One system call about a direct child.
#[derive(Clone, Copy, Debug, PartialEq, Eq, Structural)]
pub enum ChildAction {
    ReadClock,
    /// A non-blocking, non-consuming wait for an exit.
    WaitExit,
    /// A non-blocking, non-consuming wait for a stop or an exit.
    WaitStoppedOrExit,
    /// A non-blocking wait that consumes a stop notification only.
    ConsumeStop,
    /// A signal to the whole process group.
    SignalGroup(Signal),
    /// A signal to the direct child alone.
    SignalLeader(Signal),
    /// An independent look at a group whose signal was denied.
    ProbeGroupAbsence,
    /// A non-blocking wait that consumes the exit.
    TryWait,
    /// A best-effort kill of the direct child alone.
    KillLeader,
    /// A pause until the next poll, never past the deadline.
    Sleep { deadline: Moment },
    /// A poll of the readiness channel, for at most this many nanoseconds.
    PollReadiness { nanos: u64 },
    /// A read of at most two bytes from the readiness channel.
    ReadReadiness,
}

/// What a poll of the readiness channel came to.
#[derive(Clone, Copy, Debug, PartialEq, Eq, Structural)]
pub enum PollOutcome {
    Interrupted,
    Failed,
    Quiet,
    /// The channel reported an error condition, or data or a hangup.
    Ready { broken: bool, readable: bool },
}

/// What a read of the readiness channel came to.
#[derive(Clone, Copy, Debug, PartialEq, Eq, Structural)]
pub enum ReadinessRead {
    Interrupted,
    Failed,
    /// The number of bytes, and the first of them.
    Bytes { count: usize, first: u8 },
}

/// What came of a system call.
#[derive(Clone, Copy, Debug)]
pub enum ChildEvent {
    Clock(Moment),
    Waited(WaitOutcome),
    Signaled(Result<(), SystemError>),
    Absence(GroupAbsence),
    Reaped(ReapOutcome),
    LeaderKilled,
    Slept,
    Polled(PollOutcome),
    ReadinessRead(ReadinessRead),
}

// ---------------------------------------------------------------------------
// Observing an exit without reaping.
// ---------------------------------------------------------------------------

#[derive(Clone, Copy, Debug, PartialEq, Eq, Structural)]
pub enum ObservePhase {
    Wait,
    Clock,
    Done(bool),
    Failed(ProcessError),
}

/// The observation of an exit, without consuming the wait authority.
#[derive(Clone, Copy, Debug, PartialEq, Eq, Structural)]
pub struct ObserveExit {
    pub deadline: Moment,
    pub phase: ObservePhase,
}

impl ObserveExit {
    /// An exit that is known needs no further look.
    pub open spec fn start(child: ChildState, deadline: Moment) -> Self {
        ObserveExit {
            deadline,
            phase: if child.ended() {
                ObservePhase::Done(true)
            } else {
                ObservePhase::Wait
            },
        }
    }

    pub open spec fn at(self, phase: ObservePhase) -> Self {
        ObserveExit { phase, ..self }
    }

    /// The observation and the child after one event. Only an interrupted wait
    /// is repeated, and only before the deadline; only a terminal wait state
    /// counts as an exit.
    pub open spec fn after(self, child: ChildState, event: ChildEvent) -> (Self, ChildState) {
        match (self.phase, event) {
            (ObservePhase::Wait, ChildEvent::Waited(Ok(status))) => {
                let observed = status matches Some(status) && status.terminal();
                (
                    self.at(ObservePhase::Done(observed)),
                    ChildState { observed_exit: observed, ..child },
                )
            },
            (ObservePhase::Wait, ChildEvent::Waited(Err(error))) => (
                if error == SystemError::Interrupted {
                    self.at(ObservePhase::Clock)
                } else {
                    self.at(ObservePhase::Failed(ProcessError::Wait { role: child.role }))
                },
                child,
            ),
            (ObservePhase::Clock, ChildEvent::Clock(now)) => (
                if now.reached(self.deadline) {
                    self.at(ObservePhase::Failed(ProcessError::WaitTimeout { role: child.role }))
                } else {
                    self.at(ObservePhase::Wait)
                },
                child,
            ),
            _ => (self, child),
        }
    }

    pub open spec fn spec_action(self) -> Option<ChildAction> {
        match self.phase {
            ObservePhase::Wait => Some(ChildAction::WaitExit),
            ObservePhase::Clock => Some(ChildAction::ReadClock),
            _ => None,
        }
    }

    /// Begins an observation.
    pub fn begin(child: &ChildState, deadline: Moment) -> (observe: Self)
        ensures
            observe == Self::start(*child, deadline),
    {
        ObserveExit {
            deadline,
            phase: if child.disposition.is_some() || child.observed_exit {
                ObservePhase::Done(true)
            } else {
                ObservePhase::Wait
            },
        }
    }

    /// The next system call; `None` once the observation is over.
    pub fn action(&self) -> (action: Option<ChildAction>)
        ensures
            action == self.spec_action(),
    {
        match self.phase {
            ObservePhase::Wait => Some(ChildAction::WaitExit),
            ObservePhase::Clock => Some(ChildAction::ReadClock),
            _ => None,
        }
    }
}

/// Takes one event into an observation.
pub fn observe_exit_without_reaping(
    observe: &mut ObserveExit,
    child: &mut ChildState,
    event: ChildEvent,
)
    ensures
        (*final(observe), *final(child)) == old(observe).after(*old(child), event),
{
    match (observe.phase, event) {
        (ObservePhase::Wait, ChildEvent::Waited(Ok(status))) => {
            let observed = match status {
                Some(status) => status.is_terminal(),
                None => false,
            };
            child.observed_exit = observed;
            observe.phase = ObservePhase::Done(observed);
        },
        (ObservePhase::Wait, ChildEvent::Waited(Err(error))) => {
            observe.phase = if error == SystemError::Interrupted {
                ObservePhase::Clock
            } else {
                ObservePhase::Failed(ProcessError::Wait { role: child.role })
            };
        },
        (ObservePhase::Clock, ChildEvent::Clock(now)) => {
            observe.phase = if now.has_reached(observe.deadline) {
                ObservePhase::Failed(ProcessError::WaitTimeout { role: child.role })
            } else {
                ObservePhase::Wait
            };
        },
        _ => {},
    }
}

// ---------------------------------------------------------------------------
// Signalling the group.
// ---------------------------------------------------------------------------

#[derive(Clone, Copy, Debug, PartialEq, Eq, Structural)]
pub enum SignalPhase {
    Send,
    Observe(ObserveExit),
    Probe,
    Done,
    Failed(ProcessError),
}

/// One signal to the process group of a child that is not reaped yet, so that
/// its numbers cannot have been reused.
#[derive(Clone, Copy, Debug, PartialEq, Eq, Structural)]
pub struct GroupSignal {
    pub signal: Signal,
    pub action: StopAction,
    pub deadline: Moment,
    pub phase: SignalPhase,
}

impl GroupSignal {
    pub open spec fn start(
        child: ChildState,
        signal: Signal,
        action: StopAction,
        deadline: Moment,
    ) -> Self {
        GroupSignal {
            signal,
            action,
            deadline,
            phase: if child.disposition is Some {
                SignalPhase::Done
            } else {
                SignalPhase::Send
            },
        }
    }

    pub open spec fn at(self, phase: SignalPhase) -> Self {
        GroupSignal { phase, ..self }
    }

    pub open spec fn refused(self, child: ChildState) -> Self {
        self.at(SignalPhase::Failed(ProcessError::Signal { role: child.role, action: self.action }))
    }

    /// A group that has disappeared is fine exactly if the child has exited.
    pub open spec fn with_observation(self, child: ChildState, observe: ObserveExit) -> Self {
        match observe.phase {
            ObservePhase::Done(true) => self.at(SignalPhase::Done),
            ObservePhase::Done(false) => self.refused(child),
            ObservePhase::Failed(error) => self.at(SignalPhase::Failed(error)),
            _ => self.at(SignalPhase::Observe(observe)),
        }
    }

    pub open spec fn after(self, child: ChildState, event: ChildEvent) -> (Self, ChildState) {
        match (self.phase, event) {
            (SignalPhase::Send, ChildEvent::Signaled(Ok(_))) => (self.at(SignalPhase::Done), child),
            (SignalPhase::Send, ChildEvent::Signaled(Err(error))) => (
                match error {
                    SystemError::NoSuchProcess => self.with_observation(
                        child,
                        ObserveExit::start(child, self.deadline),
                    ),
                    SystemError::PermissionDenied => self.at(SignalPhase::Probe),
                    _ => self.refused(child),
                },
                child,
            ),
            (SignalPhase::Observe(observe), _) => {
                let (observe, child) = observe.after(child, event);
                (self.with_observation(child, observe), child)
            },
            (SignalPhase::Probe, ChildEvent::Absence(absence)) => (
                if absence_proven(child.pid, child.pgid, child.containment_policy, absence) {
                    self.at(SignalPhase::Done)
                } else {
                    self.refused(child)
                },
                child,
            ),
            _ => (self, child),
        }
    }

    pub open spec fn spec_action(self) -> Option<ChildAction> {
        match self.phase {
            SignalPhase::Send => Some(ChildAction::SignalGroup(self.signal)),
            SignalPhase::Observe(observe) => observe.spec_action(),
            SignalPhase::Probe => Some(ChildAction::ProbeGroupAbsence),
            _ => None,
        }
    }

    /// Begins a signal. A child that was reaped gets none.
    pub fn begin(child: &ChildState, signal: Signal, action: StopAction, deadline: Moment) -> (sent:
        Self)
        ensures
            sent == Self::start(*child, signal, action, deadline),
    {
        GroupSignal {
            signal,
            action,
            deadline,
            phase: if child.disposition.is_some() {
                SignalPhase::Done
            } else {
                SignalPhase::Send
            },
        }
    }

    fn take_observation(&mut self, child: &ChildState, observe: ObserveExit)
        ensures
            *final(self) == old(self).with_observation(*child, observe),
    {
        self.phase = match observe.phase {
            ObservePhase::Done(true) => SignalPhase::Done,
            ObservePhase::Done(false) => SignalPhase::Failed(
                ProcessError::Signal { role: child.role, action: self.action },
            ),
            ObservePhase::Failed(error) => SignalPhase::Failed(error),
            _ => SignalPhase::Observe(observe),
        };
    }

    /// The next system call; `None` once the signal is settled.
    pub fn action(&self) -> (action: Option<ChildAction>)
        ensures
            action == self.spec_action(),
    {
        match self.phase {
            SignalPhase::Send => Some(ChildAction::SignalGroup(self.signal)),
            SignalPhase::Observe(observe) => observe.action(),
            SignalPhase::Probe => Some(ChildAction::ProbeGroupAbsence),
            _ => None,
        }
    }
}

/// Takes one event into a group signal.
pub fn signal_group(sent: &mut GroupSignal, child: &mut ChildState, event: ChildEvent)
    ensures
        (*final(sent), *final(child)) == old(sent).after(*old(child), event),
{
    match (sent.phase, event) {
        (SignalPhase::Send, ChildEvent::Signaled(Ok(()))) => {
            sent.phase = SignalPhase::Done;
        },
        (SignalPhase::Send, ChildEvent::Signaled(Err(error))) => match error {
            SystemError::NoSuchProcess => {
                let observe = ObserveExit::begin(child, sent.deadline);
                sent.take_observation(child, observe);
            },
            SystemError::PermissionDenied => {
                sent.phase = SignalPhase::Probe;
            },
            _ => {
                sent.phase = SignalPhase::Failed(
                    ProcessError::Signal { role: child.role, action: sent.action },
                );
            },
        },
        (SignalPhase::Observe(observe), _) => {
            let mut observe = observe;
            observe_exit_without_reaping(&mut observe, child, event);
            sent.take_observation(child, observe);
        },
        (SignalPhase::Probe, ChildEvent::Absence(absence)) => {
            sent.phase = if group_absence_proven(
                child.pid,
                child.pgid,
                child.containment_policy,
                absence,
            ) {
                SignalPhase::Done
            } else {
                SignalPhase::Failed(
                    ProcessError::Signal { role: child.role, action: sent.action },
                )
            };
        },
        _ => {},
    }
}

// ---------------------------------------------------------------------------
// Waiting for a stop.
// ---------------------------------------------------------------------------

#[derive(Clone, Copy, Debug, PartialEq, Eq, Structural)]
pub enum StopWaitPhase {
    Wait,
    Consume,
    Clock { pause: bool },
    Sleep,
    Done(bool),
    Failed(ProcessError),
}

/// The wait for a stop notification. Exit authority is never consumed.
#[derive(Clone, Copy, Debug, PartialEq, Eq, Structural)]
pub struct StopWait {
    pub deadline: Moment,
    pub phase: StopWaitPhase,
}

impl StopWait {
    pub open spec fn start(deadline: Moment) -> Self {
        StopWait { deadline, phase: StopWaitPhase::Wait }
    }

    pub open spec fn at(self, phase: StopWaitPhase) -> Self {
        StopWait { phase, ..self }
    }

    pub open spec fn after(self, child: ChildState, event: ChildEvent) -> (Self, ChildState) {
        match (self.phase, event) {
            (StopWaitPhase::Wait, ChildEvent::Waited(Ok(status))) => match status {
                Some(status) => if status.stopped {
                    (self.at(StopWaitPhase::Consume), child)
                } else if status.terminal() {
                    (
                        self.at(
                            StopWaitPhase::Failed(
                                ProcessError::EarlyExit {
                                    role: child.role,
                                    disposition: observed_disposition(status),
                                },
                            ),
                        ),
                        ChildState { observed_exit: true, ..child },
                    )
                } else {
                    (self.at(StopWaitPhase::Clock { pause: true }), child)
                },
                None => (self.at(StopWaitPhase::Clock { pause: true }), child),
            },
            (StopWaitPhase::Wait, ChildEvent::Waited(Err(error))) => (
                if error == SystemError::Interrupted {
                    self.at(StopWaitPhase::Clock { pause: false })
                } else {
                    self.at(StopWaitPhase::Failed(ProcessError::Wait { role: child.role }))
                },
                child,
            ),
            (StopWaitPhase::Consume, ChildEvent::Waited(outcome)) => (
                if outcome matches Ok(Some(status)) && status.stopped {
                    self.at(StopWaitPhase::Done(true))
                } else {
                    self.at(StopWaitPhase::Failed(ProcessError::Wait { role: child.role }))
                },
                child,
            ),
            (StopWaitPhase::Clock { pause }, ChildEvent::Clock(now)) => (
                if now.reached(self.deadline) {
                    self.at(StopWaitPhase::Done(false))
                } else if pause {
                    self.at(StopWaitPhase::Sleep)
                } else {
                    self.at(StopWaitPhase::Wait)
                },
                child,
            ),
            (StopWaitPhase::Sleep, ChildEvent::Slept) => (self.at(StopWaitPhase::Wait), child),
            _ => (self, child),
        }
    }

    pub open spec fn spec_action(self) -> Option<ChildAction> {
        match self.phase {
            StopWaitPhase::Wait => Some(ChildAction::WaitStoppedOrExit),
            StopWaitPhase::Consume => Some(ChildAction::ConsumeStop),
            StopWaitPhase::Clock { .. } => Some(ChildAction::ReadClock),
            StopWaitPhase::Sleep => Some(ChildAction::Sleep { deadline: self.deadline }),
            _ => None,
        }
    }

    pub fn begin(deadline: Moment) -> (wait: Self)
        ensures
            wait == Self::start(deadline),
    {
        StopWait { deadline, phase: StopWaitPhase::Wait }
    }

    /// The next system call; `None` once the wait is over.
    pub fn action(&self) -> (action: Option<ChildAction>)
        ensures
            action == self.spec_action(),
    {
        match self.phase {
            StopWaitPhase::Wait => Some(ChildAction::WaitStoppedOrExit),
            StopWaitPhase::Consume => Some(ChildAction::ConsumeStop),
            StopWaitPhase::Clock { .. } => Some(ChildAction::ReadClock),
            StopWaitPhase::Sleep => Some(ChildAction::Sleep { deadline: self.deadline }),
            _ => None,
        }
    }
}

/// Takes one event into a wait for a stop.
pub fn wait_for_stopped(wait: &mut StopWait, child: &mut ChildState, event: ChildEvent)
    ensures
        (*final(wait), *final(child)) == old(wait).after(*old(child), event),
{
    match (wait.phase, event) {
        (StopWaitPhase::Wait, ChildEvent::Waited(Ok(status))) => match status {
            Some(status) => {
                if status.stopped {
                    wait.phase = StopWaitPhase::Consume;
                } else if status.is_terminal() {
                    child.observed_exit = true;
                    wait.phase = StopWaitPhase::Failed(
                        ProcessError::EarlyExit {
                            role: child.role,
                            disposition: observed_waitid_disposition(status),
                        },
                    );
                } else {
                    wait.phase = StopWaitPhase::Clock { pause: true };
                }
            },
            None => {
                wait.phase = StopWaitPhase::Clock { pause: true };
            },
        },
        (StopWaitPhase::Wait, ChildEvent::Waited(Err(error))) => {
            wait.phase = if error == SystemError::Interrupted {
                StopWaitPhase::Clock { pause: false }
            } else {
                StopWaitPhase::Failed(ProcessError::Wait { role: child.role })
            };
        },
        (StopWaitPhase::Consume, ChildEvent::Waited(outcome)) => {
            let consumed = match outcome {
                Ok(Some(status)) => status.stopped,
                _ => false,
            };
            wait.phase = if consumed {
                StopWaitPhase::Done(true)
            } else {
                StopWaitPhase::Failed(ProcessError::Wait { role: child.role })
            };
        },
        (StopWaitPhase::Clock { pause }, ChildEvent::Clock(now)) => {
            wait.phase = if now.has_reached(wait.deadline) {
                StopWaitPhase::Done(false)
            } else if pause {
                StopWaitPhase::Sleep
            } else {
                StopWaitPhase::Wait
            };
        },
        (StopWaitPhase::Sleep, ChildEvent::Slept) => {
            wait.phase = StopWaitPhase::Wait;
        },
        _ => {},
    }
}

// ---------------------------------------------------------------------------
// Reaping.
// ---------------------------------------------------------------------------

/// The child after a consuming wait, and the answer, where a contained child is
/// reaped. Nothing is waited for before containment.
pub open spec fn reap_contained(child: ChildState, outcome: ReapOutcome) -> (
    ChildState,
    Result<bool, ProcessError>,
) {
    if child.disposition is Some {
        (child, Ok(true))
    } else if !child.containment_swept {
        (child, Ok(false))
    } else {
        match outcome {
            ReapOutcome::Reaped(status) => (
                ChildState {
                    disposition: Some(disposition_of(status, child.stop_action)),
                    observed_exit: true,
                    ..child
                },
                Ok(true),
            ),
            ReapOutcome::Running => (child, Ok(false)),
            ReapOutcome::Failed => (child, Err(ProcessError::Wait { role: child.role })),
        }
    }
}

/// Takes the outcome of a consuming wait for a contained child. The outcome
/// counts only where [`contained_child_needs_wait`] says so.
pub fn try_reap_after_containment(child: &mut ChildState, outcome: ReapOutcome) -> (reaped: Result<
    bool,
    ProcessError,
>)
    ensures
        (*final(child), reaped) == reap_contained(*old(child), outcome),
        old(child).disposition is None && reaped == Ok::<bool, ProcessError>(true) ==> {
            &&& old(child).containment_swept
            &&& outcome matches ReapOutcome::Reaped(status) && {
                final(child).disposition matches Some(
                    ChildDisposition::Exited { code: 0, stop_action },
                ) ==> (status.code matches Some(code) && code <= 0)
            }
        },
{
    if child.disposition.is_some() {
        return Ok(true);
    }
    if !child.containment_swept {
        return Ok(false);
    }
    match outcome {
        ReapOutcome::Reaped(status) => {
            child.disposition = Some(project_disposition(status, child.stop_action));
            child.observed_exit = true;
            Ok(true)
        },
        ReapOutcome::Running => Ok(false),
        ReapOutcome::Failed => Err(ProcessError::Wait { role: child.role }),
    }
}

/// Whether a consuming wait is due for a contained child.
pub fn contained_child_needs_wait(child: &ChildState) -> (needed: bool)
    ensures
        needed == (child.disposition is None && child.containment_swept),
{
    child.disposition.is_none() && child.containment_swept
}

#[derive(Clone, Copy, Debug, PartialEq, Eq, Structural)]
pub enum ContainPhase {
    Signal(GroupSignal),
    Reap,
    Clock,
    Sleep,
    Done(ChildDisposition),
    Failed(ProcessError),
}

/// The sweep of an exited child's group, then the exact reap of the child.
#[derive(Clone, Copy, Debug, PartialEq, Eq, Structural)]
pub struct ContainAndReap {
    pub deadline: Moment,
    pub phase: ContainPhase,
}

impl ContainAndReap {
    pub open spec fn start(child: ChildState, deadline: Moment) -> (Self, ChildState) {
        ContainAndReap { deadline, phase: ContainPhase::Reap }.with_signal(
            child,
            GroupSignal::start(child, Signal::Kill, StopAction::Kill, deadline),
        )
    }

    pub open spec fn at(self, phase: ContainPhase) -> Self {
        ContainAndReap { phase, ..self }
    }

    /// The sweep is over: a child that was reaped before is done.
    pub open spec fn with_signal(self, child: ChildState, sent: GroupSignal) -> (
        Self,
        ChildState,
    ) {
        match sent.phase {
            SignalPhase::Done => (
                match child.disposition {
                    Some(disposition) => self.at(ContainPhase::Done(disposition)),
                    None => self.at(ContainPhase::Reap),
                },
                ChildState { containment_swept: true, ..child },
            ),
            SignalPhase::Failed(error) => (self.at(ContainPhase::Failed(error)), child),
            _ => (self.at(ContainPhase::Signal(sent)), child),
        }
    }

    pub open spec fn after(self, child: ChildState, event: ChildEvent) -> (Self, ChildState) {
        match (self.phase, event) {
            (ContainPhase::Signal(sent), _) => {
                let (sent, child) = sent.after(child, event);
                self.with_signal(child, sent)
            },
            (ContainPhase::Reap, ChildEvent::Reaped(outcome)) => {
                let (child, reaped) = reap_contained(child, outcome);
                (
                    match reaped {
                        Err(error) => self.at(ContainPhase::Failed(error)),
                        Ok(false) => self.at(ContainPhase::Clock),
                        Ok(true) => match child.disposition {
                            Some(disposition) => self.at(ContainPhase::Done(disposition)),
                            None => self.at(
                                ContainPhase::Failed(ProcessError::Wait { role: child.role }),
                            ),
                        },
                    },
                    child,
                )
            },
            (ContainPhase::Clock, ChildEvent::Clock(now)) => (
                if now.reached(self.deadline) {
                    self.at(ContainPhase::Failed(ProcessError::WaitTimeout { role: child.role }))
                } else {
                    self.at(ContainPhase::Sleep)
                },
                child,
            ),
            (ContainPhase::Sleep, ChildEvent::Slept) => (self.at(ContainPhase::Reap), child),
            _ => (self, child),
        }
    }

    pub open spec fn spec_action(self) -> Option<ChildAction> {
        match self.phase {
            ContainPhase::Signal(sent) => sent.spec_action(),
            ContainPhase::Reap => Some(ChildAction::TryWait),
            ContainPhase::Clock => Some(ChildAction::ReadClock),
            ContainPhase::Sleep => Some(ChildAction::Sleep { deadline: self.deadline }),
            _ => None,
        }
    }

    pub fn begin(child: &mut ChildState, deadline: Moment) -> (contain: Self)
        ensures
            (contain, *final(child)) == Self::start(*old(child), deadline),
    {
        let sent = GroupSignal::begin(child, Signal::Kill, StopAction::Kill, deadline);
        let mut contain = ContainAndReap { deadline, phase: ContainPhase::Reap };
        contain.take_signal(child, sent);
        contain
    }

    fn take_signal(&mut self, child: &mut ChildState, sent: GroupSignal)
        ensures
            (*final(self), *final(child)) == old(self).with_signal(*old(child), sent),
    {
        match sent.phase {
            SignalPhase::Done => {
                self.phase = match child.disposition {
                    Some(disposition) => ContainPhase::Done(disposition),
                    None => ContainPhase::Reap,
                };
                child.containment_swept = true;
            },
            SignalPhase::Failed(error) => {
                self.phase = ContainPhase::Failed(error);
            },
            _ => {
                self.phase = ContainPhase::Signal(sent);
            },
        }
    }

    /// The next system call; `None` once the child is reaped or given up on.
    pub fn action(&self) -> (action: Option<ChildAction>)
        ensures
            action == self.spec_action(),
    {
        match self.phase {
            ContainPhase::Signal(sent) => sent.action(),
            ContainPhase::Reap => Some(ChildAction::TryWait),
            ContainPhase::Clock => Some(ChildAction::ReadClock),
            ContainPhase::Sleep => Some(ChildAction::Sleep { deadline: self.deadline }),
            _ => None,
        }
    }
}

/// Takes one event into a containment.
pub fn contain_and_reap_observed_exit(
    contain: &mut ContainAndReap,
    child: &mut ChildState,
    event: ChildEvent,
)
    ensures
        (*final(contain), *final(child)) == old(contain).after(*old(child), event),
{
    match (contain.phase, event) {
        (ContainPhase::Signal(sent), _) => {
            let mut sent = sent;
            signal_group(&mut sent, child, event);
            contain.take_signal(child, sent);
        },
        (ContainPhase::Reap, ChildEvent::Reaped(outcome)) => {
            contain.phase = match try_reap_after_containment(child, outcome) {
                Err(error) => ContainPhase::Failed(error),
                Ok(false) => ContainPhase::Clock,
                Ok(true) => match child.disposition {
                    Some(disposition) => ContainPhase::Done(disposition),
                    None => ContainPhase::Failed(ProcessError::Wait { role: child.role }),
                },
            };
        },
        (ContainPhase::Clock, ChildEvent::Clock(now)) => {
            contain.phase = if now.has_reached(contain.deadline) {
                ContainPhase::Failed(ProcessError::WaitTimeout { role: child.role })
            } else {
                ContainPhase::Sleep
            };
        },
        (ContainPhase::Sleep, ChildEvent::Slept) => {
            contain.phase = ContainPhase::Reap;
        },
        _ => {},
    }
}

} // verus!
