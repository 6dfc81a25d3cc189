//! How a child is asked to stop, and how a TUI is forced to.
//!
//! The App Server gets one shutdown signal in its life and never a forced one:
//! its tools may have left its process group, so only its own graceful exit
//! shows that they are gone.
use vstd::prelude::*;

use crate::clock::Moment;
use crate::process::child::{AppGracefulDrainState, ChildState};
use crate::process::error::{AppGracefulDrainFailureStage, ProcessError};
use crate::process::observe::{
    observe_exit_without_reaping, signal_group, wait_for_stopped, ChildAction, ChildEvent,
    GroupSignal, ObserveExit, ObservePhase, SignalPhase, StopWait, StopWaitPhase,
};
use crate::process::status::{disposition_of, project_disposition, ReapOutcome, Signal};
use crate::protocol::message::{ChildDisposition, ChildRole, StopAction};

verus! {

pub open spec fn drain_unconfirmed(
    role: ChildRole,
    stage: AppGracefulDrainFailureStage,
) -> ProcessError {
    ProcessError::AppGracefulDrainUnconfirmed { role, stage }
}

// ---------------------------------------------------------------------------
// Reaping the App Server.
// ---------------------------------------------------------------------------

/// The only exit that shows a drain: status zero after the one TERM.
pub open spec fn drained_exit() -> ChildDisposition {
    ChildDisposition::Exited { code: 0, stop_action: StopAction::Term }
}

/// The App Server after a consuming wait, and the answer.
pub open spec fn reap_app_server(child: ChildState, outcome: ReapOutcome) -> (
    ChildState,
    Result<bool, ProcessError>,
) {
    if child.disposition is Some {
        (child, Ok(true))
    } else if child.role != ChildRole::AppServer {
        (
            child,
            Err(
                ProcessError::RoleMismatch { expected: ChildRole::AppServer, actual: child.role },
            ),
        )
    } else {
        match outcome {
            ReapOutcome::Reaped(status) => {
                let disposition = disposition_of(status, child.stop_action);
                let drained = child.app_graceful_drain == AppGracefulDrainState::InitialTermSent
                    && disposition == drained_exit();
                (
                    ChildState {
                        disposition: Some(disposition),
                        observed_exit: true,
                        app_graceful_drain: if drained {
                            AppGracefulDrainState::Drained
                        } else {
                            AppGracefulDrainState::Invalid
                        },
                        ..child
                    },
                    if drained {
                        Ok(true)
                    } else {
                        Err(
                            drain_unconfirmed(
                                child.role,
                                AppGracefulDrainFailureStage::InvalidDisposition,
                            ),
                        )
                    },
                )
            },
            ReapOutcome::Running => (child, Ok(false)),
            ReapOutcome::Failed => (
                ChildState { app_graceful_drain: AppGracefulDrainState::Invalid, ..child },
                Err(ProcessError::Wait { role: child.role }),
            ),
        }
    }
}

/// Whether a consuming wait is due for the App Server.
pub fn app_server_needs_wait(child: &ChildState) -> (needed: bool)
    ensures
        needed == (child.disposition is None && child.role == ChildRole::AppServer),
{
    child.disposition.is_none() && child.role == ChildRole::AppServer
}

/// Takes the outcome of a consuming wait for the App Server. The outcome counts
/// only where [`app_server_needs_wait`] says so.
pub fn try_reap_app_server(child: &mut ChildState, outcome: ReapOutcome) -> (reaped: Result<
    bool,
    ProcessError,
>)
    ensures
        (*final(child), reaped) == reap_app_server(*old(child), outcome),
        old(child).disposition is None && reaped == Ok::<bool, ProcessError>(true) ==> {
            &&& old(child).app_graceful_drain == AppGracefulDrainState::InitialTermSent
            &&& old(child).stop_action == StopAction::Term
            &&& outcome matches ReapOutcome::Reaped(status) && status.code matches Some(code)
                && code <= 0
        },
{
    if child.disposition.is_some() {
        return Ok(true);
    }
    if child.role != ChildRole::AppServer {
        return Err(
            ProcessError::RoleMismatch { expected: ChildRole::AppServer, actual: child.role },
        );
    }
    match outcome {
        ReapOutcome::Reaped(status) => {
            let disposition = project_disposition(status, child.stop_action);
            child.disposition = Some(disposition);
            child.observed_exit = true;
            let drained = child.app_graceful_drain == AppGracefulDrainState::InitialTermSent
                && disposition == (ChildDisposition::Exited {
                code: 0,
                stop_action: StopAction::Term,
            });
            if drained {
                child.app_graceful_drain = AppGracefulDrainState::Drained;
                Ok(true)
            } else {
                child.app_graceful_drain = AppGracefulDrainState::Invalid;
                Err(
                    ProcessError::AppGracefulDrainUnconfirmed {
                        role: child.role,
                        stage: AppGracefulDrainFailureStage::InvalidDisposition,
                    },
                )
            }
        },
        ReapOutcome::Running => Ok(false),
        ReapOutcome::Failed => {
            child.app_graceful_drain = AppGracefulDrainState::Invalid;
            Err(ProcessError::Wait { role: child.role })
        },
    }
}

// ---------------------------------------------------------------------------
// The one shutdown of the App Server.
// ---------------------------------------------------------------------------

#[derive(Clone, Copy, Debug, PartialEq, Eq, Structural)]
pub enum AppShutdownPhase {
    Observe(ObserveExit),
    /// The child had already exited: it is reaped, and the drain is lost.
    Reap(AppGracefulDrainFailureStage),
    SendStop,
    AwaitStop(StopWait),
    SendTerm,
    SendCont,
    Done,
    Failed(ProcessError),
}

/// The stop, the one TERM, and the continuation of the exact App leader.
///
/// The leader is pinned in a stopped state before TERM is queued on it, so that
/// no other member of its group can make the signal look delivered. The drain
/// is marked invalid before the first observation: whatever fails on the way
/// permanently removes the permission to signal again.
#[derive(Clone, Copy, Debug, PartialEq, Eq, Structural)]
pub struct AppShutdown {
    pub deadline: Moment,
    pub phase: AppShutdownPhase,
}

impl AppShutdown {
    pub open spec fn at(self, phase: AppShutdownPhase) -> Self {
        AppShutdown { phase, ..self }
    }

    pub open spec fn failed(self, error: ProcessError) -> Self {
        self.at(AppShutdownPhase::Failed(error))
    }

    pub open spec fn start(child: ChildState, deadline: Moment) -> (Self, ChildState) {
        let fresh = AppShutdown { deadline, phase: AppShutdownPhase::Done };
        match child.app_graceful_drain {
            AppGracefulDrainState::Drained => (fresh, child),
            AppGracefulDrainState::InitialTermSent => (fresh, child),
            AppGracefulDrainState::Invalid => (
                fresh.failed(
                    drain_unconfirmed(child.role, AppGracefulDrainFailureStage::PriorInvalid),
                ),
                child,
            ),
            AppGracefulDrainState::NotApplicable => (
                fresh.failed(
                    ProcessError::RoleMismatch {
                        expected: ChildRole::AppServer,
                        actual: child.role,
                    },
                ),
                child,
            ),
            AppGracefulDrainState::AwaitingInitialTerm => {
                let marked = ChildState {
                    app_graceful_drain: AppGracefulDrainState::Invalid,
                    ..child
                };
                (fresh.with_observation(marked, ObserveExit::start(marked, deadline)), marked)
            },
        }
    }

    /// The child exited at this stage. It is reaped where a wait is still due.
    pub open spec fn lost(self, child: ChildState, stage: AppGracefulDrainFailureStage) -> Self {
        if child.disposition is None && child.role == ChildRole::AppServer {
            self.at(AppShutdownPhase::Reap(stage))
        } else {
            self.failed(drain_unconfirmed(child.role, stage))
        }
    }

    pub open spec fn with_observation(self, child: ChildState, observe: ObserveExit) -> Self {
        match observe.phase {
            ObservePhase::Done(true) => self.lost(
                child,
                AppGracefulDrainFailureStage::ExitedBeforeTerm,
            ),
            ObservePhase::Done(false) => self.at(AppShutdownPhase::SendStop),
            ObservePhase::Failed(error) => self.failed(error),
            _ => self.at(AppShutdownPhase::Observe(observe)),
        }
    }

    /// TERM is recorded as the stop action before it is sent.
    pub open spec fn with_stop_wait(self, child: ChildState, wait: StopWait) -> (
        Self,
        ChildState,
    ) {
        match wait.phase {
            StopWaitPhase::Done(true) => (
                self.at(AppShutdownPhase::SendTerm),
                ChildState { stop_action: StopAction::Term, ..child },
            ),
            StopWaitPhase::Done(false) => (
                self.failed(
                    drain_unconfirmed(child.role, AppGracefulDrainFailureStage::StopTimeout),
                ),
                child,
            ),
            StopWaitPhase::Failed(error) => (
                if error is EarlyExit {
                    self.lost(child, AppGracefulDrainFailureStage::ExitedWhileStopping)
                } else {
                    self.failed(error)
                },
                child,
            ),
            _ => (self.at(AppShutdownPhase::AwaitStop(wait)), child),
        }
    }

    pub open spec fn after(self, child: ChildState, event: ChildEvent) -> (Self, ChildState) {
        match (self.phase, event) {
            (AppShutdownPhase::Observe(observe), _) => {
                let (observe, child) = observe.after(child, event);
                (self.with_observation(child, observe), child)
            },
            (AppShutdownPhase::Reap(stage), ChildEvent::Reaped(outcome)) => {
                let (child, _) = reap_app_server(child, outcome);
                (self.failed(drain_unconfirmed(child.role, stage)), child)
            },
            (AppShutdownPhase::SendStop, ChildEvent::Signaled(sent)) => (
                match sent {
                    Ok(_) => self.at(AppShutdownPhase::AwaitStop(StopWait::start(self.deadline))),
                    Err(_) => self.failed(
                        ProcessError::Signal { role: child.role, action: StopAction::NoAction },
                    ),
                },
                child,
            ),
            (AppShutdownPhase::AwaitStop(wait), _) => {
                let (wait, child) = wait.after(child, event);
                self.with_stop_wait(child, wait)
            },
            (AppShutdownPhase::SendTerm, ChildEvent::Signaled(sent)) => (
                match sent {
                    Ok(_) => self.at(AppShutdownPhase::SendCont),
                    Err(_) => self.failed(
                        ProcessError::Signal { role: child.role, action: StopAction::Term },
                    ),
                },
                child,
            ),
            (AppShutdownPhase::SendCont, ChildEvent::Signaled(sent)) => match sent {
                Ok(_) => (
                    self.at(AppShutdownPhase::Done),
                    ChildState {
                        app_graceful_drain: AppGracefulDrainState::InitialTermSent,
                        ..child
                    },
                ),
                Err(_) => (
                    self.failed(
                        ProcessError::Signal { role: child.role, action: StopAction::NoAction },
                    ),
                    child,
                ),
            },
            _ => (self, child),
        }
    }

    pub open spec fn spec_action(self) -> Option<ChildAction> {
        match self.phase {
            AppShutdownPhase::Observe(observe) => observe.spec_action(),
            AppShutdownPhase::Reap(_) => Some(ChildAction::TryWait),
            AppShutdownPhase::SendStop => Some(ChildAction::SignalLeader(Signal::Stop)),
            AppShutdownPhase::AwaitStop(wait) => wait.spec_action(),
            AppShutdownPhase::SendTerm => Some(ChildAction::SignalLeader(Signal::Term)),
            AppShutdownPhase::SendCont => Some(ChildAction::SignalLeader(Signal::Cont)),
            _ => None,
        }
    }

    /// Starts the one shutdown, or finds that it was used up.
    pub fn begin(child: &mut ChildState, deadline: Moment) -> (shutdown: Self)
        ensures
            (shutdown, *final(child)) == Self::start(*old(child), deadline),
    {
        let mut shutdown = AppShutdown { deadline, phase: AppShutdownPhase::Done };
        match child.app_graceful_drain {
            AppGracefulDrainState::Drained | AppGracefulDrainState::InitialTermSent => {},
            AppGracefulDrainState::Invalid => {
                shutdown.phase = AppShutdownPhase::Failed(
                    ProcessError::AppGracefulDrainUnconfirmed {
                        role: child.role,
                        stage: AppGracefulDrainFailureStage::PriorInvalid,
                    },
                );
            },
            AppGracefulDrainState::NotApplicable => {
                shutdown.phase = AppShutdownPhase::Failed(
                    ProcessError::RoleMismatch {
                        expected: ChildRole::AppServer,
                        actual: child.role,
                    },
                );
            },
            AppGracefulDrainState::AwaitingInitialTerm => {
                child.app_graceful_drain = AppGracefulDrainState::Invalid;
                let observe = ObserveExit::begin(child, deadline);
                shutdown.take_observation(child, observe);
            },
        }
        shutdown
    }

    fn lose(&mut self, child: &ChildState, stage: AppGracefulDrainFailureStage)
        ensures
            *final(self) == old(self).lost(*child, stage),
    {
        self.phase = if app_server_needs_wait(child) {
            AppShutdownPhase::Reap(stage)
        } else {
            AppShutdownPhase::Failed(
                ProcessError::AppGracefulDrainUnconfirmed { role: child.role, stage },
            )
        };
    }

    fn take_observation(&mut self, child: &ChildState, observe: ObserveExit)
        ensures
            *final(self) == old(self).with_observation(*child, observe),
    {
        match observe.phase {
            ObservePhase::Done(true) => {
                self.lose(child, AppGracefulDrainFailureStage::ExitedBeforeTerm);
            },
            ObservePhase::Done(false) => {
                self.phase = AppShutdownPhase::SendStop;
            },
            ObservePhase::Failed(error) => {
                self.phase = AppShutdownPhase::Failed(error);
            },
            _ => {
                self.phase = AppShutdownPhase::Observe(observe);
            },
        }
    }

    fn take_stop_wait(&mut self, child: &mut ChildState, wait: StopWait)
        ensures
            (*final(self), *final(child)) == old(self).with_stop_wait(*old(child), wait),
    {
        match wait.phase {
            StopWaitPhase::Done(true) => {
                child.stop_action = StopAction::Term;
                self.phase = AppShutdownPhase::SendTerm;
            },
            StopWaitPhase::Done(false) => {
                self.phase = AppShutdownPhase::Failed(
                    ProcessError::AppGracefulDrainUnconfirmed {
                        role: child.role,
                        stage: AppGracefulDrainFailureStage::StopTimeout,
                    },
                );
            },
            StopWaitPhase::Failed(error) => {
                if matches!(error, ProcessError::EarlyExit { .. }) {
                    self.lose(child, AppGracefulDrainFailureStage::ExitedWhileStopping);
                } else {
                    self.phase = AppShutdownPhase::Failed(error);
                }
            },
            _ => {
                self.phase = AppShutdownPhase::AwaitStop(wait);
            },
        }
    }

    /// The next system call; `None` once the shutdown is settled.
    pub fn action(&self) -> (action: Option<ChildAction>)
        ensures
            action == self.spec_action(),
    {
        match self.phase {
            AppShutdownPhase::Observe(observe) => observe.action(),
            AppShutdownPhase::Reap(_) => Some(ChildAction::TryWait),
            AppShutdownPhase::SendStop => Some(ChildAction::SignalLeader(Signal::Stop)),
            AppShutdownPhase::AwaitStop(wait) => wait.action(),
            AppShutdownPhase::SendTerm => Some(ChildAction::SignalLeader(Signal::Term)),
            AppShutdownPhase::SendCont => Some(ChildAction::SignalLeader(Signal::Cont)),
            _ => None,
        }
    }
}

/// Takes one event into the shutdown of the App Server.
pub fn begin_app_server_shutdown(
    shutdown: &mut AppShutdown,
    child: &mut ChildState,
    event: ChildEvent,
)
    ensures
        (*final(shutdown), *final(child)) == old(shutdown).after(*old(child), event),
{
    match (shutdown.phase, event) {
        (AppShutdownPhase::Observe(observe), _) => {
            let mut observe = observe;
            observe_exit_without_reaping(&mut observe, child, event);
            shutdown.take_observation(child, observe);
        },
        (AppShutdownPhase::Reap(stage), ChildEvent::Reaped(outcome)) => {
            let _ = try_reap_app_server(child, outcome);
            shutdown.phase = AppShutdownPhase::Failed(
                ProcessError::AppGracefulDrainUnconfirmed { role: child.role, stage },
            );
        },
        (AppShutdownPhase::SendStop, ChildEvent::Signaled(sent)) => {
            shutdown.phase = match sent {
                Ok(()) => AppShutdownPhase::AwaitStop(StopWait::begin(shutdown.deadline)),
                Err(_) => AppShutdownPhase::Failed(
                    ProcessError::Signal { role: child.role, action: StopAction::NoAction },
                ),
            };
        },
        (AppShutdownPhase::AwaitStop(wait), _) => {
            let mut wait = wait;
            wait_for_stopped(&mut wait, child, event);
            shutdown.take_stop_wait(child, wait);
        },
        (AppShutdownPhase::SendTerm, ChildEvent::Signaled(sent)) => {
            shutdown.phase = match sent {
                Ok(()) => AppShutdownPhase::SendCont,
                Err(_) => AppShutdownPhase::Failed(
                    ProcessError::Signal { role: child.role, action: StopAction::Term },
                ),
            };
        },
        (AppShutdownPhase::SendCont, ChildEvent::Signaled(sent)) => match sent {
            Ok(()) => {
                child.app_graceful_drain = AppGracefulDrainState::InitialTermSent;
                shutdown.phase = AppShutdownPhase::Done;
            },
            Err(_) => {
                shutdown.phase = AppShutdownPhase::Failed(
                    ProcessError::Signal { role: child.role, action: StopAction::NoAction },
                );
            },
        },
        _ => {},
    }
}

// ---------------------------------------------------------------------------
// Stopping a TUI.
// ---------------------------------------------------------------------------

/// How hard a TUI is stopped.
#[derive(Clone, Copy, Debug, PartialEq, Eq, Structural)]
pub enum TuiStopForce {
    Term,
    Kill,
}

impl TuiStopForce {
    pub open spec fn stop_action(self) -> StopAction {
        match self {
            TuiStopForce::Term => StopAction::Term,
            TuiStopForce::Kill => StopAction::Kill,
        }
    }

    pub open spec fn unix_signal(self) -> Signal {
        match self {
            TuiStopForce::Term => Signal::Term,
            TuiStopForce::Kill => Signal::Kill,
        }
    }
}

#[derive(Clone, Copy, Debug, PartialEq, Eq, Structural)]
pub enum TuiStopPhase {
    Observe(ObserveExit),
    /// The signal, and the error of the observation before it, if any.
    Signal { sent: GroupSignal, observation: Option<ProcessError> },
    Done,
    Failed(ProcessError),
}

/// One TERM or KILL to a TUI's group.
///
/// The stop action is recorded unless the TUI had already exited by itself, so
/// a natural exit keeps its own disposition.
#[derive(Clone, Copy, Debug, PartialEq, Eq, Structural)]
pub struct TuiStop {
    pub force: TuiStopForce,
    pub deadline: Moment,
    pub phase: TuiStopPhase,
}

impl TuiStop {
    pub open spec fn at(self, phase: TuiStopPhase) -> Self {
        TuiStop { phase, ..self }
    }

    pub open spec fn start(child: ChildState, force: TuiStopForce, deadline: Moment) -> (
        Self,
        ChildState,
    ) {
        let fresh = TuiStop { force, deadline, phase: TuiStopPhase::Done };
        if child.disposition is Some {
            (fresh, child)
        } else {
            fresh.with_observation(child, ObserveExit::start(child, deadline))
        }
    }

    pub open spec fn send(self, child: ChildState, observation: Option<ProcessError>) -> (
        Self,
        ChildState,
    ) {
        self.with_signal(
            child,
            GroupSignal::start(
                child,
                self.force.unix_signal(),
                self.force.stop_action(),
                self.deadline,
            ),
            observation,
        )
    }

    pub open spec fn with_observation(self, child: ChildState, observe: ObserveExit) -> (
        Self,
        ChildState,
    ) {
        let marked = ChildState { stop_action: self.force.stop_action(), ..child };
        match observe.phase {
            ObservePhase::Done(true) => self.send(child, None),
            ObservePhase::Done(false) => self.send(marked, None),
            ObservePhase::Failed(error) => self.send(marked, Some(error)),
            _ => (self.at(TuiStopPhase::Observe(observe)), child),
        }
    }

    /// A settled KILL has swept the group. The error of the observation wins
    /// over the outcome of the signal.
    pub open spec fn with_signal(
        self,
        child: ChildState,
        sent: GroupSignal,
        observation: Option<ProcessError>,
    ) -> (Self, ChildState) {
        match sent.phase {
            SignalPhase::Done => (
                match observation {
                    Some(error) => self.at(TuiStopPhase::Failed(error)),
                    None => self.at(TuiStopPhase::Done),
                },
                if self.force == TuiStopForce::Kill {
                    ChildState { containment_swept: true, ..child }
                } else {
                    child
                },
            ),
            SignalPhase::Failed(error) => (
                self.at(
                    TuiStopPhase::Failed(
                        match observation {
                            Some(first) => first,
                            None => error,
                        },
                    ),
                ),
                child,
            ),
            _ => (self.at(TuiStopPhase::Signal { sent, observation }), child),
        }
    }

    pub open spec fn after(self, child: ChildState, event: ChildEvent) -> (Self, ChildState) {
        match self.phase {
            TuiStopPhase::Observe(observe) => {
                let (observe, child) = observe.after(child, event);
                self.with_observation(child, observe)
            },
            TuiStopPhase::Signal { sent, observation } => {
                let (sent, child) = sent.after(child, event);
                self.with_signal(child, sent, observation)
            },
            _ => (self, child),
        }
    }

    pub open spec fn spec_action(self) -> Option<ChildAction> {
        match self.phase {
            TuiStopPhase::Observe(observe) => observe.spec_action(),
            TuiStopPhase::Signal { sent, .. } => sent.spec_action(),
            _ => None,
        }
    }

    pub fn begin(child: &mut ChildState, force: TuiStopForce, deadline: Moment) -> (stop: Self)
        ensures
            (stop, *final(child)) == Self::start(*old(child), force, deadline),
    {
        let mut stop = TuiStop { force, deadline, phase: TuiStopPhase::Done };
        if child.disposition.is_none() {
            let observe = ObserveExit::begin(child, deadline);
            stop.take_observation(child, observe);
        }
        stop
    }

    fn begin_signal(&mut self, child: &mut ChildState, observation: Option<ProcessError>)
        ensures
            (*final(self), *final(child)) == old(self).send(*old(child), observation),
    {
        let sent = match self.force {
            TuiStopForce::Term => GroupSignal::begin(
                child,
                Signal::Term,
                StopAction::Term,
                self.deadline,
            ),
            TuiStopForce::Kill => GroupSignal::begin(
                child,
                Signal::Kill,
                StopAction::Kill,
                self.deadline,
            ),
        };
        self.take_signal(child, sent, observation);
    }

    fn take_observation(&mut self, child: &mut ChildState, observe: ObserveExit)
        ensures
            (*final(self), *final(child)) == old(self).with_observation(*old(child), observe),
    {
        let action = match self.force {
            TuiStopForce::Term => StopAction::Term,
            TuiStopForce::Kill => StopAction::Kill,
        };
        match observe.phase {
            ObservePhase::Done(true) => {
                self.begin_signal(child, None);
            },
            ObservePhase::Done(false) => {
                child.stop_action = action;
                self.begin_signal(child, None);
            },
            ObservePhase::Failed(error) => {
                child.stop_action = action;
                self.begin_signal(child, Some(error));
            },
            _ => {
                self.phase = TuiStopPhase::Observe(observe);
            },
        }
    }

    fn take_signal(
        &mut self,
        child: &mut ChildState,
        sent: GroupSignal,
        observation: Option<ProcessError>,
    )
        ensures
            (*final(self), *final(child)) == old(self).with_signal(*old(child), sent, observation),
    {
        match sent.phase {
            SignalPhase::Done => {
                if self.force == TuiStopForce::Kill {
                    child.containment_swept = true;
                }
                self.phase = match observation {
                    Some(error) => TuiStopPhase::Failed(error),
                    None => TuiStopPhase::Done,
                };
            },
            SignalPhase::Failed(error) => {
                self.phase = TuiStopPhase::Failed(
                    match observation {
                        Some(first) => first,
                        None => error,
                    },
                );
            },
            _ => {
                self.phase = TuiStopPhase::Signal { sent, observation };
            },
        }
    }

    /// The next system call; `None` once the stop is settled.
    pub fn action(&self) -> (action: Option<ChildAction>)
        ensures
            action == self.spec_action(),
    {
        match self.phase {
            TuiStopPhase::Observe(observe) => observe.action(),
            TuiStopPhase::Signal { sent, .. } => sent.action(),
            _ => None,
        }
    }

    /// Takes in what came of the last system call.
    pub fn advance(&mut self, child: &mut ChildState, event: ChildEvent)
        ensures
            (*final(self), *final(child)) == old(self).after(*old(child), event),
    {
        match self.phase {
            TuiStopPhase::Observe(observe) => {
                let mut observe = observe;
                observe_exit_without_reaping(&mut observe, child, event);
                self.take_observation(child, observe);
            },
            TuiStopPhase::Signal { sent, observation } => {
                let mut sent = sent;
                signal_group(&mut sent, child, event);
                self.take_signal(child, sent, observation);
            },
            _ => {},
        }
    }
}

// ---------------------------------------------------------------------------
// Stopping either child.
// ---------------------------------------------------------------------------

/// The stop of one child, by its role.
#[derive(Clone, Copy, Debug, PartialEq, Eq, Structural)]
pub enum Termination {
    App(AppShutdown),
    Tui(TuiStop),
    Refused(ProcessError),
}

impl Termination {
    /// The ordinary stop: the App Server's one shutdown, or TERM to a TUI.
    pub open spec fn start(child: ChildState, deadline: Moment) -> (Self, ChildState) {
        if child.role == ChildRole::AppServer {
            let (shutdown, child) = AppShutdown::start(child, deadline);
            (Termination::App(shutdown), child)
        } else {
            let (stop, child) = TuiStop::start(child, TuiStopForce::Term, deadline);
            (Termination::Tui(stop), child)
        }
    }

    /// The forced stop: KILL to a TUI. For the App Server it is forbidden, and
    /// asking for it loses the drain.
    pub open spec fn start_kill(child: ChildState, deadline: Moment) -> (Self, ChildState) {
        if child.role == ChildRole::AppServer {
            (
                Termination::Refused(
                    drain_unconfirmed(child.role, AppGracefulDrainFailureStage::KillForbidden),
                ),
                ChildState { app_graceful_drain: AppGracefulDrainState::Invalid, ..child },
            )
        } else {
            let (stop, child) = TuiStop::start(child, TuiStopForce::Kill, deadline);
            (Termination::Tui(stop), child)
        }
    }

    pub open spec fn after(self, child: ChildState, event: ChildEvent) -> (Self, ChildState) {
        match self {
            Termination::App(shutdown) => {
                let (shutdown, child) = shutdown.after(child, event);
                (Termination::App(shutdown), child)
            },
            Termination::Tui(stop) => {
                let (stop, child) = stop.after(child, event);
                (Termination::Tui(stop), child)
            },
            Termination::Refused(_) => (self, child),
        }
    }

    pub open spec fn spec_action(self) -> Option<ChildAction> {
        match self {
            Termination::App(shutdown) => shutdown.spec_action(),
            Termination::Tui(stop) => stop.spec_action(),
            Termination::Refused(_) => None,
        }
    }

    /// The outcome of a settled stop.
    pub open spec fn spec_outcome(self) -> Option<Result<(), ProcessError>> {
        match self {
            Termination::App(shutdown) => match shutdown.phase {
                AppShutdownPhase::Done => Some(Ok(())),
                AppShutdownPhase::Failed(error) => Some(Err(error)),
                _ => None,
            },
            Termination::Tui(stop) => match stop.phase {
                TuiStopPhase::Done => Some(Ok(())),
                TuiStopPhase::Failed(error) => Some(Err(error)),
                _ => None,
            },
            Termination::Refused(error) => Some(Err(error)),
        }
    }

    /// The next system call; `None` once the stop is settled.
    pub fn action(&self) -> (action: Option<ChildAction>)
        ensures
            action == self.spec_action(),
    {
        match self {
            Termination::App(shutdown) => shutdown.action(),
            Termination::Tui(stop) => stop.action(),
            Termination::Refused(_) => None,
        }
    }

    /// The outcome; `None` while the stop is not settled.
    pub fn outcome(&self) -> (outcome: Option<Result<(), ProcessError>>)
        ensures
            outcome == self.spec_outcome(),
    {
        match self {
            Termination::App(shutdown) => match shutdown.phase {
                AppShutdownPhase::Done => Some(Ok(())),
                AppShutdownPhase::Failed(error) => Some(Err(error)),
                _ => None,
            },
            Termination::Tui(stop) => match stop.phase {
                TuiStopPhase::Done => Some(Ok(())),
                TuiStopPhase::Failed(error) => Some(Err(error)),
                _ => None,
            },
            Termination::Refused(error) => Some(Err(*error)),
        }
    }

    /// Takes in what came of the last system call.
    pub fn advance(&mut self, child: &mut ChildState, event: ChildEvent)
        ensures
            (*final(self), *final(child)) == old(self).after(*old(child), event),
    {
        match *self {
            Termination::App(shutdown) => {
                let mut shutdown = shutdown;
                begin_app_server_shutdown(&mut shutdown, child, event);
                *self = Termination::App(shutdown);
            },
            Termination::Tui(stop) => {
                let mut stop = stop;
                stop.advance(child, event);
                *self = Termination::Tui(stop);
            },
            Termination::Refused(_) => {},
        }
    }
}

/// Starts the ordinary stop of a child.
pub fn begin_termination(child: &mut ChildState, deadline: Moment) -> (termination: Termination)
    ensures
        (termination, *final(child)) == Termination::start(*old(child), deadline),
{
    if child.role == ChildRole::AppServer {
        return Termination::App(AppShutdown::begin(child, deadline));
    }
    Termination::Tui(TuiStop::begin(child, TuiStopForce::Term, deadline))
}

/// Starts the forced stop of a child.
pub fn sweep_with_kill(child: &mut ChildState, deadline: Moment) -> (termination: Termination)
    ensures
        (termination, *final(child)) == Termination::start_kill(*old(child), deadline),
{
    if child.role == ChildRole::AppServer {
        child.app_graceful_drain = AppGracefulDrainState::Invalid;
        return Termination::Refused(
            ProcessError::AppGracefulDrainUnconfirmed {
                role: child.role,
                stage: AppGracefulDrainFailureStage::KillForbidden,
            },
        );
    }
    Termination::Tui(TuiStop::begin(child, TuiStopForce::Kill, deadline))
}

// ---------------------------------------------------------------------------
// Laws.
// ---------------------------------------------------------------------------

proof fn lemma_tui_stop_keeps_drain(stop: TuiStop, child: ChildState, event: ChildEvent)
    ensures
        stop.after(child, event).1.app_graceful_drain == child.app_graceful_drain,
{
    match stop.phase {
        TuiStopPhase::Observe(observe) => {
            let (observed, after) = observe.after(child, event);
            assert(after.app_graceful_drain == child.app_graceful_drain);
            assert(stop.with_observation(after, observed).1.app_graceful_drain
                == after.app_graceful_drain);
        },
        TuiStopPhase::Signal { sent, observation } => {
            let (settled, after) = sent.after(child, event);
            assert(after.app_graceful_drain == child.app_graceful_drain);
            assert(stop.with_signal(after, settled, observation).1.app_graceful_drain
                == after.app_graceful_drain);
        },
        _ => {},
    }
}

proof fn lemma_app_shutdown_never_returns_to_awaiting(
    shutdown: AppShutdown,
    child: ChildState,
    event: ChildEvent,
)
    requires
        child.app_graceful_drain != AppGracefulDrainState::AwaitingInitialTerm,
    ensures
        shutdown.after(child, event).1.app_graceful_drain
            != AppGracefulDrainState::AwaitingInitialTerm,
{
}

/// The permission to signal the App Server, once used, never comes back: no
/// stop of a child, forced or not, and no reap leads it back to awaiting its
/// initial TERM.
pub proof fn law_initial_term_permission_never_returns(
    child: ChildState,
    termination: Termination,
    event: ChildEvent,
    outcome: ReapOutcome,
    deadline: Moment,
)
    requires
        child.app_graceful_drain != AppGracefulDrainState::AwaitingInitialTerm,
    ensures
        termination.after(child, event).1.app_graceful_drain
            != AppGracefulDrainState::AwaitingInitialTerm,
        Termination::start(child, deadline).1.app_graceful_drain
            != AppGracefulDrainState::AwaitingInitialTerm,
        Termination::start_kill(child, deadline).1.app_graceful_drain
            != AppGracefulDrainState::AwaitingInitialTerm,
        reap_app_server(child, outcome).0.app_graceful_drain
            != AppGracefulDrainState::AwaitingInitialTerm,
{
    match termination {
        Termination::App(shutdown) => {
            lemma_app_shutdown_never_returns_to_awaiting(shutdown, child, event);
        },
        Termination::Tui(stop) => {
            lemma_tui_stop_keeps_drain(stop, child, event);
        },
        Termination::Refused(_) => {},
    }
    lemma_tui_stop_start_keeps_drain(child, TuiStopForce::Term, deadline);
    lemma_tui_stop_start_keeps_drain(child, TuiStopForce::Kill, deadline);
}

proof fn lemma_tui_stop_start_keeps_drain(
    child: ChildState,
    force: TuiStopForce,
    deadline: Moment,
)
    ensures
        TuiStop::start(child, force, deadline).1.app_graceful_drain == child.app_graceful_drain,
{
}

/// A stop of an App Server that is not awaiting its initial TERM sends nothing:
/// it is settled at once.
pub proof fn law_used_app_shutdown_sends_nothing(child: ChildState, deadline: Moment)
    requires
        child.role == ChildRole::AppServer,
        child.app_graceful_drain != AppGracefulDrainState::AwaitingInitialTerm,
    ensures
        Termination::start(child, deadline).0.spec_action() is None,
        Termination::start(child, deadline).1 == child,
{
}

/// The App Server never gets KILL, and never a signal to its whole group: every
/// signal of its shutdown goes to the exact leader and is STOP, TERM or CONT.
pub proof fn law_app_server_signals(shutdown: AppShutdown)
    ensures
        match shutdown.spec_action() {
            Some(ChildAction::SignalGroup(_)) => false,
            Some(ChildAction::KillLeader) => false,
            Some(ChildAction::SignalLeader(signal)) => signal == Signal::Stop || signal
                == Signal::Term || signal == Signal::Cont,
            _ => true,
        },
{
}

/// The App Server's shutdown after a whole series of events.
pub open spec fn app_shutdown_all(child: ChildState, deadline: Moment, events: Seq<ChildEvent>) -> (
    AppShutdown,
    ChildState,
)
    decreases events.len(),
{
    if events.len() == 0 {
        AppShutdown::start(child, deadline)
    } else {
        let (shutdown, child) = app_shutdown_all(child, deadline, events.drop_last());
        shutdown.after(child, events.last())
    }
}

/// How many TERM signals were asked for, and answered, over a series of events.
pub open spec fn terms_sent(child: ChildState, deadline: Moment, events: Seq<ChildEvent>) -> int
    decreases events.len(),
{
    if events.len() == 0 {
        0
    } else {
        let (shutdown, _) = app_shutdown_all(child, deadline, events.drop_last());
        terms_sent(child, deadline, events.drop_last()) + if shutdown.phase
            == AppShutdownPhase::SendTerm && events.last() is Signaled {
            1int
        } else {
            0int
        }
    }
}

spec fn term_progress(shutdown: AppShutdown, child: ChildState, sent: int) -> bool {
    match shutdown.phase {
        AppShutdownPhase::Observe(_) => sent == 0 && child.app_graceful_drain
            == AppGracefulDrainState::Invalid,
        AppShutdownPhase::Reap(_) => sent == 0 && child.app_graceful_drain
            == AppGracefulDrainState::Invalid,
        AppShutdownPhase::SendStop => sent == 0 && child.app_graceful_drain
            == AppGracefulDrainState::Invalid,
        AppShutdownPhase::AwaitStop(_) => sent == 0 && child.app_graceful_drain
            == AppGracefulDrainState::Invalid,
        AppShutdownPhase::SendTerm => sent == 0 && child.app_graceful_drain
            == AppGracefulDrainState::Invalid,
        AppShutdownPhase::SendCont => sent == 1 && child.app_graceful_drain
            == AppGracefulDrainState::Invalid,
        AppShutdownPhase::Done => sent == 1 && child.app_graceful_drain
            == AppGracefulDrainState::InitialTermSent,
        AppShutdownPhase::Failed(_) => 0 <= sent <= 1 && child.app_graceful_drain
            == AppGracefulDrainState::Invalid,
    }
}

/// A shutdown of an App Server that awaits its initial TERM sends TERM at most
/// once, and succeeds only after exactly one. Until it succeeds the drain is
/// marked invalid, so no later attempt can send another.
pub proof fn law_app_shutdown_sends_at_most_one_term(
    child: ChildState,
    deadline: Moment,
    events: Seq<ChildEvent>,
)
    requires
        child.role == ChildRole::AppServer,
        child.app_graceful_drain == AppGracefulDrainState::AwaitingInitialTerm,
    ensures
        ({
            let (shutdown, after) = app_shutdown_all(child, deadline, events);
            let sent = terms_sent(child, deadline, events);
            &&& 0 <= sent <= 1
            &&& shutdown.phase == AppShutdownPhase::Done ==> sent == 1 && after.app_graceful_drain
                == AppGracefulDrainState::InitialTermSent
            &&& shutdown.phase != AppShutdownPhase::Done ==> after.app_graceful_drain
                == AppGracefulDrainState::Invalid
        }),
{
    lemma_term_progress(child, deadline, events);
}

proof fn lemma_term_progress(child: ChildState, deadline: Moment, events: Seq<ChildEvent>)
    requires
        child.role == ChildRole::AppServer,
        child.app_graceful_drain == AppGracefulDrainState::AwaitingInitialTerm,
    ensures
        ({
            let (shutdown, after) = app_shutdown_all(child, deadline, events);
            term_progress(shutdown, after, terms_sent(child, deadline, events))
        }),
    decreases events.len(),
{
    if events.len() != 0 {
        lemma_term_progress(child, deadline, events.drop_last());
    }
}

/// A drain is confirmed only by the exit of the App Server with status zero
/// after its one TERM was sent; every other reaped exit loses it for good.
pub proof fn law_drain_needs_a_clean_exit_after_term(child: ChildState, outcome: ReapOutcome)
    requires
        child.role == ChildRole::AppServer,
        child.disposition is None,
    ensures
        ({
            let (after, reaped) = reap_app_server(child, outcome);
            &&& reaped == Ok::<bool, ProcessError>(true) <==> after.app_graceful_drain
                == AppGracefulDrainState::Drained && after.disposition is Some
            &&& reaped == Ok::<bool, ProcessError>(true) ==> child.app_graceful_drain
                == AppGracefulDrainState::InitialTermSent && after.disposition == Some(
                drained_exit(),
            )
            &&& after.disposition is Some && after.disposition != Some(drained_exit())
                ==> after.app_graceful_drain == AppGracefulDrainState::Invalid && reaped is Err
        }),
{
}

/// A TUI that has already ended keeps its own stop action whatever stop is then
/// begun, and a stop marks only a TUI that was not seen to end.
pub proof fn law_natural_exit_keeps_its_disposition(
    stop: TuiStop,
    child: ChildState,
    event: ChildEvent,
    force: TuiStopForce,
    deadline: Moment,
)
    requires
        stop.phase is Observe ==> !child.ended(),
    ensures
        child.ended() ==> TuiStop::start(child, force, deadline).1.stop_action
            == child.stop_action,
        stop.after(child, event).1.stop_action != child.stop_action ==> !stop.after(
            child,
            event,
        ).1.ended(),
{
    match stop.phase {
        TuiStopPhase::Observe(observe) => {
            let (observed, after) = observe.after(child, event);
            assert(after.stop_action == child.stop_action);
            assert(stop.with_observation(after, observed).1.ended() == after.ended());
        },
        TuiStopPhase::Signal { sent, observation } => {
            let (settled, after) = sent.after(child, event);
            assert(after.stop_action == child.stop_action);
        },
        _ => {},
    }
}

} // verus!
