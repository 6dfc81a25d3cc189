//! Giving up a child without a structured shutdown.
//!
//! A release cannot return an unreaped child to anyone. At its end the child is
//! gone and contained, or the guardian itself must abort rather than detach the
//! only wait authority.
use vstd::prelude::*;

use crate::clock::Moment;
use crate::process::child::{AppGracefulDrainState, ChildState};
use crate::process::observe::{
    observe_exit_without_reaping, signal_group, ChildAction, ChildEvent, GroupSignal, ObserveExit,
    ObservePhase, SignalPhase,
};
use crate::process::spawn::{
    sweep_failed_spawn_group, FailedSweep, SpawnFailure, UnannouncedExit,
    DROP_CLEANUP_TIMEOUT_NANOS,
};
use crate::process::status::{
    disposition_of, project_disposition, ReapOutcome, Signal,
};
use crate::protocol::message::{ChildRole, StopAction};

verus! {

/// How a release ends.
#[derive(Clone, Copy, Debug, PartialEq, Eq, Structural)]
pub enum ReleaseVerdict {
    /// Nothing is left to own.
    Released,
    /// The guardian must abort.
    Fatal,
}

#[derive(Clone, Copy, Debug, PartialEq, Eq, Structural)]
pub enum ReleasePhase {
    /// The child has no deadline of its own yet.
    StartClock,
    Observe { deadline: Moment, observe: ObserveExit },
    Signal { deadline: Moment, sent: GroupSignal },
    Kill { deadline: Moment },
    Wait { deadline: Moment },
    Clock { deadline: Moment },
    Sleep { deadline: Moment },
    Over(ReleaseVerdict),
}

/// The release of a published child.
#[derive(Clone, Copy, Debug, PartialEq, Eq, Structural)]
pub struct ChildRelease {
    pub phase: ReleasePhase,
}

pub open spec fn over(verdict: ReleaseVerdict) -> ChildRelease {
    ChildRelease { phase: ReleasePhase::Over(verdict) }
}

impl ChildRelease {
    pub open spec fn at(phase: ReleasePhase) -> Self {
        ChildRelease { phase }
    }

    /// An App Server that is not both drained and reaped may still hold tools
    /// of its own, and a release has no authority to signal it: it is fatal
    /// without any signal. A reaped TUI needs nothing.
    pub open spec fn start(child: ChildState) -> (Self, ChildState) {
        if child.role == ChildRole::AppServer {
            if child.app_graceful_drain == AppGracefulDrainState::Drained
                && child.disposition is Some {
                (over(ReleaseVerdict::Released), child)
            } else {
                (over(ReleaseVerdict::Fatal), child)
            }
        } else if child.disposition is Some {
            (over(ReleaseVerdict::Released), child)
        } else {
            match child.drop_deadline {
                Some(deadline) => Self::observing(
                    child,
                    deadline,
                    ObserveExit::start(child, deadline),
                ),
                None => (Self::at(ReleasePhase::StartClock), child),
            }
        }
    }

    /// Unless the exit was seen, the release is what stops the child.
    pub open spec fn observing(child: ChildState, deadline: Moment, observe: ObserveExit) -> (
        Self,
        ChildState,
    ) {
        match observe.phase {
            ObservePhase::Done(observed) => Self::sweeping(
                if observed {
                    child
                } else {
                    ChildState { stop_action: StopAction::Kill, ..child }
                },
                deadline,
            ),
            ObservePhase::Failed(_) => Self::sweeping(
                ChildState { stop_action: StopAction::Kill, ..child },
                deadline,
            ),
            _ => (Self::at(ReleasePhase::Observe { deadline, observe }), child),
        }
    }

    pub open spec fn sweeping(child: ChildState, deadline: Moment) -> (Self, ChildState) {
        if child.containment_swept {
            (Self::at(ReleasePhase::Kill { deadline }), child)
        } else {
            Self::signalling(
                child,
                deadline,
                GroupSignal::start(child, Signal::Kill, StopAction::Kill, deadline),
            )
        }
    }

    /// Even after a failed sweep the leader is killed and reaped, to leak as
    /// little as possible; that alone proves no containment.
    pub open spec fn signalling(child: ChildState, deadline: Moment, sent: GroupSignal) -> (
        Self,
        ChildState,
    ) {
        match sent.phase {
            SignalPhase::Done => (
                Self::at(ReleasePhase::Kill { deadline }),
                ChildState { containment_swept: true, ..child },
            ),
            SignalPhase::Failed(_) => (Self::at(ReleasePhase::Kill { deadline }), child),
            _ => (Self::at(ReleasePhase::Signal { deadline, sent }), child),
        }
    }

    pub open spec fn after(self, child: ChildState, event: ChildEvent) -> (Self, ChildState) {
        match (self.phase, event) {
            (ReleasePhase::StartClock, ChildEvent::Clock(now)) => match now.later(
                DROP_CLEANUP_TIMEOUT_NANOS,
            ) {
                Some(deadline) => Self::observing(
                    child,
                    deadline,
                    ObserveExit::start(child, deadline),
                ),
                None => (over(ReleaseVerdict::Fatal), child),
            },
            (ReleasePhase::Observe { deadline, observe }, _) => {
                let (observe, child) = observe.after(child, event);
                Self::observing(child, deadline, observe)
            },
            (ReleasePhase::Signal { deadline, sent }, _) => {
                let (sent, child) = sent.after(child, event);
                Self::signalling(child, deadline, sent)
            },
            (ReleasePhase::Kill { deadline }, ChildEvent::LeaderKilled) => (
                Self::at(ReleasePhase::Wait { deadline }),
                child,
            ),
            (ReleasePhase::Wait { deadline }, ChildEvent::Reaped(outcome)) => match outcome {
                ReapOutcome::Reaped(status) => (
                    over(
                        if child.containment_swept {
                            ReleaseVerdict::Released
                        } else {
                            ReleaseVerdict::Fatal
                        },
                    ),
                    ChildState {
                        disposition: Some(disposition_of(status, child.stop_action)),
                        observed_exit: true,
                        ..child
                    },
                ),
                ReapOutcome::Running => (Self::at(ReleasePhase::Clock { deadline }), child),
                ReapOutcome::Failed => (over(ReleaseVerdict::Fatal), child),
            },
            (ReleasePhase::Clock { deadline }, ChildEvent::Clock(now)) => (
                if now.reached(deadline) {
                    over(ReleaseVerdict::Fatal)
                } else {
                    Self::at(ReleasePhase::Sleep { deadline })
                },
                child,
            ),
            (ReleasePhase::Sleep { deadline }, ChildEvent::Slept) => (
                Self::at(ReleasePhase::Wait { deadline }),
                child,
            ),
            _ => (self, child),
        }
    }

    pub open spec fn spec_action(self) -> Option<ChildAction> {
        match self.phase {
            ReleasePhase::StartClock => Some(ChildAction::ReadClock),
            ReleasePhase::Observe { observe, .. } => observe.spec_action(),
            ReleasePhase::Signal { sent, .. } => sent.spec_action(),
            ReleasePhase::Kill { .. } => Some(ChildAction::KillLeader),
            ReleasePhase::Wait { .. } => Some(ChildAction::TryWait),
            ReleasePhase::Clock { .. } => Some(ChildAction::ReadClock),
            ReleasePhase::Sleep { deadline } => Some(ChildAction::Sleep { deadline }),
            ReleasePhase::Over(_) => None,
        }
    }

    pub open spec fn spec_verdict(self) -> Option<ReleaseVerdict> {
        match self.phase {
            ReleasePhase::Over(verdict) => Some(verdict),
            _ => None,
        }
    }

    fn signal_step(child: &mut ChildState, deadline: Moment, sent: GroupSignal) -> (release: Self)
        ensures
            (release, *final(child)) == Self::signalling(*old(child), deadline, sent),
    {
        ChildRelease {
            phase: match sent.phase {
                SignalPhase::Done => {
                    child.containment_swept = true;
                    ReleasePhase::Kill { deadline }
                },
                SignalPhase::Failed(_) => ReleasePhase::Kill { deadline },
                _ => ReleasePhase::Signal { deadline, sent },
            },
        }
    }

    fn observe_step(child: &mut ChildState, deadline: Moment, observe: ObserveExit) -> (release:
        Self)
        ensures
            (release, *final(child)) == Self::observing(*old(child), deadline, observe),
    {
        match observe.phase {
            ObservePhase::Done(true) => {},
            ObservePhase::Done(false) | ObservePhase::Failed(_) => {
                child.stop_action = StopAction::Kill;
            },
            _ => {
                return ChildRelease { phase: ReleasePhase::Observe { deadline, observe } };
            },
        }
        if child.containment_swept {
            ChildRelease { phase: ReleasePhase::Kill { deadline } }
        } else {
            let sent = GroupSignal::begin(child, Signal::Kill, StopAction::Kill, deadline);
            Self::signal_step(child, deadline, sent)
        }
    }

    /// Begins the release of a child.
    pub fn begin(child: &mut ChildState) -> (release: Self)
        ensures
            (release, *final(child)) == Self::start(*old(child)),
    {
        if child.role == ChildRole::AppServer {
            let verdict = if child.app_graceful_drain == AppGracefulDrainState::Drained
                && child.disposition.is_some() {
                ReleaseVerdict::Released
            } else {
                ReleaseVerdict::Fatal
            };
            return ChildRelease { phase: ReleasePhase::Over(verdict) };
        }
        if child.disposition.is_some() {
            return ChildRelease { phase: ReleasePhase::Over(ReleaseVerdict::Released) };
        }
        match child.drop_deadline {
            Some(deadline) => {
                let observe = ObserveExit::begin(child, deadline);
                Self::observe_step(child, deadline, observe)
            },
            None => ChildRelease { phase: ReleasePhase::StartClock },
        }
    }

    /// The next system call; `None` once there is a verdict.
    pub fn action(&self) -> (action: Option<ChildAction>)
        ensures
            action == self.spec_action(),
    {
        match self.phase {
            ReleasePhase::StartClock => Some(ChildAction::ReadClock),
            ReleasePhase::Observe { observe, .. } => observe.action(),
            ReleasePhase::Signal { sent, .. } => sent.action(),
            ReleasePhase::Kill { .. } => Some(ChildAction::KillLeader),
            ReleasePhase::Wait { .. } => Some(ChildAction::TryWait),
            ReleasePhase::Clock { .. } => Some(ChildAction::ReadClock),
            ReleasePhase::Sleep { deadline } => Some(ChildAction::Sleep { deadline }),
            ReleasePhase::Over(_) => None,
        }
    }

    pub fn verdict(&self) -> (verdict: Option<ReleaseVerdict>)
        ensures
            verdict == self.spec_verdict(),
    {
        match self.phase {
            ReleasePhase::Over(verdict) => Some(verdict),
            _ => None,
        }
    }

    /// Takes in what came of the last call.
    pub fn advance(&mut self, child: &mut ChildState, event: ChildEvent)
        ensures
            (*final(self), *final(child)) == old(self).after(*old(child), event),
    {
        match (self.phase, event) {
            (ReleasePhase::StartClock, ChildEvent::Clock(now)) => match now.checked_add(
                DROP_CLEANUP_TIMEOUT_NANOS,
            ) {
                Some(deadline) => {
                    let observe = ObserveExit::begin(child, deadline);
                    *self = Self::observe_step(child, deadline, observe);
                },
                None => {
                    self.phase = ReleasePhase::Over(ReleaseVerdict::Fatal);
                },
            },
            (ReleasePhase::Observe { deadline, observe }, _) => {
                let mut observe = observe;
                observe_exit_without_reaping(&mut observe, child, event);
                *self = Self::observe_step(child, deadline, observe);
            },
            (ReleasePhase::Signal { deadline, sent }, _) => {
                let mut sent = sent;
                signal_group(&mut sent, child, event);
                *self = Self::signal_step(child, deadline, sent);
            },
            (ReleasePhase::Kill { deadline }, ChildEvent::LeaderKilled) => {
                self.phase = ReleasePhase::Wait { deadline };
            },
            (ReleasePhase::Wait { deadline }, ChildEvent::Reaped(outcome)) => {
                self.phase = match outcome {
                    ReapOutcome::Reaped(status) => {
                        child.disposition = Some(project_disposition(status, child.stop_action));
                        child.observed_exit = true;
                        ReleasePhase::Over(
                            if child.containment_swept {
                                ReleaseVerdict::Released
                            } else {
                                ReleaseVerdict::Fatal
                            },
                        )
                    },
                    ReapOutcome::Running => ReleasePhase::Clock { deadline },
                    ReapOutcome::Failed => ReleasePhase::Over(ReleaseVerdict::Fatal),
                };
            },
            (ReleasePhase::Clock { deadline }, ChildEvent::Clock(now)) => {
                self.phase = if now.has_reached(deadline) {
                    ReleasePhase::Over(ReleaseVerdict::Fatal)
                } else {
                    ReleasePhase::Sleep { deadline }
                };
            },
            (ReleasePhase::Sleep { deadline }, ChildEvent::Slept) => {
                self.phase = ReleasePhase::Wait { deadline };
            },
            _ => {},
        }
    }
}

// ---------------------------------------------------------------------------
// Releasing a failed spawn.
// ---------------------------------------------------------------------------

#[derive(Clone, Copy, Debug, PartialEq, Eq, Structural)]
pub enum SpawnReleasePhase {
    Sweep(FailedSweep),
    StartClock,
    Kill { deadline: Moment },
    Wait { deadline: Moment },
    Clock { deadline: Moment },
    Sleep { deadline: Moment },
    Over(ReleaseVerdict),
}

/// The release of a failed spawn.
pub struct SpawnRelease<H> {
    pub failure: SpawnFailure<H>,
    pub phase: SpawnReleasePhase,
}

impl<H> SpawnRelease<H> {
    pub open spec fn at(self, phase: SpawnReleasePhase) -> Self {
        SpawnRelease { phase, ..self }
    }

    /// The sweep is behind; its outcome decides only at the end.
    pub open spec fn dated(self) -> Self {
        match self.failure.child {
            Some(child) => match child.drop_deadline {
                Some(deadline) => self.at(SpawnReleasePhase::Kill { deadline }),
                None => self.at(SpawnReleasePhase::StartClock),
            },
            None => self.at(SpawnReleasePhase::Over(ReleaseVerdict::Released)),
        }
    }

    pub open spec fn with_sweep(self, sweep: FailedSweep) -> Self {
        match sweep {
            FailedSweep::Done(true) => SpawnRelease {
                failure: self.failure.with_sweep_proven(),
                ..self
            }.dated(),
            FailedSweep::Done(false) => self.dated(),
            _ => self.at(SpawnReleasePhase::Sweep(sweep)),
        }
    }

    pub open spec fn start(failure: SpawnFailure<H>) -> Self {
        let whole = SpawnRelease {
            failure,
            phase: SpawnReleasePhase::Over(ReleaseVerdict::Released),
        };
        match failure.child {
            None => whole,
            Some(child) => if failure.disposition is Some {
                whole.at(SpawnReleasePhase::Over(ReleaseVerdict::Fatal))
            } else if child.containment_swept {
                whole.dated()
            } else {
                whole.with_sweep(FailedSweep::start(child))
            },
        }
    }

    pub open spec fn after(self, event: ChildEvent) -> Self {
        match (self.phase, event) {
            (SpawnReleasePhase::Sweep(sweep), _) => match self.failure.child {
                Some(child) => self.with_sweep(sweep.after(child, event)),
                None => self,
            },
            (SpawnReleasePhase::StartClock, ChildEvent::Clock(now)) => match now.later(
                DROP_CLEANUP_TIMEOUT_NANOS,
            ) {
                Some(deadline) => self.at(SpawnReleasePhase::Kill { deadline }),
                None => self.at(SpawnReleasePhase::Over(ReleaseVerdict::Fatal)),
            },
            (SpawnReleasePhase::Kill { deadline }, ChildEvent::LeaderKilled) => self.at(
                SpawnReleasePhase::Wait { deadline },
            ),
            (SpawnReleasePhase::Wait { deadline }, ChildEvent::Reaped(outcome)) => match outcome {
                ReapOutcome::Reaped(status) => SpawnRelease {
                    failure: SpawnFailure {
                        disposition: Some(
                            UnannouncedExit::of(disposition_of(status, StopAction::Kill)),
                        ),
                        ..self.failure
                    },
                    phase: SpawnReleasePhase::Over(
                        if self.failure.swept() {
                            ReleaseVerdict::Released
                        } else {
                            ReleaseVerdict::Fatal
                        },
                    ),
                },
                ReapOutcome::Running => self.at(SpawnReleasePhase::Clock { deadline }),
                ReapOutcome::Failed => self.at(SpawnReleasePhase::Over(ReleaseVerdict::Fatal)),
            },
            (SpawnReleasePhase::Clock { deadline }, ChildEvent::Clock(now)) => if now.reached(
                deadline,
            ) {
                self.at(SpawnReleasePhase::Over(ReleaseVerdict::Fatal))
            } else {
                self.at(SpawnReleasePhase::Sleep { deadline })
            },
            (SpawnReleasePhase::Sleep { deadline }, ChildEvent::Slept) => self.at(
                SpawnReleasePhase::Wait { deadline },
            ),
            _ => self,
        }
    }

    pub open spec fn spec_action(self) -> Option<ChildAction> {
        match self.phase {
            SpawnReleasePhase::Sweep(sweep) => sweep.spec_action(),
            SpawnReleasePhase::StartClock => Some(ChildAction::ReadClock),
            SpawnReleasePhase::Kill { .. } => Some(ChildAction::KillLeader),
            SpawnReleasePhase::Wait { .. } => Some(ChildAction::TryWait),
            SpawnReleasePhase::Clock { .. } => Some(ChildAction::ReadClock),
            SpawnReleasePhase::Sleep { deadline } => Some(ChildAction::Sleep { deadline }),
            SpawnReleasePhase::Over(_) => None,
        }
    }

    pub open spec fn spec_verdict(self) -> Option<ReleaseVerdict> {
        match self.phase {
            SpawnReleasePhase::Over(verdict) => Some(verdict),
            _ => None,
        }
    }

    fn go_dated(&mut self)
        ensures
            *final(self) == old(self).dated(),
    {
        self.phase = match &self.failure.child {
            Some(child) => match child.drop_deadline {
                Some(deadline) => SpawnReleasePhase::Kill { deadline },
                None => SpawnReleasePhase::StartClock,
            },
            None => SpawnReleasePhase::Over(ReleaseVerdict::Released),
        };
    }

    fn take_sweep(&mut self, sweep: FailedSweep)
        ensures
            *final(self) == old(self).with_sweep(sweep),
    {
        match sweep {
            FailedSweep::Done(swept) => {
                if swept {
                    if let Some(child) = &mut self.failure.child {
                        child.containment_swept = true;
                    }
                }
                self.go_dated();
            },
            _ => {
                self.phase = SpawnReleasePhase::Sweep(sweep);
            },
        }
    }

    /// Begins the release of a failed spawn.
    pub fn begin(failure: SpawnFailure<H>) -> (release: Self)
        ensures
            release == Self::start(failure),
    {
        let mut whole = SpawnRelease {
            failure,
            phase: SpawnReleasePhase::Over(ReleaseVerdict::Released),
        };
        let (swept, sweep) = match &whole.failure.child {
            None => {
                return whole;
            },
            Some(child) => (child.containment_swept, FailedSweep::begin(child)),
        };
        if whole.failure.disposition.is_some() {
            whole.phase = SpawnReleasePhase::Over(ReleaseVerdict::Fatal);
        } else if swept {
            whole.go_dated();
        } else {
            whole.take_sweep(sweep);
        }
        whole
    }

    /// The next system call; `None` once there is a verdict.
    pub fn action(&self) -> (action: Option<ChildAction>)
        ensures
            action == self.spec_action(),
    {
        match self.phase {
            SpawnReleasePhase::Sweep(sweep) => sweep.action(),
            SpawnReleasePhase::StartClock => Some(ChildAction::ReadClock),
            SpawnReleasePhase::Kill { .. } => Some(ChildAction::KillLeader),
            SpawnReleasePhase::Wait { .. } => Some(ChildAction::TryWait),
            SpawnReleasePhase::Clock { .. } => Some(ChildAction::ReadClock),
            SpawnReleasePhase::Sleep { deadline } => Some(ChildAction::Sleep { deadline }),
            SpawnReleasePhase::Over(_) => None,
        }
    }

    pub fn verdict(&self) -> (verdict: Option<ReleaseVerdict>)
        ensures
            verdict == self.spec_verdict(),
    {
        match self.phase {
            SpawnReleasePhase::Over(verdict) => Some(verdict),
            _ => None,
        }
    }

    /// Takes in what came of the last call.
    pub fn advance(&mut self, event: ChildEvent)
        ensures
            *final(self) == old(self).after(event),
    {
        match (self.phase, event) {
            (SpawnReleasePhase::Sweep(sweep), _) => {
                let mut sweep = sweep;
                let mut swept = false;
                if let Some(child) = &self.failure.child {
                    sweep_failed_spawn_group(&mut sweep, child, event);
                    swept = true;
                }
                if swept {
                    self.take_sweep(sweep);
                }
            },
            (SpawnReleasePhase::StartClock, ChildEvent::Clock(now)) => {
                self.phase = match now.checked_add(DROP_CLEANUP_TIMEOUT_NANOS) {
                    Some(deadline) => SpawnReleasePhase::Kill { deadline },
                    None => SpawnReleasePhase::Over(ReleaseVerdict::Fatal),
                };
            },
            (SpawnReleasePhase::Kill { deadline }, ChildEvent::LeaderKilled) => {
                self.phase = SpawnReleasePhase::Wait { deadline };
            },
            (SpawnReleasePhase::Wait { deadline }, ChildEvent::Reaped(outcome)) => {
                self.phase = match outcome {
                    ReapOutcome::Reaped(status) => {
                        self.failure.disposition = Some(
                            UnannouncedExit::keep(project_disposition(status, StopAction::Kill)),
                        );
                        let swept = match &self.failure.child {
                            Some(child) => child.containment_swept,
                            None => false,
                        };
                        SpawnReleasePhase::Over(
                            if swept {
                                ReleaseVerdict::Released
                            } else {
                                ReleaseVerdict::Fatal
                            },
                        )
                    },
                    ReapOutcome::Running => SpawnReleasePhase::Clock { deadline },
                    ReapOutcome::Failed => SpawnReleasePhase::Over(ReleaseVerdict::Fatal),
                };
            },
            (SpawnReleasePhase::Clock { deadline }, ChildEvent::Clock(now)) => {
                self.phase = if now.has_reached(deadline) {
                    SpawnReleasePhase::Over(ReleaseVerdict::Fatal)
                } else {
                    SpawnReleasePhase::Sleep { deadline }
                };
            },
            (SpawnReleasePhase::Sleep { deadline }, ChildEvent::Slept) => {
                self.phase = SpawnReleasePhase::Wait { deadline };
            },
            _ => {},
        }
    }
}

// ---------------------------------------------------------------------------
// Laws.
// ---------------------------------------------------------------------------

/// What a release keeps: it is about a TUI that is not reaped, or it is over;
/// and it ends well only once the child is reaped, and contained where the
/// release itself reaped it.
pub open spec fn release_sound(release: ChildRelease, child: ChildState) -> bool {
    match release.phase {
        ReleasePhase::Over(ReleaseVerdict::Released) => child.disposition is Some && (child.role
            == ChildRole::AppServer ==> child.app_graceful_drain
            == AppGracefulDrainState::Drained),
        ReleasePhase::Over(ReleaseVerdict::Fatal) => true,
        _ => child.role == ChildRole::Tui && child.disposition is None,
    }
}

/// A release is sound from its start on, and an App Server is never signalled,
/// killed or waited for by it: its release is over at once.
pub proof fn law_release_begins_soundly(child: ChildState)
    ensures
        release_sound(ChildRelease::start(child).0, ChildRelease::start(child).1),
        child.role == ChildRole::AppServer ==> ChildRelease::start(child).0.spec_action() is None
            && ChildRelease::start(child).1 == child,
        child.role == ChildRole::AppServer ==> (ChildRelease::start(child).0.spec_verdict() == Some(
            ReleaseVerdict::Released,
        ) <==> child.app_graceful_drain == AppGracefulDrainState::Drained
            && child.disposition is Some),
{
}

/// Every step keeps a release sound.
pub proof fn law_release_stays_sound(release: ChildRelease, child: ChildState, event: ChildEvent)
    requires
        release_sound(release, child),
    ensures
        release_sound(release.after(child, event).0, release.after(child, event).1),
{
}

/// The release of a child ends well in the step that reaps it exactly if the
/// group was swept: a reaped leader alone is no containment.
pub proof fn law_reaped_leader_alone_is_no_containment(
    release: ChildRelease,
    child: ChildState,
    event: ChildEvent,
)
    requires
        release.spec_verdict() is None,
        release_sound(release, child),
        release.after(child, event).0.spec_verdict() == Some(ReleaseVerdict::Released),
    ensures
        release.after(child, event).1.disposition is Some,
        release.after(child, event).1.containment_swept,
{
}

/// A failed spawn is released only with nothing left to own, or with its child
/// both swept and reaped.
pub open spec fn spawn_release_sound<H>(release: SpawnRelease<H>) -> bool {
    match release.phase {
        SpawnReleasePhase::Over(ReleaseVerdict::Released) => release.failure.child is Some
            ==> release.failure.swept() && release.failure.disposition is Some,
        SpawnReleasePhase::Over(ReleaseVerdict::Fatal) => true,
        _ => release.failure.child is Some && release.failure.disposition is None,
    }
}

pub proof fn law_spawn_release_begins_soundly<H>(failure: SpawnFailure<H>)
    ensures
        spawn_release_sound(SpawnRelease::start(failure)),
{
}

pub proof fn law_spawn_release_stays_sound<H>(release: SpawnRelease<H>, event: ChildEvent)
    requires
        spawn_release_sound(release),
    ensures
        spawn_release_sound(release.after(event)),
{
}

} // verus!
