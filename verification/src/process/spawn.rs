//! Spawns that failed after the child had started.
//!
//! The direct handle of such a child stays with the failure until its group was
//! swept and the child was exactly reaped. A child whose group may still hold
//! live members is never waited for: unreaped, it pins its numbers, so that a
//! later attempt can still signal the right group.
use vstd::prelude::*;

use crate::clock::Moment;
use crate::process::child::{absence_proven, group_absence_proven, GroupContainmentPolicy};
use crate::process::error::{process_error_role, role_of_error, ProcessError};
use crate::process::observe::{ChildAction, ChildEvent};
use crate::process::status::{disposition_of, project_disposition, ReapOutcome, Signal, SystemError};
use crate::protocol::message::{ChildDisposition, StopAction};

verus! {

/// How long the cleanup of a failed spawn may take, in nanoseconds.
pub const SPAWN_CLEANUP_TIMEOUT_NANOS: u64 = 2_000_000_000;

/// How long the release of an abandoned child may take, in nanoseconds.
pub const DROP_CLEANUP_TIMEOUT_NANOS: u64 = 2_000_000_000;

/// Redacted state of a failed spawn attempt.
#[derive(Clone, Copy, Debug, PartialEq, Eq, Structural)]
pub enum SpawnFailureState {
    NotStarted,
    ReapedUnannounced,
    LiveUnannouncedChild,
}

#[derive(Clone, Copy, Debug, PartialEq, Eq, Structural)]
enum SpawnCleanupKind {
    NotStarted,
    ReapedUnannounced(ChildDisposition),
}

/// Local cleanup proof for a child whose spawn contract failed.
///
/// The coordinator never heard of such a child, so its disposition stays private
/// and the proof cannot be turned into a report of reaped children.
#[must_use]
#[derive(Clone, Copy, Debug, PartialEq, Eq, Structural)]
pub struct SpawnCleanupProof {
    kind: SpawnCleanupKind,
}

impl SpawnCleanupProof {
    pub closed spec fn not_started() -> Self {
        SpawnCleanupProof { kind: SpawnCleanupKind::NotStarted }
    }

    pub closed spec fn reaped(disposition: ChildDisposition) -> Self {
        SpawnCleanupProof { kind: SpawnCleanupKind::ReapedUnannounced(disposition) }
    }

    /// How the unannounced child ended, if there was one.
    pub closed spec fn unannounced(self) -> Option<ChildDisposition> {
        match self.kind {
            SpawnCleanupKind::NotStarted => None,
            SpawnCleanupKind::ReapedUnannounced(disposition) => Some(disposition),
        }
    }

    pub fn started_unannounced(self) -> (started: bool)
        ensures
            started == (self.unannounced() is Some),
    {
        matches!(self.kind, SpawnCleanupKind::ReapedUnannounced(_))
    }

    fn for_unstarted() -> (cleaned: Self)
        ensures
            cleaned == Self::not_started(),
            cleaned.unannounced() is None,
    {
        SpawnCleanupProof { kind: SpawnCleanupKind::NotStarted }
    }

    fn for_reaped(disposition: ChildDisposition) -> (cleaned: Self)
        ensures
            cleaned == Self::reaped(disposition),
            cleaned.unannounced() == Some(disposition),
    {
        SpawnCleanupProof { kind: SpawnCleanupKind::ReapedUnannounced(disposition) }
    }

    fn disposition(self) -> (disposition: ChildDisposition)
        ensures
            disposition == (match self.unannounced() {
                Some(disposition) => disposition,
                None => ChildDisposition::NotStarted,
            }),
    {
        match self.kind {
            SpawnCleanupKind::NotStarted => ChildDisposition::NotStarted,
            SpawnCleanupKind::ReapedUnannounced(disposition) => disposition,
        }
    }
}

/// The two proofs stand for different facts, and a proof tells how the child
/// that it is about ended.
pub proof fn law_cleanup_proof_tells_the_disposition(disposition: ChildDisposition)
    ensures
        SpawnCleanupProof::not_started().unannounced() is None,
        SpawnCleanupProof::reaped(disposition).unannounced() == Some(disposition),
{
}

/// A child that started although its spawn failed.
pub struct FailedSpawnChild<H> {
    pub handle: H,
    pub pid: i32,
    /// The group that the child was to lead, where that is certain enough to
    /// signal it.
    pub expected_group: Option<i32>,
    pub containment_swept: bool,
    pub drop_deadline: Option<Moment>,
    pub containment_policy: GroupContainmentPolicy,
}

/// How a child ended that the coordinator never heard of. It decides what a
/// failure may still do, and is reported to nobody.
#[derive(Clone, Copy)]
pub struct UnannouncedExit {
    disposition: ChildDisposition,
}

impl UnannouncedExit {
    pub closed spec fn of(disposition: ChildDisposition) -> Self {
        UnannouncedExit { disposition }
    }

    pub closed spec fn kept(self) -> ChildDisposition {
        self.disposition
    }

    pub(crate) fn keep(disposition: ChildDisposition) -> (exit: Self)
        ensures
            exit == Self::of(disposition),
            exit.kept() == disposition,
    {
        UnannouncedExit { disposition }
    }
}

/// What is kept of an unannounced exit is what it was.
pub proof fn law_unannounced_exit_is_kept(disposition: ChildDisposition)
    ensures
        UnannouncedExit::of(disposition).kept() == disposition,
{
}

/// A spawn failure that keeps the direct child handle until exact reap.
#[must_use]
pub struct SpawnFailure<H> {
    pub error: ProcessError,
    pub child: Option<FailedSpawnChild<H>>,
    pub disposition: Option<UnannouncedExit>,
    pub started: bool,
}

impl<H> SpawnFailure<H> {
    pub open spec fn before_start(error: ProcessError) -> Self {
        SpawnFailure { error, child: None, disposition: None, started: false }
    }

    pub open spec fn owning(
        error: ProcessError,
        handle: H,
        pid: i32,
        expected_group: Option<i32>,
        containment_policy: GroupContainmentPolicy,
    ) -> Self {
        SpawnFailure {
            error,
            child: Some(
                FailedSpawnChild {
                    handle,
                    pid,
                    expected_group,
                    containment_swept: false,
                    drop_deadline: None,
                    containment_policy,
                },
            ),
            disposition: None,
            started: true,
        }
    }

    pub fn not_started(error: ProcessError) -> (failure: Self)
        ensures
            failure == Self::before_start(error),
    {
        SpawnFailure { error, child: None, disposition: None, started: false }
    }

    pub fn started_with_policy(
        error: ProcessError,
        handle: H,
        pid: i32,
        expected_group: Option<i32>,
        containment_policy: GroupContainmentPolicy,
    ) -> (failure: Self)
        ensures
            failure == Self::owning(error, handle, pid, expected_group, containment_policy),
    {
        SpawnFailure {
            error,
            child: Some(
                FailedSpawnChild {
                    handle,
                    pid,
                    expected_group,
                    containment_swept: false,
                    drop_deadline: None,
                    containment_policy,
                },
            ),
            disposition: None,
            started: true,
        }
    }

    /// A child under the fixture policy.
    pub fn started_fixture(
        error: ProcessError,
        handle: H,
        pid: i32,
        expected_group: Option<i32>,
    ) -> (failure: Self)
        ensures
            failure == Self::owning(
                error,
                handle,
                pid,
                expected_group,
                GroupContainmentPolicy::SyntheticFixture,
            ),
    {
        Self::started_with_policy(
            error,
            handle,
            pid,
            expected_group,
            GroupContainmentPolicy::SyntheticFixture,
        )
    }

    pub fn error(&self) -> (error: ProcessError)
        ensures
            error == self.error,
    {
        self.error
    }

    pub open spec fn spec_state(self) -> SpawnFailureState {
        if !self.started {
            SpawnFailureState::NotStarted
        } else if self.disposition is Some && self.child is None {
            SpawnFailureState::ReapedUnannounced
        } else {
            SpawnFailureState::LiveUnannouncedChild
        }
    }

    pub fn state(&self) -> (state: SpawnFailureState)
        ensures
            state == self.spec_state(),
    {
        if !self.started {
            return SpawnFailureState::NotStarted;
        }
        match (self.disposition.is_some(), self.child.is_some()) {
            (true, false) => SpawnFailureState::ReapedUnannounced,
            (true, true) | (false, true) | (false, false) => {
                SpawnFailureState::LiveUnannouncedChild
            },
        }
    }

    pub open spec fn with_drop_deadline(self, drop_deadline: Option<Moment>) -> Self {
        SpawnFailure {
            child: match self.child {
                Some(child) => Some(FailedSpawnChild { drop_deadline, ..child }),
                None => None,
            },
            ..self
        }
    }

    pub open spec fn with_sweep_proven(self) -> Self {
        SpawnFailure {
            child: match self.child {
                Some(child) => Some(FailedSpawnChild { containment_swept: true, ..child }),
                None => None,
            },
            ..self
        }
    }

    /// The group of the child is known to be swept.
    pub open spec fn swept(self) -> bool {
        self.child matches Some(child) && child.containment_swept
    }

    fn set_drop_deadline(&mut self, drop_deadline: Option<Moment>)
        ensures
            *final(self) == old(self).with_drop_deadline(drop_deadline),
    {
        if let Some(child) = &mut self.child {
            child.drop_deadline = drop_deadline;
        }
    }

    fn set_swept(&mut self)
        ensures
            *final(self) == old(self).with_sweep_proven(),
    {
        if let Some(child) = &mut self.child {
            child.containment_swept = true;
        }
    }

    fn is_swept(&self) -> (swept: bool)
        ensures
            swept == self.swept(),
    {
        match &self.child {
            Some(child) => child.containment_swept,
            None => false,
        }
    }
}

// ---------------------------------------------------------------------------
// The sweep of the child's group.
// ---------------------------------------------------------------------------

#[derive(Clone, Copy, Debug, PartialEq, Eq, Structural)]
pub enum FailedSweep {
    Send,
    Probe,
    Done(bool),
}

impl FailedSweep {
    /// Without a group that may be signalled there is nothing to sweep, and
    /// nothing is proven.
    pub open spec fn start<H>(child: FailedSpawnChild<H>) -> Self {
        if child.expected_group is Some {
            FailedSweep::Send
        } else {
            FailedSweep::Done(false)
        }
    }

    /// The direct child is unreaped, so its numbers cannot have been reused: a
    /// missing group is proof of absence. A denied signal is one only together
    /// with an independent observation.
    pub open spec fn after<H>(self, child: FailedSpawnChild<H>, event: ChildEvent) -> Self {
        match (self, event) {
            (FailedSweep::Send, ChildEvent::Signaled(Ok(_))) => FailedSweep::Done(true),
            (FailedSweep::Send, ChildEvent::Signaled(Err(error))) => match error {
                SystemError::NoSuchProcess => FailedSweep::Done(true),
                SystemError::PermissionDenied => FailedSweep::Probe,
                _ => FailedSweep::Done(false),
            },
            (FailedSweep::Probe, ChildEvent::Absence(absence)) => FailedSweep::Done(
                child.expected_group matches Some(group) && absence_proven(
                    child.pid,
                    group,
                    child.containment_policy,
                    absence,
                ),
            ),
            _ => self,
        }
    }

    pub open spec fn spec_action(self) -> Option<ChildAction> {
        match self {
            FailedSweep::Send => Some(ChildAction::SignalGroup(Signal::Kill)),
            FailedSweep::Probe => Some(ChildAction::ProbeGroupAbsence),
            FailedSweep::Done(_) => None,
        }
    }

    pub fn begin<H>(child: &FailedSpawnChild<H>) -> (sweep: Self)
        ensures
            sweep == Self::start(*child),
    {
        if child.expected_group.is_some() {
            FailedSweep::Send
        } else {
            FailedSweep::Done(false)
        }
    }

    pub fn action(&self) -> (action: Option<ChildAction>)
        ensures
            action == self.spec_action(),
    {
        match self {
            FailedSweep::Send => Some(ChildAction::SignalGroup(Signal::Kill)),
            FailedSweep::Probe => Some(ChildAction::ProbeGroupAbsence),
            FailedSweep::Done(_) => None,
        }
    }
}

/// Takes one event into the sweep.
pub fn sweep_failed_spawn_group<H>(
    sweep: &mut FailedSweep,
    child: &FailedSpawnChild<H>,
    event: ChildEvent,
)
    ensures
        *final(sweep) == old(sweep).after(*child, event),
{
    match (*sweep, event) {
        (FailedSweep::Send, ChildEvent::Signaled(Ok(()))) => {
            *sweep = FailedSweep::Done(true);
        },
        (FailedSweep::Send, ChildEvent::Signaled(Err(error))) => {
            *sweep = match error {
                SystemError::NoSuchProcess => FailedSweep::Done(true),
                SystemError::PermissionDenied => FailedSweep::Probe,
                _ => FailedSweep::Done(false),
            };
        },
        (FailedSweep::Probe, ChildEvent::Absence(absence)) => {
            *sweep = FailedSweep::Done(
                match child.expected_group {
                    Some(group) => group_absence_proven(
                        child.pid,
                        group,
                        child.containment_policy,
                        absence,
                    ),
                    None => false,
                },
            );
        },
        _ => {},
    }
}

// ---------------------------------------------------------------------------
// Cleanup.
// ---------------------------------------------------------------------------

#[derive(Clone, Copy, Debug, PartialEq, Eq, Structural)]
pub enum CleanupPhase {
    Sweep(FailedSweep),
    /// The group is not swept: stop the leader, but do not wait for it.
    KillUnswept,
    Kill,
    Wait,
    Clock,
    Sleep,
    Cleaned(SpawnCleanupProof),
    Retained,
}

/// One bounded attempt to clean up after a failed spawn.
pub struct SpawnCleanup<H> {
    pub failure: SpawnFailure<H>,
    pub deadline: Moment,
    pub phase: CleanupPhase,
}

impl<H> SpawnCleanup<H> {
    pub open spec fn at(self, phase: CleanupPhase) -> Self {
        SpawnCleanup { phase, ..self }
    }

    /// The attempt is over and the child is still owned.
    pub open spec fn given_up(self) -> Self {
        SpawnCleanup {
            failure: self.failure.with_drop_deadline(Some(self.deadline)),
            phase: CleanupPhase::Retained,
            ..self
        }
    }

    pub open spec fn with_sweep(self, sweep: FailedSweep) -> Self {
        match sweep {
            FailedSweep::Done(true) => SpawnCleanup {
                failure: self.failure.with_sweep_proven(),
                phase: CleanupPhase::Kill,
                ..self
            },
            FailedSweep::Done(false) => self.at(CleanupPhase::KillUnswept),
            _ => self.at(CleanupPhase::Sweep(sweep)),
        }
    }

    /// A wait that was consumed can no longer pin the group's numbers, so a
    /// child that is still held then is never signalled.
    pub open spec fn start(failure: SpawnFailure<H>, deadline: Moment) -> Self {
        let whole = SpawnCleanup { failure, deadline, phase: CleanupPhase::Retained };
        if !failure.started {
            whole.at(CleanupPhase::Cleaned(SpawnCleanupProof::not_started()))
        } else {
            match failure.child {
                None => match failure.disposition {
                    Some(exit) => whole.at(
                        CleanupPhase::Cleaned(SpawnCleanupProof::reaped(exit.kept())),
                    ),
                    None => whole,
                },
                Some(child) => {
                    let undated = SpawnCleanup {
                        failure: failure.with_drop_deadline(None),
                        ..whole
                    };
                    if failure.disposition is Some {
                        undated
                    } else if child.containment_swept {
                        undated.at(CleanupPhase::Kill)
                    } else {
                        undated.with_sweep(FailedSweep::start(child))
                    }
                },
            }
        }
    }

    pub open spec fn after(self, event: ChildEvent) -> Self {
        match (self.phase, event) {
            (CleanupPhase::Sweep(sweep), _) => match self.failure.child {
                Some(child) => self.with_sweep(sweep.after(child, event)),
                None => self,
            },
            (CleanupPhase::KillUnswept, ChildEvent::LeaderKilled) => {
                let retained = self.given_up();
                SpawnCleanup {
                    failure: SpawnFailure {
                        error: ProcessError::SpawnContainmentUnconfirmed {
                            role: role_of_error(self.failure.error),
                        },
                        ..retained.failure
                    },
                    ..retained
                }
            },
            (CleanupPhase::Kill, ChildEvent::LeaderKilled) => self.at(CleanupPhase::Wait),
            (CleanupPhase::Wait, ChildEvent::Reaped(outcome)) => match outcome {
                ReapOutcome::Reaped(status) => self.at(
                    CleanupPhase::Cleaned(
                        SpawnCleanupProof::reaped(disposition_of(status, StopAction::Kill)),
                    ),
                ),
                ReapOutcome::Running => self.at(CleanupPhase::Clock),
                ReapOutcome::Failed => self.given_up(),
            },
            (CleanupPhase::Clock, ChildEvent::Clock(now)) => if now.reached(self.deadline) {
                self.given_up()
            } else {
                self.at(CleanupPhase::Sleep)
            },
            (CleanupPhase::Sleep, ChildEvent::Slept) => self.at(CleanupPhase::Wait),
            _ => self,
        }
    }

    pub open spec fn spec_action(self) -> Option<ChildAction> {
        match self.phase {
            CleanupPhase::Sweep(sweep) => sweep.spec_action(),
            CleanupPhase::KillUnswept => Some(ChildAction::KillLeader),
            CleanupPhase::Kill => Some(ChildAction::KillLeader),
            CleanupPhase::Wait => Some(ChildAction::TryWait),
            CleanupPhase::Clock => Some(ChildAction::ReadClock),
            CleanupPhase::Sleep => Some(ChildAction::Sleep { deadline: self.deadline }),
            CleanupPhase::Cleaned(_) => None,
            CleanupPhase::Retained => None,
        }
    }

    /// What the attempt came to, once it is over.
    pub open spec fn result(self) -> Result<SpawnCleanupProof, SpawnFailure<H>> {
        match self.phase {
            CleanupPhase::Cleaned(cleaned) => Ok(cleaned),
            _ => Err(self.failure),
        }
    }

    fn take_sweep(&mut self, sweep: FailedSweep)
        ensures
            *final(self) == old(self).with_sweep(sweep),
    {
        match sweep {
            FailedSweep::Done(true) => {
                self.failure.set_swept();
                self.phase = CleanupPhase::Kill;
            },
            FailedSweep::Done(false) => {
                self.phase = CleanupPhase::KillUnswept;
            },
            _ => {
                self.phase = CleanupPhase::Sweep(sweep);
            },
        }
    }

    fn give_up(&mut self)
        ensures
            *final(self) == old(self).given_up(),
    {
        self.failure.set_drop_deadline(Some(self.deadline));
        self.phase = CleanupPhase::Retained;
    }

    /// The next system call; `None` once the attempt is over.
    pub fn action(&self) -> (action: Option<ChildAction>)
        ensures
            action == self.spec_action(),
    {
        match self.phase {
            CleanupPhase::Sweep(sweep) => sweep.action(),
            CleanupPhase::KillUnswept => Some(ChildAction::KillLeader),
            CleanupPhase::Kill => Some(ChildAction::KillLeader),
            CleanupPhase::Wait => Some(ChildAction::TryWait),
            CleanupPhase::Clock => Some(ChildAction::ReadClock),
            CleanupPhase::Sleep => Some(ChildAction::Sleep { deadline: self.deadline }),
            CleanupPhase::Cleaned(_) => None,
            CleanupPhase::Retained => None,
        }
    }

    /// Takes in what came of the last call.
    pub fn advance(&mut self, event: ChildEvent)
        ensures
            *final(self) == old(self).after(event),
    {
        match (self.phase, event) {
            (CleanupPhase::Sweep(sweep), _) => {
                let mut sweep = sweep;
                let mut swept = false;
                if let Some(child) = &self.failure.child {
                    sweep_failed_spawn_group(&mut sweep, child, event);
                    swept = true;
                }
                if swept {
                    self.take_sweep(sweep);
                }
            },
            (CleanupPhase::KillUnswept, ChildEvent::LeaderKilled) => {
                self.give_up();
                let role = process_error_role(self.failure.error);
                self.failure.error = ProcessError::SpawnContainmentUnconfirmed { role };
            },
            (CleanupPhase::Kill, ChildEvent::LeaderKilled) => {
                self.phase = CleanupPhase::Wait;
            },
            (CleanupPhase::Wait, ChildEvent::Reaped(outcome)) => match outcome {
                ReapOutcome::Reaped(status) => {
                    let disposition = project_disposition(status, StopAction::Kill);
                    self.phase = CleanupPhase::Cleaned(SpawnCleanupProof::for_reaped(disposition));
                },
                ReapOutcome::Running => {
                    self.phase = CleanupPhase::Clock;
                },
                ReapOutcome::Failed => {
                    self.give_up();
                },
            },
            (CleanupPhase::Clock, ChildEvent::Clock(now)) => {
                if now.has_reached(self.deadline) {
                    self.give_up();
                } else {
                    self.phase = CleanupPhase::Sleep;
                }
            },
            (CleanupPhase::Sleep, ChildEvent::Slept) => {
                self.phase = CleanupPhase::Wait;
            },
            _ => {},
        }
    }

    /// The proof of the cleanup, or the failure that still owns the child.
    pub fn finish(self) -> (result: Result<SpawnCleanupProof, SpawnFailure<H>>)
        requires
            self.spec_action() is None,
        ensures
            result == self.result(),
    {
        match self.phase {
            CleanupPhase::Cleaned(cleaned) => Ok(cleaned),
            _ => Err(self.failure),
        }
    }
}

impl<H> SpawnFailure<H> {
    /// Begins one cleanup attempt that keeps the handle on timeout.
    pub fn cleanup(self, deadline: Moment) -> (cleanup: SpawnCleanup<H>)
        ensures
            cleanup == SpawnCleanup::start(self, deadline),
    {
        let mut whole = SpawnCleanup { failure: self, deadline, phase: CleanupPhase::Retained };
        if !whole.failure.started {
            whole.phase = CleanupPhase::Cleaned(SpawnCleanupProof::for_unstarted());
            return whole;
        }
        let sweep = match &whole.failure.child {
            None => {
                if let Some(exit) = whole.failure.disposition {
                    whole.phase = CleanupPhase::Cleaned(
                        SpawnCleanupProof::for_reaped(exit.disposition),
                    );
                }
                return whole;
            },
            Some(child) => FailedSweep::begin(child),
        };
        whole.failure.set_drop_deadline(None);
        if whole.failure.disposition.is_some() {
            return whole;
        }
        if whole.failure.is_swept() {
            whole.phase = CleanupPhase::Kill;
        } else {
            whole.take_sweep(sweep);
        }
        whole
    }
}

/// What a spawn reports after its cleanup attempt: the original error where the
/// child was reaped; otherwise the failure that still owns it, with an error
/// that says why.
pub open spec fn cleaned_failure<H>(
    result: Result<SpawnCleanupProof, SpawnFailure<H>>,
    original_error: ProcessError,
) -> SpawnFailure<H> {
    match result {
        Ok(cleaned) => SpawnFailure {
            error: original_error,
            child: None,
            disposition: Some(
                UnannouncedExit::of(
                    match cleaned.unannounced() {
                        Some(disposition) => disposition,
                        None => ChildDisposition::NotStarted,
                    },
                ),
            ),
            started: true,
        },
        Err(failure) => SpawnFailure {
            error: match failure.error {
                ProcessError::SpawnContainmentUnconfirmed { .. } => failure.error,
                _ => ProcessError::SpawnCleanupTimeout { role: role_of_error(original_error) },
            },
            ..failure
        },
    }
}

pub fn finish_spawn_cleanup<H>(cleanup: SpawnCleanup<H>, original_error: ProcessError) -> (failure:
    SpawnFailure<H>)
    requires
        cleanup.spec_action() is None,
    ensures
        failure == cleaned_failure(cleanup.result(), original_error),
{
    match cleanup.finish() {
        Ok(cleaned) => SpawnFailure {
            error: original_error,
            child: None,
            disposition: Some(UnannouncedExit::keep(cleaned.disposition())),
            started: true,
        },
        Err(failure) => {
            let mut failure = failure;
            if !matches!(failure.error, ProcessError::SpawnContainmentUnconfirmed { .. }) {
                failure.error = ProcessError::SpawnCleanupTimeout {
                    role: process_error_role(original_error),
                };
            }
            failure
        },
    }
}

/// The cleanup attempt that a failed spawn begins at once, or the failure
/// itself where the clock cannot name a deadline.
pub open spec fn begun_cleanup<H>(failure: SpawnFailure<H>, now: Moment) -> Result<
    SpawnCleanup<H>,
    SpawnFailure<H>,
> {
    match now.later(SPAWN_CLEANUP_TIMEOUT_NANOS) {
        Some(deadline) => Ok(SpawnCleanup::start(failure, deadline)),
        None => Err(failure),
    }
}

/// Begins the cleanup of a child that leads its own group.
pub fn cleanup_failed_spawn<H>(
    handle: H,
    pid: i32,
    expected_group: i32,
    original_error: ProcessError,
    containment_policy: GroupContainmentPolicy,
    now: Moment,
) -> (begun: Result<SpawnCleanup<H>, SpawnFailure<H>>)
    ensures
        begun == begun_cleanup(
            SpawnFailure::owning(
                original_error,
                handle,
                pid,
                Some(expected_group),
                containment_policy,
            ),
            now,
        ),
{
    let failure = SpawnFailure::started_with_policy(
        original_error,
        handle,
        pid,
        Some(expected_group),
        containment_policy,
    );
    match now.checked_add(SPAWN_CLEANUP_TIMEOUT_NANOS) {
        Some(deadline) => Ok(failure.cleanup(deadline)),
        None => Err(failure),
    }
}

/// Begins the cleanup of a child whose group is not known: no group is ever
/// signalled for it.
pub fn cleanup_unconfirmed_session<H>(
    handle: H,
    pid: i32,
    original_error: ProcessError,
    containment_policy: GroupContainmentPolicy,
    now: Moment,
) -> (begun: Result<SpawnCleanup<H>, SpawnFailure<H>>)
    ensures
        begun == begun_cleanup(
            SpawnFailure::owning(original_error, handle, pid, None, containment_policy),
            now,
        ),
{
    let failure = SpawnFailure::started_with_policy(
        original_error,
        handle,
        pid,
        None,
        containment_policy,
    );
    match now.checked_add(SPAWN_CLEANUP_TIMEOUT_NANOS) {
        Some(deadline) => Ok(failure.cleanup(deadline)),
        None => Err(failure),
    }
}

// ---------------------------------------------------------------------------
// Laws.
// ---------------------------------------------------------------------------

/// What every cleanup attempt keeps: it waits for a child only once its group
/// is swept, and it never signals a group that it was not given.
pub open spec fn cleanup_sound<H>(cleanup: SpawnCleanup<H>) -> bool {
    match cleanup.phase {
        CleanupPhase::Sweep(_) => cleanup.failure.child matches Some(child)
            && child.expected_group is Some && !child.containment_swept,
        CleanupPhase::KillUnswept => cleanup.failure.child matches Some(child)
            && !child.containment_swept,
        CleanupPhase::Kill => cleanup.failure.swept(),
        CleanupPhase::Wait => cleanup.failure.swept(),
        CleanupPhase::Clock => cleanup.failure.swept(),
        CleanupPhase::Sleep => cleanup.failure.swept(),
        _ => true,
    }
}

/// The same child, handle, and group in both failures.
pub open spec fn same_failed_child<H>(left: SpawnFailure<H>, right: SpawnFailure<H>) -> bool {
    match (left.child, right.child) {
        (None, None) => true,
        (Some(left), Some(right)) => left.handle == right.handle && left.pid == right.pid
            && left.expected_group == right.expected_group && left.containment_policy
            == right.containment_policy,
        _ => false,
    }
}

/// Every attempt begins soundly, with the child that it was given.
pub proof fn law_cleanup_begins_soundly<H>(failure: SpawnFailure<H>, deadline: Moment)
    ensures
        cleanup_sound(SpawnCleanup::start(failure, deadline)),
        same_failed_child(SpawnCleanup::start(failure, deadline).failure, failure),
{
}

/// Every step of a cleanup keeps it sound and keeps the child with its owner.
pub proof fn law_cleanup_stays_sound<H>(cleanup: SpawnCleanup<H>, event: ChildEvent)
    requires
        cleanup_sound(cleanup),
    ensures
        cleanup_sound(cleanup.after(event)),
        same_failed_child(cleanup.after(event).failure, cleanup.failure),
{
}

/// A consuming wait is made only for a child whose group is swept, a signal
/// goes only to a group that is known, and the handle of a child that was not
/// reaped comes back with the failure.
pub proof fn law_cleanup_waits_only_after_a_sweep<H>(cleanup: SpawnCleanup<H>)
    requires
        cleanup_sound(cleanup),
    ensures
        cleanup.spec_action() == Some(ChildAction::TryWait) ==> cleanup.failure.swept(),
        cleanup.spec_action() matches Some(ChildAction::SignalGroup(signal)) ==> (signal
            == Signal::Kill && (cleanup.failure.child matches Some(child)
            && child.expected_group is Some)),
        cleanup.result() matches Err(failure) ==> failure == cleanup.failure,
{
}

/// A child that started without a confirmed group cannot be cleaned up: the
/// attempt stops its leader once, signals no group, waits for nothing and
/// reports containment as unconfirmed.
pub proof fn law_unconfirmed_session_is_retained<H>(
    handle: H,
    pid: i32,
    error: ProcessError,
    policy: GroupContainmentPolicy,
    deadline: Moment,
)
    ensures
        ({
            let failure = SpawnFailure::owning(error, handle, pid, None, policy);
            let begun = SpawnCleanup::start(failure, deadline);
            let over = begun.after(ChildEvent::LeaderKilled);
            &&& begun.spec_action() == Some(ChildAction::KillLeader)
            &&& over.spec_action() is None
            &&& over.result() matches Err(retained)
                && retained.child matches Some(child) && child.handle == handle
                && !child.containment_swept && retained.error
                == (ProcessError::SpawnContainmentUnconfirmed { role: role_of_error(error) })
            &&& cleaned_failure(over.result(), error).error
                == (ProcessError::SpawnContainmentUnconfirmed { role: role_of_error(error) })
            &&& cleaned_failure(over.result(), error).spec_state()
                == SpawnFailureState::LiveUnannouncedChild
        }),
{
}

} // verus!
