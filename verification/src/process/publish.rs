//! From a started process to a published child.
//!
//! A child is published only once it is certain which group, or which session,
//! it leads; otherwise its cleanup begins.
use vstd::prelude::*;

use crate::clock::Moment;
use crate::process::child::{
    ChildAuthority, ChildState, GroupContainmentPolicy, ManagedGroupChild,
};
use crate::process::error::ProcessError;
use crate::process::spawn::{
    begun_cleanup, cleanup_failed_spawn, cleanup_unconfirmed_session, SpawnCleanup, SpawnFailure,
    UnannouncedExit,
};
use crate::process::status::{
    disposition_of, project_disposition, ExitStatus, ReapOutcome, SessionIdentityObservation,
    SystemError,
};
use crate::protocol::message::{ChildRole, StopAction};

verus! {

/// How a spawn goes on.
pub enum SpawnStep<H> {
    Published(ManagedGroupChild<H>),
    /// A cleanup was begun; the error is the one to report once it is over.
    Cleanup { cleanup: SpawnCleanup<H>, error: ProcessError },
    Failed(SpawnFailure<H>),
}

pub open spec fn cleanup_step<H>(failure: SpawnFailure<H>, now: Moment) -> SpawnStep<H> {
    match begun_cleanup(failure, now) {
        Ok(cleanup) => SpawnStep::Cleanup { cleanup, error: failure.error },
        Err(failure) => SpawnStep::Failed(failure),
    }
}

// ---------------------------------------------------------------------------
// A child that leads its own process group.
// ---------------------------------------------------------------------------

/// What is known of a process right after it was spawned.
#[derive(Clone, Copy, Debug)]
pub struct SpawnReadback {
    pub pid: i32,
    pub process_group: Result<i32, SystemError>,
    /// A pipe that closes when the guardian dies was asked for, and is there.
    pub parent_liveness_wanted: bool,
    pub parent_liveness_open: bool,
    /// A readiness channel was asked for, and is there.
    pub readiness_wanted: bool,
    pub readiness_open: bool,
}

/// Whether the process is the child that was asked for.
pub open spec fn spawn_verdict(role: ChildRole, readback: SpawnReadback) -> Result<
    (),
    ProcessError,
> {
    match readback.process_group {
        Err(_) => Err(ProcessError::ProcessGroupReadback { role }),
        Ok(process_group) => if process_group != readback.pid {
            Err(ProcessError::ProcessGroupMismatch { role })
        } else if readback.parent_liveness_wanted && !readback.parent_liveness_open {
            Err(ProcessError::ParentLivenessUnavailable { role })
        } else if readback.readiness_wanted && !readback.readiness_open {
            Err(ProcessError::ReadinessUnavailable { role })
        } else {
            Ok(())
        },
    }
}

pub fn check_spawn(role: ChildRole, readback: SpawnReadback) -> (verdict: Result<(), ProcessError>)
    ensures
        verdict == spawn_verdict(role, readback),
{
    let process_group: i32 = match readback.process_group {
        Ok(process_group) => process_group,
        Err(_) => {
            return Err(ProcessError::ProcessGroupReadback { role });
        },
    };
    if process_group != readback.pid {
        return Err(ProcessError::ProcessGroupMismatch { role });
    }
    if readback.parent_liveness_wanted && !readback.parent_liveness_open {
        return Err(ProcessError::ParentLivenessUnavailable { role });
    }
    if readback.readiness_wanted && !readback.readiness_open {
        return Err(ProcessError::ReadinessUnavailable { role });
    }
    Ok(())
}

/// What a spawn comes to. A child is published with the next identity off the
/// counter; where nothing was started, or the process is not the child that was
/// asked for, the counter stays.
pub open spec fn spawn_outcome<H>(
    role: ChildRole,
    spawned: Option<(H, SpawnReadback)>,
    containment_policy: GroupContainmentPolicy,
    authorities: int,
    now: Moment,
    step: SpawnStep<H>,
    authorities_after: int,
) -> bool {
    match spawned {
        None => {
            &&& step == SpawnStep::Failed(
                SpawnFailure::<H>::before_start(ProcessError::Spawn { role }),
            )
            &&& authorities_after == authorities
        },
        Some((handle, readback)) => match spawn_verdict(role, readback) {
            Ok(_) => {
                &&& step matches SpawnStep::Published(child)
                &&& child.handle == handle
                &&& child.state.authority.number() == authorities
                &&& child.state == ChildState::published(
                    role,
                    child.state.authority,
                    readback.pid,
                    readback.readiness_wanted,
                    containment_policy,
                )
                &&& authorities_after == authorities + 1
            },
            Err(error) => {
                &&& step == cleanup_step(
                    SpawnFailure::owning(
                        error,
                        handle,
                        readback.pid,
                        Some(readback.pid),
                        containment_policy,
                    ),
                    now,
                )
                &&& authorities_after == authorities
            },
        },
    }
}

/// Publishes a spawned process, or begins its cleanup. `spawned` is `None`
/// where nothing was started at all.
pub fn spawn_inner<H>(
    role: ChildRole,
    spawned: Option<(H, SpawnReadback)>,
    containment_policy: GroupContainmentPolicy,
    authorities: &mut u64,
    now: Moment,
) -> (step: SpawnStep<H>)
    requires
        *old(authorities) < u64::MAX,
    ensures
        spawn_outcome(
            role,
            spawned,
            containment_policy,
            *old(authorities) as int,
            now,
            step,
            *final(authorities) as int,
        ),
{
    let (handle, readback) = match spawned {
        Some(spawned) => spawned,
        None => {
            return SpawnStep::Failed(SpawnFailure::not_started(ProcessError::Spawn { role }));
        },
    };
    match check_spawn(role, readback) {
        Ok(()) => match ChildAuthority::next(authorities) {
            Some(authority) => SpawnStep::Published(
                ManagedGroupChild {
                    handle,
                    state: ChildState::publish(
                        role,
                        authority,
                        readback.pid,
                        readback.readiness_wanted,
                        containment_policy,
                    ),
                },
            ),
            None => vstd::pervasive::unreached(),
        },
        Err(error) => match cleanup_failed_spawn(
            handle,
            readback.pid,
            readback.pid,
            error,
            containment_policy,
            now,
        ) {
            Ok(cleanup) => SpawnStep::Cleanup { cleanup, error },
            Err(failure) => SpawnStep::Failed(failure),
        },
    }
}

/// The readback, judged by the channels that this spawn asks for.
pub open spec fn asked_for<H>(
    spawned: Option<(H, SpawnReadback)>,
    readiness_stdout: bool,
    parent_liveness_pipe: bool,
) -> Option<(H, SpawnReadback)> {
    match spawned {
        Some((handle, readback)) => Some(
            (
                handle,
                SpawnReadback {
                    parent_liveness_wanted: parent_liveness_pipe,
                    readiness_wanted: readiness_stdout,
                    ..readback
                },
            ),
        ),
        None => None,
    }
}

fn ask_for<H>(
    spawned: Option<(H, SpawnReadback)>,
    readiness_stdout: bool,
    parent_liveness_pipe: bool,
) -> (asked: Option<(H, SpawnReadback)>)
    ensures
        asked == asked_for(spawned, readiness_stdout, parent_liveness_pipe),
{
    match spawned {
        Some((handle, readback)) => Some(
            (
                handle,
                SpawnReadback {
                    parent_liveness_wanted: parent_liveness_pipe,
                    readiness_wanted: readiness_stdout,
                    ..readback
                },
            ),
        ),
        None => None,
    }
}

/// What the spawn of a real provider child comes to: it is strict.
pub open spec fn provider_spawn<H>(
    role: ChildRole,
    readiness_stdout: bool,
    spawned: Option<(H, SpawnReadback)>,
    authorities: int,
    now: Moment,
    step: SpawnStep<H>,
    authorities_after: int,
) -> bool {
    spawn_outcome(
        role,
        asked_for(spawned, readiness_stdout, false),
        GroupContainmentPolicy::ProductionStrict,
        authorities,
        now,
        step,
        authorities_after,
    )
}

/// What the spawn of a synthetic child comes to, with or without a pipe that
/// closes when the guardian dies.
pub open spec fn fixture_spawn<H>(
    role: ChildRole,
    readiness_stdout: bool,
    parent_liveness_pipe: bool,
    spawned: Option<(H, SpawnReadback)>,
    authorities: int,
    now: Moment,
    step: SpawnStep<H>,
    authorities_after: int,
) -> bool {
    spawn_outcome(
        role,
        asked_for(spawned, readiness_stdout, parent_liveness_pipe),
        GroupContainmentPolicy::SyntheticFixture,
        authorities,
        now,
        step,
        authorities_after,
    )
}

/// Publishes a real provider child, which is strict: a denied group signal
/// alone never counts as containment.
pub fn spawn<H>(
    role: ChildRole,
    readiness_stdout: bool,
    spawned: Option<(H, SpawnReadback)>,
    authorities: &mut u64,
    now: Moment,
) -> (step: SpawnStep<H>)
    requires
        *old(authorities) < u64::MAX,
    ensures
        provider_spawn(
            role,
            readiness_stdout,
            spawned,
            *old(authorities) as int,
            now,
            step,
            *final(authorities) as int,
        ),
{
    spawn_inner(
        role,
        ask_for(spawned, readiness_stdout, false),
        GroupContainmentPolicy::ProductionStrict,
        authorities,
        now,
    )
}

/// Publishes a synthetic child, whose group may be shown to be empty by a look
/// at the process table.
pub fn spawn_fixture<H>(
    role: ChildRole,
    readiness_stdout: bool,
    spawned: Option<(H, SpawnReadback)>,
    authorities: &mut u64,
    now: Moment,
) -> (step: SpawnStep<H>)
    requires
        *old(authorities) < u64::MAX,
    ensures
        fixture_spawn(
            role,
            readiness_stdout,
            false,
            spawned,
            *old(authorities) as int,
            now,
            step,
            *final(authorities) as int,
        ),
{
    spawn_inner(
        role,
        ask_for(spawned, readiness_stdout, false),
        GroupContainmentPolicy::SyntheticFixture,
        authorities,
        now,
    )
}

/// Publishes a synthetic child whose standard input closes if its guardian
/// dies.
pub fn spawn_with_parent_liveness_pipe<H>(
    role: ChildRole,
    readiness_stdout: bool,
    spawned: Option<(H, SpawnReadback)>,
    authorities: &mut u64,
    now: Moment,
) -> (step: SpawnStep<H>)
    requires
        *old(authorities) < u64::MAX,
    ensures
        fixture_spawn(
            role,
            readiness_stdout,
            true,
            spawned,
            *old(authorities) as int,
            now,
            step,
            *final(authorities) as int,
        ),
{
    spawn_inner(
        role,
        ask_for(spawned, readiness_stdout, true),
        GroupContainmentPolicy::SyntheticFixture,
        authorities,
        now,
    )
}

// ---------------------------------------------------------------------------
// A child that leads its own session.
// ---------------------------------------------------------------------------

/// What a publication does next.
#[derive(Clone, Copy, Debug, PartialEq, Eq, Structural)]
pub enum SessionAction {
    /// Read the process group and the session of the child.
    Probe,
    TryWait,
    ReadClock,
    Sleep { deadline: Moment },
}

/// What came of it.
#[derive(Clone, Copy, Debug)]
pub enum SessionEvent {
    Identity(Result<SessionIdentityObservation, ProcessError>),
    Reaped(ReapOutcome),
    Clock(Moment),
    Slept,
}

#[derive(Clone, Copy, Debug, PartialEq, Eq, Structural)]
pub enum SessionPhase {
    Probe,
    Wait,
    Clock,
    Sleep,
    Exact,
    Exited(ExitStatus),
    Failed(ProcessError),
}

/// The wait for a launcher to claim its own session.
#[derive(Clone, Copy, Debug, PartialEq, Eq, Structural)]
pub struct SessionPublication {
    pub role: ChildRole,
    pub containment_policy: GroupContainmentPolicy,
    pub deadline: Moment,
    pub phase: SessionPhase,
}

impl SessionPublication {
    pub open spec fn start(
        role: ChildRole,
        deadline: Moment,
        containment_policy: GroupContainmentPolicy,
    ) -> Self {
        SessionPublication { role, containment_policy, deadline, phase: SessionPhase::Probe }
    }

    pub open spec fn at(self, phase: SessionPhase) -> Self {
        SessionPublication { phase, ..self }
    }

    /// A pending identity is looked at again until the deadline, as long as the
    /// child has not exited.
    pub open spec fn after(self, event: SessionEvent) -> Self {
        match (self.phase, event) {
            (SessionPhase::Probe, SessionEvent::Identity(observation)) => match observation {
                Ok(SessionIdentityObservation::Exact) => self.at(SessionPhase::Exact),
                Ok(SessionIdentityObservation::Pending) => self.at(SessionPhase::Wait),
                Err(error) => self.at(SessionPhase::Failed(error)),
            },
            (SessionPhase::Wait, SessionEvent::Reaped(outcome)) => match outcome {
                ReapOutcome::Reaped(status) => self.at(SessionPhase::Exited(status)),
                ReapOutcome::Running => self.at(SessionPhase::Clock),
                ReapOutcome::Failed => self.at(
                    SessionPhase::Failed(ProcessError::Wait { role: self.role }),
                ),
            },
            (SessionPhase::Clock, SessionEvent::Clock(now)) => if now.reached(self.deadline) {
                self.at(
                    SessionPhase::Failed(ProcessError::SessionStartupTimeout { role: self.role }),
                )
            } else {
                self.at(SessionPhase::Sleep)
            },
            (SessionPhase::Sleep, SessionEvent::Slept) => self.at(SessionPhase::Probe),
            _ => self,
        }
    }

    pub open spec fn spec_action(self) -> Option<SessionAction> {
        match self.phase {
            SessionPhase::Probe => Some(SessionAction::Probe),
            SessionPhase::Wait => Some(SessionAction::TryWait),
            SessionPhase::Clock => Some(SessionAction::ReadClock),
            SessionPhase::Sleep => Some(SessionAction::Sleep { deadline: self.deadline }),
            _ => None,
        }
    }

    pub fn begin(
        role: ChildRole,
        deadline: Moment,
        containment_policy: GroupContainmentPolicy,
    ) -> (publication: Self)
        ensures
            publication == Self::start(role, deadline, containment_policy),
    {
        SessionPublication { role, containment_policy, deadline, phase: SessionPhase::Probe }
    }

    /// The next system call; `None` once the publication is decided.
    pub fn action(&self) -> (action: Option<SessionAction>)
        ensures
            action == self.spec_action(),
    {
        match self.phase {
            SessionPhase::Probe => Some(SessionAction::Probe),
            SessionPhase::Wait => Some(SessionAction::TryWait),
            SessionPhase::Clock => Some(SessionAction::ReadClock),
            SessionPhase::Sleep => Some(SessionAction::Sleep { deadline: self.deadline }),
            _ => None,
        }
    }
}

/// Takes one event into a publication.
pub fn publish_session_leader_with_probe(publication: &mut SessionPublication, event: SessionEvent)
    ensures
        *final(publication) == old(publication).after(event),
{
    match (publication.phase, event) {
        (SessionPhase::Probe, SessionEvent::Identity(observation)) => {
            publication.phase = match observation {
                Ok(SessionIdentityObservation::Exact) => SessionPhase::Exact,
                Ok(SessionIdentityObservation::Pending) => SessionPhase::Wait,
                Err(error) => SessionPhase::Failed(error),
            };
        },
        (SessionPhase::Wait, SessionEvent::Reaped(outcome)) => {
            publication.phase = match outcome {
                ReapOutcome::Reaped(status) => SessionPhase::Exited(status),
                ReapOutcome::Running => SessionPhase::Clock,
                ReapOutcome::Failed => SessionPhase::Failed(
                    ProcessError::Wait { role: publication.role },
                ),
            };
        },
        (SessionPhase::Clock, SessionEvent::Clock(now)) => {
            publication.phase = if now.has_reached(publication.deadline) {
                SessionPhase::Failed(
                    ProcessError::SessionStartupTimeout { role: publication.role },
                )
            } else {
                SessionPhase::Sleep
            };
        },
        (SessionPhase::Sleep, SessionEvent::Slept) => {
            publication.phase = SessionPhase::Probe;
        },
        _ => {},
    }
}

/// What the publication of a session leader comes to, once it is decided.
pub open spec fn session_outcome<H>(
    publication: SessionPublication,
    handle: H,
    pid: i32,
    authorities: int,
    now: Moment,
    step: SpawnStep<H>,
    authorities_after: int,
) -> bool {
    match publication.phase {
        SessionPhase::Exact => {
            &&& step matches SpawnStep::Published(child)
            &&& child.handle == handle
            &&& child.state.authority.number() == authorities
            &&& child.state == ChildState::published(
                publication.role,
                child.state.authority,
                pid,
                false,
                publication.containment_policy,
            )
            &&& authorities_after == authorities + 1
        },
        SessionPhase::Exited(status) => {
            &&& step == SpawnStep::Failed(
                SpawnFailure::<H> {
                    error: ProcessError::SessionMismatch { role: publication.role },
                    child: None,
                    disposition: Some(
                        UnannouncedExit::of(disposition_of(status, StopAction::NoAction)),
                    ),
                    started: true,
                },
            )
            &&& authorities_after == authorities
        },
        SessionPhase::Failed(error) => {
            &&& step == cleanup_step(
                SpawnFailure::owning(error, handle, pid, None, publication.containment_policy),
                now,
            )
            &&& authorities_after == authorities
        },
        _ => false,
    }
}

/// Publishes the launcher once it leads its own session. One that exited first
/// is reported with the disposition of its exit; on any other failure its
/// cleanup begins, without a group that may be signalled.
pub fn publish_session_leader<H>(
    publication: SessionPublication,
    handle: H,
    pid: i32,
    authorities: &mut u64,
    now: Moment,
) -> (step: SpawnStep<H>)
    requires
        publication.spec_action() is None,
        *old(authorities) < u64::MAX,
    ensures
        session_outcome(
            publication,
            handle,
            pid,
            *old(authorities) as int,
            now,
            step,
            *final(authorities) as int,
        ),
{
    match publication.phase {
        SessionPhase::Exact => match ChildAuthority::next(authorities) {
            Some(authority) => SpawnStep::Published(
                ManagedGroupChild {
                    handle,
                    state: ChildState::publish(
                        publication.role,
                        authority,
                        pid,
                        false,
                        publication.containment_policy,
                    ),
                },
            ),
            None => vstd::pervasive::unreached(),
        },
        SessionPhase::Exited(status) => SpawnStep::Failed(
            SpawnFailure {
                error: ProcessError::SessionMismatch { role: publication.role },
                child: None,
                disposition: Some(
                    UnannouncedExit::keep(project_disposition(status, StopAction::NoAction)),
                ),
                started: true,
            },
        ),
        SessionPhase::Failed(error) => match cleanup_unconfirmed_session(
            handle,
            pid,
            error,
            publication.containment_policy,
            now,
        ) {
            Ok(cleanup) => SpawnStep::Cleanup { cleanup, error },
            Err(failure) => SpawnStep::Failed(failure),
        },
        _ => vstd::pervasive::unreached(),
    }
}

/// What the launch of a session leader came to.
pub enum SessionLaunch<H> {
    Started { handle: H, pid: i32 },
    /// The launch failed after the process had started.
    StartedThenFailed { handle: H, pid: i32 },
    NotStarted,
}

/// How the launch of a session leader goes on.
pub enum SessionSpawn<H> {
    Publish { publication: SessionPublication, handle: H, pid: i32 },
    Step(SpawnStep<H>),
}

/// How a launch of a session leader goes on under a policy.
pub open spec fn session_spawn<H>(
    role: ChildRole,
    launch: SessionLaunch<H>,
    deadline: Moment,
    containment_policy: GroupContainmentPolicy,
    now: Moment,
) -> SessionSpawn<H> {
    match launch {
        SessionLaunch::Started { handle, pid } => SessionSpawn::Publish {
            publication: SessionPublication::start(role, deadline, containment_policy),
            handle,
            pid,
        },
        SessionLaunch::StartedThenFailed { handle, pid } => SessionSpawn::Step(
            cleanup_step(
                SpawnFailure::owning(
                    ProcessError::Spawn { role },
                    handle,
                    pid,
                    None,
                    containment_policy,
                ),
                now,
            ),
        ),
        SessionLaunch::NotStarted => SessionSpawn::Step(
            SpawnStep::Failed(SpawnFailure::before_start(ProcessError::Spawn { role })),
        ),
    }
}

/// Begins the publication of a launched session leader, or the cleanup of one
/// whose launch failed.
pub fn spawn_session_leader_with_inherited_fd_policy<H>(
    role: ChildRole,
    launch: SessionLaunch<H>,
    deadline: Moment,
    containment_policy: GroupContainmentPolicy,
    now: Moment,
) -> (spawn: SessionSpawn<H>)
    ensures
        spawn == session_spawn(role, launch, deadline, containment_policy, now),
{
    match launch {
        SessionLaunch::Started { handle, pid } => SessionSpawn::Publish {
            publication: SessionPublication::begin(role, deadline, containment_policy),
            handle,
            pid,
        },
        SessionLaunch::StartedThenFailed { handle, pid } => {
            let error = ProcessError::Spawn { role };
            match cleanup_unconfirmed_session(handle, pid, error, containment_policy, now) {
                Ok(cleanup) => SessionSpawn::Step(SpawnStep::Cleanup { cleanup, error }),
                Err(failure) => SessionSpawn::Step(SpawnStep::Failed(failure)),
            }
        },
        SessionLaunch::NotStarted => SessionSpawn::Step(
            SpawnStep::Failed(SpawnFailure::not_started(ProcessError::Spawn { role })),
        ),
    }
}

/// How the launch of a real session leader goes on: it is strict.
pub open spec fn provider_session_spawn<H>(
    role: ChildRole,
    launch: SessionLaunch<H>,
    deadline: Moment,
    now: Moment,
) -> SessionSpawn<H> {
    session_spawn(role, launch, deadline, GroupContainmentPolicy::ProductionStrict, now)
}

/// How the launch of a synthetic session leader goes on.
pub open spec fn fixture_session_spawn<H>(
    role: ChildRole,
    launch: SessionLaunch<H>,
    deadline: Moment,
    now: Moment,
) -> SessionSpawn<H> {
    session_spawn(role, launch, deadline, GroupContainmentPolicy::SyntheticFixture, now)
}

/// Begins the publication of a real session leader, which is strict.
pub fn spawn_session_leader_with_inherited_fd<H>(
    role: ChildRole,
    launch: SessionLaunch<H>,
    deadline: Moment,
    now: Moment,
) -> (spawn: SessionSpawn<H>)
    ensures
        spawn == provider_session_spawn(role, launch, deadline, now),
{
    spawn_session_leader_with_inherited_fd_policy(
        role,
        launch,
        deadline,
        GroupContainmentPolicy::ProductionStrict,
        now,
    )
}

/// Begins the publication of a synthetic session leader.
pub fn spawn_fixture_session_leader_with_inherited_fd<H>(
    role: ChildRole,
    launch: SessionLaunch<H>,
    deadline: Moment,
    now: Moment,
) -> (spawn: SessionSpawn<H>)
    ensures
        spawn == fixture_session_spawn(role, launch, deadline, now),
{
    spawn_session_leader_with_inherited_fd_policy(
        role,
        launch,
        deadline,
        GroupContainmentPolicy::SyntheticFixture,
        now,
    )
}

/// The publication after a whole series of events.
pub open spec fn publication_after_all(
    publication: SessionPublication,
    events: Seq<SessionEvent>,
) -> SessionPublication
    decreases events.len(),
{
    if events.len() == 0 {
        publication
    } else {
        publication_after_all(publication, events.drop_last()).after(events.last())
    }
}

/// A session leader is published only on a reading that proved its identity:
/// whatever else happens, without one the child is not published.
pub proof fn law_publication_needs_an_exact_identity(
    role: ChildRole,
    deadline: Moment,
    containment_policy: GroupContainmentPolicy,
    events: Seq<SessionEvent>,
)
    requires
        publication_after_all(
            SessionPublication::start(role, deadline, containment_policy),
            events,
        ).phase == SessionPhase::Exact,
    ensures
        exists|i: int|
            0 <= i < events.len() && #[trigger] events[i] == SessionEvent::Identity(
                Ok(SessionIdentityObservation::Exact),
            ),
    decreases events.len(),
{
    let start = SessionPublication::start(role, deadline, containment_policy);
    if events.len() > 0 {
        let before = publication_after_all(start, events.drop_last());
        if before.phase == SessionPhase::Exact {
            law_publication_needs_an_exact_identity(
                role,
                deadline,
                containment_policy,
                events.drop_last(),
            );
            let i = choose|i: int|
                0 <= i < events.drop_last().len() && #[trigger] events.drop_last()[i]
                    == SessionEvent::Identity(Ok(SessionIdentityObservation::Exact));
            assert(events[i] == SessionEvent::Identity(Ok(SessionIdentityObservation::Exact)));
        } else {
            assert(events[events.len() - 1] == events.last());
        }
    }
}

/// A publication keeps its role and its policy, so a real session leader is
/// published, or cleaned up, as strict.
pub proof fn law_publication_keeps_its_policy(
    publication: SessionPublication,
    events: Seq<SessionEvent>,
)
    ensures
        publication_after_all(publication, events).role == publication.role,
        publication_after_all(publication, events).containment_policy
            == publication.containment_policy,
    decreases events.len(),
{
    if events.len() > 0 {
        law_publication_keeps_its_policy(publication, events.drop_last());
    }
}

} // verus!
