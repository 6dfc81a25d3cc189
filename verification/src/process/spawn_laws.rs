//! What holds of every spawn, of every cleanup after one that failed, and of
//! every release of a child that nobody owns any more.
use vstd::prelude::*;

use crate::clock::Moment;
use crate::process::child::{
    ChildState, GroupAbsence, GroupContainmentPolicy,
};
use crate::process::child_laws::tells_the_end;
use crate::process::error::{
    first_of, first_of_outcome, role_of_error, AppGracefulDrainFailureStage, ProcessError,
};
use crate::process::observe::{ChildAction, ChildEvent};
use crate::process::publish::{
    fixture_session_spawn, fixture_spawn, provider_session_spawn, provider_spawn, session_outcome,
    session_spawn, spawn_outcome, SessionAction, SessionEvent, SessionLaunch, SessionPhase,
    SessionPublication, SessionSpawn, SpawnReadback, SpawnStep,
};
use crate::process::release::{ChildRelease, ReleaseVerdict, SpawnRelease};
use crate::process::spawn::{
    cleaned_failure, SpawnCleanup, SpawnCleanupProof, SpawnFailure, SpawnFailureState,
};
use crate::process::status::{
    ExitStatus, ReapOutcome, SessionIdentityObservation, Signal, SystemError, WaitStatus,
};
use crate::protocol::message::{ChildDisposition, ChildRole, StopAction};

verus! {

// ---------------------------------------------------------------------------
// Errors.
// ---------------------------------------------------------------------------

/// An error that names a child's role is about that child; a wrong role is about
/// the child that was there.
pub proof fn law_error_names_its_child(
    role: ChildRole,
    expected: ChildRole,
    disposition: ChildDisposition,
    action: StopAction,
    stage: AppGracefulDrainFailureStage,
)
    ensures
        role_of_error(ProcessError::Spawn { role }) == role,
        role_of_error(ProcessError::ProcessGroupReadback { role }) == role,
        role_of_error(ProcessError::ProcessGroupMismatch { role }) == role,
        role_of_error(ProcessError::SessionReadback { role }) == role,
        role_of_error(ProcessError::SessionMismatch { role }) == role,
        role_of_error(ProcessError::SessionStartupTimeout { role }) == role,
        role_of_error(ProcessError::SpawnCleanupTimeout { role }) == role,
        role_of_error(ProcessError::SpawnContainmentUnconfirmed { role }) == role,
        role_of_error(ProcessError::ReadinessUnavailable { role }) == role,
        role_of_error(ProcessError::ParentLivenessUnavailable { role }) == role,
        role_of_error(ProcessError::ReadinessTimeout { role }) == role,
        role_of_error(ProcessError::ReadinessIo { role }) == role,
        role_of_error(ProcessError::InvalidReadiness { role }) == role,
        role_of_error(ProcessError::EarlyExit { role, disposition }) == role,
        role_of_error(ProcessError::Signal { role, action }) == role,
        role_of_error(ProcessError::ForwardedSignalMismatch { role }) == role,
        role_of_error(ProcessError::SuspendTimeout { role }) == role,
        role_of_error(ProcessError::Wait { role }) == role,
        role_of_error(ProcessError::WaitTimeout { role }) == role,
        role_of_error(ProcessError::TuiOutputDrain { role }) == role,
        role_of_error(ProcessError::AppGracefulDrainUnconfirmed { role, stage }) == role,
        role_of_error(ProcessError::RoleMismatch { expected, actual: role }) == role,
        role_of_error(ProcessError::RetryAfterResolution) == ChildRole::AppServer,
        role_of_error(ProcessError::Deadline) == ChildRole::AppServer,
{
}

/// The first error of an attempt stays the first, whatever comes later, and an
/// operation that came out well adds none.
pub proof fn law_first_error_stays(first: ProcessError, later: ProcessError)
    ensures
        first_of(None, first) == Some(first),
        first_of(Some(first), later) == Some(first),
        first_of_outcome(Some(first), Err::<(), ProcessError>(later)) == Some(first),
        first_of_outcome(None, Err::<(), ProcessError>(later)) == Some(later),
        first_of_outcome(Some(first), Ok::<(), ProcessError>(())) == Some(first),
        first_of_outcome(None, Ok::<(), ProcessError>(())) is None,
{
}

// ---------------------------------------------------------------------------
// A child that leads its own group.
// ---------------------------------------------------------------------------

/// A spawn that was given up with this error and still owns this child: where
/// the clock can name a moment two seconds off, its cleanup has begun and is to
/// be over by then.
pub open spec fn gave_up_owning<H>(
    step: SpawnStep<H>,
    given: ProcessError,
    handle: H,
    pid: i32,
    group: Option<i32>,
    now: Moment,
) -> bool {
    match step {
        SpawnStep::Published(_) => false,
        SpawnStep::Cleanup { cleanup, error } => {
            &&& error == given
            &&& cleanup.failure.error == given
            &&& cleanup.deadline.nanos == now.nanos + 2_000_000_000
            &&& cleanup.failure.spec_state() == SpawnFailureState::LiveUnannouncedChild
            &&& cleanup.failure.child matches Some(child) && child.handle == handle && child.pid
                == pid && child.expected_group == group && !child.containment_swept
            &&& group is Some ==> cleanup.spec_action() == Some(
                ChildAction::SignalGroup(Signal::Kill),
            )
            &&& group is None ==> cleanup.spec_action() == Some(ChildAction::KillLeader)
        },
        SpawnStep::Failed(failure) => {
            &&& now.nanos + 2_000_000_000 > u64::MAX
            &&& failure.error == given
            &&& failure.spec_state() == SpawnFailureState::LiveUnannouncedChild
            &&& failure.child matches Some(child) && child.handle == handle && child.pid == pid
                && child.expected_group == group && !child.containment_swept
        },
    }
}

/// A child that was published as this process under this policy.
pub open spec fn published_exactly<H>(
    step: SpawnStep<H>,
    role: ChildRole,
    handle: H,
    pid: i32,
    readiness_open: bool,
    policy: GroupContainmentPolicy,
    number: int,
) -> bool {
    step matches SpawnStep::Published(child) && {
        &&& child.handle == handle
        &&& child.state.role == role
        &&& child.state.authority.number() == number
        &&& child.state.pid == pid
        &&& child.state.pgid == pid
        &&& child.state.readiness_open == readiness_open
        &&& child.state.containment_policy == policy
        &&& !child.state.observed_exit
        &&& !child.state.containment_swept
        &&& child.state.disposition is None
        &&& child.state.stop_action == StopAction::NoAction
        &&& child.state.drop_deadline is None
    }
}

/// A process is published exactly if it leads its own group and has the channels
/// that were asked for; each published child takes a number of its own. What
/// else came up is told by the first thing that is wrong, and the process that
/// was started stays owned and is killed.
pub proof fn law_spawn_publishes_what_was_asked_for<H>(
    role: ChildRole,
    handle: H,
    readback: SpawnReadback,
    policy: GroupContainmentPolicy,
    authorities: int,
    now: Moment,
    step: SpawnStep<H>,
    authorities_after: int,
)
    requires
        spawn_outcome(
            role,
            Some((handle, readback)),
            policy,
            authorities,
            now,
            step,
            authorities_after,
        ),
    ensures
        ({
            let leads = readback.process_group == Ok::<i32, SystemError>(readback.pid);
            let piped = readback.parent_liveness_wanted ==> readback.parent_liveness_open;
            let ready = readback.readiness_wanted ==> readback.readiness_open;
            let own = Some(readback.pid);
            &&& leads && piped && ready <==> step is Published
            &&& step is Published ==> published_exactly(
                step,
                role,
                handle,
                readback.pid,
                readback.readiness_wanted,
                policy,
                authorities,
            ) && authorities_after == authorities + 1
            &&& !(step is Published) ==> authorities_after == authorities
            &&& readback.process_group is Err ==> gave_up_owning(
                step,
                ProcessError::ProcessGroupReadback { role },
                handle,
                readback.pid,
                own,
                now,
            )
            &&& readback.process_group matches Ok(group) ==> (group != readback.pid
                ==> gave_up_owning(
                step,
                ProcessError::ProcessGroupMismatch { role },
                handle,
                readback.pid,
                own,
                now,
            ))
            &&& leads && !piped ==> gave_up_owning(
                step,
                ProcessError::ParentLivenessUnavailable { role },
                handle,
                readback.pid,
                own,
                now,
            )
            &&& leads && piped && !ready ==> gave_up_owning(
                step,
                ProcessError::ReadinessUnavailable { role },
                handle,
                readback.pid,
                own,
                now,
            )
        }),
{
}

/// Where nothing was started there is nothing to own, and no number is taken.
pub proof fn law_unstarted_spawn_owns_nothing<H>(
    role: ChildRole,
    policy: GroupContainmentPolicy,
    authorities: int,
    now: Moment,
    step: SpawnStep<H>,
    authorities_after: int,
)
    requires
        spawn_outcome(role, None, policy, authorities, now, step, authorities_after),
    ensures
        authorities_after == authorities,
        step matches SpawnStep::Failed(failure) && failure.error == (ProcessError::Spawn { role })
            && failure.child is None && failure.spec_state() == SpawnFailureState::NotStarted,
{
}

/// A real provider child is published as strict, with a readiness channel
/// exactly if one was asked for, and needs no pipe; a synthetic one is published
/// as a fixture, and needs the pipe where one was asked for. Neither depends on
/// what the readback says was wanted.
pub proof fn law_provider_children_are_strict<H>(
    role: ChildRole,
    readiness: bool,
    pipe: bool,
    handle: H,
    readback: SpawnReadback,
    authorities: int,
    now: Moment,
    step: SpawnStep<H>,
    authorities_after: int,
)
    ensures
        ({
            let leads = readback.process_group == Ok::<i32, SystemError>(readback.pid);
            let ready = readiness ==> readback.readiness_open;
            let spawned = Some((handle, readback));
            &&& provider_spawn(
                role,
                readiness,
                spawned,
                authorities,
                now,
                step,
                authorities_after,
            ) ==> {
                &&& step is Published <==> leads && ready
                &&& step is Published ==> published_exactly(
                    step,
                    role,
                    handle,
                    readback.pid,
                    readiness,
                    GroupContainmentPolicy::ProductionStrict,
                    authorities,
                )
            }
            &&& fixture_spawn(
                role,
                readiness,
                pipe,
                spawned,
                authorities,
                now,
                step,
                authorities_after,
            ) ==> {
                &&& step is Published <==> leads && ready && (pipe
                    ==> readback.parent_liveness_open)
                &&& step is Published ==> published_exactly(
                    step,
                    role,
                    handle,
                    readback.pid,
                    readiness,
                    GroupContainmentPolicy::SyntheticFixture,
                    authorities,
                )
            }
        }),
{
}

// ---------------------------------------------------------------------------
// A child that leads its own session.
// ---------------------------------------------------------------------------

/// A launched session leader is looked at first; one whose launch failed after
/// it had started is owned and killed, without a signal to any group; and where
/// nothing started there is nothing to own. A real one is strict.
pub proof fn law_session_launch_goes_on<H>(
    role: ChildRole,
    handle: H,
    pid: i32,
    deadline: Moment,
    policy: GroupContainmentPolicy,
    now: Moment,
)
    ensures
        session_spawn(
            role,
            SessionLaunch::Started { handle, pid },
            deadline,
            policy,
            now,
        ) matches SessionSpawn::Publish { publication, handle: kept, pid: same } && {
            &&& kept == handle
            &&& same == pid
            &&& publication.role == role
            &&& publication.containment_policy == policy
            &&& publication.deadline == deadline
            &&& publication.spec_action() == Some(SessionAction::Probe)
        },
        session_spawn(
            role,
            SessionLaunch::StartedThenFailed { handle, pid },
            deadline,
            policy,
            now,
        ) matches SessionSpawn::Step(step) && gave_up_owning(
            step,
            ProcessError::Spawn { role },
            handle,
            pid,
            None,
            now,
        ),
        session_spawn(
            role,
            SessionLaunch::<H>::NotStarted,
            deadline,
            policy,
            now,
        ) matches SessionSpawn::Step(SpawnStep::Failed(failure)) && failure.error
            == (ProcessError::Spawn { role }) && failure.child is None && failure.spec_state()
            == SpawnFailureState::NotStarted,
        provider_session_spawn(
            role,
            SessionLaunch::Started { handle, pid },
            deadline,
            now,
        ) matches SessionSpawn::Publish { publication, .. } && publication.containment_policy
            == GroupContainmentPolicy::ProductionStrict,
        fixture_session_spawn(
            role,
            SessionLaunch::Started { handle, pid },
            deadline,
            now,
        ) matches SessionSpawn::Publish { publication, .. } && publication.containment_policy
            == GroupContainmentPolicy::SyntheticFixture,
{
}

/// A launcher is published on the reading that shows it to lead its session. A
/// pending one is looked at again, after a pause, as long as it has not exited
/// and the deadline has not come; each other end is told as what it was.
pub proof fn law_session_is_awaited(
    publication: SessionPublication,
    now: Moment,
    status: ExitStatus,
    error: ProcessError,
)
    ensures
        publication.phase is Probe ==> {
            let exact = publication.after(
                SessionEvent::Identity(Ok(SessionIdentityObservation::Exact)),
            );
            let pending = publication.after(
                SessionEvent::Identity(Ok(SessionIdentityObservation::Pending)),
            );
            let exited = pending.after(SessionEvent::Reaped(ReapOutcome::Reaped(status)));
            let lost = pending.after(SessionEvent::Reaped(ReapOutcome::Failed));
            let running = pending.after(SessionEvent::Reaped(ReapOutcome::Running));
            let clocked = running.after(SessionEvent::Clock(now));
            &&& publication.spec_action() == Some(SessionAction::Probe)
            &&& exact.phase == SessionPhase::Exact
            &&& pending.spec_action() == Some(SessionAction::TryWait)
            &&& publication.after(SessionEvent::Identity(Err(error))).phase
                == SessionPhase::Failed(error)
            &&& exited.phase == SessionPhase::Exited(status)
            &&& lost.phase == SessionPhase::Failed(ProcessError::Wait { role: publication.role })
            &&& running.spec_action() == Some(SessionAction::ReadClock)
            &&& now.nanos >= publication.deadline.nanos ==> clocked.phase == SessionPhase::Failed(
                ProcessError::SessionStartupTimeout { role: publication.role },
            )
            &&& now.nanos < publication.deadline.nanos ==> {
                &&& clocked.spec_action() == Some(
                    SessionAction::Sleep { deadline: publication.deadline },
                )
                &&& clocked.after(SessionEvent::Slept) == publication
            }
        },
{
}

/// A session leader is published as itself, without a readiness channel, and
/// takes a number. One that exited first is told as no session leader, with the
/// end that it came to and nothing left to own; any other failure owns the child
/// and signals no group.
pub proof fn law_session_is_published_or_owned<H>(
    publication: SessionPublication,
    handle: H,
    pid: i32,
    authorities: int,
    now: Moment,
    step: SpawnStep<H>,
    authorities_after: int,
)
    requires
        publication.spec_action() is None,
        session_outcome(
            publication,
            handle,
            pid,
            authorities,
            now,
            step,
            authorities_after,
        ),
    ensures
        publication.phase is Exact <==> step is Published,
        authorities_after == authorities + (if step is Published {
            1int
        } else {
            0int
        }),
        step is Published ==> published_exactly(
            step,
            publication.role,
            handle,
            pid,
            false,
            publication.containment_policy,
            authorities,
        ),
        publication.phase matches SessionPhase::Exited(status) ==> (step matches SpawnStep::Failed(
            failure,
        ) && failure.error == (ProcessError::SessionMismatch { role: publication.role })
            && failure.child is None && failure.spec_state() == SpawnFailureState::ReapedUnannounced
            && (failure.disposition matches Some(exit) && tells_the_end(
            exit.kept(),
            status,
            StopAction::NoAction,
        ))),
        publication.phase matches SessionPhase::Failed(error) ==> gave_up_owning(
            step,
            error,
            handle,
            pid,
            None,
            now,
        ),
{
    if let SessionPhase::Exited(status) = publication.phase {
        crate::process::spawn::law_unannounced_exit_is_kept(
            crate::process::status::disposition_of(status, StopAction::NoAction),
        );
    }
}

// ---------------------------------------------------------------------------
// Cleanup.
// ---------------------------------------------------------------------------

/// A failure is told by what is left of it: nothing where nothing started, a
/// reaped child where its end is known and the handle is gone, and a live child
/// in every other case.
pub proof fn law_failure_tells_what_is_left<H>(failure: SpawnFailure<H>)
    ensures
        failure.spec_state() == SpawnFailureState::NotStarted <==> !failure.started,
        failure.spec_state() == SpawnFailureState::ReapedUnannounced <==> failure.started
            && failure.disposition is Some && failure.child is None,
        failure.started && failure.child is Some ==> failure.spec_state()
            == SpawnFailureState::LiveUnannouncedChild,
        failure.started && failure.disposition is None ==> failure.spec_state()
            == SpawnFailureState::LiveUnannouncedChild,
{
}

/// A failed child whose group is known is cleaned up by a KILL to the group, a
/// kill of the leader, and a reap: the proof tells the end that the wait
/// consumed, and KILL as what was done.
pub proof fn law_cleanup_sweeps_kills_and_reaps<H>(
    error: ProcessError,
    handle: H,
    pid: i32,
    group: i32,
    policy: GroupContainmentPolicy,
    deadline: Moment,
    missing: bool,
    status: ExitStatus,
    now: Moment,
)
    ensures
        ({
            let owned = SpawnFailure::owning(error, handle, pid, Some(group), policy);
            let begun = SpawnCleanup::start(owned, deadline);
            let swept = begun.after(
                ChildEvent::Signaled(
                    if missing {
                        Err(SystemError::NoSuchProcess)
                    } else {
                        Ok(())
                    },
                ),
            );
            let killed = swept.after(ChildEvent::LeaderKilled);
            let reaped = killed.after(ChildEvent::Reaped(ReapOutcome::Reaped(status)));
            let lost = killed.after(ChildEvent::Reaped(ReapOutcome::Failed));
            let running = killed.after(ChildEvent::Reaped(ReapOutcome::Running));
            let clocked = running.after(ChildEvent::Clock(now));
            &&& begun.spec_action() == Some(ChildAction::SignalGroup(Signal::Kill))
            &&& swept.spec_action() == Some(ChildAction::KillLeader)
            &&& swept.failure.swept()
            &&& killed.spec_action() == Some(ChildAction::TryWait)
            &&& reaped.spec_action() is None
            &&& reaped.result() matches Ok(cleaned) && cleaned.unannounced() matches Some(
                disposition,
            ) && tells_the_end(disposition, status, StopAction::Kill)
            &&& lost.spec_action() is None
            &&& lost.result() matches Err(failure) && failure.error == error && (
            failure.child matches Some(child) && child.handle == handle && child.drop_deadline
                == Some(deadline) && child.containment_swept)
            &&& running.spec_action() == Some(ChildAction::ReadClock)
            &&& now.nanos >= deadline.nanos ==> clocked.result() == lost.result()
                && clocked.spec_action() is None
            &&& now.nanos < deadline.nanos ==> {
                &&& clocked.spec_action() == Some(ChildAction::Sleep { deadline })
                &&& clocked.after(ChildEvent::Slept) == killed
            }
        }),
{
    let disposition = crate::process::status::disposition_of(status, StopAction::Kill);
    crate::process::spawn::law_cleanup_proof_tells_the_disposition(disposition);
}

/// A group that cannot be signalled is not swept, unless it was seen to be
/// absent after the signal was denied. An unswept child has its leader killed,
/// is not waited for, stays owned, and containment is told as unconfirmed.
pub proof fn law_unswept_child_is_retained<H>(
    error: ProcessError,
    handle: H,
    pid: i32,
    group: i32,
    deadline: Moment,
    absence: GroupAbsence,
)
    ensures
        ({
            let owned = SpawnFailure::owning(
                error,
                handle,
                pid,
                Some(group),
                GroupContainmentPolicy::ProductionStrict,
            );
            let begun = SpawnCleanup::start(owned, deadline);
            let broken = begun.after(ChildEvent::Signaled(Err(SystemError::Other)));
            let stuck = begun.after(ChildEvent::Signaled(Err(SystemError::Interrupted)));
            let denied = begun.after(ChildEvent::Signaled(Err(SystemError::PermissionDenied)));
            let probed = denied.after(ChildEvent::Absence(absence));
            let over = broken.after(ChildEvent::LeaderKilled);
            let gone = pid == group && absence.zombie_only == Some(true) && (
            absence.leader matches Some(leader) && (leader.exited || leader.killed
                || leader.dumped));
            &&& broken.spec_action() == Some(ChildAction::KillLeader)
            &&& stuck == broken
            &&& denied.spec_action() == Some(ChildAction::ProbeGroupAbsence)
            &&& probed.spec_action() == Some(ChildAction::KillLeader)
            &&& probed.failure.swept() <==> gone
            &&& !gone ==> probed == broken
            &&& gone ==> probed.after(ChildEvent::LeaderKilled).spec_action() == Some(
                ChildAction::TryWait,
            )
            &&& over.spec_action() is None
            &&& over.result() matches Err(failure) && failure.error
                == (ProcessError::SpawnContainmentUnconfirmed { role: role_of_error(error) }) && (
            failure.child matches Some(child) && child.handle == handle && child.drop_deadline
                == Some(deadline) && !child.containment_swept)
        }),
{
}

/// Where nothing started the cleanup is over at once, and where the child was
/// reaped it repeats the end that is known; a child that is held although its
/// end was consumed is never touched again.
pub proof fn law_cleanup_of_what_is_over<H>(failure: SpawnFailure<H>, deadline: Moment)
    ensures
        ({
            let cleanup = SpawnCleanup::start(failure, deadline);
            &&& !failure.started ==> cleanup.spec_action() is None && (cleanup.result() matches Ok(
                cleaned,
            ) && cleaned.unannounced() is None)
            &&& failure.started && failure.child is None ==> cleanup.spec_action() is None && (
            failure.disposition matches Some(exit) ==> (cleanup.result() matches Ok(cleaned)
                && cleaned.unannounced() == Some(exit.kept())))
            &&& failure.started && failure.child is None && failure.disposition is None
                ==> cleanup.result() is Err
            &&& failure.started && failure.child is Some && failure.disposition is Some
                ==> cleanup.spec_action() is None && cleanup.result() is Err
        }),
{
    crate::process::spawn::law_cleanup_proof_tells_the_disposition(ChildDisposition::NotStarted);
    if let Some(exit) = failure.disposition {
        crate::process::spawn::law_cleanup_proof_tells_the_disposition(exit.kept());
    }
}

/// A spawn reports its own error once its child was reaped. Where the child is
/// still owned, unconfirmed containment is reported as such, and anything else
/// as a cleanup that ran out of time; the child stays with the failure.
pub proof fn law_cleaned_spawn_reports_its_own_error<H>(
    cleaned: SpawnCleanupProof,
    failure: SpawnFailure<H>,
    original: ProcessError,
    role: ChildRole,
)
    ensures
        ({
            let over = cleaned_failure(Ok::<SpawnCleanupProof, SpawnFailure<H>>(cleaned), original);
            let held = cleaned_failure(Err::<SpawnCleanupProof, SpawnFailure<H>>(failure), original);
            &&& over.error == original
            &&& over.spec_state() == SpawnFailureState::ReapedUnannounced
            &&& cleaned.unannounced() matches Some(disposition) ==> (over.disposition matches Some(
                exit,
            ) && exit.kept() == disposition)
            &&& failure.error == (ProcessError::SpawnContainmentUnconfirmed { role }) ==> held
                == failure
            &&& !(failure.error is SpawnContainmentUnconfirmed) ==> held.error
                == (ProcessError::SpawnCleanupTimeout { role: role_of_error(original) })
            &&& held.child == failure.child
            &&& held.disposition == failure.disposition
            &&& held.started == failure.started
        }),
{
    if let Some(disposition) = cleaned.unannounced() {
        crate::process::spawn::law_unannounced_exit_is_kept(disposition);
    }
}

// ---------------------------------------------------------------------------
// Release.
// ---------------------------------------------------------------------------

/// A TUI that nobody owns any more, and that still runs, is swept by a KILL to
/// its group, killed and reaped. KILL is written down as what was done, and the
/// release ends well.
pub proof fn law_abandoned_tui_is_swept_killed_and_reaped(
    child: ChildState,
    deadline: Moment,
    status: ExitStatus,
)
    requires
        child.role == ChildRole::Tui,
        child.disposition is None,
        !child.observed_exit,
        !child.containment_swept,
        child.drop_deadline == Some(deadline),
    ensures
        ({
            let a = ChildRelease::start(child);
            let b = a.0.after(a.1, ChildEvent::Waited(Ok(None)));
            let c = b.0.after(b.1, ChildEvent::Signaled(Ok(())));
            let d = c.0.after(c.1, ChildEvent::LeaderKilled);
            let e = d.0.after(d.1, ChildEvent::Reaped(ReapOutcome::Reaped(status)));
            &&& a.0.spec_action() == Some(ChildAction::WaitExit)
            &&& b.0.spec_action() == Some(ChildAction::SignalGroup(Signal::Kill))
            &&& b.1 == (ChildState { stop_action: StopAction::Kill, ..child })
            &&& c.0.spec_action() == Some(ChildAction::KillLeader)
            &&& c.1.containment_swept
            &&& d.0.spec_action() == Some(ChildAction::TryWait)
            &&& e.0.spec_verdict() == Some(ReleaseVerdict::Released)
            &&& e.1.observed_exit
            &&& e.1.disposition matches Some(disposition) && tells_the_end(
                disposition,
                status,
                StopAction::Kill,
            )
        }),
{
}

/// A TUI that had ended by itself is released with what was done to it before;
/// one whose look failed counts as stopped by the release.
pub proof fn law_release_keeps_a_natural_end(
    child: ChildState,
    deadline: Moment,
    ended: WaitStatus,
)
    requires
        child.role == ChildRole::Tui,
        child.disposition is None,
        !child.observed_exit,
        !child.containment_swept,
        child.drop_deadline == Some(deadline),
        ended.exited || ended.killed || ended.dumped,
    ensures
        ({
            let a = ChildRelease::start(child);
            let seen = a.0.after(a.1, ChildEvent::Waited(Ok(Some(ended))));
            let blind = a.0.after(a.1, ChildEvent::Waited(Err(SystemError::Other)));
            &&& seen.0.spec_action() == Some(ChildAction::SignalGroup(Signal::Kill))
            &&& seen.1 == (ChildState { observed_exit: true, ..child })
            &&& blind.0.spec_action() == Some(ChildAction::SignalGroup(Signal::Kill))
            &&& blind.1 == (ChildState { stop_action: StopAction::Kill, ..child })
        }),
{
}

/// A release without a deadline of its own gets two seconds. One that cannot
/// name a deadline is fatal; a reaped TUI needs nothing at all.
pub proof fn law_release_has_two_seconds(child: ChildState, now: Moment)
    requires
        child.role == ChildRole::Tui,
    ensures
        child.disposition is Some ==> ChildRelease::start(child).0.spec_verdict() == Some(
            ReleaseVerdict::Released,
        ) && ChildRelease::start(child).1 == child,
        child.disposition is None && child.drop_deadline is None ==> ({
            let (release, begun) = ChildRelease::start(child);
            let (clocked, after) = release.after(begun, ChildEvent::Clock(now));
            &&& begun == child
            &&& release.spec_action() == Some(ChildAction::ReadClock)
            &&& now.nanos + 2_000_000_000 > u64::MAX ==> clocked.spec_verdict() == Some(
                ReleaseVerdict::Fatal,
            )
            &&& now.nanos + 2_000_000_000 <= u64::MAX ==> clocked == ChildRelease::start(
                ChildState {
                    drop_deadline: Some(Moment { nanos: (now.nanos + 2_000_000_000) as u64 }),
                    ..child
                },
            ).0 && clocked.spec_verdict() is None
        }),
{
}

/// A release that cannot reap its child in time, or at all, is fatal, and so is
/// one that reaped a child whose group it could not sweep.
pub proof fn law_failed_release_is_fatal(
    child: ChildState,
    release: ChildRelease,
    deadline: Moment,
    status: ExitStatus,
    now: Moment,
)
    requires
        release.phase == (crate::process::release::ReleasePhase::Wait { deadline }),
    ensures
        ({
            let reaped = release.after(child, ChildEvent::Reaped(ReapOutcome::Reaped(status)));
            let lost = release.after(child, ChildEvent::Reaped(ReapOutcome::Failed));
            let running = release.after(child, ChildEvent::Reaped(ReapOutcome::Running));
            let clocked = running.0.after(running.1, ChildEvent::Clock(now));
            &&& release.spec_action() == Some(ChildAction::TryWait)
            &&& reaped.0.spec_verdict() == Some(
                if child.containment_swept {
                    ReleaseVerdict::Released
                } else {
                    ReleaseVerdict::Fatal
                },
            )
            &&& lost.0.spec_verdict() == Some(ReleaseVerdict::Fatal)
            &&& running.0.spec_action() == Some(ChildAction::ReadClock)
            &&& now.nanos >= deadline.nanos ==> clocked.0.spec_verdict() == Some(
                ReleaseVerdict::Fatal,
            )
            &&& now.nanos < deadline.nanos ==> {
                &&& clocked.0.spec_action() == Some(ChildAction::Sleep { deadline })
                &&& clocked.0.after(clocked.1, ChildEvent::Slept) == (release, child)
            }
        }),
{
}

/// A failed spawn that nobody owns any more and whose group is known is swept,
/// killed and reaped within two seconds, or by the deadline that its cleanup
/// left. It is released exactly if the sweep was proven.
pub proof fn law_abandoned_spawn_is_swept_killed_and_reaped<H>(
    error: ProcessError,
    handle: H,
    pid: i32,
    group: i32,
    policy: GroupContainmentPolicy,
    swept: bool,
    now: Moment,
    status: ExitStatus,
)
    requires
        now.nanos + 2_000_000_000 <= u64::MAX,
    ensures
        ({
            let owned = SpawnFailure::owning(error, handle, pid, Some(group), policy);
            let a = SpawnRelease::start(owned);
            let b = a.after(
                ChildEvent::Signaled(
                    if swept {
                        Ok(())
                    } else {
                        Err(SystemError::Other)
                    },
                ),
            );
            let c = b.after(ChildEvent::Clock(now));
            let d = c.after(ChildEvent::LeaderKilled);
            let e = d.after(ChildEvent::Reaped(ReapOutcome::Reaped(status)));
            let running = d.after(ChildEvent::Reaped(ReapOutcome::Running));
            let lost = d.after(ChildEvent::Reaped(ReapOutcome::Failed));
            let late = running.after(
                ChildEvent::Clock(Moment { nanos: (now.nanos + 2_000_000_000) as u64 }),
            );
            &&& a.spec_action() == Some(ChildAction::SignalGroup(Signal::Kill))
            &&& b.spec_action() == Some(ChildAction::ReadClock)
            &&& c.spec_action() == Some(ChildAction::KillLeader)
            &&& d.spec_action() == Some(ChildAction::TryWait)
            &&& e.spec_verdict() == Some(
                if swept {
                    ReleaseVerdict::Released
                } else {
                    ReleaseVerdict::Fatal
                },
            )
            &&& e.failure.disposition matches Some(exit) && tells_the_end(
                exit.kept(),
                status,
                StopAction::Kill,
            )
            &&& lost.spec_verdict() == Some(ReleaseVerdict::Fatal)
            &&& running.spec_action() == Some(ChildAction::ReadClock)
            &&& late.spec_verdict() == Some(ReleaseVerdict::Fatal)
        }),
{
    let disposition = crate::process::status::disposition_of(status, StopAction::Kill);
    crate::process::spawn::law_unannounced_exit_is_kept(disposition);
}

/// A failed spawn with nothing left to own is released at once; one whose end
/// was consumed while it is still held is fatal; and one whose group is unknown
/// has no group signalled.
pub proof fn law_abandoned_spawn_without_a_group<H>(failure: SpawnFailure<H>)
    ensures
        failure.child is None ==> SpawnRelease::start(failure).spec_verdict() == Some(
            ReleaseVerdict::Released,
        ),
        failure.child is Some && failure.disposition is Some ==> SpawnRelease::start(
            failure,
        ).spec_verdict() == Some(ReleaseVerdict::Fatal),
        failure.disposition is None && (failure.child matches Some(child)
            && child.expected_group is None) ==> (match SpawnRelease::start(failure).spec_action() {
            Some(ChildAction::ReadClock) => true,
            Some(ChildAction::KillLeader) => true,
            _ => false,
        }),
{
}

} // verus!
