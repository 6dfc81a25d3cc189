//! What holds of every look at a direct child, every signal to it and every
//! reap of it.
use vstd::prelude::*;

use crate::clock::Moment;
use crate::process::child::{
    absence_proven, pause, AppGracefulDrainState, ChildAuthority, ChildState, GroupAbsence,
    GroupContainmentPolicy,
};
use crate::process::error::{AppGracefulDrainFailureStage, ProcessError};
use crate::process::observe::{
    reap_contained, ChildAction, ChildEvent, ContainAndReap, ContainPhase, GroupSignal, ObserveExit,
    ObservePhase, SignalPhase, StopWait, StopWaitPhase,
};
use crate::process::status::{ExitStatus, ReapOutcome, Signal, SystemError, WaitStatus};
use crate::process::termination::{
    reap_app_server, AppShutdown, AppShutdownPhase, Termination, TuiStop, TuiStopForce,
    TuiStopPhase,
};
use crate::protocol::message::{ChildDisposition, ChildRole, StopAction};

verus! {

// ---------------------------------------------------------------------------
// The clock and the record.
// ---------------------------------------------------------------------------

/// A deadline is reached at its own moment and at every later one, and at none
/// before; a later moment lies exactly as far off as was asked, and is missing
/// only where the clock cannot name it.
pub proof fn law_deadlines_are_moments(now: Moment, deadline: Moment, nanos: u64)
    ensures
        now.reached(now),
        now.reached(deadline) <==> deadline.nanos <= now.nanos,
        match now.later(nanos) {
            Some(later) => later.nanos - now.nanos == nanos,
            None => now.nanos + nanos > u64::MAX,
        },
{
}

/// Between two polls there are at most ten milliseconds. A pause never goes past
/// the deadline, and before the deadline there always is one.
pub proof fn law_poll_interval_is_short(now: Moment, deadline: Moment)
    ensures
        0 <= pause(now, deadline) <= 10_000_000,
        now.nanos < deadline.nanos ==> 0 < pause(now, deadline) && now.nanos + pause(now, deadline)
            <= deadline.nanos,
        now.nanos + 10_000_000 <= deadline.nanos ==> pause(now, deadline) == 10_000_000,
        now.nanos < deadline.nanos < now.nanos + 10_000_000 ==> now.nanos + pause(now, deadline)
            == deadline.nanos,
        now.nanos >= deadline.nanos ==> pause(now, deadline) == 0,
{
}

/// A child that was just published is live and untouched: it leads its own
/// group, nothing was done to it, and only an App Server still has its one
/// graceful drain ahead.
pub proof fn law_published_child_is_untouched(
    role: ChildRole,
    authority: ChildAuthority,
    pid: i32,
    readiness_open: bool,
    policy: GroupContainmentPolicy,
)
    ensures
        ({
            let child = ChildState::published(role, authority, pid, readiness_open, policy);
            &&& child.role == role
            &&& child.authority == authority
            &&& child.pid == pid
            &&& child.pgid == pid
            &&& child.readiness_open == readiness_open
            &&& child.containment_policy == policy
            &&& !child.ended()
            &&& child.disposition is None
            &&& !child.containment_swept
            &&& child.stop_action == StopAction::NoAction
            &&& child.drop_deadline is None
            &&& role == ChildRole::AppServer <==> child.app_graceful_drain
                == AppGracefulDrainState::AwaitingInitialTerm
            &&& role == ChildRole::Tui <==> child.app_graceful_drain
                == AppGracefulDrainState::NotApplicable
        }),
{
}

/// A child that has neither been seen to end nor been reaped is live, and
/// nothing else is.
pub proof fn law_ended_means_seen_or_reaped(child: ChildState)
    ensures
        child.observed_exit ==> child.ended(),
        child.disposition is Some ==> child.ended(),
        !child.observed_exit && child.disposition is None ==> !child.ended(),
{
}

/// A group is known to be absent exactly where its own leader was seen dead and
/// nothing else was found in it; a fixture may also rely on a group that was
/// seen to hold no live member.
pub proof fn law_absence_is_observed(
    pid: i32,
    pgid: i32,
    policy: GroupContainmentPolicy,
    leader: WaitStatus,
    absence: GroupAbsence,
)
    ensures
        pid == pgid && absence.leader == Some(leader) && (leader.exited || leader.killed
            || leader.dumped) && absence.zombie_only == Some(true) ==> absence_proven(
            pid,
            pgid,
            policy,
            absence,
        ),
        policy == GroupContainmentPolicy::SyntheticFixture && absence.live_members == Some(false)
            ==> absence_proven(pid, pgid, policy, absence),
        absence_proven(pid, pgid, policy, absence) ==> absence.zombie_only == Some(true)
            || absence.live_members == Some(false),
        pid != pgid && policy == GroupContainmentPolicy::ProductionStrict ==> !absence_proven(
            pid,
            pgid,
            policy,
            absence,
        ),
        absence.live_members != Some(false) && absence.leader == Some(leader) && !leader.exited
            && !leader.killed && !leader.dumped ==> !absence_proven(pid, pgid, policy, absence),
{
}

// ---------------------------------------------------------------------------
// Looking.
// ---------------------------------------------------------------------------

/// A live child is asked for its exit without being reaped. It has ended exactly
/// if the wait shows that it exited, was killed or dumped a core, and nothing
/// but that is written down; a stopped child has not ended.
pub proof fn law_exit_is_seen_where_there_is_one(
    child: ChildState,
    deadline: Moment,
    status: Option<WaitStatus>,
)
    requires
        !child.observed_exit,
        child.disposition is None,
    ensures
        ({
            let look = ObserveExit::start(child, deadline);
            let (seen, after) = look.after(child, ChildEvent::Waited(Ok(status)));
            let ended = status matches Some(status) && (status.exited || status.killed
                || status.dumped);
            &&& look.spec_action() == Some(ChildAction::WaitExit)
            &&& seen.spec_action() is None
            &&& seen.phase == ObservePhase::Done(ended)
            &&& after == (ChildState { observed_exit: ended, ..child })
        }),
{
}

/// A child that is known to have ended is not looked at again.
pub proof fn law_known_exit_needs_no_look(child: ChildState, deadline: Moment)
    requires
        child.observed_exit || child.disposition is Some,
    ensures
        ObserveExit::start(child, deadline).spec_action() is None,
        ObserveExit::start(child, deadline).phase == ObservePhase::Done(true),
{
}

/// An interrupted look is repeated until the deadline and then times out; every
/// other failed look ends at once. The error names the child's role, and the
/// child's record stays as it was.
pub proof fn law_failed_look_is_told(
    child: ChildState,
    deadline: Moment,
    error: SystemError,
    now: Moment,
)
    requires
        !child.observed_exit,
        child.disposition is None,
    ensures
        ({
            let look = ObserveExit::start(child, deadline);
            let (failed, after) = look.after(child, ChildEvent::Waited(Err(error)));
            let (later, kept) = failed.after(after, ChildEvent::Clock(now));
            &&& after == child
            &&& error == SystemError::Interrupted ==> {
                &&& failed.spec_action() == Some(ChildAction::ReadClock)
                &&& kept == child
                &&& now.nanos < deadline.nanos ==> later == look
                &&& now.nanos >= deadline.nanos ==> later.phase == ObservePhase::Failed(
                    ProcessError::WaitTimeout { role: child.role },
                )
            }
            &&& error != SystemError::Interrupted ==> failed.phase == ObservePhase::Failed(
                ProcessError::Wait { role: child.role },
            )
        }),
{
}

// ---------------------------------------------------------------------------
// Signalling.
// ---------------------------------------------------------------------------

/// A signal goes to the whole group of a child that is not reaped, as itself,
/// and a signal that was taken is the end of it. A reaped child gets none.
pub proof fn law_group_signal_is_sent_as_itself(
    child: ChildState,
    signal: Signal,
    action: StopAction,
    deadline: Moment,
)
    ensures
        ({
            let sent = GroupSignal::start(child, signal, action, deadline);
            let (settled, after) = sent.after(child, ChildEvent::Signaled(Ok(())));
            &&& child.disposition is None <==> sent.spec_action() == Some(
                ChildAction::SignalGroup(signal),
            )
            &&& child.disposition is Some <==> sent.phase == SignalPhase::Done
            &&& child.disposition is None ==> settled.phase == SignalPhase::Done && after == child
        }),
{
}

/// A signal to a group that is not there is fine exactly if the child has ended:
/// a child that was not known to have is looked at once more.
pub proof fn law_missing_group_needs_an_ended_child(
    child: ChildState,
    signal: Signal,
    action: StopAction,
    deadline: Moment,
    status: Option<WaitStatus>,
)
    requires
        child.disposition is None,
    ensures
        ({
            let sent = GroupSignal::start(child, signal, action, deadline);
            let (missing, after) = sent.after(
                child,
                ChildEvent::Signaled(Err(SystemError::NoSuchProcess)),
            );
            let (settled, looked) = missing.after(after, ChildEvent::Waited(Ok(status)));
            &&& after == child
            &&& child.observed_exit ==> missing.phase == SignalPhase::Done
            &&& !child.observed_exit ==> {
                let ended = status matches Some(status) && (status.exited || status.killed
                    || status.dumped);
                &&& missing.spec_action() == Some(ChildAction::WaitExit)
                &&& ended ==> settled.phase == SignalPhase::Done
                &&& !ended ==> settled.phase == SignalPhase::Failed(
                    ProcessError::Signal { role: child.role, action },
                )
                &&& looked == (ChildState { observed_exit: ended, ..child })
            }
        }),
{
}

/// A denied signal is fine only where the group was then seen to be absent, and
/// every other refusal of the signal is an error that names role and action. The
/// child's record stays as it was.
pub proof fn law_denied_signal_needs_an_absent_group(
    child: ChildState,
    signal: Signal,
    action: StopAction,
    deadline: Moment,
    absence: GroupAbsence,
)
    requires
        child.disposition is None,
        child.containment_policy == GroupContainmentPolicy::ProductionStrict,
    ensures
        ({
            let sent = GroupSignal::start(child, signal, action, deadline);
            let (denied, after) = sent.after(
                child,
                ChildEvent::Signaled(Err(SystemError::PermissionDenied)),
            );
            let (settled, looked) = denied.after(after, ChildEvent::Absence(absence));
            let (refused, kept) = sent.after(child, ChildEvent::Signaled(Err(SystemError::Other)));
            let (broken, same) = sent.after(
                child,
                ChildEvent::Signaled(Err(SystemError::Interrupted)),
            );
            let gone = child.pid == child.pgid && absence.zombie_only == Some(true) && (
            absence.leader matches Some(leader) && (leader.exited || leader.killed
                || leader.dumped));
            let error = SignalPhase::Failed(ProcessError::Signal { role: child.role, action });
            &&& after == child && looked == child && kept == child && same == child
            &&& denied.spec_action() == Some(ChildAction::ProbeGroupAbsence)
            &&& gone ==> settled.phase == SignalPhase::Done
            &&& !gone ==> settled.phase == error
            &&& refused.phase == error
            &&& broken.phase == error
        }),
{
}

// ---------------------------------------------------------------------------
// Stopping.
// ---------------------------------------------------------------------------

/// A child counts as stopped exactly if a stop was seen and then consumed as a
/// stop; a stop that was seen but cannot be consumed is a failed wait. The
/// child's record stays as it was.
pub proof fn law_stop_is_seen_then_consumed(
    child: ChildState,
    deadline: Moment,
    status: WaitStatus,
    consumed: Result<Option<WaitStatus>, SystemError>,
)
    requires
        status.stopped,
    ensures
        ({
            let wait = StopWait::start(deadline);
            let (seen, after) = wait.after(child, ChildEvent::Waited(Ok(Some(status))));
            let (over, kept) = seen.after(after, ChildEvent::Waited(consumed));
            let stopped = consumed matches Ok(Some(status)) && status.stopped;
            &&& wait.spec_action() == Some(ChildAction::WaitStoppedOrExit)
            &&& seen.spec_action() == Some(ChildAction::ConsumeStop)
            &&& over.spec_action() is None
            &&& over.phase == StopWaitPhase::Done(true) <==> stopped
            &&& !stopped ==> over.phase == StopWaitPhase::Failed(
                ProcessError::Wait { role: child.role },
            )
            &&& after == child && kept == child
        }),
{
}

/// A child that ends instead of stopping is told as an early exit with the code
/// or signal that the wait showed; a child that does neither is asked again
/// until the deadline, and has then not stopped.
pub proof fn law_missed_stop_is_told(
    child: ChildState,
    deadline: Moment,
    status: WaitStatus,
    error: SystemError,
    now: Moment,
)
    requires
        !status.stopped,
    ensures
        ({
            let wait = StopWait::start(deadline);
            let (seen, after) = wait.after(child, ChildEvent::Waited(Ok(Some(status))));
            let (quiet, same) = wait.after(child, ChildEvent::Waited(Ok(None)));
            let (over, kept) = quiet.after(same, ChildEvent::Clock(now));
            let (failed, held) = wait.after(child, ChildEvent::Waited(Err(error)));
            let (again, still) = failed.after(held, ChildEvent::Clock(now));
            &&& same == child && kept == child && held == child && still == child
            &&& status.exited || status.killed || status.dumped ==> {
                &&& after == (ChildState { observed_exit: true, ..child })
                &&& seen.phase matches StopWaitPhase::Failed(
                    ProcessError::EarlyExit { role, disposition },
                ) && role == child.role && match disposition {
                    ChildDisposition::NotStarted => false,
                    ChildDisposition::Exited { code, stop_action } => status.exited && stop_action
                        == StopAction::NoAction && (status.exit_status matches Some(number) ==> (0
                        <= number <= 255 ==> code as int == number as int)),
                    ChildDisposition::Signaled { signal, core_dumped, stop_action } => {
                        &&& !status.exited
                        &&& stop_action == StopAction::NoAction
                        &&& core_dumped == status.dumped
                        &&& status.terminating_signal matches Some(number) ==> (1 <= number <= 127
                            ==> signal as int == number as int)
                    },
                }
            }
            &&& !(status.exited || status.killed || status.dumped) ==> seen == quiet && after
                == child
            &&& quiet.spec_action() == Some(ChildAction::ReadClock)
            &&& now.nanos >= deadline.nanos ==> over.phase == StopWaitPhase::Done(false)
            &&& now.nanos < deadline.nanos ==> {
                &&& over.spec_action() == Some(ChildAction::Sleep { deadline })
                &&& over.after(kept, ChildEvent::Slept) == (wait, child)
            }
            &&& error != SystemError::Interrupted ==> failed.phase == StopWaitPhase::Failed(
                ProcessError::Wait { role: child.role },
            )
            &&& error == SystemError::Interrupted ==> {
                &&& failed.spec_action() == Some(ChildAction::ReadClock)
                &&& now.nanos >= deadline.nanos ==> again.phase == StopWaitPhase::Done(false)
                &&& now.nanos < deadline.nanos ==> again == wait
            }
        }),
{
}

// ---------------------------------------------------------------------------
// Reaping.
// ---------------------------------------------------------------------------

/// A disposition that tells what a consumed exit status held: the code where
/// there was one, else the signal, and what was done to the child.
pub open spec fn tells_the_end(
    disposition: ChildDisposition,
    status: ExitStatus,
    action: StopAction,
) -> bool {
    match disposition {
        ChildDisposition::NotStarted => false,
        ChildDisposition::Exited { code, stop_action } => {
            &&& stop_action == action
            &&& status.code matches Some(number) && {
                &&& 0 <= number <= 255 ==> code as int == number as int
                &&& code == 0 <==> number <= 0
                &&& number > 255 ==> code == 255
            }
        },
        ChildDisposition::Signaled { signal, core_dumped, stop_action } => {
            &&& stop_action == action
            &&& status.code is None
            &&& core_dumped == status.core_dumped
            &&& status.signal matches Some(number) ==> (1 <= number <= 127 ==> signal as int
                == number as int)
            &&& status.signal is None ==> signal == 127
        },
    }
}

/// The App Server has drained exactly if its one TERM was sent and the status
/// that the wait consumed holds a code that is not positive. Every other end
/// loses the drain for good and is told as an invalid disposition; the end
/// itself is written down as it was.
pub proof fn law_drain_is_a_clean_exit(child: ChildState, status: ExitStatus)
    requires
        child.role == ChildRole::AppServer,
        child.disposition is None,
    ensures
        ({
            let (after, reaped) = reap_app_server(child, ReapOutcome::Reaped(status));
            let clean = child.app_graceful_drain == AppGracefulDrainState::InitialTermSent
                && child.stop_action == StopAction::Term && (status.code matches Some(code) && code
                <= 0);
            &&& after == (ChildState {
                disposition: after.disposition,
                observed_exit: true,
                app_graceful_drain: after.app_graceful_drain,
                ..child
            })
            &&& after.disposition matches Some(disposition) && tells_the_end(
                disposition,
                status,
                child.stop_action,
            )
            &&& clean ==> reaped == Ok::<bool, ProcessError>(true) && after.app_graceful_drain
                == AppGracefulDrainState::Drained
            &&& !clean ==> reaped == Err::<bool, ProcessError>(
                ProcessError::AppGracefulDrainUnconfirmed {
                    role: ChildRole::AppServer,
                    stage: AppGracefulDrainFailureStage::InvalidDisposition,
                },
            ) && after.app_graceful_drain == AppGracefulDrainState::Invalid
        }),
{
}

/// An App Server that is still running stays as it is; a failed wait loses its
/// drain. One that was reaped before is never reaped again, and a TUI is refused.
pub proof fn law_drain_without_an_exit(child: ChildState, outcome: ReapOutcome)
    ensures
        child.disposition is Some ==> reap_app_server(child, outcome) == (child, Ok::<
            bool,
            ProcessError,
        >(true)),
        child.disposition is None && child.role == ChildRole::Tui ==> reap_app_server(
            child,
            outcome,
        ) == (child, Err::<bool, ProcessError>(
            ProcessError::RoleMismatch { expected: ChildRole::AppServer, actual: ChildRole::Tui },
        )),
        child.disposition is None && child.role == ChildRole::AppServer ==> {
            &&& outcome is Running ==> reap_app_server(child, outcome) == (child, Ok::<
                bool,
                ProcessError,
            >(false))
            &&& outcome is Failed ==> reap_app_server(child, outcome) == (
                ChildState { app_graceful_drain: AppGracefulDrainState::Invalid, ..child },
                Err::<bool, ProcessError>(ProcessError::Wait { role: ChildRole::AppServer }),
            )
        },
{
}

/// A contained child is reaped with the end that the wait consumed, and nothing
/// but that is written down. Before its group was swept it is not reaped at all,
/// and never twice.
pub proof fn law_contained_child_is_reaped_as_it_ended(
    child: ChildState,
    outcome: ReapOutcome,
    status: ExitStatus,
)
    ensures
        child.disposition is Some ==> reap_contained(child, outcome) == (child, Ok::<
            bool,
            ProcessError,
        >(true)),
        child.disposition is None && !child.containment_swept ==> reap_contained(child, outcome)
            == (child, Ok::<bool, ProcessError>(false)),
        child.disposition is None && child.containment_swept ==> ({
            let (after, reaped) = reap_contained(child, ReapOutcome::Reaped(status));
            &&& reaped == Ok::<bool, ProcessError>(true)
            &&& after == (ChildState {
                disposition: after.disposition,
                observed_exit: true,
                ..child
            })
            &&& after.disposition matches Some(disposition) && tells_the_end(
                disposition,
                status,
                child.stop_action,
            )
            &&& reap_contained(child, ReapOutcome::Running) == (child, Ok::<bool, ProcessError>(
                false,
            ))
            &&& reap_contained(child, ReapOutcome::Failed) == (child, Err::<bool, ProcessError>(
                ProcessError::Wait { role: child.role },
            ))
        }),
{
}

/// A child that has exited is contained by a KILL to its whole group and then
/// reaped: the group counts as swept once the signal was taken, and the child is
/// done with the end that the wait consumed.
pub proof fn law_exited_child_is_swept_then_reaped(
    child: ChildState,
    deadline: Moment,
    status: ExitStatus,
    now: Moment,
)
    requires
        child.disposition is None,
    ensures
        ({
            let (contain, begun) = ContainAndReap::start(child, deadline);
            let (swept, after) = contain.after(begun, ChildEvent::Signaled(Ok(())));
            let (done, reaped) = swept.after(
                after,
                ChildEvent::Reaped(ReapOutcome::Reaped(status)),
            );
            let (waiting, held) = swept.after(after, ChildEvent::Reaped(ReapOutcome::Running));
            let (lost, kept) = swept.after(after, ChildEvent::Reaped(ReapOutcome::Failed));
            let (later, same) = waiting.after(held, ChildEvent::Clock(now));
            &&& contain.spec_action() == Some(ChildAction::SignalGroup(Signal::Kill))
            &&& begun == child
            &&& swept.spec_action() == Some(ChildAction::TryWait)
            &&& after == (ChildState { containment_swept: true, ..child })
            &&& reaped.disposition matches Some(disposition) && tells_the_end(
                disposition,
                status,
                child.stop_action,
            ) && done.phase == ContainPhase::Done(disposition)
            &&& reaped.observed_exit
            &&& waiting.spec_action() == Some(ChildAction::ReadClock)
            &&& lost.phase == ContainPhase::Failed(ProcessError::Wait { role: child.role })
            &&& held == after && kept == after && same == after
            &&& now.nanos >= deadline.nanos ==> later.phase == ContainPhase::Failed(
                ProcessError::WaitTimeout { role: child.role },
            )
            &&& now.nanos < deadline.nanos ==> {
                &&& later.spec_action() == Some(ChildAction::Sleep { deadline })
                &&& later.after(same, ChildEvent::Slept) == (swept, after)
            }
        }),
{
}

// ---------------------------------------------------------------------------
// The App Server's one shutdown.
// ---------------------------------------------------------------------------

/// An App Server that is still live is stopped, sent its one TERM while it is
/// stopped, and continued, each time by a signal to the leader alone. TERM is
/// written down as the stop action, and the drain as begun, once all three were
/// taken.
pub proof fn law_app_server_is_stopped_then_termed_then_continued(
    child: ChildState,
    deadline: Moment,
    quiet: Option<WaitStatus>,
    stop: WaitStatus,
    consumed: WaitStatus,
)
    requires
        child.role == ChildRole::AppServer,
        child.app_graceful_drain == AppGracefulDrainState::AwaitingInitialTerm,
        child.disposition is None,
        !child.observed_exit,
        quiet matches Some(status) ==> !status.exited && !status.killed && !status.dumped,
        stop.stopped,
        consumed.stopped,
    ensures
        ({
            let (shutdown, begun) = AppShutdown::start(child, deadline);
            let (live, looked) = shutdown.after(begun, ChildEvent::Waited(Ok(quiet)));
            let (stopping, sent) = live.after(looked, ChildEvent::Signaled(Ok(())));
            let (seen, same) = stopping.after(sent, ChildEvent::Waited(Ok(Some(stop))));
            let (stopped, marked) = seen.after(same, ChildEvent::Waited(Ok(Some(consumed))));
            let (termed, kept) = stopped.after(marked, ChildEvent::Signaled(Ok(())));
            let (done, drained) = termed.after(kept, ChildEvent::Signaled(Ok(())));
            &&& begun == (ChildState {
                app_graceful_drain: AppGracefulDrainState::Invalid,
                ..child
            })
            &&& shutdown.spec_action() == Some(ChildAction::WaitExit)
            &&& live.spec_action() == Some(ChildAction::SignalLeader(Signal::Stop))
            &&& stopping.spec_action() == Some(ChildAction::WaitStoppedOrExit)
            &&& seen.spec_action() == Some(ChildAction::ConsumeStop)
            &&& stopped.spec_action() == Some(ChildAction::SignalLeader(Signal::Term))
            &&& marked == (ChildState {
                app_graceful_drain: AppGracefulDrainState::Invalid,
                stop_action: StopAction::Term,
                ..child
            })
            &&& termed.spec_action() == Some(ChildAction::SignalLeader(Signal::Cont))
            &&& done.spec_action() is None
            &&& Termination::App(done).spec_outcome() == Some(Ok::<(), ProcessError>(()))
            &&& drained == (ChildState {
                app_graceful_drain: AppGracefulDrainState::InitialTermSent,
                stop_action: StopAction::Term,
                ..child
            })
        }),
{
}

/// Where the one shutdown fails, the failure tells where: an App Server that had
/// exited is reaped first and told as having exited before TERM, or while it was
/// being stopped; one that does not stop in time as such; and a signal that was
/// not taken by the action that it stood for. The drain is lost each time.
pub proof fn law_failed_app_shutdown_tells_where(
    child: ChildState,
    shutdown: AppShutdown,
    error: SystemError,
    ended: WaitStatus,
    outcome: ReapOutcome,
    now: Moment,
)
    requires
        child.role == ChildRole::AppServer,
        child.app_graceful_drain == AppGracefulDrainState::Invalid,
        child.disposition is None,
        !child.observed_exit,
        ended.exited || ended.killed || ended.dumped,
        !ended.stopped,
        now.nanos >= shutdown.deadline.nanos,
    ensures
        ({
            let fresh = AppShutdown {
                phase: AppShutdownPhase::Observe(ObserveExit::start(child, shutdown.deadline)),
                ..shutdown
            };
            let waiting = AppShutdown {
                phase: AppShutdownPhase::AwaitStop(StopWait::start(shutdown.deadline)),
                ..shutdown
            };
            let before = fresh.after(child, ChildEvent::Waited(Ok(Some(ended))));
            let told = before.0.after(before.1, ChildEvent::Reaped(outcome));
            let during = waiting.after(child, ChildEvent::Waited(Ok(Some(ended))));
            let reported = during.0.after(during.1, ChildEvent::Reaped(outcome));
            let quiet = waiting.after(child, ChildEvent::Waited(Ok(None)));
            let late = quiet.0.after(quiet.1, ChildEvent::Clock(now));
            &&& before.0.spec_action() == Some(ChildAction::TryWait)
            &&& told.0.phase == AppShutdownPhase::Failed(
                ProcessError::AppGracefulDrainUnconfirmed {
                    role: ChildRole::AppServer,
                    stage: AppGracefulDrainFailureStage::ExitedBeforeTerm,
                },
            )
            &&& told.1.app_graceful_drain == AppGracefulDrainState::Invalid
            &&& outcome is Reaped ==> told.1.disposition is Some
            &&& during.0.spec_action() == Some(ChildAction::TryWait)
            &&& reported.0.phase == AppShutdownPhase::Failed(
                ProcessError::AppGracefulDrainUnconfirmed {
                    role: ChildRole::AppServer,
                    stage: AppGracefulDrainFailureStage::ExitedWhileStopping,
                },
            )
            &&& reported.1.app_graceful_drain == AppGracefulDrainState::Invalid
            &&& outcome is Reaped ==> reported.1.disposition is Some
            &&& late.0.phase == AppShutdownPhase::Failed(
                ProcessError::AppGracefulDrainUnconfirmed {
                    role: ChildRole::AppServer,
                    stage: AppGracefulDrainFailureStage::StopTimeout,
                },
            )
            &&& late.1 == child
        }),
        ({
            let failed = ChildEvent::Signaled(Err(error));
            let live = AppShutdown { phase: AppShutdownPhase::SendStop, ..shutdown };
            let stopped = AppShutdown { phase: AppShutdownPhase::SendTerm, ..shutdown };
            let termed = AppShutdown { phase: AppShutdownPhase::SendCont, ..shutdown };
            let unsent = AppShutdownPhase::Failed(
                ProcessError::Signal { role: ChildRole::AppServer, action: StopAction::NoAction },
            );
            &&& live.after(child, failed).0.phase == unsent
            &&& live.after(child, failed).1 == child
            &&& stopped.after(child, failed).0.phase == AppShutdownPhase::Failed(
                ProcessError::Signal { role: ChildRole::AppServer, action: StopAction::Term },
            )
            &&& stopped.after(child, failed).1 == child
            &&& termed.after(child, failed).0.phase == unsent
            &&& termed.after(child, failed).1 == child
        }),
{
}

/// The one shutdown is not begun twice: one that is under way or over succeeds
/// again without a signal, one that was lost is refused, and a forced stop of an
/// App Server is forbidden and loses the drain.
pub proof fn law_app_shutdown_is_used_once(child: ChildState, deadline: Moment)
    requires
        child.role == ChildRole::AppServer,
    ensures
        child.app_graceful_drain == AppGracefulDrainState::InitialTermSent
            || child.app_graceful_drain == AppGracefulDrainState::Drained ==> Termination::start(
            child,
            deadline,
        ).0.spec_outcome() == Some(Ok::<(), ProcessError>(())) && Termination::start(
            child,
            deadline,
        ).1 == child,
        child.app_graceful_drain == AppGracefulDrainState::Invalid ==> Termination::start(
            child,
            deadline,
        ).0.spec_outcome() == Some(
            Err::<(), ProcessError>(
                ProcessError::AppGracefulDrainUnconfirmed {
                    role: ChildRole::AppServer,
                    stage: AppGracefulDrainFailureStage::PriorInvalid,
                },
            ),
        ) && Termination::start(child, deadline).1 == child,
        Termination::start_kill(child, deadline).0.spec_outcome() == Some(
            Err::<(), ProcessError>(
                ProcessError::AppGracefulDrainUnconfirmed {
                    role: ChildRole::AppServer,
                    stage: AppGracefulDrainFailureStage::KillForbidden,
                },
            ),
        ),
        Termination::start_kill(child, deadline).0.spec_action() is None,
        Termination::start_kill(child, deadline).1 == (ChildState {
            app_graceful_drain: AppGracefulDrainState::Invalid,
            ..child
        }),
{
}

// ---------------------------------------------------------------------------
// Stopping a TUI.
// ---------------------------------------------------------------------------

/// A TUI is looked at and then sent TERM, or KILL where it is forced, to its
/// whole group. The stop is written down as the cause of its end unless it had
/// ended by itself, and only a KILL that was taken has swept the group.
pub proof fn law_tui_gets_the_signal_it_is_stopped_by(
    child: ChildState,
    deadline: Moment,
    status: Option<WaitStatus>,
    forced: bool,
)
    requires
        child.role == ChildRole::Tui,
        child.disposition is None,
        !child.observed_exit,
    ensures
        ({
            let (stop, begun) = if forced {
                Termination::start_kill(child, deadline)
            } else {
                Termination::start(child, deadline)
            };
            let (looked, marked) = stop.after(begun, ChildEvent::Waited(Ok(status)));
            let (done, after) = looked.after(marked, ChildEvent::Signaled(Ok(())));
            let ended = status matches Some(status) && (status.exited || status.killed
                || status.dumped);
            let (signal, action) = if forced {
                (Signal::Kill, StopAction::Kill)
            } else {
                (Signal::Term, StopAction::Term)
            };
            &&& begun == child
            &&& stop.spec_action() == Some(ChildAction::WaitExit)
            &&& looked.spec_action() == Some(ChildAction::SignalGroup(signal))
            &&& done.spec_action() is None
            &&& done.spec_outcome() == Some(Ok::<(), ProcessError>(()))
            &&& after == (ChildState {
                observed_exit: ended,
                containment_swept: child.containment_swept || forced,
                stop_action: if ended {
                    child.stop_action
                } else {
                    action
                },
                ..child
            })
        }),
{
}

/// A TUI that is known to have ended is still sent the signal, for the rest of
/// its group, but nothing is written down as the cause; a reaped one is left
/// alone.
pub proof fn law_ended_tui_is_stopped_for_its_group(
    child: ChildState,
    deadline: Moment,
    force: TuiStopForce,
)
    requires
        child.observed_exit,
    ensures
        ({
            let (stop, begun) = TuiStop::start(child, force, deadline);
            &&& begun == child
            &&& child.disposition is Some ==> stop.phase == TuiStopPhase::Done
            &&& child.disposition is None ==> stop.spec_action() == Some(
                ChildAction::SignalGroup(
                    match force {
                        TuiStopForce::Term => Signal::Term,
                        TuiStopForce::Kill => Signal::Kill,
                    },
                ),
            )
        }),
{
}

/// A TUI that cannot be looked at is sent the signal all the same, and the
/// failed look is what the stop reports, whatever becomes of the signal. A
/// signal that fails alone is reported with the action that it stood for.
pub proof fn law_failed_tui_stop_is_told(
    child: ChildState,
    deadline: Moment,
    force: TuiStopForce,
    sent: Result<(), SystemError>,
)
    requires
        child.role == ChildRole::Tui,
        child.disposition is None,
        !child.observed_exit,
        sent matches Err(error) ==> error == SystemError::Other || error
            == SystemError::Interrupted,
    ensures
        ({
            let (signal, action) = match force {
                TuiStopForce::Term => (Signal::Term, StopAction::Term),
                TuiStopForce::Kill => (Signal::Kill, StopAction::Kill),
            };
            let (stop, begun) = TuiStop::start(child, force, deadline);
            let blind = stop.after(begun, ChildEvent::Waited(Err(SystemError::Other)));
            let over = blind.0.after(blind.1, ChildEvent::Signaled(sent));
            let live = stop.after(begun, ChildEvent::Waited(Ok(None)));
            let settled = live.0.after(live.1, ChildEvent::Signaled(sent));
            &&& blind.0.spec_action() == Some(ChildAction::SignalGroup(signal))
            &&& blind.1 == (ChildState { stop_action: action, ..child })
            &&& over.0.phase == TuiStopPhase::Failed(ProcessError::Wait { role: ChildRole::Tui })
            &&& over.1.containment_swept == (child.containment_swept || (force
                == TuiStopForce::Kill && sent is Ok))
            &&& live.0.spec_action() == Some(ChildAction::SignalGroup(signal))
            &&& live.1.stop_action == action
            &&& sent is Ok ==> settled.0.phase == TuiStopPhase::Done
            &&& sent is Err ==> settled.0.phase == TuiStopPhase::Failed(
                ProcessError::Signal { role: ChildRole::Tui, action },
            )
            &&& settled.1.containment_swept == (child.containment_swept || (force
                == TuiStopForce::Kill && sent is Ok))
        }),
{
}

} // verus!
