//! What holds of every attempt to shut the children down, and of its end.
use vstd::prelude::*;

use crate::clock::Moment;
use crate::process::attempt::{
    begun_app_server, begun_attempt, begun_tui, begun_tui_after_eof, begun_tui_after_signal,
    completes, deadlines_from, drain_shown, forwarded_start, reports, retained_after, role_checked,
};
use crate::process::child::{
    AppGracefulDrainState, ChildState, ForwardedTuiSignal, ManagedGroupChild,
};
use crate::process::child_laws::{law_tui_gets_the_signal_it_is_stopped_by, tells_the_end};
use crate::process::error::{AppGracefulDrainFailureStage, ProcessError};
use crate::process::observe::{ChildAction, ChildEvent, ObserveExit};
use crate::process::outcome::{ReapedChildren, ShutdownOutcome, TuiShutdownMode};
use crate::process::shutdown::{
    first_unreaped, reaped_by_role, same_owner, slot_disposition, slot_observed, slot_outcome,
    slot_reaped, wait_due, PairAction, PairEvent, PairPhase, ShutdownPair, Slot, UnreapedChildren,
};
use crate::process::shutdown_laws::law_attempt_begins_consistently;
use crate::process::status::{ExitStatus, ReapOutcome, Signal, WaitStatus};
use crate::process::termination::Termination;
use crate::protocol::message::{ChildDisposition, ChildRole, StopAction};

verus! {

// ---------------------------------------------------------------------------
// Beginning.
// ---------------------------------------------------------------------------

/// The grace time runs from now, and the forced time from its end; a deadline is
/// missing exactly where the clock cannot name it.
pub proof fn law_force_follows_grace(now: Moment, grace_nanos: int, forced_nanos: int)
    requires
        0 <= grace_nanos,
        0 <= forced_nanos,
    ensures
        ({
            let (grace, hard) = deadlines_from(now, grace_nanos, forced_nanos);
            &&& grace matches Some(deadline) ==> deadline.nanos == now.nanos + grace_nanos
            &&& hard matches Some(deadline) ==> (grace matches Some(first) && deadline.nanos
                == first.nanos + forced_nanos)
            &&& grace is None <==> now.nanos + grace_nanos > u64::MAX
            &&& hard is None <==> now.nanos + grace_nanos + forced_nanos > u64::MAX
        }),
{
}

/// An attempt without both deadlines is not begun: it is told as a bad deadline,
/// both children stay owned, and an App Server that has not drained no longer
/// can.
pub proof fn law_attempt_needs_both_deadlines<H>(
    tui: Option<ManagedGroupChild<H>>,
    app_server: Option<ManagedGroupChild<H>>,
    grace: Option<Moment>,
    hard: Option<Moment>,
    mode: TuiShutdownMode,
    first_error: Option<ProcessError>,
    has_progress: bool,
)
    ensures
        ({
            let begun = begun_attempt(
                tui,
                app_server,
                (grace, hard),
                mode,
                first_error,
                has_progress,
            );
            &&& begun is Ok <==> grace is Some && hard is Some
            &&& begun matches Err(kept) ==> {
                &&& kept.error == ProcessError::Deadline
                &&& kept.tui_shutdown_mode == mode
                &&& !kept.resolved
                &&& kept.tui is Some <==> tui is Some
                &&& kept.app_server is Some <==> app_server is Some
                &&& tui matches Some(child) ==> (kept.tui matches Some(held) && held.handle
                    == child.handle && held.state.disposition == child.state.disposition)
                &&& app_server matches Some(child) ==> (kept.app_server matches Some(held)
                    && held.handle == child.handle && held.state.disposition
                    == child.state.disposition && held.state.drop_deadline is None && (
                child.state.role == ChildRole::AppServer && child.state.app_graceful_drain
                    != AppGracefulDrainState::Drained ==> held.state.app_graceful_drain
                    == AppGracefulDrainState::Invalid) && (child.state.app_graceful_drain
                    == AppGracefulDrainState::Drained ==> held.state.app_graceful_drain
                    == AppGracefulDrainState::Drained))
            }
        }),
{
}

/// A child in the wrong slot is told as such, unless there was an error before.
pub proof fn law_wrong_role_is_told<H>(
    child: ManagedGroupChild<H>,
    expected: ChildRole,
    first: ProcessError,
)
    ensures
        role_checked(None::<ManagedGroupChild<H>>, expected, None) is None,
        role_checked(Some(child), expected, Some(first)) == Some(first),
        child.state.role == expected ==> role_checked(Some(child), expected, None) is None,
        child.state.role != expected ==> role_checked(Some(child), expected, None) == Some(
            ProcessError::RoleMismatch { expected, actual: child.state.role },
        ),
{
}

/// A TUI that runs is looked at and then sent TERM, unless a signal was already
/// forwarded to it or its output has ended: then the attempt begins with the
/// output.
pub proof fn law_tui_shutdown_begins_by_its_mode<H>(
    tui: ManagedGroupChild<H>,
    grace: Moment,
    hard: Moment,
)
    requires
        tui.state.role == ChildRole::Tui,
        tui.state.disposition is None,
        !tui.state.observed_exit,
    ensures
        begun_tui(tui, (Some(grace), Some(hard))) matches Ok(pair) && ({
            let looked = pair.after(PairEvent::Child(ChildEvent::Waited(Ok(None))));
            let sent = looked.after(PairEvent::Child(ChildEvent::Signaled(Ok(()))));
            &&& pair.grace_deadline == grace && pair.hard_deadline == hard
            &&& pair.first_error is None
            &&& pair.spec_action() == Some(
                PairAction::Child { slot: Slot::Tui, action: ChildAction::WaitExit },
            )
            &&& looked.spec_action() == Some(
                PairAction::Child {
                    slot: Slot::Tui,
                    action: ChildAction::SignalGroup(Signal::Term),
                },
            )
            &&& sent.spec_action() == Some(PairAction::Progress)
            &&& sent.tui matches Some(child) && child.handle == tui.handle
                && child.state.stop_action == StopAction::Term
            &&& sent.first_error is None
        }),
        begun_tui_after_eof(tui, (Some(grace), Some(hard))) matches Ok(pair)
            && pair.grace_deadline == grace && pair.hard_deadline == hard && pair.spec_action()
            == Some(PairAction::Progress) && pair.first_error is None && (
        pair.tui matches Some(child) && child.handle == tui.handle && child.state.stop_action
            == tui.state.stop_action),
{
    reveal(ShutdownPair::enter_grace);
    reveal(ShutdownPair::after_tui_event);
}

/// A forwarded signal counts for the very TUI that it was forwarded to, by its
/// numbers and its identity: that TUI gets no TERM. For any other it is told as
/// a mismatch, and the TUI gets its TERM.
pub proof fn law_forwarded_signal_counts_for_its_tui<H>(
    tui: ManagedGroupChild<H>,
    forwarded: ForwardedTuiSignal,
    grace: Moment,
    hard: Moment,
)
    requires
        tui.state.role == ChildRole::Tui,
        tui.state.disposition is None,
        !tui.state.observed_exit,
    ensures
        ({
            let same = forwarded.identity() == (ChildRole::Tui, tui.state.pid, tui.state.pgid)
                && forwarded.bound_to() == tui.state.authority;
            let (mode, error) = forwarded_start(forwarded, tui.state);
            &&& same ==> mode == TuiShutdownMode::SignalAlreadyForwarded(forwarded.forwarded())
                && error is None
            &&& !same ==> mode == TuiShutdownMode::StartWithTerm && error == Some(
                ProcessError::ForwardedSignalMismatch { role: ChildRole::Tui },
            )
            &&& begun_tui_after_signal(tui, forwarded, (Some(grace), Some(hard))) matches Ok(pair)
                && pair.first_error == error && (same ==> pair.spec_action() == Some(
                PairAction::Progress,
            )) && (!same ==> pair.spec_action() == Some(
                PairAction::Child { slot: Slot::Tui, action: ChildAction::WaitExit },
            ))
        }),
{
    reveal(ShutdownPair::enter_grace);
}

/// An App Server that runs is looked at first. A TUI in its place is refused,
/// and stays owned as it was.
pub proof fn law_app_server_shutdown_begins_with_a_look<H>(
    app_server: ManagedGroupChild<H>,
    grace: Moment,
    hard: Moment,
)
    ensures
        app_server.state.role == ChildRole::Tui ==> (begun_app_server(
            app_server,
            (Some(grace), Some(hard)),
        ) matches Err(kept) && kept.error == (ProcessError::RoleMismatch {
            expected: ChildRole::AppServer,
            actual: ChildRole::Tui,
        }) && kept.tui is None && (kept.app_server matches Some(held) && held.handle
            == app_server.handle && held.state == (ChildState {
            drop_deadline: None,
            ..app_server.state
        }))),
        app_server.state.role == ChildRole::AppServer && app_server.state.disposition is None
            && !app_server.state.observed_exit && app_server.state.app_graceful_drain
            == AppGracefulDrainState::AwaitingInitialTerm ==> (begun_app_server(
            app_server,
            (Some(grace), Some(hard)),
        ) matches Ok(pair) && pair.tui is None && pair.first_error is None && pair.grace_deadline
            == grace && pair.hard_deadline == hard && pair.spec_action() == Some(
            PairAction::Child { slot: Slot::AppServer, action: ChildAction::WaitExit },
        ) && (pair.after(PairEvent::Child(ChildEvent::Waited(Ok(None)))).spec_action() == Some(
            PairAction::Child {
                slot: Slot::AppServer,
                action: ChildAction::SignalLeader(Signal::Stop),
            },
        ))),
{
    reveal(ShutdownPair::enter_grace);
    reveal(ShutdownPair::after_app_event);
}

// ---------------------------------------------------------------------------
// On the way.
// ---------------------------------------------------------------------------

/// Between two rounds of the grace time an attempt pauses, never past the grace
/// deadline. At the deadline the forced stop of a TUI that runs begins, with one
/// more look at it.
pub proof fn law_grace_time_ends_with_a_forced_stop<H>(pair: ShutdownPair<H>, now: Moment)
    requires
        pair.phase is GraceClock,
        pair.tui matches Some(child) && child.state.role == ChildRole::Tui
            && child.state.disposition is None && !child.state.observed_exit,
    ensures
        ({
            let clocked = pair.after(PairEvent::Child(ChildEvent::Clock(now)));
            &&& pair.spec_action() == Some(PairAction::ReadClock)
            &&& now.nanos < pair.grace_deadline.nanos ==> clocked.spec_action() == Some(
                PairAction::Sleep { deadline: pair.grace_deadline },
            )
            &&& now.nanos >= pair.grace_deadline.nanos ==> {
                &&& clocked.phase == PairPhase::SweepTui(
                    Termination::start_kill(pair.tui->0.state, pair.hard_deadline).0,
                )
                &&& clocked.tui == pair.tui
                &&& clocked.spec_action() == Some(
                    PairAction::Child { slot: Slot::Tui, action: ChildAction::WaitExit },
                )
            }
        }),
{
    reveal(ShutdownPair::enter_sweep_tui);
}

/// A forced stop that finds the TUI running sends KILL to its group and writes
/// KILL down as the cause of its end.
pub proof fn law_forced_stop_sends_kill<H>(pair: ShutdownPair<H>)
    requires
        pair.tui matches Some(child) && child.state.role == ChildRole::Tui
            && child.state.disposition is None && !child.state.observed_exit,
        pair.phase == PairPhase::SweepTui(
            Termination::start_kill(pair.tui->0.state, pair.hard_deadline).0,
        ),
    ensures
        ({
            let looked = pair.after(PairEvent::Child(ChildEvent::Waited(Ok(None))));
            &&& looked.spec_action() == Some(
                PairAction::Child {
                    slot: Slot::Tui,
                    action: ChildAction::SignalGroup(Signal::Kill),
                },
            )
            &&& looked.tui matches Some(child) && child.state.stop_action == StopAction::Kill
                && child.handle == pair.tui->0.handle
        }),
{
    reveal(ShutdownPair::after_tui_event);
    let state = pair.tui->0.state;
    law_tui_gets_the_signal_it_is_stopped_by(state, pair.hard_deadline, None, true);
}

/// A wait is due for every App Server that is not reaped, and for a TUI that is
/// not reaped once its group was swept.
pub proof fn law_wait_is_due_by_role(child: ChildState)
    ensures
        child.disposition is Some ==> !wait_due(child),
        child.disposition is None && child.role == ChildRole::AppServer ==> wait_due(child),
        child.disposition is None && child.role == ChildRole::Tui ==> (wait_due(child)
            <==> child.containment_swept),
{
}

/// In either slot a reaped child is written down with the end that the wait
/// consumed and with what was done to it. A swept TUI is then reaped without an
/// error, and an App Server only where it had its TERM and its code is not
/// positive.
pub proof fn law_reap_writes_the_end_down(child: ChildState, status: ExitStatus)
    requires
        wait_due(child),
    ensures
        ({
            let (after, reaped) = reaped_by_role(child, ReapOutcome::Reaped(status));
            &&& after.disposition matches Some(disposition) && tells_the_end(
                disposition,
                status,
                child.stop_action,
            )
            &&& after.observed_exit
            &&& child.role == ChildRole::Tui ==> reaped == Ok::<bool, ProcessError>(true)
            &&& child.role == ChildRole::AppServer ==> (reaped is Ok
                <==> child.app_graceful_drain == AppGracefulDrainState::InitialTermSent
                && child.stop_action == StopAction::Term && (status.code matches Some(code) && code
                <= 0))
            &&& reaped_by_role(child, ReapOutcome::Running) == (child, Ok::<bool, ProcessError>(
                false,
            ))
            &&& reaped_by_role(child, ReapOutcome::Failed).1 == Err::<bool, ProcessError>(
                ProcessError::Wait { role: child.role },
            )
        }),
{
}

/// The last wait of a round settles the attempt exactly if every child is then
/// reaped; else the clock is read, and before the hard deadline there is a pause
/// that does not go past it.
pub proof fn law_attempt_settles_once_all_are_reaped<H>(
    pair: ShutdownPair<H>,
    outcome: ReapOutcome,
    now: Moment,
)
    requires
        pair.phase is ReapApp,
        pair.app_server is Some,
    ensures
        ({
            let next = pair.after(PairEvent::Child(ChildEvent::Reaped(outcome)));
            let clocked = next.after(PairEvent::Child(ChildEvent::Clock(now)));
            let all = (next.tui matches Some(child) ==> child.state.disposition is Some) && (
            next.app_server matches Some(child) ==> child.state.disposition is Some);
            &&& pair.spec_action() == Some(
                PairAction::Child { slot: Slot::AppServer, action: ChildAction::TryWait },
            )
            &&& all ==> next.spec_action() is None
            &&& !all ==> next.spec_action() == Some(PairAction::ReadClock)
            &&& !all && now.nanos < pair.hard_deadline.nanos ==> clocked.spec_action() == Some(
                PairAction::Sleep { deadline: pair.hard_deadline },
            )
            &&& !all && now.nanos >= pair.hard_deadline.nanos ==> clocked.spec_action() is None
        }),
{
    reveal(ShutdownPair::after_app_event);
}

/// An attempt that runs into its hard deadline is told by the first child that
/// is not reaped, the TUI before the App Server, and its App Server can no
/// longer drain.
pub proof fn law_hard_deadline_tells_who_is_left<H>(pair: ShutdownPair<H>, now: Moment)
    requires
        pair.phase is ReapClock,
        now.nanos >= pair.hard_deadline.nanos,
    ensures
        ({
            let over = pair.after(PairEvent::Child(ChildEvent::Clock(now)));
            &&& pair.first_error is Some ==> over.first_error == pair.first_error
            &&& pair.first_error is None ==> {
                &&& pair.tui matches Some(child) ==> (child.state.disposition is None
                    ==> over.first_error == Some(
                    ProcessError::WaitTimeout { role: child.state.role },
                ))
                &&& pair.tui is None ==> (pair.app_server matches Some(child) ==> (
                child.state.disposition is None ==> over.first_error == Some(
                    ProcessError::WaitTimeout { role: child.state.role },
                )))
            }
            &&& pair.app_server matches Some(child) ==> (over.app_server matches Some(held)
                && held.handle == child.handle && (child.state.role == ChildRole::AppServer
                && child.state.app_graceful_drain != AppGracefulDrainState::Drained
                ==> held.state.app_graceful_drain == AppGracefulDrainState::Invalid))
        }),
{
}

/// The rounds of a TUI's shutdown, while it runs: its output is drained, whose
/// first error is kept, then the TUI is looked at, then the clock is read, and
/// after the pause the next round begins with the output again.
pub proof fn law_tui_grace_goes_in_rounds<H>(
    pair: ShutdownPair<H>,
    outcome: Result<(), ProcessError>,
)
    requires
        pair.has_progress,
        pair.app_server is None,
        pair.tui matches Some(child) && child.state.role == ChildRole::Tui
            && child.state.disposition is None && !child.state.observed_exit,
    ensures
        pair.phase is GraceProgress ==> ({
            let looking = pair.after(PairEvent::Progressed(outcome));
            &&& pair.spec_action() == Some(PairAction::Progress)
            &&& looking.spec_action() == Some(
                PairAction::Child { slot: Slot::Tui, action: ChildAction::WaitExit },
            )
            &&& looking.phase == PairPhase::GraceTui(
                ObserveExit::start(pair.tui->0.state, pair.grace_deadline),
            )
            &&& looking.tui == pair.tui
            &&& pair.first_error is Some ==> looking.first_error == pair.first_error
            &&& pair.first_error is None ==> looking.first_error == (match outcome {
                Ok(_) => None,
                Err(error) => Some(error),
            })
        }),
        pair.phase is GraceSleep ==> pair.after(
            PairEvent::Child(ChildEvent::Slept),
        ).spec_action() == Some(PairAction::Progress) && pair.after(
            PairEvent::Child(ChildEvent::Slept),
        ).phase is GraceProgress,
{
    reveal(ShutdownPair::enter_grace);
}

/// A look of the grace time that finds the TUI running reads the clock next; one
/// that finds it ended begins the sweep of its group at once, with KILL, and
/// writes nothing down as its cause.
pub proof fn law_grace_look_decides<H>(pair: ShutdownPair<H>, ended: WaitStatus)
    requires
        pair.app_server is None,
        pair.tui matches Some(child) && child.state.role == ChildRole::Tui
            && child.state.disposition is None && !child.state.observed_exit,
        pair.phase == PairPhase::GraceTui(
            ObserveExit::start(pair.tui->0.state, pair.grace_deadline),
        ),
        ended.exited || ended.killed || ended.dumped,
    ensures
        ({
            let running = pair.after(PairEvent::Child(ChildEvent::Waited(Ok(None))));
            let over = pair.after(PairEvent::Child(ChildEvent::Waited(Ok(Some(ended)))));
            &&& running.spec_action() == Some(PairAction::ReadClock)
            &&& running.phase is GraceClock
            &&& over.spec_action() == Some(
                PairAction::Child {
                    slot: Slot::Tui,
                    action: ChildAction::SignalGroup(Signal::Kill),
                },
            )
            &&& over.tui matches Some(child) && child.state.observed_exit
                && child.state.stop_action == pair.tui->0.state.stop_action
        }),
{
    reveal(ShutdownPair::enter_sweep_tui);
    reveal(ShutdownPair::after_tui_event);
}

/// The rounds of the reap of a swept TUI: its output is drained, then it is
/// waited for, and after a pause the next round begins with the output again.
pub proof fn law_tui_reap_goes_in_rounds<H>(
    pair: ShutdownPair<H>,
    outcome: Result<(), ProcessError>,
)
    requires
        pair.has_progress,
        pair.app_server is None,
        pair.tui matches Some(child) && child.state.role == ChildRole::Tui
            && child.state.disposition is None && child.state.containment_swept,
    ensures
        pair.phase is ReapProgress ==> ({
            let waiting = pair.after(PairEvent::Progressed(outcome));
            &&& pair.spec_action() == Some(PairAction::Progress)
            &&& waiting.phase is ReapTui
            &&& waiting.spec_action() == Some(
                PairAction::Child { slot: Slot::Tui, action: ChildAction::TryWait },
            )
            &&& waiting.tui == pair.tui
            &&& pair.first_error is Some ==> waiting.first_error == pair.first_error
            &&& pair.first_error is None ==> waiting.first_error == (match outcome {
                Ok(_) => None,
                Err(error) => Some(error),
            })
        }),
        pair.phase is ReapSleep ==> pair.after(PairEvent::Child(ChildEvent::Slept)).spec_action()
            == Some(PairAction::Progress) && pair.after(
            PairEvent::Child(ChildEvent::Slept),
        ).phase is ReapProgress,
{
}

/// The wait that reaps a swept TUI ends its attempt, with the end that the wait
/// consumed. One that finds it running reads the clock, and so does a failed
/// one, whose error is kept where it is the first.
pub proof fn law_tui_reap_ends_the_attempt<H>(pair: ShutdownPair<H>, outcome: ReapOutcome)
    requires
        pair.phase == PairPhase::ReapTui,
        pair.app_server is None,
        pair.tui matches Some(child) && child.state.role == ChildRole::Tui
            && child.state.disposition is None && child.state.containment_swept,
    ensures
        ({
            let next = pair.after(PairEvent::Child(ChildEvent::Reaped(outcome)));
            match outcome {
                ReapOutcome::Reaped(status) => {
                    &&& next.phase == PairPhase::Settled
                    &&& next.first_error == pair.first_error
                    &&& next.tui matches Some(child) && child.handle == pair.tui->0.handle && (
                    child.state.disposition matches Some(disposition) && tells_the_end(
                        disposition,
                        status,
                        pair.tui->0.state.stop_action,
                    ))
                },
                ReapOutcome::Running => next.phase == PairPhase::ReapClock && next.tui == pair.tui
                    && next.first_error == pair.first_error,
                ReapOutcome::Failed => {
                    &&& next.phase == PairPhase::ReapClock
                    &&& pair.first_error is Some ==> next.first_error == pair.first_error
                    &&& pair.first_error is None ==> next.first_error == Some(
                        ProcessError::Wait { role: ChildRole::Tui },
                    )
                },
            }
        }),
{
    let state = pair.tui->0.state;
    assert(pair.after(PairEvent::Child(ChildEvent::Reaped(outcome))) == pair.after_tui_event(
        state,
        ChildEvent::Reaped(outcome),
    ));
    reveal(ShutdownPair::after_tui_event);
}

/// The App Server alone is looked at again after each pause, without any output
/// to drain.
pub proof fn law_app_server_is_looked_at_again<H>(pair: ShutdownPair<H>)
    requires
        pair.phase == PairPhase::GraceSleep,
        !pair.has_progress,
        pair.tui is None,
        pair.app_server matches Some(child) && child.state.role == ChildRole::AppServer
            && child.state.disposition is None && !child.state.observed_exit,
    ensures
        pair.after(PairEvent::Child(ChildEvent::Slept)).spec_action() == Some(
            PairAction::Child { slot: Slot::AppServer, action: ChildAction::WaitExit },
        ),
{
    reveal(ShutdownPair::enter_grace);
}

/// At the grace deadline the App Server alone is not signalled again but waited
/// for, as it is; and after each pause it is waited for again.
pub proof fn law_app_server_is_waited_for<H>(pair: ShutdownPair<H>, now: Moment)
    requires
        !pair.has_progress,
        pair.tui is None,
        pair.app_server matches Some(child) && child.state.role == ChildRole::AppServer
            && child.state.disposition is None,
    ensures
        pair.phase == PairPhase::GraceClock ==> ({
            let clocked = pair.after(PairEvent::Child(ChildEvent::Clock(now)));
            &&& now.nanos < pair.grace_deadline.nanos ==> clocked.phase == PairPhase::GraceSleep
            &&& now.nanos >= pair.grace_deadline.nanos ==> clocked.phase == PairPhase::ReapApp
                && clocked.app_server == pair.app_server && clocked.first_error
                == pair.first_error
        }),
        pair.phase == PairPhase::ReapSleep ==> pair.after(
            PairEvent::Child(ChildEvent::Slept),
        ).phase == PairPhase::ReapApp,
{
    reveal(ShutdownPair::enter_sweep_tui);
}

/// The wait that reaps the App Server alone ends its attempt, with the end that
/// the wait consumed.
pub proof fn law_app_server_reap_ends_the_attempt<H>(pair: ShutdownPair<H>, status: ExitStatus)
    requires
        pair.phase == PairPhase::ReapApp,
        pair.tui is None,
        pair.app_server matches Some(child) && child.state.role == ChildRole::AppServer
            && child.state.disposition is None,
    ensures
        ({
            let next = pair.after(
                PairEvent::Child(ChildEvent::Reaped(ReapOutcome::Reaped(status))),
            );
            &&& next.phase == PairPhase::Settled
            &&& next.app_server matches Some(child) && child.handle == pair.app_server->0.handle
                && (child.state.disposition matches Some(disposition) && tells_the_end(
                disposition,
                status,
                pair.app_server->0.state.stop_action,
            ))
        }),
{
    let state = pair.app_server->0.state;
    let event = ChildEvent::Reaped(ReapOutcome::Reaped(status));
    assert(pair.after(PairEvent::Child(event)) == pair.after_app_event(state, event));
    reveal(ShutdownPair::after_app_event);
}

// ---------------------------------------------------------------------------
// The end.
// ---------------------------------------------------------------------------

/// An attempt completes exactly if whatever was in its slots is reaped, and an
/// App Server has drained as well.
pub proof fn law_completion_needs_reaped_and_drained<H>(pair: ShutdownPair<H>)
    ensures
        completes(pair) <==> {
            &&& pair.tui matches Some(child) ==> child.state.disposition is Some && (
            child.state.role == ChildRole::AppServer ==> child.state.app_graceful_drain
                == AppGracefulDrainState::Drained)
            &&& pair.app_server matches Some(child) ==> child.state.disposition is Some && (
            child.state.role == ChildRole::AppServer ==> child.state.app_graceful_drain
                == AppGracefulDrainState::Drained)
        },
{
}

/// A slot reports the end of the child in it, and an empty one that nothing was
/// started; the drain is evidenced for the App Server that drained and for no
/// other child.
pub proof fn law_slot_reports_its_child<H>(child: ManagedGroupChild<H>)
    ensures
        child.state.disposition matches Some(disposition) ==> slot_disposition(Some(child))
            == disposition,
        slot_disposition(None::<ManagedGroupChild<H>>) == ChildDisposition::NotStarted,
        drain_shown(None::<ManagedGroupChild<H>>) is None,
        drain_shown(Some(child)) matches Some(authority) ==> authority == child.state.authority,
        drain_shown(Some(child)) is Some <==> child.state.role == ChildRole::AppServer
            && child.state.app_graceful_drain == AppGracefulDrainState::Drained,
{
}

/// The first child that is not reaped is the TUI where it is one, else the App
/// Server.
pub proof fn law_first_unreaped_is_the_tui<H>(
    tui: Option<ManagedGroupChild<H>>,
    app_server: Option<ManagedGroupChild<H>>,
)
    ensures
        ({
            let tui_left = tui matches Some(child) && child.state.disposition is None;
            let app_left = app_server matches Some(child) && child.state.disposition is None;
            &&& tui_left ==> first_unreaped(tui, app_server) == Some(tui->0.state.role)
            &&& !tui_left && app_left ==> first_unreaped(tui, app_server) == Some(
                app_server->0.state.role,
            )
            &&& !tui_left && !app_left ==> first_unreaped(tui, app_server) is None
        }),
{
}

/// An attempt that does not complete keeps both handles and its mode. Its error
/// is the first one that came up; without one it is the wait for the first
/// unreaped child, or the missing drain where all are reaped. Only unreaped
/// children get the hard deadline for their release.
pub proof fn law_incomplete_attempt_keeps_its_children<H>(pair: ShutdownPair<H>)
    ensures
        ({
            let kept = retained_after(pair);
            let tui_left = pair.tui matches Some(child) && child.state.disposition is None;
            let app_left = pair.app_server matches Some(child) && child.state.disposition is None;
            let drop_deadline = if tui_left || app_left {
                Some(pair.hard_deadline)
            } else {
                None
            };
            &&& !kept.resolved
            &&& kept.tui_shutdown_mode == pair.tui_shutdown_mode
            &&& kept.tui is Some <==> pair.tui is Some
            &&& kept.app_server is Some <==> pair.app_server is Some
            &&& pair.tui matches Some(child) ==> kept.tui == Some(
                ManagedGroupChild {
                    handle: child.handle,
                    state: ChildState { drop_deadline, ..child.state },
                },
            )
            &&& pair.app_server matches Some(child) ==> kept.app_server == Some(
                ManagedGroupChild {
                    handle: child.handle,
                    state: ChildState { drop_deadline, ..child.state },
                },
            )
            &&& pair.first_error matches Some(error) ==> kept.error == error
            &&& pair.first_error is None && tui_left ==> kept.error == (ProcessError::WaitTimeout {
                role: pair.tui->0.state.role,
            })
            &&& pair.first_error is None && !tui_left && app_left ==> kept.error == (
            ProcessError::WaitTimeout { role: pair.app_server->0.state.role })
            &&& pair.first_error is None && !tui_left && !app_left ==> kept.error == (
            ProcessError::AppGracefulDrainUnconfirmed {
                role: ChildRole::AppServer,
                stage: AppGracefulDrainFailureStage::MissingProof,
            })
        }),
{
}

/// A failure is retried once: never after it was resolved, and never by the
/// general retry where it owns an App Server. The App Server's own retry is for
/// an App Server alone.
pub proof fn law_retry_has_its_path<H>(failure: UnreapedChildren<H>)
    ensures
        ({
            let app_in_tui = failure.tui matches Some(child) && child.state.role
                == ChildRole::AppServer;
            let app = failure.app_server matches Some(child) && child.state.role
                == ChildRole::AppServer;
            &&& failure.resolved ==> failure.retry_refusal() == Some(
                ProcessError::RetryAfterResolution,
            ) && failure.app_retry_refusal() == Some(ProcessError::RetryAfterResolution)
            &&& !failure.resolved && (app_in_tui || app) ==> failure.retry_refusal() == Some(
                ProcessError::AppGracefulDrainUnconfirmed {
                    role: ChildRole::AppServer,
                    stage: AppGracefulDrainFailureStage::WrongRetryPath,
                },
            )
            &&& failure.retry_refusal() is None <==> !failure.resolved && !app_in_tui && !app
            &&& failure.app_retry_refusal() is None <==> !failure.resolved && failure.tui is None
                && app
            &&& !failure.resolved && (failure.tui is Some || !app) ==> (
            failure.app_retry_refusal() matches Some(
                ProcessError::RoleMismatch { expected, actual },
            ) && expected == ChildRole::AppServer && (failure.app_server matches Some(child)
                ==> actual == child.state.role) && (failure.app_server is None ==> actual
                == ChildRole::Tui))
        }),
{
}

/// A slot is over exactly if it is empty or its child is reaped, and has ended
/// exactly if it is empty or its child was seen to end or reaped; until it is
/// over, what is reported of it is the wait for its role.
pub proof fn law_slot_is_over_once_reaped<H>(child: ManagedGroupChild<H>, role: ChildRole)
    ensures
        slot_reaped(None::<ManagedGroupChild<H>>) && slot_observed(None::<ManagedGroupChild<H>>),
        slot_reaped(Some(child)) <==> child.state.disposition is Some,
        slot_observed(Some(child)) <==> child.state.disposition is Some
            || child.state.observed_exit,
        slot_outcome(None::<ManagedGroupChild<H>>, role) == Ok::<ChildDisposition, ProcessError>(
            ChildDisposition::NotStarted,
        ),
        child.state.disposition is None ==> slot_outcome(Some(child), role) == Err::<
            ChildDisposition,
            ProcessError,
        >(ProcessError::WaitTimeout { role }),
        child.state.disposition matches Some(disposition) ==> slot_outcome(Some(child), role)
            == Ok::<ChildDisposition, ProcessError>(disposition),
{
}

/// What is reported of an attempt tells the TUI's end as the TUI's and the App
/// Server's as the App Server's, and is clean exactly if nothing went wrong.
pub proof fn law_outcome_tells_each_child_its_end<H>(
    outcome: ShutdownOutcome,
    pair: ShutdownPair<H>,
    tui: ManagedGroupChild<H>,
    app_server: ManagedGroupChild<H>,
)
    requires
        reports(outcome, pair),
    ensures
        pair.tui == Some(tui) ==> (tui.state.disposition matches Some(end)
            ==> outcome.reaped().dispositions().0 == end),
        pair.app_server == Some(app_server) ==> (app_server.state.disposition matches Some(end)
            ==> outcome.reaped().dispositions().1 == end),
        pair.tui is None ==> outcome.reaped().dispositions().0 == ChildDisposition::NotStarted,
        pair.app_server is None ==> outcome.reaped().dispositions().1
            == ChildDisposition::NotStarted,
        outcome is Clean <==> pair.first_error is None,
        outcome matches ShutdownOutcome::Failed { error, .. } ==> pair.first_error == Some(error),
{
}

/// A retry goes on with the very children of the failure, its mode and its
/// error, and leaves it empty; without both deadlines there is none, and the
/// children stay.
pub proof fn law_retry_goes_on_with_its_children<H>(
    failure: UnreapedChildren<H>,
    grace: Option<Moment>,
    hard: Option<Moment>,
    has_progress: bool,
)
    ensures
        ({
            let (begun, left) = failure.retrying(grace, hard, has_progress);
            &&& begun is Ok <==> grace is Some && hard is Some
            &&& begun matches Err(error) ==> error == ProcessError::Deadline && left.error
                == ProcessError::Deadline && (failure.tui is Some <==> left.tui is Some) && (
            failure.app_server is Some <==> left.app_server is Some)
            &&& begun matches Ok(pair) ==> {
                &&& pair.grace_deadline == grace->0 && pair.hard_deadline == hard->0
                &&& pair.has_progress == has_progress
                &&& pair.first_error == Some(failure.error)
                &&& pair.tui_shutdown_mode == failure.tui_shutdown_mode
                &&& same_owner(pair.tui, failure.tui)
                &&& same_owner(pair.app_server, failure.app_server)
                &&& left.tui is None && left.app_server is None
                &&& left.error == failure.error && left.resolved == failure.resolved
            }
        }),
{
    if let (Some(grace_deadline), Some(hard_deadline)) = (grace, hard) {
        law_attempt_begins_consistently(
            failure.tui,
            failure.app_server,
            grace_deadline,
            hard_deadline,
            failure.tui_shutdown_mode,
            Some(failure.error),
            has_progress,
        );
    }
}

/// An outcome is clean exactly if it holds no error, and reports the same
/// children either way.
pub proof fn law_clean_outcome_has_no_error(children: ReapedChildren, error: ProcessError)
    ensures
        ShutdownOutcome::Clean(children).first_error() is None,
        (ShutdownOutcome::Failed { children, error }).first_error() == Some(error),
        ShutdownOutcome::Clean(children).reaped() == children,
        (ShutdownOutcome::Failed { children, error }).reaped() == children,
{
}

} // verus!
