//! What holds of every suspension and every resumption of a TUI.
use vstd::prelude::*;

use crate::clock::Moment;
use crate::process::child::{ChildState, TerminalShutdownSignal};
use crate::process::child_laws::tells_the_end;
use crate::process::control::{
    ControlPhase, ControlSignal, Resume, ResumePhase, ShutdownForward, Suspend, SuspendPhase,
};
use crate::process::error::ProcessError;
use crate::process::observe::{ChildAction, ChildEvent, SignalPhase};
use crate::process::status::{ExitStatus, ReapOutcome, Signal, SystemError, WaitStatus};
use crate::protocol::message::StopAction;

verus! {

/// A TUI that stops when it is asked with TSTP has its whole group swept with
/// STOP and then counts as stopped, without another look. Nothing is written
/// down as a stop of it.
pub proof fn law_asked_suspension_sweeps_and_ends(
    child: ChildState,
    graceful: Moment,
    forced: Moment,
    stop: WaitStatus,
)
    requires
        child.disposition is None,
        stop.stopped,
    ensures
        ({
            let a = Suspend::start(child, graceful, forced);
            let b = a.after(child, ChildEvent::Signaled(Ok(())));
            let c = b.0.after(b.1, ChildEvent::Waited(Ok(Some(stop))));
            let d = c.0.after(c.1, ChildEvent::Waited(Ok(Some(stop))));
            let e = d.0.after(d.1, ChildEvent::Signaled(Ok(())));
            &&& a.spec_action() == Some(ChildAction::SignalGroup(Signal::Tstp))
            &&& b.0.spec_action() == Some(ChildAction::WaitStoppedOrExit)
            &&& c.0.spec_action() == Some(ChildAction::ConsumeStop)
            &&& d.0.spec_action() == Some(ChildAction::SignalGroup(Signal::Stop))
            &&& e.0.phase == SuspendPhase::Stopped
            &&& e.1 == child
        }),
{
}

/// A TUI that has not stopped by the graceful deadline is swept with STOP all
/// the same and must then be seen to stop, by the forced deadline: else the
/// suspension timed out.
pub proof fn law_forced_suspension_waits_for_the_stop(
    child: ChildState,
    graceful: Moment,
    forced: Moment,
    late: Moment,
    end: Moment,
    stop: WaitStatus,
)
    requires
        child.disposition is None,
        late.nanos >= graceful.nanos,
        end.nanos >= forced.nanos,
        stop.stopped,
    ensures
        ({
            let a = Suspend::start(child, graceful, forced);
            let b = a.after(child, ChildEvent::Signaled(Ok(())));
            let c = b.0.after(b.1, ChildEvent::Waited(Ok(None)));
            let d = c.0.after(c.1, ChildEvent::Clock(late));
            let e = d.0.after(d.1, ChildEvent::Signaled(Ok(())));
            &&& c.0.spec_action() == Some(ChildAction::ReadClock)
            &&& d.0.spec_action() == Some(ChildAction::SignalGroup(Signal::Stop))
            &&& e.0.phase matches SuspendPhase::AwaitForced(wait) && wait.deadline == forced
            &&& e.0.spec_action() == Some(ChildAction::WaitStoppedOrExit)
            &&& e.1 == child
        }),
        ({
            let waiting = Suspend {
                graceful_deadline: graceful,
                forced_deadline: forced,
                phase: SuspendPhase::AwaitForced(
                    crate::process::observe::StopWait::start(forced),
                ),
            };
            let seen = waiting.after(child, ChildEvent::Waited(Ok(Some(stop))));
            let stopped = seen.0.after(seen.1, ChildEvent::Waited(Ok(Some(stop))));
            let quiet = waiting.after(child, ChildEvent::Waited(Ok(None)));
            let over = quiet.0.after(quiet.1, ChildEvent::Clock(end));
            &&& stopped.0.phase == SuspendPhase::Stopped && stopped.1 == child
            &&& over.0.phase == SuspendPhase::Failed(
                ProcessError::SuspendTimeout { role: child.role },
            )
            &&& over.1 == child
        }),
{
}

/// A suspension that fails is told by what failed: a signal without an action of
/// its own, a failed wait, or the end that the TUI came to instead.
pub proof fn law_failed_suspension_is_told(
    child: ChildState,
    graceful: Moment,
    forced: Moment,
    ended: WaitStatus,
)
    requires
        child.disposition is None,
        !child.observed_exit,
        ended.exited || ended.killed || ended.dumped,
        !ended.stopped,
    ensures
        ({
            let unsent = SuspendPhase::Failed(
                ProcessError::Signal { role: child.role, action: StopAction::NoAction },
            );
            let a = Suspend::start(child, graceful, forced);
            let b = a.after(child, ChildEvent::Signaled(Ok(())));
            let gone = b.0.after(b.1, ChildEvent::Waited(Ok(Some(ended))));
            &&& a.after(child, ChildEvent::Signaled(Err(SystemError::Other))).0.phase == unsent
            &&& b.0.after(b.1, ChildEvent::Waited(Err(SystemError::Other))).0.phase
                == SuspendPhase::Failed(ProcessError::Wait { role: child.role })
            &&& gone.0.phase matches SuspendPhase::Failed(ProcessError::EarlyExit { role, .. })
                && role == child.role
            &&& gone.1.observed_exit
        }),
{
}

/// A TUI is resumed by CONT to its group, and counts as resumed once a single
/// look finds it running, whatever the time is.
pub proof fn law_resumed_tui_is_running(child: ChildState, deadline: Moment, now: Moment)
    requires
        child.disposition is None,
        !child.observed_exit,
    ensures
        ({
            let a = Resume::start(child, deadline);
            let b = a.after(child, ChildEvent::Signaled(Ok(())));
            let c = b.0.after(b.1, ChildEvent::Clock(now));
            let d = c.0.after(c.1, ChildEvent::Waited(Ok(None)));
            let broken = c.0.after(c.1, ChildEvent::Waited(Err(SystemError::Other)));
            &&& a.spec_action() == Some(ChildAction::SignalGroup(Signal::Cont))
            &&& b.0.spec_action() == Some(ChildAction::ReadClock)
            &&& c.0.spec_action() == Some(ChildAction::WaitExit)
            &&& d.0.phase == ResumePhase::Resumed
            &&& d.1 == child
            &&& broken.0.phase == ResumePhase::Failed(ProcessError::Wait { role: child.role })
            &&& a.after(child, ChildEvent::Signaled(Err(SystemError::Other))).0.phase
                == ResumePhase::Failed(
                ProcessError::Signal { role: child.role, action: StopAction::NoAction },
            )
        }),
{
}

/// A TUI that is found ended when it is resumed is swept with KILL, reaped, and
/// told as an early exit with the end that it came to: it is never resumed.
pub proof fn law_ended_tui_is_not_resumed(
    child: ChildState,
    resume: Resume,
    now: Moment,
    ended: WaitStatus,
    status: ExitStatus,
)
    requires
        child.disposition is None,
        !child.observed_exit,
        resume.phase is Clock,
        ended.exited || ended.killed || ended.dumped,
    ensures
        ({
            let c = resume.after(child, ChildEvent::Clock(now));
            let d = c.0.after(c.1, ChildEvent::Waited(Ok(Some(ended))));
            let e = d.0.after(d.1, ChildEvent::Signaled(Ok(())));
            let f = e.0.after(e.1, ChildEvent::Reaped(ReapOutcome::Reaped(status)));
            &&& d.0.spec_action() == Some(ChildAction::SignalGroup(Signal::Kill))
            &&& e.0.spec_action() == Some(ChildAction::TryWait)
            &&& f.0.phase matches ResumePhase::Failed(
                ProcessError::EarlyExit { role, disposition },
            ) && role == child.role && f.1.disposition == Some(disposition) && tells_the_end(
                disposition,
                status,
                child.stop_action,
            )
        }),
{
}

/// A control or a forwarding that fails is told as a signal without an action of
/// its own, and the TUI is left as it was.
pub proof fn law_failed_controls_are_told(
    child: ChildState,
    signal: Signal,
    ending: TerminalShutdownSignal,
    deadline: Moment,
)
    requires
        child.disposition is None,
    ensures
        ({
            let unsent = ProcessError::Signal { role: child.role, action: StopAction::NoAction };
            let failed = ChildEvent::Signaled(Err(SystemError::Other));
            let control = ControlSignal::start(child, signal, deadline).after(child, failed);
            let forward = ShutdownForward::start(child, ending, deadline).sent.after(
                child,
                failed,
            );
            &&& control.0.phase == ControlPhase::Failed(unsent) && control.1 == child
            &&& forward.0.phase == SignalPhase::Failed(unsent) && forward.1 == child
        }),
{
}

} // verus!
