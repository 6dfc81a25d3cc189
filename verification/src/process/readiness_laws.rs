//! What holds of every wait for a child to be ready.
use vstd::prelude::*;

use crate::clock::Moment;
use crate::process::child::ChildState;
use crate::process::child_laws::tells_the_end;
use crate::process::error::{ProcessError, TuiReadinessError};
use crate::process::observe::{ChildAction, ChildEvent, PollOutcome, ReadinessRead};
use crate::process::readiness::{
    token_outcome, AwaitPhase, AwaitReady, ConfirmPhase, ConfirmRunning, TokenAction, TokenEvent,
    TokenPhase, TokenRead, TokenWait,
};
use crate::process::status::{ExitStatus, ReapOutcome, Signal, SystemError, WaitStatus};

verus! {

// ---------------------------------------------------------------------------
// A child that runs.
// ---------------------------------------------------------------------------

/// A child whose wait shows no end is running, and stays as it was.
pub proof fn law_live_child_is_running(
    child: ChildState,
    deadline: Moment,
    status: Option<WaitStatus>,
)
    requires
        !child.observed_exit,
        child.disposition is None,
        status matches Some(status) ==> !status.exited && !status.killed && !status.dumped,
    ensures
        ({
            let (confirm, begun) = ConfirmRunning::start(child, deadline);
            let (running, after) = confirm.after(begun, ChildEvent::Waited(Ok(status)));
            &&& confirm.spec_action() == Some(ChildAction::WaitExit)
            &&& running.phase == ConfirmPhase::Running
            &&& begun == child
            &&& after == child
        }),
{
}

/// A child that has ended is swept by a KILL to its group, reaped, and told as
/// an early exit with the end that it came to.
pub proof fn law_ended_child_is_an_early_exit(
    child: ChildState,
    deadline: Moment,
    ended: WaitStatus,
    status: ExitStatus,
)
    requires
        !child.observed_exit,
        child.disposition is None,
        ended.exited || ended.killed || ended.dumped,
    ensures
        ({
            let (confirm, begun) = ConfirmRunning::start(child, deadline);
            let (sweeping, seen) = confirm.after(begun, ChildEvent::Waited(Ok(Some(ended))));
            let (reaping, swept) = sweeping.after(seen, ChildEvent::Signaled(Ok(())));
            let (over, reaped) = reaping.after(
                swept,
                ChildEvent::Reaped(ReapOutcome::Reaped(status)),
            );
            &&& sweeping.spec_action() == Some(ChildAction::SignalGroup(Signal::Kill))
            &&& seen.observed_exit
            &&& reaping.spec_action() == Some(ChildAction::TryWait)
            &&& swept.containment_swept
            &&& over.phase matches ConfirmPhase::Failed(
                ProcessError::EarlyExit { role, disposition },
            ) && role == child.role && reaped.disposition == Some(disposition) && tells_the_end(
                disposition,
                status,
                child.stop_action,
            )
        }),
{
}

/// A look that cannot be repeated in time is a readiness timeout; one that fails
/// is a failed wait.
pub proof fn law_failed_confirmation_is_told(child: ChildState, deadline: Moment, now: Moment)
    requires
        !child.observed_exit,
        child.disposition is None,
        now.nanos >= deadline.nanos,
    ensures
        ({
            let (confirm, begun) = ConfirmRunning::start(child, deadline);
            let broken = confirm.after(begun, ChildEvent::Waited(Err(SystemError::Other)));
            let stalled = confirm.after(begun, ChildEvent::Waited(Err(SystemError::Interrupted)));
            let late = stalled.0.after(stalled.1, ChildEvent::Clock(now));
            &&& broken.0.phase == ConfirmPhase::Failed(ProcessError::Wait { role: child.role })
            &&& broken.1 == child
            &&& late.0.phase == ConfirmPhase::Failed(
                ProcessError::ReadinessTimeout { role: child.role },
            )
            &&& late.1 == child
        }),
{
}

// ---------------------------------------------------------------------------
// The sentinel.
// ---------------------------------------------------------------------------

/// A round looks at the child, at the clock, and polls the channel for at most
/// ten milliseconds and never past the deadline; what is there is then read.
pub proof fn law_round_leads_to_a_read(wait: AwaitReady, child: ChildState, now: Moment)
    requires
        wait.phase == AwaitPhase::Confirm(ConfirmRunning::start(child, wait.deadline).0),
        !child.observed_exit,
        child.disposition is None,
        now.nanos < wait.deadline.nanos,
    ensures
        ({
            let data = ChildEvent::Polled(PollOutcome::Ready { broken: false, readable: true });
            let looked = wait.after(child, ChildEvent::Waited(Ok(None)));
            let polling = looked.0.after(looked.1, ChildEvent::Clock(now));
            let reading = polling.0.after(polling.1, data);
            &&& wait.spec_action() == Some(ChildAction::WaitExit)
            &&& looked.0.spec_action() == Some(ChildAction::ReadClock)
            &&& polling.0.spec_action() matches Some(ChildAction::PollReadiness { nanos }) && 0
                < nanos <= 10_000_000 && now.nanos + nanos <= wait.deadline.nanos
            &&& reading.0.spec_action() == Some(ChildAction::ReadReadiness)
            &&& reading.0 == (AwaitReady { phase: AwaitPhase::Read, ..wait })
            &&& reading.1 == child
        }),
{
    law_live_child_is_running(child, wait.deadline, None);
}

/// A child that runs and has a channel is waited for, beginning with a round in
/// which nothing was read yet; once its letter R was read, another round begins.
pub proof fn law_wait_goes_in_rounds(child: ChildState, deadline: Moment)
    requires
        child.readiness_open,
        !child.observed_exit,
        child.disposition is None,
    ensures
        ({
            let (wait, begun) = AwaitReady::start(child, deadline);
            let reading = AwaitReady { phase: AwaitPhase::Read, ..wait };
            let (taken, after) = reading.after(
                begun,
                ChildEvent::ReadinessRead(ReadinessRead::Bytes { count: 1, first: 82u8 }),
            );
            &&& wait.deadline == deadline
            &&& !wait.saw_sentinel
            &&& wait.phase == AwaitPhase::Confirm(ConfirmRunning::start(child, deadline).0)
            &&& begun == child
            &&& taken == (AwaitReady { saw_sentinel: true, ..wait })
            &&& after == child
        }),
{
}

/// Whatever else a child writes is invalid: another letter, more than one byte,
/// anything after the sentinel, or an end without it. The channel is closed.
pub proof fn law_only_the_sentinel_is_taken(
    wait: AwaitReady,
    child: ChildState,
    count: usize,
    byte: u8,
)
    requires
        wait.phase is Read,
        !child.observed_exit,
        child.disposition is None,
    ensures
        ({
            let read = ChildEvent::ReadinessRead(ReadinessRead::Bytes { count, first: byte });
            let (next, after) = wait.after(child, read);
            let (over, kept) = next.after(after, ChildEvent::Waited(Ok(None)));
            let invalid = AwaitPhase::Failed(ProcessError::InvalidReadiness { role: child.role });
            let closed = ChildState { readiness_open: false, ..child };
            &&& count >= 1 && (count > 1 || byte != 82u8 || wait.saw_sentinel) ==> next.phase
                == invalid && after == closed
            &&& count == 1 && byte == 82u8 && !wait.saw_sentinel ==> {
                &&& next.saw_sentinel
                &&& next.spec_action() == Some(ChildAction::WaitExit)
                &&& after == child
            }
            &&& count == 0 ==> {
                &&& next.spec_action() == Some(ChildAction::WaitExit)
                &&& over.phase == AwaitPhase::Ready <==> wait.saw_sentinel
                &&& !wait.saw_sentinel ==> over.phase == invalid
                &&& kept == closed
            }
        }),
{
}

/// A wait ends with a readiness timeout at its deadline, and with a failed
/// channel where polling or reading fails; a quiet or interrupted poll begins
/// another round, and an interrupted read is repeated before the deadline only.
pub proof fn law_failed_readiness_is_told(
    wait: AwaitReady,
    child: ChildState,
    now: Moment,
    readable: bool,
)
    requires
        !child.observed_exit,
        child.disposition is None,
    ensures
        ({
            let timeout = AwaitPhase::Failed(ProcessError::ReadinessTimeout { role: child.role });
            let broken = AwaitPhase::Failed(ProcessError::ReadinessIo { role: child.role });
            let closed = ChildState { readiness_open: false, ..child };
            let again = (
                AwaitReady::start(ChildState { readiness_open: true, ..child }, wait.deadline).0
            ).phase;
            let reading = wait.after(child, ChildEvent::ReadinessRead(ReadinessRead::Interrupted));
            let resumed = reading.0.after(reading.1, ChildEvent::Clock(now));
            let failed = ChildEvent::Polled(PollOutcome::Failed);
            let bad = ChildEvent::Polled(PollOutcome::Ready { broken: true, readable });
            let quiet = ChildEvent::Polled(PollOutcome::Quiet);
            let interrupted = ChildEvent::Polled(PollOutcome::Interrupted);
            let empty = ChildEvent::Polled(PollOutcome::Ready { broken: false, readable: false });
            let unread = ChildEvent::ReadinessRead(ReadinessRead::Failed);
            &&& wait.phase is Clock ==> {
                let (next, after) = wait.after(child, ChildEvent::Clock(now));
                &&& after == child
                &&& now.nanos >= wait.deadline.nanos ==> next.phase == timeout
                &&& now.nanos < wait.deadline.nanos ==> (next.spec_action() matches Some(
                    ChildAction::PollReadiness { nanos },
                ) && 0 < nanos <= 10_000_000 && now.nanos + nanos <= wait.deadline.nanos)
            }
            &&& wait.phase is Poll ==> {
                &&& wait.after(child, failed).0.phase == broken
                &&& wait.after(child, failed).1 == child
                &&& wait.after(child, bad).0.phase == broken
                &&& wait.after(child, bad).1 == closed
                &&& wait.after(child, quiet) == (AwaitReady { phase: again, ..wait }, child)
                &&& wait.after(child, interrupted) == (AwaitReady { phase: again, ..wait }, child)
                &&& wait.after(child, empty) == (AwaitReady { phase: again, ..wait }, child)
            }
            &&& wait.phase is Read ==> {
                &&& wait.after(child, unread).0.phase == broken
                &&& wait.after(child, unread).1 == closed
                &&& reading.0.spec_action() == Some(ChildAction::ReadClock)
                &&& resumed.1 == child
                &&& now.nanos >= wait.deadline.nanos ==> resumed.0.phase == timeout
                &&& now.nanos < wait.deadline.nanos ==> resumed.0 == wait
            }
        }),
{
}

/// A child that was reaped, or that has no channel, is not waited for.
pub proof fn law_wait_needs_a_child_with_a_channel(child: ChildState, deadline: Moment)
    ensures
        child.disposition matches Some(disposition) ==> AwaitReady::start(child, deadline).0.phase
            == AwaitPhase::Failed(ProcessError::EarlyExit { role: child.role, disposition }),
        child.disposition is None && !child.readiness_open ==> AwaitReady::start(
            child,
            deadline,
        ).0.phase == AwaitPhase::Failed(ProcessError::ReadinessUnavailable { role: child.role }),
        child.disposition is Some || !child.readiness_open ==> AwaitReady::start(child, deadline).1
            == child,
{
}

// ---------------------------------------------------------------------------
// The launcher's token.
// ---------------------------------------------------------------------------

/// The token is one byte of value one, once; the proof is the end that follows
/// it. Everything else that the channel gives is invalid, a failed read is a
/// failed channel, and a read that gave nothing changes nothing.
pub proof fn law_only_the_token_is_taken(saw_token: bool, count: usize, byte: u8)
    ensures
        ({
            let outcome = token_outcome(saw_token, TokenRead::Bytes { count, first: byte });
            let invalid = Err::<(bool, bool), TuiReadinessError>(TuiReadinessError::Invalid);
            &&& (outcome matches Ok((_, true))) <==> saw_token && count == 0
            &&& (outcome matches Ok((_, false))) <==> !saw_token && count == 1 && byte == 1
            &&& outcome matches Ok((saw, _)) ==> saw
            &&& outcome is Err ==> outcome == invalid
        }),
        token_outcome(saw_token, TokenRead::Interrupted) == Ok::<(bool, bool), TuiReadinessError>(
            (saw_token, false),
        ),
        token_outcome(saw_token, TokenRead::WouldBlock) == Ok::<(bool, bool), TuiReadinessError>(
            (saw_token, false),
        ),
        token_outcome(saw_token, TokenRead::Failed) == Err::<(bool, bool), TuiReadinessError>(
            TuiReadinessError::Channel,
        ),
{
}

/// A launcher that writes the token and closes its end is proven ready: the wait
/// polls for all the time that is left, reads, and hands the proof out with the
/// end.
pub proof fn law_prompt_launcher_is_proven(
    deadline: Moment,
    first: Moment,
    second: Moment,
    rest: u8,
)
    requires
        first.nanos < deadline.nanos,
        second.nanos < deadline.nanos,
    ensures
        ({
            let data = TokenEvent::Polled(PollOutcome::Ready { broken: false, readable: true });
            let token = TokenEvent::Read(TokenRead::Bytes { count: 1, first: 1 });
            let end = TokenEvent::Read(TokenRead::Bytes { count: 0, first: rest });
            let a = TokenWait::start(deadline);
            let b = a.after(false, TokenEvent::Clock(first));
            let c = b.0.after(b.1, data);
            let d = c.0.after(c.1, token);
            let e = d.0.after(d.1, TokenEvent::Clock(second));
            let f = e.0.after(e.1, data);
            let g = f.0.after(f.1, end);
            &&& a.spec_action() == Some(TokenAction::ReadClock)
            &&& b.0.spec_action() matches Some(TokenAction::Poll { nanos }) && first.nanos + nanos
                == deadline.nanos
            &&& c.0.spec_action() == Some(TokenAction::Read)
            &&& d.0.spec_action() == Some(TokenAction::ReadClock)
            &&& d.1
            &&& e.0.spec_action() matches Some(TokenAction::Poll { nanos }) && second.nanos + nanos
                == deadline.nanos
            &&& f.0.spec_action() == Some(TokenAction::Read)
            &&& g.0.spec_action() is None
            &&& g.0.phase == TokenPhase::Proven
        }),
{
}

/// A wait for the token ends with a timeout at its deadline or where the poll
/// ran out of time, and with a failed channel where polling fails; an
/// interrupted or empty poll looks at the clock again. None of them changes
/// whether the token has arrived.
pub proof fn law_failed_token_wait_is_told(
    wait: TokenWait,
    saw_token: bool,
    now: Moment,
    readable: bool,
)
    ensures
        wait.phase is Clock ==> {
            let (next, saw) = wait.after(saw_token, TokenEvent::Clock(now));
            &&& saw == saw_token
            &&& now.nanos >= wait.deadline.nanos ==> next.phase == TokenPhase::Failed(
                TuiReadinessError::Timeout,
            )
            &&& now.nanos < wait.deadline.nanos ==> (next.spec_action() matches Some(
                TokenAction::Poll { nanos },
            ) && now.nanos + nanos == wait.deadline.nanos)
        },
        wait.phase is Poll ==> {
            let clock = TokenWait { phase: TokenPhase::Clock, ..wait };
            let channel = TokenPhase::Failed(TuiReadinessError::Channel);
            let failed = wait.after(saw_token, TokenEvent::Polled(PollOutcome::Failed));
            let broken = wait.after(
                saw_token,
                TokenEvent::Polled(PollOutcome::Ready { broken: true, readable }),
            );
            let quiet = wait.after(saw_token, TokenEvent::Polled(PollOutcome::Quiet));
            &&& failed.0.phase == channel && failed.1 == saw_token
            &&& broken.0.phase == channel && broken.1 == saw_token
            &&& quiet.0.phase == TokenPhase::Failed(TuiReadinessError::Timeout)
            &&& quiet.1 == saw_token
            &&& wait.after(saw_token, TokenEvent::Polled(PollOutcome::Interrupted)) == (
                clock,
                saw_token,
            )
            &&& wait.after(
                saw_token,
                TokenEvent::Polled(PollOutcome::Ready { broken: false, readable: false }),
            ) == (clock, saw_token)
        },
{
}

} // verus!
