//! What the end of a session means: from the exact wait dispositions of both
//! children to the session status and the guardian's own exit.
use vstd::prelude::*;

use crate::protocol::message::{
    ChildDisposition, GuardianExitDisposition, SessionStatus, SessionTerminationCause, StopAction,
    WorkerJoinStatus,
};

verus! {

/// The App Server ended as an ordered shutdown leaves it: exit status zero,
/// or its TERM delivered without a core dump.
pub open spec fn app_drained(app: ChildDisposition) -> bool {
    match app {
        ChildDisposition::NotStarted => false,
        ChildDisposition::Exited { code, stop_action } => code == 0 && stop_action
            != StopAction::Kill,
        ChildDisposition::Signaled { signal, core_dumped, stop_action } => signal == 15
            && !core_dumped && stop_action == StopAction::Term,
    }
}

/// The signal, if any, that the session was asked to end with.
pub open spec fn forwarded_signal(cause: SessionTerminationCause) -> Option<u8> {
    match cause {
        SessionTerminationCause::ForwardedHup => Some(1u8),
        SessionTerminationCause::ForwardedTerm => Some(15u8),
        _ => None,
    }
}

/// The session status and guardian exit that the two dispositions stand for.
pub open spec fn terminal_semantics(
    app: ChildDisposition,
    tui: ChildDisposition,
    worker: WorkerJoinStatus,
    cause: SessionTerminationCause,
) -> (SessionStatus, GuardianExitDisposition) {
    let internal = (SessionStatus::Failed, GuardianExitDisposition::InternalFailure);
    if worker != WorkerJoinStatus::JoinedClean || !app_drained(app) {
        internal
    } else {
        match tui {
            ChildDisposition::NotStarted => internal,
            ChildDisposition::Exited { code, stop_action } => {
                let natural = stop_action == StopAction::NoAction;
                let stopped = stop_action == StopAction::Term && cause
                    == SessionTerminationCause::CoordinatorStop;
                if natural || stopped {
                    (
                        if code == 0 {
                            SessionStatus::Completed
                        } else {
                            SessionStatus::Failed
                        },
                        GuardianExitDisposition::Code(code),
                    )
                } else {
                    internal
                }
            },
            ChildDisposition::Signaled { signal, stop_action, .. } => {
                if stop_action == StopAction::NoAction {
                    (
                        if forwarded_signal(cause) == Some(signal) {
                            SessionStatus::Completed
                        } else {
                            SessionStatus::Failed
                        },
                        GuardianExitDisposition::Signal(signal),
                    )
                } else if stop_action == StopAction::Term && signal == 15 && cause
                    == SessionTerminationCause::CoordinatorStop {
                    (SessionStatus::Completed, GuardianExitDisposition::Code(0))
                } else {
                    internal
                }
            },
        }
    }
}

/// Projects the exact dispositions of a finished session onto its status and
/// the exit that the guardian applies to itself.
pub fn project_terminal_semantics(
    app: ChildDisposition,
    tui: ChildDisposition,
    worker: WorkerJoinStatus,
    cause: SessionTerminationCause,
) -> (projected: (SessionStatus, GuardianExitDisposition))
    ensures
        projected == terminal_semantics(app, tui, worker, cause),
{
    let app_expected = matches!(
        app,
        ChildDisposition::Exited {
            code: 0,
            stop_action: StopAction::NoAction | StopAction::Term,
        } | ChildDisposition::Signaled {
            signal: 15,
            core_dumped: false,
            stop_action: StopAction::Term,
        }
    );
    if worker != WorkerJoinStatus::JoinedClean || !app_expected {
        return (SessionStatus::Failed, GuardianExitDisposition::InternalFailure);
    }
    match (cause, tui) {
        (
            SessionTerminationCause::NaturalTuiEof,
            ChildDisposition::Exited { code, stop_action: StopAction::NoAction },
        ) => (status_of_code(code), GuardianExitDisposition::Code(code)),
        (
            SessionTerminationCause::NaturalTuiEof,
            ChildDisposition::Signaled { signal, stop_action: StopAction::NoAction, .. },
        ) => (SessionStatus::Failed, GuardianExitDisposition::Signal(signal)),
        (
            SessionTerminationCause::CoordinatorStop,
            ChildDisposition::Exited {
                code,
                stop_action: StopAction::NoAction | StopAction::Term,
            },
        ) => (status_of_code(code), GuardianExitDisposition::Code(code)),
        (
            SessionTerminationCause::CoordinatorStop,
            ChildDisposition::Signaled { signal: 15, stop_action: StopAction::Term, .. },
        ) => (SessionStatus::Completed, GuardianExitDisposition::Code(0)),
        (
            SessionTerminationCause::CoordinatorStop,
            ChildDisposition::Signaled { signal, stop_action: StopAction::NoAction, .. },
        ) => (SessionStatus::Failed, GuardianExitDisposition::Signal(signal)),
        (
            SessionTerminationCause::ForwardedHup,
            ChildDisposition::Signaled { signal: 1, stop_action: StopAction::NoAction, .. },
        ) => (SessionStatus::Completed, GuardianExitDisposition::Signal(1)),
        (
            SessionTerminationCause::ForwardedTerm,
            ChildDisposition::Signaled { signal: 15, stop_action: StopAction::NoAction, .. },
        ) => (SessionStatus::Completed, GuardianExitDisposition::Signal(15)),
        (
            SessionTerminationCause::ForwardedHup | SessionTerminationCause::ForwardedTerm,
            ChildDisposition::Exited { code, stop_action: StopAction::NoAction },
        ) => (status_of_code(code), GuardianExitDisposition::Code(code)),
        (
            SessionTerminationCause::ForwardedHup | SessionTerminationCause::ForwardedTerm,
            ChildDisposition::Signaled { signal, stop_action: StopAction::NoAction, .. },
        ) => (SessionStatus::Failed, GuardianExitDisposition::Signal(signal)),
        _ => (SessionStatus::Failed, GuardianExitDisposition::InternalFailure),
    }
}

fn status_of_code(code: u8) -> (status: SessionStatus)
    ensures
        status == (if code == 0 {
            SessionStatus::Completed
        } else {
            SessionStatus::Failed
        }),
{
    if code == 0 {
        SessionStatus::Completed
    } else {
        SessionStatus::Failed
    }
}

/// A session counts as completed only when the worker joined cleanly, the App
/// Server drained, and the TUI ended with status zero or with exactly the
/// signal that it was asked to end with.
pub proof fn law_completion_needs_clean_children(
    app: ChildDisposition,
    tui: ChildDisposition,
    worker: WorkerJoinStatus,
    cause: SessionTerminationCause,
)
    ensures
        terminal_semantics(app, tui, worker, cause).0 == SessionStatus::Completed <==> {
            &&& worker == WorkerJoinStatus::JoinedClean
            &&& app_drained(app)
            &&& match tui {
                ChildDisposition::NotStarted => false,
                ChildDisposition::Exited { code, stop_action } => code == 0 && (stop_action
                    == StopAction::NoAction || (stop_action == StopAction::Term && cause
                    == SessionTerminationCause::CoordinatorStop)),
                ChildDisposition::Signaled { signal, stop_action, .. } => (stop_action
                    == StopAction::NoAction && forwarded_signal(cause) == Some(signal)) || (
                stop_action == StopAction::Term && signal == 15 && cause
                    == SessionTerminationCause::CoordinatorStop),
            }
        },
{
}

/// A TUI that had to be killed, or that never started, always ends the session
/// as an internal failure.
pub proof fn law_killed_tui_is_internal_failure(
    app: ChildDisposition,
    tui: ChildDisposition,
    worker: WorkerJoinStatus,
    cause: SessionTerminationCause,
)
    requires
        match tui {
            ChildDisposition::NotStarted => true,
            ChildDisposition::Exited { stop_action, .. } => stop_action == StopAction::Kill,
            ChildDisposition::Signaled { stop_action, .. } => stop_action == StopAction::Kill,
        },
    ensures
        terminal_semantics(app, tui, worker, cause) == (
            SessionStatus::Failed,
            GuardianExitDisposition::InternalFailure,
        ),
{
}

/// The guardian exits by a signal only to repeat the signal that ended the
/// TUI on its own, and by a code other than zero only to repeat the TUI's code.
pub proof fn law_guardian_exit_repeats_the_tui(
    app: ChildDisposition,
    tui: ChildDisposition,
    worker: WorkerJoinStatus,
    cause: SessionTerminationCause,
)
    ensures
        match terminal_semantics(app, tui, worker, cause).1 {
            GuardianExitDisposition::Signal(exit_signal) => match tui {
                ChildDisposition::Signaled { signal, stop_action, .. } => signal == exit_signal
                    && stop_action == StopAction::NoAction,
                _ => false,
            },
            GuardianExitDisposition::Code(exit_code) => match tui {
                ChildDisposition::Exited { code, .. } => code == exit_code,
                _ => exit_code == 0 && cause == SessionTerminationCause::CoordinatorStop,
            },
            GuardianExitDisposition::InternalFailure => true,
        },
{
}

/// An App Server that did its part: it exited with zero on its own or after its
/// TERM, or it died of exactly that TERM without a core.
pub open spec fn did_its_part(app: ChildDisposition) -> bool {
    ||| app == (ChildDisposition::Exited { code: 0, stop_action: StopAction::NoAction })
    ||| app == (ChildDisposition::Exited { code: 0, stop_action: StopAction::Term })
    ||| app == (ChildDisposition::Signaled {
        signal: 15,
        core_dumped: false,
        stop_action: StopAction::Term,
    })
}

/// With a clean worker and a drained App Server the guardian ends as the TUI
/// did, for every code and every signal: a TUI that exited, by itself or when
/// the coordinator stopped it, passes its code on, and a TUI that died of a
/// signal passes the signal on. Only the TERM of the coordinator's own stop is
/// turned into success.
pub proof fn law_guardian_ends_as_the_tui_did(
    app: ChildDisposition,
    worker: WorkerJoinStatus,
    cause: SessionTerminationCause,
    code: u8,
    signal: u8,
    core_dumped: bool,
)
    requires
        worker == WorkerJoinStatus::JoinedClean,
        did_its_part(app),
    ensures
        ({
            let exited = terminal_semantics(
                app,
                ChildDisposition::Exited { code, stop_action: StopAction::NoAction },
                worker,
                cause,
            );
            &&& exited.1 == GuardianExitDisposition::Code(code)
            &&& exited.0 == SessionStatus::Completed <==> code == 0
        }),
        ({
            let stopped = terminal_semantics(
                app,
                ChildDisposition::Exited { code, stop_action: StopAction::Term },
                worker,
                SessionTerminationCause::CoordinatorStop,
            );
            &&& stopped.1 == GuardianExitDisposition::Code(code)
            &&& stopped.0 == SessionStatus::Completed <==> code == 0
        }),
        ({
            let died = terminal_semantics(
                app,
                ChildDisposition::Signaled {
                    signal,
                    core_dumped,
                    stop_action: StopAction::NoAction,
                },
                worker,
                cause,
            );
            &&& died.1 == GuardianExitDisposition::Signal(signal)
            &&& died.0 == SessionStatus::Completed <==> (signal == 1 && cause
                == SessionTerminationCause::ForwardedHup) || (signal == 15 && cause
                == SessionTerminationCause::ForwardedTerm)
        }),
        terminal_semantics(
            app,
            ChildDisposition::Signaled { signal: 15, core_dumped, stop_action: StopAction::Term },
            worker,
            SessionTerminationCause::CoordinatorStop,
        ) == (SessionStatus::Completed, GuardianExitDisposition::Code(0)),
{
}

/// The guardian ends with an internal failure exactly if something went wrong
/// that is not the TUI's own end: the worker did not join cleanly, the App
/// Server did not do its part, the TUI never started or had to be killed, or it
/// was sent TERM although nobody had stopped the session, or outlived that TERM
/// to die of another signal. Such a session has failed.
pub proof fn law_internal_failure_has_a_reason(
    app: ChildDisposition,
    tui: ChildDisposition,
    worker: WorkerJoinStatus,
    cause: SessionTerminationCause,
)
    ensures
        terminal_semantics(app, tui, worker, cause).1 == GuardianExitDisposition::InternalFailure
            <==> {
            ||| worker != WorkerJoinStatus::JoinedClean
            ||| !did_its_part(app)
            ||| match tui {
                ChildDisposition::NotStarted => true,
                ChildDisposition::Exited { stop_action, .. } => stop_action == StopAction::Kill || (
                stop_action == StopAction::Term && cause
                    != SessionTerminationCause::CoordinatorStop),
                ChildDisposition::Signaled { signal, stop_action, .. } => stop_action
                    == StopAction::Kill || (stop_action == StopAction::Term && (cause
                    != SessionTerminationCause::CoordinatorStop || signal != 15)),
            }
        },
        terminal_semantics(app, tui, worker, cause).1 == GuardianExitDisposition::InternalFailure
            ==> terminal_semantics(app, tui, worker, cause).0 == SessionStatus::Failed,
{
}

/// Whether the TUI left a core, and which way the App Server did its part,
/// makes no difference to the end of the session.
pub proof fn law_end_depends_on_the_tui_alone(
    app: ChildDisposition,
    other_app: ChildDisposition,
    signal: u8,
    stop_action: StopAction,
    tui: ChildDisposition,
    worker: WorkerJoinStatus,
    cause: SessionTerminationCause,
)
    requires
        did_its_part(app),
        did_its_part(other_app),
    ensures
        terminal_semantics(app, tui, worker, cause) == terminal_semantics(
            other_app,
            tui,
            worker,
            cause,
        ),
        terminal_semantics(
            app,
            ChildDisposition::Signaled { signal, core_dumped: true, stop_action },
            worker,
            cause,
        ) == terminal_semantics(
            app,
            ChildDisposition::Signaled { signal, core_dumped: false, stop_action },
            worker,
            cause,
        ),
{
}

/// Whatever the two children came to, the end of their session can be written
/// on the wire: a signal that the guardian repeats is one that a child died of.
pub proof fn law_every_end_is_writable(
    app: ChildDisposition,
    tui: ChildDisposition,
    worker: WorkerJoinStatus,
    cause: SessionTerminationCause,
)
    requires
        tui matches ChildDisposition::Signaled { signal, .. } ==> 1 <= signal <= 127,
    ensures
        crate::protocol::codec::valid_guardian_exit(terminal_semantics(app, tui, worker, cause).1),
{
}

} // verus!
