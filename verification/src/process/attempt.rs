//! Beginning, finishing and retrying a shutdown attempt.
use vstd::prelude::*;

use crate::clock::Moment;
use crate::process::child::{
    AppGracefulDrainState, ChildAuthority, ChildState, ForwardedTuiSignal, ManagedGroupChild,
};
use crate::process::error::{
    first_of_outcome, record_first_error, AppGracefulDrainFailureStage, ProcessError,
};
use crate::process::outcome::{
    PinnedAppGracefulDrain, PinnedAppGracefullyDrained, ReapedChildren, ShutdownCompletion,
    ShutdownOutcome, TuiShutdownMode,
};
use crate::process::shutdown::{
    app_children_drained, child_in_slot, child_reaped, first_unreaped, first_unreaped_child,
    invalidate_undrained_app_children, invalidated_slot, reaped_disposition,
    slot_authority, slot_disposition, slot_drained, slot_with_drop_deadline, unreaped_children,
    PairPhase, ShutdownPair, UnreapedChildren,
};
use crate::process::termination::drain_unconfirmed;
use crate::protocol::message::{ChildDisposition, ChildRole};

verus! {

// ---------------------------------------------------------------------------
// Beginning.
// ---------------------------------------------------------------------------

/// The first error once the role in a slot was checked.
pub open spec fn role_checked<H>(
    child: Option<ManagedGroupChild<H>>,
    role: ChildRole,
    first_error: Option<ProcessError>,
) -> Option<ProcessError> {
    match child {
        Some(child) => first_of_outcome(first_error, child.state.role_outcome(role)),
        None => first_error,
    }
}

fn validate_child_role<H>(
    child: &Option<ManagedGroupChild<H>>,
    role: ChildRole,
    first_error: &mut Option<ProcessError>,
)
    ensures
        *final(first_error) == role_checked(*child, role, *old(first_error)),
{
    if let Some(child) = child {
        if let Err(error) = child.state.role_matches(role) {
            record_first_error(first_error, error);
        }
    }
}

fn clear_drop_deadline<H>(child: &mut Option<ManagedGroupChild<H>>)
    ensures
        *final(child) == slot_with_drop_deadline(*old(child), None),
{
    if let Some(child) = child {
        child.state.drop_deadline = None;
    }
}

/// The attempt at its first action.
pub open spec fn begun_pair<H>(
    tui: Option<ManagedGroupChild<H>>,
    app_server: Option<ManagedGroupChild<H>>,
    grace_deadline: Moment,
    hard_deadline: Moment,
    tui_shutdown_mode: TuiShutdownMode,
    first_error: Option<ProcessError>,
    has_progress: bool,
) -> ShutdownPair<H> {
    let tui = slot_with_drop_deadline(tui, None);
    let app_server = slot_with_drop_deadline(app_server, None);
    ShutdownPair {
        tui,
        app_server,
        grace_deadline,
        hard_deadline,
        tui_shutdown_mode,
        first_error: role_checked(
            app_server,
            ChildRole::AppServer,
            role_checked(tui, ChildRole::Tui, first_error),
        ),
        has_progress,
        phase: PairPhase::Settled,
    }.enter_begin_tui()
}

/// What is retained where a deadline cannot be represented: both children, and
/// no permission to drain the App Server any more.
pub open spec fn undated_pair<H>(
    tui: Option<ManagedGroupChild<H>>,
    app_server: Option<ManagedGroupChild<H>>,
    tui_shutdown_mode: TuiShutdownMode,
) -> UnreapedChildren<H> {
    UnreapedChildren::retaining(
        invalidated_slot(slot_with_drop_deadline(tui, None)),
        invalidated_slot(slot_with_drop_deadline(app_server, None)),
        ProcessError::Deadline,
        None,
        tui_shutdown_mode,
    )
}

/// The beginning of an attempt: the running pair, or the failure that owns both
/// children where a deadline is missing.
pub open spec fn begun_attempt<H>(
    tui: Option<ManagedGroupChild<H>>,
    app_server: Option<ManagedGroupChild<H>>,
    deadlines: (Option<Moment>, Option<Moment>),
    tui_shutdown_mode: TuiShutdownMode,
    first_error: Option<ProcessError>,
    has_progress: bool,
) -> Result<ShutdownPair<H>, UnreapedChildren<H>> {
    match deadlines {
        (Some(grace_deadline), Some(hard_deadline)) => Ok(
            begun_pair(
                tui,
                app_server,
                grace_deadline,
                hard_deadline,
                tui_shutdown_mode,
                first_error,
                has_progress,
            ),
        ),
        _ => Err(undated_pair(tui, app_server, tui_shutdown_mode)),
    }
}

/// The two deadlines of an attempt that begins now: the grace time, and the
/// forced time after it. A deadline that the clock cannot name is `None`.
pub open spec fn deadlines_from(now: Moment, grace_nanos: int, forced_nanos: int) -> (
    Option<Moment>,
    Option<Moment>,
) {
    if now.nanos + grace_nanos > u64::MAX {
        (None, None)
    } else {
        (
            Some(Moment { nanos: (now.nanos + grace_nanos) as u64 }),
            if now.nanos + grace_nanos + forced_nanos > u64::MAX {
                None
            } else {
                Some(Moment { nanos: (now.nanos + grace_nanos + forced_nanos) as u64 })
            },
        )
    }
}

pub fn attempt_deadlines(now: Moment, grace_nanos: u128, forced_nanos: u128) -> (deadlines: (
    Option<Moment>,
    Option<Moment>,
))
    ensures
        deadlines == deadlines_from(now, grace_nanos as int, forced_nanos as int),
{
    if grace_nanos > u64::MAX as u128 {
        return (None, None);
    }
    let grace_deadline = match now.checked_add(grace_nanos as u64) {
        Some(grace_deadline) => grace_deadline,
        None => {
            return (None, None);
        },
    };
    if forced_nanos > u64::MAX as u128 {
        return (Some(grace_deadline), None);
    }
    (Some(grace_deadline), grace_deadline.checked_add(forced_nanos as u64))
}

/// Begins one bounded attempt. A deadline is `None` where the clock cannot
/// represent it. `has_progress` says that the TUI's output is to be drained
/// between two looks at the children.
pub fn shutdown_pair_inner_with_tui_output_progress<H>(
    tui: Option<ManagedGroupChild<H>>,
    app_server: Option<ManagedGroupChild<H>>,
    grace_deadline: Option<Moment>,
    hard_deadline: Option<Moment>,
    tui_shutdown_mode: TuiShutdownMode,
    first_error: Option<ProcessError>,
    has_progress: bool,
) -> (begun: Result<ShutdownPair<H>, UnreapedChildren<H>>)
    ensures
        begun == begun_attempt(
            tui,
            app_server,
            (grace_deadline, hard_deadline),
            tui_shutdown_mode,
            first_error,
            has_progress,
        ),
{
    let mut tui = tui;
    let mut app_server = app_server;
    clear_drop_deadline(&mut tui);
    clear_drop_deadline(&mut app_server);
    match (grace_deadline, hard_deadline) {
        (Some(grace_deadline), Some(hard_deadline)) => {
            let mut first_error = first_error;
            validate_child_role(&tui, ChildRole::Tui, &mut first_error);
            validate_child_role(&app_server, ChildRole::AppServer, &mut first_error);
            let mut pair = ShutdownPair {
                tui,
                app_server,
                grace_deadline,
                hard_deadline,
                tui_shutdown_mode,
                first_error,
                has_progress,
                phase: PairPhase::Settled,
            };
            pair.go_begin_tui();
            Ok(pair)
        },
        _ => {
            invalidate_undrained_app_children(&mut tui, &mut app_server);
            Err(
                unreaped_children(
                    tui,
                    app_server,
                    ProcessError::Deadline,
                    None,
                    tui_shutdown_mode,
                ),
            )
        },
    }
}

// ---------------------------------------------------------------------------
// Finishing.
// ---------------------------------------------------------------------------

/// The App Server in the slot has shown its drain.
pub open spec fn drain_shown<H>(app_server: Option<ManagedGroupChild<H>>) -> Option<
    ChildAuthority,
> {
    match app_server {
        Some(child) => if child.state.role == ChildRole::AppServer
            && child.state.app_graceful_drain == AppGracefulDrainState::Drained {
            Some(child.state.authority)
        } else {
            None
        },
        None => None,
    }
}

/// A settled attempt completes: every child is reaped, and an App Server has
/// drained.
pub open spec fn completes<H>(pair: ShutdownPair<H>) -> bool {
    pair.reaped() && slot_drained(pair.tui) && slot_drained(pair.app_server)
}

/// What a settled attempt that does not complete leaves behind: both children,
/// and the first error, or else what is still missing.
pub open spec fn retained_after<H>(pair: ShutdownPair<H>) -> UnreapedChildren<H> {
    if !pair.reaped() {
        UnreapedChildren::retaining(
            pair.tui,
            pair.app_server,
            match pair.first_error {
                Some(error) => error,
                None => ProcessError::WaitTimeout {
                    role: first_unreaped(pair.tui, pair.app_server)->0,
                },
            },
            Some(pair.hard_deadline),
            pair.tui_shutdown_mode,
        )
    } else {
        UnreapedChildren::retaining(
            pair.tui,
            pair.app_server,
            match pair.first_error {
                Some(error) => error,
                None => drain_unconfirmed(
                    ChildRole::AppServer,
                    AppGracefulDrainFailureStage::MissingProof,
                ),
            },
            None,
            pair.tui_shutdown_mode,
        )
    }
}

/// The outcome reports a settled attempt: the ends of both children, and the
/// first error.
pub open spec fn reports<H>(outcome: ShutdownOutcome, pair: ShutdownPair<H>) -> bool {
    &&& outcome.reaped().dispositions() == (
        slot_disposition(pair.tui),
        slot_disposition(pair.app_server),
    )
    &&& outcome.first_error() == pair.first_error
}

/// Finishes a settled attempt.
///
/// It completes only if every child is reaped and an App Server has drained;
/// then the outcome reports both dispositions and the first error, and the
/// drain is evidenced for exactly the reaped App Server. Otherwise both
/// children stay owned by the failure, with the first error.
pub fn finish_shutdown<H>(pair: ShutdownPair<H>) -> (finished: Result<
    ShutdownCompletion,
    UnreapedChildren<H>,
>)
    requires
        pair.phase == PairPhase::Settled,
    ensures
        match finished {
            Ok(completion) => {
                &&& completes(pair)
                &&& completion.outcome.reaped().dispositions() == (
                    slot_disposition(pair.tui),
                    slot_disposition(pair.app_server),
                )
                &&& completion.outcome.first_error() == pair.first_error
                &&& reports(completion.outcome, pair)
                &&& match completion.app_gracefully_drained {
                    Some(drained) => drain_shown(pair.app_server) == Some(drained.bound_to()),
                    None => drain_shown(pair.app_server) is None,
                }
            },
            Err(unreaped) => !completes(pair) && unreaped == retained_after(pair),
        },
{
    let ShutdownPair { tui, app_server, hard_deadline, tui_shutdown_mode, first_error, .. } = pair;
    if !child_reaped(&tui) || !child_reaped(&app_server) {
        let error = match first_error {
            Some(error) => error,
            None => ProcessError::WaitTimeout {
                role: match first_unreaped_child(&tui, &app_server) {
                    Some(role) => role,
                    None => ChildRole::AppServer,
                },
            },
        };
        return Err(
            unreaped_children(tui, app_server, error, Some(hard_deadline), tui_shutdown_mode),
        );
    }
    if !app_children_drained(&tui, &app_server) {
        let error = match first_error {
            Some(error) => error,
            None => ProcessError::AppGracefulDrainUnconfirmed {
                role: ChildRole::AppServer,
                stage: AppGracefulDrainFailureStage::MissingProof,
            },
        };
        return Err(unreaped_children(tui, app_server, error, None, tui_shutdown_mode));
    }
    let tui_disposition = match reaped_disposition(&tui, ChildRole::Tui) {
        Ok(disposition) => disposition,
        Err(error) => {
            return Err(unreaped_children(tui, app_server, error, None, tui_shutdown_mode));
        },
    };
    let app_server_disposition = match reaped_disposition(&app_server, ChildRole::AppServer) {
        Ok(disposition) => disposition,
        Err(error) => {
            return Err(unreaped_children(tui, app_server, error, None, tui_shutdown_mode));
        },
    };
    let children = ReapedChildren::mint(tui_disposition, app_server_disposition);
    let app_gracefully_drained = match &app_server {
        Some(child) => if child.state.role == ChildRole::AppServer
            && child.state.app_graceful_drain == AppGracefulDrainState::Drained {
            Some(PinnedAppGracefullyDrained::mint(child.state.authority))
        } else {
            None
        },
        None => None,
    };
    let outcome = match first_error {
        Some(error) => ShutdownOutcome::Failed { children, error },
        None => ShutdownOutcome::Clean(children),
    };
    Ok(ShutdownCompletion { outcome, app_gracefully_drained })
}

// ---------------------------------------------------------------------------
// Entry points.
// ---------------------------------------------------------------------------

/// The mode and the first error that a forwarded signal calls for: a proof
/// about another child only earns an error, and the TUI its own TERM.
pub open spec fn forwarded_start(
    forwarded: ForwardedTuiSignal,
    tui: ChildState,
) -> (TuiShutdownMode, Option<ProcessError>) {
    if forwarded.proves(tui) {
        (TuiShutdownMode::SignalAlreadyForwarded(forwarded.forwarded()), None)
    } else {
        (
            TuiShutdownMode::StartWithTerm,
            Some(ProcessError::ForwardedSignalMismatch { role: ChildRole::Tui }),
        )
    }
}

/// Consumes the proof of a forwarded HUP or TERM at the start of a shutdown.
pub fn mode_after_forwarded_signal(forwarded: ForwardedTuiSignal, tui: &ChildState) -> (start: (
    TuiShutdownMode,
    Option<ProcessError>,
))
    ensures
        start == forwarded_start(forwarded, *tui),
{
    if forwarded.matches(tui) {
        (TuiShutdownMode::SignalAlreadyForwarded(forwarded.signal()), None)
    } else {
        (
            TuiShutdownMode::StartWithTerm,
            Some(ProcessError::ForwardedSignalMismatch { role: ChildRole::Tui }),
        )
    }
}

/// How the App Server's shutdown begins: another child in its place is refused
/// and stays owned.
pub open spec fn begun_app_server<H>(
    app_server: ManagedGroupChild<H>,
    deadlines: (Option<Moment>, Option<Moment>),
) -> Result<ShutdownPair<H>, UnreapedChildren<H>> {
    if app_server.state.role != ChildRole::AppServer {
        Err(
            UnreapedChildren::retaining(
                None,
                Some(app_server),
                ProcessError::RoleMismatch {
                    expected: ChildRole::AppServer,
                    actual: app_server.state.role,
                },
                None,
                TuiShutdownMode::StartWithTerm,
            ),
        )
    } else {
        begun_attempt(
            None,
            Some(app_server),
            deadlines,
            TuiShutdownMode::StartWithTerm,
            None,
            false,
        )
    }
}

/// How the shutdown of a TUI begins that was neither signalled nor seen to end.
pub open spec fn begun_tui<H>(
    tui: ManagedGroupChild<H>,
    deadlines: (Option<Moment>, Option<Moment>),
) -> Result<ShutdownPair<H>, UnreapedChildren<H>> {
    begun_attempt(Some(tui), None, deadlines, TuiShutdownMode::StartWithTerm, None, true)
}

/// How the shutdown of a TUI begins whose output has ended.
pub open spec fn begun_tui_after_eof<H>(
    tui: ManagedGroupChild<H>,
    deadlines: (Option<Moment>, Option<Moment>),
) -> Result<ShutdownPair<H>, UnreapedChildren<H>> {
    begun_attempt(Some(tui), None, deadlines, TuiShutdownMode::OutputEofObserved, None, true)
}

/// How the shutdown of a TUI begins after a signal was forwarded to it.
pub open spec fn begun_tui_after_signal<H>(
    tui: ManagedGroupChild<H>,
    forwarded: ForwardedTuiSignal,
    deadlines: (Option<Moment>, Option<Moment>),
) -> Result<ShutdownPair<H>, UnreapedChildren<H>> {
    let (tui_shutdown_mode, first_error) = forwarded_start(forwarded, tui.state);
    begun_attempt(Some(tui), None, deadlines, tui_shutdown_mode, first_error, true)
}

/// Begins the shutdown of a TUI whose output is drained between two looks.
pub fn shutdown_tui_child_with_output_progress<H>(
    tui: ManagedGroupChild<H>,
    grace_deadline: Option<Moment>,
    hard_deadline: Option<Moment>,
) -> (begun: Result<ShutdownPair<H>, UnreapedChildren<H>>)
    ensures
        begun == begun_tui(tui, (grace_deadline, hard_deadline)),
{
    shutdown_pair_inner_with_tui_output_progress(
        Some(tui),
        None,
        grace_deadline,
        hard_deadline,
        TuiShutdownMode::StartWithTerm,
        None,
        true,
    )
}

/// Begins the shutdown of a TUI after a HUP or TERM was forwarded to it.
pub fn shutdown_tui_after_forwarded_signal_with_output_progress<H>(
    tui: ManagedGroupChild<H>,
    forwarded: ForwardedTuiSignal,
    grace_deadline: Option<Moment>,
    hard_deadline: Option<Moment>,
) -> (begun: Result<ShutdownPair<H>, UnreapedChildren<H>>)
    ensures
        begun == begun_tui_after_signal(tui, forwarded, (grace_deadline, hard_deadline)),
{
    let (tui_shutdown_mode, first_error) = mode_after_forwarded_signal(forwarded, &tui.state);
    shutdown_pair_inner_with_tui_output_progress(
        Some(tui),
        None,
        grace_deadline,
        hard_deadline,
        tui_shutdown_mode,
        first_error,
        true,
    )
}

/// Begins the shutdown of a TUI whose output has ended. The end is a hint of a
/// natural exit, so the TUI gets the whole grace time without a signal.
pub fn shutdown_tui_after_output_eof_with_output_progress<H>(
    tui: ManagedGroupChild<H>,
    grace_deadline: Option<Moment>,
    hard_deadline: Option<Moment>,
) -> (begun: Result<ShutdownPair<H>, UnreapedChildren<H>>)
    ensures
        begun == begun_tui_after_eof(tui, (grace_deadline, hard_deadline)),
{
    shutdown_pair_inner_with_tui_output_progress(
        Some(tui),
        None,
        grace_deadline,
        hard_deadline,
        TuiShutdownMode::OutputEofObserved,
        None,
        true,
    )
}

/// Begins the App Server's one-shot graceful drain. Another child in its place
/// is refused and stays owned.
pub fn shutdown_app_server_child<H>(
    app_server: ManagedGroupChild<H>,
    grace_deadline: Option<Moment>,
    hard_deadline: Option<Moment>,
) -> (begun: Result<ShutdownPair<H>, UnreapedChildren<H>>)
    ensures
        begun == begun_app_server(app_server, (grace_deadline, hard_deadline)),
{
    if app_server.state.role != ChildRole::AppServer {
        let actual = app_server.state.role;
        return Err(
            unreaped_children(
                None,
                Some(app_server),
                ProcessError::RoleMismatch { expected: ChildRole::AppServer, actual },
                None,
                TuiShutdownMode::StartWithTerm,
            ),
        );
    }
    shutdown_pair_inner_with_tui_output_progress(
        None,
        Some(app_server),
        grace_deadline,
        hard_deadline,
        TuiShutdownMode::StartWithTerm,
        None,
        false,
    )
}

/// Finishes a settled App Server shutdown with its drain evidence. A completed
/// shutdown of an App Server always has it.
pub fn finish_app_server_shutdown<H>(pair: ShutdownPair<H>) -> (finished: Result<
    PinnedAppGracefulDrain,
    UnreapedChildren<H>,
>)
    requires
        pair.phase == PairPhase::Settled,
        pair.tui is None,
        pair.app_server matches Some(child) && child.state.role == ChildRole::AppServer,
    ensures
        match finished {
            Ok(drain) => {
                &&& completes(pair)
                &&& drain_shown(pair.app_server) == Some(drain.bound_to())
                &&& drain.reported().reaped().dispositions() == (
                    ChildDisposition::NotStarted,
                    slot_disposition(pair.app_server),
                )
                &&& drain.reported().first_error() == pair.first_error
                &&& reports(drain.reported(), pair)
            },
            Err(unreaped) => !completes(pair) && unreaped == retained_after(pair),
        },
{
    match finish_shutdown(pair) {
        Ok(completion) => match completion.app_gracefully_drained {
            Some(drained) => Ok(PinnedAppGracefulDrain::mint(completion.outcome, drained)),
            None => vstd::pervasive::unreached(),
        },
        Err(unreaped) => Err(unreaped),
    }
}

// ---------------------------------------------------------------------------
// Retrying.
// ---------------------------------------------------------------------------

pub open spec fn holds_app_server<H>(child: Option<ManagedGroupChild<H>>) -> bool {
    child matches Some(child) && child.state.role == ChildRole::AppServer
}

fn slot_holds_app_server<H>(child: &Option<ManagedGroupChild<H>>) -> (holds: bool)
    ensures
        holds == holds_app_server(*child),
{
    match child {
        Some(child) => child.state.role == ChildRole::AppServer,
        None => false,
    }
}

impl<H> UnreapedChildren<H> {
    /// Why the general retry is refused, if it is: there is nothing left to
    /// retry, or an App Server would lose its drain evidence on this path.
    pub open spec fn retry_refusal(self) -> Option<ProcessError> {
        if self.resolved {
            Some(ProcessError::RetryAfterResolution)
        } else if holds_app_server(self.tui) || holds_app_server(self.app_server) {
            Some(
                drain_unconfirmed(
                    ChildRole::AppServer,
                    AppGracefulDrainFailureStage::WrongRetryPath,
                ),
            )
        } else {
            None
        }
    }

    /// Why the App Server retry is refused, if it is.
    pub open spec fn app_retry_refusal(self) -> Option<ProcessError> {
        if self.resolved {
            Some(ProcessError::RetryAfterResolution)
        } else if self.tui is Some || !holds_app_server(self.app_server) {
            Some(
                ProcessError::RoleMismatch {
                    expected: ChildRole::AppServer,
                    actual: match self.app_server {
                        Some(child) => child.state.role,
                        None => ChildRole::Tui,
                    },
                },
            )
        } else {
            None
        }
    }

    /// The failure without the children that a retry has taken out of it. It
    /// remembers which they are.
    pub open spec fn emptied(self) -> Self {
        UnreapedChildren {
            tui: None,
            app_server: None,
            retried: Some((slot_authority(self.tui), slot_authority(self.app_server))),
            ..self
        }
    }

    /// A new attempt with the children that are still owned, and what is left
    /// of the failure; or why there is none, and the failure that is kept.
    pub open spec fn retrying(
        self,
        grace_deadline: Option<Moment>,
        hard_deadline: Option<Moment>,
        has_progress: bool,
    ) -> (Result<ShutdownPair<H>, ProcessError>, Self) {
        match (grace_deadline, hard_deadline) {
            (Some(grace_deadline), Some(hard_deadline)) => (
                Ok(
                    begun_pair(
                        self.tui,
                        self.app_server,
                        grace_deadline,
                        hard_deadline,
                        self.tui_shutdown_mode,
                        Some(self.error),
                        has_progress,
                    ),
                ),
                self.emptied(),
            ),
            _ => (
                Err(ProcessError::Deadline),
                undated_pair(self.tui, self.app_server, self.tui_shutdown_mode),
            ),
        }
    }

    /// Starts a new bounded attempt with the children that are still owned,
    /// the same mode and the first error. `AppServer`-owning failures must use
    /// [`Self::retry_app_server`].
    pub fn retry_inner(
        &mut self,
        grace_deadline: Option<Moment>,
        hard_deadline: Option<Moment>,
        has_progress: bool,
    ) -> (begun: Result<ShutdownPair<H>, ProcessError>)
        requires
            old(self).retried is None,
        ensures
            old(self).retry_refusal() is None ==> (begun, *final(self)) == old(self).retrying(
                grace_deadline,
                hard_deadline,
                has_progress,
            ),
            match old(self).retry_refusal() {
                Some(error) => begun == Err::<ShutdownPair<H>, ProcessError>(error) && *final(self)
                    == *old(self),
                None => match (grace_deadline, hard_deadline) {
                    (Some(grace_deadline), Some(hard_deadline)) => {
                        &&& begun == Ok::<ShutdownPair<H>, ProcessError>(
                            begun_pair(
                                old(self).tui,
                                old(self).app_server,
                                grace_deadline,
                                hard_deadline,
                                old(self).tui_shutdown_mode,
                                Some(old(self).error),
                                has_progress,
                            ),
                        )
                        &&& *final(self) == old(self).emptied()
                    },
                    _ => {
                        &&& begun == Err::<ShutdownPair<H>, ProcessError>(ProcessError::Deadline)
                        &&& *final(self) == undated_pair(
                            old(self).tui,
                            old(self).app_server,
                            old(self).tui_shutdown_mode,
                        )
                    },
                },
            },
    {
        if self.resolved {
            return Err(ProcessError::RetryAfterResolution);
        }
        if slot_holds_app_server(&self.tui) || slot_holds_app_server(&self.app_server) {
            return Err(
                ProcessError::AppGracefulDrainUnconfirmed {
                    role: ChildRole::AppServer,
                    stage: AppGracefulDrainFailureStage::WrongRetryPath,
                },
            );
        }
        self.begin_retry(grace_deadline, hard_deadline, has_progress)
    }

    fn begin_retry(
        &mut self,
        grace_deadline: Option<Moment>,
        hard_deadline: Option<Moment>,
        has_progress: bool,
    ) -> (begun: Result<ShutdownPair<H>, ProcessError>)
        requires
            !old(self).resolved,
            old(self).retried is None,
        ensures
            match (grace_deadline, hard_deadline) {
                (Some(grace_deadline), Some(hard_deadline)) => {
                    &&& begun == Ok::<ShutdownPair<H>, ProcessError>(
                        begun_pair(
                            old(self).tui,
                            old(self).app_server,
                            grace_deadline,
                            hard_deadline,
                            old(self).tui_shutdown_mode,
                            Some(old(self).error),
                            has_progress,
                        ),
                    )
                    &&& *final(self) == old(self).emptied()
                },
                _ => {
                    &&& begun == Err::<ShutdownPair<H>, ProcessError>(ProcessError::Deadline)
                    &&& *final(self) == undated_pair(
                        old(self).tui,
                        old(self).app_server,
                        old(self).tui_shutdown_mode,
                    )
                },
            },
    {
        let retried = (child_in_slot(&self.tui), child_in_slot(&self.app_server));
        let tui = self.tui.take();
        let app_server = self.app_server.take();
        match shutdown_pair_inner_with_tui_output_progress(
            tui,
            app_server,
            grace_deadline,
            hard_deadline,
            self.tui_shutdown_mode,
            Some(self.error),
            has_progress,
        ) {
            Ok(pair) => {
                self.retried = Some(retried);
                Ok(pair)
            },
            Err(unreaped) => {
                self.error = unreaped.error;
                self.tui = unreaped.tui;
                self.app_server = unreaped.app_server;
                Err(self.error)
            },
        }
    }

    /// Finishes a settled retry of the children that were taken out of the
    /// failure: it resolves the failure, or puts the ones that are still
    /// unreaped back into it.
    pub fn finish_retry(&mut self, pair: ShutdownPair<H>) -> (finished: Result<
        ShutdownOutcome,
        ProcessError,
    >)
        requires
            !old(self).resolved,
            old(self).tui is None && old(self).app_server is None,
            old(self).retried == Some((slot_authority(pair.tui), slot_authority(pair.app_server))),
            pair.phase == PairPhase::Settled,
        ensures
            match finished {
                Ok(outcome) => {
                    &&& completes(pair)
                    &&& outcome.reaped().dispositions() == (
                        slot_disposition(pair.tui),
                        slot_disposition(pair.app_server),
                    )
                    &&& outcome.first_error() == pair.first_error
                    &&& reports(outcome, pair)
                    &&& *final(self) == (UnreapedChildren {
                        resolved: true,
                        retried: None,
                        ..*old(self)
                    })
                },
                Err(error) => {
                    &&& !completes(pair)
                    &&& error == retained_after(pair).error
                    &&& *final(self) == (UnreapedChildren {
                        error,
                        tui: retained_after(pair).tui,
                        app_server: retained_after(pair).app_server,
                        retried: None,
                        ..*old(self)
                    })
                },
            },
    {
        self.retried = None;
        match finish_shutdown(pair) {
            Ok(completion) => {
                self.resolved = true;
                Ok(completion.outcome)
            },
            Err(unreaped) => {
                self.error = unreaped.error;
                self.tui = unreaped.tui;
                self.app_server = unreaped.app_server;
                Err(self.error)
            },
        }
    }

    /// Starts a new look at an App Server whose one signal sequence was used.
    /// The record of the App Server makes a second one unreachable.
    pub fn retry_app_server(
        &mut self,
        grace_deadline: Option<Moment>,
        hard_deadline: Option<Moment>,
    ) -> (begun: Result<ShutdownPair<H>, ProcessError>)
        requires
            old(self).retried is None,
        ensures
            old(self).app_retry_refusal() is None ==> (begun, *final(self)) == old(self).retrying(
                grace_deadline,
                hard_deadline,
                false,
            ),
            match old(self).app_retry_refusal() {
                Some(error) => begun == Err::<ShutdownPair<H>, ProcessError>(error) && *final(self)
                    == *old(self),
                None => match (grace_deadline, hard_deadline) {
                    (Some(grace_deadline), Some(hard_deadline)) => {
                        &&& begun == Ok::<ShutdownPair<H>, ProcessError>(
                            begun_pair(
                                None,
                                old(self).app_server,
                                grace_deadline,
                                hard_deadline,
                                old(self).tui_shutdown_mode,
                                Some(old(self).error),
                                false,
                            ),
                        )
                        &&& *final(self) == old(self).emptied()
                    },
                    _ => {
                        &&& begun == Err::<ShutdownPair<H>, ProcessError>(ProcessError::Deadline)
                        &&& *final(self) == undated_pair(
                            None,
                            old(self).app_server,
                            old(self).tui_shutdown_mode,
                        )
                    },
                },
            },
    {
        if self.resolved {
            return Err(ProcessError::RetryAfterResolution);
        }
        if self.tui.is_some() || !slot_holds_app_server(&self.app_server) {
            return Err(
                ProcessError::RoleMismatch {
                    expected: ChildRole::AppServer,
                    actual: match &self.app_server {
                        Some(child) => child.state.role,
                        None => ChildRole::Tui,
                    },
                },
            );
        }
        self.begin_retry(grace_deadline, hard_deadline, false)
    }

    /// Finishes a settled retry of the App Server that was taken out of the
    /// failure, with its drain evidence, or puts the App Server back.
    pub fn finish_retry_app_server(&mut self, pair: ShutdownPair<H>) -> (finished: Result<
        PinnedAppGracefulDrain,
        ProcessError,
    >)
        requires
            !old(self).resolved,
            old(self).tui is None && old(self).app_server is None,
            old(self).retried == Some((slot_authority(pair.tui), slot_authority(pair.app_server))),
            pair.phase == PairPhase::Settled,
            pair.tui is None,
            holds_app_server(pair.app_server),
        ensures
            match finished {
                Ok(drain) => {
                    &&& completes(pair)
                    &&& drain_shown(pair.app_server) == Some(drain.bound_to())
                    &&& drain.reported().reaped().dispositions() == (
                        ChildDisposition::NotStarted,
                        slot_disposition(pair.app_server),
                    )
                    &&& drain.reported().first_error() == pair.first_error
                    &&& reports(drain.reported(), pair)
                    &&& *final(self) == (UnreapedChildren {
                        resolved: true,
                        retried: None,
                        ..*old(self)
                    })
                },
                Err(error) => {
                    &&& !completes(pair)
                    &&& error == retained_after(pair).error
                    &&& *final(self) == (UnreapedChildren {
                        error,
                        app_server: retained_after(pair).app_server,
                        retried: None,
                        ..*old(self)
                    })
                },
            },
    {
        self.retried = None;
        match finish_app_server_shutdown(pair) {
            Ok(drain) => {
                self.resolved = true;
                Ok(drain)
            },
            Err(unreaped) => {
                self.error = unreaped.error;
                self.app_server = unreaped.app_server;
                Err(self.error)
            },
        }
    }
}

} // verus!
