//! The ordered shutdown of both children.
//!
//! Each child is asked to stop, watched until the grace deadline, a TUI that
//! still runs is swept with KILL, and both are exactly reaped before the hard
//! deadline. The first error is kept throughout. Whatever is not reaped stays
//! owned by the failure.
use vstd::prelude::*;

use crate::clock::Moment;
use crate::process::child::{
    AppGracefulDrainState, ChildAuthority, ChildState, ManagedGroupChild,
};
use crate::process::error::{first_of, first_of_outcome, record_first_error, ProcessError};
use crate::process::observe::{
    contained_child_needs_wait, observe_exit_without_reaping, reap_contained,
    try_reap_after_containment, ChildAction, ChildEvent, ObserveExit, ObservePhase,
};
use crate::process::outcome::TuiShutdownMode;
use crate::process::status::ReapOutcome;
use crate::process::termination::{
    app_server_needs_wait, begin_termination, reap_app_server, sweep_with_kill, try_reap_app_server,
    Termination,
};
use crate::protocol::message::{ChildDisposition, ChildRole};

verus! {

// ---------------------------------------------------------------------------
// One slot of the pair.
// ---------------------------------------------------------------------------

/// The record in a slot replaced, the handle kept.
pub open spec fn with_state<H>(
    child: Option<ManagedGroupChild<H>>,
    state: ChildState,
) -> Option<ManagedGroupChild<H>> {
    match child {
        Some(child) => Some(ManagedGroupChild { state, ..child }),
        None => None,
    }
}

pub open spec fn slot_observed<H>(child: Option<ManagedGroupChild<H>>) -> bool {
    child matches Some(child) ==> child.state.ended()
}

pub open spec fn slot_reaped<H>(child: Option<ManagedGroupChild<H>>) -> bool {
    child matches Some(child) ==> child.state.disposition is Some
}

/// An App Server in the slot has drained.
pub open spec fn slot_drained<H>(child: Option<ManagedGroupChild<H>>) -> bool {
    child matches Some(child) ==> child.state.role == ChildRole::AppServer
        ==> child.state.app_graceful_drain == AppGracefulDrainState::Drained
}

/// An App Server that has not drained can no longer.
pub open spec fn invalidated(state: ChildState) -> ChildState {
    if state.role == ChildRole::AppServer && state.app_graceful_drain
        != AppGracefulDrainState::Drained {
        ChildState { app_graceful_drain: AppGracefulDrainState::Invalid, ..state }
    } else {
        state
    }
}

pub open spec fn invalidated_slot<H>(child: Option<ManagedGroupChild<H>>) -> Option<
    ManagedGroupChild<H>,
> {
    match child {
        Some(child) => Some(ManagedGroupChild { state: invalidated(child.state), ..child }),
        None => None,
    }
}

pub open spec fn slot_with_drop_deadline<H>(
    child: Option<ManagedGroupChild<H>>,
    drop_deadline: Option<Moment>,
) -> Option<ManagedGroupChild<H>> {
    match child {
        Some(child) => Some(
            ManagedGroupChild { state: ChildState { drop_deadline, ..child.state }, ..child },
        ),
        None => None,
    }
}

/// The same slot: empty, or the same handle of the same role, identity and
/// policy.
pub open spec fn same_owner<H>(
    left: Option<ManagedGroupChild<H>>,
    right: Option<ManagedGroupChild<H>>,
) -> bool {
    match (left, right) {
        (None, None) => true,
        (Some(left), Some(right)) => {
            &&& left.handle == right.handle
            &&& left.state.role == right.state.role
            &&& left.state.authority == right.state.authority
            &&& left.state.pid == right.state.pid
            &&& left.state.pgid == right.state.pgid
            &&& left.state.containment_policy == right.state.containment_policy
        },
        _ => false,
    }
}

/// Which child is in the slot.
pub open spec fn slot_authority<H>(child: Option<ManagedGroupChild<H>>) -> Option<ChildAuthority> {
    match child {
        Some(child) => Some(child.state.authority),
        None => None,
    }
}

pub(crate) fn child_in_slot<H>(child: &Option<ManagedGroupChild<H>>) -> (authority: Option<
    ChildAuthority,
>)
    ensures
        authority == slot_authority(*child),
{
    match child {
        Some(child) => Some(child.state.authority),
        None => None,
    }
}

pub fn child_observed<H>(child: &Option<ManagedGroupChild<H>>) -> (observed: bool)
    ensures
        observed == slot_observed(*child),
{
    match child {
        Some(child) => child.state.observed_exit || child.state.disposition.is_some(),
        None => true,
    }
}

pub fn child_reaped<H>(child: &Option<ManagedGroupChild<H>>) -> (reaped: bool)
    ensures
        reaped == slot_reaped(*child),
{
    match child {
        Some(child) => child.state.disposition.is_some(),
        None => true,
    }
}

fn child_drained<H>(child: &Option<ManagedGroupChild<H>>) -> (drained: bool)
    ensures
        drained == slot_drained(*child),
{
    match child {
        Some(child) => child.state.role != ChildRole::AppServer || child.state.app_graceful_drain
            == AppGracefulDrainState::Drained,
        None => true,
    }
}

pub fn app_children_drained<H>(
    tui: &Option<ManagedGroupChild<H>>,
    app_server: &Option<ManagedGroupChild<H>>,
) -> (drained: bool)
    ensures
        drained == (slot_drained(*tui) && slot_drained(*app_server)),
{
    child_drained(tui) && child_drained(app_server)
}

fn invalidate_slot<H>(child: &mut Option<ManagedGroupChild<H>>)
    ensures
        *final(child) == invalidated_slot(*old(child)),
{
    if let Some(child) = child {
        if child.state.role == ChildRole::AppServer && child.state.app_graceful_drain
            != AppGracefulDrainState::Drained {
            child.state.app_graceful_drain = AppGracefulDrainState::Invalid;
        }
    }
}

pub fn invalidate_undrained_app_children<H>(
    tui: &mut Option<ManagedGroupChild<H>>,
    app_server: &mut Option<ManagedGroupChild<H>>,
)
    ensures
        *final(tui) == invalidated_slot(*old(tui)),
        *final(app_server) == invalidated_slot(*old(app_server)),
{
    invalidate_slot(tui);
    invalidate_slot(app_server);
}

fn set_drop_deadline<H>(child: &mut Option<ManagedGroupChild<H>>, drop_deadline: Option<Moment>)
    ensures
        *final(child) == slot_with_drop_deadline(*old(child), drop_deadline),
{
    if let Some(child) = child {
        child.state.drop_deadline = drop_deadline;
    }
}

/// The role of the first child that is not reaped.
pub open spec fn first_unreaped<H>(
    tui: Option<ManagedGroupChild<H>>,
    app_server: Option<ManagedGroupChild<H>>,
) -> Option<ChildRole> {
    if !slot_reaped(tui) {
        Some(tui->0.state.role)
    } else if !slot_reaped(app_server) {
        Some(app_server->0.state.role)
    } else {
        None
    }
}

pub fn first_unreaped_child<H>(
    tui: &Option<ManagedGroupChild<H>>,
    app_server: &Option<ManagedGroupChild<H>>,
) -> (role: Option<ChildRole>)
    ensures
        role == first_unreaped(*tui, *app_server),
{
    if let Some(child) = tui {
        if child.state.disposition.is_none() {
            return Some(child.state.role);
        }
    }
    if let Some(child) = app_server {
        if child.state.disposition.is_none() {
            return Some(child.state.role);
        }
    }
    None
}

/// The disposition that a reaped slot reports.
pub open spec fn slot_disposition<H>(child: Option<ManagedGroupChild<H>>) -> ChildDisposition {
    match child {
        Some(child) => match child.state.disposition {
            Some(disposition) => disposition,
            None => ChildDisposition::NotStarted,
        },
        None => ChildDisposition::NotStarted,
    }
}

/// What a slot reports once it is reaped, or that it is still waited for.
pub open spec fn slot_outcome<H>(child: Option<ManagedGroupChild<H>>, role: ChildRole) -> Result<
    ChildDisposition,
    ProcessError,
> {
    if slot_reaped(child) {
        Ok(slot_disposition(child))
    } else {
        Err(ProcessError::WaitTimeout { role })
    }
}

pub fn reaped_disposition<H>(child: &Option<ManagedGroupChild<H>>, role: ChildRole) -> (disposition:
    Result<ChildDisposition, ProcessError>)
    ensures
        disposition == slot_outcome(*child, role),
{
    match child {
        None => Ok(ChildDisposition::NotStarted),
        Some(child) => match child.state.disposition {
            Some(disposition) => Ok(disposition),
            None => Err(ProcessError::WaitTimeout { role }),
        },
    }
}

/// Keeps the error of the output progress, if there was progress to run.
pub fn run_tui_output_progress(
    progressed: Option<Result<(), ProcessError>>,
    first_error: &mut Option<ProcessError>,
)
    ensures
        *final(first_error) == (match progressed {
            Some(outcome) => first_of_outcome(*old(first_error), outcome),
            None => *old(first_error),
        }),
{
    if let Some(Err(error)) = progressed {
        record_first_error(first_error, error);
    }
}

// ---------------------------------------------------------------------------
// Children that could not be reaped.
// ---------------------------------------------------------------------------

/// A failed shutdown that still owns every unreaped direct child.
#[must_use]
pub struct UnreapedChildren<H> {
    pub error: ProcessError,
    pub tui: Option<ManagedGroupChild<H>>,
    pub app_server: Option<ManagedGroupChild<H>>,
    pub tui_shutdown_mode: TuiShutdownMode,
    pub resolved: bool,
    /// The children that a retry under way has taken out.
    pub retried: Option<(Option<ChildAuthority>, Option<ChildAuthority>)>,
}

impl<H> UnreapedChildren<H> {
    pub open spec fn retaining(
        tui: Option<ManagedGroupChild<H>>,
        app_server: Option<ManagedGroupChild<H>>,
        error: ProcessError,
        drop_deadline: Option<Moment>,
        tui_shutdown_mode: TuiShutdownMode,
    ) -> Self {
        UnreapedChildren {
            error,
            tui: slot_with_drop_deadline(tui, drop_deadline),
            app_server: slot_with_drop_deadline(app_server, drop_deadline),
            tui_shutdown_mode,
            resolved: false,
            retried: None,
        }
    }

    pub fn error(&self) -> (error: ProcessError)
        ensures
            error == self.error,
    {
        self.error
    }

    pub fn tui_owned(&self) -> (owned: bool)
        ensures
            owned == (self.tui is Some),
    {
        self.tui.is_some()
    }

    pub fn app_server_owned(&self) -> (owned: bool)
        ensures
            owned == (self.app_server is Some),
    {
        self.app_server.is_some()
    }
}

pub fn unreaped_children<H>(
    tui: Option<ManagedGroupChild<H>>,
    app_server: Option<ManagedGroupChild<H>>,
    error: ProcessError,
    drop_deadline: Option<Moment>,
    tui_shutdown_mode: TuiShutdownMode,
) -> (unreaped: UnreapedChildren<H>)
    ensures
        unreaped == UnreapedChildren::retaining(
            tui,
            app_server,
            error,
            drop_deadline,
            tui_shutdown_mode,
        ),
{
    let mut tui = tui;
    let mut app_server = app_server;
    set_drop_deadline(&mut tui, drop_deadline);
    set_drop_deadline(&mut app_server, drop_deadline);
    UnreapedChildren {
        error,
        tui,
        app_server,
        tui_shutdown_mode,
        resolved: false,
        retried: None,
    }
}

// ---------------------------------------------------------------------------
// The machine.
// ---------------------------------------------------------------------------

/// Which child an action is about.
#[derive(Clone, Copy, Debug, PartialEq, Eq, Structural)]
pub enum Slot {
    Tui,
    AppServer,
}

/// What is to be done next.
#[derive(Clone, Copy, Debug, PartialEq, Eq, Structural)]
pub enum PairAction {
    Child { slot: Slot, action: ChildAction },
    /// Let the owner of the TUI's terminal drain its output.
    Progress,
    ReadClock,
    Sleep { deadline: Moment },
}

/// What came of it.
#[derive(Clone, Copy, Debug)]
pub enum PairEvent {
    Child(ChildEvent),
    Progressed(Result<(), ProcessError>),
}

#[derive(Clone, Copy, Debug, PartialEq, Eq, Structural)]
pub enum PairPhase {
    BeginTui(Termination),
    BeginApp(Termination),
    GraceProgress,
    GraceTui(ObserveExit),
    GraceApp(ObserveExit),
    GraceClock,
    GraceSleep,
    SweepTui(Termination),
    SweepApp(Termination),
    ReapProgress,
    ReapTui,
    ReapApp,
    ReapClock,
    ReapSleep,
    Settled,
}

/// One bounded attempt to shut both children down.
pub struct ShutdownPair<H> {
    pub tui: Option<ManagedGroupChild<H>>,
    pub app_server: Option<ManagedGroupChild<H>>,
    pub grace_deadline: Moment,
    pub hard_deadline: Moment,
    pub tui_shutdown_mode: TuiShutdownMode,
    pub first_error: Option<ProcessError>,
    pub has_progress: bool,
    pub phase: PairPhase,
}

/// A consuming wait is due for this child: an App Server at any time, a TUI
/// once its group was swept.
pub open spec fn wait_due(child: ChildState) -> bool {
    child.disposition is None && (child.role == ChildRole::AppServer || child.containment_swept)
}

/// The child after a consuming wait, and the answer, by role.
pub open spec fn reaped_by_role(child: ChildState, outcome: ReapOutcome) -> (
    ChildState,
    Result<bool, ProcessError>,
) {
    if child.role == ChildRole::AppServer {
        reap_app_server(child, outcome)
    } else {
        reap_contained(child, outcome)
    }
}

impl<H> ShutdownPair<H> {
    pub open spec fn at(self, phase: PairPhase) -> Self {
        ShutdownPair { phase, ..self }
    }

    pub open spec fn noting<T>(self, outcome: Result<T, ProcessError>) -> Self {
        ShutdownPair { first_error: first_of_outcome(self.first_error, outcome), ..self }
    }

    pub open spec fn with_tui(self, state: ChildState) -> Self {
        ShutdownPair { tui: with_state(self.tui, state), ..self }
    }

    pub open spec fn with_app(self, state: ChildState) -> Self {
        ShutdownPair { app_server: with_state(self.app_server, state), ..self }
    }

    /// Both children have ended, as far as is known.
    pub open spec fn observed(self) -> bool {
        slot_observed(self.tui) && slot_observed(self.app_server)
    }

    /// Both children are reaped.
    pub open spec fn reaped(self) -> bool {
        slot_reaped(self.tui) && slot_reaped(self.app_server)
    }

    // The stages, last to first: each leads into the next one.

    pub open spec fn end_reap_round(self) -> Self {
        if self.reaped() {
            self.at(PairPhase::Settled)
        } else {
            self.at(PairPhase::ReapClock)
        }
    }

    pub open spec fn enter_reap_app(self) -> Self {
        match self.app_server {
            Some(child) => if wait_due(child.state) {
                self.at(PairPhase::ReapApp)
            } else {
                self.end_reap_round()
            },
            None => self.end_reap_round(),
        }
    }

    pub open spec fn enter_reap_tui(self) -> Self {
        match self.tui {
            Some(child) => if wait_due(child.state) {
                self.at(PairPhase::ReapTui)
            } else {
                self.enter_reap_app()
            },
            None => self.enter_reap_app(),
        }
    }

    pub open spec fn enter_reap(self) -> Self {
        if self.has_progress {
            self.at(PairPhase::ReapProgress)
        } else {
            self.enter_reap_tui()
        }
    }

    pub open spec fn at_sweep_app(self, termination: Termination) -> Self {
        match termination.spec_outcome() {
            Some(outcome) => self.noting(outcome).enter_reap(),
            None => self.at(PairPhase::SweepApp(termination)),
        }
    }

    /// An App Server is never swept.
    pub open spec fn enter_sweep_app(self) -> Self {
        match self.app_server {
            Some(child) => if child.state.role == ChildRole::AppServer {
                self.enter_reap()
            } else {
                let (termination, state) = Termination::start_kill(child.state, self.hard_deadline);
                self.with_app(state).at_sweep_app(termination)
            },
            None => self.enter_reap(),
        }
    }

    pub open spec fn at_sweep_tui(self, termination: Termination) -> Self {
        match termination.spec_outcome() {
            Some(outcome) => self.noting(outcome).enter_sweep_app(),
            None => self.at(PairPhase::SweepTui(termination)),
        }
    }

    #[verifier::opaque]
    pub open spec fn enter_sweep_tui(self) -> Self {
        match self.tui {
            Some(child) => if child.state.role == ChildRole::AppServer {
                self.enter_sweep_app()
            } else {
                let (termination, state) = Termination::start_kill(child.state, self.hard_deadline);
                self.with_tui(state).at_sweep_tui(termination)
            },
            None => self.enter_sweep_app(),
        }
    }

    pub open spec fn end_grace_round(self) -> Self {
        if self.observed() {
            self.enter_sweep_tui()
        } else {
            self.at(PairPhase::GraceClock)
        }
    }

    pub open spec fn at_grace_app(self, observe: ObserveExit) -> Self {
        match observe.phase {
            ObservePhase::Done(_) => self.end_grace_round(),
            ObservePhase::Failed(error) => self.noting(
                Err::<(), ProcessError>(error),
            ).end_grace_round(),
            _ => self.at(PairPhase::GraceApp(observe)),
        }
    }

    pub open spec fn enter_grace_app(self) -> Self {
        match self.app_server {
            Some(child) => self.at_grace_app(ObserveExit::start(child.state, self.grace_deadline)),
            None => self.end_grace_round(),
        }
    }

    pub open spec fn at_grace_tui(self, observe: ObserveExit) -> Self {
        match observe.phase {
            ObservePhase::Done(_) => self.enter_grace_app(),
            ObservePhase::Failed(error) => self.noting(
                Err::<(), ProcessError>(error),
            ).enter_grace_app(),
            _ => self.at(PairPhase::GraceTui(observe)),
        }
    }

    pub open spec fn enter_grace_tui(self) -> Self {
        match self.tui {
            Some(child) => self.at_grace_tui(ObserveExit::start(child.state, self.grace_deadline)),
            None => self.enter_grace_app(),
        }
    }

    #[verifier::opaque]
    pub open spec fn enter_grace(self) -> Self {
        if self.has_progress {
            self.at(PairPhase::GraceProgress)
        } else {
            self.enter_grace_tui()
        }
    }

    pub open spec fn at_begin_app(self, termination: Termination) -> Self {
        match termination.spec_outcome() {
            Some(outcome) => self.noting(outcome).enter_grace(),
            None => self.at(PairPhase::BeginApp(termination)),
        }
    }

    pub open spec fn enter_begin_app(self) -> Self {
        match self.app_server {
            Some(child) => {
                let (termination, state) = Termination::start(child.state, self.grace_deadline);
                self.with_app(state).at_begin_app(termination)
            },
            None => self.enter_grace(),
        }
    }

    pub open spec fn at_begin_tui(self, termination: Termination) -> Self {
        match termination.spec_outcome() {
            Some(outcome) => self.noting(outcome).enter_begin_app(),
            None => self.at(PairPhase::BeginTui(termination)),
        }
    }

    /// A TUI that was already signalled, or whose output ended, is not sent a
    /// TERM of its own.
    pub open spec fn enter_begin_tui(self) -> Self {
        match self.tui {
            Some(child) => if self.tui_shutdown_mode == TuiShutdownMode::StartWithTerm {
                let (termination, state) = Termination::start(child.state, self.grace_deadline);
                self.with_tui(state).at_begin_tui(termination)
            } else {
                self.enter_begin_app()
            },
            None => self.enter_begin_app(),
        }
    }

    /// The hard deadline has passed: nothing more is waited for.
    pub open spec fn expired(self) -> Self {
        ShutdownPair {
            tui: invalidated_slot(self.tui),
            app_server: invalidated_slot(self.app_server),
            first_error: match first_unreaped(self.tui, self.app_server) {
                Some(role) => first_of(self.first_error, ProcessError::WaitTimeout { role }),
                None => self.first_error,
            },
            phase: PairPhase::Settled,
            ..self
        }
    }

    #[verifier::opaque]
    pub open spec fn after_tui_event(self, state: ChildState, event: ChildEvent) -> Self {
        match (self.phase, event) {
            (PairPhase::BeginTui(termination), _) => {
                let (termination, state) = termination.after(state, event);
                self.with_tui(state).at_begin_tui(termination)
            },
            (PairPhase::GraceTui(observe), _) => {
                let (observe, state) = observe.after(state, event);
                self.with_tui(state).at_grace_tui(observe)
            },
            (PairPhase::SweepTui(termination), _) => {
                let (termination, state) = termination.after(state, event);
                self.with_tui(state).at_sweep_tui(termination)
            },
            (PairPhase::ReapTui, ChildEvent::Reaped(outcome)) => {
                let (state, reaped) = reaped_by_role(state, outcome);
                self.with_tui(state).noting(reaped).enter_reap_app()
            },
            _ => self,
        }
    }

    #[verifier::opaque]
    pub open spec fn after_app_event(self, state: ChildState, event: ChildEvent) -> Self {
        match (self.phase, event) {
            (PairPhase::BeginApp(termination), _) => {
                let (termination, state) = termination.after(state, event);
                self.with_app(state).at_begin_app(termination)
            },
            (PairPhase::GraceApp(observe), _) => {
                let (observe, state) = observe.after(state, event);
                self.with_app(state).at_grace_app(observe)
            },
            (PairPhase::SweepApp(termination), _) => {
                let (termination, state) = termination.after(state, event);
                self.with_app(state).at_sweep_app(termination)
            },
            (PairPhase::ReapApp, ChildEvent::Reaped(outcome)) => {
                let (state, reaped) = reaped_by_role(state, outcome);
                self.with_app(state).noting(reaped).end_reap_round()
            },
            _ => self,
        }
    }

    /// The attempt after one event. An event that does not answer the
    /// outstanding action changes nothing.
    pub open spec fn after(self, event: PairEvent) -> Self {
        match (self.phase, event) {
            (PairPhase::GraceProgress, PairEvent::Progressed(outcome)) => self.noting(
                outcome,
            ).enter_grace_tui(),
            (PairPhase::ReapProgress, PairEvent::Progressed(outcome)) => self.noting(
                outcome,
            ).enter_reap_tui(),
            (PairPhase::GraceClock, PairEvent::Child(ChildEvent::Clock(now))) => if now.reached(
                self.grace_deadline,
            ) {
                self.enter_sweep_tui()
            } else {
                self.at(PairPhase::GraceSleep)
            },
            (PairPhase::GraceSleep, PairEvent::Child(ChildEvent::Slept)) => self.enter_grace(),
            (PairPhase::ReapClock, PairEvent::Child(ChildEvent::Clock(now))) => if now.reached(
                self.hard_deadline,
            ) {
                self.expired()
            } else {
                self.at(PairPhase::ReapSleep)
            },
            (PairPhase::ReapSleep, PairEvent::Child(ChildEvent::Slept)) => self.enter_reap(),
            (_, PairEvent::Child(event)) => match pair_slot(self.phase) {
                Some(Slot::Tui) => match self.tui {
                    Some(child) => self.after_tui_event(child.state, event),
                    None => self,
                },
                Some(Slot::AppServer) => match self.app_server {
                    Some(child) => self.after_app_event(child.state, event),
                    None => self,
                },
                None => self,
            },
            _ => self,
        }
    }

    pub open spec fn spec_action(self) -> Option<PairAction> {
        match self.phase {
            PairPhase::BeginTui(termination) => child_action(
                Slot::Tui,
                termination.spec_action(),
            ),
            PairPhase::BeginApp(termination) => child_action(
                Slot::AppServer,
                termination.spec_action(),
            ),
            PairPhase::GraceProgress => Some(PairAction::Progress),
            PairPhase::GraceTui(observe) => child_action(Slot::Tui, observe.spec_action()),
            PairPhase::GraceApp(observe) => child_action(Slot::AppServer, observe.spec_action()),
            PairPhase::GraceClock => Some(PairAction::ReadClock),
            PairPhase::GraceSleep => Some(PairAction::Sleep { deadline: self.grace_deadline }),
            PairPhase::SweepTui(termination) => child_action(
                Slot::Tui,
                termination.spec_action(),
            ),
            PairPhase::SweepApp(termination) => child_action(
                Slot::AppServer,
                termination.spec_action(),
            ),
            PairPhase::ReapProgress => Some(PairAction::Progress),
            PairPhase::ReapTui => child_action(Slot::Tui, Some(ChildAction::TryWait)),
            PairPhase::ReapApp => child_action(Slot::AppServer, Some(ChildAction::TryWait)),
            PairPhase::ReapClock => Some(PairAction::ReadClock),
            PairPhase::ReapSleep => Some(PairAction::Sleep { deadline: self.hard_deadline }),
            PairPhase::Settled => None,
        }
    }
}

/// The child that a phase is about.
pub open spec fn pair_slot(phase: PairPhase) -> Option<Slot> {
    match phase {
        PairPhase::BeginTui(_) => Some(Slot::Tui),
        PairPhase::GraceTui(_) => Some(Slot::Tui),
        PairPhase::SweepTui(_) => Some(Slot::Tui),
        PairPhase::ReapTui => Some(Slot::Tui),
        PairPhase::BeginApp(_) => Some(Slot::AppServer),
        PairPhase::GraceApp(_) => Some(Slot::AppServer),
        PairPhase::SweepApp(_) => Some(Slot::AppServer),
        PairPhase::ReapApp => Some(Slot::AppServer),
        _ => None,
    }
}

pub open spec fn child_action(slot: Slot, action: Option<ChildAction>) -> Option<PairAction> {
    match action {
        Some(action) => Some(PairAction::Child { slot, action }),
        None => None,
    }
}

fn action_of(slot: Slot, action: Option<ChildAction>) -> (pair_action: Option<PairAction>)
    ensures
        pair_action == child_action(slot, action),
{
    match action {
        Some(action) => Some(PairAction::Child { slot, action }),
        None => None,
    }
}

fn reap_by_role(child: &mut ChildState, outcome: ReapOutcome) -> (reaped: Result<bool, ProcessError>)
    ensures
        (*final(child), reaped) == reaped_by_role(*old(child), outcome),
{
    if child.role == ChildRole::AppServer {
        try_reap_app_server(child, outcome)
    } else {
        try_reap_after_containment(child, outcome)
    }
}

fn wait_is_due(child: &ChildState) -> (due: bool)
    ensures
        due == wait_due(*child),
{
    if child.role == ChildRole::AppServer {
        app_server_needs_wait(child)
    } else {
        contained_child_needs_wait(child)
    }
}

impl<H> ShutdownPair<H> {
    fn note<T>(&mut self, outcome: Result<T, ProcessError>)
        ensures
            *final(self) == old(self).noting(outcome),
    {
        if let Err(error) = outcome {
            record_first_error(&mut self.first_error, error);
        }
    }

    fn go_end_reap_round(&mut self)
        ensures
            *final(self) == old(self).end_reap_round(),
    {
        self.phase = if child_reaped(&self.tui) && child_reaped(&self.app_server) {
            PairPhase::Settled
        } else {
            PairPhase::ReapClock
        };
    }

    fn go_reap_app(&mut self)
        ensures
            *final(self) == old(self).enter_reap_app(),
    {
        let due = match &self.app_server {
            Some(child) => wait_is_due(&child.state),
            None => false,
        };
        if due {
            self.phase = PairPhase::ReapApp;
        } else {
            self.go_end_reap_round();
        }
    }

    fn go_reap_tui(&mut self)
        ensures
            *final(self) == old(self).enter_reap_tui(),
    {
        let due = match &self.tui {
            Some(child) => wait_is_due(&child.state),
            None => false,
        };
        if due {
            self.phase = PairPhase::ReapTui;
        } else {
            self.go_reap_app();
        }
    }

    fn go_reap(&mut self)
        ensures
            *final(self) == old(self).enter_reap(),
    {
        if self.has_progress {
            self.phase = PairPhase::ReapProgress;
        } else {
            self.go_reap_tui();
        }
    }

    fn take_sweep_app(&mut self, termination: Termination)
        ensures
            *final(self) == old(self).at_sweep_app(termination),
    {
        match termination.outcome() {
            Some(outcome) => {
                self.note(outcome);
                self.go_reap();
            },
            None => {
                self.phase = PairPhase::SweepApp(termination);
            },
        }
    }

    fn go_sweep_app(&mut self)
        ensures
            *final(self) == old(self).enter_sweep_app(),
    {
        let deadline = self.hard_deadline;
        let begun = match &mut self.app_server {
            Some(child) => if child.state.role == ChildRole::AppServer {
                None
            } else {
                Some(sweep_with_kill(&mut child.state, deadline))
            },
            None => None,
        };
        match begun {
            Some(termination) => {
                self.take_sweep_app(termination);
            },
            None => {
                self.go_reap();
            },
        }
    }

    fn take_sweep_tui(&mut self, termination: Termination)
        ensures
            *final(self) == old(self).at_sweep_tui(termination),
    {
        match termination.outcome() {
            Some(outcome) => {
                self.note(outcome);
                self.go_sweep_app();
            },
            None => {
                self.phase = PairPhase::SweepTui(termination);
            },
        }
    }

    fn go_sweep_tui(&mut self)
        ensures
            *final(self) == old(self).enter_sweep_tui(),
    {
        reveal(ShutdownPair::enter_sweep_tui);
        let deadline = self.hard_deadline;
        let begun = match &mut self.tui {
            Some(child) => if child.state.role == ChildRole::AppServer {
                None
            } else {
                Some(sweep_with_kill(&mut child.state, deadline))
            },
            None => None,
        };
        match begun {
            Some(termination) => {
                self.take_sweep_tui(termination);
            },
            None => {
                self.go_sweep_app();
            },
        }
    }

    fn go_end_grace_round(&mut self)
        ensures
            *final(self) == old(self).end_grace_round(),
    {
        if child_observed(&self.tui) && child_observed(&self.app_server) {
            self.go_sweep_tui();
        } else {
            self.phase = PairPhase::GraceClock;
        }
    }

    fn take_grace_app(&mut self, observe: ObserveExit)
        ensures
            *final(self) == old(self).at_grace_app(observe),
    {
        match observe.phase {
            ObservePhase::Done(_) => {
                self.go_end_grace_round();
            },
            ObservePhase::Failed(error) => {
                self.note(Err::<(), ProcessError>(error));
                self.go_end_grace_round();
            },
            _ => {
                self.phase = PairPhase::GraceApp(observe);
            },
        }
    }

    fn go_grace_app(&mut self)
        ensures
            *final(self) == old(self).enter_grace_app(),
    {
        let begun = match &self.app_server {
            Some(child) => Some(ObserveExit::begin(&child.state, self.grace_deadline)),
            None => None,
        };
        match begun {
            Some(observe) => {
                self.take_grace_app(observe);
            },
            None => {
                self.go_end_grace_round();
            },
        }
    }

    fn take_grace_tui(&mut self, observe: ObserveExit)
        ensures
            *final(self) == old(self).at_grace_tui(observe),
    {
        match observe.phase {
            ObservePhase::Done(_) => {
                self.go_grace_app();
            },
            ObservePhase::Failed(error) => {
                self.note(Err::<(), ProcessError>(error));
                self.go_grace_app();
            },
            _ => {
                self.phase = PairPhase::GraceTui(observe);
            },
        }
    }

    fn go_grace_tui(&mut self)
        ensures
            *final(self) == old(self).enter_grace_tui(),
    {
        let begun = match &self.tui {
            Some(child) => Some(ObserveExit::begin(&child.state, self.grace_deadline)),
            None => None,
        };
        match begun {
            Some(observe) => {
                self.take_grace_tui(observe);
            },
            None => {
                self.go_grace_app();
            },
        }
    }

    fn go_grace(&mut self)
        ensures
            *final(self) == old(self).enter_grace(),
    {
        reveal(ShutdownPair::enter_grace);
        if self.has_progress {
            self.phase = PairPhase::GraceProgress;
        } else {
            self.go_grace_tui();
        }
    }

    fn take_begin_app(&mut self, termination: Termination)
        ensures
            *final(self) == old(self).at_begin_app(termination),
    {
        match termination.outcome() {
            Some(outcome) => {
                self.note(outcome);
                self.go_grace();
            },
            None => {
                self.phase = PairPhase::BeginApp(termination);
            },
        }
    }

    fn go_begin_app(&mut self)
        ensures
            *final(self) == old(self).enter_begin_app(),
    {
        let deadline = self.grace_deadline;
        let begun = match &mut self.app_server {
            Some(child) => Some(begin_termination(&mut child.state, deadline)),
            None => None,
        };
        match begun {
            Some(termination) => {
                self.take_begin_app(termination);
            },
            None => {
                self.go_grace();
            },
        }
    }

    fn take_begin_tui(&mut self, termination: Termination)
        ensures
            *final(self) == old(self).at_begin_tui(termination),
    {
        match termination.outcome() {
            Some(outcome) => {
                self.note(outcome);
                self.go_begin_app();
            },
            None => {
                self.phase = PairPhase::BeginTui(termination);
            },
        }
    }

    pub(crate) fn go_begin_tui(&mut self)
        ensures
            *final(self) == old(self).enter_begin_tui(),
    {
        let deadline = self.grace_deadline;
        let start = self.tui_shutdown_mode == TuiShutdownMode::StartWithTerm;
        let begun = match &mut self.tui {
            Some(child) => if start {
                Some(begin_termination(&mut child.state, deadline))
            } else {
                None
            },
            None => None,
        };
        match begun {
            Some(termination) => {
                self.take_begin_tui(termination);
            },
            None => {
                self.go_begin_app();
            },
        }
    }

    fn expire(&mut self)
        ensures
            *final(self) == old(self).expired(),
    {
        let unreaped = first_unreaped_child(&self.tui, &self.app_server);
        invalidate_slot(&mut self.tui);
        invalidate_slot(&mut self.app_server);
        if let Some(role) = unreaped {
            record_first_error(&mut self.first_error, ProcessError::WaitTimeout { role });
        }
        self.phase = PairPhase::Settled;
    }

    /// What is to be done next; `None` once the attempt is settled.
    pub fn action(&self) -> (action: Option<PairAction>)
        ensures
            action == self.spec_action(),
    {
        match self.phase {
            PairPhase::BeginTui(termination) => action_of(Slot::Tui, termination.action()),
            PairPhase::BeginApp(termination) => action_of(Slot::AppServer, termination.action()),
            PairPhase::GraceProgress => Some(PairAction::Progress),
            PairPhase::GraceTui(observe) => action_of(Slot::Tui, observe.action()),
            PairPhase::GraceApp(observe) => action_of(Slot::AppServer, observe.action()),
            PairPhase::GraceClock => Some(PairAction::ReadClock),
            PairPhase::GraceSleep => Some(PairAction::Sleep { deadline: self.grace_deadline }),
            PairPhase::SweepTui(termination) => action_of(Slot::Tui, termination.action()),
            PairPhase::SweepApp(termination) => action_of(Slot::AppServer, termination.action()),
            PairPhase::ReapProgress => Some(PairAction::Progress),
            PairPhase::ReapTui => action_of(Slot::Tui, Some(ChildAction::TryWait)),
            PairPhase::ReapApp => action_of(Slot::AppServer, Some(ChildAction::TryWait)),
            PairPhase::ReapClock => Some(PairAction::ReadClock),
            PairPhase::ReapSleep => Some(PairAction::Sleep { deadline: self.hard_deadline }),
            PairPhase::Settled => None,
        }
    }

    fn take_tui_event(&mut self, event: ChildEvent)
        requires
            old(self).tui is Some,
        ensures
            *final(self) == old(self).after_tui_event(old(self).tui->0.state, event),
    {
        reveal(ShutdownPair::after_tui_event);
        match (self.phase, event) {
            (PairPhase::BeginTui(termination), _) => {
                let mut termination = termination;
                if let Some(child) = &mut self.tui {
                    termination.advance(&mut child.state, event);
                }
                self.take_begin_tui(termination);
            },
            (PairPhase::GraceTui(observe), _) => {
                let mut observe = observe;
                if let Some(child) = &mut self.tui {
                    observe_exit_without_reaping(&mut observe, &mut child.state, event);
                }
                self.take_grace_tui(observe);
            },
            (PairPhase::SweepTui(termination), _) => {
                let mut termination = termination;
                if let Some(child) = &mut self.tui {
                    termination.advance(&mut child.state, event);
                }
                self.take_sweep_tui(termination);
            },
            (PairPhase::ReapTui, ChildEvent::Reaped(outcome)) => {
                let mut reaped: Result<bool, ProcessError> = Ok(false);
                if let Some(child) = &mut self.tui {
                    reaped = reap_by_role(&mut child.state, outcome);
                }
                self.note(reaped);
                self.go_reap_app();
            },
            _ => {},
        }
    }

    fn take_app_event(&mut self, event: ChildEvent)
        requires
            old(self).app_server is Some,
        ensures
            *final(self) == old(self).after_app_event(old(self).app_server->0.state, event),
    {
        reveal(ShutdownPair::after_app_event);
        match (self.phase, event) {
            (PairPhase::BeginApp(termination), _) => {
                let mut termination = termination;
                if let Some(child) = &mut self.app_server {
                    termination.advance(&mut child.state, event);
                }
                self.take_begin_app(termination);
            },
            (PairPhase::GraceApp(observe), _) => {
                let mut observe = observe;
                if let Some(child) = &mut self.app_server {
                    observe_exit_without_reaping(&mut observe, &mut child.state, event);
                }
                self.take_grace_app(observe);
            },
            (PairPhase::SweepApp(termination), _) => {
                let mut termination = termination;
                if let Some(child) = &mut self.app_server {
                    termination.advance(&mut child.state, event);
                }
                self.take_sweep_app(termination);
            },
            (PairPhase::ReapApp, ChildEvent::Reaped(outcome)) => {
                let mut reaped: Result<bool, ProcessError> = Ok(false);
                if let Some(child) = &mut self.app_server {
                    reaped = reap_by_role(&mut child.state, outcome);
                }
                self.note(reaped);
                self.go_end_reap_round();
            },
            _ => {},
        }
    }

    /// Takes in what came of the last action.
    pub fn advance(&mut self, event: PairEvent)
        ensures
            *final(self) == old(self).after(event),
    {
        match (self.phase, event) {
            (PairPhase::GraceProgress, PairEvent::Progressed(outcome)) => {
                run_tui_output_progress(Some(outcome), &mut self.first_error);
                self.go_grace_tui();
            },
            (PairPhase::ReapProgress, PairEvent::Progressed(outcome)) => {
                run_tui_output_progress(Some(outcome), &mut self.first_error);
                self.go_reap_tui();
            },
            (PairPhase::GraceClock, PairEvent::Child(ChildEvent::Clock(now))) => {
                if now.has_reached(self.grace_deadline) {
                    self.go_sweep_tui();
                } else {
                    self.phase = PairPhase::GraceSleep;
                }
            },
            (PairPhase::GraceSleep, PairEvent::Child(ChildEvent::Slept)) => {
                self.go_grace();
            },
            (PairPhase::ReapClock, PairEvent::Child(ChildEvent::Clock(now))) => {
                if now.has_reached(self.hard_deadline) {
                    self.expire();
                } else {
                    self.phase = PairPhase::ReapSleep;
                }
            },
            (PairPhase::ReapSleep, PairEvent::Child(ChildEvent::Slept)) => {
                self.go_reap();
            },
            (
                PairPhase::BeginTui(_)
                | PairPhase::GraceTui(_)
                | PairPhase::SweepTui(_)
                | PairPhase::ReapTui,
                PairEvent::Child(event),
            ) => {
                if self.tui.is_some() {
                    self.take_tui_event(event);
                }
            },
            (
                PairPhase::BeginApp(_)
                | PairPhase::GraceApp(_)
                | PairPhase::SweepApp(_)
                | PairPhase::ReapApp,
                PairEvent::Child(event),
            ) => {
                if self.app_server.is_some() {
                    self.take_app_event(event);
                }
            },
            _ => {},
        }
    }
}

} // verus!
