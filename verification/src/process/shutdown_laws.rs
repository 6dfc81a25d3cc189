//! What holds of every shutdown attempt.
use vstd::prelude::*;

use crate::clock::Moment;
use crate::process::attempt::{begun_pair, retained_after};
use crate::process::child::{AppGracefulDrainState, ChildState, ManagedGroupChild};
use crate::process::error::ProcessError;
use crate::process::observe::{ChildAction, ChildEvent, GroupSignal, ObserveExit, ObservePhase};
use crate::process::outcome::TuiShutdownMode;
use crate::process::shutdown::{
    pair_slot, reaped_by_role, same_owner, slot_authority, PairAction, PairEvent, PairPhase,
    ShutdownPair, Slot, UnreapedChildren,
};
use crate::process::status::{ReapOutcome, Signal};
use crate::process::termination::{AppShutdown, Termination, TuiStop, TuiStopForce, TuiStopPhase};
use crate::protocol::message::ChildRole;

verus! {

/// A later record of the same child: what identifies it and its policy are
/// unchanged, a reaped child stays reaped as it was, and a used drain permission
/// stays used.
pub open spec fn evolves(before: ChildState, after: ChildState) -> bool {
    &&& after.role == before.role
    &&& after.authority == before.authority
    &&& after.pid == before.pid && after.pgid == before.pgid
    &&& after.containment_policy == before.containment_policy
    &&& before.disposition is Some ==> after.disposition == before.disposition
    &&& before.containment_swept ==> after.containment_swept
    &&& before.app_graceful_drain != AppGracefulDrainState::AwaitingInitialTerm
        ==> after.app_graceful_drain != AppGracefulDrainState::AwaitingInitialTerm
}

proof fn lemma_observe_evolves(observe: ObserveExit, child: ChildState, event: ChildEvent)
    ensures
        evolves(child, observe.after(child, event).1),
{
}

proof fn lemma_signal_evolves(sent: GroupSignal, child: ChildState, event: ChildEvent)
    ensures
        evolves(child, sent.after(child, event).1),
        sent.after(child, event).0.signal == sent.signal,
{
}

proof fn lemma_app_shutdown_evolves(shutdown: AppShutdown, child: ChildState, event: ChildEvent)
    ensures
        evolves(child, shutdown.after(child, event).1),
{
}

/// A TUI stop sends the signal of its force.
pub open spec fn stop_consistent(stop: TuiStop) -> bool {
    match stop.phase {
        TuiStopPhase::Signal { sent, .. } => sent.signal == stop.force.unix_signal(),
        _ => true,
    }
}

proof fn lemma_tui_stop_evolves(stop: TuiStop, child: ChildState, event: ChildEvent)
    requires
        stop_consistent(stop),
    ensures
        evolves(child, stop.after(child, event).1),
        stop_consistent(stop.after(child, event).0),
        stop.after(child, event).0.force == stop.force,
{
    match stop.phase {
        TuiStopPhase::Observe(observe) => {
            lemma_observe_evolves(observe, child, event);
        },
        TuiStopPhase::Signal { sent, observation } => {
            lemma_signal_evolves(sent, child, event);
        },
        _ => {},
    }
}

proof fn lemma_tui_stop_start_evolves(child: ChildState, force: TuiStopForce, deadline: Moment)
    ensures
        evolves(child, TuiStop::start(child, force, deadline).1),
        stop_consistent(TuiStop::start(child, force, deadline).0),
        TuiStop::start(child, force, deadline).0.force == force,
{
}

/// The stop of a child that a pair may hold: an App Server is only ever in its
/// own shutdown, a TUI only in a stop of the given force.
pub open spec fn termination_fits(
    termination: Termination,
    child: ChildState,
    force: TuiStopForce,
) -> bool {
    match termination {
        Termination::App(_) => child.role == ChildRole::AppServer && force == TuiStopForce::Term,
        Termination::Tui(stop) => child.role == ChildRole::Tui && stop.force == force
            && stop_consistent(stop),
        Termination::Refused(_) => false,
    }
}

proof fn lemma_termination_evolves(
    termination: Termination,
    child: ChildState,
    force: TuiStopForce,
    event: ChildEvent,
)
    requires
        termination_fits(termination, child, force),
    ensures
        evolves(child, termination.after(child, event).1),
        termination_fits(
            termination.after(child, event).0,
            termination.after(child, event).1,
            force,
        ),
{
    match termination {
        Termination::App(shutdown) => {
            lemma_app_shutdown_evolves(shutdown, child, event);
        },
        Termination::Tui(stop) => {
            lemma_tui_stop_evolves(stop, child, event);
        },
        Termination::Refused(_) => {},
    }
}

proof fn lemma_termination_start(child: ChildState, deadline: Moment)
    ensures
        evolves(child, Termination::start(child, deadline).1),
        termination_fits(
            Termination::start(child, deadline).0,
            Termination::start(child, deadline).1,
            TuiStopForce::Term,
        ),
        child.role != ChildRole::AppServer ==> evolves(
            child,
            Termination::start_kill(child, deadline).1,
        ) && termination_fits(
            Termination::start_kill(child, deadline).0,
            Termination::start_kill(child, deadline).1,
            TuiStopForce::Kill,
        ),
{
    lemma_tui_stop_start_evolves(child, TuiStopForce::Term, deadline);
    lemma_tui_stop_start_evolves(child, TuiStopForce::Kill, deadline);
}

pub open spec fn slot_evolves<H>(
    before: Option<ManagedGroupChild<H>>,
    after: Option<ManagedGroupChild<H>>,
) -> bool {
    match (before, after) {
        (None, None) => true,
        (Some(before), Some(after)) => before.handle == after.handle && evolves(
            before.state,
            after.state,
        ),
        _ => false,
    }
}

/// A later point of the same attempt: the same children, deadlines and mode,
/// and the first error kept.
pub open spec fn continues<H>(before: ShutdownPair<H>, after: ShutdownPair<H>) -> bool {
    &&& slot_evolves(before.tui, after.tui)
    &&& slot_evolves(before.app_server, after.app_server)
    &&& after.grace_deadline == before.grace_deadline
    &&& after.hard_deadline == before.hard_deadline
    &&& after.tui_shutdown_mode == before.tui_shutdown_mode
    &&& after.has_progress == before.has_progress
    &&& before.first_error is Some ==> after.first_error == before.first_error
}

/// Each phase is about a child that is there, in a stop that fits it, and an
/// App Server is in no sweep.
pub open spec fn pair_consistent<H>(pair: ShutdownPair<H>) -> bool {
    match pair.phase {
        PairPhase::BeginTui(termination) => pair.tui matches Some(child) && termination_fits(
            termination,
            child.state,
            TuiStopForce::Term,
        ) && pair.tui_shutdown_mode == TuiShutdownMode::StartWithTerm,
        PairPhase::BeginApp(termination) => pair.app_server matches Some(child)
            && termination_fits(termination, child.state, TuiStopForce::Term),
        PairPhase::SweepTui(termination) => pair.tui matches Some(child) && termination_fits(
            termination,
            child.state,
            TuiStopForce::Kill,
        ),
        PairPhase::SweepApp(termination) => pair.app_server matches Some(child)
            && termination_fits(termination, child.state, TuiStopForce::Kill),
        PairPhase::GraceTui(_) => pair.tui is Some,
        PairPhase::ReapTui => pair.tui is Some,
        PairPhase::GraceApp(_) => pair.app_server is Some,
        PairPhase::ReapApp => pair.app_server is Some,
        _ => true,
    }
}

/// The pair holds an App Server in its slot.
pub open spec fn holds_app<H>(pair: ShutdownPair<H>) -> bool {
    pair.app_server matches Some(child) && child.state.role == ChildRole::AppServer
}

/// The App Server of the pair has used its permission to be signalled.
pub open spec fn spent_app<H>(pair: ShutdownPair<H>) -> bool {
    pair.app_server matches Some(child) && child.state.role == ChildRole::AppServer
        && child.state.app_graceful_drain != AppGracefulDrainState::AwaitingInitialTerm
}

/// The attempt is about to stop what its App Server slot holds.
pub open spec fn stopping_app<H>(pair: ShutdownPair<H>) -> bool {
    pair.phase is BeginApp || pair.phase is SweepApp
}

/// The attempt is sweeping a TUI.
pub open spec fn sweeping<H>(pair: ShutdownPair<H>) -> bool {
    pair.phase is SweepTui || pair.phase is SweepApp
}

spec fn good_step<H>(before: ShutdownPair<H>, after: ShutdownPair<H>) -> bool {
    continues(before, after) && pair_consistent(after)
}

proof fn lemma_good_step_transitive<H>(
    a: ShutdownPair<H>,
    b: ShutdownPair<H>,
    c: ShutdownPair<H>,
)
    requires
        continues(a, b),
        good_step(b, c),
    ensures
        good_step(a, c),
{
}

proof fn lemma_reap_stages<H>(pair: ShutdownPair<H>)
    ensures
        good_step(pair, pair.end_reap_round()),
        good_step(pair, pair.enter_reap_app()),
        good_step(pair, pair.enter_reap_tui()),
        good_step(pair, pair.enter_reap()),
        !stopping_app(pair.end_reap_round()) && !sweeping(pair.end_reap_round()),
        !stopping_app(pair.enter_reap_app()) && !sweeping(pair.enter_reap_app()),
        !stopping_app(pair.enter_reap_tui()) && !sweeping(pair.enter_reap_tui()),
        !stopping_app(pair.enter_reap()) && !sweeping(pair.enter_reap()),
{
}

proof fn lemma_at_sweep_app<H>(pair: ShutdownPair<H>, termination: Termination)
    requires
        pair.app_server matches Some(child) && termination_fits(
            termination,
            child.state,
            TuiStopForce::Kill,
        ),
    ensures
        good_step(pair, pair.at_sweep_app(termination)),
        pair.observed() && sweeping(pair.at_sweep_app(termination)) ==> pair.at_sweep_app(
            termination,
        ).observed(),
{
    if let Some(outcome) = termination.spec_outcome() {
        let noted = pair.noting(outcome);
        lemma_reap_stages(noted);
        lemma_good_step_transitive(pair, noted, noted.enter_reap());
    }
}

proof fn lemma_enter_sweep_app<H>(pair: ShutdownPair<H>)
    ensures
        good_step(pair, pair.enter_sweep_app()),
        holds_app(pair) ==> !stopping_app(pair.enter_sweep_app()),
        pair.observed() && sweeping(pair.enter_sweep_app()) ==> pair.enter_sweep_app().observed(),
{
    lemma_reap_stages(pair);
    if let Some(child) = pair.app_server {
        lemma_termination_start(child.state, pair.hard_deadline);
        if child.state.role != ChildRole::AppServer {
            let (termination, state) = Termination::start_kill(child.state, pair.hard_deadline);
            let moved = pair.with_app(state);
            lemma_at_sweep_app(moved, termination);
            lemma_good_step_transitive(pair, moved, moved.at_sweep_app(termination));
        }
    }
}

proof fn lemma_at_sweep_tui<H>(pair: ShutdownPair<H>, termination: Termination)
    requires
        pair.tui matches Some(child) && termination_fits(
            termination,
            child.state,
            TuiStopForce::Kill,
        ),
    ensures
        good_step(pair, pair.at_sweep_tui(termination)),
        holds_app(pair) ==> !stopping_app(pair.at_sweep_tui(termination)),
        pair.observed() && sweeping(pair.at_sweep_tui(termination)) ==> pair.at_sweep_tui(termination).observed(),
{
    if let Some(outcome) = termination.spec_outcome() {
        let noted = pair.noting(outcome);
        lemma_enter_sweep_app(noted);
        lemma_good_step_transitive(pair, noted, noted.enter_sweep_app());
    }
}

proof fn lemma_enter_sweep_tui<H>(pair: ShutdownPair<H>)
    ensures
        good_step(pair, pair.enter_sweep_tui()),
        holds_app(pair) ==> !stopping_app(pair.enter_sweep_tui()),
        pair.observed() && sweeping(pair.enter_sweep_tui()) ==> pair.enter_sweep_tui().observed(),
{
    reveal(ShutdownPair::enter_sweep_tui);
    lemma_enter_sweep_app(pair);
    if let Some(child) = pair.tui {
        lemma_termination_start(child.state, pair.hard_deadline);
        if child.state.role != ChildRole::AppServer {
            let (termination, state) = Termination::start_kill(child.state, pair.hard_deadline);
            let moved = pair.with_tui(state);
            lemma_at_sweep_tui(moved, termination);
            lemma_good_step_transitive(pair, moved, moved.at_sweep_tui(termination));
        }
    }
}

proof fn lemma_end_grace_round<H>(pair: ShutdownPair<H>)
    ensures
        good_step(pair, pair.end_grace_round()),
        holds_app(pair) ==> !stopping_app(pair.end_grace_round()),
        sweeping(pair.end_grace_round()) ==> pair.end_grace_round().observed(),
{
    lemma_enter_sweep_tui(pair);
}

proof fn lemma_at_grace_app<H>(pair: ShutdownPair<H>, observe: ObserveExit)
    requires
        pair.app_server is Some,
    ensures
        good_step(pair, pair.at_grace_app(observe)),
        holds_app(pair) ==> !stopping_app(pair.at_grace_app(observe)),
        sweeping(pair.at_grace_app(observe)) ==> pair.at_grace_app(observe).observed(),
{
    lemma_end_grace_round(pair);
    if let ObservePhase::Failed(error) = observe.phase {
        let noted = pair.noting(Err::<(), ProcessError>(error));
        lemma_end_grace_round(noted);
        lemma_good_step_transitive(pair, noted, noted.end_grace_round());
    }
}

proof fn lemma_enter_grace_app<H>(pair: ShutdownPair<H>)
    ensures
        good_step(pair, pair.enter_grace_app()),
        holds_app(pair) ==> !stopping_app(pair.enter_grace_app()),
        sweeping(pair.enter_grace_app()) ==> pair.enter_grace_app().observed(),
{
    lemma_end_grace_round(pair);
    if let Some(child) = pair.app_server {
        lemma_at_grace_app(pair, ObserveExit::start(child.state, pair.grace_deadline));
    }
}

proof fn lemma_at_grace_tui<H>(pair: ShutdownPair<H>, observe: ObserveExit)
    requires
        pair.tui is Some,
    ensures
        good_step(pair, pair.at_grace_tui(observe)),
        holds_app(pair) ==> !stopping_app(pair.at_grace_tui(observe)),
        sweeping(pair.at_grace_tui(observe)) ==> pair.at_grace_tui(observe).observed(),
{
    lemma_enter_grace_app(pair);
    if let ObservePhase::Failed(error) = observe.phase {
        let noted = pair.noting(Err::<(), ProcessError>(error));
        lemma_enter_grace_app(noted);
        lemma_good_step_transitive(pair, noted, noted.enter_grace_app());
    }
}

proof fn lemma_enter_grace<H>(pair: ShutdownPair<H>)
    ensures
        good_step(pair, pair.enter_grace_tui()),
        good_step(pair, pair.enter_grace()),
        holds_app(pair) ==> !stopping_app(pair.enter_grace_tui()),
        holds_app(pair) ==> !stopping_app(pair.enter_grace()),
        sweeping(pair.enter_grace_tui()) ==> pair.enter_grace_tui().observed(),
        sweeping(pair.enter_grace()) ==> pair.enter_grace().observed(),
{
    reveal(ShutdownPair::enter_grace);
    lemma_enter_grace_app(pair);
    if let Some(child) = pair.tui {
        lemma_at_grace_tui(pair, ObserveExit::start(child.state, pair.grace_deadline));
    }
}

proof fn lemma_at_begin_app<H>(pair: ShutdownPair<H>, termination: Termination)
    requires
        pair.app_server matches Some(child) && termination_fits(
            termination,
            child.state,
            TuiStopForce::Term,
        ),
    ensures
        good_step(pair, pair.at_begin_app(termination)),
        holds_app(pair) && termination.spec_outcome() is Some ==> !stopping_app(
            pair.at_begin_app(termination),
        ),
        sweeping(pair.at_begin_app(termination)) ==> pair.at_begin_app(termination).observed(),
{
    if let Some(outcome) = termination.spec_outcome() {
        let noted = pair.noting(outcome);
        lemma_enter_grace(noted);
        lemma_good_step_transitive(pair, noted, noted.enter_grace());
    }
}

proof fn lemma_enter_begin_app<H>(pair: ShutdownPair<H>)
    ensures
        good_step(pair, pair.enter_begin_app()),
        spent_app(pair) ==> !stopping_app(pair.enter_begin_app()),
        sweeping(pair.enter_begin_app()) ==> pair.enter_begin_app().observed(),
{
    lemma_enter_grace(pair);
    if let Some(child) = pair.app_server {
        lemma_termination_start(child.state, pair.grace_deadline);
        let (termination, state) = Termination::start(child.state, pair.grace_deadline);
        let moved = pair.with_app(state);
        lemma_at_begin_app(moved, termination);
        lemma_good_step_transitive(pair, moved, moved.at_begin_app(termination));
    }
}

proof fn lemma_at_begin_tui<H>(pair: ShutdownPair<H>, termination: Termination)
    requires
        pair.tui matches Some(child) && termination_fits(
            termination,
            child.state,
            TuiStopForce::Term,
        ),
        pair.tui_shutdown_mode == TuiShutdownMode::StartWithTerm,
    ensures
        good_step(pair, pair.at_begin_tui(termination)),
        spent_app(pair) ==> !stopping_app(pair.at_begin_tui(termination)),
        sweeping(pair.at_begin_tui(termination)) ==> pair.at_begin_tui(termination).observed(),
{
    if let Some(outcome) = termination.spec_outcome() {
        let noted = pair.noting(outcome);
        lemma_enter_begin_app(noted);
        lemma_good_step_transitive(pair, noted, noted.enter_begin_app());
    }
}

proof fn lemma_enter_begin_tui<H>(pair: ShutdownPair<H>)
    ensures
        good_step(pair, pair.enter_begin_tui()),
        spent_app(pair) ==> !stopping_app(pair.enter_begin_tui()),
        sweeping(pair.enter_begin_tui()) ==> pair.enter_begin_tui().observed(),
{
    lemma_enter_begin_app(pair);
    if let Some(child) = pair.tui {
        lemma_termination_start(child.state, pair.grace_deadline);
        if pair.tui_shutdown_mode == TuiShutdownMode::StartWithTerm {
            let (termination, state) = Termination::start(child.state, pair.grace_deadline);
            let moved = pair.with_tui(state);
            lemma_at_begin_tui(moved, termination);
            lemma_good_step_transitive(pair, moved, moved.at_begin_tui(termination));
        }
    }
}

proof fn lemma_reap_evolves(child: ChildState, outcome: ReapOutcome)
    ensures
        evolves(child, reaped_by_role(child, outcome).0),
{
}

proof fn lemma_tui_event<H>(pair: ShutdownPair<H>, state: ChildState, event: ChildEvent)
    requires
        pair_consistent(pair),
        pair.tui matches Some(child) && child.state == state,
    ensures
        good_step(pair, pair.after_tui_event(state, event)),
        spent_app(pair) && !stopping_app(pair) ==> !stopping_app(pair.after_tui_event(state, event)),
        !sweeping(pair) && sweeping(pair.after_tui_event(state, event)) ==> pair.after_tui_event(state, event).observed(),
{
    reveal(ShutdownPair::after_tui_event);
    match (pair.phase, event) {
        (PairPhase::BeginTui(termination), _) => {
            lemma_termination_evolves(termination, state, TuiStopForce::Term, event);
            let (next, after) = termination.after(state, event);
            let moved = pair.with_tui(after);
            lemma_at_begin_tui(moved, next);
            lemma_good_step_transitive(pair, moved, moved.at_begin_tui(next));
        },
        (PairPhase::GraceTui(observe), _) => {
            lemma_observe_evolves(observe, state, event);
            let (next, after) = observe.after(state, event);
            let moved = pair.with_tui(after);
            lemma_at_grace_tui(moved, next);
            lemma_good_step_transitive(pair, moved, moved.at_grace_tui(next));
        },
        (PairPhase::SweepTui(termination), _) => {
            lemma_termination_evolves(termination, state, TuiStopForce::Kill, event);
            let (next, after) = termination.after(state, event);
            let moved = pair.with_tui(after);
            lemma_at_sweep_tui(moved, next);
            lemma_good_step_transitive(pair, moved, moved.at_sweep_tui(next));
        },
        (PairPhase::ReapTui, ChildEvent::Reaped(outcome)) => {
            lemma_reap_evolves(state, outcome);
            let (after, reaped) = reaped_by_role(state, outcome);
            let moved = pair.with_tui(after).noting(reaped);
            lemma_reap_stages(moved);
            lemma_good_step_transitive(pair, moved, moved.enter_reap_app());
        },
        _ => {},
    }
}

proof fn lemma_app_event<H>(pair: ShutdownPair<H>, state: ChildState, event: ChildEvent)
    requires
        pair_consistent(pair),
        pair.app_server matches Some(child) && child.state == state,
    ensures
        good_step(pair, pair.after_app_event(state, event)),
        spent_app(pair) && !stopping_app(pair) ==> !stopping_app(pair.after_app_event(state, event)),
        !sweeping(pair) && sweeping(pair.after_app_event(state, event)) ==> pair.after_app_event(state, event).observed(),
{
    reveal(ShutdownPair::after_app_event);
    match (pair.phase, event) {
        (PairPhase::BeginApp(termination), _) => {
            lemma_termination_evolves(termination, state, TuiStopForce::Term, event);
            let (next, after) = termination.after(state, event);
            let moved = pair.with_app(after);
            lemma_at_begin_app(moved, next);
            lemma_good_step_transitive(pair, moved, moved.at_begin_app(next));
        },
        (PairPhase::GraceApp(observe), _) => {
            lemma_observe_evolves(observe, state, event);
            let (next, after) = observe.after(state, event);
            let moved = pair.with_app(after);
            lemma_at_grace_app(moved, next);
            lemma_good_step_transitive(pair, moved, moved.at_grace_app(next));
        },
        (PairPhase::SweepApp(termination), _) => {
            lemma_termination_evolves(termination, state, TuiStopForce::Kill, event);
            let (next, after) = termination.after(state, event);
            let moved = pair.with_app(after);
            lemma_at_sweep_app(moved, next);
            lemma_good_step_transitive(pair, moved, moved.at_sweep_app(next));
        },
        (PairPhase::ReapApp, ChildEvent::Reaped(outcome)) => {
            lemma_reap_evolves(state, outcome);
            let (after, reaped) = reaped_by_role(state, outcome);
            let moved = pair.with_app(after).noting(reaped);
            lemma_reap_stages(moved);
            lemma_good_step_transitive(pair, moved, moved.end_reap_round());
        },
        _ => {},
    }
}

proof fn lemma_progress_event<H>(pair: ShutdownPair<H>, outcome: Result<(), ProcessError>)
    requires
        pair_consistent(pair),
    ensures
        good_step(pair, pair.after(PairEvent::Progressed(outcome))),
        spent_app(pair) && !stopping_app(pair) ==> !stopping_app(pair.after(PairEvent::Progressed(outcome))),
        !sweeping(pair) && sweeping(pair.after(PairEvent::Progressed(outcome))) ==> pair.after(PairEvent::Progressed(outcome)).observed(),
{
    let noted = pair.noting(outcome);
    match pair.phase {
        PairPhase::GraceProgress => {
            lemma_enter_grace(noted);
            lemma_good_step_transitive(pair, noted, noted.enter_grace_tui());
        },
        PairPhase::ReapProgress => {
            lemma_reap_stages(noted);
            lemma_good_step_transitive(pair, noted, noted.enter_reap_tui());
        },
        _ => {},
    }
}

proof fn lemma_round_event<H>(pair: ShutdownPair<H>, event: ChildEvent)
    requires
        pair_consistent(pair),
        pair_slot(pair.phase) is None,
    ensures
        good_step(pair, pair.after(PairEvent::Child(event))),
        spent_app(pair) ==> !stopping_app(pair.after(PairEvent::Child(event))),
        sweeping(pair.after(PairEvent::Child(event))) ==> pair.after(PairEvent::Child(event)).observed()
            || (event matches ChildEvent::Clock(now) && now.reached(pair.grace_deadline)),
{
    match pair.phase {
        PairPhase::GraceClock => {
            lemma_enter_sweep_tui(pair);
        },
        PairPhase::GraceSleep => {
            lemma_enter_grace(pair);
        },
        PairPhase::ReapSleep => {
            lemma_reap_stages(pair);
        },
        _ => {},
    }
}

proof fn lemma_child_event<H>(pair: ShutdownPair<H>, event: ChildEvent)
    requires
        pair_consistent(pair),
        pair_slot(pair.phase) is Some,
    ensures
        good_step(pair, pair.after(PairEvent::Child(event))),
        spent_app(pair) && !stopping_app(pair) ==> !stopping_app(pair.after(PairEvent::Child(event))),
        !sweeping(pair) && sweeping(pair.after(PairEvent::Child(event))) ==> pair.after(PairEvent::Child(event)).observed(),
{
    match pair_slot(pair.phase) {
        Some(Slot::Tui) => {
            let state = pair.tui->0.state;
            lemma_tui_event(pair, state, event);
            assert(pair.after(PairEvent::Child(event)) == pair.after_tui_event(state, event));
        },
        Some(Slot::AppServer) => {
            let state = pair.app_server->0.state;
            lemma_app_event(pair, state, event);
            assert(pair.after(PairEvent::Child(event)) == pair.after_app_event(state, event));
        },
        None => {},
    }
}

/// Every step of an attempt keeps both children with their owner, keeps the
/// first error, leaves a reaped child as it was reaped, and never gives back a
/// used permission to signal the App Server.
pub proof fn law_attempt_keeps_owners_and_first_error<H>(pair: ShutdownPair<H>, event: PairEvent)
    requires
        pair_consistent(pair),
    ensures
        continues(pair, pair.after(event)),
        pair_consistent(pair.after(event)),
{
    match event {
        PairEvent::Progressed(outcome) => {
            lemma_progress_event(pair, outcome);
        },
        PairEvent::Child(child_event) => {
            if pair_slot(pair.phase) is Some {
                lemma_child_event(pair, child_event);
            } else {
                lemma_round_event(pair, child_event);
            }
        },
    }
}

/// The attempt after a whole series of events.
pub open spec fn after_all<H>(pair: ShutdownPair<H>, events: Seq<PairEvent>) -> ShutdownPair<H>
    decreases events.len(),
{
    if events.len() == 0 {
        pair
    } else {
        after_all(pair, events.drop_last()).after(events.last())
    }
}

/// Whatever happens during an attempt, it keeps its children, its deadlines
/// and its first error.
pub proof fn law_whole_attempt_keeps_owners_and_first_error<H>(
    pair: ShutdownPair<H>,
    events: Seq<PairEvent>,
)
    requires
        pair_consistent(pair),
    ensures
        continues(pair, after_all(pair, events)),
        pair_consistent(after_all(pair, events)),
    decreases events.len(),
{
    if events.len() > 0 {
        let before = after_all(pair, events.drop_last());
        law_whole_attempt_keeps_owners_and_first_error(pair, events.drop_last());
        law_attempt_keeps_owners_and_first_error(before, events.last());
        lemma_good_step_transitive(pair, before, before.after(events.last()));
    }
}

/// An App Server that has used its permission is sent nothing by a later
/// attempt: it begins without a stop of it, and no step ever leads to one.
pub proof fn law_spent_app_server_is_left_alone<H>(pair: ShutdownPair<H>, event: PairEvent)
    requires
        pair_consistent(pair),
        spent_app(pair),
        !stopping_app(pair),
    ensures
        spent_app(pair.after(event)),
        !stopping_app(pair.after(event)),
        pair.spec_action() matches Some(PairAction::Child { slot: Slot::AppServer, action })
            ==> action == ChildAction::WaitExit || action == ChildAction::ReadClock || action
            == ChildAction::TryWait,
{
    match event {
        PairEvent::Progressed(outcome) => {
            lemma_progress_event(pair, outcome);
        },
        PairEvent::Child(child_event) => {
            if pair_slot(pair.phase) is Some {
                lemma_child_event(pair, child_event);
            } else {
                lemma_round_event(pair, child_event);
            }
        },
    }
}

/// The hard deadline ends an attempt: a clock that has reached it settles the
/// pair, with the wait for the first unreaped child as its error if there was
/// none before.
pub proof fn law_hard_deadline_settles<H>(pair: ShutdownPair<H>, now: Moment)
    requires
        pair.phase == PairPhase::ReapClock,
        now.reached(pair.hard_deadline),
    ensures
        pair.after(PairEvent::Child(ChildEvent::Clock(now))).phase == PairPhase::Settled,
        pair.first_error is None && !pair.reaped() ==> pair.after(
            PairEvent::Child(ChildEvent::Clock(now)),
        ).first_error is Some,
{
}

/// A TUI is swept with KILL only once both children have been seen to end, or
/// once the grace deadline was reached.
pub proof fn law_sweep_waits_for_the_end_or_the_grace_deadline<H>(
    pair: ShutdownPair<H>,
    event: PairEvent,
)
    requires
        pair_consistent(pair),
        !sweeping(pair),
        sweeping(pair.after(event)),
    ensures
        pair.after(event).observed() || (event matches PairEvent::Child(ChildEvent::Clock(now))
            && now.reached(pair.grace_deadline)),
{
    match event {
        PairEvent::Progressed(outcome) => {
            lemma_progress_event(pair, outcome);
        },
        PairEvent::Child(child_event) => {
            if pair_slot(pair.phase) is Some {
                lemma_child_event(pair, child_event);
            } else {
                lemma_round_event(pair, child_event);
            }
        },
    }
}

/// Every attempt begins consistently.
pub proof fn law_attempt_begins_consistently<H>(
    tui: Option<ManagedGroupChild<H>>,
    app_server: Option<ManagedGroupChild<H>>,
    grace_deadline: Moment,
    hard_deadline: Moment,
    tui_shutdown_mode: TuiShutdownMode,
    first_error: Option<ProcessError>,
    has_progress: bool,
)
    ensures
        ({
            let pair = begun_pair(
                tui,
                app_server,
                grace_deadline,
                hard_deadline,
                tui_shutdown_mode,
                first_error,
                has_progress,
            );
            &&& pair_consistent(pair)
            &&& same_owner(pair.tui, tui) && same_owner(pair.app_server, app_server)
            &&& first_error is Some ==> pair.first_error == first_error
            &&& pair.tui_shutdown_mode == tui_shutdown_mode
            &&& pair.grace_deadline == grace_deadline && pair.hard_deadline == hard_deadline
            &&& pair.has_progress == has_progress
            &&& spent_app(pair) && app_server is Some
                && app_server->0.state.app_graceful_drain
                != AppGracefulDrainState::AwaitingInitialTerm ==> !stopping_app(pair)
            &&& sweeping(pair) ==> pair.observed()
        }),
{
    let fresh = ShutdownPair {
        tui: crate::process::shutdown::slot_with_drop_deadline(tui, None),
        app_server: crate::process::shutdown::slot_with_drop_deadline(app_server, None),
        grace_deadline,
        hard_deadline,
        tui_shutdown_mode,
        first_error: crate::process::attempt::role_checked(
            crate::process::shutdown::slot_with_drop_deadline(app_server, None),
            ChildRole::AppServer,
            crate::process::attempt::role_checked(
                crate::process::shutdown::slot_with_drop_deadline(tui, None),
                ChildRole::Tui,
                first_error,
            ),
        ),
        has_progress,
        phase: PairPhase::Settled,
    };
    lemma_enter_begin_tui(fresh);
}

/// The record of the child that an action is about.
pub open spec fn acted_on<H>(pair: ShutdownPair<H>, slot: Slot) -> Option<ChildState> {
    match slot {
        Slot::Tui => match pair.tui {
            Some(child) => Some(child.state),
            None => None,
        },
        Slot::AppServer => match pair.app_server {
            Some(child) => Some(child.state),
            None => None,
        },
    }
}

/// No attempt ever kills an App Server or signals its whole group: the only
/// signals that reach it are STOP, TERM and CONT to its exact leader.
pub proof fn law_app_server_is_never_killed<H>(
    pair: ShutdownPair<H>,
    slot: Slot,
    action: ChildAction,
)
    requires
        pair_consistent(pair),
        pair.spec_action() == Some(PairAction::Child { slot, action }),
        acted_on(pair, slot) matches Some(child) && child.role == ChildRole::AppServer,
    ensures
        match action {
            ChildAction::SignalGroup(_) => false,
            ChildAction::KillLeader => false,
            ChildAction::SignalLeader(signal) => signal == Signal::Stop || signal == Signal::Term
                || signal == Signal::Cont,
            _ => true,
        },
{
}

/// A TUI that was already signalled, or whose output ended, is never sent
/// another TERM by the attempt: the only signal left for it is the forced KILL.
pub proof fn law_forwarded_tui_gets_no_second_term<H>(
    pair: ShutdownPair<H>,
    action: ChildAction,
)
    requires
        pair_consistent(pair),
        pair.tui_shutdown_mode != TuiShutdownMode::StartWithTerm,
        pair.spec_action() == Some(PairAction::Child { slot: Slot::Tui, action }),
        pair.tui matches Some(child) && child.state.role == ChildRole::Tui,
    ensures
        match action {
            ChildAction::SignalGroup(signal) => signal == Signal::Kill,
            ChildAction::SignalLeader(_) => false,
            _ => true,
        },
{
}

/// A retry is about the children that it took out of the failure, whatever
/// happens on the way: it can be finished there, and a retry that does not
/// complete puts the same children back, with the first error.
pub proof fn law_retry_keeps_its_owners<H>(
    failure: UnreapedChildren<H>,
    grace_deadline: Moment,
    hard_deadline: Moment,
    has_progress: bool,
    events: Seq<PairEvent>,
)
    ensures
        ({
            let begun = begun_pair(
                failure.tui,
                failure.app_server,
                grace_deadline,
                hard_deadline,
                failure.tui_shutdown_mode,
                Some(failure.error),
                has_progress,
            );
            let pair = after_all(begun, events);
            &&& failure.emptied().retried == Some(
                (slot_authority(pair.tui), slot_authority(pair.app_server)),
            )
            &&& same_owner(retained_after(pair).tui, failure.tui)
            &&& same_owner(retained_after(pair).app_server, failure.app_server)
            &&& retained_after(pair).error == failure.error
        }),
{
    law_attempt_begins_consistently(
        failure.tui,
        failure.app_server,
        grace_deadline,
        hard_deadline,
        failure.tui_shutdown_mode,
        Some(failure.error),
        has_progress,
    );
    let begun = begun_pair(
        failure.tui,
        failure.app_server,
        grace_deadline,
        hard_deadline,
        failure.tui_shutdown_mode,
        Some(failure.error),
        has_progress,
    );
    law_whole_attempt_keeps_owners_and_first_error(begun, events);
}

} // verus!
