//! What holds of every transcript that the validator lets through.
use vstd::prelude::*;

use crate::protocol::codec::valid_process_group;
use crate::protocol::lifecycle::{
    gate_open_state, RecoveryCommandAllowance, TerminalCommandAcceptance, TerminalLifecycleState,
    TerminalLifecycleValidator,
};
use crate::protocol::message::{
    ChildRole, CoordinatorCommand, FailureCode, GuardianEvent, GuardianExitDisposition, Phase,
    ProtocolError, SessionStatus, UnixSignal, WorkerJoinStatus,
};
use crate::protocol::semantics::terminal_semantics;

verus! {

/// One thing that can be done to a validator.
pub enum TranscriptStep {
    Command(CoordinatorCommand),
    Event(GuardianEvent),
    ArmRecovery,
    TakeExit,
}

/// The validator after one step, if the step is accepted.
pub open spec fn apply(
    validator: TerminalLifecycleValidator,
    step: TranscriptStep,
) -> Option<TerminalLifecycleValidator> {
    match step {
        TranscriptStep::Command(command) => match validator.after_command(command) {
            Ok((next, _)) => Some(next),
            Err(_) => None,
        },
        TranscriptStep::Event(event) => match validator.after_event(event) {
            Ok(next) => Some(next),
            Err(_) => None,
        },
        TranscriptStep::ArmRecovery => match validator.after_arming_recovery() {
            Ok(next) => Some(next),
            Err(_) => None,
        },
        TranscriptStep::TakeExit => Some(
            TerminalLifecycleValidator { terminal_exit_disposition: None, ..validator },
        ),
    }
}

/// The validator after a whole transcript, if every step of it is accepted.
pub open spec fn run(steps: Seq<TranscriptStep>) -> Option<TerminalLifecycleValidator>
    decreases steps.len(),
{
    if steps.len() == 0 {
        Some(TerminalLifecycleValidator::initial())
    } else {
        match run(steps.drop_last()) {
            Some(validator) => apply(validator, steps.last()),
            None => None,
        }
    }
}

/// The messages of a transcript, in order.
pub open spec fn messages(steps: Seq<TranscriptStep>) -> Seq<TranscriptStep>
    decreases steps.len(),
{
    if steps.len() == 0 {
        Seq::empty()
    } else {
        let before = messages(steps.drop_last());
        match steps.last() {
            TranscriptStep::Command(_) => before.push(steps.last()),
            TranscriptStep::Event(_) => before.push(steps.last()),
            _ => before,
        }
    }
}

/// What is true of every validator that a transcript can reach.
pub open spec fn reachable_invariant(validator: TerminalLifecycleValidator) -> bool {
    let state = validator.state;
    &&& validator.lease_committed <==> state != TerminalLifecycleState::AwaitLeaseBeforeStart
    &&& validator.tui_started ==> validator.app_started
    &&& validator.gate_ever_opened ==> validator.tui_started
    &&& validator.app_started <==> validator.app_process_group is Some
    &&& validator.failure is Some ==> (state == TerminalLifecycleState::FailedAwaitQuiesced || state
        == TerminalLifecycleState::Quiesced || state
        == TerminalLifecycleState::AwaitRecoveryDisarmed || state
        == TerminalLifecycleState::RecoveryDisarmed || state == TerminalLifecycleState::Terminal)
    &&& validator.termination_cause is Some ==> (state == TerminalLifecycleState::AwaitQuiesced
        || state == TerminalLifecycleState::FailedAwaitQuiesced || state
        == TerminalLifecycleState::Quiesced || state
        == TerminalLifecycleState::AwaitRecoveryDisarmed || state
        == TerminalLifecycleState::RecoveryDisarmed || state == TerminalLifecycleState::Terminal)
    &&& state == TerminalLifecycleState::FailedAwaitQuiesced ==> validator.failure is Some
    &&& validator.superseded_gate_may_be_pending ==> validator.failure is Some && (state
        == TerminalLifecycleState::FailedAwaitQuiesced || state
        == TerminalLifecycleState::Quiesced)
    &&& (validator.recovery_command_allowance is Armed
        || validator.recovery_command_allowance is Consumed) ==> validator.failure is Some
        && !validator.superseded_gate_may_be_pending && (state
        == TerminalLifecycleState::FailedAwaitQuiesced || state
        == TerminalLifecycleState::Quiesced)
    &&& validator.recovery_command_allowance is AwaitingFailure ==> validator.failure is None
        && validator.tui_started && state != TerminalLifecycleState::AwaitRecoveryDisarmed && state
        != TerminalLifecycleState::RecoveryDisarmed && state != TerminalLifecycleState::Terminal
    &&& gate_open_state(state) || state == TerminalLifecycleState::AwaitSuspended || state
        == TerminalLifecycleState::Suspended || state is AwaitSignalForwarded
        || state is AwaitResumed ==> validator.gate_ever_opened
    &&& (state == TerminalLifecycleState::AwaitReady || state
        == TerminalLifecycleState::ReadyForGate || state
        == TerminalLifecycleState::AwaitGateOpened || state
        == TerminalLifecycleState::AwaitQuiesced) ==> validator.tui_started
    &&& state == TerminalLifecycleState::AwaitTui ==> validator.app_started
    &&& validator.terminal_exit_disposition is Some ==> state == TerminalLifecycleState::Terminal
    &&& state == TerminalLifecycleState::Terminal ==> !withholds_terminal(validator.failure)
}

/// A cleanup or restoration failure.
pub open spec fn withholds_terminal(failure: Option<(Phase, FailureCode)>) -> bool {
    match failure {
        Some((phase, code)) => phase == Phase::Cleanup || phase == Phase::Restore || code
            == FailureCode::CleanupMismatch || code == FailureCode::Restore,
        None => false,
    }
}

proof fn lemma_apply_keeps_invariant(validator: TerminalLifecycleValidator, step: TranscriptStep)
    requires
        reachable_invariant(validator),
    ensures
        apply(validator, step) matches Some(next) ==> reachable_invariant(next),
{
}

/// Every accepted transcript leaves the validator in a state in which its
/// bookkeeping agrees: what started, what failed, and what may still come.
pub proof fn law_reachable_invariant(steps: Seq<TranscriptStep>)
    ensures
        run(steps) matches Some(validator) ==> reachable_invariant(validator),
    decreases steps.len(),
{
    if steps.len() != 0 {
        law_reachable_invariant(steps.drop_last());
        if let Some(validator) = run(steps.drop_last()) {
            lemma_apply_keeps_invariant(validator, steps.last());
        }
    }
}

/// The step that the startup handshake requires at a position.
pub open spec fn handshake_step(seen: Seq<TranscriptStep>, position: int) -> bool {
    match seen[position] {
        TranscriptStep::Event(event) => match event {
            GuardianEvent::LeaseCommitted => position == 0,
            GuardianEvent::TerminalArmed { .. } => position == 2,
            GuardianEvent::ChildStarted { role, pid, pgid } => valid_process_group(pid, pgid) && (
            position == 4 && role == ChildRole::AppServer || position == 5 && role
                == ChildRole::Tui),
            GuardianEvent::Ready => position == 6,
            GuardianEvent::InputGateOpened => position == 8,
            _ => false,
        },
        TranscriptStep::Command(command) => match command {
            CoordinatorCommand::Start => position == 1,
            CoordinatorCommand::TerminalArmAccepted => position == 3,
            CoordinatorCommand::OpenInputGate => position == 7,
            _ => false,
        },
        _ => false,
    }
}

/// The first `count` messages are the first `count` steps of the startup
/// handshake: lease, start, terminal armed, arm accepted, App Server started,
/// TUI started in another process group, ready, gate command, gate opened.
pub open spec fn handshake(seen: Seq<TranscriptStep>, count: int) -> bool {
    &&& seen.len() >= count
    &&& forall|position: int|
        0 <= position < count ==> #[trigger] handshake_step(seen, position)
    &&& count >= 6 ==> started_group(seen[4]) != started_group(seen[5])
}

/// The process group that a `ChildStarted` step announces.
pub open spec fn started_group(step: TranscriptStep) -> Option<i32> {
    match step {
        TranscriptStep::Event(GuardianEvent::ChildStarted { pgid, .. }) => Some(pgid),
        _ => None,
    }
}

/// How many steps of the handshake a state stands for before any input
/// gate was opened.
spec fn startup_rank(state: TerminalLifecycleState) -> Option<int> {
    match state {
        TerminalLifecycleState::AwaitLeaseBeforeStart => Some(0),
        TerminalLifecycleState::AwaitStart => Some(1),
        TerminalLifecycleState::AwaitTerminalArmed => Some(2),
        TerminalLifecycleState::AwaitTerminalArmAcceptance => Some(3),
        TerminalLifecycleState::AwaitApp => Some(4),
        TerminalLifecycleState::AwaitTui => Some(5),
        TerminalLifecycleState::AwaitReady => Some(6),
        TerminalLifecycleState::ReadyForGate => Some(7),
        TerminalLifecycleState::AwaitGateOpened => Some(8),
        _ => None,
    }
}

spec fn startup_progress(validator: TerminalLifecycleValidator, seen: Seq<TranscriptStep>) -> bool {
    &&& validator.gate_ever_opened ==> handshake(seen, 9)
    &&& !validator.gate_ever_opened ==> (startup_rank(validator.state) matches Some(rank) ==> {
        &&& seen.len() == rank
        &&& handshake(seen, rank)
        &&& rank >= 5 ==> validator.app_process_group == started_group(seen[4])
    })
}

proof fn lemma_handshake_extends(seen: Seq<TranscriptStep>, step: TranscriptStep, count: int)
    requires
        handshake(seen, count),
        0 <= count,
    ensures
        handshake(seen.push(step), count),
{
    assert forall|position: int| 0 <= position < count implies #[trigger] handshake_step(
        seen.push(step),
        position,
    ) by {
        assert(handshake_step(seen, position));
    }
}

proof fn lemma_startup_progress(steps: Seq<TranscriptStep>)
    ensures
        run(steps) matches Some(validator) ==> startup_progress(validator, messages(steps)),
    decreases steps.len(),
{
    if steps.len() != 0 {
        let before = steps.drop_last();
        let step = steps.last();
        lemma_startup_progress(before);
        law_reachable_invariant(before);
        law_reachable_invariant(steps);
        if let Some(validator) = run(before) {
            if let Some(next) = apply(validator, step) {
                let seen = messages(before);
                if step is Command || step is Event {
                    let after = seen.push(step);
                    if validator.gate_ever_opened {
                        lemma_handshake_extends(seen, step, 9);
                    } else if let Some(rank) = startup_rank(validator.state) {
                        lemma_handshake_extends(seen, step, rank);
                        if next.gate_ever_opened || startup_rank(next.state) is Some {
                            assert(handshake_step(after, rank));
                            assert forall|position: int| 0 <= position < rank + 1 implies
                                #[trigger] handshake_step(after, position) by {
                                if position < rank {
                                    assert(handshake_step(seen, position));
                                }
                            }
                            assert(handshake(after, rank + 1));
                        }
                    }
                }
            }
        }
    }
}

/// Input can be authorized only by the whole handshake: if an input gate is
/// open, or ever was, the transcript began with all nine of its steps in order, and
/// the two children lead different process groups.
pub proof fn law_gate_needs_the_whole_handshake(steps: Seq<TranscriptStep>)
    ensures
        run(steps) matches Some(validator) ==> (gate_open_state(validator.state)
            || validator.gate_ever_opened) ==> handshake(messages(steps), 9),
{
    law_reachable_invariant(steps);
    lemma_startup_progress(steps);
}

/// No input gate is open once a failure was announced or a termination cause
/// is known.
pub proof fn law_failure_closes_the_gate(steps: Seq<TranscriptStep>)
    ensures
        run(steps) matches Some(validator) ==> (validator.failure is Some
            || validator.termination_cause is Some) ==> !gate_open_state(validator.state),
{
    law_reachable_invariant(steps);
}

/// An announced failure stays: no later step clears or replaces it, and no
/// later step opens an input gate.
pub proof fn law_failure_is_permanent(
    validator: TerminalLifecycleValidator,
    step: TranscriptStep,
)
    requires
        reachable_invariant(validator),
        validator.failure is Some,
    ensures
        apply(validator, step) matches Some(next) ==> next.failure == validator.failure
            && !gate_open_state(next.state),
{
}

spec fn seen_at(seen: Seq<TranscriptStep>, index: int, step: TranscriptStep) -> bool {
    0 <= index < seen.len() && seen[index] == step
}

/// The two steps occur in this order.
pub open spec fn ordered_pair(
    seen: Seq<TranscriptStep>,
    first: TranscriptStep,
    second: TranscriptStep,
) -> bool {
    exists|i: int, j: int|
        0 <= i < j < seen.len() && #[trigger] seen[i] == first && #[trigger] seen[j] == second
}

/// The three steps occur in this order.
pub open spec fn ordered_triple(
    seen: Seq<TranscriptStep>,
    first: TranscriptStep,
    second: TranscriptStep,
    third: TranscriptStep,
) -> bool {
    exists|i: int, j: int, k: int|
        0 <= i < j < k < seen.len() && #[trigger] seen[i] == first && #[trigger] seen[j] == second
            && #[trigger] seen[k] == third
}

spec fn quiesced() -> TranscriptStep {
    TranscriptStep::Event(GuardianEvent::TerminalQuiesced)
}

spec fn restored() -> TranscriptStep {
    TranscriptStep::Command(CoordinatorCommand::TerminalRestored)
}

spec fn disarmed() -> TranscriptStep {
    TranscriptStep::Event(GuardianEvent::TerminalRecoveryDisarmed)
}

spec fn teardown_progress(
    validator: TerminalLifecycleValidator,
    seen: Seq<TranscriptStep>,
) -> bool {
    match validator.state {
        TerminalLifecycleState::Quiesced => exists|i: int| #[trigger]
            seen_at(seen, i, quiesced()),
        TerminalLifecycleState::AwaitRecoveryDisarmed => ordered_pair(seen, quiesced(), restored()),
        TerminalLifecycleState::RecoveryDisarmed => ordered_triple(
            seen,
            quiesced(),
            restored(),
            disarmed(),
        ),
        TerminalLifecycleState::Terminal => seen.len() > 0 && ordered_triple(
            seen.drop_last(),
            quiesced(),
            restored(),
            disarmed(),
        ) && (seen.last() matches TranscriptStep::Event(last) && last is ChildrenReaped),
        _ => true,
    }
}

#[verifier::spinoff_prover]
proof fn lemma_teardown_progress(steps: Seq<TranscriptStep>)
    ensures
        run(steps) matches Some(validator) ==> teardown_progress(validator, messages(steps)),
    decreases steps.len(),
{
    if steps.len() != 0 {
        let before = steps.drop_last();
        let step = steps.last();
        lemma_teardown_progress(before);
        law_reachable_invariant(before);
        if let Some(validator) = run(before) {
            if let Some(next) = apply(validator, step) {
                let seen = messages(before);
                if step is Command || step is Event {
                    let after = seen.push(step);
                    assert(after.drop_last() =~= seen);
                    assert(after[seen.len() as int] == step);
                    match next.state {
                        TerminalLifecycleState::Quiesced => {
                            if validator.state == TerminalLifecycleState::Quiesced {
                                let i = choose|i: int| #[trigger] seen_at(seen, i, quiesced());
                                assert(seen_at(after, i, quiesced()));
                            } else {
                                assert(seen_at(after, seen.len() as int, quiesced()));
                            }
                        },
                        TerminalLifecycleState::AwaitRecoveryDisarmed => {
                            if validator.state == TerminalLifecycleState::AwaitRecoveryDisarmed {
                                let (i, j) = choose|i: int, j: int|
                                    0 <= i < j < seen.len() && #[trigger] seen[i] == quiesced()
                                        && #[trigger] seen[j] == restored();
                                assert(after[i] == quiesced() && after[j] == restored());
                            } else {
                                let i = choose|i: int| #[trigger] seen_at(seen, i, quiesced());
                                assert(after[i] == quiesced());
                                assert(after[seen.len() as int] == restored());
                            }
                        },
                        TerminalLifecycleState::RecoveryDisarmed => {
                            if validator.state == TerminalLifecycleState::RecoveryDisarmed {
                                let (i, j, k) = choose|i: int, j: int, k: int|
                                    0 <= i < j < k < seen.len() && #[trigger] seen[i] == quiesced()
                                        && #[trigger] seen[j] == restored() && #[trigger] seen[k]
                                        == disarmed();
                                assert(after[i] == quiesced() && after[j] == restored()
                                    && after[k] == disarmed());
                            } else {
                                let (i, j) = choose|i: int, j: int|
                                    0 <= i < j < seen.len() && #[trigger] seen[i] == quiesced()
                                        && #[trigger] seen[j] == restored();
                                assert(after[i] == quiesced() && after[j] == restored());
                                assert(after[seen.len() as int] == disarmed());
                            }
                        },
                        _ => {},
                    }
                }
            }
        }
    }
}

/// The terminal frame is the last message, and it comes only after quiescence,
/// then restoration of the terminal, then the disarming of recovery.
pub proof fn law_terminal_comes_last_and_in_order(steps: Seq<TranscriptStep>)
    ensures
        run(steps) matches Some(validator) ==> validator.state == TerminalLifecycleState::Terminal
            ==> {
            let seen = messages(steps);
            &&& seen.len() > 0
            &&& seen.last() matches TranscriptStep::Event(last) && last is ChildrenReaped
            &&& ordered_triple(
                seen.drop_last(),
                TranscriptStep::Event(GuardianEvent::TerminalQuiesced),
                TranscriptStep::Command(CoordinatorCommand::TerminalRestored),
                TranscriptStep::Event(GuardianEvent::TerminalRecoveryDisarmed),
            )
        },
{
    lemma_teardown_progress(steps);
}

/// Nothing is accepted after the terminal frame.
pub proof fn law_terminal_accepts_nothing(
    validator: TerminalLifecycleValidator,
    command: CoordinatorCommand,
    event: GuardianEvent,
)
    requires
        validator.state == TerminalLifecycleState::Terminal,
    ensures
        validator.after_command(command) == Err::<
            (TerminalLifecycleValidator, TerminalCommandAcceptance),
            ProtocolError,
        >(ProtocolError::UnexpectedState),
        validator.after_event(event) == Err::<TerminalLifecycleValidator, ProtocolError>(
            ProtocolError::UnexpectedState,
        ),
        validator.after_arming_recovery() is Err,
{
}

/// A cleanup or restoration failure can never be followed by a terminal frame,
/// so it can never yield an exit disposition.
pub proof fn law_unclean_failure_never_becomes_terminal(steps: Seq<TranscriptStep>)
    ensures
        run(steps) matches Some(validator) ==> withholds_terminal(validator.failure) ==> {
            &&& validator.state != TerminalLifecycleState::Terminal
            &&& validator.terminal_exit_disposition is None
        },
{
    law_reachable_invariant(steps);
}

/// An exit disposition exists only in the terminal state and is the one that
/// the terminal frame carried.
pub proof fn law_exit_disposition_is_the_reported_one(steps: Seq<TranscriptStep>)
    ensures
        run(steps) matches Some(validator) ==> (validator.terminal_exit_disposition matches Some(
            disposition,
        ) ==> {
            &&& validator.state == TerminalLifecycleState::Terminal
            &&& messages(steps).len() > 0
            &&& messages(steps).last() matches TranscriptStep::Event(
                GuardianEvent::ChildrenReaped { guardian_exit, .. },
            ) && guardian_exit == disposition
        }),
    decreases steps.len(),
{
    law_reachable_invariant(steps);
    if steps.len() != 0 {
        law_exit_disposition_is_the_reported_one(steps.drop_last());
        law_reachable_invariant(steps.drop_last());
    }
}

/// An exit disposition that was taken never comes back.
pub proof fn law_taken_exit_disposition_stays_taken(
    validator: TerminalLifecycleValidator,
    step: TranscriptStep,
)
    requires
        validator.state == TerminalLifecycleState::Terminal,
        validator.terminal_exit_disposition is None,
    ensures
        apply(validator, step) matches Some(next) ==> next.state == TerminalLifecycleState::Terminal
            && next.terminal_exit_disposition is None,
{
}

/// HUP and TERM are never silently drained after quiescence: without a
/// recovery slot they are refused.
pub proof fn law_quiescence_never_drops_a_shutdown_signal(
    validator: TerminalLifecycleValidator,
    signal: UnixSignal,
)
    requires
        validator.state == TerminalLifecycleState::Quiesced,
        validator.recovery_command_allowance is Inactive,
        signal.ends_session(),
    ensures
        validator.after_command(CoordinatorCommand::Signal { signal }) == Err::<
            (TerminalLifecycleValidator, TerminalCommandAcceptance),
            ProtocolError,
        >(ProtocolError::UnexpectedState),
{
}

/// The recovery slot drains at most one command: once a command was drained,
/// restoration is the only command still accepted, and it closes the slot.
pub proof fn law_recovery_drains_at_most_one_command(
    validator: TerminalLifecycleValidator,
    drained: CoordinatorCommand,
    command: CoordinatorCommand,
)
    requires
        reachable_invariant(validator),
    ensures
        validator.after_command(drained) matches Ok((next, acceptance)) ==> acceptance
            == TerminalCommandAcceptance::RecoverySuperseded ==> {
            &&& next.state == TerminalLifecycleState::Quiesced
            &&& next.after_command(command) is Ok <==> command is TerminalRestored
            &&& next.after_command(command) matches Ok((closed, taken)) ==> taken
                == TerminalCommandAcceptance::Applied && closed.recovery_command_allowance
                == RecoveryCommandAllowance::Inactive
        },
{
}

/// The terminal frame of a session without failure says exactly what the two
/// dispositions stand for, unless the guardian itself failed internally.
pub proof fn law_terminal_frame_matches_the_children(
    validator: TerminalLifecycleValidator,
    event: GuardianEvent,
)
    requires
        validator.failure is None,
    ensures
        validator.terminal_verdict(event) matches Ok(disposition) ==> {
            &&& event matches GuardianEvent::ChildrenReaped {
                app,
                tui,
                worker,
                session,
                guardian_exit,
                ..
            } && validator.termination_cause matches Some(cause) && {
                &&& disposition == guardian_exit
                &&& disposition == GuardianExitDisposition::InternalFailure && session
                    == SessionStatus::Failed || (session, disposition) == terminal_semantics(
                    app,
                    tui,
                    worker,
                    cause,
                )
                &&& worker == WorkerJoinStatus::JoinedClean
                &&& !(app is NotStarted) && !(tui is NotStarted)
            }
        },
{
}

} // verus!
