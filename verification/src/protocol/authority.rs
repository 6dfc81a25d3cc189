//! What holds of every proof that the two receivers hand out.
use vstd::prelude::*;

use crate::protocol::coordinator::CoordinatorTranscript;
use crate::protocol::guardian::{GuardianTranscript, OpenGateCommandCycle};
use crate::protocol::lifecycle::TerminalCommandAcceptance;
use crate::protocol::message::{CoordinatorCommand, GuardianEvent, ProtocolError};

verus! {

/// A poisoned coordinator stays poisoned: it accepts no event, records no
/// command, and reports neither an end nor an open gate.
pub proof fn law_poisoned_coordinator_refuses_everything(
    transcript: CoordinatorTranscript,
    outcome: Result<GuardianEvent, ProtocolError>,
    command: CoordinatorCommand,
)
    requires
        transcript.poisoned,
    ensures
        transcript.after_receive(outcome) == (
            transcript,
            Err::<GuardianEvent, ProtocolError>(ProtocolError::UnexpectedState),
        ),
        transcript.after_command(command) == (
            transcript,
            Err::<(), ProtocolError>(ProtocolError::UnexpectedState),
        ),
        !transcript.ended(),
        !transcript.gate_open(),
{
}

/// A poisoned guardian stays poisoned: it accepts no command, records no event,
/// arms no recovery, and reports neither an end nor an open gate.
pub proof fn law_poisoned_guardian_refuses_everything(
    transcript: GuardianTranscript,
    outcome: Result<CoordinatorCommand, ProtocolError>,
    event: GuardianEvent,
)
    requires
        transcript.poisoned,
    ensures
        transcript.after_receive(outcome) == (
            transcript,
            Err::<CoordinatorCommand, ProtocolError>(ProtocolError::UnexpectedState),
        ),
        transcript.after_event(event) == (
            transcript,
            Err::<(), ProtocolError>(ProtocolError::UnexpectedState),
        ),
        transcript.after_arming_recovery() == (
            transcript,
            Err::<(), ProtocolError>(ProtocolError::UnexpectedState),
        ),
        !transcript.ended(),
        !transcript.gate_open(),
{
}

/// Every error that the wire or the transcript gives a coordinator that was
/// still receiving poisons it.
pub proof fn law_coordinator_errors_poison(
    transcript: CoordinatorTranscript,
    outcome: Result<GuardianEvent, ProtocolError>,
    command: CoordinatorCommand,
)
    requires
        !transcript.ended(),
    ensures
        transcript.after_receive(outcome).1 is Err ==> transcript.after_receive(outcome).0.poisoned,
        transcript.after_command(command).1 is Err ==> transcript.after_command(command).0.poisoned,
{
}

/// Every error that the wire or the transcript gives a guardian that was still
/// receiving poisons it.
pub proof fn law_guardian_errors_poison(
    transcript: GuardianTranscript,
    outcome: Result<CoordinatorCommand, ProtocolError>,
    event: GuardianEvent,
)
    ensures
        !transcript.closed_to_commands() && transcript.after_receive(outcome).1 is Err
            ==> transcript.after_receive(outcome).0.poisoned,
        transcript.after_event(event).1 is Err ==> transcript.after_event(event).0.poisoned,
{
}

/// A readiness proof exists only right after `Ready` or `Resumed`, and a gate
/// acknowledgement only right after `InputGateOpened`: any other advance of
/// the coordinator's transcript expires both.
pub proof fn law_coordinator_proofs_expire(
    transcript: CoordinatorTranscript,
    outcome: Result<GuardianEvent, ProtocolError>,
    command: CoordinatorCommand,
)
    requires
        !transcript.poisoned,
        !transcript.ended(),
    ensures
        ({
            let (next, _) = transcript.after_receive(outcome);
            &&& next.verified_ready_pending ==> !next.poisoned && (outcome matches Ok(event) && (
            event is Ready || event is Resumed))
            &&& next.verified_open_gate_ack_pending ==> !next.poisoned && (outcome matches Ok(event)
                && event is InputGateOpened)
        }),
        ({
            let (next, _) = transcript.after_command(command);
            !next.verified_ready_pending && !next.verified_open_gate_ack_pending
        }),
{
}

/// Each guardian command proof exists only right after the applied command
/// that it names, with that command's own values; a recorded event, another
/// command, or a recovery selection expires it.
pub proof fn law_guardian_proofs_expire(
    transcript: GuardianTranscript,
    outcome: Result<CoordinatorCommand, ProtocolError>,
    event: GuardianEvent,
)
    requires
        !transcript.closed_to_commands(),
    ensures
        ({
            let (next, _) = transcript.after_receive(outcome);
            &&& next.verified_open_gate_command_pending is Some ==> outcome == Ok::<
                CoordinatorCommand,
                ProtocolError,
            >(CoordinatorCommand::OpenInputGate)
            &&& next.verified_suspend_command_pending ==> outcome == Ok::<
                CoordinatorCommand,
                ProtocolError,
            >(CoordinatorCommand::Suspend)
            &&& next.verified_resume_command_pending matches Some((rows, cols)) ==> outcome == Ok::<
                CoordinatorCommand,
                ProtocolError,
            >(CoordinatorCommand::Resume { rows, cols })
            &&& next.verified_resize_command_pending matches Some((rows, cols)) ==> outcome == Ok::<
                CoordinatorCommand,
                ProtocolError,
            >(CoordinatorCommand::Resize { rows, cols })
            &&& next.verified_terminal_restored_command_pending ==> outcome == Ok::<
                CoordinatorCommand,
                ProtocolError,
            >(CoordinatorCommand::TerminalRestored)
        }),
        transcript.after_event(event).0 == transcript.after_event(event).0.without_proofs(),
        transcript.after_arming_recovery().0
            == transcript.after_arming_recovery().0.without_proofs(),
{
}

/// The first gate generation and the later ones never share a proof: the
/// initial proof is minted only while no input gate was ever opened.
pub proof fn law_gate_generations_stay_apart(
    transcript: GuardianTranscript,
    outcome: Result<CoordinatorCommand, ProtocolError>,
)
    requires
        !transcript.closed_to_commands(),
    ensures
        transcript.after_receive(outcome).0.verified_open_gate_command_pending matches Some(cycle)
            ==> (transcript.terminal matches Some(validator) && (cycle
            == OpenGateCommandCycle::Initial <==> !validator.gate_ever_opened)),
{
}

/// A command that was drained after recovery mints no proof.
pub proof fn law_drained_command_mints_no_proof(
    transcript: GuardianTranscript,
    command: CoordinatorCommand,
)
    requires
        !transcript.closed_to_commands(),
        transcript.terminal matches Some(validator) && (validator.after_command(command) matches Ok(
            (_, acceptance),
        ) && acceptance == TerminalCommandAcceptance::RecoverySuperseded),
    ensures
        ({
            let (next, answer) = transcript.after_receive(Ok(command));
            &&& answer == Ok::<CoordinatorCommand, ProtocolError>(command)
            &&& next == next.without_proofs()
        }),
{
}

/// The coordinator and the guardian feed the same messages to the same
/// validator, so after the same transcript they agree on every authority: a
/// coordinator that is told of an event which the guardian could record is in
/// the state that the guardian is in, and likewise for commands.
pub proof fn law_both_ends_agree(
    coordinator: CoordinatorTranscript,
    guardian: GuardianTranscript,
    event: GuardianEvent,
    command: CoordinatorCommand,
)
    requires
        coordinator.terminal is Some,
        coordinator.terminal == guardian.terminal,
        !coordinator.poisoned && !coordinator.ended(),
        !guardian.closed_to_commands(),
    ensures
        coordinator.after_receive(Ok(event)).1 is Ok <==> guardian.after_event(event).1 is Ok,
        coordinator.after_receive(Ok(event)).1 is Ok ==> coordinator.after_receive(
            Ok(event),
        ).0.terminal == guardian.after_event(event).0.terminal,
        coordinator.after_command(command).1 is Ok <==> guardian.after_receive(
            Ok(command),
        ).1 is Ok,
        coordinator.after_command(command).1 is Ok ==> coordinator.after_command(command).0.terminal
            == guardian.after_receive(Ok(command)).0.terminal,
{
}

} // verus!
