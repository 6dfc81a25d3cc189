//! Message bodies and frames of the lifecycle wire.
//!
//! A frame is an eight-byte header (magic, version, direction and type, body
//! length) and a body of 1 to 56 bytes that starts with the payload version.
use vstd::prelude::*;

use crate::protocol::codec::{
    be_positive_i32, child_disposition_bytes, child_role_code, cleanup_status_code,
    decode_child_disposition, decode_child_role, decode_cleanup_status, decode_failure_code,
    decode_guardian_exit_disposition, decode_phase, decode_session_status, decode_terminal_size,
    decode_unix_signal, decode_worker_join_status, encode_child_disposition, encode_child_role,
    encode_cleanup_status, encode_failure_code, encode_guardian_exit_disposition, encode_phase,
    encode_session_status, encode_terminal_size, encode_unix_signal, encode_worker_join_status,
    failure_code_code, guardian_exit_bytes, lemma_i32_round_trip, lemma_terminal_size_injective,
    phase_code, read_i32, session_status_code, split_positive_i32, terminal_size_bytes,
    unix_signal_code, valid_child_disposition, valid_guardian_exit, valid_process_group,
    valid_terminal_size, validate_process_group, worker_join_status_code,
};
use crate::protocol::message::{
    lemma_fingerprint_extensional, CoordinatorCommand, GuardianEvent, ProtocolError,
    TerminalSnapshotFingerprint,
};

verus! {

pub const PROTOCOL_VERSION: u8 = 1;

pub const PAYLOAD_VERSION: u8 = 1;

pub const HEADER_BYTES: usize = 8;

pub const MAX_FRAME_BYTES: usize = 64;

pub const MAX_BODY_BYTES: usize = 56;

pub const DIRECTION_MASK: u8 = 0x80;

pub const TYPE_MASK: u8 = 0x7f;

pub const COORDINATOR_DIRECTION: u8 = 0x00;

pub const GUARDIAN_DIRECTION: u8 = 0x80;

pub const COORDINATOR_START: u8 = 1;

pub const COORDINATOR_STOP: u8 = 2;

pub const COORDINATOR_OPEN_INPUT_GATE: u8 = 3;

pub const COORDINATOR_SIGNAL: u8 = 4;

pub const COORDINATOR_RESIZE: u8 = 5;

pub const COORDINATOR_SUSPEND: u8 = 6;

pub const COORDINATOR_RESUME: u8 = 7;

pub const COORDINATOR_TERMINAL_RESTORED: u8 = 8;

pub const COORDINATOR_TERMINAL_ARM_ACCEPTED: u8 = 9;

pub const GUARDIAN_LEASE_COMMITTED: u8 = 1;

pub const GUARDIAN_CHILD_STARTED: u8 = 2;

pub const GUARDIAN_READY: u8 = 3;

pub const GUARDIAN_FAILED: u8 = 4;

pub const GUARDIAN_CHILDREN_REAPED: u8 = 5;

pub const GUARDIAN_TERMINAL_ARMED: u8 = 6;

pub const GUARDIAN_INPUT_GATE_OPENED: u8 = 7;

pub const GUARDIAN_SIGNAL_FORWARDED: u8 = 8;

pub const GUARDIAN_RESIZE_APPLIED: u8 = 9;

pub const GUARDIAN_SUSPENDED: u8 = 10;

pub const GUARDIAN_RESUMED: u8 = 11;

pub const GUARDIAN_TERMINAL_QUIESCED: u8 = 12;

pub const GUARDIAN_TERMINAL_RECOVERY_DISARMED: u8 = 13;

pub const EMPTY_BODY_BYTES: usize = 1;

pub const TERMINAL_ARMED_BODY_BYTES: usize = 33;

pub const SIGNAL_BODY_BYTES: usize = 2;

pub const TERMINAL_SIZE_BODY_BYTES: usize = 5;

pub const CHILD_STARTED_BODY_BYTES: usize = 10;

pub const FAILED_BODY_BYTES: usize = 3;

pub const CHILDREN_REAPED_BODY_BYTES: usize = 14;

/// The four bytes that open every frame.
pub open spec fn magic() -> Seq<u8> {
    seq![0x43u8, 0x4c, 0x46, 0x52]
}

// ---------------------------------------------------------------------------
// Commands.
// ---------------------------------------------------------------------------

pub open spec fn command_type(command: CoordinatorCommand) -> u8 {
    match command {
        CoordinatorCommand::Start => COORDINATOR_START,
        CoordinatorCommand::TerminalArmAccepted => COORDINATOR_TERMINAL_ARM_ACCEPTED,
        CoordinatorCommand::Stop => COORDINATOR_STOP,
        CoordinatorCommand::OpenInputGate => COORDINATOR_OPEN_INPUT_GATE,
        CoordinatorCommand::Signal { .. } => COORDINATOR_SIGNAL,
        CoordinatorCommand::Resize { .. } => COORDINATOR_RESIZE,
        CoordinatorCommand::Suspend => COORDINATOR_SUSPEND,
        CoordinatorCommand::Resume { .. } => COORDINATOR_RESUME,
        CoordinatorCommand::TerminalRestored => COORDINATOR_TERMINAL_RESTORED,
    }
}

/// The fields of a command, after the payload version.
pub open spec fn command_fields(command: CoordinatorCommand) -> Seq<u8> {
    match command {
        CoordinatorCommand::Signal { signal } => seq![unix_signal_code(signal)],
        CoordinatorCommand::Resize { rows, cols } => terminal_size_bytes(rows, cols),
        CoordinatorCommand::Resume { rows, cols } => terminal_size_bytes(rows, cols),
        _ => Seq::empty(),
    }
}

pub open spec fn command_body(command: CoordinatorCommand) -> Seq<u8> {
    seq![PAYLOAD_VERSION] + command_fields(command)
}

/// A command that can be written.
pub open spec fn command_valid(command: CoordinatorCommand) -> bool {
    match command {
        CoordinatorCommand::Resize { rows, cols } => valid_terminal_size(rows, cols),
        CoordinatorCommand::Resume { rows, cols } => valid_terminal_size(rows, cols),
        _ => true,
    }
}

/// The exact body length of each command type.
pub open spec fn command_body_size(message_type: u8) -> Option<nat> {
    if message_type == COORDINATOR_SIGNAL {
        Some(2nat)
    } else if message_type == COORDINATOR_RESIZE || message_type == COORDINATOR_RESUME {
        Some(5nat)
    } else if 1 <= message_type <= 9 {
        Some(1nat)
    } else {
        None
    }
}

/// The command is written as this type and body.
pub open spec fn spells_command(
    command: CoordinatorCommand,
    message_type: u8,
    body: Seq<u8>,
) -> bool {
    command_valid(command) && command_type(command) == message_type && command_body(command) == body
}

/// The command in a frame: known type first, then the exact length, then the
/// one command that is written so.
pub open spec fn frame_command(message_type: u8, body: Seq<u8>) -> Result<
    CoordinatorCommand,
    ProtocolError,
> {
    match command_body_size(message_type) {
        None => Err(ProtocolError::UnknownType),
        Some(size) => if body.len() < size {
            Err(ProtocolError::InvalidLength)
        } else if body.len() > size {
            Err(ProtocolError::TrailingData)
        } else if exists|command: CoordinatorCommand| spells_command(command, message_type, body) {
            Ok(choose|command: CoordinatorCommand| spells_command(command, message_type, body))
        } else {
            Err(ProtocolError::InvalidValue)
        },
    }
}

/// No two commands are written alike.
pub proof fn law_commands_are_written_apart(
    left: CoordinatorCommand,
    right: CoordinatorCommand,
    message_type: u8,
    body: Seq<u8>,
)
    requires
        spells_command(left, message_type, body),
        spells_command(right, message_type, body),
    ensures
        left == right,
{
    assert(command_fields(left) =~= command_body(left).subrange(1, body.len() as int));
    assert(command_fields(right) =~= command_body(right).subrange(1, body.len() as int));
    match (left, right) {
        (CoordinatorCommand::Signal { signal }, CoordinatorCommand::Signal { signal: other }) => {
            assert(command_fields(left)[0] == command_fields(right)[0]);
        },
        (
            CoordinatorCommand::Resize { rows, cols },
            CoordinatorCommand::Resize { rows: other_rows, cols: other_cols },
        ) => {
            lemma_terminal_size_injective(rows, cols, other_rows, other_cols);
        },
        (
            CoordinatorCommand::Resume { rows, cols },
            CoordinatorCommand::Resume { rows: other_rows, cols: other_cols },
        ) => {
            lemma_terminal_size_injective(rows, cols, other_rows, other_cols);
        },
        _ => {},
    }
}

/// Reading the frame of a command gives the command back.
pub proof fn law_command_round_trip(command: CoordinatorCommand)
    requires
        command_valid(command),
    ensures
        frame_command(command_type(command), command_body(command)) == Ok::<
            CoordinatorCommand,
            ProtocolError,
        >(command),
        1 <= command_body(command).len() <= MAX_BODY_BYTES,
        1 <= command_type(command) <= TYPE_MASK,
{
    let message_type = command_type(command);
    let body = command_body(command);
    assert(spells_command(command, message_type, body));
    let read = choose|read: CoordinatorCommand| spells_command(read, message_type, body);
    law_commands_are_written_apart(command, read, message_type, body);
}

/// A frame that reads as a command is the frame of that command: each command
/// has one spelling.
pub proof fn law_command_has_one_spelling(message_type: u8, body: Seq<u8>)
    ensures
        frame_command(message_type, body) matches Ok(command) ==> spells_command(
            command,
            message_type,
            body,
        ),
{
}

// ---------------------------------------------------------------------------
// Events.
// ---------------------------------------------------------------------------

pub open spec fn event_type(event: GuardianEvent) -> u8 {
    match event {
        GuardianEvent::LeaseCommitted => GUARDIAN_LEASE_COMMITTED,
        GuardianEvent::TerminalArmed { .. } => GUARDIAN_TERMINAL_ARMED,
        GuardianEvent::ChildStarted { .. } => GUARDIAN_CHILD_STARTED,
        GuardianEvent::Ready => GUARDIAN_READY,
        GuardianEvent::InputGateOpened => GUARDIAN_INPUT_GATE_OPENED,
        GuardianEvent::SignalForwarded { .. } => GUARDIAN_SIGNAL_FORWARDED,
        GuardianEvent::ResizeApplied { .. } => GUARDIAN_RESIZE_APPLIED,
        GuardianEvent::Suspended => GUARDIAN_SUSPENDED,
        GuardianEvent::Resumed { .. } => GUARDIAN_RESUMED,
        GuardianEvent::TerminalQuiesced => GUARDIAN_TERMINAL_QUIESCED,
        GuardianEvent::TerminalRecoveryDisarmed => GUARDIAN_TERMINAL_RECOVERY_DISARMED,
        GuardianEvent::Failed { .. } => GUARDIAN_FAILED,
        GuardianEvent::ChildrenReaped { .. } => GUARDIAN_CHILDREN_REAPED,
    }
}

/// The fields of an event, after the payload version.
pub open spec fn event_fields(event: GuardianEvent) -> Seq<u8> {
    match event {
        GuardianEvent::TerminalArmed { snapshot } => snapshot.digest(),
        GuardianEvent::ChildStarted { role, pid, pgid } => seq![child_role_code(role)]
            + be_positive_i32(pid) + be_positive_i32(pgid),
        GuardianEvent::SignalForwarded { signal } => seq![unix_signal_code(signal)],
        GuardianEvent::ResizeApplied { rows, cols } => terminal_size_bytes(rows, cols),
        GuardianEvent::Resumed { rows, cols } => terminal_size_bytes(rows, cols),
        GuardianEvent::Failed { phase, code } => seq![phase_code(phase), failure_code_code(code)],
        GuardianEvent::ChildrenReaped { app, tui, worker, cleanup, session, guardian_exit } =>
            child_disposition_bytes(app) + child_disposition_bytes(tui) + seq![
            worker_join_status_code(worker),
            cleanup_status_code(cleanup),
            session_status_code(session),
        ] + guardian_exit_bytes(guardian_exit),
        _ => Seq::empty(),
    }
}

pub open spec fn event_body(event: GuardianEvent) -> Seq<u8> {
    seq![PAYLOAD_VERSION] + event_fields(event)
}

/// An event that can be written.
pub open spec fn event_valid(event: GuardianEvent) -> bool {
    match event {
        GuardianEvent::ChildStarted { pid, pgid, .. } => valid_process_group(pid, pgid),
        GuardianEvent::ResizeApplied { rows, cols } => valid_terminal_size(rows, cols),
        GuardianEvent::Resumed { rows, cols } => valid_terminal_size(rows, cols),
        GuardianEvent::ChildrenReaped { app, tui, guardian_exit, .. } => valid_child_disposition(
            app,
        ) && valid_child_disposition(tui) && valid_guardian_exit(guardian_exit),
        _ => true,
    }
}

/// The exact body length of each event type.
pub open spec fn event_body_size(message_type: u8) -> Option<nat> {
    if message_type == GUARDIAN_TERMINAL_ARMED {
        Some(33nat)
    } else if message_type == GUARDIAN_CHILD_STARTED {
        Some(10nat)
    } else if message_type == GUARDIAN_SIGNAL_FORWARDED {
        Some(2nat)
    } else if message_type == GUARDIAN_RESIZE_APPLIED || message_type == GUARDIAN_RESUMED {
        Some(5nat)
    } else if message_type == GUARDIAN_FAILED {
        Some(3nat)
    } else if message_type == GUARDIAN_CHILDREN_REAPED {
        Some(14nat)
    } else if 1 <= message_type <= 13 {
        Some(1nat)
    } else {
        None
    }
}

/// The event is written as this type and body.
pub open spec fn spells_event(event: GuardianEvent, message_type: u8, body: Seq<u8>) -> bool {
    event_valid(event) && event_type(event) == message_type && event_body(event) == body
}

/// The event in a frame: known type first, then the exact length, then the one
/// event that is written so.
pub open spec fn frame_event(message_type: u8, body: Seq<u8>) -> Result<
    GuardianEvent,
    ProtocolError,
> {
    match event_body_size(message_type) {
        None => Err(ProtocolError::UnknownType),
        Some(size) => if body.len() < size {
            Err(ProtocolError::InvalidLength)
        } else if body.len() > size {
            Err(ProtocolError::TrailingData)
        } else if exists|event: GuardianEvent| spells_event(event, message_type, body) {
            Ok(choose|event: GuardianEvent| spells_event(event, message_type, body))
        } else {
            Err(ProtocolError::InvalidValue)
        },
    }
}

proof fn lemma_child_started_fields(role_code: u8, pid: i32, pgid: i32)
    ensures
        ({
            let fields = seq![role_code] + be_positive_i32(pid) + be_positive_i32(pgid);
            &&& fields.len() == 9
            &&& fields[0] == role_code
            &&& fields.subrange(1, 5) == be_positive_i32(pid)
            &&& fields.subrange(5, 9) == be_positive_i32(pgid)
        }),
{
    let fields = seq![role_code] + be_positive_i32(pid) + be_positive_i32(pgid);
    assert(fields.subrange(1, 5) =~= be_positive_i32(pid));
    assert(fields.subrange(5, 9) =~= be_positive_i32(pgid));
}

proof fn lemma_children_reaped_fields(event: GuardianEvent)
    requires
        event is ChildrenReaped,
    ensures
        event matches GuardianEvent::ChildrenReaped {
            app,
            tui,
            worker,
            cleanup,
            session,
            guardian_exit,
        } && ({
            let fields = event_fields(event);
            &&& fields.len() == 13
            &&& fields.subrange(0, 4) == child_disposition_bytes(app)
            &&& fields.subrange(4, 8) == child_disposition_bytes(tui)
            &&& fields[8] == worker_join_status_code(worker)
            &&& fields[9] == cleanup_status_code(cleanup)
            &&& fields[10] == session_status_code(session)
            &&& fields.subrange(11, 13) == guardian_exit_bytes(guardian_exit)
        }),
{
    let fields = event_fields(event);
    if let GuardianEvent::ChildrenReaped { app, tui, worker, cleanup, session, guardian_exit } =
        event {
        assert(fields.subrange(0, 4) =~= child_disposition_bytes(app));
        assert(fields.subrange(4, 8) =~= child_disposition_bytes(tui));
        assert(fields.subrange(11, 13) =~= guardian_exit_bytes(guardian_exit));
    }
}

proof fn lemma_disposition_bytes_injective(
    left: crate::protocol::message::ChildDisposition,
    right: crate::protocol::message::ChildDisposition,
)
    requires
        child_disposition_bytes(left) == child_disposition_bytes(right),
    ensures
        left == right,
{
    let a = child_disposition_bytes(left);
    let b = child_disposition_bytes(right);
    assert(a[0] == b[0] && a[1] == b[1] && a[2] == b[2] && a[3] == b[3]);
}

proof fn lemma_guardian_exit_bytes_injective(
    left: crate::protocol::message::GuardianExitDisposition,
    right: crate::protocol::message::GuardianExitDisposition,
)
    requires
        guardian_exit_bytes(left) == guardian_exit_bytes(right),
    ensures
        left == right,
{
    let a = guardian_exit_bytes(left);
    let b = guardian_exit_bytes(right);
    assert(a[0] == b[0] && a[1] == b[1]);
}

/// No two events are written alike.
pub proof fn law_events_are_written_apart(
    left: GuardianEvent,
    right: GuardianEvent,
    message_type: u8,
    body: Seq<u8>,
)
    requires
        spells_event(left, message_type, body),
        spells_event(right, message_type, body),
    ensures
        left == right,
{
    assert(event_fields(left) =~= event_body(left).subrange(1, body.len() as int));
    assert(event_fields(right) =~= event_body(right).subrange(1, body.len() as int));
    let fields = event_fields(left);
    match (left, right) {
        (
            GuardianEvent::TerminalArmed { snapshot },
            GuardianEvent::TerminalArmed { snapshot: other },
        ) => {
            lemma_fingerprint_extensional(snapshot, other);
        },
        (
            GuardianEvent::ChildStarted { role, pid, pgid },
            GuardianEvent::ChildStarted { role: other_role, pid: other_pid, pgid: other_pgid },
        ) => {
            lemma_child_started_fields(child_role_code(role), pid, pgid);
            lemma_child_started_fields(child_role_code(other_role), other_pid, other_pgid);
            lemma_i32_round_trip(pid, be_positive_i32(pid));
            lemma_i32_round_trip(other_pid, be_positive_i32(other_pid));
            lemma_i32_round_trip(pgid, be_positive_i32(pgid));
            lemma_i32_round_trip(other_pgid, be_positive_i32(other_pgid));
        },
        (
            GuardianEvent::SignalForwarded { signal },
            GuardianEvent::SignalForwarded { signal: other },
        ) => {
            assert(fields[0] == unix_signal_code(signal));
            assert(event_fields(right)[0] == unix_signal_code(other));
        },
        (
            GuardianEvent::ResizeApplied { rows, cols },
            GuardianEvent::ResizeApplied { rows: other_rows, cols: other_cols },
        ) => {
            lemma_terminal_size_injective(rows, cols, other_rows, other_cols);
        },
        (
            GuardianEvent::Resumed { rows, cols },
            GuardianEvent::Resumed { rows: other_rows, cols: other_cols },
        ) => {
            lemma_terminal_size_injective(rows, cols, other_rows, other_cols);
        },
        (
            GuardianEvent::Failed { phase, code },
            GuardianEvent::Failed { phase: other_phase, code: other_code },
        ) => {
            assert(fields[0] == phase_code(phase) && fields[1] == failure_code_code(code));
            assert(event_fields(right)[0] == phase_code(other_phase));
            assert(event_fields(right)[1] == failure_code_code(other_code));
        },
        (
            GuardianEvent::ChildrenReaped { app, tui, guardian_exit, .. },
            GuardianEvent::ChildrenReaped {
                app: other_app,
                tui: other_tui,
                guardian_exit: other_exit,
                ..
            },
        ) => {
            lemma_children_reaped_fields(left);
            lemma_children_reaped_fields(right);
            lemma_disposition_bytes_injective(app, other_app);
            lemma_disposition_bytes_injective(tui, other_tui);
            lemma_guardian_exit_bytes_injective(guardian_exit, other_exit);
        },
        _ => {},
    }
}

proof fn lemma_event_body_size(event: GuardianEvent)
    ensures
        event_body_size(event_type(event)) == Some(event_body(event).len()),
        1 <= event_body(event).len() <= MAX_BODY_BYTES,
        1 <= event_type(event) <= TYPE_MASK,
{
    match event {
        GuardianEvent::TerminalArmed { snapshot } => {
            lemma_fingerprint_extensional(snapshot, snapshot);
        },
        GuardianEvent::ChildrenReaped { .. } => {
            lemma_children_reaped_fields(event);
        },
        _ => {},
    }
}

/// Reading the frame of an event gives the event back.
pub proof fn law_event_round_trip(event: GuardianEvent)
    requires
        event_valid(event),
    ensures
        frame_event(event_type(event), event_body(event)) == Ok::<GuardianEvent, ProtocolError>(
            event,
        ),
        1 <= event_body(event).len() <= MAX_BODY_BYTES,
        1 <= event_type(event) <= TYPE_MASK,
{
    let message_type = event_type(event);
    let body = event_body(event);
    lemma_event_body_size(event);
    assert(spells_event(event, message_type, body));
    let read = choose|read: GuardianEvent| spells_event(read, message_type, body);
    law_events_are_written_apart(event, read, message_type, body);
}

/// A frame that reads as an event is the frame of that event: each event has
/// one spelling.
pub proof fn law_event_has_one_spelling(message_type: u8, body: Seq<u8>)
    ensures
        frame_event(message_type, body) matches Ok(event) ==> spells_event(
            event,
            message_type,
            body,
        ),
{
}

// ---------------------------------------------------------------------------
// Bodies, executably.
// ---------------------------------------------------------------------------

/// The type and body that a command is written as.
pub fn encode_command(command: CoordinatorCommand) -> (encoded: Result<(u8, Vec<u8>), ProtocolError>)
    ensures
        match encoded {
            Ok((message_type, body)) => spells_command(command, message_type, body@),
            Err(error) => error == ProtocolError::InvalidValue && !command_valid(command),
        },
{
    let mut body: Vec<u8> = Vec::new();
    body.push(PAYLOAD_VERSION);
    let message_type: u8 = match command {
        CoordinatorCommand::Start => COORDINATOR_START,
        CoordinatorCommand::TerminalArmAccepted => COORDINATOR_TERMINAL_ARM_ACCEPTED,
        CoordinatorCommand::Stop => COORDINATOR_STOP,
        CoordinatorCommand::OpenInputGate => COORDINATOR_OPEN_INPUT_GATE,
        CoordinatorCommand::Signal { signal } => {
            body.push(encode_unix_signal(signal));
            COORDINATOR_SIGNAL
        },
        CoordinatorCommand::Resize { rows, cols } => {
            let mut size = [0u8; 4];
            encode_terminal_size(rows, cols, &mut size)?;
            body.extend_from_slice(&size);
            COORDINATOR_RESIZE
        },
        CoordinatorCommand::Suspend => COORDINATOR_SUSPEND,
        CoordinatorCommand::Resume { rows, cols } => {
            let mut size = [0u8; 4];
            encode_terminal_size(rows, cols, &mut size)?;
            body.extend_from_slice(&size);
            COORDINATOR_RESUME
        },
        CoordinatorCommand::TerminalRestored => COORDINATOR_TERMINAL_RESTORED,
    };
    assert(body@ =~= command_body(command));
    Ok((message_type, body))
}

/// The type and body that an event is written as.
pub fn encode_event(event: GuardianEvent) -> (encoded: Result<(u8, Vec<u8>), ProtocolError>)
    ensures
        match encoded {
            Ok((message_type, body)) => spells_event(event, message_type, body@),
            Err(error) => error == ProtocolError::InvalidValue && !event_valid(event),
        },
{
    let mut body: Vec<u8> = Vec::new();
    body.push(PAYLOAD_VERSION);
    let message_type: u8 = match event {
        GuardianEvent::LeaseCommitted => GUARDIAN_LEASE_COMMITTED,
        GuardianEvent::TerminalArmed { snapshot } => {
            body.extend_from_slice(snapshot.as_bytes());
            GUARDIAN_TERMINAL_ARMED
        },
        GuardianEvent::ChildStarted { role, pid, pgid } => {
            validate_process_group(pid, pgid)?;
            body.push(encode_child_role(role));
            body.extend_from_slice(&split_positive_i32(pid));
            body.extend_from_slice(&split_positive_i32(pgid));
            GUARDIAN_CHILD_STARTED
        },
        GuardianEvent::Ready => GUARDIAN_READY,
        GuardianEvent::InputGateOpened => GUARDIAN_INPUT_GATE_OPENED,
        GuardianEvent::SignalForwarded { signal } => {
            body.push(encode_unix_signal(signal));
            GUARDIAN_SIGNAL_FORWARDED
        },
        GuardianEvent::ResizeApplied { rows, cols } => {
            let mut size = [0u8; 4];
            encode_terminal_size(rows, cols, &mut size)?;
            body.extend_from_slice(&size);
            GUARDIAN_RESIZE_APPLIED
        },
        GuardianEvent::Suspended => GUARDIAN_SUSPENDED,
        GuardianEvent::Resumed { rows, cols } => {
            let mut size = [0u8; 4];
            encode_terminal_size(rows, cols, &mut size)?;
            body.extend_from_slice(&size);
            GUARDIAN_RESUMED
        },
        GuardianEvent::TerminalQuiesced => GUARDIAN_TERMINAL_QUIESCED,
        GuardianEvent::TerminalRecoveryDisarmed => GUARDIAN_TERMINAL_RECOVERY_DISARMED,
        GuardianEvent::Failed { phase, code } => {
            body.push(encode_phase(phase));
            body.push(encode_failure_code(code));
            GUARDIAN_FAILED
        },
        GuardianEvent::ChildrenReaped { app, tui, worker, cleanup, session, guardian_exit } => {
            let mut field = [0u8; 4];
            encode_child_disposition(app, &mut field)?;
            body.extend_from_slice(&field);
            let mut other_field = [0u8; 4];
            encode_child_disposition(tui, &mut other_field)?;
            body.extend_from_slice(&other_field);
            body.push(encode_worker_join_status(worker));
            body.push(encode_cleanup_status(cleanup));
            body.push(encode_session_status(session));
            let mut exit_field = [0u8; 2];
            encode_guardian_exit_disposition(guardian_exit, &mut exit_field)?;
            body.extend_from_slice(&exit_field);
            GUARDIAN_CHILDREN_REAPED
        },
    };
    assert(body@ =~= event_body(event));
    Ok((message_type, body))
}

/// A frame whose header was accepted and whose body arrived in full.
pub struct ReceivedFrame {
    pub message_type: u8,
    pub body: Vec<u8>,
}

impl ReceivedFrame {
    pub fn require_exact_len(&self, expected: usize) -> (checked: Result<(), ProtocolError>)
        ensures
            checked == (if self.body@.len() < expected {
                Err::<(), ProtocolError>(ProtocolError::InvalidLength)
            } else if self.body@.len() > expected {
                Err::<(), ProtocolError>(ProtocolError::TrailingData)
            } else {
                Ok::<(), ProtocolError>(())
            }),
    {
        if self.body.len() < expected {
            Err(ProtocolError::InvalidLength)
        } else if self.body.len() > expected {
            Err(ProtocolError::TrailingData)
        } else {
            Ok(())
        }
    }

    pub fn require_payload_version(&self) -> (checked: Result<(), ProtocolError>)
        ensures
            checked == (if self.body@.len() > 0 && self.body@[0] == PAYLOAD_VERSION {
                Ok::<(), ProtocolError>(())
            } else {
                Err::<(), ProtocolError>(ProtocolError::InvalidValue)
            }),
    {
        if self.body.len() > 0 && self.body[0] == PAYLOAD_VERSION {
            Ok(())
        } else {
            Err(ProtocolError::InvalidValue)
        }
    }

    fn require_shape(&self, expected: usize) -> (checked: Result<(), ProtocolError>)
        requires
            expected >= 1,
        ensures
            match checked {
                Ok(()) => self.body@.len() == expected && self.body@[0] == PAYLOAD_VERSION,
                Err(error) => if self.body@.len() < expected {
                    error == ProtocolError::InvalidLength
                } else if self.body@.len() > expected {
                    error == ProtocolError::TrailingData
                } else {
                    error == ProtocolError::InvalidValue && self.body@[0] != PAYLOAD_VERSION
                },
            },
    {
        self.require_exact_len(expected)?;
        self.require_payload_version()
    }
}

/// The payload version opens every body.
proof fn lemma_body_opens_with_version(body: Seq<u8>)
    ensures
        forall|event: GuardianEvent| #[trigger]
            event_body(event) == body ==> body[0] == PAYLOAD_VERSION && body.len() >= 1,
        forall|command: CoordinatorCommand| #[trigger]
            command_body(command) == body ==> body[0] == PAYLOAD_VERSION && body.len() >= 1,
{
    assert forall|event: GuardianEvent| #[trigger] event_body(event) == body implies body[0]
        == PAYLOAD_VERSION && body.len() >= 1 by {
        assert(event_body(event)[0] == PAYLOAD_VERSION);
    }
    assert forall|command: CoordinatorCommand| #[trigger] command_body(command) == body implies
        body[0] == PAYLOAD_VERSION && body.len() >= 1 by {
        assert(command_body(command)[0] == PAYLOAD_VERSION);
    }
}

proof fn lemma_command_read(command: CoordinatorCommand, message_type: u8, body: Seq<u8>)
    requires
        spells_command(command, message_type, body),
    ensures
        frame_command(message_type, body) == Ok::<CoordinatorCommand, ProtocolError>(command),
{
    law_command_round_trip(command);
}

proof fn lemma_event_read(event: GuardianEvent, message_type: u8, body: Seq<u8>)
    requires
        spells_event(event, message_type, body),
    ensures
        frame_event(message_type, body) == Ok::<GuardianEvent, ProtocolError>(event),
{
    law_event_round_trip(event);
}

/// Reads the command in a frame.
pub fn decode_command(frame: &ReceivedFrame) -> (decoded: Result<CoordinatorCommand, ProtocolError>)
    ensures
        decoded == frame_command(frame.message_type, frame.body@),
{
    proof {
        lemma_body_opens_with_version(frame.body@);
    }
    let ghost body = frame.body@;
    let command = match frame.message_type {
        COORDINATOR_START => {
            frame.require_shape(EMPTY_BODY_BYTES)?;
            CoordinatorCommand::Start
        },
        COORDINATOR_STOP => {
            frame.require_shape(EMPTY_BODY_BYTES)?;
            CoordinatorCommand::Stop
        },
        COORDINATOR_OPEN_INPUT_GATE => {
            frame.require_shape(EMPTY_BODY_BYTES)?;
            CoordinatorCommand::OpenInputGate
        },
        COORDINATOR_SIGNAL => {
            frame.require_shape(SIGNAL_BODY_BYTES)?;
            match decode_unix_signal(frame.body[1]) {
                Ok(signal) => CoordinatorCommand::Signal { signal },
                Err(error) => {
                    proof {
                        assert forall|command: CoordinatorCommand| !spells_command(
                            command,
                            COORDINATOR_SIGNAL,
                            body,
                        ) by {
                            if let CoordinatorCommand::Signal { signal } = command {
                                assert(command_body(command)[1] == unix_signal_code(signal));
                            }
                        }
                    }
                    return Err(error);
                },
            }
        },
        COORDINATOR_RESIZE => {
            frame.require_shape(TERMINAL_SIZE_BODY_BYTES)?;
            match decode_terminal_size(&frame.body.as_slice()[1..5]) {
                Ok((rows, cols)) => CoordinatorCommand::Resize { rows, cols },
                Err(error) => {
                    proof {
                        assert forall|command: CoordinatorCommand| !spells_command(
                            command,
                            COORDINATOR_RESIZE,
                            body,
                        ) by {
                            if let CoordinatorCommand::Resize { rows, cols } = command {
                                assert(command_body(command).subrange(1, 5) =~= terminal_size_bytes(
                                    rows,
                                    cols,
                                ));
                            }
                        }
                    }
                    return Err(error);
                },
            }
        },
        COORDINATOR_SUSPEND => {
            frame.require_shape(EMPTY_BODY_BYTES)?;
            CoordinatorCommand::Suspend
        },
        COORDINATOR_RESUME => {
            frame.require_shape(TERMINAL_SIZE_BODY_BYTES)?;
            match decode_terminal_size(&frame.body.as_slice()[1..5]) {
                Ok((rows, cols)) => CoordinatorCommand::Resume { rows, cols },
                Err(error) => {
                    proof {
                        assert forall|command: CoordinatorCommand| !spells_command(
                            command,
                            COORDINATOR_RESUME,
                            body,
                        ) by {
                            if let CoordinatorCommand::Resume { rows, cols } = command {
                                assert(command_body(command).subrange(1, 5) =~= terminal_size_bytes(
                                    rows,
                                    cols,
                                ));
                            }
                        }
                    }
                    return Err(error);
                },
            }
        },
        COORDINATOR_TERMINAL_RESTORED => {
            frame.require_shape(EMPTY_BODY_BYTES)?;
            CoordinatorCommand::TerminalRestored
        },
        COORDINATOR_TERMINAL_ARM_ACCEPTED => {
            frame.require_shape(EMPTY_BODY_BYTES)?;
            CoordinatorCommand::TerminalArmAccepted
        },
        _ => {
            return Err(ProtocolError::UnknownType);
        },
    };
    proof {
        assert(command_body(command) =~= body);
        lemma_command_read(command, frame.message_type, body);
    }
    Ok(command)
}

fn read_fingerprint(bytes: &[u8]) -> (fingerprint: TerminalSnapshotFingerprint)
    requires
        bytes@.len() == 32,
    ensures
        fingerprint.digest() == bytes@,
{
    let mut digest = [0u8; 32];
    let mut index: usize = 0;
    while index < 32
        invariant
            index <= 32,
            bytes@.len() == 32,
            digest@.len() == 32,
            forall|i: int| 0 <= i < index ==> digest@[i] == bytes@[i],
        decreases 32 - index,
    {
        digest[index] = bytes[index];
        index += 1;
    }
    TerminalSnapshotFingerprint::from_digest(digest)
}

/// The events of one type are told apart by their fields alone.
proof fn lemma_no_event_without_fields(message_type: u8, body: Seq<u8>)
    requires
        body.len() > 0,
        forall|event: GuardianEvent|
            event_valid(event) && #[trigger] event_type(event) == message_type ==> event_fields(
                event,
            ) != body.subrange(1, body.len() as int),
    ensures
        forall|event: GuardianEvent| !spells_event(event, message_type, body),
{
    assert forall|event: GuardianEvent| !spells_event(event, message_type, body) by {
        if spells_event(event, message_type, body) {
            assert(event_fields(event) =~= event_body(event).subrange(1, body.len() as int));
        }
    }
}

fn decode_child_started(frame: &ReceivedFrame) -> (decoded: Result<GuardianEvent, ProtocolError>)
    requires
        frame.body@.len() == CHILD_STARTED_BODY_BYTES,
        frame.body@[0] == PAYLOAD_VERSION,
    ensures
        match decoded {
            Ok(event) => spells_event(event, GUARDIAN_CHILD_STARTED, frame.body@),
            Err(error) => error == ProtocolError::InvalidValue && forall|event: GuardianEvent|
                !spells_event(event, GUARDIAN_CHILD_STARTED, frame.body@),
        },
{
    let ghost body = frame.body@;
    let ghost fields = body.subrange(1, 10);
    let pid = read_i32(&frame.body.as_slice()[2..6]);
    let pgid = read_i32(&frame.body.as_slice()[6..10]);
    proof {
        lemma_i32_round_trip(pid, body.subrange(2, 6));
        lemma_i32_round_trip(pgid, body.subrange(6, 10));
        assert forall|event: GuardianEvent|
            event_valid(event) && #[trigger] event_type(event) == GUARDIAN_CHILD_STARTED
                && event_fields(event) == fields implies (event matches GuardianEvent::ChildStarted {
            role: other_role,
            pid: other_pid,
            pgid: other_pgid,
        } && child_role_code(other_role) == body[1] && other_pid == pid && other_pgid == pgid) by {
            if let GuardianEvent::ChildStarted { role: other_role, pid: other_pid, pgid: other_pgid } =
                event {
                lemma_child_started_fields(child_role_code(other_role), other_pid, other_pgid);
                lemma_i32_round_trip(other_pid, be_positive_i32(other_pid));
                lemma_i32_round_trip(other_pgid, be_positive_i32(other_pgid));
            }
        }
    }
    let role = match decode_child_role(frame.body[1]) {
        Ok(role) => role,
        Err(error) => {
            proof {
                lemma_no_event_without_fields(GUARDIAN_CHILD_STARTED, body);
            }
            return Err(error);
        },
    };
    match validate_process_group(pid, pgid) {
        Ok(()) => {
            let event = GuardianEvent::ChildStarted { role, pid, pgid };
            proof {
                assert(event_body(event) =~= body);
            }
            Ok(event)
        },
        Err(error) => {
            proof {
                lemma_no_event_without_fields(GUARDIAN_CHILD_STARTED, body);
            }
            Err(error)
        },
    }
}

fn decode_failed(frame: &ReceivedFrame) -> (decoded: Result<GuardianEvent, ProtocolError>)
    requires
        frame.body@.len() == FAILED_BODY_BYTES,
        frame.body@[0] == PAYLOAD_VERSION,
    ensures
        match decoded {
            Ok(event) => spells_event(event, GUARDIAN_FAILED, frame.body@),
            Err(error) => error == ProtocolError::InvalidValue && forall|event: GuardianEvent|
                !spells_event(event, GUARDIAN_FAILED, frame.body@),
        },
{
    let ghost body = frame.body@;
    proof {
        assert forall|event: GuardianEvent|
            event_valid(event) && #[trigger] event_type(event) == GUARDIAN_FAILED && event_fields(
                event,
            ) == body.subrange(1, 3) implies (event matches GuardianEvent::Failed {
            phase,
            code,
        } && phase_code(phase) == body[1] && failure_code_code(code) == body[2]) by {
            if let GuardianEvent::Failed { phase, code } = event {
                assert(event_fields(event)[0] == phase_code(phase));
                assert(event_fields(event)[1] == failure_code_code(code));
            }
        }
    }
    let phase = match decode_phase(frame.body[1]) {
        Ok(phase) => phase,
        Err(error) => {
            proof {
                lemma_no_event_without_fields(GUARDIAN_FAILED, body);
            }
            return Err(error);
        },
    };
    let code = match decode_failure_code(frame.body[2]) {
        Ok(code) => code,
        Err(error) => {
            proof {
                lemma_no_event_without_fields(GUARDIAN_FAILED, body);
            }
            return Err(error);
        },
    };
    let event = GuardianEvent::Failed { phase, code };
    assert(event_body(event) =~= body);
    Ok(event)
}

fn decode_children_reaped(frame: &ReceivedFrame) -> (decoded: Result<GuardianEvent, ProtocolError>)
    requires
        frame.body@.len() == CHILDREN_REAPED_BODY_BYTES,
        frame.body@[0] == PAYLOAD_VERSION,
    ensures
        match decoded {
            Ok(event) => spells_event(event, GUARDIAN_CHILDREN_REAPED, frame.body@),
            Err(error) => error == ProtocolError::InvalidValue && forall|event: GuardianEvent|
                !spells_event(event, GUARDIAN_CHILDREN_REAPED, frame.body@),
        },
{
    let ghost body = frame.body@;
    let ghost fields = body.subrange(1, 14);
    proof {
        assert forall|event: GuardianEvent|
            event_valid(event) && #[trigger] event_type(event) == GUARDIAN_CHILDREN_REAPED
                && event_fields(event) == fields implies (event matches
            GuardianEvent::ChildrenReaped { app, tui, worker, cleanup, session, guardian_exit } && {
            &&& valid_child_disposition(app) && child_disposition_bytes(app) == body.subrange(1, 5)
            &&& valid_child_disposition(tui) && child_disposition_bytes(tui) == body.subrange(5, 9)
            &&& worker_join_status_code(worker) == body[9]
            &&& cleanup_status_code(cleanup) == body[10]
            &&& session_status_code(session) == body[11]
            &&& valid_guardian_exit(guardian_exit) && guardian_exit_bytes(guardian_exit)
                == body.subrange(12, 14)
        }) by {
            if event is ChildrenReaped {
                lemma_children_reaped_fields(event);
            }
        }
    }
    let app = match decode_child_disposition(&frame.body.as_slice()[1..5]) {
        Ok(app) => app,
        Err(error) => {
            proof {
                lemma_no_event_without_fields(GUARDIAN_CHILDREN_REAPED, body);
            }
            return Err(error);
        },
    };
    let tui = match decode_child_disposition(&frame.body.as_slice()[5..9]) {
        Ok(tui) => tui,
        Err(error) => {
            proof {
                lemma_no_event_without_fields(GUARDIAN_CHILDREN_REAPED, body);
            }
            return Err(error);
        },
    };
    let worker = match decode_worker_join_status(frame.body[9]) {
        Ok(worker) => worker,
        Err(error) => {
            proof {
                lemma_no_event_without_fields(GUARDIAN_CHILDREN_REAPED, body);
            }
            return Err(error);
        },
    };
    let cleanup = match decode_cleanup_status(frame.body[10]) {
        Ok(cleanup) => cleanup,
        Err(error) => {
            proof {
                lemma_no_event_without_fields(GUARDIAN_CHILDREN_REAPED, body);
            }
            return Err(error);
        },
    };
    let session = match decode_session_status(frame.body[11]) {
        Ok(session) => session,
        Err(error) => {
            proof {
                lemma_no_event_without_fields(GUARDIAN_CHILDREN_REAPED, body);
            }
            return Err(error);
        },
    };
    let guardian_exit = match decode_guardian_exit_disposition(&frame.body.as_slice()[12..14]) {
        Ok(guardian_exit) => guardian_exit,
        Err(error) => {
            proof {
                lemma_no_event_without_fields(GUARDIAN_CHILDREN_REAPED, body);
            }
            return Err(error);
        },
    };
    let event = GuardianEvent::ChildrenReaped { app, tui, worker, cleanup, session, guardian_exit };
    proof {
        lemma_children_reaped_fields(event);
        let written = event_fields(event);
        assert forall|i: int| 0 <= i < 13 implies #[trigger] written[i] == fields[i] by {
            if i < 4 {
                assert(written.subrange(0, 4)[i] == fields.subrange(0, 4)[i]);
            } else if i < 8 {
                assert(written.subrange(4, 8)[i - 4] == fields.subrange(4, 8)[i - 4]);
            } else if i >= 11 {
                assert(written.subrange(11, 13)[i - 11] == fields.subrange(11, 13)[i - 11]);
            }
        }
        assert(event_body(event) =~= body);
    }
    Ok(event)
}

fn decode_sized_event(frame: &ReceivedFrame, message_type: u8) -> (decoded: Result<
    GuardianEvent,
    ProtocolError,
>)
    requires
        message_type == GUARDIAN_RESUMED || message_type == GUARDIAN_RESIZE_APPLIED,
        frame.body@.len() == TERMINAL_SIZE_BODY_BYTES,
        frame.body@[0] == PAYLOAD_VERSION,
    ensures
        match decoded {
            Ok(event) => spells_event(event, message_type, frame.body@),
            Err(error) => error == ProtocolError::InvalidValue && forall|event: GuardianEvent|
                !spells_event(event, message_type, frame.body@),
        },
{
    let ghost body = frame.body@;
    match decode_terminal_size(&frame.body.as_slice()[1..5]) {
        Ok((rows, cols)) => {
            let event = if message_type == GUARDIAN_RESUMED {
                GuardianEvent::Resumed { rows, cols }
            } else {
                GuardianEvent::ResizeApplied { rows, cols }
            };
            assert(event_body(event) =~= body);
            Ok(event)
        },
        Err(error) => {
            proof {
                assert forall|event: GuardianEvent|
                    event_valid(event) && #[trigger] event_type(event) == message_type implies
                    event_fields(event) != body.subrange(1, 5) by {
                    match event {
                        GuardianEvent::Resumed { rows, cols } => {
                            assert(terminal_size_bytes(rows, cols) != body.subrange(1, 5));
                        },
                        GuardianEvent::ResizeApplied { rows, cols } => {
                            assert(terminal_size_bytes(rows, cols) != body.subrange(1, 5));
                        },
                        _ => {},
                    }
                }
                lemma_no_event_without_fields(message_type, body);
            }
            Err(error)
        },
    }
}

/// Reads the event in a frame.
pub fn decode_event(frame: &ReceivedFrame) -> (decoded: Result<GuardianEvent, ProtocolError>)
    ensures
        decoded == frame_event(frame.message_type, frame.body@),
{
    proof {
        lemma_body_opens_with_version(frame.body@);
    }
    let ghost body = frame.body@;
    let event = match frame.message_type {
        GUARDIAN_LEASE_COMMITTED => {
            frame.require_shape(EMPTY_BODY_BYTES)?;
            GuardianEvent::LeaseCommitted
        },
        GUARDIAN_TERMINAL_ARMED => {
            frame.require_shape(TERMINAL_ARMED_BODY_BYTES)?;
            let snapshot = read_fingerprint(
                &frame.body.as_slice()[1..TERMINAL_ARMED_BODY_BYTES],
            );
            GuardianEvent::TerminalArmed { snapshot }
        },
        GUARDIAN_CHILD_STARTED => {
            frame.require_shape(CHILD_STARTED_BODY_BYTES)?;
            decode_child_started(frame)?
        },
        GUARDIAN_READY => {
            frame.require_shape(EMPTY_BODY_BYTES)?;
            GuardianEvent::Ready
        },
        GUARDIAN_INPUT_GATE_OPENED => {
            frame.require_shape(EMPTY_BODY_BYTES)?;
            GuardianEvent::InputGateOpened
        },
        GUARDIAN_SIGNAL_FORWARDED => {
            frame.require_shape(SIGNAL_BODY_BYTES)?;
            match decode_unix_signal(frame.body[1]) {
                Ok(signal) => GuardianEvent::SignalForwarded { signal },
                Err(error) => {
                    proof {
                        assert forall|event: GuardianEvent| !spells_event(
                            event,
                            GUARDIAN_SIGNAL_FORWARDED,
                            body,
                        ) by {
                            if let GuardianEvent::SignalForwarded { signal } = event {
                                assert(event_body(event)[1] == unix_signal_code(signal));
                            }
                        }
                    }
                    return Err(error);
                },
            }
        },
        GUARDIAN_RESIZE_APPLIED => {
            frame.require_shape(TERMINAL_SIZE_BODY_BYTES)?;
            decode_sized_event(frame, GUARDIAN_RESIZE_APPLIED)?
        },
        GUARDIAN_SUSPENDED => {
            frame.require_shape(EMPTY_BODY_BYTES)?;
            GuardianEvent::Suspended
        },
        GUARDIAN_RESUMED => {
            frame.require_shape(TERMINAL_SIZE_BODY_BYTES)?;
            decode_sized_event(frame, GUARDIAN_RESUMED)?
        },
        GUARDIAN_TERMINAL_QUIESCED => {
            frame.require_shape(EMPTY_BODY_BYTES)?;
            GuardianEvent::TerminalQuiesced
        },
        GUARDIAN_TERMINAL_RECOVERY_DISARMED => {
            frame.require_shape(EMPTY_BODY_BYTES)?;
            GuardianEvent::TerminalRecoveryDisarmed
        },
        GUARDIAN_FAILED => {
            frame.require_shape(FAILED_BODY_BYTES)?;
            decode_failed(frame)?
        },
        GUARDIAN_CHILDREN_REAPED => {
            frame.require_shape(CHILDREN_REAPED_BODY_BYTES)?;
            decode_children_reaped(frame)?
        },
        _ => {
            return Err(ProtocolError::UnknownType);
        },
    };
    proof {
        assert(event_body(event) =~= body);
        lemma_event_read(event, frame.message_type, body);
    }
    Ok(event)
}

} // verus!
