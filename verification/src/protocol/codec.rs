//! Field codecs of the lifecycle wire.
//!
//! Every field has one spelling: the `*_code` and `*_bytes` functions say which
//! bytes a value is written as, and a decoder accepts exactly those.
use vstd::prelude::*;

use crate::protocol::message::{
    ChildDisposition, ChildRole, CleanupStatus, FailureCode, GuardianExitDisposition, Phase,
    ProtocolError, SessionStatus, StopAction, UnixSignal, WorkerJoinStatus,
};

verus! {

/// The number of bytes of an encoded child disposition.
pub const CHILD_DISPOSITION_BYTES: usize = 4;

/// A direct child leads a process group of its own.
pub open spec fn valid_process_group(pid: i32, pgid: i32) -> bool {
    pid > 0 && pgid == pid
}

pub fn validate_process_group(pid: i32, pgid: i32) -> (valid: Result<(), ProtocolError>)
    ensures
        valid == (if valid_process_group(pid, pgid) {
            Ok::<(), ProtocolError>(())
        } else {
            Err::<(), ProtocolError>(ProtocolError::InvalidValue)
        }),
{
    if pid > 0 && pgid == pid {
        Ok(())
    } else {
        Err(ProtocolError::InvalidValue)
    }
}

/// A terminal has at least one row and one column.
pub open spec fn valid_terminal_size(rows: u16, cols: u16) -> bool {
    rows != 0 && cols != 0
}

pub fn validate_terminal_size(rows: u16, cols: u16) -> (valid: Result<(), ProtocolError>)
    ensures
        valid == (if valid_terminal_size(rows, cols) {
            Ok::<(), ProtocolError>(())
        } else {
            Err::<(), ProtocolError>(ProtocolError::InvalidValue)
        }),
{
    if rows == 0 || cols == 0 {
        Err(ProtocolError::InvalidValue)
    } else {
        Ok(())
    }
}

/// A signal number that a wait status can carry.
pub open spec fn valid_signal_number(signal: u8) -> bool {
    1 <= signal <= 127
}

/// Two bytes, most significant first.
pub open spec fn be_u16(value: u16) -> Seq<u8> {
    seq![(value / 256) as u8, (value % 256) as u8]
}

/// The number that two bytes spell, most significant first.
pub open spec fn u16_of(high: u8, low: u8) -> u16 {
    (high * 256 + low) as u16
}

pub proof fn lemma_u16_round_trip(value: u16, high: u8, low: u8)
    ensures
        u16_of(be_u16(value)[0], be_u16(value)[1]) == value,
        be_u16(u16_of(high, low)) == seq![high, low],
{
}

pub(crate) fn split_u16(value: u16) -> (bytes: (u8, u8))
    ensures
        seq![bytes.0, bytes.1] == be_u16(value),
{
    ((value / 256) as u8, (value % 256) as u8)
}

pub(crate) fn join_u16(high: u8, low: u8) -> (value: u16)
    ensures
        value == u16_of(high, low),
        be_u16(value) == seq![high, low],
{
    proof {
        lemma_u16_round_trip(0, high, low);
    }
    high as u16 * 256 + low as u16
}

/// A positive number in four bytes, most significant first.
pub open spec fn be_positive_i32(value: i32) -> Seq<u8> {
    seq![
        (value as int / 0x100_0000) as u8,
        (value as int / 0x1_0000 % 0x100) as u8,
        (value as int / 0x100 % 0x100) as u8,
        (value as int % 0x100) as u8,
    ]
}

/// The number that four bytes spell, most significant first, in two's
/// complement.
pub open spec fn i32_of(bytes: Seq<u8>) -> i32 {
    let unsigned = bytes[0] * 0x100_0000 + bytes[1] * 0x1_0000 + bytes[2] * 0x100 + bytes[3];
    if unsigned < 0x8000_0000 {
        unsigned as i32
    } else {
        (unsigned - 0x1_0000_0000) as i32
    }
}

proof fn lemma_digits_of_value(b0: int, b1: int, b2: int, b3: int)
    requires
        0 <= b0 < 256,
        0 <= b1 < 256,
        0 <= b2 < 256,
        0 <= b3 < 256,
    ensures
        ({
            let value = b0 * 0x100_0000 + b1 * 0x1_0000 + b2 * 0x100 + b3;
            &&& value / 0x100_0000 == b0
            &&& value / 0x1_0000 % 0x100 == b1
            &&& value / 0x100 % 0x100 == b2
            &&& value % 0x100 == b3
        }),
{
    let value = b0 * 0x100_0000 + b1 * 0x1_0000 + b2 * 0x100 + b3;
    assert(value / 0x100 == b0 * 0x1_0000 + b1 * 0x100 + b2);
    assert(value / 0x1_0000 == b0 * 0x100 + b1);
}

proof fn lemma_value_of_digits(value: int)
    requires
        0 <= value < 0x1_0000_0000,
    ensures
        value == (value / 0x100_0000) * 0x100_0000 + (value / 0x1_0000 % 0x100) * 0x1_0000 + (value
            / 0x100 % 0x100) * 0x100 + value % 0x100,
        0 <= value / 0x100_0000 < 0x100,
{
    let a = value / 0x100;
    assert(a == (a / 0x100) * 0x100 + a % 0x100);
    assert(a / 0x100 == value / 0x1_0000);
    let b = value / 0x1_0000;
    assert(b == (b / 0x100) * 0x100 + b % 0x100);
    assert(b / 0x100 == value / 0x100_0000);
}

/// The two readings of four bytes undo each other on the numbers that the wire
/// carries.
pub proof fn lemma_i32_round_trip(value: i32, bytes: Seq<u8>)
    requires
        bytes.len() == 4,
    ensures
        value >= 0 ==> i32_of(be_positive_i32(value)) == value,
        i32_of(bytes) >= 0 ==> be_positive_i32(i32_of(bytes)) == bytes,
{
    if value >= 0 {
        lemma_value_of_digits(value as int);
    }
    if i32_of(bytes) >= 0 {
        lemma_digits_of_value(
            bytes[0] as int,
            bytes[1] as int,
            bytes[2] as int,
            bytes[3] as int,
        );
    }
}

pub(crate) fn split_positive_i32(value: i32) -> (bytes: [u8; 4])
    requires
        value >= 0,
    ensures
        bytes@ == be_positive_i32(value),
{
    let bits: u32 = value as u32;
    let bytes = [
        (bits / 0x100_0000) as u8,
        (bits / 0x1_0000 % 0x100) as u8,
        (bits / 0x100 % 0x100) as u8,
        (bits % 0x100) as u8,
    ];
    bytes
}

/// Reads the number in the first four bytes.
pub fn read_i32(bytes: &[u8]) -> (value: i32)
    requires
        bytes@.len() >= 4,
    ensures
        value == i32_of(bytes@),
{
    let bits: i64 = bytes[0] as i64 * 0x100_0000 + bytes[1] as i64 * 0x1_0000 + bytes[2] as i64
        * 0x100 + bytes[3] as i64;
    if bits < 0x8000_0000 {
        bits as i32
    } else {
        (bits - 0x1_0000_0000) as i32
    }
}

pub open spec fn child_role_code(role: ChildRole) -> u8 {
    match role {
        ChildRole::AppServer => 1,
        ChildRole::Tui => 2,
    }
}

pub fn encode_child_role(role: ChildRole) -> (code: u8)
    ensures
        code == child_role_code(role),
{
    match role {
        ChildRole::AppServer => 1,
        ChildRole::Tui => 2,
    }
}

pub fn decode_child_role(value: u8) -> (role: Result<ChildRole, ProtocolError>)
    ensures
        match role {
            Ok(role) => child_role_code(role) == value,
            Err(error) => error == ProtocolError::InvalidValue && forall|role: ChildRole|
                #[trigger] child_role_code(role) != value,
        },
{
    match value {
        1 => Ok(ChildRole::AppServer),
        2 => Ok(ChildRole::Tui),
        _ => Err(ProtocolError::InvalidValue),
    }
}

pub open spec fn unix_signal_code(signal: UnixSignal) -> u8 {
    match signal {
        UnixSignal::Hup => 1,
        UnixSignal::Int => 2,
        UnixSignal::Quit => 3,
        UnixSignal::Term => 4,
    }
}

pub fn encode_unix_signal(signal: UnixSignal) -> (code: u8)
    ensures
        code == unix_signal_code(signal),
{
    match signal {
        UnixSignal::Hup => 1,
        UnixSignal::Int => 2,
        UnixSignal::Quit => 3,
        UnixSignal::Term => 4,
    }
}

pub fn decode_unix_signal(value: u8) -> (signal: Result<UnixSignal, ProtocolError>)
    ensures
        match signal {
            Ok(signal) => unix_signal_code(signal) == value,
            Err(error) => error == ProtocolError::InvalidValue && forall|signal: UnixSignal|
                #[trigger] unix_signal_code(signal) != value,
        },
{
    match value {
        1 => Ok(UnixSignal::Hup),
        2 => Ok(UnixSignal::Int),
        3 => Ok(UnixSignal::Quit),
        4 => Ok(UnixSignal::Term),
        _ => Err(ProtocolError::InvalidValue),
    }
}

pub open spec fn terminal_size_bytes(rows: u16, cols: u16) -> Seq<u8> {
    be_u16(rows) + be_u16(cols)
}

/// Writes rows and columns into a field of exactly four bytes.
pub fn encode_terminal_size(rows: u16, cols: u16, output: &mut [u8]) -> (written: Result<
    (),
    ProtocolError,
>)
    ensures
        written == (if !valid_terminal_size(rows, cols) {
            Err::<(), ProtocolError>(ProtocolError::InvalidValue)
        } else if old(output)@.len() != 4 {
            Err::<(), ProtocolError>(ProtocolError::InvalidLength)
        } else {
            Ok::<(), ProtocolError>(())
        }),
        final(output)@ == (if written is Ok {
            terminal_size_bytes(rows, cols)
        } else {
            old(output)@
        }),
{
    validate_terminal_size(rows, cols)?;
    if output.len() != 4 {
        return Err(ProtocolError::InvalidLength);
    }
    let (rows_high, rows_low) = split_u16(rows);
    let (cols_high, cols_low) = split_u16(cols);
    output[0] = rows_high;
    output[1] = rows_low;
    output[2] = cols_high;
    output[3] = cols_low;
    Ok(())
}

pub fn decode_terminal_size(input: &[u8]) -> (size: Result<(u16, u16), ProtocolError>)
    ensures
        match size {
            Ok((rows, cols)) => valid_terminal_size(rows, cols) && terminal_size_bytes(rows, cols)
                == input@,
            Err(error) => if input@.len() != 4 {
                error == ProtocolError::InvalidLength
            } else {
                &&& error == ProtocolError::InvalidValue
                &&& forall|rows: u16, cols: u16|
                    valid_terminal_size(rows, cols) ==> #[trigger] terminal_size_bytes(rows, cols)
                        != input@
            },
        },
{
    if input.len() != 4 {
        return Err(ProtocolError::InvalidLength);
    }
    let rows = join_u16(input[0], input[1]);
    let cols = join_u16(input[2], input[3]);
    assert(terminal_size_bytes(rows, cols) =~= input@);
    match validate_terminal_size(rows, cols) {
        Ok(()) => Ok((rows, cols)),
        Err(error) => {
            proof {
                assert forall|other_rows: u16, other_cols: u16|
                    valid_terminal_size(other_rows, other_cols) implies
                    #[trigger] terminal_size_bytes(other_rows, other_cols) != input@ by {
                    lemma_terminal_size_injective(rows, cols, other_rows, other_cols);
                }
            }
            Err(error)
        },
    }
}

pub proof fn lemma_terminal_size_injective(rows: u16, cols: u16, other_rows: u16, other_cols: u16)
    ensures
        terminal_size_bytes(rows, cols) == terminal_size_bytes(other_rows, other_cols) <==> rows
            == other_rows && cols == other_cols,
{
    let left = terminal_size_bytes(rows, cols);
    let right = terminal_size_bytes(other_rows, other_cols);
    if left == right {
        assert(right[0] == be_u16(other_rows)[0] && right[1] == be_u16(other_rows)[1]);
        assert(right[2] == be_u16(other_cols)[0] && right[3] == be_u16(other_cols)[1]);
    }
}

pub open spec fn stop_action_code(action: StopAction) -> u8 {
    match action {
        StopAction::NoAction => 0,
        StopAction::Term => 1,
        StopAction::Kill => 2,
    }
}

pub fn encode_stop_action(action: StopAction) -> (code: u8)
    ensures
        code == stop_action_code(action),
{
    match action {
        StopAction::NoAction => 0,
        StopAction::Term => 1,
        StopAction::Kill => 2,
    }
}

pub fn decode_stop_action(value: u8) -> (action: Result<StopAction, ProtocolError>)
    ensures
        match action {
            Ok(action) => stop_action_code(action) == value,
            Err(error) => error == ProtocolError::InvalidValue && forall|action: StopAction|
                #[trigger] stop_action_code(action) != value,
        },
{
    match value {
        0 => Ok(StopAction::NoAction),
        1 => Ok(StopAction::Term),
        2 => Ok(StopAction::Kill),
        _ => Err(ProtocolError::InvalidValue),
    }
}

/// A disposition that can be written: a signal number is one of 1 to 127.
pub open spec fn valid_child_disposition(disposition: ChildDisposition) -> bool {
    disposition matches ChildDisposition::Signaled { signal, .. } ==> valid_signal_number(signal)
}

pub open spec fn child_disposition_bytes(disposition: ChildDisposition) -> Seq<u8> {
    match disposition {
        ChildDisposition::NotStarted => seq![0u8, 0, 0, 0],
        ChildDisposition::Exited { code, stop_action } => seq![
            1u8,
            code,
            stop_action_code(stop_action),
            0,
        ],
        ChildDisposition::Signaled { signal, core_dumped, stop_action } => seq![
            2u8,
            signal,
            stop_action_code(stop_action),
            if core_dumped {
                1u8
            } else {
                0u8
            },
        ],
    }
}

/// Writes a disposition into a field of exactly four bytes.
pub fn encode_child_disposition(disposition: ChildDisposition, output: &mut [u8]) -> (written:
    Result<(), ProtocolError>)
    ensures
        written == (if old(output)@.len() != 4 {
            Err::<(), ProtocolError>(ProtocolError::InvalidLength)
        } else if !valid_child_disposition(disposition) {
            Err::<(), ProtocolError>(ProtocolError::InvalidValue)
        } else {
            Ok::<(), ProtocolError>(())
        }),
        final(output)@ == (if written is Ok {
            child_disposition_bytes(disposition)
        } else {
            old(output)@
        }),
{
    if output.len() != CHILD_DISPOSITION_BYTES {
        return Err(ProtocolError::InvalidLength);
    }
    match disposition {
        ChildDisposition::NotStarted => {
            output[0] = 0;
            output[1] = 0;
            output[2] = 0;
            output[3] = 0;
        },
        ChildDisposition::Exited { code, stop_action } => {
            output[0] = 1;
            output[1] = code;
            output[2] = encode_stop_action(stop_action);
            output[3] = 0;
        },
        ChildDisposition::Signaled { signal, core_dumped, stop_action } => {
            if signal == 0 || signal > 127 {
                return Err(ProtocolError::InvalidValue);
            }
            output[0] = 2;
            output[1] = signal;
            output[2] = encode_stop_action(stop_action);
            output[3] = if core_dumped {
                1
            } else {
                0
            };
        },
    }
    Ok(())
}

pub fn decode_child_disposition(input: &[u8]) -> (disposition: Result<
    ChildDisposition,
    ProtocolError,
>)
    ensures
        match disposition {
            Ok(disposition) => valid_child_disposition(disposition) && child_disposition_bytes(
                disposition,
            ) == input@,
            Err(error) => if input@.len() != 4 {
                error == ProtocolError::InvalidLength
            } else {
                &&& error == ProtocolError::InvalidValue
                &&& forall|disposition: ChildDisposition|
                    valid_child_disposition(disposition) ==> #[trigger] child_disposition_bytes(
                        disposition,
                    ) != input@
            },
        },
{
    if input.len() != CHILD_DISPOSITION_BYTES {
        return Err(ProtocolError::InvalidLength);
    }
    let decoded = decode_child_disposition_fields(input[0], input[1], input[2], input[3]);
    proof {
        match decoded {
            Ok(disposition) => {
                assert(child_disposition_bytes(disposition) =~= input@);
            },
            Err(_) => {
                assert forall|disposition: ChildDisposition|
                    valid_child_disposition(disposition) implies
                    #[trigger] child_disposition_bytes(disposition) != input@ by {
                    let bytes = child_disposition_bytes(disposition);
                    assert(!(bytes[0] == input@[0] && bytes[1] == input@[1] && bytes[2] == input@[2]
                        && bytes[3] == input@[3]));
                }
            },
        }
    }
    decoded
}

fn decode_child_disposition_fields(kind: u8, value: u8, action: u8, flag: u8) -> (disposition:
    Result<ChildDisposition, ProtocolError>)
    ensures
        match disposition {
            Ok(disposition) => valid_child_disposition(disposition) && child_disposition_bytes(
                disposition,
            ) == seq![kind, value, action, flag],
            Err(error) => {
                &&& error == ProtocolError::InvalidValue
                &&& forall|disposition: ChildDisposition|
                    valid_child_disposition(disposition) ==> {
                        let bytes = #[trigger] child_disposition_bytes(disposition);
                        !(bytes[0] == kind && bytes[1] == value && bytes[2] == action && bytes[3]
                            == flag)
                    }
            },
        },
{
    let stop_action = match decode_stop_action(action) {
        Ok(stop_action) => stop_action,
        Err(error) => {
            proof {
                assert(stop_action_code(StopAction::NoAction) != action);
            }
            return Err(error);
        },
    };
    match kind {
        0 => if value == 0 && stop_action == StopAction::NoAction && flag == 0 {
            Ok(ChildDisposition::NotStarted)
        } else {
            Err(ProtocolError::InvalidValue)
        },
        1 => if flag == 0 {
            Ok(ChildDisposition::Exited { code: value, stop_action })
        } else {
            Err(ProtocolError::InvalidValue)
        },
        2 => if 1 <= value && value <= 127 && flag <= 1 {
            Ok(ChildDisposition::Signaled { signal: value, core_dumped: flag == 1, stop_action })
        } else {
            Err(ProtocolError::InvalidValue)
        },
        _ => Err(ProtocolError::InvalidValue),
    }
}

/// An exit that can be written: a signal number is one of 1 to 127.
pub open spec fn valid_guardian_exit(disposition: GuardianExitDisposition) -> bool {
    disposition matches GuardianExitDisposition::Signal(signal) ==> valid_signal_number(signal)
}

pub open spec fn guardian_exit_bytes(disposition: GuardianExitDisposition) -> Seq<u8> {
    match disposition {
        GuardianExitDisposition::Code(code) => seq![1u8, code],
        GuardianExitDisposition::Signal(signal) => seq![2u8, signal],
        GuardianExitDisposition::InternalFailure => seq![3u8, 0],
    }
}

/// Writes the guardian exit into a field of exactly two bytes.
pub fn encode_guardian_exit_disposition(
    disposition: GuardianExitDisposition,
    output: &mut [u8],
) -> (written: Result<(), ProtocolError>)
    ensures
        written == (if old(output)@.len() != 2 {
            Err::<(), ProtocolError>(ProtocolError::InvalidLength)
        } else if !valid_guardian_exit(disposition) {
            Err::<(), ProtocolError>(ProtocolError::InvalidValue)
        } else {
            Ok::<(), ProtocolError>(())
        }),
        final(output)@ == (if written is Ok {
            guardian_exit_bytes(disposition)
        } else {
            old(output)@
        }),
        old(output)@.len() == 2 ==> (disposition matches GuardianExitDisposition::Code(code)
            ==> written is Ok && final(output)@ == seq![1u8, code]),
{
    if output.len() != 2 {
        return Err(ProtocolError::InvalidLength);
    }
    let (kind, value): (u8, u8) = match disposition {
        GuardianExitDisposition::Code(code) => (1, code),
        GuardianExitDisposition::Signal(signal) => {
            if signal == 0 || signal > 127 {
                return Err(ProtocolError::InvalidValue);
            }
            (2, signal)
        },
        GuardianExitDisposition::InternalFailure => (3, 0),
    };
    output[0] = kind;
    output[1] = value;
    Ok(())
}

pub fn decode_guardian_exit_disposition(input: &[u8]) -> (disposition: Result<
    GuardianExitDisposition,
    ProtocolError,
>)
    ensures
        match disposition {
            Ok(disposition) => valid_guardian_exit(disposition) && guardian_exit_bytes(disposition)
                == input@,
            Err(error) => if input@.len() != 2 {
                error == ProtocolError::InvalidLength
            } else {
                &&& error == ProtocolError::InvalidValue
                &&& forall|disposition: GuardianExitDisposition|
                    valid_guardian_exit(disposition) ==> #[trigger] guardian_exit_bytes(disposition)
                        != input@
            },
        },
{
    if input.len() != 2 {
        return Err(ProtocolError::InvalidLength);
    }
    let value = input[1];
    let decoded = match input[0] {
        1 => Ok(GuardianExitDisposition::Code(value)),
        2 => if 1 <= value && value <= 127 {
            Ok(GuardianExitDisposition::Signal(value))
        } else {
            Err(ProtocolError::InvalidValue)
        },
        3 => if value == 0 {
            Ok(GuardianExitDisposition::InternalFailure)
        } else {
            Err(ProtocolError::InvalidValue)
        },
        _ => Err(ProtocolError::InvalidValue),
    };
    proof {
        match decoded {
            Ok(disposition) => {
                assert(guardian_exit_bytes(disposition) =~= input@);
            },
            Err(_) => {
                assert forall|disposition: GuardianExitDisposition|
                    valid_guardian_exit(disposition) implies #[trigger] guardian_exit_bytes(
                    disposition,
                ) != input@ by {
                    let bytes = guardian_exit_bytes(disposition);
                    assert(!(bytes[0] == input@[0] && bytes[1] == input@[1]));
                }
            },
        }
    }
    decoded
}

pub open spec fn phase_code(phase: Phase) -> u8 {
    match phase {
        Phase::Lease => 1,
        Phase::Runtime => 2,
        Phase::Worker => 3,
        Phase::AppServer => 4,
        Phase::Tui => 5,
        Phase::Readiness => 6,
        Phase::Shutdown => 7,
        Phase::Reap => 8,
        Phase::Cleanup => 9,
        Phase::Protocol => 10,
        Phase::Terminal => 11,
        Phase::Pump => 12,
        Phase::Signal => 13,
        Phase::Restore => 14,
    }
}

pub fn encode_phase(phase: Phase) -> (code: u8)
    ensures
        code == phase_code(phase),
{
    match phase {
        Phase::Lease => 1,
        Phase::Runtime => 2,
        Phase::Worker => 3,
        Phase::AppServer => 4,
        Phase::Tui => 5,
        Phase::Readiness => 6,
        Phase::Shutdown => 7,
        Phase::Reap => 8,
        Phase::Cleanup => 9,
        Phase::Protocol => 10,
        Phase::Terminal => 11,
        Phase::Pump => 12,
        Phase::Signal => 13,
        Phase::Restore => 14,
    }
}

pub fn decode_phase(value: u8) -> (phase: Result<Phase, ProtocolError>)
    ensures
        match phase {
            Ok(phase) => phase_code(phase) == value,
            Err(error) => error == ProtocolError::InvalidValue && forall|phase: Phase|
                #[trigger] phase_code(phase) != value,
        },
{
    match value {
        1 => Ok(Phase::Lease),
        2 => Ok(Phase::Runtime),
        3 => Ok(Phase::Worker),
        4 => Ok(Phase::AppServer),
        5 => Ok(Phase::Tui),
        6 => Ok(Phase::Readiness),
        7 => Ok(Phase::Shutdown),
        8 => Ok(Phase::Reap),
        9 => Ok(Phase::Cleanup),
        10 => Ok(Phase::Protocol),
        11 => Ok(Phase::Terminal),
        12 => Ok(Phase::Pump),
        13 => Ok(Phase::Signal),
        14 => Ok(Phase::Restore),
        _ => Err(ProtocolError::InvalidValue),
    }
}

pub open spec fn failure_code_code(code: FailureCode) -> u8 {
    match code {
        FailureCode::Timeout => 1,
        FailureCode::Descriptor => 2,
        FailureCode::Lease => 3,
        FailureCode::Spawn => 4,
        FailureCode::EarlyExit => 5,
        FailureCode::Worker => 6,
        FailureCode::Containment => 7,
        FailureCode::Wait => 8,
        FailureCode::CleanupMismatch => 9,
        FailureCode::InvalidControl => 10,
        FailureCode::Internal => 11,
        FailureCode::Terminal => 12,
        FailureCode::Pump => 13,
        FailureCode::Signal => 14,
        FailureCode::Restore => 15,
    }
}

pub fn encode_failure_code(code: FailureCode) -> (encoded: u8)
    ensures
        encoded == failure_code_code(code),
{
    match code {
        FailureCode::Timeout => 1,
        FailureCode::Descriptor => 2,
        FailureCode::Lease => 3,
        FailureCode::Spawn => 4,
        FailureCode::EarlyExit => 5,
        FailureCode::Worker => 6,
        FailureCode::Containment => 7,
        FailureCode::Wait => 8,
        FailureCode::CleanupMismatch => 9,
        FailureCode::InvalidControl => 10,
        FailureCode::Internal => 11,
        FailureCode::Terminal => 12,
        FailureCode::Pump => 13,
        FailureCode::Signal => 14,
        FailureCode::Restore => 15,
    }
}

pub fn decode_failure_code(value: u8) -> (code: Result<FailureCode, ProtocolError>)
    ensures
        match code {
            Ok(code) => failure_code_code(code) == value,
            Err(error) => error == ProtocolError::InvalidValue && forall|code: FailureCode|
                #[trigger] failure_code_code(code) != value,
        },
{
    match value {
        1 => Ok(FailureCode::Timeout),
        2 => Ok(FailureCode::Descriptor),
        3 => Ok(FailureCode::Lease),
        4 => Ok(FailureCode::Spawn),
        5 => Ok(FailureCode::EarlyExit),
        6 => Ok(FailureCode::Worker),
        7 => Ok(FailureCode::Containment),
        8 => Ok(FailureCode::Wait),
        9 => Ok(FailureCode::CleanupMismatch),
        10 => Ok(FailureCode::InvalidControl),
        11 => Ok(FailureCode::Internal),
        12 => Ok(FailureCode::Terminal),
        13 => Ok(FailureCode::Pump),
        14 => Ok(FailureCode::Signal),
        15 => Ok(FailureCode::Restore),
        _ => Err(ProtocolError::InvalidValue),
    }
}

pub open spec fn worker_join_status_code(status: WorkerJoinStatus) -> u8 {
    match status {
        WorkerJoinStatus::NotStarted => 0,
        WorkerJoinStatus::JoinedClean => 1,
        WorkerJoinStatus::JoinedFailed => 2,
        WorkerJoinStatus::JoinedPanicked => 3,
    }
}

pub fn encode_worker_join_status(status: WorkerJoinStatus) -> (code: u8)
    ensures
        code == worker_join_status_code(status),
{
    match status {
        WorkerJoinStatus::NotStarted => 0,
        WorkerJoinStatus::JoinedClean => 1,
        WorkerJoinStatus::JoinedFailed => 2,
        WorkerJoinStatus::JoinedPanicked => 3,
    }
}

pub fn decode_worker_join_status(value: u8) -> (status: Result<WorkerJoinStatus, ProtocolError>)
    ensures
        match status {
            Ok(status) => worker_join_status_code(status) == value,
            Err(error) => error == ProtocolError::InvalidValue && forall|status: WorkerJoinStatus|
                #[trigger] worker_join_status_code(status) != value,
        },
{
    match value {
        0 => Ok(WorkerJoinStatus::NotStarted),
        1 => Ok(WorkerJoinStatus::JoinedClean),
        2 => Ok(WorkerJoinStatus::JoinedFailed),
        3 => Ok(WorkerJoinStatus::JoinedPanicked),
        _ => Err(ProtocolError::InvalidValue),
    }
}

pub open spec fn cleanup_status_code(status: CleanupStatus) -> u8 {
    match status {
        CleanupStatus::Complete => 1,
    }
}

pub fn encode_cleanup_status(status: CleanupStatus) -> (code: u8)
    ensures
        code == cleanup_status_code(status),
{
    match status {
        CleanupStatus::Complete => 1,
    }
}

pub fn decode_cleanup_status(value: u8) -> (status: Result<CleanupStatus, ProtocolError>)
    ensures
        match status {
            Ok(status) => cleanup_status_code(status) == value,
            Err(error) => error == ProtocolError::InvalidValue && forall|status: CleanupStatus|
                #[trigger] cleanup_status_code(status) != value,
        },
{
    match value {
        1 => Ok(CleanupStatus::Complete),
        _ => Err(ProtocolError::InvalidValue),
    }
}

pub open spec fn session_status_code(status: SessionStatus) -> u8 {
    match status {
        SessionStatus::Completed => 1,
        SessionStatus::Failed => 2,
    }
}

pub fn encode_session_status(status: SessionStatus) -> (code: u8)
    ensures
        code == session_status_code(status),
{
    match status {
        SessionStatus::Completed => 1,
        SessionStatus::Failed => 2,
    }
}

pub fn decode_session_status(value: u8) -> (status: Result<SessionStatus, ProtocolError>)
    ensures
        match status {
            Ok(status) => session_status_code(status) == value,
            Err(error) => error == ProtocolError::InvalidValue && forall|status: SessionStatus|
                #[trigger] session_status_code(status) != value,
        },
{
    match value {
        1 => Ok(SessionStatus::Completed),
        2 => Ok(SessionStatus::Failed),
        _ => Err(ProtocolError::InvalidValue),
    }
}

} // verus!
