//! What the kernel reports of a direct child.
use vstd::prelude::*;

use crate::process::error::ProcessError;
use crate::protocol::message::{ChildDisposition, ChildRole, StopAction};

verus! {

/// The part of an operating-system error that supervision distinguishes.
#[derive(Clone, Copy, Debug, PartialEq, Eq, Structural)]
pub enum SystemError {
    Interrupted,
    NoSuchProcess,
    PermissionDenied,
    Other,
}

/// The signals that the guardian sends.
#[derive(Clone, Copy, Debug, PartialEq, Eq, Structural)]
pub enum Signal {
    Hup,
    Int,
    Quit,
    Term,
    Kill,
    Stop,
    Tstp,
    Cont,
    Winch,
}

/// A non-consuming wait status of a direct child.
#[derive(Clone, Copy, Debug, PartialEq, Eq, Structural)]
pub struct WaitStatus {
    pub stopped: bool,
    pub exited: bool,
    pub killed: bool,
    pub dumped: bool,
    pub exit_status: Option<i32>,
    pub terminating_signal: Option<i32>,
}

impl WaitStatus {
    /// The child has ended. A stopped or continued child is still live.
    pub open spec fn terminal(self) -> bool {
        self.exited || self.killed || self.dumped
    }

    pub fn is_terminal(&self) -> (terminal: bool)
        ensures
            terminal == self.terminal(),
    {
        self.exited || self.killed || self.dumped
    }
}

/// What a non-consuming wait came to: nothing to report, or a status.
pub type WaitOutcome = Result<Option<WaitStatus>, SystemError>;

/// The consumed exit status of a direct child.
#[derive(Clone, Copy, Debug, PartialEq, Eq, Structural)]
pub struct ExitStatus {
    pub code: Option<i32>,
    pub signal: Option<i32>,
    pub core_dumped: bool,
}

/// What a consuming wait that does not block came to.
#[derive(Clone, Copy, Debug, PartialEq, Eq, Structural)]
pub enum ReapOutcome {
    Reaped(ExitStatus),
    Running,
    Failed,
}

/// An exit code within a byte: negative codes become zero, large ones 255.
pub open spec fn clamped_code(code: i32) -> u8 {
    if code < 0 {
        0
    } else if code > 255 {
        255
    } else {
        code as u8
    }
}

pub fn bounded_exit_code(code: i32) -> (bounded: u8)
    ensures
        bounded == clamped_code(code),
{
    if code < 0 {
        0
    } else if code > 255 {
        255
    } else {
        code as u8
    }
}

/// A signal number from 1 to 127; 127 stands for any other report.
pub open spec fn known_signal(signal: Option<i32>) -> u8 {
    match signal {
        Some(number) => if 1 <= number <= 127 {
            number as u8
        } else {
            127
        },
        None => 127,
    }
}

pub fn bounded_signal(signal: Option<i32>) -> (bounded: u8)
    ensures
        bounded == known_signal(signal),
        1 <= bounded <= 127,
{
    match signal {
        Some(number) => if 1 <= number && number <= 127 {
            number as u8
        } else {
            127
        },
        None => 127,
    }
}

/// The disposition that a consumed exit status stands for.
pub open spec fn disposition_of(status: ExitStatus, stop_action: StopAction) -> ChildDisposition {
    match status.code {
        Some(code) => ChildDisposition::Exited { code: clamped_code(code), stop_action },
        None => ChildDisposition::Signaled {
            signal: known_signal(status.signal),
            core_dumped: status.core_dumped,
            stop_action,
        },
    }
}

pub fn project_disposition(status: ExitStatus, stop_action: StopAction) -> (disposition:
    ChildDisposition)
    ensures
        disposition == disposition_of(status, stop_action),
        status.code matches Some(code) ==> (0 <= code <= 255 ==> disposition
            == (ChildDisposition::Exited { code: code as u8, stop_action })),
{
    if let Some(code) = status.code {
        return ChildDisposition::Exited { code: bounded_exit_code(code), stop_action };
    }
    ChildDisposition::Signaled {
        signal: bounded_signal(status.signal),
        core_dumped: status.core_dumped,
        stop_action,
    }
}

/// The disposition that a terminal wait status stands for.
pub open spec fn observed_disposition(status: WaitStatus) -> ChildDisposition {
    if status.exited {
        ChildDisposition::Exited {
            code: clamped_code(
                match status.exit_status {
                    Some(code) => code,
                    None => 0,
                },
            ),
            stop_action: StopAction::NoAction,
        }
    } else {
        ChildDisposition::Signaled {
            signal: known_signal(status.terminating_signal),
            core_dumped: status.dumped,
            stop_action: StopAction::NoAction,
        }
    }
}

pub fn observed_waitid_disposition(status: WaitStatus) -> (disposition: ChildDisposition)
    ensures
        disposition == observed_disposition(status),
{
    if status.exited {
        let code: i32 = match status.exit_status {
            Some(code) => code,
            None => 0,
        };
        return ChildDisposition::Exited {
            code: bounded_exit_code(code),
            stop_action: StopAction::NoAction,
        };
    }
    ChildDisposition::Signaled {
        signal: bounded_signal(status.terminating_signal),
        core_dumped: status.dumped,
        stop_action: StopAction::NoAction,
    }
}

/// Whether a launcher has claimed its own session.
#[derive(Clone, Copy, Debug, PartialEq, Eq, Structural)]
pub enum SessionIdentityObservation {
    Pending,
    Exact,
}

/// The judgement on one reading of process group and session.
///
/// The two readings cannot be taken atomically: the launcher may claim its
/// session between them. So only the positive equality of all three numbers is
/// publishable, and every other live reading stays pending.
pub open spec fn session_identity(
    pid: i32,
    process_group: Result<i32, SystemError>,
    session: Result<i32, SystemError>,
    role: ChildRole,
) -> Result<SessionIdentityObservation, ProcessError> {
    match (process_group, session) {
        (Err(SystemError::NoSuchProcess), _) => Ok(SessionIdentityObservation::Pending),
        (Err(_), _) => Err(ProcessError::ProcessGroupReadback { role }),
        (Ok(_), Err(SystemError::NoSuchProcess)) => Ok(SessionIdentityObservation::Pending),
        (Ok(_), Err(_)) => Err(ProcessError::SessionReadback { role }),
        (Ok(process_group), Ok(session)) => if process_group == pid && session == pid {
            Ok(SessionIdentityObservation::Exact)
        } else {
            Ok(SessionIdentityObservation::Pending)
        },
    }
}

pub fn classify_session_identity(
    pid: i32,
    process_group: Result<i32, SystemError>,
    session: Result<i32, SystemError>,
    role: ChildRole,
) -> (observation: Result<SessionIdentityObservation, ProcessError>)
    ensures
        observation == session_identity(pid, process_group, session, role),
{
    let process_group: i32 = match process_group {
        Ok(process_group) => process_group,
        Err(SystemError::NoSuchProcess) => {
            return Ok(SessionIdentityObservation::Pending);
        },
        Err(_) => {
            return Err(ProcessError::ProcessGroupReadback { role });
        },
    };
    let session: i32 = match session {
        Ok(session) => session,
        Err(SystemError::NoSuchProcess) => {
            return Ok(SessionIdentityObservation::Pending);
        },
        Err(_) => {
            return Err(ProcessError::SessionReadback { role });
        },
    };
    if process_group == pid && session == pid {
        Ok(SessionIdentityObservation::Exact)
    } else {
        Ok(SessionIdentityObservation::Pending)
    }
}

/// Every disposition that the supervisor reports can be written on the wire.
pub proof fn law_projected_dispositions_are_writable(
    status: ExitStatus,
    observed: WaitStatus,
    stop_action: StopAction,
)
    ensures
        crate::protocol::codec::valid_child_disposition(disposition_of(status, stop_action)),
        crate::protocol::codec::valid_child_disposition(observed_disposition(observed)),
{
}

/// A consumed exit status is reported as it is. An exit code that fits a byte is
/// kept to the number, a negative one is zero and a larger one 255; so only a
/// code that is not positive is ever reported as zero. A child without a code
/// died of a signal: a number that a signal can have is kept, anything else is
/// 127. What was done to the child is reported unchanged.
pub proof fn law_consumed_exit_is_reported_as_it_is(status: ExitStatus, action: StopAction)
    ensures
        match disposition_of(status, action) {
            ChildDisposition::NotStarted => false,
            ChildDisposition::Exited { code, stop_action } => {
                &&& stop_action == action
                &&& status.code matches Some(number) && {
                    &&& 0 <= number <= 255 ==> code as int == number as int
                    &&& number < 0 ==> code == 0
                    &&& number > 255 ==> code == 255
                    &&& code == 0 <==> number <= 0
                }
            },
            ChildDisposition::Signaled { signal, core_dumped, stop_action } => {
                &&& stop_action == action
                &&& status.code is None
                &&& core_dumped == status.core_dumped
                &&& 1 <= signal <= 127
                &&& (status.signal matches Some(number) && 1 <= number <= 127 && signal as int
                    == number as int) || signal == 127
                &&& status.signal matches Some(number) ==> (1 <= number <= 126 ==> signal as int
                    == number as int)
            },
        },
        status.code is Some <==> disposition_of(status, action) is Exited,
{
}

/// A child that is looked at and a child that is reaped are reported alike: the
/// end that a non-consuming wait showed is the end that the consuming wait
/// gives, for a child that nothing was done to.
pub proof fn law_observed_and_consumed_ends_agree(observed: WaitStatus, consumed: ExitStatus)
    requires
        observed.terminal(),
        observed.exited ==> observed.exit_status is Some && consumed.code == observed.exit_status,
        !observed.exited ==> consumed.code is None && consumed.signal
            == observed.terminating_signal && consumed.core_dumped == observed.dumped,
    ensures
        observed_disposition(observed) == disposition_of(consumed, StopAction::NoAction),
{
}

/// Different ends of a child are reported differently, as far as a byte can
/// tell them apart.
pub proof fn law_different_ends_stay_apart(
    left: ExitStatus,
    right: ExitStatus,
    action: StopAction,
)
    requires
        left.code matches Some(code) ==> 0 <= code <= 255,
        right.code matches Some(code) ==> 0 <= code <= 255,
        left.code is None ==> (left.signal matches Some(signal) && 1 <= signal <= 127),
        right.code is None ==> (right.signal matches Some(signal) && 1 <= signal <= 127),
        disposition_of(left, action) == disposition_of(right, action),
    ensures
        left.code == right.code,
        left.code is None ==> left.signal == right.signal && left.core_dumped
            == right.core_dumped,
{
}

/// A child has ended exactly if it exited, was killed or dumped a core; being
/// stopped says nothing either way.
pub proof fn law_stopped_child_is_not_ended(status: WaitStatus, stopped: bool)
    ensures
        status.terminal() == (WaitStatus { stopped, ..status }).terminal(),
        !status.exited && !status.killed && !status.dumped ==> !status.terminal(),
        status.exited || status.killed || status.dumped ==> status.terminal(),
{
}

/// A launcher counts as the leader of its own session only where both readings
/// came back and equal its number. A process that cannot be found is still
/// pending, and any other failed reading is an error that names the reading.
pub proof fn law_session_leader_needs_both_readings(
    pid: i32,
    process_group: Result<i32, SystemError>,
    session: Result<i32, SystemError>,
    role: ChildRole,
)
    ensures
        session_identity(pid, process_group, session, role) == Ok::<
            SessionIdentityObservation,
            ProcessError,
        >(SessionIdentityObservation::Exact) <==> process_group == Ok::<i32, SystemError>(pid)
            && session == Ok::<i32, SystemError>(pid),
        session_identity(pid, process_group, session, role) matches Err(error) ==> {
            ||| error == (ProcessError::ProcessGroupReadback { role }) && process_group is Err
            ||| error == (ProcessError::SessionReadback { role }) && process_group is Ok
                && session is Err
        },
        session_identity(pid, process_group, session, role) is Err <==> {
            ||| process_group matches Err(error) && error != SystemError::NoSuchProcess
            ||| process_group is Ok && (session matches Err(error) && error
                != SystemError::NoSuchProcess)
        },
{
}

} // verus!
