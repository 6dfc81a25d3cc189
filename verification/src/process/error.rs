//! Fixed, redacted process failures.
//!
//! None of them holds a command, path, provider output, readiness byte or raw
//! I/O error string.
use vstd::prelude::*;

use crate::protocol::message::{ChildDisposition, ChildRole, StopAction};

verus! {

/// A failure at the one-shot TUI launcher readiness boundary.
#[derive(Clone, Copy, Debug, PartialEq, Eq, Structural)]
pub enum TuiReadinessError {
    Channel,
    Descriptor,
    Inherited,
    Invalid,
    Timeout,
    Deadline,
}

impl TuiReadinessError {
    /// The fixed sentence shown for this error.
    pub open spec fn text(self) -> Seq<char> {
        match self {
            TuiReadinessError::Channel => "TUI readiness channel failed"@,
            TuiReadinessError::Descriptor => "TUI readiness descriptor was invalid"@,
            TuiReadinessError::Inherited => "TUI readiness capability was unavailable"@,
            TuiReadinessError::Invalid => "TUI readiness proof was invalid"@,
            TuiReadinessError::Timeout => "TUI readiness exceeded its deadline"@,
            TuiReadinessError::Deadline => "TUI readiness deadline was invalid"@,
        }
    }

    pub fn message(&self) -> (message: &'static str)
        ensures
            message@ == self.text(),
    {
        match self {
            TuiReadinessError::Channel => "TUI readiness channel failed",
            TuiReadinessError::Descriptor => "TUI readiness descriptor was invalid",
            TuiReadinessError::Inherited => "TUI readiness capability was unavailable",
            TuiReadinessError::Invalid => "TUI readiness proof was invalid",
            TuiReadinessError::Timeout => "TUI readiness exceeded its deadline",
            TuiReadinessError::Deadline => "TUI readiness deadline was invalid",
        }
    }
}

/// Where the App Server's one graceful drain was lost.
#[derive(Clone, Copy, Debug, PartialEq, Eq, Structural)]
pub enum AppGracefulDrainFailureStage {
    PriorInvalid,
    ExitedBeforeTerm,
    StopTimeout,
    ExitedWhileStopping,
    InvalidDisposition,
    KillForbidden,
    WrongRetryPath,
    MissingProof,
}

/// A supervisor process failure.
#[derive(Clone, Copy, Debug, PartialEq, Eq, Structural)]
pub enum ProcessError {
    Spawn { role: ChildRole },
    ProcessGroupReadback { role: ChildRole },
    ProcessGroupMismatch { role: ChildRole },
    SessionReadback { role: ChildRole },
    SessionMismatch { role: ChildRole },
    SessionStartupTimeout { role: ChildRole },
    SpawnCleanupTimeout { role: ChildRole },
    SpawnContainmentUnconfirmed { role: ChildRole },
    ReadinessUnavailable { role: ChildRole },
    ParentLivenessUnavailable { role: ChildRole },
    ReadinessTimeout { role: ChildRole },
    ReadinessIo { role: ChildRole },
    InvalidReadiness { role: ChildRole },
    EarlyExit { role: ChildRole, disposition: ChildDisposition },
    Signal { role: ChildRole, action: StopAction },
    ForwardedSignalMismatch { role: ChildRole },
    SuspendTimeout { role: ChildRole },
    Wait { role: ChildRole },
    WaitTimeout { role: ChildRole },
    TuiOutputDrain { role: ChildRole },
    AppGracefulDrainUnconfirmed { role: ChildRole, stage: AppGracefulDrainFailureStage },
    RoleMismatch { expected: ChildRole, actual: ChildRole },
    RetryAfterResolution,
    Deadline,
}

impl ProcessError {
    /// The fixed sentence shown for this error.
    pub open spec fn text(self) -> Seq<char> {
        match self {
            ProcessError::Spawn { .. } => "supervised child spawn failed"@,
            ProcessError::ProcessGroupReadback { .. } =>
                "supervised child process-group readback failed"@,
            ProcessError::ProcessGroupMismatch { .. } =>
                "supervised child process-group identity mismatched"@,
            ProcessError::SessionReadback { .. } => "supervised child session readback failed"@,
            ProcessError::SessionMismatch { .. } => "supervised child session identity mismatched"@,
            ProcessError::SessionStartupTimeout { .. } =>
                "supervised child did not claim its session before the deadline"@,
            ProcessError::SpawnCleanupTimeout { .. } =>
                "supervised child spawn cleanup exceeded its deadline"@,
            ProcessError::SpawnContainmentUnconfirmed { .. } =>
                "supervised child spawn containment remained unconfirmed"@,
            ProcessError::ReadinessUnavailable { .. } =>
                "supervised child has no readiness channel"@,
            ProcessError::ParentLivenessUnavailable { .. } =>
                "supervised child has no parent-liveness channel"@,
            ProcessError::ReadinessTimeout { .. } =>
                "supervised child readiness exceeded its deadline"@,
            ProcessError::ReadinessIo { .. } => "supervised child readiness channel failed"@,
            ProcessError::InvalidReadiness { .. } => "supervised child readiness was invalid"@,
            ProcessError::EarlyExit { .. } => "supervised child exited before readiness"@,
            ProcessError::Signal { .. } => "supervised child process-group signal failed"@,
            ProcessError::ForwardedSignalMismatch { .. } =>
                "forwarded shutdown signal did not match the supervised TUI"@,
            ProcessError::SuspendTimeout { .. } =>
                "supervised child suspend exceeded its deadline"@,
            ProcessError::Wait { .. } => "supervised child wait failed"@,
            ProcessError::WaitTimeout { .. } => "supervised child wait exceeded its deadline"@,
            ProcessError::TuiOutputDrain { .. } => "supervised TUI shutdown output drain failed"@,
            ProcessError::AppGracefulDrainUnconfirmed { .. } =>
                "the pinned App Server graceful drain remained unconfirmed"@,
            ProcessError::RoleMismatch { .. } =>
                "supervised child role mismatched its shutdown slot"@,
            ProcessError::RetryAfterResolution => "supervised child shutdown was already resolved"@,
            ProcessError::Deadline => "supervised child deadline was invalid"@,
        }
    }

    pub fn message(&self) -> (message: &'static str)
        ensures
            message@ == self.text(),
    {
        match self {
            ProcessError::Spawn { .. } => "supervised child spawn failed",
            ProcessError::ProcessGroupReadback { .. } =>
                "supervised child process-group readback failed",
            ProcessError::ProcessGroupMismatch { .. } =>
                "supervised child process-group identity mismatched",
            ProcessError::SessionReadback { .. } => "supervised child session readback failed",
            ProcessError::SessionMismatch { .. } => "supervised child session identity mismatched",
            ProcessError::SessionStartupTimeout { .. } =>
                "supervised child did not claim its session before the deadline",
            ProcessError::SpawnCleanupTimeout { .. } =>
                "supervised child spawn cleanup exceeded its deadline",
            ProcessError::SpawnContainmentUnconfirmed { .. } =>
                "supervised child spawn containment remained unconfirmed",
            ProcessError::ReadinessUnavailable { .. } =>
                "supervised child has no readiness channel",
            ProcessError::ParentLivenessUnavailable { .. } =>
                "supervised child has no parent-liveness channel",
            ProcessError::ReadinessTimeout { .. } =>
                "supervised child readiness exceeded its deadline",
            ProcessError::ReadinessIo { .. } => "supervised child readiness channel failed",
            ProcessError::InvalidReadiness { .. } => "supervised child readiness was invalid",
            ProcessError::EarlyExit { .. } => "supervised child exited before readiness",
            ProcessError::Signal { .. } => "supervised child process-group signal failed",
            ProcessError::ForwardedSignalMismatch { .. } =>
                "forwarded shutdown signal did not match the supervised TUI",
            ProcessError::SuspendTimeout { .. } =>
                "supervised child suspend exceeded its deadline",
            ProcessError::Wait { .. } => "supervised child wait failed",
            ProcessError::WaitTimeout { .. } => "supervised child wait exceeded its deadline",
            ProcessError::TuiOutputDrain { .. } => "supervised TUI shutdown output drain failed",
            ProcessError::AppGracefulDrainUnconfirmed { .. } =>
                "the pinned App Server graceful drain remained unconfirmed",
            ProcessError::RoleMismatch { .. } =>
                "supervised child role mismatched its shutdown slot",
            ProcessError::RetryAfterResolution => "supervised child shutdown was already resolved",
            ProcessError::Deadline => "supervised child deadline was invalid",
        }
    }
}

/// The child that an error speaks of; the App Server where it speaks of none.
pub open spec fn role_of_error(error: ProcessError) -> ChildRole {
    match error {
        ProcessError::Spawn { role } => role,
        ProcessError::ProcessGroupReadback { role } => role,
        ProcessError::ProcessGroupMismatch { role } => role,
        ProcessError::SessionReadback { role } => role,
        ProcessError::SessionMismatch { role } => role,
        ProcessError::SessionStartupTimeout { role } => role,
        ProcessError::SpawnCleanupTimeout { role } => role,
        ProcessError::SpawnContainmentUnconfirmed { role } => role,
        ProcessError::ReadinessUnavailable { role } => role,
        ProcessError::ParentLivenessUnavailable { role } => role,
        ProcessError::ReadinessTimeout { role } => role,
        ProcessError::ReadinessIo { role } => role,
        ProcessError::InvalidReadiness { role } => role,
        ProcessError::EarlyExit { role, .. } => role,
        ProcessError::Signal { role, .. } => role,
        ProcessError::ForwardedSignalMismatch { role } => role,
        ProcessError::SuspendTimeout { role } => role,
        ProcessError::Wait { role } => role,
        ProcessError::WaitTimeout { role } => role,
        ProcessError::TuiOutputDrain { role } => role,
        ProcessError::AppGracefulDrainUnconfirmed { role, .. } => role,
        ProcessError::RoleMismatch { actual, .. } => actual,
        ProcessError::RetryAfterResolution => ChildRole::AppServer,
        ProcessError::Deadline => ChildRole::AppServer,
    }
}

pub fn process_error_role(error: ProcessError) -> (role: ChildRole)
    ensures
        role == role_of_error(error),
{
    match error {
        ProcessError::Spawn { role }
        | ProcessError::ProcessGroupReadback { role }
        | ProcessError::ProcessGroupMismatch { role }
        | ProcessError::SessionReadback { role }
        | ProcessError::SessionMismatch { role }
        | ProcessError::SessionStartupTimeout { role }
        | ProcessError::SpawnCleanupTimeout { role }
        | ProcessError::SpawnContainmentUnconfirmed { role }
        | ProcessError::ReadinessUnavailable { role }
        | ProcessError::ParentLivenessUnavailable { role }
        | ProcessError::ReadinessTimeout { role }
        | ProcessError::ReadinessIo { role }
        | ProcessError::InvalidReadiness { role }
        | ProcessError::EarlyExit { role, .. }
        | ProcessError::Signal { role, .. }
        | ProcessError::ForwardedSignalMismatch { role }
        | ProcessError::SuspendTimeout { role }
        | ProcessError::Wait { role }
        | ProcessError::WaitTimeout { role }
        | ProcessError::TuiOutputDrain { role }
        | ProcessError::AppGracefulDrainUnconfirmed { role, .. } => role,
        ProcessError::RoleMismatch { actual, .. } => actual,
        ProcessError::RetryAfterResolution | ProcessError::Deadline => ChildRole::AppServer,
    }
}

/// The error that is kept once `error` came up: the first one.
pub open spec fn first_of(first_error: Option<ProcessError>, error: ProcessError) -> Option<
    ProcessError,
> {
    match first_error {
        Some(first) => Some(first),
        None => Some(error),
    }
}

/// The error that is kept once an operation came out as `outcome`.
pub open spec fn first_of_outcome<T>(
    first_error: Option<ProcessError>,
    outcome: Result<T, ProcessError>,
) -> Option<ProcessError> {
    match outcome {
        Ok(_) => first_error,
        Err(error) => first_of(first_error, error),
    }
}

/// Keeps the first error of an attempt: a later one never replaces it.
pub fn record_first_error(first_error: &mut Option<ProcessError>, error: ProcessError)
    ensures
        *final(first_error) == first_of(*old(first_error), error),
{
    if first_error.is_none() {
        *first_error = Some(error);
    }
}

/// Different readiness errors are told by different sentences.
pub proof fn law_readiness_errors_read_apart(left: TuiReadinessError, right: TuiReadinessError)
    requires
        left.text() == right.text(),
    ensures
        left == right,
{
    reveal_strlit("TUI readiness channel failed");
    assert("TUI readiness channel failed"@.len() == 28);
    reveal_strlit("TUI readiness descriptor was invalid");
    assert("TUI readiness descriptor was invalid"@.len() == 36);
    reveal_strlit("TUI readiness capability was unavailable");
    assert("TUI readiness capability was unavailable"@.len() == 40);
    reveal_strlit("TUI readiness proof was invalid");
    assert("TUI readiness proof was invalid"@.len() == 31);
    reveal_strlit("TUI readiness exceeded its deadline");
    assert("TUI readiness exceeded its deadline"@.len() == 35);
    reveal_strlit("TUI readiness deadline was invalid");
    assert("TUI readiness deadline was invalid"@.len() == 34);
    let a = left.text();
    let b = right.text();
}

/// Process errors of different kinds are told by different sentences, whatever
/// child they are about.
pub proof fn law_process_errors_read_apart(left: ProcessError, right: ProcessError)
    requires
        left.text() == right.text(),
    ensures
        left is Spawn <==> right is Spawn,
        left is ProcessGroupReadback <==> right is ProcessGroupReadback,
        left is ProcessGroupMismatch <==> right is ProcessGroupMismatch,
        left is SessionReadback <==> right is SessionReadback,
        left is SessionMismatch <==> right is SessionMismatch,
        left is SessionStartupTimeout <==> right is SessionStartupTimeout,
        left is SpawnCleanupTimeout <==> right is SpawnCleanupTimeout,
        left is SpawnContainmentUnconfirmed <==> right is SpawnContainmentUnconfirmed,
        left is ReadinessUnavailable <==> right is ReadinessUnavailable,
        left is ParentLivenessUnavailable <==> right is ParentLivenessUnavailable,
        left is ReadinessTimeout <==> right is ReadinessTimeout,
        left is ReadinessIo <==> right is ReadinessIo,
        left is InvalidReadiness <==> right is InvalidReadiness,
        left is EarlyExit <==> right is EarlyExit,
        left is Signal <==> right is Signal,
        left is ForwardedSignalMismatch <==> right is ForwardedSignalMismatch,
        left is SuspendTimeout <==> right is SuspendTimeout,
        left is Wait <==> right is Wait,
        left is WaitTimeout <==> right is WaitTimeout,
        left is TuiOutputDrain <==> right is TuiOutputDrain,
        left is AppGracefulDrainUnconfirmed <==> right is AppGracefulDrainUnconfirmed,
        left is RoleMismatch <==> right is RoleMismatch,
        left is RetryAfterResolution <==> right is RetryAfterResolution,
        left is Deadline <==> right is Deadline,
{
    reveal_strlit("supervised child spawn failed");
    assert("supervised child spawn failed"@.len() == 29);
    reveal_strlit("supervised child process-group readback failed");
    assert("supervised child process-group readback failed"@.len() == 46);
    reveal_strlit("supervised child process-group identity mismatched");
    assert("supervised child process-group identity mismatched"@.len() == 50);
    reveal_strlit("supervised child session readback failed");
    assert("supervised child session readback failed"@.len() == 40);
    reveal_strlit("supervised child session identity mismatched");
    assert("supervised child session identity mismatched"@.len() == 44);
    reveal_strlit("supervised child did not claim its session before the deadline");
    assert("supervised child did not claim its session before the deadline"@.len() == 62);
    reveal_strlit("supervised child spawn cleanup exceeded its deadline");
    assert("supervised child spawn cleanup exceeded its deadline"@.len() == 52);
    reveal_strlit("supervised child spawn containment remained unconfirmed");
    assert("supervised child spawn containment remained unconfirmed"@.len() == 55);
    reveal_strlit("supervised child has no readiness channel");
    assert("supervised child has no readiness channel"@.len() == 41);
    reveal_strlit("supervised child has no parent-liveness channel");
    assert("supervised child has no parent-liveness channel"@.len() == 47);
    reveal_strlit("supervised child readiness exceeded its deadline");
    assert("supervised child readiness exceeded its deadline"@.len() == 48);
    reveal_strlit("supervised child readiness channel failed");
    assert("supervised child readiness channel failed"@.len() == 41);
    reveal_strlit("supervised child readiness was invalid");
    assert("supervised child readiness was invalid"@.len() == 38);
    reveal_strlit("supervised child exited before readiness");
    assert("supervised child exited before readiness"@.len() == 40);
    reveal_strlit("supervised child process-group signal failed");
    assert("supervised child process-group signal failed"@.len() == 44);
    reveal_strlit("forwarded shutdown signal did not match the supervised TUI");
    assert("forwarded shutdown signal did not match the supervised TUI"@.len() == 58);
    reveal_strlit("supervised child suspend exceeded its deadline");
    assert("supervised child suspend exceeded its deadline"@.len() == 46);
    reveal_strlit("supervised child wait failed");
    assert("supervised child wait failed"@.len() == 28);
    reveal_strlit("supervised child wait exceeded its deadline");
    assert("supervised child wait exceeded its deadline"@.len() == 43);
    reveal_strlit("supervised TUI shutdown output drain failed");
    assert("supervised TUI shutdown output drain failed"@.len() == 43);
    reveal_strlit("the pinned App Server graceful drain remained unconfirmed");
    assert("the pinned App Server graceful drain remained unconfirmed"@.len() == 57);
    reveal_strlit("supervised child role mismatched its shutdown slot");
    assert("supervised child role mismatched its shutdown slot"@.len() == 50);
    reveal_strlit("supervised child shutdown was already resolved");
    assert("supervised child shutdown was already resolved"@.len() == 46);
    reveal_strlit("supervised child deadline was invalid");
    assert("supervised child deadline was invalid"@.len() == 37);
    assert("supervised child process-group readback failed"@[17] != "supervised child suspend exceeded its deadline"@[17]);
    assert("supervised child process-group readback failed"@[17] != "supervised child shutdown was already resolved"@[17]);
    assert("supervised child process-group identity mismatched"@[17] != "supervised child role mismatched its shutdown slot"@[17]);
    assert("supervised child session readback failed"@[17] != "supervised child exited before readiness"@[17]);
    assert("supervised child session identity mismatched"@[17] != "supervised child process-group signal failed"@[17]);
    assert("supervised child has no readiness channel"@[17] != "supervised child readiness channel failed"@[17]);
    assert("supervised child suspend exceeded its deadline"@[18] != "supervised child shutdown was already resolved"@[18]);
    assert("supervised child wait exceeded its deadline"@[11] != "supervised TUI shutdown output drain failed"@[11]);
}

} // verus!
