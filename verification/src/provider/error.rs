//! Fixed, redacted provider failures.
use vstd::prelude::*;

use crate::process::descriptor::ProcessGroupDescriptorScanError;
use crate::process::error::ProcessError;

verus! {

/// A failure at the launch boundary of the provider.
#[derive(Clone, Copy, Debug, PartialEq, Eq, Structural)]
pub enum ProviderLaunchError {
    InvalidArgument,
    AuthorityConsumed,
    SessionInUse,
    ExecutableChanged,
    SessionChanged,
    Storage,
    Timeout,
}

impl ProviderLaunchError {
    /// The fixed sentence shown for this error.
    pub open spec fn text(self) -> Seq<char> {
        match self {
            ProviderLaunchError::InvalidArgument => "the supervised Codex launch plan is invalid"@,
            ProviderLaunchError::AuthorityConsumed =>
                "the supervised Codex launch authority was already consumed"@,
            ProviderLaunchError::SessionInUse => "the supervised Codex session is still in use"@,
            ProviderLaunchError::ExecutableChanged => "the verified Codex executable changed"@,
            ProviderLaunchError::SessionChanged => "the verified Codex session inputs changed"@,
            ProviderLaunchError::Storage => "the private Codex executable stage is unsafe"@,
            ProviderLaunchError::Timeout => "the verified Codex executable stage timed out"@,
        }
    }

    pub fn message(&self) -> (message: &'static str)
        ensures
            message@ == self.text(),
    {
        match self {
            ProviderLaunchError::InvalidArgument => "the supervised Codex launch plan is invalid",
            ProviderLaunchError::AuthorityConsumed =>
                "the supervised Codex launch authority was already consumed",
            ProviderLaunchError::SessionInUse => "the supervised Codex session is still in use",
            ProviderLaunchError::ExecutableChanged => "the verified Codex executable changed",
            ProviderLaunchError::SessionChanged => "the verified Codex session inputs changed",
            ProviderLaunchError::Storage => "the private Codex executable stage is unsafe",
            ProviderLaunchError::Timeout => "the verified Codex executable stage timed out",
        }
    }
}

/// A failure of the private stage that pins the provider's executable.
#[derive(Clone, Copy, Debug, PartialEq, Eq, Structural)]
pub enum PinnedStageError {
    ExecutableChanged,
    Storage,
    Timeout,
}

impl vstd::std_specs::convert::FromSpecImpl<PinnedStageError> for ProviderLaunchError {
    open spec fn obeys_from_spec() -> bool {
        true
    }

    open spec fn from_spec(error: PinnedStageError) -> Self {
        stage_error(error)
    }
}

impl From<PinnedStageError> for ProviderLaunchError {
    fn from(error: PinnedStageError) -> (launch: Self) {
        match error {
            PinnedStageError::ExecutableChanged => ProviderLaunchError::ExecutableChanged,
            PinnedStageError::Storage => ProviderLaunchError::Storage,
            PinnedStageError::Timeout => ProviderLaunchError::Timeout,
        }
    }
}

/// The launch error that a failure of the stage becomes.
pub open spec fn stage_error(error: PinnedStageError) -> ProviderLaunchError {
    match error {
        PinnedStageError::ExecutableChanged => ProviderLaunchError::ExecutableChanged,
        PinnedStageError::Storage => ProviderLaunchError::Storage,
        PinnedStageError::Timeout => ProviderLaunchError::Timeout,
    }
}

/// The part of a socket failure that the provider distinguishes.
#[derive(Clone, Copy, Debug, PartialEq, Eq, Structural)]
pub enum AppSocketError {
    SocketNotReady,
    SocketStillPresent,
    AdoptionTimeout,
    IdentityMismatch,
    Timeout,
    /// Any other failure, by the number under which its owner finds it again.
    Other { cause: u32 },
}

/// The part of a relay failure that the provider distinguishes.
#[derive(Clone, Copy, Debug, PartialEq, Eq, Structural)]
pub enum ReadinessProxyError {
    InvalidArgument,
    Timeout,
    Cleanup,
    Worker,
    /// Any other failure, by the number under which its owner finds it again.
    Other { cause: u32 },
}

/// A failure to bring the App Server and its socket together.
#[derive(Clone, Copy, Debug, PartialEq, Eq, Structural)]
pub enum AppServerTopologyError {
    CrossSessionSocket,
    DescriptorIsolation(ProcessGroupDescriptorScanError),
    Provider(ProviderLaunchError),
    Socket(AppSocketError),
    Process(ProcessError),
}

/// A failure to launch the App Server.
#[derive(Clone, Copy, Debug, PartialEq, Eq, Structural)]
pub enum AppServerLaunchError {
    Provider(ProviderLaunchError),
    Spawn(ProcessError),
}

impl AppServerLaunchError {
    pub open spec fn text(self) -> Seq<char> {
        match self {
            AppServerLaunchError::Provider(error) => error.text(),
            AppServerLaunchError::Spawn(error) => error.text(),
        }
    }

    pub fn message(&self) -> (message: &'static str)
        ensures
            message@ == self.text(),
    {
        match self {
            AppServerLaunchError::Provider(error) => error.message(),
            AppServerLaunchError::Spawn(error) => error.message(),
        }
    }
}

/// A failure to take the App Server's socket and runtime down.
#[derive(Debug, PartialEq, Eq)]
pub enum AppServerTeardownError<R> {
    Process(ProcessError),
    Socket(AppSocketError),
    Runtime(R),
}

/// A failure to start the exact relay.
#[derive(Clone, Copy, Debug, PartialEq, Eq, Structural)]
pub enum ExactRelayStartError {
    Provider(ProviderLaunchError),
    Relay(ReadinessProxyError),
}

/// The earlier of two errors: a later one never replaces it.
pub open spec fn earlier<E>(prior: Option<E>, current: Option<E>) -> Option<E> {
    match prior {
        Some(error) => Some(error),
        None => current,
    }
}

pub fn keep_earlier<E>(prior: Option<E>, current: Option<E>) -> (kept: Option<E>)
    ensures
        kept == earlier(prior, current),
{
    match prior {
        Some(error) => Some(error),
        None => current,
    }
}

/// A failure of the stage keeps its meaning as a launch error, and different
/// failures stay different.
pub proof fn law_stage_failures_keep_their_meaning(left: PinnedStageError, right: PinnedStageError)
    ensures
        stage_error(left) == stage_error(right) ==> left == right,
        stage_error(left) == ProviderLaunchError::ExecutableChanged <==> left
            == PinnedStageError::ExecutableChanged,
        stage_error(left) == ProviderLaunchError::Storage <==> left == PinnedStageError::Storage,
        stage_error(left) == ProviderLaunchError::Timeout <==> left == PinnedStageError::Timeout,
{
}

/// Of two errors the earlier one is kept, and either one where it is alone.
pub proof fn law_earlier_error_is_kept<E>(prior: E, current: Option<E>)
    ensures
        earlier(Some(prior), current) == Some(prior),
        earlier(None, current) == current,
{
}

/// Different launch errors are told by different sentences.
pub proof fn law_launch_errors_read_apart(left: ProviderLaunchError, right: ProviderLaunchError)
    requires
        left.text() == right.text(),
    ensures
        left == right,
{
    reveal_strlit("the supervised Codex launch plan is invalid");
    assert("the supervised Codex launch plan is invalid"@.len() == 43);
    reveal_strlit("the supervised Codex launch authority was already consumed");
    assert("the supervised Codex launch authority was already consumed"@.len() == 58);
    reveal_strlit("the supervised Codex session is still in use");
    assert("the supervised Codex session is still in use"@.len() == 44);
    reveal_strlit("the verified Codex executable changed");
    assert("the verified Codex executable changed"@.len() == 37);
    reveal_strlit("the verified Codex session inputs changed");
    assert("the verified Codex session inputs changed"@.len() == 41);
    reveal_strlit("the private Codex executable stage is unsafe");
    assert("the private Codex executable stage is unsafe"@.len() == 44);
    reveal_strlit("the verified Codex executable stage timed out");
    assert("the verified Codex executable stage timed out"@.len() == 45);
    assert("the supervised Codex session is still in use"@[4] != "the private Codex executable stage is unsafe"@[4]);
}

} // verus!
