//! What a shutdown leaves behind.
use vstd::prelude::*;

use crate::process::child::{ChildAuthority, TerminalShutdownSignal};
use crate::process::error::ProcessError;
use crate::protocol::message::ChildDisposition;

verus! {

/// Proof that every guardian-owned direct child was exactly reaped.
#[must_use]
#[derive(Clone, Copy, Debug, PartialEq, Eq, Structural)]
pub struct ReapedChildren {
    tui: ChildDisposition,
    app_server: ChildDisposition,
}

impl ReapedChildren {
    /// The dispositions of TUI and App Server.
    pub closed spec fn dispositions(self) -> (ChildDisposition, ChildDisposition) {
        (self.tui, self.app_server)
    }

    pub(crate) fn mint(tui: ChildDisposition, app_server: ChildDisposition) -> (children: Self)
        ensures
            children.dispositions() == (tui, app_server),
    {
        ReapedChildren { tui, app_server }
    }

    pub fn tui(self) -> (disposition: ChildDisposition)
        ensures
            disposition == self.dispositions().0,
    {
        self.tui
    }

    pub fn app_server(self) -> (disposition: ChildDisposition)
        ensures
            disposition == self.dispositions().1,
    {
        self.app_server
    }
}

/// The result of a bounded shutdown that exactly reaped every started child.
#[must_use]
#[derive(Clone, Copy, Debug, PartialEq, Eq, Structural)]
pub enum ShutdownOutcome {
    Clean(ReapedChildren),
    Failed { children: ReapedChildren, error: ProcessError },
}

impl ShutdownOutcome {
    pub open spec fn reaped(self) -> ReapedChildren {
        match self {
            ShutdownOutcome::Clean(children) => children,
            ShutdownOutcome::Failed { children, .. } => children,
        }
    }

    pub open spec fn first_error(self) -> Option<ProcessError> {
        match self {
            ShutdownOutcome::Clean(_) => None,
            ShutdownOutcome::Failed { error, .. } => Some(error),
        }
    }

    pub fn children(self) -> (children: ReapedChildren)
        ensures
            children == self.reaped(),
    {
        match self {
            ShutdownOutcome::Clean(children) => children,
            ShutdownOutcome::Failed { children, .. } => children,
        }
    }

    pub fn failure(self) -> (failure: Option<ProcessError>)
        ensures
            failure == self.first_error(),
    {
        match self {
            ShutdownOutcome::Clean(_) => None,
            ShutdownOutcome::Failed { error, .. } => Some(error),
        }
    }
}

/// Evidence that one exact App Server drained: it exited with status zero after
/// its first and only TERM.
pub struct PinnedAppGracefullyDrained {
    authority: ChildAuthority,
}

impl PinnedAppGracefullyDrained {
    pub closed spec fn bound_to(&self) -> ChildAuthority {
        self.authority
    }

    pub(crate) fn mint(authority: ChildAuthority) -> (drained: Self)
        ensures
            drained.bound_to() == authority,
    {
        PinnedAppGracefullyDrained { authority }
    }
}

/// What a completed shutdown of the pair hands over.
pub struct ShutdownCompletion {
    pub outcome: ShutdownOutcome,
    pub app_gracefully_drained: Option<PinnedAppGracefullyDrained>,
}

/// Move-only evidence that the pinned App Server received the guardian's one
/// allowed shutdown signal and then exited successfully.
///
/// Shell tools may leave the App Server's process group, so this is no proof
/// that no descendant is left. It authorizes release only under the App
/// Server's own graceful shutdown contract.
#[must_use]
pub struct PinnedAppGracefulDrain {
    outcome: ShutdownOutcome,
    drained: PinnedAppGracefullyDrained,
}

impl PinnedAppGracefulDrain {
    pub closed spec fn reported(&self) -> ShutdownOutcome {
        self.outcome
    }

    pub closed spec fn bound_to(&self) -> ChildAuthority {
        self.drained.bound_to()
    }

    pub(crate) fn mint(outcome: ShutdownOutcome, drained: PinnedAppGracefullyDrained) -> (drain:
        Self)
        ensures
            drain.reported() == outcome,
            drain.bound_to() == drained.bound_to(),
    {
        PinnedAppGracefulDrain { outcome, drained }
    }

    pub fn outcome(&self) -> (outcome: &ShutdownOutcome)
        ensures
            *outcome == self.reported(),
    {
        &self.outcome
    }

    pub fn child_authority(&self) -> (authority: ChildAuthority)
        ensures
            authority == self.bound_to(),
    {
        self.drained.authority
    }

    /// Evidence for a given identity, without a shutdown.
    pub fn for_child_authority_test(authority: ChildAuthority) -> (drain: Self)
        ensures
            drain.bound_to() == authority,
            drain.reported() matches ShutdownOutcome::Clean(children) && children.dispositions()
                == (ChildDisposition::NotStarted, ChildDisposition::NotStarted),
    {
        PinnedAppGracefulDrain {
            outcome: ShutdownOutcome::Clean(
                ReapedChildren {
                    tui: ChildDisposition::NotStarted,
                    app_server: ChildDisposition::NotStarted,
                },
            ),
            drained: PinnedAppGracefullyDrained { authority },
        }
    }
}

/// How the TUI's part of a shutdown begins.
#[derive(Clone, Copy, Debug, PartialEq, Eq, Structural)]
pub enum TuiShutdownMode {
    StartWithTerm,
    SignalAlreadyForwarded(TerminalShutdownSignal),
    OutputEofObserved,
}

} // verus!
