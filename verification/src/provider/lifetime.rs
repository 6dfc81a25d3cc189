//! How long a session lasts.
//!
//! The lease of a session has several owners: the build, and every authority
//! that can outlive a call on it. It is released with the last of them, and a
//! build is cleaned up only where it is the last.
use std::sync::Arc;

use vstd::prelude::*;

verus! {

/// What a session holds as long as it lasts.
pub struct SessionLifetime<L> {
    lease: L,
}

impl<L> SessionLifetime<L> {
    pub closed spec fn held(&self) -> L {
        self.lease
    }

    pub(crate) fn of_lease(lease: L) -> (lifetime: Arc<Self>)
        ensures
            lifetime.held() == lease,
    {
        Arc::new(SessionLifetime { lease })
    }

    pub fn lease(&self) -> (lease: &L)
        ensures
            *lease == self.held(),
    {
        &self.lease
    }
}

/// One owner of a session's lifetime. As long as it is there, the build of the
/// session has another owner beside itself.
#[must_use]
pub struct SessionRuntimeGuard<L> {
    lifetime: Arc<SessionLifetime<L>>,
}

impl<L> SessionRuntimeGuard<L> {
    pub closed spec fn held(&self) -> L {
        self.lifetime.held()
    }

    /// Adds an owner to a lifetime.
    pub(crate) fn retain(lifetime: &Arc<SessionLifetime<L>>) -> (guard: Self)
        ensures
            guard.held() == lifetime.held(),
    {
        SessionRuntimeGuard { lifetime: lifetime.clone() }
    }

    pub fn lease(&self) -> (lease: &L)
        ensures
            *lease == self.held(),
    {
        self.lifetime.lease()
    }

    pub fn redacted(&self) -> (text: &'static str)
        ensures
            text@ == "SessionRuntimeGuard(<redacted>)"@,
    {
        "SessionRuntimeGuard(<redacted>)"
    }
}

/// How many owners a lifetime has, by `Arc::strong_count`. The owner that asks
/// is one of them. How many others there are depends on what else is alive, so
/// nothing more is claimed.
#[verifier::external_body]
pub(crate) fn lifetime_owners<L>(lifetime: &Arc<SessionLifetime<L>>) -> (owners: usize)
    ensures
        owners >= 1,
{
    Arc::strong_count(lifetime)
}

} // verus!
