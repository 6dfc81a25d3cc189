//! Which of the guardian's descriptors a child must never hold.
//!
//! Each owner lists its own descriptors; they are captured in the order of the
//! list. Every owner lists the guardian-only lease.
use vstd::prelude::*;

use crate::provider::adoption::ConnectedMonitorSession;
use crate::provider::pinned::PinnedSessionBuild;
use crate::provider::relay::ExactRelaySession;

verus! {

/// A descriptor, or a group of them, by what it belongs to.
#[derive(Clone, Copy, Debug, PartialEq, Eq, Structural)]
pub enum ForbiddenDescriptor {
    /// Whatever pins the staged executable.
    PinnedExecutable,
    GuardianLease,
    CodexHome,
    WorkingDirectory,
    RelayListener,
    /// Whatever holds the App Server's adopted socket and its runtime.
    AppSocket,
    MonitorStream,
}

/// What a build pins: its executable, its lease and its two directories.
pub open spec fn build_denyset() -> Seq<ForbiddenDescriptor> {
    seq![
        ForbiddenDescriptor::PinnedExecutable,
        ForbiddenDescriptor::GuardianLease,
        ForbiddenDescriptor::CodexHome,
        ForbiddenDescriptor::WorkingDirectory,
    ]
}

pub open spec fn relay_denyset() -> Seq<ForbiddenDescriptor> {
    seq![ForbiddenDescriptor::RelayListener, ForbiddenDescriptor::GuardianLease]
}

/// What a connected session holds. A stream that has moved to the monitor is
/// listed by the monitor.
pub open spec fn connected_denyset(holds_stream: bool) -> Seq<ForbiddenDescriptor> {
    if holds_stream {
        seq![
            ForbiddenDescriptor::GuardianLease,
            ForbiddenDescriptor::AppSocket,
            ForbiddenDescriptor::MonitorStream,
        ]
    } else {
        seq![ForbiddenDescriptor::GuardianLease, ForbiddenDescriptor::AppSocket]
    }
}

/// Lists what a runtime guard keeps open: the guardian-only lease.
pub fn append_runtime_guard_descriptors(forbidden: &mut Vec<ForbiddenDescriptor>)
    ensures
        final(forbidden)@ == old(forbidden)@.push(ForbiddenDescriptor::GuardianLease),
{
    forbidden.push(ForbiddenDescriptor::GuardianLease);
}

impl<E, L, D> PinnedSessionBuild<E, L, D> {
    /// Lists every descriptor that pins the build.
    pub fn append_forbidden_descriptors(&self, forbidden: &mut Vec<ForbiddenDescriptor>)
        ensures
            final(forbidden)@ == old(forbidden)@ + build_denyset(),
    {
        forbidden.push(ForbiddenDescriptor::PinnedExecutable);
        append_runtime_guard_descriptors(forbidden);
        forbidden.push(ForbiddenDescriptor::CodexHome);
        forbidden.push(ForbiddenDescriptor::WorkingDirectory);
    }
}

impl<P, L> ExactRelaySession<P, L> {
    /// Lists the relay's listener and the lease that the relay keeps.
    pub fn append_forbidden_descriptors(&self, forbidden: &mut Vec<ForbiddenDescriptor>)
        ensures
            final(forbidden)@ == old(forbidden)@ + relay_denyset(),
    {
        forbidden.push(ForbiddenDescriptor::RelayListener);
        append_runtime_guard_descriptors(forbidden);
    }
}

impl<H, L, D, So, I, St> ConnectedMonitorSession<H, L, D, So, I, St> {
    /// Lists the lease, the adopted socket, and the stream while it is here.
    pub fn append_forbidden_descriptors(&self, forbidden: &mut Vec<ForbiddenDescriptor>)
        ensures
            final(forbidden)@ == old(forbidden)@ + connected_denyset(self.stream is Some),
    {
        append_runtime_guard_descriptors(forbidden);
        forbidden.push(ForbiddenDescriptor::AppSocket);
        if self.stream.is_some() {
            forbidden.push(ForbiddenDescriptor::MonitorStream);
        }
    }
}

/// Whoever lists its descriptors lists the guardian-only lease exactly once.
pub proof fn law_every_denyset_holds_the_lease_once(denyset: Seq<ForbiddenDescriptor>)
    requires
        denyset == build_denyset() || denyset == relay_denyset() || denyset == connected_denyset(
            true,
        ) || denyset == connected_denyset(false),
    ensures
        denyset.contains(ForbiddenDescriptor::GuardianLease),
        denyset.no_duplicates(),
{
    let place: int = if denyset == build_denyset() || denyset == relay_denyset() {
        1
    } else {
        0
    };
    assert(denyset[place] == ForbiddenDescriptor::GuardianLease);
}

/// A build denies its executable, the lease and its two directories; a relay its
/// listener and the lease; a connected session the lease, its socket, and its
/// stream exactly as long as it holds one. None of them denies anything else.
pub proof fn law_each_owner_denies_its_own(descriptor: ForbiddenDescriptor, holds_stream: bool)
    ensures
        build_denyset().contains(descriptor) <==> descriptor
            == ForbiddenDescriptor::PinnedExecutable || descriptor
            == ForbiddenDescriptor::GuardianLease || descriptor == ForbiddenDescriptor::CodexHome
            || descriptor == ForbiddenDescriptor::WorkingDirectory,
        relay_denyset().contains(descriptor) <==> descriptor == ForbiddenDescriptor::RelayListener
            || descriptor == ForbiddenDescriptor::GuardianLease,
        connected_denyset(holds_stream).contains(descriptor) <==> descriptor
            == ForbiddenDescriptor::GuardianLease || descriptor == ForbiddenDescriptor::AppSocket
            || (holds_stream && descriptor == ForbiddenDescriptor::MonitorStream),
{
    let build = build_denyset();
    let relay = relay_denyset();
    let connected = connected_denyset(holds_stream);
    assert(build[0] == ForbiddenDescriptor::PinnedExecutable && build[1]
        == ForbiddenDescriptor::GuardianLease && build[2] == ForbiddenDescriptor::CodexHome
        && build[3] == ForbiddenDescriptor::WorkingDirectory);
    assert(relay[0] == ForbiddenDescriptor::RelayListener && relay[1]
        == ForbiddenDescriptor::GuardianLease);
    assert(connected[0] == ForbiddenDescriptor::GuardianLease && connected[1]
        == ForbiddenDescriptor::AppSocket);
    assert(holds_stream ==> connected[2] == ForbiddenDescriptor::MonitorStream);
}

} // verus!
