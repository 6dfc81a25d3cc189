//! The guardian's record of one direct child.
use vstd::prelude::*;

use crate::clock::Moment;
use crate::process::error::ProcessError;
use crate::process::status::WaitStatus;
use crate::protocol::message::{ChildDisposition, ChildRole, StopAction, UnixSignal};

verus! {

/// The next number off a counter, and the counter after it. A counter that is
/// exhausted gives none and stays.
pub open spec fn counted(counter: u64) -> (Option<u64>, u64) {
    if counter < u64::MAX {
        (Some(counter), (counter + 1) as u64)
    } else {
        (None, counter)
    }
}

/// A counter that is not exhausted gives a number, never gives it again, and
/// gives larger and larger ones; an exhausted one gives none ever after.
pub proof fn law_numbers_are_given_once(counter: u64)
    ensures
        ({
            let (first, after) = counted(counter);
            let (second, last) = counted(after);
            &&& first is Some <==> counter < u64::MAX
            &&& first is None ==> second is None && after == counter
            &&& first is Some && second is Some ==> first->0 < second->0
            &&& first is Some ==> first->0 < after && counter <= first->0
            &&& counter <= after <= last
        }),
{
}

/// Process-local identity that cannot be reconstructed from a reported process
/// or process-group number. It binds one-shot proofs to one direct child even
/// after the operating system reuses numeric identities.
#[derive(Clone, Copy, Debug, PartialEq, Eq, Structural)]
pub struct ChildAuthority(u64);

impl ChildAuthority {
    pub closed spec fn number(self) -> u64 {
        self.0
    }

    /// Takes the next identity off a counter. `None`: the counter is exhausted
    /// and no identity may ever be handed out again.
    pub fn next(counter: &mut u64) -> (authority: Option<Self>)
        ensures
            (
                match authority {
                    Some(authority) => Some(authority.number()),
                    None => None,
                },
                *final(counter),
            ) == counted(*old(counter)),
            match authority {
                Some(authority) => authority.number() == *old(counter) && *final(counter) == *old(
                    counter,
                ) + 1,
                None => *old(counter) == u64::MAX && *final(counter) == *old(counter),
            },
    {
        let current: u64 = *counter;
        match current.checked_add(1) {
            Some(following) => {
                *counter = following;
                Some(ChildAuthority(current))
            },
            None => None,
        }
    }

    pub fn for_test(value: u64) -> (authority: Self)
        ensures
            authority.number() == value,
    {
        ChildAuthority(value)
    }

    /// Whether both stand for the same direct child.
    pub fn same(self, other: Self) -> (same: bool)
        ensures
            same == (self == other),
            same == (self.number() == other.number()),
    {
        self.0 == other.0
    }
}

/// Two identities taken off one counter, one after the other, are different.
pub proof fn law_authorities_are_distinct(
    first: ChildAuthority,
    second: ChildAuthority,
    counter: int,
    later: int,
)
    requires
        first.number() == counter,
        second.number() == later,
        later >= counter + 1,
    ensures
        first != second,
{
}

/// Bounded process identity published only for containment attempts.
#[derive(Clone, Copy, Debug, PartialEq, Eq, Structural)]
pub struct ContainmentMetadata {
    role: ChildRole,
    pid: i32,
    pgid: i32,
}

impl ContainmentMetadata {
    pub closed spec fn identity(self) -> (ChildRole, i32, i32) {
        (self.role, self.pid, self.pgid)
    }

    pub fn role(self) -> (role: ChildRole)
        ensures
            role == self.identity().0,
    {
        self.role
    }

    pub fn pid(self) -> (pid: i32)
        ensures
            pid == self.identity().1,
    {
        self.pid
    }

    pub fn pgid(self) -> (pgid: i32)
        ensures
            pgid == self.identity().2,
    {
        self.pgid
    }

    pub fn for_test(role: ChildRole, pid: i32, pgid: i32) -> (metadata: Self)
        ensures
            metadata.identity() == (role, pid, pgid),
    {
        ContainmentMetadata { role, pid, pgid }
    }

    /// Whether both name the same child.
    pub fn same(self, other: Self) -> (same: bool)
        ensures
            same == (self == other),
            same == (self.identity() == other.identity()),
    {
        self.role == other.role && self.pid == other.pid && self.pgid == other.pgid
    }
}

/// Non-reaping liveness observed through the direct wait authority.
#[derive(Clone, Copy, Debug, PartialEq, Eq, Structural)]
pub enum ChildLiveness {
    Running,
    Exited,
}

/// A terminal signal that starts shutdown instead of returning to activity.
#[derive(Clone, Copy, Debug, PartialEq, Eq, Structural)]
pub enum TerminalShutdownSignal {
    Hup,
    Term,
}

/// An interactive terminal signal that never begins shutdown. HUP and TERM must
/// go through [`TerminalShutdownSignal`] and return a shutdown proof.
#[derive(Clone, Copy, Debug, PartialEq, Eq, Structural)]
pub enum InteractiveTerminalSignal {
    Int,
    Quit,
}

impl InteractiveTerminalSignal {
    /// The interactive signal that a signal of the wire stands for, if any.
    pub open spec fn narrowed(signal: UnixSignal) -> Option<Self> {
        match signal {
            UnixSignal::Int => Some(InteractiveTerminalSignal::Int),
            UnixSignal::Quit => Some(InteractiveTerminalSignal::Quit),
            UnixSignal::Hup => None,
            UnixSignal::Term => None,
        }
    }

    /// Narrows the wire-level allow-list.
    pub fn from_unix_signal(signal: UnixSignal) -> (narrowed: Option<Self>)
        ensures
            narrowed == Self::narrowed(signal),
            narrowed is None <==> signal.ends_session(),
    {
        match signal {
            UnixSignal::Int => Some(InteractiveTerminalSignal::Int),
            UnixSignal::Quit => Some(InteractiveTerminalSignal::Quit),
            UnixSignal::Hup | UnixSignal::Term => None,
        }
    }
}

/// How far the App Server's one graceful drain has come.
#[derive(Clone, Copy, Debug, PartialEq, Eq, Structural)]
pub enum AppGracefulDrainState {
    NotApplicable,
    AwaitingInitialTerm,
    InitialTermSent,
    Drained,
    Invalid,
}

impl AppGracefulDrainState {
    pub open spec fn initial(role: ChildRole) -> Self {
        match role {
            ChildRole::AppServer => AppGracefulDrainState::AwaitingInitialTerm,
            ChildRole::Tui => AppGracefulDrainState::NotApplicable,
        }
    }

    pub fn for_role(role: ChildRole) -> (state: Self)
        ensures
            state == Self::initial(role),
    {
        match role {
            ChildRole::AppServer => AppGracefulDrainState::AwaitingInitialTerm,
            ChildRole::Tui => AppGracefulDrainState::NotApplicable,
        }
    }
}

/// Whether a synthetic fixture may use a bounded zombie-only observation of its
/// group after a group signal was denied. Every real provider child is spawned
/// as `ProductionStrict`.
#[derive(Clone, Copy, Debug, PartialEq, Eq, Structural)]
pub enum GroupContainmentPolicy {
    ProductionStrict,
    SyntheticFixture,
}

/// What the platform can say of a group whose signal was denied. A platform
/// that can say nothing reports `None` throughout.
#[derive(Clone, Copy, Debug, PartialEq, Eq, Structural)]
pub struct GroupAbsence {
    /// The non-consuming wait status of the direct child.
    pub leader: Option<WaitStatus>,
    /// The group holds nothing but the anchored zombie leader.
    pub zombie_only: Option<bool>,
    /// The group has live members.
    pub live_members: Option<bool>,
}

/// A wait-visible direct leader that still pins its numbers, and a stable
/// zombie-only group.
pub open spec fn anchored_zombie_group(pid: i32, pgid: i32, absence: GroupAbsence) -> bool {
    &&& pid == pgid
    &&& absence.leader matches Some(status) && status.terminal()
    &&& absence.zombie_only == Some(true)
}

/// A denied group signal is containment proof only where absence was observed
/// independently; a permission error alone never is.
pub open spec fn absence_proven(
    pid: i32,
    pgid: i32,
    policy: GroupContainmentPolicy,
    absence: GroupAbsence,
) -> bool {
    ||| anchored_zombie_group(pid, pgid, absence)
    ||| policy == GroupContainmentPolicy::SyntheticFixture && absence.live_members == Some(false)
}

pub fn group_absence_proven(
    pid: i32,
    pgid: i32,
    policy: GroupContainmentPolicy,
    absence: GroupAbsence,
) -> (proven: bool)
    ensures
        proven == absence_proven(pid, pgid, policy, absence),
{
    let leader_terminal = match absence.leader {
        Some(status) => status.is_terminal(),
        None => false,
    };
    let zombie_only = match absence.zombie_only {
        Some(only) => only,
        None => false,
    };
    if pid == pgid && leader_terminal && zombie_only {
        return true;
    }
    let empty = match absence.live_members {
        Some(live) => !live,
        None => false,
    };
    policy == GroupContainmentPolicy::SyntheticFixture && empty
}

/// Everything that the guardian knows of a direct child, apart from its handle.
#[derive(Clone, Copy, Debug)]
pub struct ChildState {
    pub role: ChildRole,
    pub authority: ChildAuthority,
    pub pid: i32,
    pub pgid: i32,
    pub readiness_open: bool,
    pub observed_exit: bool,
    pub containment_swept: bool,
    pub stop_action: StopAction,
    pub disposition: Option<ChildDisposition>,
    pub app_graceful_drain: AppGracefulDrainState,
    pub drop_deadline: Option<Moment>,
    pub containment_policy: GroupContainmentPolicy,
}

impl ChildState {
    /// A child right after its identity was confirmed.
    pub open spec fn published(
        role: ChildRole,
        authority: ChildAuthority,
        pid: i32,
        readiness_open: bool,
        containment_policy: GroupContainmentPolicy,
    ) -> Self {
        ChildState {
            role,
            authority,
            pid,
            pgid: pid,
            readiness_open,
            observed_exit: false,
            containment_swept: false,
            stop_action: StopAction::NoAction,
            disposition: None,
            app_graceful_drain: AppGracefulDrainState::initial(role),
            drop_deadline: None,
            containment_policy,
        }
    }

    pub fn publish(
        role: ChildRole,
        authority: ChildAuthority,
        pid: i32,
        readiness_open: bool,
        containment_policy: GroupContainmentPolicy,
    ) -> (child: Self)
        ensures
            child == Self::published(role, authority, pid, readiness_open, containment_policy),
    {
        ChildState {
            role,
            authority,
            pid,
            pgid: pid,
            readiness_open,
            observed_exit: false,
            containment_swept: false,
            stop_action: StopAction::NoAction,
            disposition: None,
            app_graceful_drain: AppGracefulDrainState::for_role(role),
            drop_deadline: None,
            containment_policy,
        }
    }

    /// The child has ended, whether or not it was reaped.
    pub open spec fn ended(self) -> bool {
        self.observed_exit || self.disposition is Some
    }

    pub open spec fn role_outcome(self, expected: ChildRole) -> Result<(), ProcessError> {
        if self.role == expected {
            Ok(())
        } else {
            Err(ProcessError::RoleMismatch { expected, actual: self.role })
        }
    }

    pub fn role_matches(&self, expected: ChildRole) -> (matched: Result<(), ProcessError>)
        ensures
            matched == self.role_outcome(expected),
    {
        if self.role == expected {
            Ok(())
        } else {
            Err(ProcessError::RoleMismatch { expected, actual: self.role })
        }
    }

    pub fn containment(&self) -> (metadata: ContainmentMetadata)
        ensures
            metadata.identity() == (self.role, self.pid, self.pgid),
    {
        ContainmentMetadata { role: self.role, pid: self.pid, pgid: self.pgid }
    }

    pub fn child_authority(&self) -> (authority: ChildAuthority)
        ensures
            authority == self.authority,
    {
        self.authority
    }
}

/// A guardian-owned direct child: its handle, and the record that is kept of
/// it. The handle is the sole wait authority and leaves only with its owner.
pub struct ManagedGroupChild<H> {
    pub handle: H,
    pub state: ChildState,
}

/// Proof that shutdown forwarding completed for this exact TUI process group.
pub struct ForwardedTuiSignal {
    signal: TerminalShutdownSignal,
    containment: ContainmentMetadata,
    authority: ChildAuthority,
}

impl ForwardedTuiSignal {
    pub closed spec fn forwarded(&self) -> TerminalShutdownSignal {
        self.signal
    }

    pub closed spec fn identity(&self) -> (ChildRole, i32, i32) {
        self.containment.identity()
    }

    pub closed spec fn bound_to(&self) -> ChildAuthority {
        self.authority
    }

    pub(crate) fn mint(signal: TerminalShutdownSignal, child: &ChildState) -> (forwarded: Self)
        ensures
            forwarded.forwarded() == signal,
            forwarded.proves(*child) <==> child.role == ChildRole::Tui,
            forwarded.identity() == (child.role, child.pid, child.pgid),
            forwarded.bound_to() == child.authority,
    {
        ForwardedTuiSignal {
            signal,
            containment: child.containment(),
            authority: child.authority,
        }
    }

    /// A proof whose parts are given, for negative tests of the identity check.
    pub fn for_test(
        signal: TerminalShutdownSignal,
        containment: ContainmentMetadata,
        authority: ChildAuthority,
    ) -> (forwarded: Self)
        ensures
            forwarded.forwarded() == signal,
            forwarded.identity() == containment.identity(),
            forwarded.bound_to() == authority,
    {
        ForwardedTuiSignal { signal, containment, authority }
    }

    pub fn signal(&self) -> (signal: TerminalShutdownSignal)
        ensures
            signal == self.forwarded(),
    {
        self.signal
    }

    /// The proof is about exactly this TUI: same numbers, same process-local
    /// identity.
    pub open spec fn proves(&self, child: ChildState) -> bool {
        &&& self.identity() == (child.role, child.pid, child.pgid)
        &&& self.bound_to() == child.authority
        &&& child.role == ChildRole::Tui
    }

    pub fn matches(&self, child: &ChildState) -> (matched: bool)
        ensures
            matched == self.proves(*child),
    {
        self.containment.same(child.containment()) && self.authority.same(child.authority)
            && child.role == ChildRole::Tui
    }
}

/// The interval between two polls, in nanoseconds.
pub const POLL_INTERVAL_NANOS: u64 = 10_000_000;

/// How long to pause before the next poll: one interval, or what is left.
pub open spec fn pause(now: Moment, deadline: Moment) -> int {
    let left = deadline.nanos - now.nanos;
    if left <= 0 {
        0
    } else if left < POLL_INTERVAL_NANOS {
        left
    } else {
        POLL_INTERVAL_NANOS as int
    }
}

pub fn sleep_until_next_poll(now: Moment, deadline: Moment) -> (nanos: u64)
    ensures
        nanos == pause(now, deadline),
        now.nanos + nanos <= deadline.nanos || nanos == 0,
{
    if now.has_reached(deadline) {
        0
    } else {
        let left: u64 = deadline.nanos - now.nanos;
        if left < POLL_INTERVAL_NANOS {
            left
        } else {
            POLL_INTERVAL_NANOS
        }
    }
}

/// A denied signal alone proves nothing: without an independent observation no
/// group counts as absent, and a production child needs the exact zombie
/// leader and a group of nothing else.
pub proof fn law_denied_signal_alone_proves_nothing(
    pid: i32,
    pgid: i32,
    policy: GroupContainmentPolicy,
    absence: GroupAbsence,
)
    ensures
        absence.leader is None && absence.live_members is None ==> !absence_proven(
            pid,
            pgid,
            policy,
            absence,
        ),
        policy == GroupContainmentPolicy::ProductionStrict && absence_proven(
            pid,
            pgid,
            policy,
            absence,
        ) ==> pid == pgid && absence.zombie_only == Some(true) && (absence.leader matches Some(
            status,
        ) && status.terminal()),
{
}

} // verus!
