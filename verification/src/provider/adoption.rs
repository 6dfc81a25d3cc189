//! From the launched App Server to the connected monitor.
//!
//! The App Server binds its socket on its own time. The socket is adopted only
//! while the exact child is running, and only the socket that the launch plan
//! named; the monitor is connected only to an adopted socket.
use vstd::prelude::*;

use crate::clock::Moment;
use crate::process::child::{ChildState, ContainmentMetadata, ManagedGroupChild};
use crate::process::descriptor::ProcessGroupDescriptorScanError;
use crate::process::error::ProcessError;
use crate::process::observe::{ChildAction, ChildEvent};
use crate::process::readiness::{confirm_running_after_readiness, ConfirmPhase, ConfirmRunning};
use crate::protocol::message::ChildRole;
use crate::provider::error::{AppServerTopologyError, AppSocketError, ProviderLaunchError};
use crate::provider::launch::AppServerChild;
use crate::provider::path::{components, same_path};
use crate::provider::pinned::MonitorSessionCapability;

verus! {

/// The longest pause between two looks for the socket, in nanoseconds.
pub const SOCKET_PAUSE_NANOS: u64 = 5_000_000;

pub open spec fn socket_pause(now: Moment, deadline: Moment) -> int {
    let left = deadline.nanos - now.nanos;
    if left <= 0 {
        0
    } else if left < SOCKET_PAUSE_NANOS {
        left
    } else {
        SOCKET_PAUSE_NANOS as int
    }
}

/// How long to pause before the next look for the socket.
pub fn pause_for_socket(now: Moment, deadline: Moment) -> (nanos: u64)
    ensures
        nanos == socket_pause(now, deadline),
{
    if now.has_reached(deadline) {
        0
    } else {
        let left: u64 = deadline.nanos - now.nanos;
        if left < SOCKET_PAUSE_NANOS {
            left
        } else {
            SOCKET_PAUSE_NANOS
        }
    }
}

/// Proof that the group of one exact App Server held no forbidden descriptor.
#[must_use]
pub struct VerifiedAppDescriptorIsolation<I> {
    containment: ContainmentMetadata,
    evidence: I,
}

impl<I> VerifiedAppDescriptorIsolation<I> {
    /// The role and the numbers of the App Server that was scanned.
    pub closed spec fn identity(&self) -> (ChildRole, i32, i32) {
        self.containment.identity()
    }

    pub closed spec fn spec_evidence(&self) -> I {
        self.evidence
    }

    /// The proof is about this App Server.
    pub open spec fn about<H, L, D>(&self, child: AppServerChild<H, L, D>) -> bool {
        self.identity() == (child.child.state.role, child.child.state.pid, child.child.state.pgid)
    }

    pub fn containment(&self) -> (containment: ContainmentMetadata)
        ensures
            containment.identity() == self.identity(),
    {
        self.containment
    }

    pub fn evidence(&self) -> (evidence: &I)
        ensures
            *evidence == self.spec_evidence(),
    {
        &self.evidence
    }
}

impl<H, L, D> AppServerChild<H, L, D> {
    /// The proof of a scan of this App Server's group, if the scan gave one.
    pub fn verify_descriptor_isolation<I>(
        &self,
        scanned: Result<I, ProcessGroupDescriptorScanError>,
    ) -> (verified: Result<VerifiedAppDescriptorIsolation<I>, ProcessGroupDescriptorScanError>)
        ensures
            match (scanned, verified) {
                (Ok(evidence), Ok(isolation)) => isolation.spec_evidence() == evidence
                    && isolation.about(*self),
                (Err(error), Err(reported)) => reported == error,
                _ => false,
            },
    {
        match scanned {
            Ok(evidence) => Ok(
                VerifiedAppDescriptorIsolation {
                    containment: self.child.state.containment(),
                    evidence,
                },
            ),
            Err(error) => Err(error),
        }
    }
}

// ---------------------------------------------------------------------------
// Adopting the socket.
// ---------------------------------------------------------------------------

/// What an adoption or a connection does next.
#[derive(Clone, Copy, Debug, PartialEq, Eq, Structural)]
pub enum SocketAction {
    Child(ChildAction),
    /// Try to adopt, or to connect to, the socket.
    Try,
    ReadClock,
    /// Pause for as long as [`pause_for_socket`] says.
    Pause { deadline: Moment },
}

/// What came of it.
#[derive(Clone, Copy, Debug)]
pub enum SocketEvent {
    Child(ChildEvent),
    Tried(Result<(), AppSocketError>),
    Clock(Moment),
    Paused,
}

#[derive(Clone, Copy, Debug, PartialEq, Eq, Structural)]
pub enum AdoptionPhase {
    Confirm(ConfirmRunning),
    Try,
    Clock,
    Pause,
    Adopted,
    Failed(AppServerTopologyError),
}

/// The wait for the App Server to bind its socket.
#[derive(Clone, Copy, Debug, PartialEq, Eq, Structural)]
pub struct SocketAdoption {
    pub deadline: Moment,
    pub phase: AdoptionPhase,
}

pub open spec fn socket_step(action: Option<ChildAction>) -> Option<SocketAction> {
    match action {
        Some(action) => Some(SocketAction::Child(action)),
        None => None,
    }
}

fn child_socket_step(action: Option<ChildAction>) -> (step: Option<SocketAction>)
    ensures
        step == socket_step(action),
{
    match action {
        Some(action) => Some(SocketAction::Child(action)),
        None => None,
    }
}

/// Why an adoption is refused before it looks for any socket.
pub open spec fn adoption_refusal<H, L, D, I>(
    child: AppServerChild<H, L, D>,
    reservation_path: Seq<u8>,
    bound: Result<(), AppSocketError>,
    isolation: VerifiedAppDescriptorIsolation<I>,
) -> Option<AppServerTopologyError> {
    if components(reservation_path) != components(child.expected_socket_path@) {
        Some(AppServerTopologyError::CrossSessionSocket)
    } else if bound is Err {
        Some(AppServerTopologyError::Socket(bound->Err_0))
    } else if !isolation.about(child) {
        Some(
            AppServerTopologyError::DescriptorIsolation(
                ProcessGroupDescriptorScanError::ProcessChanged,
            ),
        )
    } else {
        None
    }
}

impl SocketAdoption {
    pub open spec fn at(self, phase: AdoptionPhase) -> Self {
        SocketAdoption { phase, ..self }
    }

    pub open spec fn with_confirmation(self, confirm: ConfirmRunning) -> Self {
        match confirm.phase {
            ConfirmPhase::Running => self.at(AdoptionPhase::Try),
            ConfirmPhase::Failed(error) => self.at(
                AdoptionPhase::Failed(AppServerTopologyError::Process(error)),
            ),
            _ => self.at(AdoptionPhase::Confirm(confirm)),
        }
    }

    /// A round begins with the check that the child is running.
    pub open spec fn round(self, child: ChildState) -> (Self, ChildState) {
        let (confirm, child) = ConfirmRunning::start(child, self.deadline);
        (self.with_confirmation(confirm), child)
    }

    /// An adoption that is not refused begins with a round.
    pub open spec fn start(child: ChildState, deadline: Moment) -> (Self, ChildState) {
        SocketAdoption { deadline, phase: AdoptionPhase::Try }.round(child)
    }

    pub open spec fn after(self, child: ChildState, event: SocketEvent) -> (Self, ChildState) {
        match (self.phase, event) {
            (AdoptionPhase::Confirm(confirm), SocketEvent::Child(event)) => {
                let (confirm, child) = confirm.after(child, event);
                (self.with_confirmation(confirm), child)
            },
            (AdoptionPhase::Try, SocketEvent::Tried(tried)) => (
                match tried {
                    Ok(_) => self.at(AdoptionPhase::Adopted),
                    Err(error) => if error == AppSocketError::SocketNotReady {
                        self.at(AdoptionPhase::Clock)
                    } else {
                        self.at(AdoptionPhase::Failed(AppServerTopologyError::Socket(error)))
                    },
                },
                child,
            ),
            (AdoptionPhase::Clock, SocketEvent::Clock(now)) => (
                if now.reached(self.deadline) {
                    self.at(
                        AdoptionPhase::Failed(
                            AppServerTopologyError::Socket(AppSocketError::AdoptionTimeout),
                        ),
                    )
                } else {
                    self.at(AdoptionPhase::Pause)
                },
                child,
            ),
            (AdoptionPhase::Pause, SocketEvent::Paused) => self.round(child),
            _ => (self, child),
        }
    }

    pub open spec fn spec_action(self) -> Option<SocketAction> {
        match self.phase {
            AdoptionPhase::Confirm(confirm) => socket_step(confirm.spec_action()),
            AdoptionPhase::Try => Some(SocketAction::Try),
            AdoptionPhase::Clock => Some(SocketAction::ReadClock),
            AdoptionPhase::Pause => Some(SocketAction::Pause { deadline: self.deadline }),
            AdoptionPhase::Adopted => None,
            AdoptionPhase::Failed(_) => None,
        }
    }

    fn take_confirmation(&mut self, confirm: ConfirmRunning)
        ensures
            *final(self) == old(self).with_confirmation(confirm),
    {
        self.phase = match confirm.phase {
            ConfirmPhase::Running => AdoptionPhase::Try,
            ConfirmPhase::Failed(error) => AdoptionPhase::Failed(
                AppServerTopologyError::Process(error),
            ),
            _ => AdoptionPhase::Confirm(confirm),
        };
    }

    fn begin_round(&mut self, child: &mut ChildState)
        ensures
            (*final(self), *final(child)) == old(self).round(*old(child)),
    {
        let confirm = ConfirmRunning::begin(child, self.deadline);
        self.take_confirmation(confirm);
    }

    /// Begins an adoption. The reservation must be the one that the launch plan
    /// named, bound to this child, and the isolation proof must be about this
    /// child. `bound` is looked at only where the paths agree.
    pub fn begin<H, L, D, I>(
        child: &mut AppServerChild<H, L, D>,
        reservation_path: &Vec<u8>,
        bound: Result<(), AppSocketError>,
        isolation: &VerifiedAppDescriptorIsolation<I>,
        deadline: Moment,
    ) -> (adoption: Self)
        ensures
            match adoption_refusal(*old(child), reservation_path@, bound, *isolation) {
                Some(error) => adoption == (SocketAdoption {
                    deadline,
                    phase: AdoptionPhase::Failed(error),
                }) && *final(child) == *old(child),
                None => {
                    let (begun, state) = Self::start(old(child).child.state, deadline);
                    &&& adoption == begun
                    &&& *final(child) == (AppServerChild {
                        child: ManagedGroupChild { state, ..old(child).child },
                        ..*old(child)
                    })
                },
            },
    {
        if !same_path(reservation_path, &child.expected_socket_path) {
            return SocketAdoption {
                deadline,
                phase: AdoptionPhase::Failed(AppServerTopologyError::CrossSessionSocket),
            };
        }
        if let Err(error) = bound {
            return SocketAdoption {
                deadline,
                phase: AdoptionPhase::Failed(AppServerTopologyError::Socket(error)),
            };
        }
        if !isolation.containment.same(child.child.state.containment()) {
            return SocketAdoption {
                deadline,
                phase: AdoptionPhase::Failed(
                    AppServerTopologyError::DescriptorIsolation(
                        ProcessGroupDescriptorScanError::ProcessChanged,
                    ),
                ),
            };
        }
        let mut adoption = SocketAdoption { deadline, phase: AdoptionPhase::Try };
        adoption.begin_round(&mut child.child.state);
        adoption
    }

    /// What is to be done next; `None` once the adoption is decided.
    pub fn action(&self) -> (action: Option<SocketAction>)
        ensures
            action == self.spec_action(),
    {
        match self.phase {
            AdoptionPhase::Confirm(confirm) => child_socket_step(confirm.action()),
            AdoptionPhase::Try => Some(SocketAction::Try),
            AdoptionPhase::Clock => Some(SocketAction::ReadClock),
            AdoptionPhase::Pause => Some(SocketAction::Pause { deadline: self.deadline }),
            AdoptionPhase::Adopted => None,
            AdoptionPhase::Failed(_) => None,
        }
    }
}

/// Takes one event into an adoption.
pub fn adopt_socket_inner(adoption: &mut SocketAdoption, child: &mut ChildState, event: SocketEvent)
    ensures
        (*final(adoption), *final(child)) == old(adoption).after(*old(child), event),
{
    match (adoption.phase, event) {
        (AdoptionPhase::Confirm(confirm), SocketEvent::Child(event)) => {
            let mut confirm = confirm;
            confirm_running_after_readiness(&mut confirm, child, event);
            adoption.take_confirmation(confirm);
        },
        (AdoptionPhase::Try, SocketEvent::Tried(tried)) => {
            adoption.phase = match tried {
                Ok(()) => AdoptionPhase::Adopted,
                Err(AppSocketError::SocketNotReady) => AdoptionPhase::Clock,
                Err(error) => AdoptionPhase::Failed(AppServerTopologyError::Socket(error)),
            };
        },
        (AdoptionPhase::Clock, SocketEvent::Clock(now)) => {
            adoption.phase = if now.has_reached(adoption.deadline) {
                AdoptionPhase::Failed(
                    AppServerTopologyError::Socket(AppSocketError::AdoptionTimeout),
                )
            } else {
                AdoptionPhase::Pause
            };
        },
        (AdoptionPhase::Pause, SocketEvent::Paused) => {
            adoption.begin_round(child);
        },
        _ => {},
    }
}

/// The socket side of a failed adoption.
pub enum AppServerSocketAuthority<Rs, So> {
    Reservation(Rs),
    Owned(So),
}

/// A failed adoption, which keeps the child and the socket.
#[must_use]
pub struct AppServerSocketAdoptionFailure<H, L, D, Rs, So> {
    pub child: AppServerChild<H, L, D>,
    pub socket: AppServerSocketAuthority<Rs, So>,
    pub error: AppServerTopologyError,
}

impl<H, L, D, Rs, So> AppServerSocketAdoptionFailure<H, L, D, Rs, So> {
    pub fn error(&self) -> (error: AppServerTopologyError)
        ensures
            error == self.error,
    {
        self.error
    }
}

/// An adopted socket with what was read of it afterwards.
pub struct AdoptedSocket<So> {
    pub socket: So,
    pub visible_path: Vec<u8>,
    pub revalidated: Result<(), AppSocketError>,
}

/// The running App Server with the socket that it bound.
#[must_use]
pub struct AppServerSession<H, L, D, So, I> {
    pub child: AppServerChild<H, L, D>,
    pub socket: So,
    pub monitor: MonitorSessionCapability<L, D>,
    pub descriptor_isolation: VerifiedAppDescriptorIsolation<I>,
}

/// Why an adopted socket is refused after all.
pub open spec fn adopted_refusal<H, L, D, So>(
    child: AppServerChild<H, L, D>,
    adopted: AdoptedSocket<So>,
) -> Option<AppServerTopologyError> {
    if components(adopted.visible_path@) != components(child.expected_socket_path@) {
        Some(AppServerTopologyError::CrossSessionSocket)
    } else if adopted.revalidated is Err {
        Some(AppServerTopologyError::Socket(adopted.revalidated->Err_0))
    } else if child.monitor_seed is None {
        Some(AppServerTopologyError::Provider(ProviderLaunchError::AuthorityConsumed))
    } else {
        None
    }
}

/// What is told of a descriptor isolation that failed before the socket was
/// adopted: the first thing that does not fit.
pub open spec fn isolation_failure(
    expected: Seq<u8>,
    reserved: Seq<u8>,
    bound: Result<(), AppSocketError>,
    error: ProcessGroupDescriptorScanError,
) -> AppServerTopologyError {
    if components(reserved) != components(expected) {
        AppServerTopologyError::CrossSessionSocket
    } else {
        match bound {
            Err(error) => AppServerTopologyError::Socket(error),
            Ok(_) => AppServerTopologyError::DescriptorIsolation(error),
        }
    }
}

impl<H, L, D> AppServerChild<H, L, D> {
    /// Keeps child and reservation of an adoption that failed.
    pub fn retain_adoption_failure<Rs, So>(self, reservation: Rs, adoption: SocketAdoption) -> (failure:
        AppServerSocketAdoptionFailure<H, L, D, Rs, So>)
        requires
            adoption.phase is Failed,
        ensures
            failure == (AppServerSocketAdoptionFailure::<H, L, D, Rs, So> {
                child: self,
                socket: AppServerSocketAuthority::Reservation(reservation),
                error: adoption.phase->Failed_0,
            }),
    {
        let error = match adoption.phase {
            AdoptionPhase::Failed(error) => error,
            _ => vstd::pervasive::unreached(),
        };
        AppServerSocketAdoptionFailure {
            child: self,
            socket: AppServerSocketAuthority::Reservation(reservation),
            error,
        }
    }

    /// Completes an adoption: the adopted socket must be visible where the
    /// launch plan said and still be the same, and the monitor's target, which
    /// leaves only here, must not have left before. The isolation proof is the
    /// one that the adoption was begun with.
    pub fn adopt_socket<Rs, So, I>(
        self,
        adoption: SocketAdoption,
        adopted: AdoptedSocket<So>,
        descriptor_isolation: VerifiedAppDescriptorIsolation<I>,
    ) -> (session: Result<
        AppServerSession<H, L, D, So, I>,
        AppServerSocketAdoptionFailure<H, L, D, Rs, So>,
    >)
        requires
            adoption.phase == AdoptionPhase::Adopted,
            descriptor_isolation.about(self),
        ensures
            match session {
                Ok(session) => {
                    &&& session.descriptor_isolation.about(session.child)
                    &&& adopted_refusal(self, adopted) is None
                    &&& session.child == (AppServerChild { monitor_seed: None, ..self })
                    &&& session.socket == adopted.socket
                    &&& session.monitor.home() == self.monitor_seed->0.home()
                    &&& session.monitor.thread() == self.monitor_seed->0.thread()
                    &&& session.monitor.branded() == self.monitor_seed->0.branded()
                    &&& session.monitor.held() == self.monitor_seed->0.held()
                    &&& session.descriptor_isolation == descriptor_isolation
                },
                Err(failure) => {
                    &&& adopted_refusal(self, adopted) == Some(failure.error)
                    &&& failure.child == self
                    &&& failure.socket == AppServerSocketAuthority::<Rs, So>::Owned(adopted.socket)
                },
            },
    {
        if !same_path(&adopted.visible_path, &self.expected_socket_path) {
            return Err(
                AppServerSocketAdoptionFailure {
                    child: self,
                    socket: AppServerSocketAuthority::Owned(adopted.socket),
                    error: AppServerTopologyError::CrossSessionSocket,
                },
            );
        }
        if let Err(error) = adopted.revalidated {
            return Err(
                AppServerSocketAdoptionFailure {
                    child: self,
                    socket: AppServerSocketAuthority::Owned(adopted.socket),
                    error: AppServerTopologyError::Socket(error),
                },
            );
        }
        let mut child = self;
        match child.monitor_seed.take() {
            Some(seed) => Ok(
                AppServerSession {
                    child,
                    socket: adopted.socket,
                    monitor: seed.into_capability(),
                    descriptor_isolation,
                },
            ),
            None => Err(
                AppServerSocketAdoptionFailure {
                    child,
                    socket: AppServerSocketAuthority::Owned(adopted.socket),
                    error: AppServerTopologyError::Provider(ProviderLaunchError::AuthorityConsumed),
                },
            ),
        }
    }

    /// Keeps a child whose descriptor isolation failed before its socket was
    /// adopted. The error names the first thing that does not fit.
    pub fn retain_descriptor_isolation_failure<Rs, So>(
        self,
        reservation: Rs,
        reservation_path: &Vec<u8>,
        bound: Result<(), AppSocketError>,
        error: ProcessGroupDescriptorScanError,
    ) -> (failure: AppServerSocketAdoptionFailure<H, L, D, Rs, So>)
        ensures
            failure == (AppServerSocketAdoptionFailure::<H, L, D, Rs, So> {
                child: self,
                socket: AppServerSocketAuthority::Reservation(reservation),
                error: isolation_failure(
                    self.expected_socket_path@,
                    reservation_path@,
                    bound,
                    error,
                ),
            }),
    {
        let topology_error = if !same_path(reservation_path, &self.expected_socket_path) {
            AppServerTopologyError::CrossSessionSocket
        } else if let Err(error) = bound {
            AppServerTopologyError::Socket(error)
        } else {
            AppServerTopologyError::DescriptorIsolation(error)
        };
        AppServerSocketAdoptionFailure {
            child: self,
            socket: AppServerSocketAuthority::Reservation(reservation),
            error: topology_error,
        }
    }
}

// ---------------------------------------------------------------------------
// Connecting the monitor.
// ---------------------------------------------------------------------------

#[derive(Clone, Copy, Debug, PartialEq, Eq, Structural)]
pub enum ConnectPhase {
    /// The first check of the child, or the one before a pause.
    Confirm { confirm: ConfirmRunning, first: bool },
    Try,
    Clock,
    Pause,
    Connected,
    Failed(AppServerTopologyError),
}

/// The wait for the App Server to accept the monitor.
#[derive(Clone, Copy, Debug, PartialEq, Eq, Structural)]
pub struct MonitorConnect {
    pub deadline: Moment,
    pub phase: ConnectPhase,
}

impl MonitorConnect {
    pub open spec fn at(self, phase: ConnectPhase) -> Self {
        MonitorConnect { phase, ..self }
    }

    pub open spec fn with_confirmation(self, confirm: ConfirmRunning, first: bool) -> Self {
        match confirm.phase {
            ConfirmPhase::Running => self.at(
                if first {
                    ConnectPhase::Try
                } else {
                    ConnectPhase::Pause
                },
            ),
            ConfirmPhase::Failed(error) => self.at(
                ConnectPhase::Failed(AppServerTopologyError::Process(error)),
            ),
            _ => self.at(ConnectPhase::Confirm { confirm, first }),
        }
    }

    pub open spec fn confirming(self, child: ChildState, first: bool) -> (Self, ChildState) {
        let (confirm, child) = ConfirmRunning::start(child, self.deadline);
        (self.with_confirmation(confirm, first), child)
    }

    pub open spec fn start(child: ChildState, deadline: Moment) -> (Self, ChildState) {
        MonitorConnect { deadline, phase: ConnectPhase::Try }.confirming(child, true)
    }

    pub open spec fn after(self, child: ChildState, event: SocketEvent) -> (Self, ChildState) {
        match (self.phase, event) {
            (ConnectPhase::Confirm { confirm, first }, SocketEvent::Child(event)) => {
                let (confirm, child) = confirm.after(child, event);
                (self.with_confirmation(confirm, first), child)
            },
            (ConnectPhase::Try, SocketEvent::Tried(tried)) => (
                match tried {
                    Ok(_) => self.at(ConnectPhase::Connected),
                    Err(error) => if error == AppSocketError::SocketNotReady {
                        self.at(ConnectPhase::Clock)
                    } else {
                        self.at(ConnectPhase::Failed(AppServerTopologyError::Socket(error)))
                    },
                },
                child,
            ),
            (ConnectPhase::Clock, SocketEvent::Clock(now)) => if now.reached(self.deadline) {
                (
                    self.at(
                        ConnectPhase::Failed(
                            AppServerTopologyError::Socket(AppSocketError::SocketNotReady),
                        ),
                    ),
                    child,
                )
            } else {
                self.confirming(child, false)
            },
            (ConnectPhase::Pause, SocketEvent::Paused) => (self.at(ConnectPhase::Try), child),
            _ => (self, child),
        }
    }

    pub open spec fn spec_action(self) -> Option<SocketAction> {
        match self.phase {
            ConnectPhase::Confirm { confirm, .. } => socket_step(confirm.spec_action()),
            ConnectPhase::Try => Some(SocketAction::Try),
            ConnectPhase::Clock => Some(SocketAction::ReadClock),
            ConnectPhase::Pause => Some(SocketAction::Pause { deadline: self.deadline }),
            ConnectPhase::Connected => None,
            ConnectPhase::Failed(_) => None,
        }
    }

    fn take_confirmation(&mut self, confirm: ConfirmRunning, first: bool)
        ensures
            *final(self) == old(self).with_confirmation(confirm, first),
    {
        self.phase = match confirm.phase {
            ConfirmPhase::Running => if first {
                ConnectPhase::Try
            } else {
                ConnectPhase::Pause
            },
            ConfirmPhase::Failed(error) => ConnectPhase::Failed(
                AppServerTopologyError::Process(error),
            ),
            _ => ConnectPhase::Confirm { confirm, first },
        };
    }

    pub fn begin(child: &mut ChildState, deadline: Moment) -> (connect: Self)
        ensures
            (connect, *final(child)) == Self::start(*old(child), deadline),
    {
        let mut connect = MonitorConnect { deadline, phase: ConnectPhase::Try };
        let confirm = ConfirmRunning::begin(child, deadline);
        connect.take_confirmation(confirm, true);
        connect
    }

    /// What is to be done next; `None` once the connection is decided.
    pub fn action(&self) -> (action: Option<SocketAction>)
        ensures
            action == self.spec_action(),
    {
        match self.phase {
            ConnectPhase::Confirm { confirm, .. } => child_socket_step(confirm.action()),
            ConnectPhase::Try => Some(SocketAction::Try),
            ConnectPhase::Clock => Some(SocketAction::ReadClock),
            ConnectPhase::Pause => Some(SocketAction::Pause { deadline: self.deadline }),
            ConnectPhase::Connected => None,
            ConnectPhase::Failed(_) => None,
        }
    }
}

/// Takes one event into a connection.
pub fn connect_monitor(connect: &mut MonitorConnect, child: &mut ChildState, event: SocketEvent)
    ensures
        (*final(connect), *final(child)) == old(connect).after(*old(child), event),
{
    match (connect.phase, event) {
        (ConnectPhase::Confirm { confirm, first }, SocketEvent::Child(event)) => {
            let mut confirm = confirm;
            confirm_running_after_readiness(&mut confirm, child, event);
            connect.take_confirmation(confirm, first);
        },
        (ConnectPhase::Try, SocketEvent::Tried(tried)) => {
            connect.phase = match tried {
                Ok(()) => ConnectPhase::Connected,
                Err(AppSocketError::SocketNotReady) => ConnectPhase::Clock,
                Err(error) => ConnectPhase::Failed(AppServerTopologyError::Socket(error)),
            };
        },
        (ConnectPhase::Clock, SocketEvent::Clock(now)) => {
            if now.has_reached(connect.deadline) {
                connect.phase = ConnectPhase::Failed(
                    AppServerTopologyError::Socket(AppSocketError::SocketNotReady),
                );
            } else {
                let confirm = ConfirmRunning::begin(child, connect.deadline);
                connect.take_confirmation(confirm, false);
            }
        },
        (ConnectPhase::Pause, SocketEvent::Paused) => {
            connect.phase = ConnectPhase::Try;
        },
        _ => {},
    }
}

/// A failed connection, which keeps the whole session.
#[must_use]
pub struct MonitorConnectFailure<H, L, D, So, I> {
    pub session: AppServerSession<H, L, D, So, I>,
    pub error: AppServerTopologyError,
}

impl<H, L, D, So, I> MonitorConnectFailure<H, L, D, So, I> {
    pub fn into_session(self) -> (session: AppServerSession<H, L, D, So, I>)
        ensures
            session == self.session,
    {
        self.session
    }
}

/// A session whose monitor is connected. The transport leaves it once.
#[must_use]
pub struct ConnectedMonitorSession<H, L, D, So, I, St> {
    pub stream: Option<St>,
    pub monitor: Option<MonitorSessionCapability<L, D>>,
    pub child: AppServerChild<H, L, D>,
    pub socket: So,
    pub descriptor_isolation: VerifiedAppDescriptorIsolation<I>,
}

impl<H, L, D, So, I> AppServerSession<H, L, D, So, I> {
    /// Takes the stream of a connection that came about.
    pub fn connected<St>(self, connect: MonitorConnect, stream: St) -> (session:
        ConnectedMonitorSession<H, L, D, So, I, St>)
        requires
            connect.phase == ConnectPhase::Connected,
        ensures
            session == (ConnectedMonitorSession {
                stream: Some(stream),
                monitor: Some(self.monitor),
                child: self.child,
                socket: self.socket,
                descriptor_isolation: self.descriptor_isolation,
            }),
    {
        ConnectedMonitorSession {
            stream: Some(stream),
            monitor: Some(self.monitor),
            child: self.child,
            socket: self.socket,
            descriptor_isolation: self.descriptor_isolation,
        }
    }

    /// Keeps the session of a connection that failed.
    pub fn not_connected(self, connect: MonitorConnect) -> (failure: MonitorConnectFailure<
        H,
        L,
        D,
        So,
        I,
    >)
        requires
            connect.phase is Failed,
        ensures
            failure == (MonitorConnectFailure { session: self, error: connect.phase->Failed_0 }),
    {
        match connect.phase {
            ConnectPhase::Failed(error) => MonitorConnectFailure { session: self, error },
            _ => vstd::pervasive::unreached(),
        }
    }

    /// Lets go of the monitor's target, and with it of any way back to a
    /// connection.
    pub fn into_stop(self) -> (parts: (AppServerChild<H, L, D>, So))
        ensures
            parts == (self.child, self.socket),
    {
        (self.child, self.socket)
    }
}

pub open spec fn app_liveness(confirmed: Result<(), ProcessError>) -> Result<
    (),
    ProviderLaunchError,
> {
    match confirmed {
        Ok(_) => Ok(()),
        Err(_) => Err(ProviderLaunchError::SessionChanged),
    }
}

/// What a check of the App Server means for its connected monitor.
pub fn ensure_app_live(confirmed: Result<(), ProcessError>) -> (live: Result<
    (),
    ProviderLaunchError,
>)
    ensures
        live == app_liveness(confirmed),
{
    match confirmed {
        Ok(()) => Ok(()),
        Err(_) => Err(ProviderLaunchError::SessionChanged),
    }
}

impl<H, L, D, So, I, St> ConnectedMonitorSession<H, L, D, So, I, St> {
    /// The session after its transport was asked for, and the transport where
    /// all of it was there to take.
    pub open spec fn taking_transport(self) -> (
        Self,
        Option<(St, MonitorSessionCapability<L, D>)>,
    ) {
        match (self.stream, self.monitor) {
            (Some(stream), Some(monitor)) => (
                ConnectedMonitorSession { stream: None, monitor: None, ..self },
                Some((stream, monitor)),
            ),
            _ => (ConnectedMonitorSession { stream: None, ..self }, None),
        }
    }

    /// Takes the transport out. A second taking is refused.
    pub fn take_transport(&mut self) -> (transport: Result<
        (St, MonitorSessionCapability<L, D>),
        ProviderLaunchError,
    >)
        ensures
            (
                *final(self),
                match transport {
                    Ok(taken) => Some(taken),
                    Err(_) => None,
                },
            ) == old(self).taking_transport(),
            match transport {
                Ok((stream, monitor)) => {
                    &&& old(self).stream == Some(stream)
                    &&& old(self).monitor == Some(monitor)
                    &&& *final(self) == (ConnectedMonitorSession {
                        stream: None,
                        monitor: None,
                        ..*old(self)
                    })
                },
                Err(error) => {
                    &&& old(self).stream is None || old(self).monitor is None
                    &&& error == ProviderLaunchError::AuthorityConsumed
                    &&& *final(self) == (ConnectedMonitorSession { stream: None, ..*old(self) })
                },
            },
    {
        let stream = match self.stream.take() {
            Some(stream) => stream,
            None => {
                return Err(ProviderLaunchError::AuthorityConsumed);
            },
        };
        match self.monitor.take() {
            Some(monitor) => Ok((stream, monitor)),
            None => Err(ProviderLaunchError::AuthorityConsumed),
        }
    }

    /// Closes the transport and lets go of the monitor's target, in that order.
    pub fn into_stop(self) -> (parts: (
        Option<St>,
        Option<MonitorSessionCapability<L, D>>,
        AppServerChild<H, L, D>,
        So,
    ))
        ensures
            parts == (self.stream, self.monitor, self.child, self.socket),
    {
        (self.stream, self.monitor, self.child, self.socket)
    }
}

// ---------------------------------------------------------------------------
// Laws.
// ---------------------------------------------------------------------------

/// A socket is tried only right after the child was seen running in the same
/// round: an adoption reaches a try in no other way than through a passed check.
pub proof fn law_adoption_tries_only_a_running_child(
    adoption: SocketAdoption,
    child: ChildState,
    event: SocketEvent,
)
    requires
        adoption.phase != AdoptionPhase::Try,
        adoption.after(child, event).0.phase == AdoptionPhase::Try,
    ensures
        adoption.phase matches AdoptionPhase::Confirm(confirm) && event matches SocketEvent::Child(
            event,
        ) && confirm.after(child, event).0.phase == ConfirmPhase::Running,
{
}

/// An adoption that does not come about ends: a socket that is not ready at the
/// deadline is a timeout, and every other socket error is final.
pub proof fn law_adoption_ends_at_the_deadline(
    adoption: SocketAdoption,
    child: ChildState,
    now: Moment,
)
    requires
        adoption.phase == AdoptionPhase::Clock,
        now.reached(adoption.deadline),
    ensures
        adoption.after(child, SocketEvent::Clock(now)).0.spec_action() is None,
        adoption.after(child, SocketEvent::Clock(now)).0.phase == AdoptionPhase::Failed(
            AppServerTopologyError::Socket(AppSocketError::AdoptionTimeout),
        ),
{
}

/// An adoption never changes whom it is about: role, numbers, identity and
/// policy of the child stay, and so an isolation proof that fitted at the
/// beginning fits at the end.
pub proof fn law_adoption_keeps_the_child<H, L, D, I>(
    adoption: SocketAdoption,
    child: AppServerChild<H, L, D>,
    isolation: VerifiedAppDescriptorIsolation<I>,
    event: SocketEvent,
)
    ensures
        ({
            let state = child.child.state;
            let (_, next) = adoption.after(state, event);
            let after = AppServerChild {
                child: ManagedGroupChild { state: next, ..child.child },
                ..child
            };
            &&& next.authority == state.authority
            &&& next.containment_policy == state.containment_policy
            &&& isolation.about(after) == isolation.about(child)
        }),
{
}

/// Between two looks for a socket there are at most five milliseconds. A pause
/// never goes past the deadline, and before the deadline there always is one.
pub proof fn law_socket_pause_is_short(now: Moment, deadline: Moment)
    ensures
        0 <= socket_pause(now, deadline) <= 5_000_000,
        now.nanos < deadline.nanos ==> 0 < socket_pause(now, deadline) && now.nanos + socket_pause(
            now,
            deadline,
        ) <= deadline.nanos,
        now.nanos + 5_000_000 <= deadline.nanos ==> socket_pause(now, deadline) == 5_000_000,
        now.nanos < deadline.nanos < now.nanos + 5_000_000 ==> now.nanos + socket_pause(
            now,
            deadline,
        ) == deadline.nanos,
        now.nanos >= deadline.nanos ==> socket_pause(now, deadline) == 0,
{
}

/// An adoption is refused exactly if the reservation is for another path, is not
/// bound to this child, or the isolation proof is about another child, and is
/// told in this order.
pub proof fn law_adoption_is_refused_in_order<H, L, D, I>(
    child: AppServerChild<H, L, D>,
    reserved: Seq<u8>,
    bound: Result<(), AppSocketError>,
    isolation: VerifiedAppDescriptorIsolation<I>,
)
    ensures
        ({
            let refusal = adoption_refusal(child, reserved, bound, isolation);
            let same = components(reserved) == components(child.expected_socket_path@);
            let state = child.child.state;
            let scanned = isolation.identity() == (state.role, state.pid, state.pgid);
            &&& refusal is None <==> same && bound is Ok && scanned
            &&& !same ==> refusal == Some(AppServerTopologyError::CrossSessionSocket)
            &&& same ==> (bound matches Err(error) ==> refusal == Some(
                AppServerTopologyError::Socket(error),
            ))
            &&& same && bound is Ok && !scanned ==> refusal == Some(
                AppServerTopologyError::DescriptorIsolation(
                    ProcessGroupDescriptorScanError::ProcessChanged,
                ),
            )
        }),
{
}

/// A running App Server is looked at, and then its socket is tried. A socket
/// that is not ready is tried again after a pause, until the deadline, which is
/// an adoption timeout; any other failure ends the adoption as what it is.
pub proof fn law_adoption_goes_in_rounds(
    child: ChildState,
    deadline: Moment,
    now: Moment,
    error: AppSocketError,
)
    requires
        !child.observed_exit,
        child.disposition is None,
    ensures
        ({
            let a = SocketAdoption::start(child, deadline);
            let b = a.0.after(a.1, SocketEvent::Child(ChildEvent::Waited(Ok(None))));
            let blind = a.0.after(
                a.1,
                SocketEvent::Child(
                    ChildEvent::Waited(Err(crate::process::status::SystemError::Other)),
                ),
            );
            let adopted = b.0.after(b.1, SocketEvent::Tried(Ok(())));
            let failed = b.0.after(b.1, SocketEvent::Tried(Err(error)));
            let clocked = failed.0.after(failed.1, SocketEvent::Clock(now));
            &&& a.0.spec_action() == Some(SocketAction::Child(ChildAction::WaitExit))
            &&& a.1 == child
            &&& b.0.spec_action() == Some(SocketAction::Try)
            &&& b.1 == child
            &&& blind.0.phase == AdoptionPhase::Failed(
                AppServerTopologyError::Process(ProcessError::Wait { role: child.role }),
            )
            &&& adopted.0.phase == AdoptionPhase::Adopted && adopted.1 == child
            &&& error != AppSocketError::SocketNotReady ==> failed.0.phase
                == AdoptionPhase::Failed(AppServerTopologyError::Socket(error))
            &&& error == AppSocketError::SocketNotReady ==> {
                &&& failed.0.spec_action() == Some(SocketAction::ReadClock)
                &&& now.nanos >= deadline.nanos ==> clocked.0.phase == AdoptionPhase::Failed(
                    AppServerTopologyError::Socket(AppSocketError::AdoptionTimeout),
                )
                &&& now.nanos < deadline.nanos ==> {
                    &&& clocked.0.spec_action() == Some(SocketAction::Pause { deadline })
                    &&& clocked.0.after(clocked.1, SocketEvent::Paused) == a
                }
            }
        }),
{
}

/// An adopted socket is refused exactly if it is visible elsewhere than the plan
/// said, is no longer the same, or the monitor's target has left before, and is
/// told in this order.
pub proof fn law_adopted_socket_is_refused_in_order<H, L, D, So>(
    child: AppServerChild<H, L, D>,
    adopted: AdoptedSocket<So>,
)
    ensures
        ({
            let refusal = adopted_refusal(child, adopted);
            let same = components(adopted.visible_path@) == components(
                child.expected_socket_path@,
            );
            &&& refusal is None <==> same && adopted.revalidated is Ok
                && child.monitor_seed is Some
            &&& !same ==> refusal == Some(AppServerTopologyError::CrossSessionSocket)
            &&& same ==> (adopted.revalidated matches Err(error) ==> refusal == Some(
                AppServerTopologyError::Socket(error),
            ))
            &&& same && adopted.revalidated is Ok && child.monitor_seed is None ==> refusal == Some(
                AppServerTopologyError::Provider(ProviderLaunchError::AuthorityConsumed),
            )
        }),
{
}

/// A failed isolation is told as such only where the reservation is the one that
/// was planned and is bound to the child.
pub proof fn law_failed_isolation_is_told_last(
    expected: Seq<u8>,
    reserved: Seq<u8>,
    bound: Result<(), AppSocketError>,
    error: ProcessGroupDescriptorScanError,
)
    ensures
        ({
            let told = isolation_failure(expected, reserved, bound, error);
            let same = components(reserved) == components(expected);
            &&& !same ==> told == AppServerTopologyError::CrossSessionSocket
            &&& same ==> (bound matches Err(cause) ==> told == AppServerTopologyError::Socket(
                cause,
            ))
            &&& same && bound is Ok ==> told == AppServerTopologyError::DescriptorIsolation(error)
        }),
{
}

/// A running App Server is looked at, and then the monitor tries to connect. A
/// socket that is not ready is tried again after another look and a pause, and
/// at the deadline is told as not ready; any other failure ends the connection
/// as what it is.
pub proof fn law_connection_goes_in_rounds(
    child: ChildState,
    deadline: Moment,
    now: Moment,
    error: AppSocketError,
)
    requires
        !child.observed_exit,
        child.disposition is None,
    ensures
        ({
            let live = SocketEvent::Child(ChildEvent::Waited(Ok(None)));
            let a = MonitorConnect::start(child, deadline);
            let b = a.0.after(a.1, live);
            let connected = b.0.after(b.1, SocketEvent::Tried(Ok(())));
            let failed = b.0.after(b.1, SocketEvent::Tried(Err(error)));
            let clocked = failed.0.after(failed.1, SocketEvent::Clock(now));
            let looked = clocked.0.after(clocked.1, live);
            &&& a.0.spec_action() == Some(SocketAction::Child(ChildAction::WaitExit))
            &&& a.1 == child
            &&& b.0.spec_action() == Some(SocketAction::Try)
            &&& b.1 == child
            &&& connected.0.phase == ConnectPhase::Connected && connected.1 == child
            &&& error != AppSocketError::SocketNotReady ==> failed.0.phase == ConnectPhase::Failed(
                AppServerTopologyError::Socket(error),
            )
            &&& error == AppSocketError::SocketNotReady ==> {
                &&& failed.0.spec_action() == Some(SocketAction::ReadClock)
                &&& now.nanos >= deadline.nanos ==> clocked.0.phase == ConnectPhase::Failed(
                    AppServerTopologyError::Socket(AppSocketError::SocketNotReady),
                )
                &&& now.nanos < deadline.nanos ==> {
                    &&& clocked.0.spec_action() == Some(SocketAction::Child(ChildAction::WaitExit))
                    &&& looked.0.spec_action() == Some(SocketAction::Pause { deadline })
                    &&& looked.0.after(looked.1, SocketEvent::Paused) == b
                }
            }
        }),
{
}

/// A monitor is connected only by a socket that was tried and took it.
pub proof fn law_connection_needs_a_try(
    connect: MonitorConnect,
    child: ChildState,
    event: SocketEvent,
)
    requires
        connect.phase != ConnectPhase::Connected,
        connect.after(child, event).0.phase == ConnectPhase::Connected,
    ensures
        connect.phase == ConnectPhase::Try,
        event matches SocketEvent::Tried(tried) && tried is Ok,
{
}

/// The transport leaves a session whole and once: with its stream and its
/// monitor, leaving child and socket as they were.
pub proof fn law_transport_leaves_once<H, L, D, So, I, St>(
    session: ConnectedMonitorSession<H, L, D, So, I, St>,
)
    ensures
        ({
            let (after, taken) = session.taking_transport();
            &&& taken is Some <==> session.stream is Some && session.monitor is Some
            &&& taken matches Some((stream, monitor)) ==> session.stream == Some(stream)
                && session.monitor == Some(monitor)
            &&& after.taking_transport().1 is None
            &&& after.stream is None
            &&& after.child == session.child
            &&& after.socket == session.socket
            &&& after.descriptor_isolation == session.descriptor_isolation
        }),
{
}

/// A monitor's App Server is live exactly if its check passed; otherwise the
/// session has changed.
pub proof fn law_monitor_needs_a_live_app_server(confirmed: Result<(), ProcessError>)
    ensures
        app_liveness(confirmed) is Ok <==> confirmed is Ok,
        app_liveness(confirmed) matches Err(error) ==> error
            == ProviderLaunchError::SessionChanged,
{
}

} // verus!
