//! The launch of the App Server, and what a failed one keeps.
//!
//! A failure before the App Server existed can be resolved and its socket and
//! runtime cleaned up. Once a process existed, only its own graceful drain
//! could release it: such a failure stays owned, unsignalled, with everything
//! that came with it.
use vstd::prelude::*;

use crate::clock::Moment;
use crate::process::child::{GroupContainmentPolicy, ManagedGroupChild};
use crate::process::error::ProcessError;
use crate::process::observe::ChildEvent;
use crate::process::publish::{provider_spawn, spawn, SpawnReadback, SpawnStep};
use crate::process::spawn::{
    cleaned_failure, cleanup_sound, law_cleanup_stays_sound, law_cleanup_waits_only_after_a_sweep,
    SpawnCleanup, SpawnFailure, SpawnFailureState,
};
use crate::protocol::message::ChildRole;
use crate::provider::directory::SessionReading;
use crate::provider::error::{
    earlier, keep_earlier, AppServerLaunchError, AppServerTeardownError, AppSocketError,
    PinnedStageError, ProviderLaunchError,
};
use crate::provider::lifetime::SessionRuntimeGuard;
use crate::provider::path::components;
use crate::provider::pinned::{
    launch_verdict, AppServerCommand, MonitorSessionSeed, PinnedSessionBuild,
};

verus! {

/// A running App Server with the guard of its session.
#[must_use]
pub struct AppServerChild<H, L, D> {
    pub child: ManagedGroupChild<H>,
    pub runtime_guard: SessionRuntimeGuard<L>,
    pub expected_socket_path: Vec<u8>,
    pub monitor_seed: Option<MonitorSessionSeed<L, D>>,
}

pub enum AppServerLaunchFailureKind<H> {
    Provider(ProviderLaunchError),
    Spawn(SpawnFailure<H>),
    /// The reservation belongs to another App Server already. Outwardly an
    /// invalid argument, but it never authorizes any cleanup.
    BoundReservation,
}

/// A failed launch, which may own a live child.
#[must_use]
pub struct AppServerLaunchFailure<H, L> {
    pub failure: AppServerLaunchFailureKind<H>,
    pub lifetime: SessionRuntimeGuard<L>,
}

/// Proof that a failed launch left no child behind.
#[must_use]
pub struct AppServerLaunchResolution<L> {
    lifetime: SessionRuntimeGuard<L>,
}

impl<L> AppServerLaunchResolution<L> {
    pub closed spec fn guard(&self) -> SessionRuntimeGuard<L> {
        self.lifetime
    }

    pub fn terminal_reportable(&self) -> (reportable: bool)
        ensures
            reportable,
    {
        true
    }

    fn into_guard(self) -> (guard: SessionRuntimeGuard<L>)
        ensures
            guard == self.guard(),
    {
        self.lifetime
    }
}

impl<H, L> AppServerLaunchFailure<H, L> {
    pub open spec fn spec_error(self) -> AppServerLaunchError {
        match self.failure {
            AppServerLaunchFailureKind::Provider(error) => AppServerLaunchError::Provider(error),
            AppServerLaunchFailureKind::Spawn(failure) => AppServerLaunchError::Spawn(
                failure.error,
            ),
            AppServerLaunchFailureKind::BoundReservation => AppServerLaunchError::Provider(
                ProviderLaunchError::InvalidArgument,
            ),
        }
    }

    /// No App Server process ever existed.
    pub open spec fn before_any_child(self) -> bool {
        match self.failure {
            AppServerLaunchFailureKind::Provider(_) => true,
            AppServerLaunchFailureKind::Spawn(failure) => !failure.started,
            AppServerLaunchFailureKind::BoundReservation => false,
        }
    }

    pub fn error(&self) -> (error: AppServerLaunchError)
        ensures
            error == self.spec_error(),
    {
        match &self.failure {
            AppServerLaunchFailureKind::Provider(error) => AppServerLaunchError::Provider(*error),
            AppServerLaunchFailureKind::Spawn(failure) => {
                AppServerLaunchError::Spawn(failure.error())
            },
            AppServerLaunchFailureKind::BoundReservation => {
                AppServerLaunchError::Provider(ProviderLaunchError::InvalidArgument)
            },
        }
    }

    pub fn has_spawn_failure(&self) -> (has: bool)
        ensures
            has == (self.failure is Spawn),
    {
        matches!(self.failure, AppServerLaunchFailureKind::Spawn(_))
    }

    /// Resolves a failure from before any child existed; every other one comes
    /// back untouched.
    pub fn resolve(self) -> (resolved: Result<AppServerLaunchResolution<L>, Self>)
        ensures
            match resolved {
                Ok(resolution) => self.before_any_child() && resolution.guard() == self.lifetime,
                Err(failure) => !self.before_any_child() && failure == self,
            },
    {
        let resolvable = match &self.failure {
            AppServerLaunchFailureKind::Provider(_) => true,
            AppServerLaunchFailureKind::Spawn(failure) => {
                failure.state() == SpawnFailureState::NotStarted
            },
            AppServerLaunchFailureKind::BoundReservation => false,
        };
        if resolvable {
            Ok(AppServerLaunchResolution { lifetime: self.lifetime })
        } else {
            Err(self)
        }
    }
}

/// A launch whose command is being spawned.
pub struct AppServerLaunch<L, D> {
    pub runtime_guard: SessionRuntimeGuard<L>,
    pub expected_socket_path: Vec<u8>,
    pub monitor_seed: MonitorSessionSeed<L, D>,
}

/// Consumes the only plan of the App Server: after the final check its command
/// is to be spawned at once. The build must be the one that minted the plan.
pub fn launch<C, D, E, L, H>(
    command: AppServerCommand<C, L, D>,
    build: &PinnedSessionBuild<E, L, D>,
    reading: &SessionReading,
    executable: Result<(), PinnedStageError>,
    deadline: Moment,
) -> (begun: Result<(C, AppServerLaunch<L, D>), AppServerLaunchFailure<H, L>>)
    requires
        command.seed().branded() == build.branded(),
    ensures
        match begun {
            Ok((spawnable, launch)) => {
                &&& launch_verdict(*build, *reading, executable, deadline) is Ok
                &&& spawnable == command.spec_command()
                &&& launch.runtime_guard.held() == build.held_lifetime()
                &&& launch.expected_socket_path@ == command.socket_path()
                &&& launch.monitor_seed == command.seed()
            },
            Err(failure) => {
                &&& launch_verdict(*build, *reading, executable, deadline) matches Err(error)
                &&& failure.failure == AppServerLaunchFailureKind::<H>::Provider(error)
                &&& failure.lifetime.held() == build.held_lifetime()
            },
        },
{
    if let Err(error) = build.revalidate_for_launch(reading, executable, deadline) {
        return Err(
            AppServerLaunchFailure {
                failure: AppServerLaunchFailureKind::Provider(error),
                lifetime: build.retain_runtime(),
            },
        );
    }
    let runtime_guard = build.retain_runtime();
    let (spawnable, expected_socket_path, monitor_seed) = command.into_parts();
    Ok((spawnable, AppServerLaunch { runtime_guard, expected_socket_path, monitor_seed }))
}

/// What a launch may take as the outcome of its spawn: a strict App Server
/// without a readiness channel, or the failure of a strict spawn.
pub open spec fn spawned_for_launch<H>(
    spawned: Result<ManagedGroupChild<H>, SpawnFailure<H>>,
) -> bool {
    match spawned {
        Ok(child) => {
            &&& child.state.role == ChildRole::AppServer
            &&& child.state.containment_policy == GroupContainmentPolicy::ProductionStrict
            &&& !child.state.readiness_open
        },
        Err(failure) => failure.child matches Some(owned) ==> owned.containment_policy
            == GroupContainmentPolicy::ProductionStrict,
    }
}

/// What a launch comes to with the outcome of its spawn.
pub open spec fn launched_as<H, L, D>(
    launch: AppServerLaunch<L, D>,
    spawned: Result<ManagedGroupChild<H>, SpawnFailure<H>>,
) -> Result<AppServerChild<H, L, D>, AppServerLaunchFailure<H, L>> {
    match spawned {
        Ok(child) => Ok(
            AppServerChild {
                child,
                runtime_guard: launch.runtime_guard,
                expected_socket_path: launch.expected_socket_path,
                monitor_seed: Some(launch.monitor_seed),
            },
        ),
        Err(failure) => Err(
            AppServerLaunchFailure {
                failure: AppServerLaunchFailureKind::Spawn(failure),
                lifetime: launch.runtime_guard,
            },
        ),
    }
}

/// What the spawn of an App Server comes to: it is strict, and has no readiness
/// channel.
pub open spec fn app_server_spawn<H>(
    spawned: Option<(H, SpawnReadback)>,
    authorities: int,
    now: Moment,
    step: SpawnStep<H>,
    authorities_after: int,
) -> bool {
    provider_spawn(
        ChildRole::AppServer,
        false,
        spawned,
        authorities,
        now,
        step,
        authorities_after,
    )
}

impl<L, D> AppServerLaunch<L, D> {
    /// Publishes the process that the launch's command was spawned as, or begins
    /// its cleanup: always a strict App Server without a readiness channel.
    pub fn spawn<H>(
        &self,
        spawned: Option<(H, SpawnReadback)>,
        authorities: &mut u64,
        now: Moment,
    ) -> (step: SpawnStep<H>)
        requires
            *old(authorities) < u64::MAX,
        ensures
            app_server_spawn(
                spawned,
                *old(authorities) as int,
                now,
                step,
                *final(authorities) as int,
            ),
            match step {
                SpawnStep::Published(child) => spawned_for_launch(
                    Ok::<ManagedGroupChild<H>, SpawnFailure<H>>(child),
                ),
                SpawnStep::Cleanup { cleanup, .. } => spawned_for_launch(
                    Err::<ManagedGroupChild<H>, SpawnFailure<H>>(cleanup.failure),
                ),
                SpawnStep::Failed(failure) => spawned_for_launch(
                    Err::<ManagedGroupChild<H>, SpawnFailure<H>>(failure),
                ),
            },
    {
        spawn(ChildRole::AppServer, false, spawned, authorities, now)
    }

    /// Takes the outcome of the spawn.
    pub fn finish<H>(self, spawned: Result<ManagedGroupChild<H>, SpawnFailure<H>>) -> (launched:
        Result<AppServerChild<H, L, D>, AppServerLaunchFailure<H, L>>)
        requires
            spawned_for_launch(spawned),
        ensures
            launched == launched_as(self, spawned),
    {
        match spawned {
            Ok(child) => Ok(
                AppServerChild {
                    child,
                    runtime_guard: self.runtime_guard,
                    expected_socket_path: self.expected_socket_path,
                    monitor_seed: Some(self.monitor_seed),
                },
            ),
            Err(failure) => Err(
                AppServerLaunchFailure {
                    failure: AppServerLaunchFailureKind::Spawn(failure),
                    lifetime: self.runtime_guard,
                },
            ),
        }
    }
}

/// A spawn that began as one of a launch stays one: whatever its cleanup comes
/// to, the launch can be finished with it.
pub proof fn law_cleaned_spawn_finishes_the_launch<H>(
    cleanup: SpawnCleanup<H>,
    event: ChildEvent,
    error: ProcessError,
)
    requires
        cleanup_sound(cleanup),
        spawned_for_launch(Err::<ManagedGroupChild<H>, SpawnFailure<H>>(cleanup.failure)),
    ensures
        cleanup_sound(cleanup.after(event)),
        spawned_for_launch(
            Err::<ManagedGroupChild<H>, SpawnFailure<H>>(cleanup.after(event).failure),
        ),
        spawned_for_launch(
            Err::<ManagedGroupChild<H>, SpawnFailure<H>>(
                cleaned_failure(cleanup.result(), error),
            ),
        ),
{
    law_cleanup_stays_sound(cleanup, event);
    law_cleanup_waits_only_after_a_sweep(cleanup);
}

// ---------------------------------------------------------------------------
// A launch together with its socket reservation.
// ---------------------------------------------------------------------------

/// What still has to be cleaned up after a failed launch.
pub enum AppServerLaunchRuntimeOwner<Rs, So, Cs, Ru> {
    Reservation(Rs),
    ReadySocket(So),
    CleanupSocket(Cs),
    Runtime(Ru),
}

pub enum AppServerLaunchReservationPhase<H, L, Rs, So, Cs, Ru> {
    Launch { failure: AppServerLaunchFailure<H, L>, reservation: Rs },
    Cleanup {
        launch: AppServerLaunchResolution<L>,
        owner: AppServerLaunchRuntimeOwner<Rs, So, Cs, Ru>,
    },
}

/// A failed launch with the only reservation that can resolve whatever the
/// child may have bound.
#[must_use]
pub struct AppServerLaunchReservationFailure<H, L, Rs, So, Cs, Ru, R> {
    pub phase: AppServerLaunchReservationPhase<H, L, Rs, So, Cs, Ru>,
    pub error: AppServerLaunchError,
    pub cleanup_error: Option<AppServerTeardownError<R>>,
}

impl<H, L, Rs, So, Cs, Ru, R> AppServerLaunchReservationFailure<H, L, Rs, So, Cs, Ru, R> {
    pub open spec fn of_launch(failure: AppServerLaunchFailure<H, L>, reservation: Rs) -> Self {
        AppServerLaunchReservationFailure {
            phase: AppServerLaunchReservationPhase::Launch { failure, reservation },
            error: failure.spec_error(),
            cleanup_error: None,
        }
    }

    pub fn new(failure: AppServerLaunchFailure<H, L>, reservation: Rs) -> (retained: Self)
        ensures
            retained == Self::of_launch(failure, reservation),
    {
        let error = failure.error();
        AppServerLaunchReservationFailure {
            phase: AppServerLaunchReservationPhase::Launch { failure, reservation },
            error,
            cleanup_error: None,
        }
    }

    pub fn error(&self) -> (error: AppServerLaunchError)
        ensures
            error == self.error,
    {
        self.error
    }

    pub fn cleanup_error(&self) -> (error: &Option<AppServerTeardownError<R>>)
        ensures
            *error == self.cleanup_error,
    {
        &self.cleanup_error
    }

    /// Shows that no child is left. Socket and runtime stay untouched either
    /// way; a failure whose child existed comes back, with the spawn error as
    /// its cleanup error unless there is one already.
    pub fn contain_child(self) -> (contained: Result<
        AppServerLaunchContainmentComplete<L, Rs, So, Cs, Ru, R>,
        Self,
    >)
        ensures
            match self.phase {
                AppServerLaunchReservationPhase::Launch { failure, reservation } => {
                    match contained {
                        Ok(complete) => {
                            &&& failure.before_any_child()
                            &&& complete.owner == AppServerLaunchRuntimeOwner::<
                                Rs,
                                So,
                                Cs,
                                Ru,
                            >::Reservation(reservation)
                            &&& complete.launch.guard() == failure.lifetime
                            &&& complete.error == self.error
                            &&& complete.cleanup_error == self.cleanup_error
                        },
                        Err(retained) => {
                            &&& !failure.before_any_child()
                            &&& retained.phase == self.phase
                            &&& retained.error == self.error
                            &&& retained.cleanup_error == earlier(
                                self.cleanup_error,
                                match failure.spec_error() {
                                    AppServerLaunchError::Spawn(error) => Some(
                                        AppServerTeardownError::Process(error),
                                    ),
                                    AppServerLaunchError::Provider(_) => None,
                                },
                            )
                        },
                    }
                },
                AppServerLaunchReservationPhase::Cleanup { launch, owner } => contained == Ok::<
                    AppServerLaunchContainmentComplete<L, Rs, So, Cs, Ru, R>,
                    Self,
                >(
                    AppServerLaunchContainmentComplete {
                        launch,
                        owner,
                        error: self.error,
                        cleanup_error: self.cleanup_error,
                    },
                ),
            },
    {
        let AppServerLaunchReservationFailure { phase, error, cleanup_error } = self;
        match phase {
            AppServerLaunchReservationPhase::Launch { failure, reservation } => {
                match failure.resolve() {
                    Ok(launch) => Ok(
                        AppServerLaunchContainmentComplete {
                            launch,
                            owner: AppServerLaunchRuntimeOwner::Reservation(reservation),
                            error,
                            cleanup_error,
                        },
                    ),
                    Err(failure) => {
                        let current = match failure.error() {
                            AppServerLaunchError::Spawn(error) => Some(
                                AppServerTeardownError::Process(error),
                            ),
                            AppServerLaunchError::Provider(_) => None,
                        };
                        Err(
                            AppServerLaunchReservationFailure {
                                phase: AppServerLaunchReservationPhase::Launch {
                                    failure,
                                    reservation,
                                },
                                error,
                                cleanup_error: keep_earlier(cleanup_error, current),
                            },
                        )
                    },
                }
            },
            AppServerLaunchReservationPhase::Cleanup { launch, owner } => Ok(
                AppServerLaunchContainmentComplete { launch, owner, error, cleanup_error },
            ),
        }
    }
}

/// Why a launch into a reservation is refused, if it is: the reservation is that
/// of another child, or of another path, or the final check fails.
pub open spec fn launch_refusal<H>(
    unbound_from_app_child: bool,
    reserved: Seq<u8>,
    expected: Seq<u8>,
    verdict: Result<(), ProviderLaunchError>,
) -> Option<AppServerLaunchFailureKind<H>> {
    if !unbound_from_app_child {
        Some(AppServerLaunchFailureKind::BoundReservation)
    } else if components(reserved) != components(expected) {
        Some(AppServerLaunchFailureKind::Provider(ProviderLaunchError::InvalidArgument))
    } else {
        match verdict {
            Err(error) => Some(AppServerLaunchFailureKind::Provider(error)),
            Ok(_) => None,
        }
    }
}

/// A socket reservation with what the launch reads of it.
pub struct ReservedSocket<Rs> {
    pub reservation: Rs,
    pub path: Vec<u8>,
    pub unbound_from_app_child: bool,
}

/// Launches the App Server into its reservation. A reservation that belongs to
/// another child, or to another path, is refused before anything else happens,
/// and comes back with the failure.
pub fn launch_with_reservation<C, D, E, L, H, Rs, So, Cs, Ru, R>(
    command: AppServerCommand<C, L, D>,
    reserved: ReservedSocket<Rs>,
    build: &PinnedSessionBuild<E, L, D>,
    reading: &SessionReading,
    executable: Result<(), PinnedStageError>,
    deadline: Moment,
) -> (begun: Result<
    (C, AppServerLaunch<L, D>, Rs),
    AppServerLaunchReservationFailure<H, L, Rs, So, Cs, Ru, R>,
>)
    requires
        command.seed().branded() == build.branded(),
    ensures
        match begun {
            Ok((spawnable, launch, reservation)) => {
                &&& launch_refusal::<H>(
                    reserved.unbound_from_app_child,
                    reserved.path@,
                    command.socket_path(),
                    launch_verdict(*build, *reading, executable, deadline),
                ) is None
                &&& reserved.unbound_from_app_child
                &&& components(reserved.path@) == components(command.socket_path())
                &&& launch_verdict(*build, *reading, executable, deadline) is Ok
                &&& spawnable == command.spec_command()
                &&& launch.runtime_guard.held() == build.held_lifetime()
                &&& launch.expected_socket_path@ == command.socket_path()
                &&& launch.monitor_seed == command.seed()
                &&& reservation == reserved.reservation
            },
            Err(retained) => {
                let failure = launch_refusal::<H>(
                    reserved.unbound_from_app_child,
                    reserved.path@,
                    command.socket_path(),
                    launch_verdict(*build, *reading, executable, deadline),
                );
                &&& failure matches Some(kind)
                &&& retained.phase matches AppServerLaunchReservationPhase::Launch {
                    failure: kept,
                    ..
                }
                &&& kept.failure == kind
                &&& kept.lifetime.held() == build.held_lifetime()
                &&& retained == AppServerLaunchReservationFailure::<
                    H,
                    L,
                    Rs,
                    So,
                    Cs,
                    Ru,
                    R,
                >::of_launch(kept, reserved.reservation)
            },
        },
{
    if !reserved.unbound_from_app_child {
        return Err(
            AppServerLaunchReservationFailure::new(
                AppServerLaunchFailure {
                    failure: AppServerLaunchFailureKind::BoundReservation,
                    lifetime: build.retain_runtime(),
                },
                reserved.reservation,
            ),
        );
    }
    if !command.expects(&reserved.path) {
        return Err(
            AppServerLaunchReservationFailure::new(
                AppServerLaunchFailure {
                    failure: AppServerLaunchFailureKind::Provider(
                        ProviderLaunchError::InvalidArgument,
                    ),
                    lifetime: build.retain_runtime(),
                },
                reserved.reservation,
            ),
        );
    }
    match launch(command, build, reading, executable, deadline) {
        Ok((spawnable, begun)) => Ok((spawnable, begun, reserved.reservation)),
        Err(failure) => Err(
            AppServerLaunchReservationFailure::new(failure, reserved.reservation),
        ),
    }
}

/// Takes the outcome of the spawn into a launch with a reservation. A launched
/// child is to be bound to the reservation at once.
pub fn finish_launch_with_reservation<D, H, L, Rs, So, Cs, Ru, R>(
    launch: AppServerLaunch<L, D>,
    reservation: Rs,
    spawned: Result<ManagedGroupChild<H>, SpawnFailure<H>>,
) -> (launched: Result<
    (AppServerChild<H, L, D>, Rs),
    AppServerLaunchReservationFailure<H, L, Rs, So, Cs, Ru, R>,
>)
    requires
        spawned_for_launch(spawned),
    ensures
        launched == (match launched_as(launch, spawned) {
            Ok(child) => Ok::<
                (AppServerChild<H, L, D>, Rs),
                AppServerLaunchReservationFailure<H, L, Rs, So, Cs, Ru, R>,
            >((child, reservation)),
            Err(failure) => Err::<
                (AppServerChild<H, L, D>, Rs),
                AppServerLaunchReservationFailure<H, L, Rs, So, Cs, Ru, R>,
            >(AppServerLaunchReservationFailure::of_launch(failure, reservation)),
        }),
{
    match launch.finish(spawned) {
        Ok(child) => Ok((child, reservation)),
        Err(failure) => Err(AppServerLaunchReservationFailure::new(failure, reservation)),
    }
}

// ---------------------------------------------------------------------------
// Cleanup of a contained launch.
// ---------------------------------------------------------------------------

/// A failed launch that is known to have left no child. Its socket and runtime
/// are still as they were.
#[must_use]
pub struct AppServerLaunchContainmentComplete<L, Rs, So, Cs, Ru, R> {
    pub launch: AppServerLaunchResolution<L>,
    pub owner: AppServerLaunchRuntimeOwner<Rs, So, Cs, Ru>,
    pub error: AppServerLaunchError,
    pub cleanup_error: Option<AppServerTeardownError<R>>,
}

/// The next outside call of a cleanup, with what it consumes.
pub enum LaunchCleanupCall<Rs, So, Cs, Ru> {
    ReleaseIfAbsent(Rs),
    Adopt(Rs),
    CleanupSocket(So),
    CleanupClaimed(Cs),
    CleanupRuntime(Ru),
}

/// What came of it. A failed call gives back what it consumed.
pub enum LaunchCleanupOutcome<Rs, So, Cs, Ru, Cl, R> {
    Released(Result<Ru, (AppSocketError, Rs)>),
    Adopted(Result<So, (AppSocketError, Rs)>),
    SocketCleaned(Result<Ru, (AppSocketError, Cs)>),
    RuntimeCleaned(Result<Cl, (R, Ru)>),
}

/// How a cleanup goes on.
pub enum LaunchCleanupNext<Rs, So, Cs, Ru, Cl, R> {
    Call(LaunchCleanupCall<Rs, So, Cs, Ru>),
    Clean(Cl),
    Failed {
        owner: AppServerLaunchRuntimeOwner<Rs, So, Cs, Ru>,
        error: AppServerTeardownError<R>,
    },
}

/// The call that a cleanup begins with, by what is owned.
pub open spec fn first_launch_cleanup<Rs, So, Cs, Ru>(
    owner: AppServerLaunchRuntimeOwner<Rs, So, Cs, Ru>,
) -> LaunchCleanupCall<Rs, So, Cs, Ru> {
    match owner {
        AppServerLaunchRuntimeOwner::Reservation(reservation) => {
            LaunchCleanupCall::ReleaseIfAbsent(reservation)
        },
        AppServerLaunchRuntimeOwner::ReadySocket(socket) => LaunchCleanupCall::CleanupSocket(
            socket,
        ),
        AppServerLaunchRuntimeOwner::CleanupSocket(socket) => LaunchCleanupCall::CleanupClaimed(
            socket,
        ),
        AppServerLaunchRuntimeOwner::Runtime(runtime) => LaunchCleanupCall::CleanupRuntime(runtime),
    }
}

/// How a cleanup goes on after a call: a socket that is still present is
/// adopted, an adopted or claimed one is cleaned up, and then the runtime.
/// Whatever fails leaves its owner.
pub open spec fn next_launch_cleanup<Rs, So, Cs, Ru, Cl, R>(
    outcome: LaunchCleanupOutcome<Rs, So, Cs, Ru, Cl, R>,
) -> LaunchCleanupNext<Rs, So, Cs, Ru, Cl, R> {
    match outcome {
        LaunchCleanupOutcome::Released(Ok(runtime)) => LaunchCleanupNext::Call(
            LaunchCleanupCall::CleanupRuntime(runtime),
        ),
        LaunchCleanupOutcome::Released(Err((error, reservation))) => if error
            == AppSocketError::SocketStillPresent {
            LaunchCleanupNext::Call(LaunchCleanupCall::Adopt(reservation))
        } else {
            LaunchCleanupNext::Failed {
                owner: AppServerLaunchRuntimeOwner::Reservation(reservation),
                error: AppServerTeardownError::Socket(error),
            }
        },
        LaunchCleanupOutcome::Adopted(Ok(socket)) => LaunchCleanupNext::Call(
            LaunchCleanupCall::CleanupSocket(socket),
        ),
        LaunchCleanupOutcome::Adopted(Err((error, reservation))) => LaunchCleanupNext::Failed {
            owner: AppServerLaunchRuntimeOwner::Reservation(reservation),
            error: AppServerTeardownError::Socket(error),
        },
        LaunchCleanupOutcome::SocketCleaned(Ok(runtime)) => LaunchCleanupNext::Call(
            LaunchCleanupCall::CleanupRuntime(runtime),
        ),
        LaunchCleanupOutcome::SocketCleaned(Err((error, socket))) => LaunchCleanupNext::Failed {
            owner: AppServerLaunchRuntimeOwner::CleanupSocket(socket),
            error: AppServerTeardownError::Socket(error),
        },
        LaunchCleanupOutcome::RuntimeCleaned(Ok(clean)) => LaunchCleanupNext::Clean(clean),
        LaunchCleanupOutcome::RuntimeCleaned(Err((error, runtime))) => LaunchCleanupNext::Failed {
            owner: AppServerLaunchRuntimeOwner::Runtime(runtime),
            error: AppServerTeardownError::Runtime(error),
        },
    }
}

/// The cleanup of a contained launch, between two outside calls.
pub struct LaunchCleanup<L, R> {
    pub launch: AppServerLaunchResolution<L>,
    pub error: AppServerLaunchError,
    pub cleanup_error: Option<AppServerTeardownError<R>>,
}

/// A failed launch whose socket and runtime are clean.
#[must_use]
pub struct AppServerLaunchReservationResolution<L, Cl, R> {
    pub launch: AppServerLaunchResolution<L>,
    pub runtime: Cl,
    pub error: AppServerLaunchError,
    pub cleanup_error: Option<AppServerTeardownError<R>>,
}

impl<L, Cl, R> AppServerLaunchReservationResolution<L, Cl, R> {
    pub fn error(&self) -> (error: AppServerLaunchError)
        ensures
            error == self.error,
    {
        self.error
    }

    pub fn cleanup_error(&self) -> (error: &Option<AppServerTeardownError<R>>)
        ensures
            *error == self.cleanup_error,
    {
        &self.cleanup_error
    }

    pub fn terminal_reportable(&self) -> (reportable: bool)
        ensures
            reportable,
    {
        self.launch.terminal_reportable()
    }

    /// Gives guard and runtime up, and tells why the launch failed.
    pub fn release(self) -> (released: (SessionRuntimeGuard<L>, Cl, AppServerLaunchError))
        ensures
            released == (self.launch.guard(), self.runtime, self.error),
    {
        (self.launch.into_guard(), self.runtime, self.error)
    }
}

/// How the cleanup of a launch goes on, or how it ended.
pub enum LaunchCleanupStep<H, L, Rs, So, Cs, Ru, Cl, R> {
    Call { cleanup: LaunchCleanup<L, R>, call: LaunchCleanupCall<Rs, So, Cs, Ru> },
    Clean(AppServerLaunchReservationResolution<L, Cl, R>),
    Failed(AppServerLaunchReservationFailure<H, L, Rs, So, Cs, Ru, R>),
}

impl<L, Rs, So, Cs, Ru, R> AppServerLaunchContainmentComplete<L, Rs, So, Cs, Ru, R> {
    /// Begins the cleanup of socket and runtime.
    pub fn cleanup_runtime(self) -> (begun: (
        LaunchCleanup<L, R>,
        LaunchCleanupCall<Rs, So, Cs, Ru>,
    ))
        ensures
            begun == (
                LaunchCleanup {
                    launch: self.launch,
                    error: self.error,
                    cleanup_error: self.cleanup_error,
                },
                first_launch_cleanup(self.owner),
            ),
    {
        let call = match self.owner {
            AppServerLaunchRuntimeOwner::Reservation(reservation) => {
                LaunchCleanupCall::ReleaseIfAbsent(reservation)
            },
            AppServerLaunchRuntimeOwner::ReadySocket(socket) => {
                LaunchCleanupCall::CleanupSocket(socket)
            },
            AppServerLaunchRuntimeOwner::CleanupSocket(socket) => {
                LaunchCleanupCall::CleanupClaimed(socket)
            },
            AppServerLaunchRuntimeOwner::Runtime(runtime) => {
                LaunchCleanupCall::CleanupRuntime(runtime)
            },
        };
        (
            LaunchCleanup {
                launch: self.launch,
                error: self.error,
                cleanup_error: self.cleanup_error,
            },
            call,
        )
    }
}

fn launch_cleanup_after<Rs, So, Cs, Ru, Cl, R>(
    outcome: LaunchCleanupOutcome<Rs, So, Cs, Ru, Cl, R>,
) -> (next: LaunchCleanupNext<Rs, So, Cs, Ru, Cl, R>)
    ensures
        next == next_launch_cleanup(outcome),
{
    match outcome {
        LaunchCleanupOutcome::Released(Ok(runtime)) => LaunchCleanupNext::Call(
            LaunchCleanupCall::CleanupRuntime(runtime),
        ),
        LaunchCleanupOutcome::Released(Err((error, reservation))) => {
            if error == AppSocketError::SocketStillPresent {
                LaunchCleanupNext::Call(LaunchCleanupCall::Adopt(reservation))
            } else {
                LaunchCleanupNext::Failed {
                    owner: AppServerLaunchRuntimeOwner::Reservation(reservation),
                    error: AppServerTeardownError::Socket(error),
                }
            }
        },
        LaunchCleanupOutcome::Adopted(Ok(socket)) => LaunchCleanupNext::Call(
            LaunchCleanupCall::CleanupSocket(socket),
        ),
        LaunchCleanupOutcome::Adopted(Err((error, reservation))) => LaunchCleanupNext::Failed {
            owner: AppServerLaunchRuntimeOwner::Reservation(reservation),
            error: AppServerTeardownError::Socket(error),
        },
        LaunchCleanupOutcome::SocketCleaned(Ok(runtime)) => LaunchCleanupNext::Call(
            LaunchCleanupCall::CleanupRuntime(runtime),
        ),
        LaunchCleanupOutcome::SocketCleaned(Err((error, socket))) => LaunchCleanupNext::Failed {
            owner: AppServerLaunchRuntimeOwner::CleanupSocket(socket),
            error: AppServerTeardownError::Socket(error),
        },
        LaunchCleanupOutcome::RuntimeCleaned(Ok(clean)) => LaunchCleanupNext::Clean(clean),
        LaunchCleanupOutcome::RuntimeCleaned(Err((error, runtime))) => LaunchCleanupNext::Failed {
            owner: AppServerLaunchRuntimeOwner::Runtime(runtime),
            error: AppServerTeardownError::Runtime(error),
        },
    }
}

/// How the cleanup of a launch goes on after an outside call.
pub open spec fn launch_cleanup_step<H, L, Rs, So, Cs, Ru, Cl, R>(
    cleanup: LaunchCleanup<L, R>,
    outcome: LaunchCleanupOutcome<Rs, So, Cs, Ru, Cl, R>,
) -> LaunchCleanupStep<H, L, Rs, So, Cs, Ru, Cl, R> {
    match next_launch_cleanup(outcome) {
        LaunchCleanupNext::Call(call) => LaunchCleanupStep::Call { cleanup, call },
        LaunchCleanupNext::Clean(runtime) => LaunchCleanupStep::Clean(
            AppServerLaunchReservationResolution {
                launch: cleanup.launch,
                runtime,
                error: cleanup.error,
                cleanup_error: cleanup.cleanup_error,
            },
        ),
        LaunchCleanupNext::Failed { owner, error } => LaunchCleanupStep::Failed(
            AppServerLaunchReservationFailure {
                phase: AppServerLaunchReservationPhase::Cleanup {
                    launch: cleanup.launch,
                    owner,
                },
                error: cleanup.error,
                cleanup_error: earlier(cleanup.cleanup_error, Some(error)),
            },
        ),
    }
}

/// Takes the outcome of one outside call into the cleanup of a launch. A
/// failure keeps the launch error and the first cleanup error, and owns exactly
/// what the failed call gave back.
pub fn resolve_app_launch_runtime<H, L, Rs, So, Cs, Ru, Cl, R>(
    cleanup: LaunchCleanup<L, R>,
    outcome: LaunchCleanupOutcome<Rs, So, Cs, Ru, Cl, R>,
) -> (step: LaunchCleanupStep<H, L, Rs, So, Cs, Ru, Cl, R>)
    ensures
        step == launch_cleanup_step::<H, L, Rs, So, Cs, Ru, Cl, R>(cleanup, outcome),
{
    match launch_cleanup_after(outcome) {
        LaunchCleanupNext::Call(call) => LaunchCleanupStep::Call { cleanup, call },
        LaunchCleanupNext::Clean(runtime) => LaunchCleanupStep::Clean(
            AppServerLaunchReservationResolution {
                launch: cleanup.launch,
                runtime,
                error: cleanup.error,
                cleanup_error: cleanup.cleanup_error,
            },
        ),
        LaunchCleanupNext::Failed { owner, error } => LaunchCleanupStep::Failed(
            AppServerLaunchReservationFailure {
                phase: AppServerLaunchReservationPhase::Cleanup { launch: cleanup.launch, owner },
                error: cleanup.error,
                cleanup_error: keep_earlier(cleanup.cleanup_error, Some(error)),
            },
        ),
    }
}

// ---------------------------------------------------------------------------
// Laws.
// ---------------------------------------------------------------------------

/// How far a call is from a clean runtime.
pub open spec fn calls_left<Rs, So, Cs, Ru>(call: LaunchCleanupCall<Rs, So, Cs, Ru>) -> nat {
    match call {
        LaunchCleanupCall::ReleaseIfAbsent(_) => 4,
        LaunchCleanupCall::Adopt(_) => 3,
        LaunchCleanupCall::CleanupSocket(_) => 2,
        LaunchCleanupCall::CleanupClaimed(_) => 2,
        LaunchCleanupCall::CleanupRuntime(_) => 1,
    }
}

/// The outcome answers the call.
pub open spec fn answers_cleanup<Rs, So, Cs, Ru, Cl, R>(
    call: LaunchCleanupCall<Rs, So, Cs, Ru>,
    outcome: LaunchCleanupOutcome<Rs, So, Cs, Ru, Cl, R>,
) -> bool {
    match call {
        LaunchCleanupCall::ReleaseIfAbsent(_) => outcome is Released,
        LaunchCleanupCall::Adopt(_) => outcome is Adopted,
        LaunchCleanupCall::CleanupSocket(_) => outcome is SocketCleaned,
        LaunchCleanupCall::CleanupClaimed(_) => outcome is SocketCleaned,
        LaunchCleanupCall::CleanupRuntime(_) => outcome is RuntimeCleaned,
    }
}

/// Every answered call brings a cleanup closer to its end: after at most four
/// calls it is clean or has failed with its owner.
pub proof fn law_launch_cleanup_ends<Rs, So, Cs, Ru, Cl, R>(
    call: LaunchCleanupCall<Rs, So, Cs, Ru>,
    outcome: LaunchCleanupOutcome<Rs, So, Cs, Ru, Cl, R>,
)
    requires
        answers_cleanup(call, outcome),
    ensures
        next_launch_cleanup(outcome) matches LaunchCleanupNext::Call(next) ==> calls_left(next)
            < calls_left(call),
        calls_left(call) <= 4,
{
}

/// A failed launch counts as one from before any child exactly where the spawn,
/// if it came to one, never started a process; a reservation of another child
/// looks like an invalid argument but never counts.
pub proof fn law_started_launch_is_never_resolved<H, L>(failure: AppServerLaunchFailure<H, L>)
    ensures
        failure.before_any_child() <==> match failure.failure {
            AppServerLaunchFailureKind::Provider(_) => true,
            AppServerLaunchFailureKind::Spawn(spawn) => spawn.spec_state()
                == SpawnFailureState::NotStarted,
            AppServerLaunchFailureKind::BoundReservation => false,
        },
        failure.failure is BoundReservation ==> failure.spec_error()
            == AppServerLaunchError::Provider(ProviderLaunchError::InvalidArgument),
{
}

/// A launch into a reservation is refused exactly if the reservation is that of
/// another child, leads to another path than the plan expects, or the final
/// check fails, and is told in this order.
pub proof fn law_launch_is_refused_in_order<H>(
    unbound: bool,
    reserved: Seq<u8>,
    expected: Seq<u8>,
    verdict: Result<(), ProviderLaunchError>,
)
    ensures
        ({
            let refusal = launch_refusal::<H>(unbound, reserved, expected, verdict);
            let same = components(reserved) == components(expected);
            &&& refusal is None <==> unbound && same && verdict is Ok
            &&& !unbound <==> refusal == Some(AppServerLaunchFailureKind::<H>::BoundReservation)
            &&& unbound && !same ==> refusal == Some(
                AppServerLaunchFailureKind::<H>::Provider(ProviderLaunchError::InvalidArgument),
            )
            &&& unbound && same ==> (verdict matches Err(error) ==> refusal == Some(
                AppServerLaunchFailureKind::<H>::Provider(error),
            ))
        }),
{
}

/// A spawned App Server takes the guard, the path and the monitor's target of
/// its launch with it; a failed spawn keeps the guard, and its own error.
pub proof fn law_launched_child_keeps_its_session<H, L, D>(
    launch: AppServerLaunch<L, D>,
    spawned: Result<ManagedGroupChild<H>, SpawnFailure<H>>,
)
    ensures
        match spawned {
            Ok(child) => launched_as(launch, spawned) matches Ok(launched) && launched.child
                == child && launched.runtime_guard == launch.runtime_guard
                && launched.expected_socket_path == launch.expected_socket_path
                && launched.monitor_seed == Some(launch.monitor_seed),
            Err(failure) => launched_as(launch, spawned) matches Err(kept) && kept.failure
                == AppServerLaunchFailureKind::Spawn(failure) && kept.lifetime
                == launch.runtime_guard && kept.spec_error() == AppServerLaunchError::Spawn(
                failure.error,
            ),
        },
{
}

/// An App Server is published exactly if it leads its own group, and then as a
/// strict one without a readiness channel.
pub proof fn law_app_server_is_spawned_strict<H>(
    handle: H,
    readback: SpawnReadback,
    authorities: int,
    now: Moment,
    step: SpawnStep<H>,
    authorities_after: int,
)
    requires
        app_server_spawn(Some((handle, readback)), authorities, now, step, authorities_after),
    ensures
        step is Published <==> readback.process_group == Ok::<
            i32,
            crate::process::status::SystemError,
        >(readback.pid),
        step matches SpawnStep::Published(child) ==> child.handle == handle && child.state.role
            == ChildRole::AppServer && child.state.pid == readback.pid && child.state.pgid
            == readback.pid && !child.state.readiness_open && child.state.containment_policy
            == GroupContainmentPolicy::ProductionStrict && authorities_after == authorities + 1,
        !(step is Published) ==> authorities_after == authorities,
{
}

/// A cleanup begins with what is owned: a reservation is released if nothing is
/// bound to it, a socket is cleaned up, and a runtime is cleaned up last.
pub proof fn law_launch_cleanup_begins_with_its_owner<Rs, So, Cs, Ru>(
    reservation: Rs,
    socket: So,
    claimed: Cs,
    runtime: Ru,
)
    ensures
        first_launch_cleanup::<Rs, So, Cs, Ru>(
            AppServerLaunchRuntimeOwner::Reservation(reservation),
        ) == LaunchCleanupCall::<Rs, So, Cs, Ru>::ReleaseIfAbsent(reservation),
        first_launch_cleanup::<Rs, So, Cs, Ru>(AppServerLaunchRuntimeOwner::ReadySocket(socket))
            == LaunchCleanupCall::<Rs, So, Cs, Ru>::CleanupSocket(socket),
        first_launch_cleanup::<Rs, So, Cs, Ru>(AppServerLaunchRuntimeOwner::CleanupSocket(claimed))
            == LaunchCleanupCall::<Rs, So, Cs, Ru>::CleanupClaimed(claimed),
        first_launch_cleanup::<Rs, So, Cs, Ru>(AppServerLaunchRuntimeOwner::Runtime(runtime))
            == LaunchCleanupCall::<Rs, So, Cs, Ru>::CleanupRuntime(runtime),
{
}

/// A cleanup that succeeds goes on with what the call gave, down to the clean
/// runtime. A reservation is adopted exactly if its socket is still present, and
/// every other failure stops with the very thing that the call gave back and
/// the error that it gave.
pub proof fn law_launch_cleanup_loses_nothing<Rs, So, Cs, Ru, Cl, R>(
    reservation: Rs,
    socket: So,
    claimed: Cs,
    runtime: Ru,
    clean: Cl,
    error: AppSocketError,
    cause: R,
)
    ensures
        next_launch_cleanup(LaunchCleanupOutcome::<Rs, So, Cs, Ru, Cl, R>::Released(Ok(runtime)))
            == LaunchCleanupNext::<Rs, So, Cs, Ru, Cl, R>::Call(
            LaunchCleanupCall::CleanupRuntime(runtime),
        ),
        next_launch_cleanup(
            LaunchCleanupOutcome::<Rs, So, Cs, Ru, Cl, R>::Released(Err((error, reservation))),
        ) == (if error == AppSocketError::SocketStillPresent {
            LaunchCleanupNext::<Rs, So, Cs, Ru, Cl, R>::Call(LaunchCleanupCall::Adopt(reservation))
        } else {
            LaunchCleanupNext::Failed {
                owner: AppServerLaunchRuntimeOwner::Reservation(reservation),
                error: AppServerTeardownError::Socket(error),
            }
        }),
        next_launch_cleanup(LaunchCleanupOutcome::<Rs, So, Cs, Ru, Cl, R>::Adopted(Ok(socket)))
            == LaunchCleanupNext::<Rs, So, Cs, Ru, Cl, R>::Call(
            LaunchCleanupCall::CleanupSocket(socket),
        ),
        next_launch_cleanup(
            LaunchCleanupOutcome::<Rs, So, Cs, Ru, Cl, R>::Adopted(Err((error, reservation))),
        ) == (LaunchCleanupNext::<Rs, So, Cs, Ru, Cl, R>::Failed {
            owner: AppServerLaunchRuntimeOwner::Reservation(reservation),
            error: AppServerTeardownError::Socket(error),
        }),
        next_launch_cleanup(
            LaunchCleanupOutcome::<Rs, So, Cs, Ru, Cl, R>::SocketCleaned(Ok(runtime)),
        ) == LaunchCleanupNext::<Rs, So, Cs, Ru, Cl, R>::Call(
            LaunchCleanupCall::CleanupRuntime(runtime),
        ),
        next_launch_cleanup(
            LaunchCleanupOutcome::<Rs, So, Cs, Ru, Cl, R>::SocketCleaned(Err((error, claimed))),
        ) == (LaunchCleanupNext::<Rs, So, Cs, Ru, Cl, R>::Failed {
            owner: AppServerLaunchRuntimeOwner::CleanupSocket(claimed),
            error: AppServerTeardownError::Socket(error),
        }),
        next_launch_cleanup(
            LaunchCleanupOutcome::<Rs, So, Cs, Ru, Cl, R>::RuntimeCleaned(Ok(clean)),
        ) == LaunchCleanupNext::<Rs, So, Cs, Ru, Cl, R>::Clean(clean),
        next_launch_cleanup(
            LaunchCleanupOutcome::<Rs, So, Cs, Ru, Cl, R>::RuntimeCleaned(Err((cause, runtime))),
        ) == (LaunchCleanupNext::<Rs, So, Cs, Ru, Cl, R>::Failed {
            owner: AppServerLaunchRuntimeOwner::Runtime(runtime),
            error: AppServerTeardownError::Runtime(cause),
        }),
{
}

/// Whatever a cleanup comes to, why the launch failed stays what it was, the
/// first cleanup error is kept, and the proof that no child is left stays with
/// it.
pub proof fn law_launch_cleanup_keeps_its_reason<H, L, Rs, So, Cs, Ru, Cl, R>(
    cleanup: LaunchCleanup<L, R>,
    outcome: LaunchCleanupOutcome<Rs, So, Cs, Ru, Cl, R>,
)
    ensures
        match launch_cleanup_step::<H, L, Rs, So, Cs, Ru, Cl, R>(cleanup, outcome) {
            LaunchCleanupStep::Call { cleanup: kept, .. } => kept == cleanup,
            LaunchCleanupStep::Clean(resolution) => {
                &&& resolution.launch == cleanup.launch
                &&& resolution.error == cleanup.error
                &&& resolution.cleanup_error == cleanup.cleanup_error
                &&& outcome == LaunchCleanupOutcome::<Rs, So, Cs, Ru, Cl, R>::RuntimeCleaned(
                    Ok(resolution.runtime),
                )
            },
            LaunchCleanupStep::Failed(failure) => {
                &&& failure.error == cleanup.error
                &&& cleanup.cleanup_error is Some ==> failure.cleanup_error
                    == cleanup.cleanup_error
                &&& failure.cleanup_error is Some
                &&& failure.phase matches AppServerLaunchReservationPhase::Cleanup {
                    launch,
                    ..
                } && launch == cleanup.launch
            },
        },
{
}

/// A failed launch is told by its own error, and keeps the reservation that it
/// was for.
pub proof fn law_failed_launch_keeps_its_reservation<H, L, Rs, So, Cs, Ru, R>(
    failure: AppServerLaunchFailure<H, L>,
    reservation: Rs,
)
    ensures
        ({
            let kept = AppServerLaunchReservationFailure::<H, L, Rs, So, Cs, Ru, R>::of_launch(
                failure,
                reservation,
            );
            &&& kept.phase == (AppServerLaunchReservationPhase::<H, L, Rs, So, Cs, Ru>::Launch {
                failure,
                reservation,
            })
            &&& kept.cleanup_error is None
            &&& failure.failure matches AppServerLaunchFailureKind::Provider(error) ==> kept.error
                == AppServerLaunchError::Provider(error)
            &&& failure.failure matches AppServerLaunchFailureKind::Spawn(spawn) ==> kept.error
                == AppServerLaunchError::Spawn(spawn.error)
        }),
{
}

} // verus!
