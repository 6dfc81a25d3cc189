//! Stopping the App Server, then taking its socket and its runtime down.
//!
//! Nothing of the namespace is touched before the exact child has drained, and
//! the guard of the session is kept until all of it is gone.
use vstd::prelude::*;

use crate::clock::Moment;
use crate::process::attempt::{begun_pair, completes, drain_shown, retained_after};
use crate::process::child::{ChildAuthority, ManagedGroupChild};
use crate::process::error::ProcessError;
use crate::process::outcome::{PinnedAppGracefulDrain, ShutdownOutcome, TuiShutdownMode};
use crate::process::shutdown::{PairEvent, UnreapedChildren};
use crate::process::shutdown_laws::{
    after_all, law_attempt_begins_consistently, law_whole_attempt_keeps_owners_and_first_error,
};
use crate::provider::adoption::{AppServerSocketAdoptionFailure, AppServerSocketAuthority};
use crate::provider::error::{AppServerTeardownError, AppSocketError};
use crate::provider::launch::AppServerChild;
use crate::provider::lifetime::SessionRuntimeGuard;
use crate::provider::pinned::MonitorSessionSeed;

verus! {

// ---------------------------------------------------------------------------
// Stopping the child.
// ---------------------------------------------------------------------------

/// An App Server whose direct child is being shut down: all but the child, and
/// which child it is.
pub struct AppServerShutdown<L, D> {
    pub authority: ChildAuthority,
    pub runtime_guard: SessionRuntimeGuard<L>,
    pub expected_socket_path: Vec<u8>,
    pub monitor_seed: Option<MonitorSessionSeed<L, D>>,
}

/// Proof that the App Server drained, with the guard of its session.
#[must_use]
pub struct AppServerShutdownComplete<L> {
    pub drain: PinnedAppGracefulDrain,
    pub runtime_guard: SessionRuntimeGuard<L>,
}

/// An App Server that is not known to be gone.
#[must_use]
pub struct AppServerShutdownFailure<H, L, D> {
    pub authority: ChildAuthority,
    pub unreaped: UnreapedChildren<H>,
    pub runtime_guard: SessionRuntimeGuard<L>,
    pub expected_socket_path: Vec<u8>,
    pub monitor_seed: Option<MonitorSessionSeed<L, D>>,
}

/// The outcome of a shutdown is about this child: its own drain, or a failure
/// that still owns it.
pub open spec fn outcome_of<H>(
    authority: ChildAuthority,
    outcome: Result<PinnedAppGracefulDrain, UnreapedChildren<H>>,
) -> bool {
    match outcome {
        Ok(drain) => drain.bound_to() == authority,
        Err(unreaped) => {
            &&& unreaped.tui is None
            &&& unreaped.app_server matches Some(child) && child.state.authority == authority
        },
    }
}

impl<H, L, D> AppServerChild<H, L, D> {
    /// Begins the shutdown: the direct child is to be shut down.
    pub fn shutdown(self) -> (begun: (ManagedGroupChild<H>, AppServerShutdown<L, D>))
        ensures
            begun == (
                self.child,
                AppServerShutdown {
                    authority: self.child.state.authority,
                    runtime_guard: self.runtime_guard,
                    expected_socket_path: self.expected_socket_path,
                    monitor_seed: self.monitor_seed,
                },
            ),
    {
        let authority = self.child.state.authority;
        (
            self.child,
            AppServerShutdown {
                authority,
                runtime_guard: self.runtime_guard,
                expected_socket_path: self.expected_socket_path,
                monitor_seed: self.monitor_seed,
            },
        )
    }
}

impl<L, D> AppServerShutdown<L, D> {
    /// Takes the outcome of the child's shutdown.
    pub fn finish<H>(self, outcome: Result<PinnedAppGracefulDrain, UnreapedChildren<H>>) -> (finished:
        Result<AppServerShutdownComplete<L>, AppServerShutdownFailure<H, L, D>>)
        requires
            outcome_of(self.authority, outcome),
        ensures
            finished == (match outcome {
                Ok(drain) => Ok::<AppServerShutdownComplete<L>, AppServerShutdownFailure<H, L, D>>(
                    AppServerShutdownComplete { drain, runtime_guard: self.runtime_guard },
                ),
                Err(unreaped) => Err::<
                    AppServerShutdownComplete<L>,
                    AppServerShutdownFailure<H, L, D>,
                >(
                    AppServerShutdownFailure {
                        authority: self.authority,
                        unreaped,
                        runtime_guard: self.runtime_guard,
                        expected_socket_path: self.expected_socket_path,
                        monitor_seed: self.monitor_seed,
                    },
                ),
            }),
    {
        match outcome {
            Ok(drain) => Ok(
                AppServerShutdownComplete { drain, runtime_guard: self.runtime_guard },
            ),
            Err(unreaped) => Err(
                AppServerShutdownFailure {
                    authority: self.authority,
                    unreaped,
                    runtime_guard: self.runtime_guard,
                    expected_socket_path: self.expected_socket_path,
                    monitor_seed: self.monitor_seed,
                },
            ),
        }
    }
}

impl<H, L, D> AppServerShutdownFailure<H, L, D> {
    pub fn error(&self) -> (error: ProcessError)
        ensures
            error == self.unreaped.error,
    {
        self.unreaped.error()
    }

    /// Takes the outcome of another attempt on the retained child.
    pub fn retry(self, outcome: Result<PinnedAppGracefulDrain, ProcessError>) -> (finished: Result<
        AppServerShutdownComplete<L>,
        Self,
    >)
        requires
            outcome matches Ok(drain) ==> drain.bound_to() == self.authority,
        ensures
            finished == (match outcome {
                Ok(drain) => Ok::<AppServerShutdownComplete<L>, Self>(
                    AppServerShutdownComplete { drain, runtime_guard: self.runtime_guard },
                ),
                Err(_) => Err::<AppServerShutdownComplete<L>, Self>(self),
            }),
    {
        match outcome {
            Ok(drain) => Ok(
                AppServerShutdownComplete { drain, runtime_guard: self.runtime_guard },
            ),
            Err(_) => Err(self),
        }
    }
}

/// A failed adoption whose child is gone. The socket is still as it was.
#[must_use]
pub struct AppServerAdoptionContainmentComplete<L, Rs, So> {
    pub child: AppServerShutdownComplete<L>,
    pub socket: AppServerSocketAuthority<Rs, So>,
}

/// A failed adoption whose child is not known to be gone.
#[must_use]
pub struct AppServerAdoptionContainmentFailure<H, L, D, Rs, So> {
    pub child: AppServerShutdownFailure<H, L, D>,
    pub socket: AppServerSocketAuthority<Rs, So>,
}

impl<H, L, D, Rs, So> AppServerSocketAdoptionFailure<H, L, D, Rs, So> {
    /// Begins to contain the child of a failed adoption.
    pub fn contain_child(self) -> (begun: (
        ManagedGroupChild<H>,
        AppServerShutdown<L, D>,
        AppServerSocketAuthority<Rs, So>,
    ))
        ensures
            begun == (
                self.child.child,
                AppServerShutdown {
                    authority: self.child.child.state.authority,
                    runtime_guard: self.child.runtime_guard,
                    expected_socket_path: self.child.expected_socket_path,
                    monitor_seed: self.child.monitor_seed,
                },
                self.socket,
            ),
    {
        let (child, shutdown) = self.child.shutdown();
        (child, shutdown, self.socket)
    }
}

/// Takes the outcome of a containment: the socket stays owned either way.
pub fn finish_containment<H, L, D, Rs, So>(
    child: Result<AppServerShutdownComplete<L>, AppServerShutdownFailure<H, L, D>>,
    socket: AppServerSocketAuthority<Rs, So>,
) -> (contained: Result<
    AppServerAdoptionContainmentComplete<L, Rs, So>,
    AppServerAdoptionContainmentFailure<H, L, D, Rs, So>,
>)
    ensures
        contained == (match child {
            Ok(child) => Ok::<
                AppServerAdoptionContainmentComplete<L, Rs, So>,
                AppServerAdoptionContainmentFailure<H, L, D, Rs, So>,
            >(AppServerAdoptionContainmentComplete { child, socket }),
            Err(child) => Err::<
                AppServerAdoptionContainmentComplete<L, Rs, So>,
                AppServerAdoptionContainmentFailure<H, L, D, Rs, So>,
            >(AppServerAdoptionContainmentFailure { child, socket }),
        }),
{
    match child {
        Ok(child) => Ok(AppServerAdoptionContainmentComplete { child, socket }),
        Err(child) => Err(AppServerAdoptionContainmentFailure { child, socket }),
    }
}

/// A drained App Server whose socket and runtime are still there.
#[must_use]
pub struct StoppedAppServer<L, So> {
    pub drain: PinnedAppGracefulDrain,
    pub socket: So,
    pub runtime_guard: SessionRuntimeGuard<L>,
}

/// An App Server that could not be stopped, with its socket.
#[must_use]
pub struct AppServerStopFailure<H, L, So> {
    pub authority: ChildAuthority,
    pub unreaped: UnreapedChildren<H>,
    pub socket: So,
    pub runtime_guard: SessionRuntimeGuard<L>,
}

/// Takes the outcome of the child's shutdown with the adopted socket. The
/// monitor's target, if it never left, is given up.
pub fn stop_app_server<H, L, D, So>(
    shutdown: AppServerShutdown<L, D>,
    outcome: Result<PinnedAppGracefulDrain, UnreapedChildren<H>>,
    socket: So,
) -> (stopped: Result<StoppedAppServer<L, So>, AppServerStopFailure<H, L, So>>)
    requires
        outcome_of(shutdown.authority, outcome),
    ensures
        stopped == (match outcome {
            Ok(drain) => Ok::<StoppedAppServer<L, So>, AppServerStopFailure<H, L, So>>(
                StoppedAppServer { drain, socket, runtime_guard: shutdown.runtime_guard },
            ),
            Err(unreaped) => Err::<StoppedAppServer<L, So>, AppServerStopFailure<H, L, So>>(
                AppServerStopFailure {
                    authority: shutdown.authority,
                    unreaped,
                    socket,
                    runtime_guard: shutdown.runtime_guard,
                },
            ),
        }),
{
    let AppServerShutdown { authority, runtime_guard, .. } = shutdown;
    match outcome {
        Ok(drain) => Ok(StoppedAppServer { drain, socket, runtime_guard }),
        Err(unreaped) => Err(AppServerStopFailure { authority, unreaped, socket, runtime_guard }),
    }
}

impl<L, So> StoppedAppServer<L, So> {
    pub fn outcome(&self) -> (outcome: &ShutdownOutcome)
        ensures
            *outcome == self.drain.reported(),
    {
        self.drain.outcome()
    }
}

impl<H, L, So> AppServerStopFailure<H, L, So> {
    pub fn error(&self) -> (error: ProcessError)
        ensures
            error == self.unreaped.error,
    {
        self.unreaped.error()
    }

    /// Takes the outcome of another attempt on the retained child.
    pub fn retry(self, outcome: Result<PinnedAppGracefulDrain, ProcessError>) -> (stopped: Result<
        StoppedAppServer<L, So>,
        Self,
    >)
        requires
            outcome matches Ok(drain) ==> drain.bound_to() == self.authority,
        ensures
            stopped == (match outcome {
                Ok(drain) => Ok::<StoppedAppServer<L, So>, Self>(
                    StoppedAppServer {
                        drain,
                        socket: self.socket,
                        runtime_guard: self.runtime_guard,
                    },
                ),
                Err(_) => Err::<StoppedAppServer<L, So>, Self>(self),
            }),
    {
        match outcome {
            Ok(drain) => Ok(
                StoppedAppServer { drain, socket: self.socket, runtime_guard: self.runtime_guard },
            ),
            Err(_) => Err(self),
        }
    }
}

// ---------------------------------------------------------------------------
// Taking socket and runtime down.
// ---------------------------------------------------------------------------

/// The next outside call of a teardown, with what it consumes.
pub enum TeardownCall<Rs, So, Cs, Ru> {
    /// Check that the reservation belongs to the drained child.
    RequireMatchingChild(Rs),
    ReleaseIfAbsent(Rs),
    Adopt(Rs),
    /// Claim a socket that the drained child left half made.
    ClaimAfterChildExit(Rs),
    CleanupSocket(So),
    CleanupClaimed(Cs),
    CleanupRuntime(Ru),
}

/// What came of it. A failed call gives back what it consumed.
pub enum TeardownOutcome<Rs, So, Cs, Ru, Cl, R> {
    Matched(Result<Rs, (AppSocketError, Rs)>),
    Released(Result<Ru, (AppSocketError, Rs)>),
    Adopted(Result<So, (AppSocketError, Rs)>),
    Claimed(Result<Cs, (AppSocketError, Rs)>),
    SocketCleaned(Result<Ru, (AppSocketError, Cs)>),
    RuntimeCleaned(Result<Cl, (R, Ru)>),
}

/// What a failed teardown still owns.
pub enum TeardownOwner<Rs, Cs, Ru> {
    Reservation(Rs),
    Socket(Cs),
    Runtime(Ru),
}

/// How a teardown goes on.
pub enum TeardownNext<Rs, So, Cs, Ru, Cl, R> {
    Call(TeardownCall<Rs, So, Cs, Ru>),
    Clean(Cl),
    Failed { owner: TeardownOwner<Rs, Cs, Ru>, error: AppServerTeardownError<R> },
}

/// How a teardown goes on after a call. A reservation is first matched with the
/// drained child. Its socket is released if it is absent, adopted if it is
/// ready, and claimed only where it was left half made.
pub open spec fn next_teardown<Rs, So, Cs, Ru, Cl, R>(
    outcome: TeardownOutcome<Rs, So, Cs, Ru, Cl, R>,
) -> TeardownNext<Rs, So, Cs, Ru, Cl, R> {
    match outcome {
        TeardownOutcome::Matched(Ok(reservation)) => TeardownNext::Call(
            TeardownCall::ReleaseIfAbsent(reservation),
        ),
        TeardownOutcome::Released(Ok(runtime)) => TeardownNext::Call(
            TeardownCall::CleanupRuntime(runtime),
        ),
        TeardownOutcome::Adopted(Ok(socket)) => TeardownNext::Call(
            TeardownCall::CleanupSocket(socket),
        ),
        TeardownOutcome::Claimed(Ok(socket)) => TeardownNext::Call(
            TeardownCall::CleanupClaimed(socket),
        ),
        TeardownOutcome::SocketCleaned(Ok(runtime)) => TeardownNext::Call(
            TeardownCall::CleanupRuntime(runtime),
        ),
        TeardownOutcome::RuntimeCleaned(Ok(clean)) => TeardownNext::Clean(clean),
        TeardownOutcome::Matched(Err((error, reservation))) => kept_reservation(error, reservation),
        TeardownOutcome::Released(Err((error, reservation))) => if error
            == AppSocketError::SocketStillPresent {
            TeardownNext::Call(TeardownCall::Adopt(reservation))
        } else {
            kept_reservation(error, reservation)
        },
        TeardownOutcome::Adopted(Err((error, reservation))) => if error
            == AppSocketError::SocketNotReady {
            TeardownNext::Call(TeardownCall::ClaimAfterChildExit(reservation))
        } else {
            kept_reservation(error, reservation)
        },
        TeardownOutcome::Claimed(Err((error, reservation))) => kept_reservation(error, reservation),
        TeardownOutcome::SocketCleaned(Err((error, socket))) => TeardownNext::Failed {
            owner: TeardownOwner::Socket(socket),
            error: AppServerTeardownError::Socket(error),
        },
        TeardownOutcome::RuntimeCleaned(Err((error, runtime))) => TeardownNext::Failed {
            owner: TeardownOwner::Runtime(runtime),
            error: AppServerTeardownError::Runtime(error),
        },
    }
}

pub open spec fn kept_reservation<Rs, So, Cs, Ru, Cl, R>(
    error: AppSocketError,
    reservation: Rs,
) -> TeardownNext<Rs, So, Cs, Ru, Cl, R> {
    TeardownNext::Failed {
        owner: TeardownOwner::Reservation(reservation),
        error: AppServerTeardownError::Socket(error),
    }
}

fn keep_reservation<Rs, So, Cs, Ru, Cl, R>(error: AppSocketError, reservation: Rs) -> (next:
    TeardownNext<Rs, So, Cs, Ru, Cl, R>)
    ensures
        next == kept_reservation::<Rs, So, Cs, Ru, Cl, R>(error, reservation),
{
    TeardownNext::Failed {
        owner: TeardownOwner::Reservation(reservation),
        error: AppServerTeardownError::Socket(error),
    }
}

fn teardown_after<Rs, So, Cs, Ru, Cl, R>(outcome: TeardownOutcome<Rs, So, Cs, Ru, Cl, R>) -> (next:
    TeardownNext<Rs, So, Cs, Ru, Cl, R>)
    ensures
        next == next_teardown(outcome),
{
    match outcome {
        TeardownOutcome::Matched(Ok(reservation)) => TeardownNext::Call(
            TeardownCall::ReleaseIfAbsent(reservation),
        ),
        TeardownOutcome::Released(Ok(runtime)) => TeardownNext::Call(
            TeardownCall::CleanupRuntime(runtime),
        ),
        TeardownOutcome::Adopted(Ok(socket)) => TeardownNext::Call(
            TeardownCall::CleanupSocket(socket),
        ),
        TeardownOutcome::Claimed(Ok(socket)) => TeardownNext::Call(
            TeardownCall::CleanupClaimed(socket),
        ),
        TeardownOutcome::SocketCleaned(Ok(runtime)) => TeardownNext::Call(
            TeardownCall::CleanupRuntime(runtime),
        ),
        TeardownOutcome::RuntimeCleaned(Ok(clean)) => TeardownNext::Clean(clean),
        TeardownOutcome::Matched(Err((error, reservation))) => keep_reservation(error, reservation),
        TeardownOutcome::Released(Err((error, reservation))) => {
            if error == AppSocketError::SocketStillPresent {
                TeardownNext::Call(TeardownCall::Adopt(reservation))
            } else {
                keep_reservation(error, reservation)
            }
        },
        TeardownOutcome::Adopted(Err((error, reservation))) => {
            if error == AppSocketError::SocketNotReady {
                TeardownNext::Call(TeardownCall::ClaimAfterChildExit(reservation))
            } else {
                keep_reservation(error, reservation)
            }
        },
        TeardownOutcome::Claimed(Err((error, reservation))) => keep_reservation(error, reservation),
        TeardownOutcome::SocketCleaned(Err((error, socket))) => TeardownNext::Failed {
            owner: TeardownOwner::Socket(socket),
            error: AppServerTeardownError::Socket(error),
        },
        TeardownOutcome::RuntimeCleaned(Err((error, runtime))) => TeardownNext::Failed {
            owner: TeardownOwner::Runtime(runtime),
            error: AppServerTeardownError::Runtime(error),
        },
    }
}

/// A teardown between two outside calls. The calls that need to know the
/// drained child are given the drain.
pub struct AppServerTeardown<L> {
    pub drain: PinnedAppGracefulDrain,
    pub runtime_guard: SessionRuntimeGuard<L>,
}

/// The whole topology is gone: child drained, socket removed, runtime clean.
#[must_use]
pub struct AppServerTeardownComplete<L, Cl> {
    pub drain: PinnedAppGracefulDrain,
    pub runtime: Cl,
    pub runtime_guard: SessionRuntimeGuard<L>,
}

impl<L, Cl> AppServerTeardownComplete<L, Cl> {
    pub fn into_drain(self) -> (drain: PinnedAppGracefulDrain)
        ensures
            drain == self.drain,
    {
        self.drain
    }
}

/// A failed teardown, which keeps the drain, the guard and whatever is left.
#[must_use]
pub struct AppServerTeardownFailure<L, Rs, Cs, Ru, R> {
    pub drain: PinnedAppGracefulDrain,
    pub runtime_guard: SessionRuntimeGuard<L>,
    pub owner: TeardownOwner<Rs, Cs, Ru>,
    pub error: AppServerTeardownError<R>,
}

/// How a teardown goes on, or how it ended.
pub enum TeardownStep<L, Rs, So, Cs, Ru, Cl, R> {
    Call { teardown: AppServerTeardown<L>, call: TeardownCall<Rs, So, Cs, Ru> },
    Clean(AppServerTeardownComplete<L, Cl>),
    Failed(AppServerTeardownFailure<L, Rs, Cs, Ru, R>),
}

pub open spec fn teardown_step<L, Rs, So, Cs, Ru, Cl, R>(
    teardown: AppServerTeardown<L>,
    outcome: TeardownOutcome<Rs, So, Cs, Ru, Cl, R>,
) -> TeardownStep<L, Rs, So, Cs, Ru, Cl, R> {
    match next_teardown(outcome) {
        TeardownNext::Call(call) => TeardownStep::Call { teardown, call },
        TeardownNext::Clean(runtime) => TeardownStep::Clean(
            AppServerTeardownComplete {
                drain: teardown.drain,
                runtime,
                runtime_guard: teardown.runtime_guard,
            },
        ),
        TeardownNext::Failed { owner, error } => TeardownStep::Failed(
            AppServerTeardownFailure {
                drain: teardown.drain,
                runtime_guard: teardown.runtime_guard,
                owner,
                error,
            },
        ),
    }
}

/// Takes the outcome of one outside call into a teardown.
pub fn advance_teardown<L, Rs, So, Cs, Ru, Cl, R>(
    teardown: AppServerTeardown<L>,
    outcome: TeardownOutcome<Rs, So, Cs, Ru, Cl, R>,
) -> (step: TeardownStep<L, Rs, So, Cs, Ru, Cl, R>)
    ensures
        step == teardown_step(teardown, outcome),
{
    match teardown_after(outcome) {
        TeardownNext::Call(call) => TeardownStep::Call { teardown, call },
        TeardownNext::Clean(runtime) => TeardownStep::Clean(
            AppServerTeardownComplete {
                drain: teardown.drain,
                runtime,
                runtime_guard: teardown.runtime_guard,
            },
        ),
        TeardownNext::Failed { owner, error } => TeardownStep::Failed(
            AppServerTeardownFailure {
                drain: teardown.drain,
                runtime_guard: teardown.runtime_guard,
                owner,
                error,
            },
        ),
    }
}

/// Begins the teardown of a reservation, with the match against the drain.
pub fn finish_reservation_teardown<L, Rs, So, Cs, Ru>(
    drain: PinnedAppGracefulDrain,
    reservation: Rs,
    runtime_guard: SessionRuntimeGuard<L>,
) -> (begun: (AppServerTeardown<L>, TeardownCall<Rs, So, Cs, Ru>))
    ensures
        begun == (
            AppServerTeardown { drain, runtime_guard },
            TeardownCall::<Rs, So, Cs, Ru>::RequireMatchingChild(reservation),
        ),
{
    (
        AppServerTeardown { drain, runtime_guard },
        TeardownCall::RequireMatchingChild(reservation),
    )
}

/// Begins the teardown of an adopted socket.
pub fn finish_socket_teardown<L, Rs, So, Cs, Ru>(
    drain: PinnedAppGracefulDrain,
    socket: So,
    runtime_guard: SessionRuntimeGuard<L>,
) -> (begun: (AppServerTeardown<L>, TeardownCall<Rs, So, Cs, Ru>))
    ensures
        begun == (
            AppServerTeardown { drain, runtime_guard },
            TeardownCall::<Rs, So, Cs, Ru>::CleanupSocket(socket),
        ),
{
    (AppServerTeardown { drain, runtime_guard }, TeardownCall::CleanupSocket(socket))
}

/// Begins the teardown of a socket that was claimed for cleanup only.
pub fn finish_cleanup_socket_teardown<L, Rs, So, Cs, Ru>(
    drain: PinnedAppGracefulDrain,
    socket: Cs,
    runtime_guard: SessionRuntimeGuard<L>,
) -> (begun: (AppServerTeardown<L>, TeardownCall<Rs, So, Cs, Ru>))
    ensures
        begun == (
            AppServerTeardown { drain, runtime_guard },
            TeardownCall::<Rs, So, Cs, Ru>::CleanupClaimed(socket),
        ),
{
    (AppServerTeardown { drain, runtime_guard }, TeardownCall::CleanupClaimed(socket))
}

/// Begins the teardown of a runtime whose socket is gone.
pub fn finish_runtime_teardown<L, Rs, So, Cs, Ru>(
    drain: PinnedAppGracefulDrain,
    runtime: Ru,
    runtime_guard: SessionRuntimeGuard<L>,
) -> (begun: (AppServerTeardown<L>, TeardownCall<Rs, So, Cs, Ru>))
    ensures
        begun == (
            AppServerTeardown { drain, runtime_guard },
            TeardownCall::<Rs, So, Cs, Ru>::CleanupRuntime(runtime),
        ),
{
    (AppServerTeardown { drain, runtime_guard }, TeardownCall::CleanupRuntime(runtime))
}

impl<L, So> StoppedAppServer<L, So> {
    /// Begins the teardown of socket and runtime.
    pub fn cleanup_socket_runtime<Rs, Cs, Ru>(self) -> (begun: (
        AppServerTeardown<L>,
        TeardownCall<Rs, So, Cs, Ru>,
    ))
        ensures
            begun == (
                AppServerTeardown { drain: self.drain, runtime_guard: self.runtime_guard },
                TeardownCall::<Rs, So, Cs, Ru>::CleanupSocket(self.socket),
            ),
    {
        finish_socket_teardown(self.drain, self.socket, self.runtime_guard)
    }
}

impl<L, Rs, So> AppServerAdoptionContainmentComplete<L, Rs, So> {
    /// Begins the teardown of whatever the failed adoption owned.
    pub fn cleanup_socket<Cs, Ru>(self) -> (begun: (
        AppServerTeardown<L>,
        TeardownCall<Rs, So, Cs, Ru>,
    ))
        ensures
            begun.0 == (AppServerTeardown {
                drain: self.child.drain,
                runtime_guard: self.child.runtime_guard,
            }),
            begun.1 == (match self.socket {
                AppServerSocketAuthority::Reservation(reservation) => TeardownCall::<
                    Rs,
                    So,
                    Cs,
                    Ru,
                >::RequireMatchingChild(reservation),
                AppServerSocketAuthority::Owned(socket) => TeardownCall::<
                    Rs,
                    So,
                    Cs,
                    Ru,
                >::CleanupSocket(socket),
            }),
    {
        let AppServerShutdownComplete { drain, runtime_guard } = self.child;
        match self.socket {
            AppServerSocketAuthority::Reservation(reservation) => {
                finish_reservation_teardown(drain, reservation, runtime_guard)
            },
            AppServerSocketAuthority::Owned(socket) => {
                finish_socket_teardown(drain, socket, runtime_guard)
            },
        }
    }
}

/// The call that a retry begins with, by what is still owned. A reservation is
/// matched with the drain again.
pub open spec fn first_retry<Rs, So, Cs, Ru>(owner: TeardownOwner<Rs, Cs, Ru>) -> TeardownCall<
    Rs,
    So,
    Cs,
    Ru,
> {
    match owner {
        TeardownOwner::Reservation(reservation) => TeardownCall::RequireMatchingChild(reservation),
        TeardownOwner::Socket(socket) => TeardownCall::CleanupClaimed(socket),
        TeardownOwner::Runtime(runtime) => TeardownCall::CleanupRuntime(runtime),
    }
}

impl<L, Rs, Cs, Ru, R> AppServerTeardownFailure<L, Rs, Cs, Ru, R> {
    /// Begins another attempt where the failed one stopped.
    pub fn retry<So>(self) -> (begun: (AppServerTeardown<L>, TeardownCall<Rs, So, Cs, Ru>))
        ensures
            begun == (
                AppServerTeardown { drain: self.drain, runtime_guard: self.runtime_guard },
                first_retry::<Rs, So, Cs, Ru>(self.owner),
            ),
    {
        match self.owner {
            TeardownOwner::Reservation(reservation) => {
                finish_reservation_teardown(self.drain, reservation, self.runtime_guard)
            },
            TeardownOwner::Socket(socket) => {
                finish_cleanup_socket_teardown(self.drain, socket, self.runtime_guard)
            },
            TeardownOwner::Runtime(runtime) => {
                finish_runtime_teardown(self.drain, runtime, self.runtime_guard)
            },
        }
    }
}

// ---------------------------------------------------------------------------
// Laws.
// ---------------------------------------------------------------------------

/// A shutdown of the App Server that is run to its end is about the child that
/// it was begun on: where it completes, the drain is that child's, and where it
/// does not, that child is still owned.
pub proof fn law_drain_is_of_the_child_that_was_shut_down<H>(
    child: ManagedGroupChild<H>,
    grace_deadline: Moment,
    hard_deadline: Moment,
    mode: TuiShutdownMode,
    first_error: Option<ProcessError>,
    events: Seq<PairEvent>,
)
    ensures
        ({
            let begun = begun_pair(
                None,
                Some(child),
                grace_deadline,
                hard_deadline,
                mode,
                first_error,
                false,
            );
            let pair = after_all(begun, events);
            &&& pair.tui is None
            &&& drain_shown(pair.app_server) matches Some(authority) ==> authority
                == child.state.authority
            &&& !completes(pair) ==> outcome_of(
                child.state.authority,
                Err::<PinnedAppGracefulDrain, UnreapedChildren<H>>(retained_after(pair)),
            )
        }),
{
    law_attempt_begins_consistently(
        None,
        Some(child),
        grace_deadline,
        hard_deadline,
        mode,
        first_error,
        false,
    );
    let begun = begun_pair(
        None,
        Some(child),
        grace_deadline,
        hard_deadline,
        mode,
        first_error,
        false,
    );
    law_whole_attempt_keeps_owners_and_first_error(begun, events);
}

/// How far a call is from a clean runtime.
pub open spec fn teardown_calls_left<Rs, So, Cs, Ru>(call: TeardownCall<Rs, So, Cs, Ru>) -> nat {
    match call {
        TeardownCall::RequireMatchingChild(_) => 6,
        TeardownCall::ReleaseIfAbsent(_) => 5,
        TeardownCall::Adopt(_) => 4,
        TeardownCall::ClaimAfterChildExit(_) => 3,
        TeardownCall::CleanupSocket(_) => 2,
        TeardownCall::CleanupClaimed(_) => 2,
        TeardownCall::CleanupRuntime(_) => 1,
    }
}

/// The outcome answers the call.
pub open spec fn answers_teardown<Rs, So, Cs, Ru, Cl, R>(
    call: TeardownCall<Rs, So, Cs, Ru>,
    outcome: TeardownOutcome<Rs, So, Cs, Ru, Cl, R>,
) -> bool {
    match call {
        TeardownCall::RequireMatchingChild(_) => outcome is Matched,
        TeardownCall::ReleaseIfAbsent(_) => outcome is Released,
        TeardownCall::Adopt(_) => outcome is Adopted,
        TeardownCall::ClaimAfterChildExit(_) => outcome is Claimed,
        TeardownCall::CleanupSocket(_) => outcome is SocketCleaned,
        TeardownCall::CleanupClaimed(_) => outcome is SocketCleaned,
        TeardownCall::CleanupRuntime(_) => outcome is RuntimeCleaned,
    }
}

/// Every answered call brings a teardown closer to its end: after at most six
/// calls it is clean or has failed with its owner.
pub proof fn law_teardown_ends<Rs, So, Cs, Ru, Cl, R>(
    call: TeardownCall<Rs, So, Cs, Ru>,
    outcome: TeardownOutcome<Rs, So, Cs, Ru, Cl, R>,
)
    requires
        answers_teardown(call, outcome),
    ensures
        next_teardown(outcome) matches TeardownNext::Call(next) ==> teardown_calls_left(next)
            < teardown_calls_left(call),
        teardown_calls_left(call) <= 6,
{
}

/// Guard and drain leave a teardown only with its result, and a teardown is
/// clean only where the runtime was cleaned.
pub proof fn law_teardown_keeps_the_guard<L, Rs, So, Cs, Ru, Cl, R>(
    teardown: AppServerTeardown<L>,
    outcome: TeardownOutcome<Rs, So, Cs, Ru, Cl, R>,
)
    ensures
        match teardown_step(teardown, outcome) {
            TeardownStep::Call { teardown: next, .. } => next == teardown,
            TeardownStep::Clean(complete) => complete.runtime_guard == teardown.runtime_guard
                && complete.drain == teardown.drain && outcome == TeardownOutcome::<
                Rs,
                So,
                Cs,
                Ru,
                Cl,
                R,
            >::RuntimeCleaned(Ok(complete.runtime)),
            TeardownStep::Failed(failure) => failure.runtime_guard == teardown.runtime_guard
                && failure.drain == teardown.drain,
        },
{
}

/// A teardown that succeeds goes on with what the call gave: a matched
/// reservation is released, an adopted or claimed socket is cleaned up, and the
/// runtime comes last.
pub proof fn law_teardown_goes_on_with_what_it_got<Rs, So, Cs, Ru, Cl, R>(
    reservation: Rs,
    socket: So,
    claimed: Cs,
    runtime: Ru,
    clean: Cl,
)
    ensures
        next_teardown(TeardownOutcome::<Rs, So, Cs, Ru, Cl, R>::Matched(Ok(reservation)))
            == TeardownNext::<Rs, So, Cs, Ru, Cl, R>::Call(
            TeardownCall::ReleaseIfAbsent(reservation),
        ),
        next_teardown(TeardownOutcome::<Rs, So, Cs, Ru, Cl, R>::Released(Ok(runtime)))
            == TeardownNext::<Rs, So, Cs, Ru, Cl, R>::Call(TeardownCall::CleanupRuntime(runtime)),
        next_teardown(TeardownOutcome::<Rs, So, Cs, Ru, Cl, R>::Adopted(Ok(socket)))
            == TeardownNext::<Rs, So, Cs, Ru, Cl, R>::Call(TeardownCall::CleanupSocket(socket)),
        next_teardown(TeardownOutcome::<Rs, So, Cs, Ru, Cl, R>::Claimed(Ok(claimed)))
            == TeardownNext::<Rs, So, Cs, Ru, Cl, R>::Call(TeardownCall::CleanupClaimed(claimed)),
        next_teardown(TeardownOutcome::<Rs, So, Cs, Ru, Cl, R>::SocketCleaned(Ok(runtime)))
            == TeardownNext::<Rs, So, Cs, Ru, Cl, R>::Call(TeardownCall::CleanupRuntime(runtime)),
        next_teardown(TeardownOutcome::<Rs, So, Cs, Ru, Cl, R>::RuntimeCleaned(Ok(clean)))
            == TeardownNext::<Rs, So, Cs, Ru, Cl, R>::Clean(clean),
{
}

/// A reservation is adopted exactly if its socket is still present, and claimed
/// exactly if the socket to adopt is not ready. Every other failure stops the
/// teardown with the very thing that the call gave back and the error that it
/// gave, and a retry begins with that thing again: a reservation with its match
/// against the drain.
pub proof fn law_failed_teardown_is_retried_where_it_stopped<Rs, So, Cs, Ru, Cl, R>(
    reservation: Rs,
    claimed: Cs,
    runtime: Ru,
    error: AppSocketError,
    cause: R,
)
    ensures
        next_teardown(
            TeardownOutcome::<Rs, So, Cs, Ru, Cl, R>::Released(Err((error, reservation))),
        ) == TeardownNext::<Rs, So, Cs, Ru, Cl, R>::Call(TeardownCall::Adopt(reservation)) <==> error
            == AppSocketError::SocketStillPresent,
        next_teardown(
            TeardownOutcome::<Rs, So, Cs, Ru, Cl, R>::Adopted(Err((error, reservation))),
        ) == TeardownNext::<Rs, So, Cs, Ru, Cl, R>::Call(
            TeardownCall::ClaimAfterChildExit(reservation),
        ) <==> error == AppSocketError::SocketNotReady,
        ({
            let kept = TeardownNext::<Rs, So, Cs, Ru, Cl, R>::Failed {
                owner: TeardownOwner::Reservation(reservation),
                error: AppServerTeardownError::Socket(error),
            };
            &&& next_teardown(
                TeardownOutcome::<Rs, So, Cs, Ru, Cl, R>::Matched(Err((error, reservation))),
            ) == kept
            &&& next_teardown(
                TeardownOutcome::<Rs, So, Cs, Ru, Cl, R>::Claimed(Err((error, reservation))),
            ) == kept
            &&& error != AppSocketError::SocketStillPresent ==> next_teardown(
                TeardownOutcome::<Rs, So, Cs, Ru, Cl, R>::Released(Err((error, reservation))),
            ) == kept
            &&& error != AppSocketError::SocketNotReady ==> next_teardown(
                TeardownOutcome::<Rs, So, Cs, Ru, Cl, R>::Adopted(Err((error, reservation))),
            ) == kept
        }),
        next_teardown(
            TeardownOutcome::<Rs, So, Cs, Ru, Cl, R>::SocketCleaned(Err((error, claimed))),
        ) == (TeardownNext::<Rs, So, Cs, Ru, Cl, R>::Failed {
            owner: TeardownOwner::Socket(claimed),
            error: AppServerTeardownError::Socket(error),
        }),
        next_teardown(
            TeardownOutcome::<Rs, So, Cs, Ru, Cl, R>::RuntimeCleaned(Err((cause, runtime))),
        ) == (TeardownNext::<Rs, So, Cs, Ru, Cl, R>::Failed {
            owner: TeardownOwner::Runtime(runtime),
            error: AppServerTeardownError::Runtime(cause),
        }),
        first_retry::<Rs, So, Cs, Ru>(TeardownOwner::Reservation(reservation))
            == TeardownCall::<Rs, So, Cs, Ru>::RequireMatchingChild(reservation),
        first_retry::<Rs, So, Cs, Ru>(TeardownOwner::Socket(claimed)) == TeardownCall::<
            Rs,
            So,
            Cs,
            Ru,
        >::CleanupClaimed(claimed),
        first_retry::<Rs, So, Cs, Ru>(TeardownOwner::Runtime(runtime)) == TeardownCall::<
            Rs,
            So,
            Cs,
            Ru,
        >::CleanupRuntime(runtime),
{
}

/// An outcome is about a child exactly if it is that child's own drain, or a
/// failure that owns that child and no TUI.
pub proof fn law_outcome_is_about_its_child<H>(
    authority: ChildAuthority,
    drain: PinnedAppGracefulDrain,
    unreaped: UnreapedChildren<H>,
)
    ensures
        outcome_of(authority, Ok::<PinnedAppGracefulDrain, UnreapedChildren<H>>(drain))
            <==> drain.bound_to() == authority,
        outcome_of(authority, Err::<PinnedAppGracefulDrain, UnreapedChildren<H>>(unreaped))
            <==> unreaped.tui is None && unreaped.app_server is Some
            && unreaped.app_server->0.state.authority == authority,
{
}

} // verus!
