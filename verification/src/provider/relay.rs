//! The exact relay between the remote TUI and the App Server's socket.
//!
//! Whatever happens to a relay, the guard of its session is kept until the
//! relay is known to be gone, and the first error of each kind is kept.
use vstd::prelude::*;
use vstd::string::*;

use crate::clock::Moment;
use crate::provider::directory::{session_verdict, SessionReading, VerifiedLaunchDirectory};
use crate::provider::error::{
    earlier, keep_earlier, ExactRelayStartError, ProviderLaunchError, ReadinessProxyError,
};
use crate::provider::lifetime::SessionRuntimeGuard;
use crate::provider::pinned::{ExactRelayPlan, PinnedSessionBuild, SeedReading};
use crate::provider::session::SessionBrand;

verus! {

// ---------------------------------------------------------------------------
// Start.
// ---------------------------------------------------------------------------

/// Everything that a relay is started from, owned.
pub struct OwnedExactRelayStartPlan<Ro, L, D> {
    pub route: Ro,
    pub target_thread_id: String,
    pub working_directory: VerifiedLaunchDirectory<D>,
    pub runtime_guard: SessionRuntimeGuard<L>,
    pub brand: SessionBrand,
}

/// What a failed start keeps: the plan, if it may be tried again.
pub enum ExactRelayStartOwner<Ro, L, D> {
    Retry(OwnedExactRelayStartPlan<Ro, L, D>),
    Terminal { route: Ro, runtime_guard: SessionRuntimeGuard<L>, brand: SessionBrand },
}

impl<Ro, L, D> ExactRelayStartOwner<Ro, L, D> {
    pub open spec fn guard(self) -> SessionRuntimeGuard<L> {
        match self {
            ExactRelayStartOwner::Retry(plan) => plan.runtime_guard,
            ExactRelayStartOwner::Terminal { runtime_guard, .. } => runtime_guard,
        }
    }

    pub fn into_guard(self) -> (guard: SessionRuntimeGuard<L>)
        ensures
            guard == self.guard(),
    {
        match self {
            ExactRelayStartOwner::Retry(plan) => plan.runtime_guard,
            ExactRelayStartOwner::Terminal { runtime_guard, .. } => runtime_guard,
        }
    }
}

/// A failed start of a relay, with what a bound socket may still need.
#[must_use]
pub struct ExactRelayStartFailure<Ro, L, D, F> {
    pub owner: ExactRelayStartOwner<Ro, L, D>,
    pub remote: Option<F>,
    pub error: ExactRelayStartError,
}

/// A running relay.
#[must_use]
pub struct ExactRelaySession<P, L> {
    pub proxy: P,
    pub runtime_guard: SessionRuntimeGuard<L>,
    pub brand: SessionBrand,
}

/// Whether a relay may be started now: the inputs of its session are unchanged,
/// and the working directory can be duplicated.
pub open spec fn relay_verdict<E, L, D>(
    build: PinnedSessionBuild<E, L, D>,
    reading: SessionReading,
    duplicate: SeedReading<D>,
    deadline: Moment,
) -> Result<(), ProviderLaunchError> {
    match session_verdict(build.home(), build.workspace(), reading, deadline) {
        Err(error) => Err(error),
        Ok(_) => build.workspace().duplicate_verdict(
            duplicate.before,
            duplicate.duplicated,
            duplicate.after,
            reading.user,
        ),
    }
}

/// Turns the plan of a relay into one that owns all that it needs. A plan whose
/// inputs changed can never be tried again. The build must be the one that
/// minted the plan.
pub fn own_exact_relay_plan<E, L, D, Ro, F>(
    plan: ExactRelayPlan<Ro, L>,
    build: &PinnedSessionBuild<E, L, D>,
    reading: &SessionReading,
    duplicate: SeedReading<D>,
    deadline: Moment,
) -> (owned: Result<OwnedExactRelayStartPlan<Ro, L, D>, ExactRelayStartFailure<Ro, L, D, F>>)
    requires
        plan.branded() == build.branded(),
    ensures
        match owned {
            Ok(owned) => {
                &&& relay_verdict(*build, *reading, duplicate, deadline) is Ok
                &&& owned.route == plan.sealed_route()
                &&& owned.target_thread_id@ == build.thread()
                &&& owned.working_directory.same_directory(&build.workspace())
                &&& owned.working_directory.pinned() == duplicate.duplicated->0.descriptor
                &&& owned.runtime_guard.held() == build.held_lifetime()
                &&& owned.brand == build.branded()
            },
            Err(failure) => {
                &&& relay_verdict(*build, *reading, duplicate, deadline) matches Err(error)
                &&& failure.owner matches ExactRelayStartOwner::Terminal {
                    route,
                    runtime_guard,
                    brand,
                }
                &&& route == plan.sealed_route()
                &&& runtime_guard.held() == build.held_lifetime()
                &&& brand == build.branded()
                &&& failure.remote is None
                &&& failure.error == ExactRelayStartError::Provider(error)
            },
        },
{
    let runtime_guard = build.retain_runtime();
    let (route, brand, _) = plan.into_parts();
    if let Err(error) = build.revalidate_session_inputs(reading, deadline) {
        return Err(
            ExactRelayStartFailure {
                owner: ExactRelayStartOwner::Terminal { route, runtime_guard, brand },
                remote: None,
                error: ExactRelayStartError::Provider(error),
            },
        );
    }
    match build.working_directory().duplicate(
        &duplicate.before,
        duplicate.duplicated,
        &duplicate.after,
        reading.user,
    ) {
        Ok(working_directory) => Ok(
            OwnedExactRelayStartPlan {
                route,
                target_thread_id: build.thread_id().to_owned(),
                working_directory,
                runtime_guard,
                brand,
            },
        ),
        Err(error) => Err(
            ExactRelayStartFailure {
                owner: ExactRelayStartOwner::Terminal { route, runtime_guard, brand },
                remote: None,
                error: ExactRelayStartError::Provider(error),
            },
        ),
    }
}

/// What the start of a relay comes to with the outcome of binding it.
pub open spec fn relay_spawned<Ro, L, D, P, F>(
    plan: OwnedExactRelayStartPlan<Ro, L, D>,
    bound: Result<P, (F, ReadinessProxyError)>,
) -> Result<ExactRelaySession<P, L>, ExactRelayStartFailure<Ro, L, D, F>> {
    match bound {
        Ok(proxy) => Ok(
            ExactRelaySession { proxy, runtime_guard: plan.runtime_guard, brand: plan.brand },
        ),
        Err((remote, error)) => Err(
            ExactRelayStartFailure {
                owner: ExactRelayStartOwner::Retry(plan),
                remote: Some(remote),
                error: ExactRelayStartError::Relay(error),
            },
        ),
    }
}

impl<Ro, L, D> OwnedExactRelayStartPlan<Ro, L, D> {
    /// Takes the outcome of binding the relay. A failure keeps the plan for
    /// another try, next to what was bound.
    pub fn spawn<P, F>(self, bound: Result<P, (F, ReadinessProxyError)>) -> (spawned: Result<
        ExactRelaySession<P, L>,
        ExactRelayStartFailure<Ro, L, D, F>,
    >)
        ensures
            spawned == relay_spawned(self, bound),
    {
        match bound {
            Ok(proxy) => Ok(
                ExactRelaySession { proxy, runtime_guard: self.runtime_guard, brand: self.brand },
            ),
            Err((remote, error)) => Err(
                ExactRelayStartFailure {
                    owner: ExactRelayStartOwner::Retry(self),
                    remote: Some(remote),
                    error: ExactRelayStartError::Relay(error),
                },
            ),
        }
    }
}

/// A failed start that owns no bound socket any more.
#[must_use]
pub struct ExactRelayStartResolution<Ro, L, D> {
    pub owner: ExactRelayStartOwner<Ro, L, D>,
    pub error: ExactRelayStartError,
}

/// A failed start whose bound socket is to be cleaned up.
pub struct ExactRelayStartCleanup<Ro, L, D> {
    pub owner: ExactRelayStartOwner<Ro, L, D>,
    pub error: ExactRelayStartError,
}

impl<Ro, L, D, F> ExactRelayStartFailure<Ro, L, D, F> {
    pub fn error(&self) -> (error: ExactRelayStartError)
        ensures
            error == self.error,
    {
        self.error
    }

    /// Begins to resolve a failed start: at once where nothing was bound,
    /// otherwise by cleaning up what was.
    pub fn resolve(self) -> (begun: Result<
        ExactRelayStartResolution<Ro, L, D>,
        (F, ExactRelayStartCleanup<Ro, L, D>),
    >)
        ensures
            begun == (match self.remote {
                None => Ok::<
                    ExactRelayStartResolution<Ro, L, D>,
                    (F, ExactRelayStartCleanup<Ro, L, D>),
                >(ExactRelayStartResolution { owner: self.owner, error: self.error }),
                Some(remote) => Err::<
                    ExactRelayStartResolution<Ro, L, D>,
                    (F, ExactRelayStartCleanup<Ro, L, D>),
                >((remote, ExactRelayStartCleanup { owner: self.owner, error: self.error })),
            }),
    {
        match self.remote {
            None => Ok(ExactRelayStartResolution { owner: self.owner, error: self.error }),
            Some(remote) => Err(
                (remote, ExactRelayStartCleanup { owner: self.owner, error: self.error }),
            ),
        }
    }
}

impl<Ro, L, D> ExactRelayStartCleanup<Ro, L, D> {
    /// Takes the outcome of the cleanup. A failed one gives the very failure
    /// back that it was begun on.
    pub fn finish<F>(self, cleaned: Result<(), F>) -> (finished: Result<
        ExactRelayStartResolution<Ro, L, D>,
        ExactRelayStartFailure<Ro, L, D, F>,
    >)
        ensures
            finished == (match cleaned {
                Ok(_) => Ok::<
                    ExactRelayStartResolution<Ro, L, D>,
                    ExactRelayStartFailure<Ro, L, D, F>,
                >(ExactRelayStartResolution { owner: self.owner, error: self.error }),
                Err(remote) => Err::<
                    ExactRelayStartResolution<Ro, L, D>,
                    ExactRelayStartFailure<Ro, L, D, F>,
                >(
                    ExactRelayStartFailure {
                        owner: self.owner,
                        remote: Some(remote),
                        error: self.error,
                    },
                ),
            }),
    {
        match cleaned {
            Ok(()) => Ok(ExactRelayStartResolution { owner: self.owner, error: self.error }),
            Err(remote) => Err(
                ExactRelayStartFailure {
                    owner: self.owner,
                    remote: Some(remote),
                    error: self.error,
                },
            ),
        }
    }
}

/// The plan for another start of a relay, or the same failure where there can be
/// none.
pub open spec fn relay_retry<Ro, L, D, F>(
    resolution: ExactRelayStartResolution<Ro, L, D>,
) -> Result<OwnedExactRelayStartPlan<Ro, L, D>, ExactRelayStartFailure<Ro, L, D, F>> {
    match resolution.owner {
        ExactRelayStartOwner::Retry(plan) => Ok(plan),
        owner => Err(ExactRelayStartFailure { owner, remote: None, error: resolution.error }),
    }
}

impl<Ro, L, D> ExactRelayStartResolution<Ro, L, D> {
    pub fn error(&self) -> (error: ExactRelayStartError)
        ensures
            error == self.error,
    {
        self.error
    }

    /// The plan for another start, or the same failure where there can be none.
    pub fn retry<F>(self) -> (plan: Result<
        OwnedExactRelayStartPlan<Ro, L, D>,
        ExactRelayStartFailure<Ro, L, D, F>,
    >)
        ensures
            plan == relay_retry::<Ro, L, D, F>(self),
    {
        match self.owner {
            ExactRelayStartOwner::Retry(plan) => Ok(plan),
            owner => Err(ExactRelayStartFailure { owner, remote: None, error: self.error }),
        }
    }

    /// Gives up on another start. The guard is still held.
    pub fn abandon(self) -> (abandoned: ExactRelayStartAbandoned<L>)
        ensures
            abandoned.runtime_guard == self.owner.guard(),
            abandoned.error == self.error,
    {
        ExactRelayStartAbandoned { runtime_guard: self.owner.into_guard(), error: self.error }
    }

    /// Gives up on another start and releases the guard.
    pub fn into_startup_abort(self) -> (aborted: (SessionRuntimeGuard<L>, ExactRelayStartAbortResolution))
        ensures
            aborted.0 == self.owner.guard(),
            aborted.1.spec_error() == self.error,
    {
        let (guard, error) = self.abandon().release();
        (guard, ExactRelayStartAbortResolution { error })
    }
}

/// A start that was given up; it still holds the guard.
#[must_use]
pub struct ExactRelayStartAbandoned<L> {
    pub runtime_guard: SessionRuntimeGuard<L>,
    pub error: ExactRelayStartError,
}

impl<L> ExactRelayStartAbandoned<L> {
    /// Gives the guard up, and tells why.
    pub fn release(self) -> (released: (SessionRuntimeGuard<L>, ExactRelayStartError))
        ensures
            released == (self.runtime_guard, self.error),
    {
        (self.runtime_guard, self.error)
    }
}

/// Proof that a failed relay never became live and holds nothing any more.
#[must_use]
#[derive(Clone, Copy, Debug, PartialEq, Eq, Structural)]
pub struct ExactRelayStartAbortResolution {
    error: ExactRelayStartError,
}

impl ExactRelayStartAbortResolution {
    pub closed spec fn spec_error(self) -> ExactRelayStartError {
        self.error
    }

    pub fn error(&self) -> (error: ExactRelayStartError)
        ensures
            error == self.spec_error(),
    {
        self.error
    }

    pub fn release(self) -> (error: ExactRelayStartError)
        ensures
            error == self.spec_error(),
    {
        self.error
    }
}

// ---------------------------------------------------------------------------
// Shutdown.
// ---------------------------------------------------------------------------

/// What a failed shutdown of the proxy reports. Without a proxy the worker was
/// joined and the socket is gone; with one it can be tried again.
pub struct ReadinessProxyShutdownFailure<P> {
    pub proxy: Option<P>,
    pub operation_error: Option<ReadinessProxyError>,
    pub cleanup_error: Option<ReadinessProxyError>,
}

/// A relay whose proxy is being shut down, with the errors so far.
pub struct ExactRelayShutdown<L> {
    pub operation_error: Option<ReadinessProxyError>,
    pub cleanup_error: Option<ReadinessProxyError>,
    pub runtime_guard: SessionRuntimeGuard<L>,
    pub brand: SessionBrand,
}

/// Proof that a relay is gone. It still holds the guard.
#[must_use]
pub struct ExactRelayShutdownComplete<L> {
    runtime_guard: SessionRuntimeGuard<L>,
    brand: SessionBrand,
}

impl<L> ExactRelayShutdownComplete<L> {
    pub closed spec fn guard(&self) -> SessionRuntimeGuard<L> {
        self.runtime_guard
    }

    pub closed spec fn branded(&self) -> SessionBrand {
        self.brand
    }

    /// Gives the guard up.
    pub fn release(self) -> (guard: SessionRuntimeGuard<L>)
        ensures
            guard == self.guard(),
    {
        self.runtime_guard
    }
}

/// A relay that is not known to be gone, or that failed on the way.
#[must_use]
pub struct ExactRelayShutdownFailure<P, L> {
    pub proxy: Option<P>,
    pub operation_error: Option<ReadinessProxyError>,
    pub cleanup_error: Option<ReadinessProxyError>,
    pub runtime_guard: SessionRuntimeGuard<L>,
    pub brand: SessionBrand,
}

/// Proof that a relay is gone although its shutdown failed on the way.
#[must_use]
pub struct ExactRelayShutdownResolution<L> {
    operation_error: Option<ReadinessProxyError>,
    cleanup_error: Option<ReadinessProxyError>,
    runtime_guard: SessionRuntimeGuard<L>,
    brand: SessionBrand,
}

impl<L> ExactRelayShutdownResolution<L> {
    pub closed spec fn errors(&self) -> (
        Option<ReadinessProxyError>,
        Option<ReadinessProxyError>,
    ) {
        (self.operation_error, self.cleanup_error)
    }

    pub closed spec fn guard(&self) -> SessionRuntimeGuard<L> {
        self.runtime_guard
    }

    pub fn operation_error(&self) -> (error: Option<ReadinessProxyError>)
        ensures
            error == self.errors().0,
    {
        self.operation_error
    }

    pub fn cleanup_error(&self) -> (error: Option<ReadinessProxyError>)
        ensures
            error == self.errors().1,
    {
        self.cleanup_error
    }

    pub fn error(&self) -> (error: Option<ReadinessProxyError>)
        ensures
            error == earlier(self.errors().0, self.errors().1),
    {
        keep_earlier(self.operation_error, self.cleanup_error)
    }

    /// Gives the guard up, and tells what went wrong on the way.
    pub fn release(self) -> (released: (SessionRuntimeGuard<L>, Option<ReadinessProxyError>))
        ensures
            released == (self.guard(), earlier(self.errors().0, self.errors().1)),
    {
        let error = keep_earlier(self.operation_error, self.cleanup_error);
        (self.runtime_guard, error)
    }
}

impl<P, L> ExactRelaySession<P, L> {
    /// Begins the shutdown of a running relay: its proxy is to be shut down.
    pub fn shutdown(self) -> (begun: (P, ExactRelayShutdown<L>))
        ensures
            begun == (
                self.proxy,
                ExactRelayShutdown {
                    operation_error: None,
                    cleanup_error: None,
                    runtime_guard: self.runtime_guard,
                    brand: self.brand,
                },
            ),
    {
        (
            self.proxy,
            ExactRelayShutdown {
                operation_error: None,
                cleanup_error: None,
                runtime_guard: self.runtime_guard,
                brand: self.brand,
            },
        )
    }
}

impl<P, L> ExactRelayShutdownFailure<P, L> {
    /// The failure after one more report: an error that is already known is
    /// never replaced.
    pub open spec fn reported(
        remote: ReadinessProxyShutdownFailure<P>,
        shutdown: ExactRelayShutdown<L>,
    ) -> Self {
        ExactRelayShutdownFailure {
            proxy: remote.proxy,
            operation_error: earlier(shutdown.operation_error, remote.operation_error),
            cleanup_error: earlier(shutdown.cleanup_error, remote.cleanup_error),
            runtime_guard: shutdown.runtime_guard,
            brand: shutdown.brand,
        }
    }

    /// The error that is reported of the failure.
    pub open spec fn spec_error(self) -> ReadinessProxyError {
        match earlier(self.operation_error, self.cleanup_error) {
            Some(error) => error,
            None => ReadinessProxyError::Worker,
        }
    }

    pub fn from_remote(
        remote: ReadinessProxyShutdownFailure<P>,
        shutdown: ExactRelayShutdown<L>,
    ) -> (failure: Self)
        ensures
            failure == Self::reported(remote, shutdown),
    {
        ExactRelayShutdownFailure {
            proxy: remote.proxy,
            operation_error: keep_earlier(shutdown.operation_error, remote.operation_error),
            cleanup_error: keep_earlier(shutdown.cleanup_error, remote.cleanup_error),
            runtime_guard: shutdown.runtime_guard,
            brand: shutdown.brand,
        }
    }

    pub fn error(&self) -> (error: ReadinessProxyError)
        ensures
            error == self.spec_error(),
    {
        match keep_earlier(self.operation_error, self.cleanup_error) {
            Some(error) => error,
            None => ReadinessProxyError::Worker,
        }
    }

    pub fn operation_error(&self) -> (error: Option<ReadinessProxyError>)
        ensures
            error == self.operation_error,
    {
        self.operation_error
    }

    pub fn cleanup_error(&self) -> (error: Option<ReadinessProxyError>)
        ensures
            error == self.cleanup_error,
    {
        self.cleanup_error
    }

    /// Without a proxy everything but the guard is already gone.
    pub fn try_resolve_without_retry(self) -> (resolved: Result<
        ExactRelayShutdownResolution<L>,
        Self,
    >)
        ensures
            match resolved {
                Ok(resolution) => self.proxy is None && resolution.errors() == (
                    self.operation_error,
                    self.cleanup_error,
                ) && resolution.guard() == self.runtime_guard,
                Err(failure) => self.proxy is Some && failure == self,
            },
    {
        if self.proxy.is_some() {
            return Err(self);
        }
        Ok(
            ExactRelayShutdownResolution {
                operation_error: self.operation_error,
                cleanup_error: self.cleanup_error,
                runtime_guard: self.runtime_guard,
                brand: self.brand,
            },
        )
    }

    /// Begins another attempt: at once resolved where there is no proxy,
    /// otherwise the proxy is to be shut down again.
    pub fn resolve(self) -> (begun: Result<
        ExactRelayShutdownResolution<L>,
        (P, ExactRelayShutdown<L>),
    >)
        ensures
            match begun {
                Ok(resolution) => self.proxy is None && resolution.errors() == (
                    self.operation_error,
                    self.cleanup_error,
                ) && resolution.guard() == self.runtime_guard,
                Err((proxy, shutdown)) => self.proxy == Some(proxy) && shutdown == (
                ExactRelayShutdown {
                    operation_error: self.operation_error,
                    cleanup_error: self.cleanup_error,
                    runtime_guard: self.runtime_guard,
                    brand: self.brand,
                }),
            },
    {
        match self.proxy {
            None => Ok(
                ExactRelayShutdownResolution {
                    operation_error: self.operation_error,
                    cleanup_error: self.cleanup_error,
                    runtime_guard: self.runtime_guard,
                    brand: self.brand,
                },
            ),
            Some(proxy) => Err(
                (
                    proxy,
                    ExactRelayShutdown {
                        operation_error: self.operation_error,
                        cleanup_error: self.cleanup_error,
                        runtime_guard: self.runtime_guard,
                        brand: self.brand,
                    },
                ),
            ),
        }
    }
}

impl<L> ExactRelayShutdown<L> {
    /// Takes the outcome of the first shutdown of a proxy.
    pub fn finish<P>(self, outcome: Result<(), ReadinessProxyShutdownFailure<P>>) -> (finished:
        Result<ExactRelayShutdownComplete<L>, ExactRelayShutdownFailure<P, L>>)
        ensures
            match (outcome, finished) {
                (Ok(_), Ok(complete)) => complete.guard() == self.runtime_guard
                    && complete.branded() == self.brand,
                (Err(remote), Err(failure)) => failure == ExactRelayShutdownFailure::reported(
                    remote,
                    self,
                ),
                _ => false,
            },
    {
        match outcome {
            Ok(()) => Ok(
                ExactRelayShutdownComplete { runtime_guard: self.runtime_guard, brand: self.brand },
            ),
            Err(remote) => Err(ExactRelayShutdownFailure::from_remote(remote, self)),
        }
    }

    /// Takes the outcome of a later shutdown of a proxy. The errors so far stay
    /// with the result.
    pub fn finish_retry<P>(self, outcome: Result<(), ReadinessProxyShutdownFailure<P>>) -> (finished:
        Result<ExactRelayShutdownResolution<L>, ExactRelayShutdownFailure<P, L>>)
        ensures
            match finished {
                Ok(resolution) => {
                    &&& resolution.guard() == self.runtime_guard
                    &&& match outcome {
                        Ok(_) => resolution.errors() == (self.operation_error, self.cleanup_error),
                        Err(remote) => remote.proxy is None && resolution.errors() == (
                            earlier(self.operation_error, remote.operation_error),
                            earlier(self.cleanup_error, remote.cleanup_error),
                        ),
                    }
                },
                Err(failure) => outcome matches Err(remote) && remote.proxy is Some && failure
                    == ExactRelayShutdownFailure::reported(remote, self),
            },
    {
        match outcome {
            Ok(()) => Ok(
                ExactRelayShutdownResolution {
                    operation_error: self.operation_error,
                    cleanup_error: self.cleanup_error,
                    runtime_guard: self.runtime_guard,
                    brand: self.brand,
                },
            ),
            Err(remote) => {
                ExactRelayShutdownFailure::from_remote(remote, self).try_resolve_without_retry()
            },
        }
    }
}

/// However often a shutdown is tried, the first operation error and the first
/// cleanup error are the ones that are reported, and the guard is kept.
pub proof fn law_first_shutdown_errors_are_kept<P, L>(
    first: ReadinessProxyShutdownFailure<P>,
    later: ReadinessProxyShutdownFailure<P>,
    shutdown: ExactRelayShutdown<L>,
)
    ensures
        ({
            let failed = ExactRelayShutdownFailure::reported(first, shutdown);
            let again = ExactRelayShutdown {
                operation_error: failed.operation_error,
                cleanup_error: failed.cleanup_error,
                runtime_guard: failed.runtime_guard,
                brand: failed.brand,
            };
            let failed_again = ExactRelayShutdownFailure::reported(later, again);
            &&& failed.operation_error is Some ==> failed_again.operation_error
                == failed.operation_error
            &&& failed.cleanup_error is Some ==> failed_again.cleanup_error
                == failed.cleanup_error
            &&& failed_again.runtime_guard == shutdown.runtime_guard
        }),
{
}

/// A relay may be started exactly if the inputs of its session pass and its
/// working directory can be duplicated; the inputs are told first.
pub proof fn law_relay_needs_the_inputs_and_a_duplicate<E, L, D>(
    build: PinnedSessionBuild<E, L, D>,
    reading: SessionReading,
    duplicate: SeedReading<D>,
    deadline: Moment,
)
    ensures
        ({
            let inputs = session_verdict(build.home(), build.workspace(), reading, deadline);
            let copied = build.workspace().duplicate_verdict(
                duplicate.before,
                duplicate.duplicated,
                duplicate.after,
                reading.user,
            );
            let verdict = relay_verdict(build, reading, duplicate, deadline);
            &&& verdict is Ok <==> inputs is Ok && copied is Ok
            &&& inputs is Err ==> verdict == inputs
            &&& inputs is Ok ==> verdict == copied
        }),
{
}

/// A relay that was bound runs with the guard and the brand of its plan. One that
/// was not keeps its whole plan, next to what was bound, and can be tried again
/// with that very plan; a start that failed before never can.
pub proof fn law_unbound_relay_keeps_its_plan<Ro, L, D, P, F>(
    plan: OwnedExactRelayStartPlan<Ro, L, D>,
    bound: Result<P, (F, ReadinessProxyError)>,
    resolution: ExactRelayStartResolution<Ro, L, D>,
)
    ensures
        match bound {
            Ok(proxy) => relay_spawned(plan, bound) matches Ok(session) && session.proxy == proxy
                && session.runtime_guard == plan.runtime_guard && session.brand == plan.brand,
            Err((remote, error)) => relay_spawned(plan, bound) matches Err(failure)
                && failure.remote == Some(remote) && failure.error == ExactRelayStartError::Relay(
                error,
            ) && failure.owner.guard() == plan.runtime_guard && relay_retry::<Ro, L, D, F>(
                ExactRelayStartResolution { owner: failure.owner, error: failure.error },
            ) == Ok::<OwnedExactRelayStartPlan<Ro, L, D>, ExactRelayStartFailure<Ro, L, D, F>>(
                plan,
            ),
        },
        resolution.owner is Terminal ==> (relay_retry::<Ro, L, D, F>(resolution) matches Err(
            failure,
        ) && failure.owner == resolution.owner && failure.remote is None && failure.error
            == resolution.error),
{
}

/// A shutdown that failed is told by its operation error, else by its cleanup
/// error, else by the worker; and each of them is the first that came up.
pub proof fn law_failed_shutdown_is_told_by_its_operation<P, L>(
    remote: ReadinessProxyShutdownFailure<P>,
    shutdown: ExactRelayShutdown<L>,
)
    ensures
        ({
            let failure = ExactRelayShutdownFailure::reported(remote, shutdown);
            &&& shutdown.operation_error is Some ==> failure.operation_error
                == shutdown.operation_error
            &&& shutdown.operation_error is None ==> failure.operation_error
                == remote.operation_error
            &&& shutdown.cleanup_error is Some ==> failure.cleanup_error == shutdown.cleanup_error
            &&& shutdown.cleanup_error is None ==> failure.cleanup_error == remote.cleanup_error
            &&& failure.proxy == remote.proxy
            &&& failure.runtime_guard == shutdown.runtime_guard
            &&& failure.brand == shutdown.brand
            &&& failure.operation_error matches Some(error) ==> failure.spec_error() == error
            &&& failure.operation_error is None ==> (failure.cleanup_error matches Some(error)
                ==> failure.spec_error() == error)
            &&& failure.operation_error is None && failure.cleanup_error is None
                ==> failure.spec_error() == ReadinessProxyError::Worker
        }),
{
}

} // verus!
