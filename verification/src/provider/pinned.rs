//! The pinned build of one session, and the launch plans that it mints.
use std::sync::Arc;

use vstd::prelude::*;
use vstd::string::*;
use vstd::utf8::decode_utf8;

use crate::clock::Moment;
use crate::provider::address::{address_of, addressable, VerifiedProviderSocketAddress};
use crate::provider::directory::{
    revalidate_session_inputs, session_verdict, DirectoryReading, OpenedDirectory, SessionReading,
    VerifiedLaunchDirectory,
};
use crate::provider::error::{stage_error, PinnedStageError, ProviderLaunchError};
use crate::provider::lifetime::{lifetime_owners, SessionLifetime, SessionRuntimeGuard};
use crate::provider::path::{components, same_path};
use crate::provider::session::{
    AuthorizedCompatibilityFailure, CodexHandoffFailure, ProviderLaunchAuthorization,
    SelectedProfileLaunch, SessionBrand,
};

verus! {

pub const APP_PLAN_MINTED: u8 = 1;

pub const TUI_PLAN_MINTED: u8 = 2;

pub const MONITOR_CAPABILITY_MINTED: u8 = 4;

pub const EXACT_RELAY_PLAN_MINTED: u8 = 8;

/// Which of the one-shot authorities of a build were minted.
#[derive(Clone, Copy, Debug, PartialEq, Eq, Structural)]
pub struct MintedAuthorities {
    bits: u8,
}

impl MintedAuthorities {
    pub closed spec fn bits(self) -> u8 {
        self.bits
    }

    pub open spec fn minted(self, bit: u8) -> bool {
        self.bits() & bit != 0
    }

    pub fn none() -> (authorities: Self)
        ensures
            authorities.bits() == 0,
            forall|bit: u8| !authorities.minted(bit),
    {
        let authorities = MintedAuthorities { bits: 0 };
        assert(forall|bit: u8| 0u8 & bit == 0) by (bit_vector);
        authorities
    }

    pub fn ensure_authority_available(&self, bit: u8) -> (available: Result<
        (),
        ProviderLaunchError,
    >)
        ensures
            available == (if self.minted(bit) {
                Err::<(), ProviderLaunchError>(ProviderLaunchError::AuthorityConsumed)
            } else {
                Ok::<(), ProviderLaunchError>(())
            }),
    {
        if self.bits & bit == 0 {
            Ok(())
        } else {
            Err(ProviderLaunchError::AuthorityConsumed)
        }
    }

    pub fn record_authority_minted(&mut self, bit: u8)
        ensures
            final(self).bits() == old(self).bits() | bit,
    {
        self.bits = self.bits | bit;
    }
}

/// A recorded authority is minted, stays minted, and no other one becomes so:
/// each of the four can be minted exactly once.
pub proof fn law_authorities_are_one_shot(
    before: MintedAuthorities,
    after: MintedAuthorities,
    bit: u8,
    other: u8,
)
    requires
        after.bits() == before.bits() | bit,
        bit == APP_PLAN_MINTED || bit == TUI_PLAN_MINTED || bit == MONITOR_CAPABILITY_MINTED
            || bit == EXACT_RELAY_PLAN_MINTED,
        other == APP_PLAN_MINTED || other == TUI_PLAN_MINTED || other == MONITOR_CAPABILITY_MINTED
            || other == EXACT_RELAY_PLAN_MINTED,
    ensures
        after.minted(bit),
        bit != other ==> after.minted(other) == before.minted(other),
{
    let bits = before.bits();
    assert((bits | 1) & 1 != 0 && (bits | 2) & 2 != 0 && (bits | 4) & 4 != 0 && (bits | 8) & 8
        != 0) by (bit_vector);
    assert((bits | 1) & 2 == bits & 2 && (bits | 1) & 4 == bits & 4 && (bits | 1) & 8 == bits & 8)
        by (bit_vector);
    assert((bits | 2) & 1 == bits & 1 && (bits | 2) & 4 == bits & 4 && (bits | 2) & 8 == bits & 8)
        by (bit_vector);
    assert((bits | 4) & 1 == bits & 1 && (bits | 4) & 2 == bits & 2 && (bits | 4) & 8 == bits & 8)
        by (bit_vector);
    assert((bits | 8) & 1 == bits & 1 && (bits | 8) & 2 == bits & 2 && (bits | 8) & 4 == bits & 4)
        by (bit_vector);
}

/// The monitor's target, which leaves a launch plan only once the exact socket
/// of the App Server was adopted.
pub struct MonitorSessionSeed<L, D> {
    selected_codex_home: VerifiedLaunchDirectory<D>,
    target_thread_id: String,
    brand: SessionBrand,
    lifetime: SessionRuntimeGuard<L>,
}

impl<L, D> MonitorSessionSeed<L, D> {
    /// What the session holds as long as this is there.
    pub closed spec fn held(&self) -> L {
        self.lifetime.held()
    }

    pub closed spec fn home(&self) -> VerifiedLaunchDirectory<D> {
        self.selected_codex_home
    }

    pub closed spec fn thread(&self) -> Seq<char> {
        self.target_thread_id@
    }

    pub closed spec fn branded(&self) -> SessionBrand {
        self.brand
    }

    pub fn into_capability(self) -> (capability: MonitorSessionCapability<L, D>)
        ensures
            capability.home() == self.home(),
            capability.thread() == self.thread(),
            capability.branded() == self.branded(),
            capability.held() == self.held(),
    {
        MonitorSessionCapability {
            selected_codex_home: self.selected_codex_home,
            target_thread_id: self.target_thread_id,
            brand: self.brand,
            lifetime: self.lifetime,
        }
    }
}

/// One-shot monitor target: the captured home and the exact thread.
#[must_use]
pub struct MonitorSessionCapability<L, D> {
    selected_codex_home: VerifiedLaunchDirectory<D>,
    target_thread_id: String,
    brand: SessionBrand,
    lifetime: SessionRuntimeGuard<L>,
}

impl<L, D> MonitorSessionCapability<L, D> {
    /// What the session holds as long as this is there.
    pub closed spec fn held(&self) -> L {
        self.lifetime.held()
    }

    pub closed spec fn home(&self) -> VerifiedLaunchDirectory<D> {
        self.selected_codex_home
    }

    pub closed spec fn thread(&self) -> Seq<char> {
        self.target_thread_id@
    }

    pub closed spec fn branded(&self) -> SessionBrand {
        self.brand
    }

    pub fn selected_codex_home(&self) -> (path: &[u8])
        ensures
            path@ == self.home().bytes(),
    {
        self.selected_codex_home.path()
    }

    pub fn target_thread_id(&self) -> (thread: &str)
        ensures
            thread@ == self.thread(),
    {
        self.target_thread_id.as_str()
    }

    pub fn brand(&self) -> (brand: SessionBrand)
        ensures
            brand == self.branded(),
    {
        self.brand
    }

    pub fn revalidate(&self, reading: &DirectoryReading, user: u32) -> (verdict: Result<
        (),
        ProviderLaunchError,
    >)
        ensures
            verdict == self.home().verdict(*reading, user),
    {
        self.selected_codex_home.revalidate(reading, user)
    }

    pub fn redacted(&self) -> (text: &'static str)
        ensures
            text@ == "MonitorSessionCapability(<redacted>)"@,
    {
        "MonitorSessionCapability(<redacted>)"
    }
}

/// One exact, compatibility-proven build, authorized for a single session.
#[must_use]
pub struct PinnedSessionBuild<E, L, D> {
    executable: E,
    lifetime: Arc<SessionLifetime<L>>,
    selected_profile: SelectedProfileLaunch<D>,
    working_directory: VerifiedLaunchDirectory<D>,
    thread_id: String,
    brand: SessionBrand,
    minted_authorities: MintedAuthorities,
}

/// What a command of the staged executable is built from. A TUI command also
/// names the thread.
pub struct CommandArguments {
    pub codex_home: Vec<u8>,
    pub working_directory: Vec<u8>,
    pub socket: String,
    pub thread_id: Option<String>,
}

fn owned_path(path: &[u8]) -> (owned: Vec<u8>)
    ensures
        owned@ == path@,
{
    let mut owned: Vec<u8> = Vec::new();
    owned.extend_from_slice(path);
    owned
}

/// What was read in order to hand the home to the monitor.
pub struct SeedReading<D> {
    pub before: DirectoryReading,
    pub duplicated: Option<OpenedDirectory<D>>,
    pub after: DirectoryReading,
}

/// The launch plan of the App Server, before its command was built.
pub struct AppServerPlan<L, D> {
    arguments: CommandArguments,
    expected_socket_path: Vec<u8>,
    monitor_seed: MonitorSessionSeed<L, D>,
}

impl<L, D> AppServerPlan<L, D> {
    pub closed spec fn spec_arguments(&self) -> CommandArguments {
        self.arguments
    }

    pub closed spec fn socket_path(&self) -> Seq<u8> {
        self.expected_socket_path@
    }

    pub closed spec fn seed(&self) -> MonitorSessionSeed<L, D> {
        self.monitor_seed
    }

    pub fn arguments(&self) -> (arguments: &CommandArguments)
        ensures
            *arguments == self.spec_arguments(),
    {
        &self.arguments
    }

    pub fn brand(&self) -> (brand: SessionBrand)
        ensures
            brand == self.seed().branded(),
    {
        self.monitor_seed.brand
    }
}

/// The App Server's launch plan.
pub struct AppServerCommand<C, L, D> {
    command: C,
    expected_socket_path: Vec<u8>,
    monitor_seed: MonitorSessionSeed<L, D>,
}

impl<C, L, D> AppServerCommand<C, L, D> {
    pub closed spec fn spec_command(&self) -> C {
        self.command
    }

    pub closed spec fn socket_path(&self) -> Seq<u8> {
        self.expected_socket_path@
    }

    pub closed spec fn seed(&self) -> MonitorSessionSeed<L, D> {
        self.monitor_seed
    }

    pub fn command(&self) -> (command: &C)
        ensures
            *command == self.spec_command(),
    {
        &self.command
    }

    pub fn brand(&self) -> (brand: SessionBrand)
        ensures
            brand == self.seed().branded(),
    {
        self.monitor_seed.brand
    }

    pub(crate) fn into_parts(self) -> (parts: (C, Vec<u8>, MonitorSessionSeed<L, D>))
        ensures
            parts.0 == self.spec_command(),
            parts.1@ == self.socket_path(),
            parts.2 == self.seed(),
    {
        (self.command, self.expected_socket_path, self.monitor_seed)
    }

    pub(crate) fn expects(&self, path: &Vec<u8>) -> (same: bool)
        ensures
            same == (components(path@) == components(self.socket_path())),
    {
        same_path(path, &self.expected_socket_path)
    }

    pub fn redacted(&self) -> (text: &'static str)
        ensures
            text@ == "AppServerCommand(<redacted>)"@,
    {
        "AppServerCommand(<redacted>)"
    }
}

/// The launch plan of the remote TUI, before its command was built.
pub struct RemoteTuiPlan<L> {
    arguments: CommandArguments,
    brand: SessionBrand,
    lifetime: SessionRuntimeGuard<L>,
}

impl<L> RemoteTuiPlan<L> {
    pub closed spec fn held(&self) -> L {
        self.lifetime.held()
    }

    pub closed spec fn spec_arguments(&self) -> CommandArguments {
        self.arguments
    }

    pub closed spec fn branded(&self) -> SessionBrand {
        self.brand
    }

    pub fn arguments(&self) -> (arguments: &CommandArguments)
        ensures
            *arguments == self.spec_arguments(),
    {
        &self.arguments
    }

    pub fn brand(&self) -> (brand: SessionBrand)
        ensures
            brand == self.branded(),
    {
        self.brand
    }
}

/// The remote TUI's launch plan.
pub struct RemoteTuiCommand<C, L> {
    command: C,
    brand: SessionBrand,
    lifetime: SessionRuntimeGuard<L>,
}

impl<C, L> RemoteTuiCommand<C, L> {
    pub closed spec fn held(&self) -> L {
        self.lifetime.held()
    }

    pub closed spec fn spec_command(&self) -> C {
        self.command
    }

    pub closed spec fn branded(&self) -> SessionBrand {
        self.brand
    }

    pub fn command(&self) -> (command: &C)
        ensures
            *command == self.spec_command(),
    {
        &self.command
    }

    pub fn redacted(&self) -> (text: &'static str)
        ensures
            text@ == "RemoteTuiCommand(<redacted>)"@,
    {
        "RemoteTuiCommand(<redacted>)"
    }
}

/// One sealed route, branded with the build that it was minted from.
#[must_use]
pub struct ExactRelayPlan<Ro, L> {
    route: Ro,
    brand: SessionBrand,
    lifetime: SessionRuntimeGuard<L>,
}

impl<Ro, L> ExactRelayPlan<Ro, L> {
    pub closed spec fn held(&self) -> L {
        self.lifetime.held()
    }

    pub closed spec fn sealed_route(&self) -> Ro {
        self.route
    }

    pub closed spec fn branded(&self) -> SessionBrand {
        self.brand
    }

    pub fn route(&self) -> (route: &Ro)
        ensures
            *route == self.sealed_route(),
    {
        &self.route
    }

    pub fn brand(&self) -> (brand: SessionBrand)
        ensures
            brand == self.branded(),
    {
        self.brand
    }

    pub(crate) fn into_parts(self) -> (parts: (Ro, SessionBrand, SessionRuntimeGuard<L>))
        ensures
            parts.0 == self.sealed_route(),
            parts.1 == self.branded(),
            parts.2.held() == self.held(),
    {
        (self.route, self.brand, self.lifetime)
    }

    /// Prepares the remote TUI's command against the relay's own address.
    pub fn plan_remote_tui<E, D>(
        &self,
        build: &PinnedSessionBuild<E, L, D>,
        relay_address: &[u8],
        reading: &SessionReading,
        deadline: Moment,
    ) -> (plan: Result<RemoteTuiPlan<L>, ProviderLaunchError>)
        requires
            self.branded() == build.branded(),
        ensures
            match plan {
                Ok(plan) => {
                    &&& addressable(relay_address@)
                    &&& remote_tui_planned(*build, address_of(relay_address@), plan)
                    &&& mint_verdict(*build, TUI_PLAN_MINTED, *reading, deadline) is Ok
                    &&& plan.spec_arguments().codex_home@ == build.home().bytes()
                    &&& plan.spec_arguments().working_directory@ == build.workspace().bytes()
                    &&& plan.spec_arguments().socket@ == "unix://"@ + decode_utf8(relay_address@)
                    &&& plan.spec_arguments().thread_id matches Some(thread) && thread@
                        == build.thread()
                    &&& plan.branded() == self.branded()
                    &&& plan.held() == build.held_lifetime()
                },
                Err(error) => if addressable(relay_address@) {
                    mint_verdict(*build, TUI_PLAN_MINTED, *reading, deadline) == Err::<
                        (),
                        ProviderLaunchError,
                    >(error)
                } else {
                    error == ProviderLaunchError::InvalidArgument
                },
            },
    {
        match VerifiedProviderSocketAddress::from_verified_path(relay_address) {
            Ok(address) => build.plan_remote_tui(&address, reading, deadline),
            Err(error) => Err(error),
        }
    }

    pub fn redacted(&self) -> (text: &'static str)
        ensures
            text@ == "ExactRelayPlan(<redacted>)"@,
    {
        "ExactRelayPlan(<redacted>)"
    }
}

/// The plan is the App Server's plan of this build for a socket, with a monitor
/// target around the duplicated home.
pub open spec fn app_server_planned<E, L, D>(
    build: PinnedSessionBuild<E, L, D>,
    socket: Seq<char>,
    path: Seq<u8>,
    duplicated: D,
    plan: AppServerPlan<L, D>,
) -> bool {
    &&& plan.spec_arguments().codex_home@ == build.home().bytes()
    &&& plan.spec_arguments().working_directory@ == build.workspace().bytes()
    &&& plan.spec_arguments().socket@ == socket
    &&& plan.spec_arguments().thread_id is None
    &&& plan.socket_path() == path
    &&& plan.seed().home().same_directory(&build.home())
    &&& plan.seed().home().pinned() == duplicated
    &&& plan.seed().thread() == build.thread()
    &&& plan.seed().branded() == build.branded()
    &&& plan.seed().held() == build.held_lifetime()
}

/// The plan is the remote TUI's plan of this build for a socket.
pub open spec fn remote_tui_planned<E, L, D>(
    build: PinnedSessionBuild<E, L, D>,
    socket: Seq<char>,
    plan: RemoteTuiPlan<L>,
) -> bool {
    &&& plan.spec_arguments().codex_home@ == build.home().bytes()
    &&& plan.spec_arguments().working_directory@ == build.workspace().bytes()
    &&& plan.spec_arguments().socket@ == socket
    &&& plan.spec_arguments().thread_id matches Some(thread) && thread@ == build.thread()
    &&& plan.branded() == build.branded()
    &&& plan.held() == build.held_lifetime()
}

/// The authorities of a build after one of them was minted.
pub open spec fn minting(before: MintedAuthorities, bit: u8, after: MintedAuthorities) -> bool {
    after.bits() == before.bits() | bit
}

/// A session with so many owners, its build among them, is in nobody else's use.
pub open spec fn sole_owner(owners: usize) -> bool {
    owners == 1
}

/// Whether a plan may be minted now.
pub open spec fn mint_verdict<E, L, D>(
    build: PinnedSessionBuild<E, L, D>,
    bit: u8,
    reading: SessionReading,
    deadline: Moment,
) -> Result<(), ProviderLaunchError> {
    if build.authorities().minted(bit) {
        Err(ProviderLaunchError::AuthorityConsumed)
    } else {
        session_verdict(build.home(), build.workspace(), reading, deadline)
    }
}

/// Whether the App Server's plan may be minted now: its monitor target needs a
/// duplicate of the home on top.
pub open spec fn app_plan_verdict<E, L, D>(
    build: PinnedSessionBuild<E, L, D>,
    reading: SessionReading,
    seed: SeedReading<D>,
    deadline: Moment,
) -> Result<(), ProviderLaunchError> {
    match mint_verdict(build, APP_PLAN_MINTED, reading, deadline) {
        Ok(_) => build.home().duplicate_verdict(
            seed.before,
            seed.duplicated,
            seed.after,
            reading.user,
        ),
        Err(error) => Err(error),
    }
}

impl<E, L, D> PinnedSessionBuild<E, L, D> {
    pub closed spec fn stage(&self) -> E {
        self.executable
    }

    pub closed spec fn held_lifetime(&self) -> L {
        self.lifetime.held()
    }

    pub closed spec fn home(&self) -> VerifiedLaunchDirectory<D> {
        self.selected_profile.home()
    }

    pub closed spec fn workspace(&self) -> VerifiedLaunchDirectory<D> {
        self.working_directory
    }

    pub closed spec fn thread(&self) -> Seq<char> {
        self.thread_id@
    }

    pub closed spec fn branded(&self) -> SessionBrand {
        self.brand
    }

    pub closed spec fn authorities(&self) -> MintedAuthorities {
        self.minted_authorities
    }

    /// The same build, whatever was minted from it since.
    pub open spec fn same_build(&self, other: &Self) -> bool {
        &&& self.stage() == other.stage()
        &&& self.held_lifetime() == other.held_lifetime()
        &&& self.home() == other.home()
        &&& self.workspace() == other.workspace()
        &&& self.thread() == other.thread()
        &&& self.branded() == other.branded()
    }

    /// The build of an authorized session, around its staged executable.
    pub fn from_compatibility(authorization: ProviderLaunchAuthorization<L, D>, executable: E) -> (build:
        Self)
        ensures
            build.stage() == executable,
            build.held_lifetime() == authorization.for_session().held_lease(),
            build.home() == authorization.for_session().inputs().home(),
            build.workspace() == authorization.for_session().inputs().workspace(),
            build.thread() == authorization.for_session().inputs().thread(),
            build.branded() == authorization.for_session().branded(),
            forall|bit: u8| !build.authorities().minted(bit),
    {
        let (lease, spec, brand) = authorization.into_session().into_parts();
        let (selected_profile, working_directory, thread_id) = spec.into_parts();
        PinnedSessionBuild {
            executable,
            lifetime: SessionLifetime::of_lease(lease),
            selected_profile,
            working_directory,
            thread_id,
            brand,
            minted_authorities: MintedAuthorities::none(),
        }
    }

    pub fn thread_id(&self) -> (thread: &str)
        ensures
            thread@ == self.thread(),
    {
        self.thread_id.as_str()
    }

    pub fn brand(&self) -> (brand: SessionBrand)
        ensures
            brand == self.branded(),
    {
        self.brand
    }

    pub fn executable(&self) -> (executable: &E)
        ensures
            *executable == self.stage(),
    {
        &self.executable
    }

    pub fn lease(&self) -> (lease: &L)
        ensures
            *lease == self.held_lifetime(),
    {
        self.lifetime.lease()
    }

    /// Keeps the session for an authority that can outlive a call on the build:
    /// a child, a worker, or the owner of a failure.
    pub fn retain_runtime(&self) -> (guard: SessionRuntimeGuard<L>)
        ensures
            guard.held() == self.held_lifetime(),
    {
        SessionRuntimeGuard::retain(&self.lifetime)
    }

    pub fn codex_home(&self) -> (home: &VerifiedLaunchDirectory<D>)
        ensures
            *home == self.home(),
    {
        self.selected_profile.codex_home()
    }

    pub fn working_directory(&self) -> (workspace: &VerifiedLaunchDirectory<D>)
        ensures
            *workspace == self.workspace(),
    {
        &self.working_directory
    }

    pub fn revalidate_session_inputs(&self, reading: &SessionReading, deadline: Moment) -> (verdict:
        Result<(), ProviderLaunchError>)
        ensures
            verdict == session_verdict(self.home(), self.workspace(), *reading, deadline),
    {
        revalidate_session_inputs(
            self.selected_profile.codex_home(),
            &self.working_directory,
            reading,
            deadline,
        )
    }

    /// The full check at a launch boundary: the inputs, then the staged
    /// executable.
    pub fn revalidate_for_launch(
        &self,
        reading: &SessionReading,
        executable: Result<(), PinnedStageError>,
        deadline: Moment,
    ) -> (verdict: Result<(), ProviderLaunchError>)
        ensures
            verdict == launch_verdict(*self, *reading, executable, deadline),
    {
        if let Err(error) = self.revalidate_session_inputs(reading, deadline) {
            return Err(error);
        }
        match executable {
            Ok(()) => Ok(()),
            Err(error) => Err(ProviderLaunchError::from(error)),
        }
    }

    fn ready_to_mint(&self, bit: u8, reading: &SessionReading, deadline: Moment) -> (verdict: Result<
        (),
        ProviderLaunchError,
    >)
        ensures
            verdict == mint_verdict(*self, bit, *reading, deadline),
    {
        if let Err(error) = self.minted_authorities.ensure_authority_available(bit) {
            return Err(error);
        }
        self.revalidate_session_inputs(reading, deadline)
    }

    fn monitor_session_seed(&self, seed: SeedReading<D>, user: u32) -> (minted: Result<
        MonitorSessionSeed<L, D>,
        ProviderLaunchError,
    >)
        ensures
            match minted {
                Ok(minted) => self.home().duplicate_verdict(
                    seed.before,
                    seed.duplicated,
                    seed.after,
                    user,
                ) is Ok && minted.home().same_directory(&self.home()) && minted.home().pinned()
                    == seed.duplicated->0.descriptor && minted.thread() == self.thread()
                    && minted.branded() == self.branded() && minted.held()
                    == self.held_lifetime(),
                Err(error) => self.home().duplicate_verdict(
                    seed.before,
                    seed.duplicated,
                    seed.after,
                    user,
                ) == Err::<(), ProviderLaunchError>(error),
            },
    {
        match self.selected_profile.codex_home().duplicate(
            &seed.before,
            seed.duplicated,
            &seed.after,
            user,
        ) {
            Ok(selected_codex_home) => Ok(
                MonitorSessionSeed {
                    selected_codex_home,
                    target_thread_id: self.thread_id.clone(),
                    brand: self.brand,
                    lifetime: self.retain_runtime(),
                },
            ),
            Err(error) => Err(error),
        }
    }

    /// Prepares the App Server's launch plan for a socket address.
    pub fn plan_app_server(
        &self,
        socket: &VerifiedProviderSocketAddress,
        reading: &SessionReading,
        seed: SeedReading<D>,
        deadline: Moment,
    ) -> (plan: Result<AppServerPlan<L, D>, ProviderLaunchError>)
        ensures
            match plan {
                Ok(plan) => {
                    &&& app_server_planned(
                        *self,
                        socket.address(),
                        socket.bytes(),
                        seed.duplicated->0.descriptor,
                        plan,
                    )
                    &&& app_plan_verdict(*self, *reading, seed, deadline) is Ok
                    &&& plan.spec_arguments().codex_home@ == self.home().bytes()
                    &&& plan.spec_arguments().working_directory@ == self.workspace().bytes()
                    &&& plan.spec_arguments().socket@ == socket.address()
                    &&& plan.spec_arguments().thread_id is None
                    &&& plan.socket_path() == socket.bytes()
                    &&& plan.seed().home().same_directory(&self.home())
                    &&& plan.seed().home().pinned() == seed.duplicated->0.descriptor
                    &&& plan.seed().thread() == self.thread()
                    &&& plan.seed().branded() == self.branded()
                    &&& plan.seed().held() == self.held_lifetime()
                },
                Err(error) => app_plan_verdict(*self, *reading, seed, deadline) == Err::<
                    (),
                    ProviderLaunchError,
                >(error),
            },
    {
        if let Err(error) = self.ready_to_mint(APP_PLAN_MINTED, reading, deadline) {
            return Err(error);
        }
        let monitor_seed = match self.monitor_session_seed(seed, reading.user) {
            Ok(monitor_seed) => monitor_seed,
            Err(error) => {
                return Err(error);
            },
        };
        Ok(
            AppServerPlan {
                arguments: CommandArguments {
                    codex_home: owned_path(self.selected_profile.codex_home().path()),
                    working_directory: owned_path(self.working_directory.path()),
                    socket: socket.as_str().to_owned(),
                    thread_id: None,
                },
                expected_socket_path: owned_path(socket.path()),
                monitor_seed,
            },
        )
    }

    /// Mints the App Server's launch plan around the command that the staged
    /// executable gave for it. A command that could not be built mints nothing.
    pub fn app_server_command<C>(
        &mut self,
        plan: AppServerPlan<L, D>,
        command: Result<C, PinnedStageError>,
    ) -> (minted: Result<AppServerCommand<C, L, D>, ProviderLaunchError>)
        requires
            plan.seed().branded() == old(self).branded(),
        ensures
            final(self).same_build(old(self)),
            match minted {
                Ok(minted) => {
                    &&& !old(self).authorities().minted(APP_PLAN_MINTED)
                    &&& command == Ok::<C, PinnedStageError>(minted.spec_command())
                    &&& minted.socket_path() == plan.socket_path()
                    &&& minted.seed() == plan.seed()
                    &&& final(self).authorities().bits() == old(self).authorities().bits()
                        | APP_PLAN_MINTED
                    &&& minting(
                        old(self).authorities(),
                        APP_PLAN_MINTED,
                        final(self).authorities(),
                    )
                },
                Err(error) => {
                    &&& final(self).authorities() == old(self).authorities()
                    &&& if old(self).authorities().minted(APP_PLAN_MINTED) {
                        error == ProviderLaunchError::AuthorityConsumed
                    } else {
                        command matches Err(cause) && error == stage_error(cause)
                    }
                },
            },
    {
        if let Err(error) = self.minted_authorities.ensure_authority_available(APP_PLAN_MINTED) {
            return Err(error);
        }
        match command {
            Ok(command) => {
                self.minted_authorities.record_authority_minted(APP_PLAN_MINTED);
                Ok(
                    AppServerCommand {
                        command,
                        expected_socket_path: plan.expected_socket_path,
                        monitor_seed: plan.monitor_seed,
                    },
                )
            },
            Err(error) => Err(ProviderLaunchError::from(error)),
        }
    }

    /// Prepares the remote TUI's launch plan for a socket address.
    pub fn plan_remote_tui(
        &self,
        socket: &VerifiedProviderSocketAddress,
        reading: &SessionReading,
        deadline: Moment,
    ) -> (plan: Result<RemoteTuiPlan<L>, ProviderLaunchError>)
        ensures
            match plan {
                Ok(plan) => {
                    &&& remote_tui_planned(*self, socket.address(), plan)
                    &&& mint_verdict(*self, TUI_PLAN_MINTED, *reading, deadline) is Ok
                    &&& plan.spec_arguments().codex_home@ == self.home().bytes()
                    &&& plan.spec_arguments().working_directory@ == self.workspace().bytes()
                    &&& plan.spec_arguments().socket@ == socket.address()
                    &&& plan.spec_arguments().thread_id matches Some(thread) && thread@
                        == self.thread()
                    &&& plan.branded() == self.branded()
                    &&& plan.held() == self.held_lifetime()
                },
                Err(error) => mint_verdict(*self, TUI_PLAN_MINTED, *reading, deadline) == Err::<
                    (),
                    ProviderLaunchError,
                >(error),
            },
    {
        if let Err(error) = self.ready_to_mint(TUI_PLAN_MINTED, reading, deadline) {
            return Err(error);
        }
        Ok(
            RemoteTuiPlan {
                arguments: CommandArguments {
                    codex_home: owned_path(self.selected_profile.codex_home().path()),
                    working_directory: owned_path(self.working_directory.path()),
                    socket: socket.as_str().to_owned(),
                    thread_id: Some(self.thread_id.clone()),
                },
                brand: self.brand,
                lifetime: self.retain_runtime(),
            },
        )
    }

    /// Mints the remote TUI's launch plan around the command that the staged
    /// executable gave for it. A command that could not be built mints nothing.
    pub fn remote_tui_command<C>(
        &mut self,
        plan: RemoteTuiPlan<L>,
        command: Result<C, PinnedStageError>,
    ) -> (minted: Result<RemoteTuiCommand<C, L>, ProviderLaunchError>)
        requires
            plan.branded() == old(self).branded(),
        ensures
            final(self).same_build(old(self)),
            match minted {
                Ok(minted) => {
                    &&& !old(self).authorities().minted(TUI_PLAN_MINTED)
                    &&& command == Ok::<C, PinnedStageError>(minted.spec_command())
                    &&& minted.branded() == plan.branded()
                    &&& minted.held() == plan.held()
                    &&& final(self).authorities().bits() == old(self).authorities().bits()
                        | TUI_PLAN_MINTED
                    &&& minting(
                        old(self).authorities(),
                        TUI_PLAN_MINTED,
                        final(self).authorities(),
                    )
                },
                Err(error) => {
                    &&& final(self).authorities() == old(self).authorities()
                    &&& if old(self).authorities().minted(TUI_PLAN_MINTED) {
                        error == ProviderLaunchError::AuthorityConsumed
                    } else {
                        command matches Err(cause) && error == stage_error(cause)
                    }
                },
            },
    {
        if let Err(error) = self.minted_authorities.ensure_authority_available(TUI_PLAN_MINTED) {
            return Err(error);
        }
        match command {
            Ok(command) => {
                self.minted_authorities.record_authority_minted(TUI_PLAN_MINTED);
                Ok(RemoteTuiCommand { command, brand: plan.brand, lifetime: plan.lifetime })
            },
            Err(error) => Err(ProviderLaunchError::from(error)),
        }
    }

    /// Mints the monitor's target on its own.
    pub fn monitor_session_capability(
        &mut self,
        reading: &SessionReading,
        seed: SeedReading<D>,
        deadline: Moment,
    ) -> (minted: Result<MonitorSessionCapability<L, D>, ProviderLaunchError>)
        ensures
            final(self).same_build(old(self)),
            match minted {
                Ok(capability) => {
                    &&& mint_verdict(*old(self), MONITOR_CAPABILITY_MINTED, *reading, deadline) is Ok
                    &&& old(self).home().duplicate_verdict(
                        seed.before,
                        seed.duplicated,
                        seed.after,
                        reading.user,
                    ) is Ok
                    &&& capability.home().same_directory(&old(self).home())
                    &&& capability.home().pinned() == seed.duplicated->0.descriptor
                    &&& capability.thread() == old(self).thread()
                    &&& capability.branded() == old(self).branded()
                    &&& capability.held() == old(self).held_lifetime()
                    &&& final(self).authorities().bits() == old(self).authorities().bits()
                        | MONITOR_CAPABILITY_MINTED
                    &&& minting(
                        old(self).authorities(),
                        MONITOR_CAPABILITY_MINTED,
                        final(self).authorities(),
                    )
                },
                Err(error) => {
                    &&& final(self).authorities() == old(self).authorities()
                    &&& match mint_verdict(
                        *old(self),
                        MONITOR_CAPABILITY_MINTED,
                        *reading,
                        deadline,
                    ) {
                        Err(cause) => error == cause,
                        Ok(_) => old(self).home().duplicate_verdict(
                            seed.before,
                            seed.duplicated,
                            seed.after,
                            reading.user,
                        ) == Err::<(), ProviderLaunchError>(error),
                    }
                },
            },
    {
        if let Err(error) = self.ready_to_mint(MONITOR_CAPABILITY_MINTED, reading, deadline) {
            return Err(error);
        }
        match self.monitor_session_seed(seed, reading.user) {
            Ok(seed) => {
                self.minted_authorities.record_authority_minted(MONITOR_CAPABILITY_MINTED);
                Ok(seed.into_capability())
            },
            Err(error) => Err(error),
        }
    }

    /// Brands a sealed route with this build: the only relay plan that it mints.
    pub fn exact_relay_plan<Ro>(
        &mut self,
        route: Ro,
        reading: &SessionReading,
        deadline: Moment,
    ) -> (minted: Result<ExactRelayPlan<Ro, L>, ProviderLaunchError>)
        ensures
            final(self).same_build(old(self)),
            match minted {
                Ok(plan) => {
                    &&& mint_verdict(*old(self), EXACT_RELAY_PLAN_MINTED, *reading, deadline) is Ok
                    &&& plan.sealed_route() == route
                    &&& plan.branded() == old(self).branded()
                    &&& plan.held() == old(self).held_lifetime()
                    &&& final(self).authorities().bits() == old(self).authorities().bits()
                        | EXACT_RELAY_PLAN_MINTED
                    &&& minting(
                        old(self).authorities(),
                        EXACT_RELAY_PLAN_MINTED,
                        final(self).authorities(),
                    )
                },
                Err(error) => {
                    &&& mint_verdict(*old(self), EXACT_RELAY_PLAN_MINTED, *reading, deadline)
                        == Err::<(), ProviderLaunchError>(error)
                    &&& final(self).authorities() == old(self).authorities()
                },
            },
    {
        if let Err(error) = self.ready_to_mint(EXACT_RELAY_PLAN_MINTED, reading, deadline) {
            return Err(error);
        }
        self.minted_authorities.record_authority_minted(EXACT_RELAY_PLAN_MINTED);
        Ok(ExactRelayPlan { route, brand: self.brand, lifetime: self.retain_runtime() })
    }

    /// Prepares the App Server's launch plan for the path of a reservation.
    pub fn plan_app_server_for_reservation(
        &self,
        reservation_path: &[u8],
        reading: &SessionReading,
        seed: SeedReading<D>,
        deadline: Moment,
    ) -> (plan: Result<AppServerPlan<L, D>, ProviderLaunchError>)
        ensures
            match plan {
                Ok(plan) => {
                    &&& addressable(reservation_path@)
                    &&& app_server_planned(
                        *self,
                        address_of(reservation_path@),
                        reservation_path@,
                        seed.duplicated->0.descriptor,
                        plan,
                    )
                    &&& app_plan_verdict(*self, *reading, seed, deadline) is Ok
                    &&& plan.spec_arguments().codex_home@ == self.home().bytes()
                    &&& plan.spec_arguments().working_directory@ == self.workspace().bytes()
                    &&& plan.spec_arguments().socket@ == "unix://"@ + decode_utf8(reservation_path@)
                    &&& plan.spec_arguments().thread_id is None
                    &&& plan.socket_path() == reservation_path@
                    &&& plan.seed().home().same_directory(&self.home())
                    &&& plan.seed().home().pinned() == seed.duplicated->0.descriptor
                    &&& plan.seed().thread() == self.thread()
                    &&& plan.seed().branded() == self.branded()
                    &&& plan.seed().held() == self.held_lifetime()
                },
                Err(error) => if addressable(reservation_path@) {
                    app_plan_verdict(*self, *reading, seed, deadline) == Err::<
                        (),
                        ProviderLaunchError,
                    >(error)
                } else {
                    error == ProviderLaunchError::InvalidArgument
                },
            },
    {
        match VerifiedProviderSocketAddress::from_verified_path(reservation_path) {
            Ok(address) => self.plan_app_server(&address, reading, seed, deadline),
            Err(error) => Err(error),
        }
    }

    pub fn redacted(&self) -> (text: &'static str)
        ensures
            text@ == "PinnedSessionBuild(<redacted>)"@,
    {
        "PinnedSessionBuild(<redacted>)"
    }
}

/// The check at a launch boundary.
pub open spec fn launch_verdict<E, L, D>(
    build: PinnedSessionBuild<E, L, D>,
    reading: SessionReading,
    executable: Result<(), PinnedStageError>,
    deadline: Moment,
) -> Result<(), ProviderLaunchError> {
    match session_verdict(build.home(), build.workspace(), reading, deadline) {
        Err(error) => Err(error),
        Ok(_) => match executable {
            Ok(_) => Ok(()),
            Err(error) => Err(stage_error(error)),
        },
    }
}

/// Takes the outcome of the compatibility proof: the build of the session, or a
/// failure that keeps the launch authority.
pub fn verify_authorized_compatibility<E, L, D, P>(
    authorization: ProviderLaunchAuthorization<L, D>,
    verified: Result<E, CodexHandoffFailure<P>>,
) -> (build: Result<PinnedSessionBuild<E, L, D>, AuthorizedCompatibilityFailure<L, D, P>>)
    ensures
        match (verified, build) {
            (Ok(executable), Ok(build)) => {
                &&& build.stage() == executable
                &&& build.held_lifetime() == authorization.for_session().held_lease()
                &&& build.home() == authorization.for_session().inputs().home()
                &&& build.workspace() == authorization.for_session().inputs().workspace()
                &&& build.thread() == authorization.for_session().inputs().thread()
                &&& build.branded() == authorization.for_session().branded()
                &&& forall|bit: u8| !build.authorities().minted(bit)
            },
            (Err(failure), Err(retained)) => retained.held() == authorization && retained.cause()
                == failure,
            _ => false,
        },
{
    match verified {
        Ok(executable) => Ok(PinnedSessionBuild::from_compatibility(authorization, executable)),
        Err(failure) => Err(AuthorizedCompatibilityFailure::retaining(authorization, failure)),
    }
}

// ---------------------------------------------------------------------------
// Cleanup.
// ---------------------------------------------------------------------------

/// Proof that the stage of a build is gone.
#[derive(Clone, Copy, Debug, PartialEq, Eq)]
pub struct ProviderCleanupComplete {
    private: (),
}

/// A failed cleanup, which keeps the whole build.
#[must_use]
pub struct ProviderCleanupFailure<E, L, D> {
    build: PinnedSessionBuild<E, L, D>,
    error: ProviderLaunchError,
}

impl<E, L, D> ProviderCleanupFailure<E, L, D> {
    pub closed spec fn held(&self) -> PinnedSessionBuild<E, L, D> {
        self.build
    }

    pub closed spec fn spec_error(&self) -> ProviderLaunchError {
        self.error
    }

    pub fn error(&self) -> (error: ProviderLaunchError)
        ensures
            error == self.spec_error(),
    {
        self.error
    }

    pub fn into_build(self) -> (build: PinnedSessionBuild<E, L, D>)
        ensures
            build == self.held(),
    {
        self.build
    }
}

/// A build whose stage is being removed: all of it but the stage.
pub struct CleanupInProgress<L, D> {
    lifetime: Arc<SessionLifetime<L>>,
    selected_profile: SelectedProfileLaunch<D>,
    working_directory: VerifiedLaunchDirectory<D>,
    thread_id: String,
    brand: SessionBrand,
    minted_authorities: MintedAuthorities,
}

impl<L, D> CleanupInProgress<L, D> {
    /// The rest of this very build.
    pub closed spec fn rest_of<E>(&self, build: PinnedSessionBuild<E, L, D>) -> bool {
        &&& self.lifetime.held() == build.held_lifetime()
        &&& self.selected_profile.home() == build.home()
        &&& self.working_directory == build.workspace()
        &&& self.thread_id@ == build.thread()
        &&& self.brand == build.branded()
        &&& self.minted_authorities == build.authorities()
    }

    /// Takes the outcome of the removal. A failed one gives the stage back, and
    /// with it the build that it was taken from.
    pub fn finish<E>(self, removed: Result<(), (E, PinnedStageError)>) -> (finished: Result<
        ProviderCleanupComplete,
        ProviderCleanupFailure<E, L, D>,
    >)
        ensures
            match (removed, finished) {
                (Ok(_), Ok(_)) => true,
                (Err((stage, error)), Err(failure)) => failure.spec_error() == stage_error(error)
                    && failure.held().stage() == stage && self.rest_of(failure.held()),
                _ => false,
            },
    {
        match removed {
            Ok(()) => Ok(ProviderCleanupComplete { private: () }),
            Err((executable, error)) => Err(
                ProviderCleanupFailure {
                    build: PinnedSessionBuild {
                        executable,
                        lifetime: self.lifetime,
                        selected_profile: self.selected_profile,
                        working_directory: self.working_directory,
                        thread_id: self.thread_id,
                        brand: self.brand,
                        minted_authorities: self.minted_authorities,
                    },
                    error: ProviderLaunchError::from(error),
                },
            ),
        }
    }
}

impl<E, L, D> PinnedSessionBuild<E, L, D> {
    /// Begins the cleanup of a build: where it is the last owner of its session,
    /// its stage is to be removed; otherwise the session is in use, and the
    /// build comes back as it was.
    pub fn cleanup(self) -> (begun: Result<
        (E, CleanupInProgress<L, D>),
        ProviderCleanupFailure<E, L, D>,
    >)
        ensures
            match begun {
                Ok((stage, rest)) => stage == self.stage() && rest.rest_of(self),
                Err(failure) => failure.held() == self && failure.spec_error()
                    == ProviderLaunchError::SessionInUse,
            },
    {
        let owners: usize = lifetime_owners(&self.lifetime);
        self.cleanup_among(owners)
    }

    /// Begins the cleanup of a build whose session has so many owners, the
    /// build among them.
    pub fn cleanup_among(self, owners: usize) -> (begun: Result<
        (E, CleanupInProgress<L, D>),
        ProviderCleanupFailure<E, L, D>,
    >)
        ensures
            match begun {
                Ok((stage, rest)) => sole_owner(owners) && stage == self.stage() && rest.rest_of(self),
                Err(failure) => !sole_owner(owners) && failure.held() == self
                    && failure.spec_error() == ProviderLaunchError::SessionInUse,
            },
    {
        if owners != 1 {
            return Err(
                ProviderCleanupFailure { build: self, error: ProviderLaunchError::SessionInUse },
            );
        }
        let PinnedSessionBuild {
            executable,
            lifetime,
            selected_profile,
            working_directory,
            thread_id,
            brand,
            minted_authorities,
        } = self;
        Ok(
            (
                executable,
                CleanupInProgress {
                    lifetime,
                    selected_profile,
                    working_directory,
                    thread_id,
                    brand,
                    minted_authorities,
                },
            ),
        )
    }
}

/// A cleanup that fails gives back the build that it was begun on, unchanged.
pub proof fn law_failed_cleanup_keeps_the_build<E, L, D>(
    rest: CleanupInProgress<L, D>,
    before: PinnedSessionBuild<E, L, D>,
    after: PinnedSessionBuild<E, L, D>,
)
    requires
        rest.rest_of(before),
        rest.rest_of(after),
        after.stage() == before.stage(),
    ensures
        after.same_build(&before),
        after.authorities() == before.authorities(),
{
}

/// A build that could not be staged.
pub struct TestBuildFailure<S> {
    error: ProviderLaunchError,
    retained_stage: Option<S>,
}

impl<S> TestBuildFailure<S> {
    pub closed spec fn spec_error(&self) -> ProviderLaunchError {
        self.error
    }

    pub closed spec fn stage(&self) -> Option<S> {
        self.retained_stage
    }

    pub fn from_provider(error: ProviderLaunchError) -> (failure: Self)
        ensures
            failure.spec_error() == error,
            failure.stage() is None,
    {
        TestBuildFailure { error, retained_stage: None }
    }

    pub fn from_stage(error: PinnedStageError, retained: S) -> (failure: Self)
        ensures
            failure.spec_error() == stage_error(error),
            failure.stage() == Some(retained),
    {
        TestBuildFailure { error: ProviderLaunchError::from(error), retained_stage: Some(retained) }
    }

    pub fn error(&self) -> (error: ProviderLaunchError)
        ensures
            error == self.spec_error(),
    {
        self.error
    }
}

// ---------------------------------------------------------------------------
// Laws.
// ---------------------------------------------------------------------------

/// The four authorities of a build are four different ones, and a build that has
/// minted none can mint each of them.
pub proof fn law_four_authorities_are_apart(authorities: MintedAuthorities)
    requires
        authorities.bits() == 0,
    ensures
        APP_PLAN_MINTED != TUI_PLAN_MINTED,
        APP_PLAN_MINTED != MONITOR_CAPABILITY_MINTED,
        APP_PLAN_MINTED != EXACT_RELAY_PLAN_MINTED,
        TUI_PLAN_MINTED != MONITOR_CAPABILITY_MINTED,
        TUI_PLAN_MINTED != EXACT_RELAY_PLAN_MINTED,
        MONITOR_CAPABILITY_MINTED != EXACT_RELAY_PLAN_MINTED,
        !authorities.minted(APP_PLAN_MINTED),
        !authorities.minted(TUI_PLAN_MINTED),
        !authorities.minted(MONITOR_CAPABILITY_MINTED),
        !authorities.minted(EXACT_RELAY_PLAN_MINTED),
{
    assert(forall|bit: u8| 0u8 & bit == 0) by (bit_vector);
}

/// A plan may be minted exactly if its authority is still there and the inputs
/// of the session pass. An authority that is gone is told before anything that
/// is wrong with the inputs, which are then told as they are.
pub proof fn law_plan_needs_its_authority_and_the_inputs<E, L, D>(
    build: PinnedSessionBuild<E, L, D>,
    bit: u8,
    reading: SessionReading,
    deadline: Moment,
)
    ensures
        ({
            let inputs = session_verdict(build.home(), build.workspace(), reading, deadline);
            let verdict = mint_verdict(build, bit, reading, deadline);
            &&& verdict is Ok <==> !build.authorities().minted(bit) && inputs is Ok
            &&& build.authorities().minted(bit) ==> verdict == Err::<(), ProviderLaunchError>(
                ProviderLaunchError::AuthorityConsumed,
            )
            &&& !build.authorities().minted(bit) ==> verdict == inputs
        }),
{
}

/// An authority that was minted cannot be minted again, whatever is read later,
/// and the other three are as available as before.
pub proof fn law_minted_authority_is_consumed<E, L, D>(
    before: PinnedSessionBuild<E, L, D>,
    after: PinnedSessionBuild<E, L, D>,
    bit: u8,
    other: u8,
    reading: SessionReading,
    deadline: Moment,
)
    requires
        minting(before.authorities(), bit, after.authorities()),
        after.same_build(&before),
        bit == APP_PLAN_MINTED || bit == TUI_PLAN_MINTED || bit == MONITOR_CAPABILITY_MINTED
            || bit == EXACT_RELAY_PLAN_MINTED,
        other == APP_PLAN_MINTED || other == TUI_PLAN_MINTED || other == MONITOR_CAPABILITY_MINTED
            || other == EXACT_RELAY_PLAN_MINTED,
        other != bit,
    ensures
        mint_verdict(after, bit, reading, deadline) == Err::<(), ProviderLaunchError>(
            ProviderLaunchError::AuthorityConsumed,
        ),
        mint_verdict(after, other, reading, deadline) == mint_verdict(
            before,
            other,
            reading,
            deadline,
        ),
{
    law_authorities_are_one_shot(before.authorities(), after.authorities(), bit, other);
}

/// The App Server's plan needs what any plan needs, and a duplicate of the home;
/// what the plan needs is told first.
pub proof fn law_app_server_plan_needs_a_duplicate<E, L, D>(
    build: PinnedSessionBuild<E, L, D>,
    reading: SessionReading,
    seed: SeedReading<D>,
    deadline: Moment,
)
    ensures
        ({
            let plan = mint_verdict(build, APP_PLAN_MINTED, reading, deadline);
            let duplicate = build.home().duplicate_verdict(
                seed.before,
                seed.duplicated,
                seed.after,
                reading.user,
            );
            let verdict = app_plan_verdict(build, reading, seed, deadline);
            &&& verdict is Ok <==> plan is Ok && duplicate is Ok
            &&& plan is Err ==> verdict == plan
            &&& plan is Ok ==> verdict == duplicate
        }),
{
}

/// A launch passes exactly if the inputs and the staged executable do. The
/// inputs are told first, and a stage that failed by the error that it failed
/// with.
pub proof fn law_launch_needs_the_inputs_and_the_stage<E, L, D>(
    build: PinnedSessionBuild<E, L, D>,
    reading: SessionReading,
    executable: Result<(), PinnedStageError>,
    deadline: Moment,
)
    ensures
        ({
            let inputs = session_verdict(build.home(), build.workspace(), reading, deadline);
            let verdict = launch_verdict(build, reading, executable, deadline);
            &&& verdict is Ok <==> inputs is Ok && executable is Ok
            &&& inputs is Err ==> verdict == inputs
            &&& inputs is Ok && executable == Err::<(), PinnedStageError>(PinnedStageError::Storage)
                ==> verdict == Err::<(), ProviderLaunchError>(ProviderLaunchError::Storage)
            &&& inputs is Ok && executable == Err::<(), PinnedStageError>(PinnedStageError::Timeout)
                ==> verdict == Err::<(), ProviderLaunchError>(ProviderLaunchError::Timeout)
            &&& inputs is Ok && executable == Err::<(), PinnedStageError>(
                PinnedStageError::ExecutableChanged,
            ) ==> verdict == Err::<(), ProviderLaunchError>(ProviderLaunchError::ExecutableChanged)
        }),
{
}

/// Both children of a build are launched with the same home and from the same
/// working directory, each against its own socket. The TUI joins the thread that
/// the monitor watches, and both belong to the same session.
pub proof fn law_both_children_are_of_one_session<E, L, D>(
    build: PinnedSessionBuild<E, L, D>,
    app_socket: Seq<char>,
    app_path: Seq<u8>,
    duplicated: D,
    app: AppServerPlan<L, D>,
    tui_socket: Seq<char>,
    tui: RemoteTuiPlan<L>,
)
    requires
        app_server_planned(build, app_socket, app_path, duplicated, app),
        remote_tui_planned(build, tui_socket, tui),
    ensures
        app.spec_arguments().codex_home@ == tui.spec_arguments().codex_home@,
        app.spec_arguments().working_directory@ == tui.spec_arguments().working_directory@,
        app.spec_arguments().codex_home@ == build.home().bytes(),
        app.spec_arguments().working_directory@ == build.workspace().bytes(),
        app.spec_arguments().socket@ == app_socket,
        app.socket_path() == app_path,
        tui.spec_arguments().socket@ == tui_socket,
        app.spec_arguments().thread_id is None,
        tui.spec_arguments().thread_id matches Some(thread) && thread@ == app.seed().thread()
            && thread@ == build.thread(),
        app.seed().branded() == tui.branded() && tui.branded() == build.branded(),
        app.seed().held() == tui.held() && tui.held() == build.held_lifetime(),
        app.seed().home().bytes() == build.home().bytes(),
        app.seed().home().identity() == build.home().identity(),
        app.seed().home().private() == build.home().private(),
        app.seed().home().pinned() == duplicated,
{
}

/// A build is cleaned up only by its last owner.
pub proof fn law_cleanup_is_for_the_last_owner(owners: usize)
    ensures
        owners >= 2 ==> !sole_owner(owners),
        owners >= 1 && !sole_owner(owners) ==> owners >= 2,
{
}

} // verus!
