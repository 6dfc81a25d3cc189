//! One guardian-owned session, from its admission to the verified build.
//!
//! The lease, the two directories, the thread and the brand of a session are
//! minted together and never recombined. Launch authority comes only from the
//! guardian's validator accepting the terminal-arm acknowledgement.
use vstd::prelude::*;
use vstd::string::*;

use crate::process::child::counted;
use crate::protocol::guardian::{GuardianCommandReceiver, GuardianTranscript};
use crate::protocol::lifecycle::TerminalLifecycleState;
use crate::protocol::message::{CoordinatorCommand, ProtocolError};
use crate::provider::directory::{
    identity_of, launchable, still, DirectoryMetadata, LaunchDirectoryCandidate, OpenedDirectory,
    VerifiedLaunchDirectory,
};
use crate::provider::error::ProviderLaunchError;
use crate::provider::path::{components, rooted};
use crate::provider::thread_id::{canonical, validate_thread_id};

verus! {

/// Process-local identity of one session.
#[derive(Clone, Copy, PartialEq, Eq, Structural)]
pub struct SessionBrand(u64);

impl SessionBrand {
    pub closed spec fn number(self) -> u64 {
        self.0
    }

    /// Takes the next brand off a counter. `None`: the counter is exhausted and
    /// no brand may ever be handed out again.
    pub fn next(counter: &mut u64) -> (brand: Option<Self>)
        ensures
            (
                match brand {
                    Some(brand) => Some(brand.number()),
                    None => None,
                },
                *final(counter),
            ) == counted(*old(counter)),
            match brand {
                Some(brand) => brand.number() == *old(counter) && *final(counter) == *old(counter)
                    + 1,
                None => *old(counter) == u64::MAX && *final(counter) == *old(counter),
            },
    {
        let current: u64 = *counter;
        match current.checked_add(1) {
            Some(following) => {
                *counter = following;
                Some(SessionBrand(current))
            },
            None => None,
        }
    }

    pub fn value(self) -> (value: u64)
        ensures
            value == self.number(),
    {
        self.0
    }
}

// ---------------------------------------------------------------------------
// The immutable inputs.
// ---------------------------------------------------------------------------

/// Everything that was read of a directory in order to capture it.
pub struct DirectoryCapture<D> {
    pub path: Vec<u8>,
    pub canonical: Option<Vec<u8>>,
    pub visible: Option<DirectoryMetadata>,
    pub opened: Option<OpenedDirectory<D>>,
}

/// The directory may be captured: absolute, canonical but for the spelling of
/// its separators, launchable, and opened as the very directory that was seen.
pub open spec fn capturable<D>(capture: DirectoryCapture<D>, user: u32, private: bool) -> bool {
    &&& rooted(capture.path@)
    &&& capture.canonical matches Some(canonical) && components(canonical@) == components(
        capture.path@,
    )
    &&& capture.visible matches Some(visible) && launchable(visible, user, private)
    &&& capture.opened matches Some(opened) && opened.acl_is_empty
    &&& capture.opened->0.metadata matches Some(metadata) && still(
        metadata,
        identity_of(capture.visible->0),
        user,
        private,
    )
}

/// The directory that a capture gives, under its canonical path.
pub open spec fn captured<D>(
    directory: VerifiedLaunchDirectory<D>,
    capture: DirectoryCapture<D>,
    private: bool,
) -> bool {
    &&& directory.bytes() == capture.canonical->0@
    &&& directory.identity() == identity_of(capture.visible->0)
    &&& directory.private() == private
    &&& directory.pinned() == capture.opened->0.descriptor
}

pub fn capture_directory<D>(capture: DirectoryCapture<D>, user: u32, private: bool) -> (directory:
    Result<VerifiedLaunchDirectory<D>, ProviderLaunchError>)
    ensures
        directory is Ok <==> capturable(capture, user, private),
        directory matches Ok(directory) ==> captured(directory, capture, private),
        directory matches Err(error) ==> error == ProviderLaunchError::InvalidArgument,
{
    let DirectoryCapture { path, canonical, visible, opened } = capture;
    match LaunchDirectoryCandidate::inspect(path, canonical, visible, user, private) {
        Ok(candidate) => VerifiedLaunchDirectory::capture(candidate, opened, user),
        Err(error) => Err(error),
    }
}

/// The selected profile, as both children see it.
pub struct SelectedProfileLaunch<D> {
    codex_home: VerifiedLaunchDirectory<D>,
}

impl<D> SelectedProfileLaunch<D> {
    pub closed spec fn home(&self) -> VerifiedLaunchDirectory<D> {
        self.codex_home
    }

    pub fn codex_home(&self) -> (home: &VerifiedLaunchDirectory<D>)
        ensures
            *home == self.home(),
    {
        &self.codex_home
    }
}

/// Immutable inputs shared by both provider children.
pub struct VerifiedSessionSpec<D> {
    selected_profile: SelectedProfileLaunch<D>,
    working_directory: VerifiedLaunchDirectory<D>,
    thread_id: String,
}

/// The inputs of a session are acceptable: a private home, a working directory
/// that others cannot write, and a canonical thread.
pub open spec fn session_inputs_valid<D>(
    codex_home: DirectoryCapture<D>,
    working_directory: DirectoryCapture<D>,
    thread_id: Seq<char>,
    user: u32,
) -> bool {
    &&& capturable(codex_home, user, true)
    &&& capturable(working_directory, user, false)
    &&& canonical(thread_id)
}

impl<D> VerifiedSessionSpec<D> {
    pub closed spec fn home(&self) -> VerifiedLaunchDirectory<D> {
        self.selected_profile.home()
    }

    pub closed spec fn workspace(&self) -> VerifiedLaunchDirectory<D> {
        self.working_directory
    }

    pub closed spec fn thread(&self) -> Seq<char> {
        self.thread_id@
    }

    pub fn capture(
        codex_home: DirectoryCapture<D>,
        working_directory: DirectoryCapture<D>,
        thread_id: &str,
        user: u32,
    ) -> (spec: Result<Self, ProviderLaunchError>)
        ensures
            spec is Ok <==> session_inputs_valid(codex_home, working_directory, thread_id@, user),
            spec matches Ok(spec) ==> captured(spec.home(), codex_home, true) && captured(
                spec.workspace(),
                working_directory,
                false,
            ) && spec.thread() == thread_id@,
            spec matches Err(error) ==> error == ProviderLaunchError::InvalidArgument,
    {
        let codex_home = match capture_directory(codex_home, user, true) {
            Ok(codex_home) => codex_home,
            Err(error) => {
                return Err(error);
            },
        };
        let working_directory = match capture_directory(working_directory, user, false) {
            Ok(working_directory) => working_directory,
            Err(error) => {
                return Err(error);
            },
        };
        let thread_id = match validate_thread_id(thread_id) {
            Ok(thread_id) => thread_id,
            Err(error) => {
                return Err(error);
            },
        };
        Ok(
            VerifiedSessionSpec {
                selected_profile: SelectedProfileLaunch { codex_home },
                working_directory,
                thread_id,
            },
        )
    }

    pub(crate) fn into_parts(self) -> (parts: (
        SelectedProfileLaunch<D>,
        VerifiedLaunchDirectory<D>,
        String,
    ))
        ensures
            parts.0.home() == self.home(),
            parts.1 == self.workspace(),
            parts.2@ == self.thread(),
    {
        (self.selected_profile, self.working_directory, self.thread_id)
    }
}

// ---------------------------------------------------------------------------
// Admission.
// ---------------------------------------------------------------------------

/// One guardian-owned immutable session before terminal-arm acceptance.
#[must_use]
pub struct GuardianSessionAuthority<L, D> {
    lease: L,
    spec: VerifiedSessionSpec<D>,
    brand: SessionBrand,
}

impl<L, D> GuardianSessionAuthority<L, D> {
    pub closed spec fn held_lease(&self) -> L {
        self.lease
    }

    pub closed spec fn inputs(&self) -> VerifiedSessionSpec<D> {
        self.spec
    }

    pub closed spec fn branded(&self) -> SessionBrand {
        self.brand
    }

    pub(crate) fn into_parts(self) -> (parts: (L, VerifiedSessionSpec<D>, SessionBrand))
        ensures
            parts == (self.held_lease(), self.inputs(), self.branded()),
    {
        (self.lease, self.spec, self.brand)
    }

    pub fn redacted(&self) -> (text: &'static str)
        ensures
            text@ == "GuardianSessionAuthority(<redacted>)"@,
    {
        "GuardianSessionAuthority(<redacted>)"
    }
}

/// A refused admission, which keeps the lease.
#[must_use]
pub struct GuardianSessionAdmissionFailure<L> {
    guardian_lease: L,
    error: ProviderLaunchError,
}

impl<L> GuardianSessionAdmissionFailure<L> {
    pub closed spec fn held_lease(&self) -> L {
        self.guardian_lease
    }

    pub closed spec fn spec_error(&self) -> ProviderLaunchError {
        self.error
    }

    pub fn error(&self) -> (error: ProviderLaunchError)
        ensures
            error == self.spec_error(),
    {
        self.error
    }

    pub fn into_lease(self) -> (lease: L)
        ensures
            lease == self.held_lease(),
    {
        self.guardian_lease
    }
}

/// Admits one session from the provider lease that the guardian already owns.
/// `selected_home` is `None` where the lease's profile has no home. A brand is
/// taken off the counter only for a session that is admitted.
pub fn admit_guardian_session<L, D>(
    guardian_lease: L,
    selected_home: Option<DirectoryCapture<D>>,
    working_directory: DirectoryCapture<D>,
    thread_id: &str,
    user: u32,
    brands: &mut u64,
) -> (admitted: Result<GuardianSessionAuthority<L, D>, GuardianSessionAdmissionFailure<L>>)
    requires
        *old(brands) < u64::MAX,
    ensures
        admitted is Ok <==> selected_home is Some && session_inputs_valid(
            selected_home->0,
            working_directory,
            thread_id@,
            user,
        ),
        match admitted {
            Ok(session) => {
                &&& session.held_lease() == guardian_lease
                &&& captured(session.inputs().home(), selected_home->0, true)
                &&& captured(session.inputs().workspace(), working_directory, false)
                &&& session.inputs().thread() == thread_id@
                &&& session.branded().number() == *old(brands)
                &&& *final(brands) == *old(brands) + 1
            },
            Err(failure) => {
                &&& failure.held_lease() == guardian_lease
                &&& failure.spec_error() == ProviderLaunchError::InvalidArgument
                &&& *final(brands) == *old(brands)
            },
        },
{
    let selected_home = match selected_home {
        Some(home) => home,
        None => {
            return Err(
                GuardianSessionAdmissionFailure {
                    guardian_lease,
                    error: ProviderLaunchError::InvalidArgument,
                },
            );
        },
    };
    let spec = match VerifiedSessionSpec::capture(
        selected_home,
        working_directory,
        thread_id,
        user,
    ) {
        Ok(spec) => spec,
        Err(error) => {
            return Err(GuardianSessionAdmissionFailure { guardian_lease, error });
        },
    };
    match SessionBrand::next(brands) {
        Some(brand) => Ok(GuardianSessionAuthority { lease: guardian_lease, spec, brand }),
        None => vstd::pervasive::unreached(),
    }
}

// ---------------------------------------------------------------------------
// Launch authority.
// ---------------------------------------------------------------------------

/// Linear authority for everything that happens after the terminal was armed.
pub struct ProviderLaunchAuthorization<L, D> {
    session: GuardianSessionAuthority<L, D>,
}

impl<L, D> ProviderLaunchAuthorization<L, D> {
    pub closed spec fn for_session(&self) -> GuardianSessionAuthority<L, D> {
        self.session
    }

    pub(crate) fn into_session(self) -> (session: GuardianSessionAuthority<L, D>)
        ensures
            session == self.for_session(),
    {
        self.session
    }

    pub fn redacted(&self) -> (text: &'static str)
        ensures
            text@ == "ProviderLaunchAuthorization(<redacted>)"@,
    {
        "ProviderLaunchAuthorization(<redacted>)"
    }
}

/// A refused authorization, which keeps the session.
#[must_use]
pub struct ProviderArmFailure<L, D> {
    session: GuardianSessionAuthority<L, D>,
    error: ProtocolError,
}

impl<L, D> ProviderArmFailure<L, D> {
    pub closed spec fn for_session(&self) -> GuardianSessionAuthority<L, D> {
        self.session
    }

    pub closed spec fn spec_error(&self) -> ProtocolError {
        self.error
    }

    pub fn error(&self) -> (error: ProtocolError)
        ensures
            error == self.spec_error(),
    {
        self.error
    }

    pub fn into_session(self) -> (session: GuardianSessionAuthority<L, D>)
        ensures
            session == self.for_session(),
    {
        self.session
    }
}

/// What the acceptance of one command means for launch authority.
pub open spec fn arm_verdict(received: Result<CoordinatorCommand, ProtocolError>) -> Result<
    (),
    ProtocolError,
> {
    match received {
        Ok(CoordinatorCommand::TerminalArmAccepted) => Ok(()),
        Ok(_) => Err(ProtocolError::UnexpectedState),
        Err(error) => Err(error),
    }
}

/// Takes the outcome of reading one command into the guardian's transcript, and
/// turns the exact terminal-arm acceptance into launch authority.
pub fn accept_provider_launch_authorization<L, D, R>(
    session: GuardianSessionAuthority<L, D>,
    receiver: &mut GuardianCommandReceiver<R>,
    outcome: Result<CoordinatorCommand, ProtocolError>,
) -> (accepted: Result<ProviderLaunchAuthorization<L, D>, ProviderArmFailure<L, D>>)
    ensures
        final(receiver).transcript() == old(receiver).transcript().after_receive(outcome).0,
        final(receiver).channel() == old(receiver).channel(),
        match accepted {
            Ok(authorization) => arm_verdict(old(receiver).transcript().after_receive(outcome).1)
                is Ok && authorization.for_session() == session,
            Err(failure) => arm_verdict(old(receiver).transcript().after_receive(outcome).1)
                == Err::<(), ProtocolError>(failure.spec_error()) && failure.for_session()
                == session,
        },
{
    let command = match receiver.receive(outcome) {
        Ok(command) => command,
        Err(error) => {
            return Err(ProviderArmFailure { session, error });
        },
    };
    match command {
        CoordinatorCommand::TerminalArmAccepted => Ok(ProviderLaunchAuthorization { session }),
        _ => Err(ProviderArmFailure { session, error: ProtocolError::UnexpectedState }),
    }
}

/// Launch authority is minted in exactly one situation: a terminal transcript
/// that is not closed, whose guardian has reported the armed terminal, receives
/// the acceptance. `Start`, or the acceptance at any other time, mints nothing.
pub proof fn law_launch_needs_the_armed_terminal(
    transcript: GuardianTranscript,
    outcome: Result<CoordinatorCommand, ProtocolError>,
)
    ensures
        arm_verdict(transcript.after_receive(outcome).1) is Ok <==> {
            &&& !transcript.closed_to_commands()
            &&& outcome == Ok::<CoordinatorCommand, ProtocolError>(
                CoordinatorCommand::TerminalArmAccepted,
            )
            &&& transcript.terminal matches Some(validator) && validator.after_command(
                CoordinatorCommand::TerminalArmAccepted,
            ) is Ok
        },
        transcript.terminal matches Some(validator) ==> (validator.after_command(
            CoordinatorCommand::TerminalArmAccepted,
        ) is Ok ==> validator.state == TerminalLifecycleState::AwaitTerminalArmAcceptance),
{
}

/// A directory that is given by its canonical absolute path, is seen and opened
/// as one and the same directory of the user without an access list, and whose
/// mode leaves nothing to group and others, can be captured, private or not. One
/// that lets them read can be captured only where it is not private, and one
/// that lets them write not at all.
pub proof fn law_own_directories_can_be_captured<D>(
    capture: DirectoryCapture<D>,
    metadata: DirectoryMetadata,
    user: u32,
)
    requires
        capture.path@.len() > 0,
        capture.path@[0] == 47,
        capture.canonical matches Some(canonical) && canonical@ == capture.path@,
        capture.visible == Some(metadata),
        capture.opened matches Some(opened) && opened.metadata == Some(metadata)
            && opened.acl_is_empty,
        metadata.is_dir,
        metadata.uid == user,
    ensures
        capturable(capture, user, true) <==> metadata.mode % 64 == 0,
        capturable(capture, user, false) <==> (metadata.mode / 16) % 2 == 0 && (metadata.mode / 2)
            % 2 == 0,
{
    crate::provider::directory::law_launchable_directories_are_closed_to_others(metadata, user);
}

/// What was captured was one directory: seen and opened with the same device,
/// inode, owner and mode, of the user, under an absolute path, without an access
/// list.
pub proof fn law_captured_directory_is_one<D>(
    capture: DirectoryCapture<D>,
    user: u32,
    private: bool,
)
    requires
        capturable(capture, user, private),
    ensures
        capture.path@.len() > 0 && capture.path@[0] == 47,
        capture.canonical matches Some(canonical) && components(canonical@) == components(
            capture.path@,
        ),
        capture.visible matches Some(visible) && visible.is_dir && visible.uid == user && (
        capture.opened matches Some(opened) && opened.acl_is_empty && (
        opened.metadata matches Some(metadata) && metadata.is_dir && metadata.device
            == visible.device && metadata.inode == visible.inode && metadata.uid == visible.uid
            && metadata.mode == visible.mode)),
{
}

/// A session is admitted only with a private home and a working directory that
/// others cannot write; neither is judged by the rule of the other, and the
/// thread is judged by itself.
pub proof fn law_home_is_private_and_workspace_is_not_shared<D>(
    home: DirectoryCapture<D>,
    workspace: DirectoryCapture<D>,
    thread_id: Seq<char>,
    user: u32,
)
    ensures
        session_inputs_valid(home, workspace, thread_id, user) <==> capturable(home, user, true)
            && capturable(workspace, user, false) && canonical(thread_id),
        session_inputs_valid(home, workspace, thread_id, user) ==> {
            &&& home.visible matches Some(metadata) && metadata.mode % 64 == 0
            &&& workspace.visible matches Some(metadata) && (metadata.mode / 16) % 2 == 0 && (
            metadata.mode / 2) % 2 == 0
        },
{
    if let Some(metadata) = home.visible {
        crate::provider::directory::law_launchable_directories_are_closed_to_others(metadata, user);
    }
    if let Some(metadata) = workspace.visible {
        crate::provider::directory::law_launchable_directories_are_closed_to_others(metadata, user);
    }
}

// ---------------------------------------------------------------------------
// Compatibility.
// ---------------------------------------------------------------------------

/// The part of a compatibility failure that the provider distinguishes.
#[derive(Clone, Copy, Debug, PartialEq, Eq, Structural)]
pub enum CodexHandoffError {
    Spawn,
    Timeout,
    /// Any other failure, by the number under which its owner finds it again.
    Other { cause: u32 },
}

/// A failed compatibility proof with what it still owns.
pub struct CodexHandoffFailure<P> {
    pub error: CodexHandoffError,
    pub cleanup_error: Option<CodexHandoffError>,
    pub retained: Option<P>,
}

/// A compatibility failure that keeps the launch authority next to whatever the
/// proof itself still owns.
#[must_use]
pub struct AuthorizedCompatibilityFailure<L, D, P> {
    authorization: ProviderLaunchAuthorization<L, D>,
    failure: CodexHandoffFailure<P>,
}

impl<L, D, P> AuthorizedCompatibilityFailure<L, D, P> {
    pub closed spec fn held(&self) -> ProviderLaunchAuthorization<L, D> {
        self.authorization
    }

    pub closed spec fn cause(&self) -> CodexHandoffFailure<P> {
        self.failure
    }

    pub(crate) fn retaining(
        authorization: ProviderLaunchAuthorization<L, D>,
        failure: CodexHandoffFailure<P>,
    ) -> (retained: Self)
        ensures
            retained.held() == authorization,
            retained.cause() == failure,
    {
        AuthorizedCompatibilityFailure { authorization, failure }
    }

    pub fn error(&self) -> (error: CodexHandoffError)
        ensures
            error == self.cause().error,
    {
        self.failure.error
    }

    pub fn has_retained_probe_ownership(&self) -> (retained: bool)
        ensures
            retained == (self.cause().retained is Some),
    {
        self.failure.retained.is_some()
    }

    pub fn cleanup_error(&self) -> (error: Option<CodexHandoffError>)
        ensures
            error == self.cause().cleanup_error,
    {
        self.failure.cleanup_error
    }

    pub fn into_parts(self) -> (parts: (
        ProviderLaunchAuthorization<L, D>,
        CodexHandoffFailure<P>,
    ))
        ensures
            parts == (self.held(), self.cause()),
    {
        (self.authorization, self.failure)
    }
}

/// What the compatibility proof owned is resolved; the launch authority is
/// still held, until it is released in its turn.
#[must_use]
pub struct AuthorizedCompatibilityResolution<L, D> {
    authorization: ProviderLaunchAuthorization<L, D>,
    error: CodexHandoffError,
    cleanup_error: Option<CodexHandoffError>,
}

impl<L, D> AuthorizedCompatibilityResolution<L, D> {
    pub closed spec fn held(&self) -> ProviderLaunchAuthorization<L, D> {
        self.authorization
    }

    pub closed spec fn errors(&self) -> (CodexHandoffError, Option<CodexHandoffError>) {
        (self.error, self.cleanup_error)
    }

    pub fn error(&self) -> (error: CodexHandoffError)
        ensures
            error == self.errors().0,
    {
        self.error
    }

    pub fn cleanup_error(&self) -> (error: Option<CodexHandoffError>)
        ensures
            error == self.errors().1,
    {
        self.cleanup_error
    }

    /// Releases the launch authority, and tells why it was never used.
    pub fn release(self) -> (released: (ProviderLaunchAuthorization<L, D>, CodexHandoffError))
        ensures
            released == (self.held(), self.errors().0),
    {
        (self.authorization, self.error)
    }
}

/// Takes the outcome of resolving what a failed compatibility proof owned. The
/// launch authority stays with the result either way.
pub fn resolve_compatibility<L, D, P>(
    authorization: ProviderLaunchAuthorization<L, D>,
    outcome: Result<(CodexHandoffError, Option<CodexHandoffError>), CodexHandoffFailure<P>>,
) -> (resolved: Result<
    AuthorizedCompatibilityResolution<L, D>,
    AuthorizedCompatibilityFailure<L, D, P>,
>)
    ensures
        match (outcome, resolved) {
            (Ok(errors), Ok(resolution)) => resolution.held() == authorization
                && resolution.errors() == errors,
            (Err(failure), Err(retained)) => retained.held() == authorization && retained.cause()
                == failure,
            _ => false,
        },
{
    match outcome {
        Ok((error, cleanup_error)) => Ok(
            AuthorizedCompatibilityResolution { authorization, error, cleanup_error },
        ),
        Err(failure) => Err(AuthorizedCompatibilityFailure { authorization, failure }),
    }
}

} // verus!
