//! The provider session: admission, launch, adoption, relay and teardown.
use codex_supervisor::clock::Moment;
use codex_supervisor::process::child::{
    ChildAuthority, ChildState, GroupContainmentPolicy, ManagedGroupChild,
};
use codex_supervisor::process::descriptor::ProcessGroupDescriptorScanError;
use codex_supervisor::process::error::ProcessError;
use codex_supervisor::process::observe::{ChildAction, ChildEvent};
use codex_supervisor::process::outcome::{PinnedAppGracefulDrain, TuiShutdownMode};
use codex_supervisor::process::publish::{SpawnReadback, SpawnStep};
use codex_supervisor::process::shutdown::unreaped_children;
use codex_supervisor::process::spawn::SpawnFailure;
use codex_supervisor::process::status::WaitStatus;
use codex_supervisor::protocol::framing::{self, FrameReceiver};
use codex_supervisor::protocol::guardian::GuardianCommandReceiver;
use codex_supervisor::protocol::message::{
    ChildRole, CoordinatorCommand, GuardianEvent, ProtocolError, TerminalSnapshotFingerprint,
};
use codex_supervisor::protocol::transfer::{TransferStep, WireAction, WireEvent};
use codex_supervisor::protocol::wire::COORDINATOR_DIRECTION;
use codex_supervisor::provider::address::VerifiedProviderSocketAddress;
use codex_supervisor::provider::adoption::{
    adopt_socket_inner, connect_monitor, ensure_app_live, pause_for_socket, AdoptedSocket,
    AdoptionPhase, AppServerSession, AppServerSocketAdoptionFailure, AppServerSocketAuthority,
    ConnectPhase, MonitorConnect, SocketAction, SocketAdoption, SocketEvent,
    VerifiedAppDescriptorIsolation,
};
use codex_supervisor::provider::denyset::{append_runtime_guard_descriptors, ForbiddenDescriptor};
use codex_supervisor::provider::directory::{
    launch_directory_identity, DirectoryMetadata, DirectoryReading, OpenedDirectory, SessionReading,
};
use codex_supervisor::provider::error::{
    AppServerLaunchError, AppServerTeardownError, AppServerTopologyError, AppSocketError,
    ExactRelayStartError, PinnedStageError, ProviderLaunchError, ReadinessProxyError,
};
use codex_supervisor::provider::launch::{
    finish_launch_with_reservation, launch_with_reservation, resolve_app_launch_runtime,
    AppServerChild, AppServerLaunchReservationFailure, AppServerLaunchReservationPhase,
    AppServerLaunchRuntimeOwner,
    LaunchCleanupCall, LaunchCleanupOutcome, LaunchCleanupStep, ReservedSocket,
};
use codex_supervisor::provider::path::same_path;
use codex_supervisor::provider::pinned::{
    verify_authorized_compatibility, AppServerCommand, ExactRelayPlan, MintedAuthorities,
    PinnedSessionBuild,
    SeedReading, TestBuildFailure, APP_PLAN_MINTED, EXACT_RELAY_PLAN_MINTED,
    MONITOR_CAPABILITY_MINTED, TUI_PLAN_MINTED,
};
use codex_supervisor::provider::relay::{
    own_exact_relay_plan, ExactRelaySession, ExactRelayStartFailure, ReadinessProxyShutdownFailure,
};
use codex_supervisor::provider::session::{
    accept_provider_launch_authorization, admit_guardian_session, capture_directory,
    resolve_compatibility,
    CodexHandoffError, CodexHandoffFailure, DirectoryCapture, GuardianSessionAuthority,
    ProviderArmFailure, ProviderLaunchAuthorization,
};
use codex_supervisor::provider::teardown::{
    advance_teardown, finish_containment, finish_reservation_teardown, stop_app_server,
    AppServerShutdownComplete, TeardownCall, TeardownOutcome, TeardownOwner, TeardownStep,
};
use codex_supervisor::provider::thread_id::validate_thread_id;

const THREAD_ID: &str = "aaaaaaaa-aaaa-4aaa-8aaa-aaaaaaaaaaaa";
const USER: u32 = 501;
const LEASE: u32 = 77;

fn at(millis: u64) -> Moment {
    Moment { nanos: millis * 1_000_000 }
}

fn expect_err<T, E>(result: Result<T, E>, message: &str) -> E {
    match result {
        Ok(_) => panic!("{message}"),
        Err(error) => error,
    }
}

fn expect_ok<T, E>(result: Result<T, E>, message: &str) -> T {
    match result {
        Ok(value) => value,
        Err(_) => panic!("{message}"),
    }
}

fn directory(inode: u64) -> DirectoryMetadata {
    DirectoryMetadata { is_dir: true, device: 5, inode, uid: USER, mode: 0o40700 }
}

fn capture(path: &str, inode: u64) -> DirectoryCapture<u64> {
    DirectoryCapture {
        path: path.as_bytes().to_vec(),
        canonical: Some(path.as_bytes().to_vec()),
        visible: Some(directory(inode)),
        opened: Some(OpenedDirectory {
            descriptor: inode,
            metadata: Some(directory(inode)),
            acl_is_empty: true,
        }),
    }
}

fn reading(path: &str, inode: u64) -> DirectoryReading {
    DirectoryReading {
        canonical: Some(path.as_bytes().to_vec()),
        visible: Some(directory(inode)),
        opened: Some(directory(inode)),
        acl_is_empty: true,
    }
}

fn session_reading() -> SessionReading {
    SessionReading {
        user: USER,
        before: at(0),
        codex_home: reading("/home", 1),
        working_directory: reading("/work", 2),
        after: at(1),
    }
}

fn seed_reading(path: &str, inode: u64) -> SeedReading<u64> {
    SeedReading {
        before: reading(path, inode),
        duplicated: Some(OpenedDirectory {
            descriptor: inode + 100,
            metadata: Some(directory(inode)),
            acl_is_empty: true,
        }),
        after: reading(path, inode),
    }
}

fn session() -> GuardianSessionAuthority<u32, u64> {
    let mut brands = 1_u64;
    expect_ok(
        admit_guardian_session(
            LEASE,
            Some(capture("/home", 1)),
            capture("/work", 2),
            THREAD_ID,
            USER,
            &mut brands,
        ),
        "valid inputs admit a session",
    )
}

/// Reads one command off a wire of bytes.
fn read_command(wire: &[u8], clock: Moment, deadline: Moment) -> Result<CoordinatorCommand, ProtocolError> {
    let mut frame = FrameReceiver::new(COORDINATOR_DIRECTION, deadline);
    let mut taken = 0_usize;
    let mut action = match frame.step() {
        TransferStep::Next(action) => action,
        TransferStep::Done(_) => panic!("a frame cannot begin done"),
    };
    loop {
        let event = match action {
            WireAction::ReadClock => WireEvent::Clock(clock),
            WireAction::Read { limit } => {
                let count = limit.min(wire.len() - taken);
                let buffer = wire[taken..taken + count].to_vec();
                taken += count;
                WireEvent::Read { buffer, count }
            }
            _ => WireEvent::Yielded,
        };
        match framing::receive_coordinator_command(&mut frame, &event) {
            TransferStep::Next(next) => action = next,
            TransferStep::Done(outcome) => return outcome,
        }
    }
}

fn command_bytes(command: CoordinatorCommand) -> Vec<u8> {
    let sender = expect_ok(
        framing::send_coordinator_command(command, at(1_000)),
        "the command can be written",
    );
    sender.write.remaining().to_vec()
}

/// One receive of the guardian, from the bytes on its wire to launch authority.
fn accept(
    session: GuardianSessionAuthority<u32, u64>,
    receiver: &mut GuardianCommandReceiver<()>,
    wire: &[u8],
    clock: Moment,
    deadline: Moment,
) -> Result<ProviderLaunchAuthorization<u32, u64>, ProviderArmFailure<u32, u64>> {
    let outcome = match receiver.begin_receive(deadline) {
        Ok(_) => read_command(wire, clock, deadline),
        Err(error) => Err(error),
    };
    accept_provider_launch_authorization(session, receiver, outcome)
}

fn launch_authorization() -> ProviderLaunchAuthorization<u32, u64> {
    let mut receiver = GuardianCommandReceiver::new_terminal(());
    assert_eq!(receiver.record_event(GuardianEvent::LeaseCommitted), Ok(()));
    assert_eq!(
        receiver.receive(read_command(
            &command_bytes(CoordinatorCommand::Start),
            at(0),
            at(1_000),
        )),
        Ok(CoordinatorCommand::Start)
    );
    assert_eq!(
        receiver.record_event(GuardianEvent::TerminalArmed {
            snapshot: TerminalSnapshotFingerprint::from_digest([0x5a; 32]),
        }),
        Ok(())
    );
    expect_ok(
        accept(
            session(),
            &mut receiver,
            &command_bytes(CoordinatorCommand::TerminalArmAccepted),
            at(0),
            at(1_000),
        ),
        "the accepted terminal arm is launch authority",
    )
}

type Build = PinnedSessionBuild<&'static str, u32, u64>;

/// Something still holds the session of this build.
fn in_use(build: Build, message: &str) -> Build {
    let failure = expect_err(build.cleanup(), message);
    assert_eq!(failure.error(), ProviderLaunchError::SessionInUse);
    failure.into_build()
}

/// Nothing else holds the session of this build any more.
fn clean(build: Build) {
    let (stage, rest) = expect_ok(build.cleanup(), "nobody else holds the session");
    assert_eq!(stage, "stage");
    assert!(rest.finish::<&str>(Ok(())).is_ok());
}

fn pinned() -> Build {
    expect_ok(
        verify_authorized_compatibility::<_, _, _, ()>(launch_authorization(), Ok("stage")),
        "a compatible executable is pinned",
    )
}

fn app_socket() -> VerifiedProviderSocketAddress {
    expect_ok(
        VerifiedProviderSocketAddress::from_verified_path(b"/run/app.sock"),
        "the path is short and clean",
    )
}

fn app_command(build: &mut Build) -> AppServerCommand<&'static str, u32, u64> {
    let plan = expect_ok(
        build.plan_app_server(&app_socket(), &session_reading(), seed_reading("/home", 1), at(1_000)),
        "the first plan may be minted",
    );
    assert_eq!(plan.arguments().codex_home, b"/home");
    assert_eq!(plan.arguments().working_directory, b"/work");
    assert_eq!(plan.arguments().socket, "unix:///run/app.sock");
    assert!(plan.arguments().thread_id.is_none());
    expect_ok(build.app_server_command(plan, Ok("app-server")), "the command was built")
}

fn relay_plan(build: &mut Build) -> ExactRelayPlan<&'static str, u32> {
    expect_ok(
        build.exact_relay_plan("route", &session_reading(), at(1_000)),
        "the relay is free",
    )
}

fn app_state(pid: i32) -> ChildState {
    ChildState::publish(
        ChildRole::AppServer,
        ChildAuthority::for_test(pid as u64),
        pid,
        false,
        GroupContainmentPolicy::ProductionStrict,
    )
}

type Launch = Result<
    (&'static str, codex_supervisor::provider::launch::AppServerLaunch<u32, u64>, &'static str),
    AppServerLaunchReservationFailure<u8, u32, &'static str, &'static str, &'static str, &'static str, u8>,
>;

fn begin_launch(
    build: &mut Build,
    path: &str,
    unbound: bool,
    executable: Result<(), PinnedStageError>,
) -> Launch {
    let command = app_command(build);
    launch_with_reservation(
        command,
        ReservedSocket {
            reservation: "reservation",
            path: path.as_bytes().to_vec(),
            unbound_from_app_child: unbound,
        },
        build,
        &session_reading(),
        executable,
        at(1_000),
    )
}

fn launched_child(build: &mut Build) -> AppServerChild<u8, u32, u64> {
    let (command, launch, reservation) = expect_ok(
        begin_launch(build, "/run/app.sock", true, Ok(())),
        "nothing speaks against the launch",
    );
    assert_eq!((command, reservation), ("app-server", "reservation"));
    let launched: Result<
        (AppServerChild<u8, u32, u64>, &str),
        AppServerLaunchReservationFailure<u8, u32, &str, &str, &str, &str, u8>,
    > = finish_launch_with_reservation(
        launch,
        reservation,
        Ok(ManagedGroupChild { handle: 3_u8, state: app_state(50) }),
    );
    expect_ok(launched, "the child was published").0
}

// ---------------------------------------------------------------------------
// Admission and authority.
// ---------------------------------------------------------------------------

#[test]
fn launch_authorization_requires_validated_terminal_arm_acceptance() {
    let mut start_only = GuardianCommandReceiver::new_terminal(());
    assert_eq!(start_only.record_event(GuardianEvent::LeaseCommitted), Ok(()));
    let start_failure = expect_err(
        accept(
            session(),
            &mut start_only,
            &command_bytes(CoordinatorCommand::Start),
            at(0),
            at(1_000),
        ),
        "START alone must not mint provider launch authority",
    );
    assert_eq!(start_failure.error(), ProtocolError::UnexpectedState);
    drop(start_failure.into_session());

    let mut wrong_order = GuardianCommandReceiver::new_terminal(());
    assert_eq!(wrong_order.record_event(GuardianEvent::LeaseCommitted), Ok(()));
    let wrong_order_failure = expect_err(
        accept(
            session(),
            &mut wrong_order,
            &command_bytes(CoordinatorCommand::TerminalArmAccepted),
            at(0),
            at(1_000),
        ),
        "the validator's wrong-order path must mint nothing",
    );
    assert_eq!(wrong_order_failure.error(), ProtocolError::UnexpectedState);
    drop(wrong_order_failure.into_session());

    let mut timeout = GuardianCommandReceiver::new_terminal(());
    assert_eq!(timeout.record_event(GuardianEvent::LeaseCommitted), Ok(()));
    let timeout_failure = expect_err(
        accept(session(), &mut timeout, &[], at(5), at(5)),
        "the validator's timeout path must mint nothing",
    );
    assert_eq!(timeout_failure.error(), ProtocolError::Timeout);
    drop(timeout_failure.into_session());

    assert!(launch_authorization().redacted().contains("<redacted>"));
}

#[test]
fn authorized_compatibility_failure_returns_post_arm_authority() {
    let authorization = launch_authorization();
    let failure = expect_err(
        verify_authorized_compatibility::<&str, _, _, ()>(
            authorization,
            Err(CodexHandoffFailure {
                error: CodexHandoffError::Spawn,
                cleanup_error: None,
                retained: None,
            }),
        ),
        "a missing executable must fail after consuming post-arm authority",
    );
    assert_eq!(failure.error(), CodexHandoffError::Spawn);
    assert_eq!(failure.cleanup_error(), None);
    assert!(!failure.has_retained_probe_ownership());
    let (authorization, probe_failure) = failure.into_parts();
    assert_eq!(authorization.redacted(), "ProviderLaunchAuthorization(<redacted>)");
    assert!(probe_failure.retained.is_none());
}

#[test]
fn a_compatibility_resolution_keeps_the_authority_until_it_is_released() {
    let retained = expect_err(
        resolve_compatibility(
            launch_authorization(),
            Err(CodexHandoffFailure {
                error: CodexHandoffError::Timeout,
                cleanup_error: Some(CodexHandoffError::Other { cause: 7 }),
                retained: Some("probe"),
            }),
        ),
        "what is still owned is not resolved",
    );
    assert!(retained.has_retained_probe_ownership());
    assert_eq!(retained.cleanup_error(), Some(CodexHandoffError::Other { cause: 7 }));
    let (authorization, _) = retained.into_parts();
    let resolution = expect_ok(
        resolve_compatibility::<_, _, ()>(
            authorization,
            Ok((CodexHandoffError::Timeout, Some(CodexHandoffError::Other { cause: 7 }))),
        ),
        "a resolved probe leaves the authority",
    );
    assert_eq!(resolution.error(), CodexHandoffError::Timeout);
    assert_eq!(resolution.cleanup_error(), Some(CodexHandoffError::Other { cause: 7 }));
    let (authorization, error) = resolution.release();
    assert_eq!(error, CodexHandoffError::Timeout);
    assert_eq!(authorization.redacted(), "ProviderLaunchAuthorization(<redacted>)");
}

#[test]
fn invalid_session_inputs_fail_before_executable_pinning() {
    let mut brands = 4_u64;
    let refused: Vec<(Option<DirectoryCapture<u64>>, DirectoryCapture<u64>, &str)> = vec![
        (None, capture("/work", 2), THREAD_ID),
        (Some(capture("relative-home", 1)), capture("/work", 2), THREAD_ID),
        (Some(capture("", 1)), capture("/work", 2), THREAD_ID),
        (
            Some(DirectoryCapture {
                canonical: Some(b"/elsewhere".to_vec()),
                ..capture("/home", 1)
            }),
            capture("/work", 2),
            THREAD_ID,
        ),
        (
            Some(DirectoryCapture { canonical: None, ..capture("/home", 1) }),
            capture("/work", 2),
            THREAD_ID,
        ),
        (
            Some(DirectoryCapture { visible: Some(directory(8)), ..capture("/home", 1) }),
            capture("/work", 2),
            THREAD_ID,
        ),
        (
            Some(DirectoryCapture { opened: None, ..capture("/home", 1) }),
            capture("/work", 2),
            THREAD_ID,
        ),
        (Some(capture("/home", 1)), capture("work", 2), THREAD_ID),
        (Some(capture("/home", 1)), capture("/work", 2), "not-a-thread"),
        (
            Some(capture("/home", 1)),
            capture("/work", 2),
            "AAAAAAAA-AAAA-4AAA-8AAA-AAAAAAAAAAAA",
        ),
    ];
    for (home, work, thread) in refused {
        let failure = expect_err(
            admit_guardian_session(LEASE, home, work, thread, USER, &mut brands),
            "invalid session inputs minted guardian authority",
        );
        assert_eq!(failure.error(), ProviderLaunchError::InvalidArgument);
        assert_eq!(failure.into_lease(), LEASE);
    }
    assert_eq!(brands, 4);
}

#[test]
fn paths_are_the_same_by_their_components() {
    let spellings = [
        "", "/", "//", "/.", ".", "./", "..", "/..", "a", "./a", "a/", "a/.", "a//", "./a/.",
        "/a", "//a", "/a/", "/./a", "/a/.", "/a/./", "/a/b", "/a//b", "/a/./b", "/a/../b", "a/b",
        "/a/b/", "/.a", "/a.", "/...", "/a/..", "a/./b", ".a", "./.", "././a",
    ];
    for left in spellings {
        for right in spellings {
            assert_eq!(
                same_path(&left.as_bytes().to_vec(), &right.as_bytes().to_vec()),
                std::path::Path::new(left) == std::path::Path::new(right),
                "{left:?} and {right:?}",
            );
        }
    }
}

#[test]
fn a_directory_is_captured_under_its_canonical_path() {
    let mut brands = 1_u64;
    for home in ["/a/b/", "//a//b", "/a/./b", "/a/b/."] {
        let home = DirectoryCapture {
            canonical: Some(b"/a/b".to_vec()),
            ..capture(home, 1)
        };
        let session = expect_ok(
            admit_guardian_session(
                LEASE,
                Some(home),
                capture("/work", 2),
                THREAD_ID,
                USER,
                &mut brands,
            ),
            "only the separators are spelled otherwise",
        );
        drop(session);
    }
    let captured = expect_ok(
        capture_directory(
            DirectoryCapture { canonical: Some(b"/a/b".to_vec()), ..capture("/a//b/", 1) },
            USER,
            true,
        ),
        "only the separators are spelled otherwise",
    );
    assert_eq!(captured.path(), b"/a/b");
    assert_eq!(captured.revalidate(&reading("/a/b", 1), USER), Ok(()));
    assert_eq!(
        captured.revalidate(&reading("/a/c", 1), USER),
        Err(ProviderLaunchError::SessionChanged)
    );
}

#[test]
fn a_launch_spawns_a_strict_app_server() {
    let readback = SpawnReadback {
        pid: 61,
        process_group: Ok(61),
        parent_liveness_wanted: true,
        parent_liveness_open: false,
        readiness_wanted: true,
        readiness_open: false,
    };
    let (_, launch, reservation) = expect_ok(
        begin_launch(&mut pinned(), "/run//app.sock", true, Ok(())),
        "only the separators are spelled otherwise",
    );
    let mut authorities = 5_u64;
    let stray = SpawnReadback { process_group: Ok(1), ..readback };
    match launch.spawn(Some((4_u8, stray)), &mut authorities, at(0)) {
        SpawnStep::Cleanup { cleanup, error } => {
            assert_eq!(
                error,
                ProcessError::ProcessGroupMismatch { role: ChildRole::AppServer }
            );
            assert_eq!(
                cleanup.failure.child.map(|child| child.containment_policy),
                Some(GroupContainmentPolicy::ProductionStrict)
            );
        }
        _ => panic!("a child of another group must be cleaned up"),
    }
    let child = match launch.spawn(Some((4_u8, readback)), &mut authorities, at(0)) {
        SpawnStep::Published(child) => child,
        _ => panic!("the App Server asks for no channel"),
    };
    assert_eq!(authorities, 6);
    assert_eq!(child.state.role, ChildRole::AppServer);
    assert_eq!(child.state.containment_policy, GroupContainmentPolicy::ProductionStrict);
    assert!(!child.state.readiness_open);
    let launched: Result<
        (AppServerChild<u8, u32, u64>, &str),
        AppServerLaunchReservationFailure<u8, u32, &str, &str, &str, &str, u8>,
    > = finish_launch_with_reservation(launch, reservation, Ok(child));
    let (child, _) = expect_ok(launched, "the child was published");
    assert_eq!(child.expected_socket_path, b"/run/app.sock");
}

#[test]
fn an_extended_access_list_refuses_a_capture_and_a_later_look() {
    let mut brands = 1_u64;
    let mut home = capture("/home", 1);
    if let Some(opened) = home.opened.as_mut() {
        opened.acl_is_empty = false;
    }
    assert_eq!(
        expect_err(
            admit_guardian_session(LEASE, Some(home), capture("/work", 2), THREAD_ID, USER, &mut brands),
            "an extended access list must be refused",
        )
        .error(),
        ProviderLaunchError::InvalidArgument
    );
    let build = pinned();
    let changed = DirectoryReading { acl_is_empty: false, ..reading("/home", 1) };
    assert_eq!(
        build.codex_home().revalidate(&changed, USER),
        Err(ProviderLaunchError::SessionChanged)
    );
    assert_eq!(build.codex_home().revalidate(&reading("/home", 1), USER), Ok(()));
}

#[test]
fn only_post_terminal_arm_authorization_can_pin_a_session_build() {
    let build = pinned();
    assert_eq!(build.redacted(), "PinnedSessionBuild(<redacted>)");
    assert_eq!(*build.executable(), "stage");
    assert_eq!(*build.lease(), LEASE);
    assert_eq!(build.thread_id(), THREAD_ID);
    assert_eq!(build.brand().value(), 1);
    assert_eq!(build.codex_home().path(), b"/home");
    assert_eq!(build.working_directory().path(), b"/work");
    assert_eq!(*build.working_directory().descriptor(), 2);
}

// ---------------------------------------------------------------------------
// Threads, addresses, directories.
// ---------------------------------------------------------------------------

#[test]
fn only_the_canonical_thread_spelling_is_accepted() {
    for accepted in [
        THREAD_ID,
        "00000000-0000-0000-0000-000000000000",
        "0123abcd-ef45-6789-0abc-def012345678",
        "ffffffff-ffff-ffff-ffff-ffffffffffff",
    ] {
        assert_eq!(validate_thread_id(accepted), Ok(accepted.to_owned()));
    }
    for refused in [
        "",
        "aaaaaaaaaaaa4aaa8aaaaaaaaaaaaaaa",
        "{aaaaaaaa-aaaa-4aaa-8aaa-aaaaaaaaaaaa}",
        "urn:uuid:aaaaaaaa-aaaa-4aaa-8aaa-aaaaaaaaaaaa",
        "AAAAAAAA-aaaa-4aaa-8aaa-aaaaaaaaaaaa",
        "aaaaaaaa-aaaa-4aaa-8aaa-aaaaaaaaaaag",
        "aaaaaaaa_aaaa_4aaa_8aaa_aaaaaaaaaaaa",
        "aaaaaaaa-aaaa-4aaa-8aaa-aaaaaaaaaaaa ",
        "aaaaaaaa-aaaa-4aaa-8aaa-aaaaaaaaaa\u{e9}",
    ] {
        assert_eq!(validate_thread_id(refused), Err(ProviderLaunchError::InvalidArgument));
    }
}

#[test]
fn socket_address_enforces_portable_unix_path_limits() {
    let exact = format!("/{}", "a".repeat(102)).into_bytes();
    let overlong = format!("/{}", "a".repeat(103)).into_bytes();

    assert_eq!(exact.len(), 103);
    assert!(VerifiedProviderSocketAddress::for_test(&exact).is_ok());
    assert!(matches!(
        VerifiedProviderSocketAddress::for_test(&overlong),
        Err(ProviderLaunchError::InvalidArgument)
    ));

    for invalid in [
        b"relative.sock".to_vec(),
        b"/tmp/control\nsock".to_vec(),
        b"/tmp/nul\0sock".to_vec(),
        vec![b'/', 0xff],
        Vec::new(),
        "/tmp/\u{85}".as_bytes().to_vec(),
        vec![b'/', 0x7f],
    ] {
        assert!(matches!(
            VerifiedProviderSocketAddress::for_test(&invalid),
            Err(ProviderLaunchError::InvalidArgument)
        ));
    }
    let accented = expect_ok(
        VerifiedProviderSocketAddress::for_test("/tmp/\u{e9}\u{a0}".as_bytes()),
        "text beyond ASCII is accepted",
    );
    assert_eq!(accented.as_str(), "unix:///tmp/\u{e9}\u{a0}");
    assert_eq!(accented.path(), "/tmp/\u{e9}\u{a0}".as_bytes());
    assert_eq!(accented.redacted(), "VerifiedProviderSocketAddress(<redacted>)");
}

#[test]
fn directory_modes_and_owners_are_strict() {
    let base = directory(1);
    for (metadata, private, accepted) in [
        (base, true, true),
        (base, false, true),
        (DirectoryMetadata { mode: 0o40755, ..base }, true, false),
        (DirectoryMetadata { mode: 0o40755, ..base }, false, true),
        (DirectoryMetadata { mode: 0o40775, ..base }, false, false),
        (DirectoryMetadata { mode: 0o40702, ..base }, false, false),
        (DirectoryMetadata { mode: 0o40701, ..base }, true, false),
        (DirectoryMetadata { is_dir: false, ..base }, true, false),
        (DirectoryMetadata { uid: USER + 1, ..base }, true, false),
    ] {
        assert_eq!(launch_directory_identity(&metadata, USER, private).is_ok(), accepted);
    }
}

#[test]
fn a_changed_directory_is_told_apart_from_unreadable_storage() {
    let build = pinned();
    let home = build.codex_home();
    let unchanged = || reading("/home", 1);
    for (changed, error) in [
        (DirectoryReading { canonical: None, ..unchanged() }, ProviderLaunchError::SessionChanged),
        (
            DirectoryReading { canonical: Some(b"/hom".to_vec()), ..unchanged() },
            ProviderLaunchError::SessionChanged,
        ),
        (DirectoryReading { visible: None, ..unchanged() }, ProviderLaunchError::SessionChanged),
        (
            DirectoryReading { visible: None, opened: None, ..unchanged() },
            ProviderLaunchError::SessionChanged,
        ),
        (DirectoryReading { opened: None, ..unchanged() }, ProviderLaunchError::Storage),
        (
            DirectoryReading { visible: Some(directory(9)), ..unchanged() },
            ProviderLaunchError::SessionChanged,
        ),
        (
            DirectoryReading {
                opened: Some(DirectoryMetadata { mode: 0o40500, ..directory(1) }),
                ..unchanged()
            },
            ProviderLaunchError::SessionChanged,
        ),
    ] {
        assert_eq!(home.revalidate(&changed, USER), Err(error));
    }
    let copy = expect_ok(
        home.duplicate(
            &unchanged(),
            Some(OpenedDirectory {
                descriptor: 40,
                metadata: Some(directory(1)),
                acl_is_empty: true,
            }),
            &unchanged(),
            USER,
        ),
        "an unchanged directory can be duplicated",
    );
    assert_eq!((copy.path(), *copy.descriptor()), (b"/home".as_slice(), 40));
    assert!(matches!(
        home.duplicate(&unchanged(), None, &unchanged(), USER),
        Err(ProviderLaunchError::Storage)
    ));
    assert!(matches!(
        home.duplicate(
            &unchanged(),
            Some(OpenedDirectory {
                descriptor: 40,
                metadata: Some(directory(2)),
                acl_is_empty: true,
            }),
            &unchanged(),
            USER,
        ),
        Err(ProviderLaunchError::SessionChanged)
    ));
}

// ---------------------------------------------------------------------------
// Plans.
// ---------------------------------------------------------------------------

#[test]
fn command_plans_and_monitor_share_one_immutable_branded_session() {
    let mut build = pinned();
    let app = app_command(&mut build);
    assert_eq!(app.brand().value(), build.brand().value());
    assert!(matches!(
        build.plan_app_server(&app_socket(), &session_reading(), seed_reading("/home", 1), at(1_000)),
        Err(ProviderLaunchError::AuthorityConsumed)
    ));

    assert!(matches!(
        build.plan_app_server_for_reservation(
            b"relative",
            &session_reading(),
            seed_reading("/home", 1),
            at(1_000),
        ),
        Err(ProviderLaunchError::InvalidArgument)
    ));
    let tui_socket = expect_ok(
        VerifiedProviderSocketAddress::from_verified_path(b"/run/tui.sock"),
        "the path is short and clean",
    );
    let plan_tui = |build: &Build| {
        expect_ok(
            build.plan_remote_tui(&tui_socket, &session_reading(), at(1_000)),
            "the TUI plan is still there",
        )
    };
    let plan = plan_tui(&build);
    let second_plan = plan_tui(&build);
    assert_eq!(plan.arguments().socket, "unix:///run/tui.sock");
    assert_eq!(plan.arguments().thread_id.as_deref(), Some(THREAD_ID));
    assert_eq!(plan.brand().value(), build.brand().value());
    let remote = expect_ok(build.remote_tui_command(plan, Ok("tui")), "the command was built");
    assert_eq!(*remote.command(), "tui");
    assert!(matches!(
        build.remote_tui_command(second_plan, Ok("tui")),
        Err(ProviderLaunchError::AuthorityConsumed)
    ));

    let monitor = expect_ok(
        build.monitor_session_capability(&session_reading(), seed_reading("/home", 1), at(1_000)),
        "the monitor's target is still there",
    );
    assert_eq!(monitor.selected_codex_home(), b"/home");
    assert_eq!(monitor.target_thread_id(), THREAD_ID);
    assert_eq!(monitor.brand().value(), build.brand().value());
    assert_eq!(monitor.revalidate(&reading("/home", 1), USER), Ok(()));
    assert_eq!(monitor.redacted(), "MonitorSessionCapability(<redacted>)");
    assert!(matches!(
        build.monitor_session_capability(&session_reading(), seed_reading("/home", 1), at(1_000)),
        Err(ProviderLaunchError::AuthorityConsumed)
    ));

    let plan = relay_plan(&mut build);
    assert_eq!(plan.brand().value(), build.brand().value());
    assert_eq!(plan.redacted(), "ExactRelayPlan(<redacted>)");
    assert!(matches!(
        plan.plan_remote_tui(&build, b"/run/tui.sock", &session_reading(), at(1_000)),
        Err(ProviderLaunchError::AuthorityConsumed)
    ));
    assert!(matches!(
        plan.plan_remote_tui(&build, b"tui.sock", &session_reading(), at(1_000)),
        Err(ProviderLaunchError::InvalidArgument)
    ));
    assert!(matches!(
        build.exact_relay_plan("route", &session_reading(), at(1_000)),
        Err(ProviderLaunchError::AuthorityConsumed)
    ));

    drop((app, remote, plan));
    let build = in_use(build, "a live monitor guard allowed build and lease cleanup");
    drop(monitor);
    clean(build);
}

#[test]
fn every_authority_of_a_session_keeps_it_in_use() {
    let mut build = pinned();
    let app = app_command(&mut build);
    let build = in_use(build, "an App Server plan holds the session");
    drop(app);

    let tui_plan = expect_ok(
        build.plan_remote_tui(&app_socket(), &session_reading(), at(1_000)),
        "the TUI plan is still there",
    );
    let mut build = in_use(build, "a TUI plan holds the session");
    let tui = expect_ok(build.remote_tui_command(tui_plan, Ok("tui")), "the command was built");
    let mut build = in_use(build, "a TUI command holds the session");
    drop(tui);

    let relay = relay_plan(&mut build);
    let build = in_use(build, "a relay plan holds the session");
    drop(relay);

    let guard = build.retain_runtime();
    assert_eq!(guard.lease(), &LEASE);
    assert_eq!(guard.redacted(), "SessionRuntimeGuard(<redacted>)");
    let build = in_use(build, "a guard holds the session");
    drop(guard);
    assert_eq!(build.lease(), &LEASE);
    clean(build);
}

#[test]
fn forgotten_runtime_authority_cannot_release_the_session_lease() {
    let build = pinned();
    std::mem::forget(build.retain_runtime());
    let failure = expect_err(build.cleanup(), "forgotten live authority released its lease");
    assert_eq!(failure.error(), ProviderLaunchError::SessionInUse);
}

#[test]
fn a_cleanup_needs_the_build_to_be_the_only_owner() {
    for owners in [0, 2, 3, usize::MAX] {
        let failure = expect_err(pinned().cleanup_among(owners), "somebody else is there");
        assert_eq!(failure.error(), ProviderLaunchError::SessionInUse);
    }
    assert!(pinned().cleanup_among(1).is_ok());
}

#[test]
fn a_failed_command_consumes_no_authority() {
    let mut build = pinned();
    for (stage, launch) in [
        (PinnedStageError::ExecutableChanged, ProviderLaunchError::ExecutableChanged),
        (PinnedStageError::Storage, ProviderLaunchError::Storage),
        (PinnedStageError::Timeout, ProviderLaunchError::Timeout),
    ] {
        let plan = expect_ok(
            build.plan_app_server(
                &app_socket(),
                &session_reading(),
                seed_reading("/home", 1),
                at(1_000),
            ),
            "nothing was minted yet",
        );
        assert!(matches!(
            build.app_server_command::<&str>(plan, Err(stage)),
            Err(error) if error == launch
        ));
        let plan = expect_ok(
            build.plan_remote_tui(&app_socket(), &session_reading(), at(1_000)),
            "nothing was minted yet",
        );
        assert!(matches!(
            build.remote_tui_command::<&str>(plan, Err(stage)),
            Err(error) if error == launch
        ));
    }
    let _command = app_command(&mut build);
}

#[test]
fn late_or_changed_inputs_mint_nothing() {
    let mut build = pinned();
    let late = SessionReading { before: at(1_000), ..session_reading() };
    assert!(matches!(
        build.exact_relay_plan("route", &late, at(1_000)),
        Err(ProviderLaunchError::Timeout)
    ));
    let late = SessionReading { after: at(1_000), ..session_reading() };
    assert!(matches!(
        build.exact_relay_plan("route", &late, at(1_000)),
        Err(ProviderLaunchError::Timeout)
    ));
    let changed = SessionReading { working_directory: reading("/work", 3), ..session_reading() };
    assert!(matches!(
        build.exact_relay_plan("route", &changed, at(1_000)),
        Err(ProviderLaunchError::SessionChanged)
    ));
    assert_eq!(
        build.revalidate_for_launch(
            &session_reading(),
            Err(PinnedStageError::ExecutableChanged),
            at(1_000),
        ),
        Err(ProviderLaunchError::ExecutableChanged)
    );
    assert!(build.exact_relay_plan("route", &session_reading(), at(1_000)).is_ok());
}

#[test]
fn minted_authorities_are_independent_bits() {
    let mut minted = MintedAuthorities::none();
    let all =
        [APP_PLAN_MINTED, TUI_PLAN_MINTED, MONITOR_CAPABILITY_MINTED, EXACT_RELAY_PLAN_MINTED];
    for (index, bit) in all.iter().enumerate() {
        assert_eq!(minted.ensure_authority_available(*bit), Ok(()));
        minted.record_authority_minted(*bit);
        for (other, bit) in all.iter().enumerate() {
            assert_eq!(minted.ensure_authority_available(*bit).is_err(), other <= index);
        }
    }
}

#[test]
fn cleanup_failure_returns_a_retryable_build_owner() {
    let mut build = pinned();
    assert!(build.exact_relay_plan("route", &session_reading(), at(1_000)).is_ok());

    let (stage, rest) = expect_ok(build.cleanup(), "nobody else holds the session");
    assert_eq!(stage, "stage");
    let failure =
        expect_err(rest.finish(Err((stage, PinnedStageError::Storage))), "the removal failed");
    assert_eq!(failure.error(), ProviderLaunchError::Storage);
    let mut build = failure.into_build();
    assert_eq!(build.thread_id(), THREAD_ID);
    assert!(build.exact_relay_plan("route", &session_reading(), at(1_000)).is_err());

    clean(build);
}

#[test]
fn a_failed_stage_keeps_its_evidence() {
    let failure = TestBuildFailure::from_stage(PinnedStageError::Storage, "stage");
    assert_eq!(failure.error(), ProviderLaunchError::Storage);
    let failure: TestBuildFailure<&str> =
        TestBuildFailure::from_provider(ProviderLaunchError::InvalidArgument);
    assert_eq!(failure.error(), ProviderLaunchError::InvalidArgument);
}

// ---------------------------------------------------------------------------
// Launch.
// ---------------------------------------------------------------------------

#[test]
fn bound_app_reservation_never_becomes_pre_spawn_cleanup_authority() {
    let mut build = pinned();
    let failure = expect_err(
        begin_launch(&mut build, "/run/app.sock", false, Ok(())),
        "a bound reservation belongs to another child",
    );
    let invalid = AppServerLaunchError::Provider(ProviderLaunchError::InvalidArgument);
    assert_eq!(failure.error(), invalid);
    assert_eq!(failure.error().message(), "the supervised Codex launch plan is invalid");
    let build = in_use(build, "a refused launch holds the session");
    drop(failure);
    clean(build);
    for _ in 0..2 {
        let failure = expect_err(
            begin_launch(&mut pinned(), "/elsewhere", false, Ok(())),
            "a bound reservation belongs to another child",
        );
        let retained = expect_err(failure.contain_child(), "nothing may be cleaned up");
        assert_eq!(retained.error(), invalid);
        assert!(retained.cleanup_error().is_none());
        assert!(retained.contain_child().is_err());
    }
}

#[test]
fn started_unannounced_app_launch_retries_without_signal_or_namespace_mutation() {
    let mut build = pinned();
    let (_, launch, reservation) = expect_ok(
        begin_launch(&mut build, "/run/app.sock", true, Ok(())),
        "nothing speaks against the launch",
    );
    let spawn = ProcessError::ProcessGroupMismatch { role: ChildRole::AppServer };
    let launched: Result<
        (AppServerChild<u8, u32, u64>, &str),
        AppServerLaunchReservationFailure<u8, u32, &str, &str, &str, &str, u8>,
    > = finish_launch_with_reservation(
        launch,
        reservation,
        Err(SpawnFailure::started_with_policy(
            spawn,
            4_u8,
            60,
            Some(60),
            GroupContainmentPolicy::ProductionStrict,
        )),
    );
    let mut failure = expect_err(launched, "a failed spawn is a failed launch");
    assert_eq!(failure.error(), AppServerLaunchError::Spawn(spawn));
    let mut build = in_use(build, "started-unannounced App released its session lifetime");
    for _ in 0..2 {
        failure = expect_err(failure.contain_child(), "a started child is never resolved here");
        assert_eq!(failure.cleanup_error(), &Some(AppServerTeardownError::Process(spawn)));
        build = in_use(build, "a retry released the session lifetime");
    }
    match failure.phase {
        AppServerLaunchReservationPhase::Launch { failure, .. } => {
            assert!(failure.has_spawn_failure());
            drop(failure.lifetime);
        }
        _ => panic!("started-unannounced retry mutated the namespace phase"),
    }
    clean(build);
}

#[test]
fn app_launch_failure_resolves_a_residual_reserved_socket_and_runtime() {
    let mut build = pinned();
    let failure = expect_err(
        begin_launch(&mut build, "/elsewhere", true, Ok(())),
        "the reservation must be the planned one",
    );
    assert_eq!(
        failure.error(),
        AppServerLaunchError::Provider(ProviderLaunchError::InvalidArgument)
    );
    let contained = expect_ok(failure.contain_child(), "no child ever existed");
    let (cleanup, call) = contained.cleanup_runtime();
    assert!(matches!(call, LaunchCleanupCall::ReleaseIfAbsent("reservation")));

    let step: LaunchCleanupStep<u8, u32, &str, &str, &str, &str, &str, u8> =
        resolve_app_launch_runtime(
            cleanup,
            LaunchCleanupOutcome::Released(Err((
                AppSocketError::SocketStillPresent,
                "reservation",
            ))),
        );
    let cleanup = match step {
        LaunchCleanupStep::Call { cleanup, call: LaunchCleanupCall::Adopt("reservation") } => {
            cleanup
        }
        _ => panic!("a socket that is still there is adopted"),
    };
    let step: LaunchCleanupStep<u8, u32, &str, &str, &str, &str, &str, u8> =
        resolve_app_launch_runtime(cleanup, LaunchCleanupOutcome::Adopted(Ok("socket")));
    let cleanup = match step {
        LaunchCleanupStep::Call { cleanup, call: LaunchCleanupCall::CleanupSocket("socket") } => {
            cleanup
        }
        _ => panic!("an adopted socket is cleaned up"),
    };
    let step: LaunchCleanupStep<u8, u32, &str, &str, &str, &str, &str, u8> =
        resolve_app_launch_runtime(
            cleanup,
            LaunchCleanupOutcome::SocketCleaned(Err((AppSocketError::Timeout, "claimed"))),
        );
    let failure = match step {
        LaunchCleanupStep::Failed(failure) => failure,
        _ => panic!("a failed cleanup keeps its owner"),
    };
    assert_eq!(
        failure.cleanup_error(),
        &Some(AppServerTeardownError::Socket(AppSocketError::Timeout))
    );
    let build = in_use(build, "launch cleanup failure released its guardian session guard");
    let contained = expect_ok(failure.contain_child(), "the child is known to be gone");
    assert!(matches!(contained.owner, AppServerLaunchRuntimeOwner::CleanupSocket("claimed")));
    let (cleanup, _) = contained.cleanup_runtime();
    let step: LaunchCleanupStep<u8, u32, &str, &str, &str, &str, &str, u8> =
        resolve_app_launch_runtime(cleanup, LaunchCleanupOutcome::SocketCleaned(Ok("runtime")));
    let cleanup = match step {
        LaunchCleanupStep::Call { cleanup, call: LaunchCleanupCall::CleanupRuntime("runtime") } => {
            cleanup
        }
        _ => panic!("then the runtime is cleaned up"),
    };
    let step: LaunchCleanupStep<u8, u32, &str, &str, &str, &str, &str, u8> =
        resolve_app_launch_runtime(
            cleanup,
            LaunchCleanupOutcome::RuntimeCleaned(Err((3_u8, "runtime"))),
        );
    let failure = match step {
        LaunchCleanupStep::Failed(failure) => failure,
        _ => panic!("a failed cleanup keeps its owner"),
    };
    assert_eq!(
        failure.cleanup_error(),
        &Some(AppServerTeardownError::Socket(AppSocketError::Timeout))
    );
    let (cleanup, _) =
        expect_ok(failure.contain_child(), "the child is known to be gone").cleanup_runtime();
    let step: LaunchCleanupStep<u8, u32, &str, &str, &str, &str, &str, u8> =
        resolve_app_launch_runtime(cleanup, LaunchCleanupOutcome::RuntimeCleaned(Ok("clean")));
    match step {
        LaunchCleanupStep::Clean(resolution) => {
            assert!(resolution.terminal_reportable());
            let build = in_use(build, "a resolution holds the session until its release");
            let (guard, runtime, error) = resolution.release();
            assert_eq!((guard.lease(), runtime), (&LEASE, "clean"));
            assert_eq!(error, AppServerLaunchError::Provider(ProviderLaunchError::InvalidArgument));
            drop(guard);
            clean(build);
        }
        _ => panic!("the runtime is clean"),
    }
}

#[test]
fn app_launch_rejects_replacement_before_its_final_validation() {
    let mut build = pinned();
    let failure = expect_err(
        begin_launch(
            &mut build,
            "/run/app.sock",
            true,
            Err(PinnedStageError::ExecutableChanged),
        ),
        "a replaced executable must not be launched",
    );
    assert_eq!(
        failure.error(),
        AppServerLaunchError::Provider(ProviderLaunchError::ExecutableChanged)
    );
    match &failure.phase {
        AppServerLaunchReservationPhase::Launch { failure, .. } => {
            assert!(!failure.has_spawn_failure());
        }
        _ => panic!("nothing was cleaned up yet"),
    }
    let build = in_use(build, "unresolved launch failure released the session lifetime");
    let contained = expect_ok(failure.contain_child(), "provider-only failures resolve");
    let build = in_use(build, "a contained launch still holds the session");
    drop(contained);
    let (stage, rest) = expect_ok(build.cleanup(), "nobody else holds the session");
    let failure = expect_err(
        rest.finish(Err((stage, PinnedStageError::ExecutableChanged))),
        "ambiguous replacement was cleaned",
    );
    assert_eq!(failure.error(), ProviderLaunchError::ExecutableChanged);
}

// ---------------------------------------------------------------------------
// Adoption and monitor.
// ---------------------------------------------------------------------------

fn isolation(pid: i32) -> VerifiedAppDescriptorIsolation<u8> {
    let mut child = launched_child(&mut pinned());
    child.child.state = app_state(pid);
    expect_ok(child.verify_descriptor_isolation(Ok(1)), "a clean scan is the proof")
}

fn live() -> ChildEvent {
    ChildEvent::Waited(Ok(None))
}

fn exited() -> ChildEvent {
    ChildEvent::Waited(Ok(Some(WaitStatus {
        stopped: false,
        exited: true,
        killed: false,
        dumped: false,
        exit_status: Some(0),
        terminating_signal: None,
    })))
}

#[test]
fn app_socket_adoption_waits_for_the_exact_async_bind_and_tears_down_in_order() {
    let mut build = pinned();
    let mut child = launched_child(&mut build);
    let path = b"/run/app.sock".to_vec();
    let proof = isolation(50);
    let mut adoption = SocketAdoption::begin(&mut child, &path, Ok(()), &proof, at(100));
    let mut tries = 0_u32;
    let mut clock = 10_u64;
    while let Some(action) = adoption.action() {
        let event = match action {
            SocketAction::Child(ChildAction::WaitExit) => SocketEvent::Child(live()),
            SocketAction::Child(_) => panic!("a running child is only looked at"),
            SocketAction::Try => {
                tries += 1;
                SocketEvent::Tried(if tries < 3 {
                    Err(AppSocketError::SocketNotReady)
                } else {
                    Ok(())
                })
            }
            SocketAction::ReadClock => SocketEvent::Clock(at(clock)),
            SocketAction::Pause { deadline } => {
                assert_eq!(pause_for_socket(at(clock), deadline), 5_000_000);
                clock += 5;
                SocketEvent::Paused
            }
        };
        adopt_socket_inner(&mut adoption, &mut child.child.state, event);
    }
    assert_eq!((tries, clock), (3, 20));
    assert_eq!(adoption.phase, AdoptionPhase::Adopted);
    let session: Result<
        AppServerSession<u8, u32, u64, &str, u8>,
        AppServerSocketAdoptionFailure<u8, u32, u64, &str, &str>,
    > = child.adopt_socket(
        adoption,
        AdoptedSocket { socket: "socket", visible_path: path.clone(), revalidated: Ok(()) },
        proof,
    );
    let mut session = expect_ok(session, "the planned socket was adopted");
    assert_eq!(session.monitor.target_thread_id(), THREAD_ID);
    assert!(session.child.monitor_seed.is_none());

    let mut connect = MonitorConnect::begin(&mut session.child.child.state, at(100));
    let mut tries = 0_u32;
    while let Some(action) = connect.action() {
        let event = match action {
            SocketAction::Child(_) => SocketEvent::Child(live()),
            SocketAction::Try => {
                tries += 1;
                SocketEvent::Tried(if tries == 1 {
                    Err(AppSocketError::SocketNotReady)
                } else {
                    Ok(())
                })
            }
            SocketAction::ReadClock => SocketEvent::Clock(at(20)),
            SocketAction::Pause { .. } => SocketEvent::Paused,
        };
        connect_monitor(&mut connect, &mut session.child.child.state, event);
    }
    assert_eq!(connect.phase, ConnectPhase::Connected);
    let mut connected = session.connected(connect, "stream");
    let mut forbidden = Vec::new();
    connected.append_forbidden_descriptors(&mut forbidden);
    assert_eq!(
        forbidden,
        [
            ForbiddenDescriptor::GuardianLease,
            ForbiddenDescriptor::AppSocket,
            ForbiddenDescriptor::MonitorStream,
        ]
    );
    let (stream, monitor) = expect_ok(connected.take_transport(), "the transport is there once");
    forbidden.clear();
    connected.append_forbidden_descriptors(&mut forbidden);
    assert_eq!(
        forbidden,
        [ForbiddenDescriptor::GuardianLease, ForbiddenDescriptor::AppSocket]
    );
    assert_eq!((stream, monitor.target_thread_id()), ("stream", THREAD_ID));
    assert!(matches!(
        connected.take_transport(),
        Err(ProviderLaunchError::AuthorityConsumed)
    ));
    assert_eq!(ensure_app_live(Ok(())), Ok(()));
    assert_eq!(
        ensure_app_live(Err(ProcessError::Deadline)),
        Err(ProviderLaunchError::SessionChanged)
    );

    let build = in_use(build, "connected monitor topology released the guardian lease");
    drop(monitor);
    let build = in_use(build, "the App Server itself holds the session");

    let (stream, monitor, child, socket) = connected.into_stop();
    assert!(stream.is_none() && monitor.is_none());
    let (direct, shutdown) = child.shutdown();
    let drain = PinnedAppGracefulDrain::for_child_authority_test(direct.state.child_authority());
    let stopped = expect_ok(
        stop_app_server::<u8, _, _, _>(shutdown, Ok(drain), socket),
        "a drained App Server is stopped",
    );
    assert_eq!(stopped.outcome().failure(), None);
    let (teardown, call) = stopped.cleanup_socket_runtime::<&str, &str, &str>();
    assert!(matches!(call, TeardownCall::CleanupSocket("socket")));
    let step: TeardownStep<u32, &str, &str, &str, &str, &str, u8> =
        advance_teardown(teardown, TeardownOutcome::SocketCleaned(Ok("runtime")));
    let teardown = match step {
        TeardownStep::Call { teardown, call: TeardownCall::CleanupRuntime("runtime") } => teardown,
        _ => panic!("then the runtime is cleaned up"),
    };
    let step: TeardownStep<u32, &str, &str, &str, &str, &str, u8> =
        advance_teardown(teardown, TeardownOutcome::RuntimeCleaned(Ok("clean")));
    match step {
        TeardownStep::Clean(complete) => {
            assert_eq!((complete.runtime, complete.runtime_guard.lease()), ("clean", &LEASE));
            let build = in_use(build, "a finished teardown still holds the session");
            assert!(complete.into_drain().child_authority().same(ChildAuthority::for_test(50)));
            clean(build);
        }
        _ => panic!("the topology is gone"),
    }
}

#[test]
fn a_monitor_that_never_connects_keeps_the_whole_session() {
    let adopted = |build: &mut Build| {
        let mut child = launched_child(build);
        let path = b"/run/app.sock".to_vec();
        let proof = isolation(50);
        let mut adoption = SocketAdoption::begin(&mut child, &path, Ok(()), &proof, at(100));
        while let Some(action) = adoption.action() {
            let event = match action {
                SocketAction::Try => SocketEvent::Tried(Ok(())),
                _ => SocketEvent::Child(live()),
            };
            adopt_socket_inner(&mut adoption, &mut child.child.state, event);
        }
        let session: Result<
            AppServerSession<u8, u32, u64, &str, u8>,
            AppServerSocketAdoptionFailure<u8, u32, u64, &str, &str>,
        > = child.adopt_socket(
            adoption,
            AdoptedSocket { socket: "socket", visible_path: path.clone(), revalidated: Ok(()) },
            proof,
        );
        expect_ok(session, "the planned socket was adopted")
    };
    for (tried, clock, expected) in [
        (AppSocketError::SocketNotReady, 100, AppSocketError::SocketNotReady),
        (AppSocketError::Other { cause: 4 }, 20, AppSocketError::Other { cause: 4 }),
    ] {
        let mut build = pinned();
        let mut session = adopted(&mut build);
        let mut connect = MonitorConnect::begin(&mut session.child.child.state, at(100));
        while let Some(action) = connect.action() {
            let event = match action {
                SocketAction::Child(_) => SocketEvent::Child(live()),
                SocketAction::Try => SocketEvent::Tried(Err(tried)),
                SocketAction::ReadClock => SocketEvent::Clock(at(clock)),
                SocketAction::Pause { .. } => panic!("the attempt is over"),
            };
            connect_monitor(&mut connect, &mut session.child.child.state, event);
        }
        let failure = session.not_connected(connect);
        assert_eq!(failure.error, AppServerTopologyError::Socket(expected));
        let build = in_use(build, "a failed connection released the session");
        let (child, socket) = failure.into_session().into_stop();
        assert_eq!((child.child.handle, socket), (3, "socket"));
        let build = in_use(build, "the App Server itself holds the session");
        drop(child);
        clean(build);
    }
}

#[test]
fn cross_session_socket_is_rejected_and_all_owners_remain_containable() {
    let path = b"/run/app.sock".to_vec();
    for (reservation_path, bound, pid, error) in [
        (b"/run/other.sock".to_vec(), Ok(()), 50, AppServerTopologyError::CrossSessionSocket),
        (
            path.clone(),
            Err(AppSocketError::IdentityMismatch),
            50,
            AppServerTopologyError::Socket(AppSocketError::IdentityMismatch),
        ),
        (
            path.clone(),
            Ok(()),
            51,
            AppServerTopologyError::DescriptorIsolation(
                ProcessGroupDescriptorScanError::ProcessChanged,
            ),
        ),
    ] {
        let mut build = pinned();
        let mut child = launched_child(&mut build);
        let adoption =
            SocketAdoption::begin(&mut child, &reservation_path, bound, &isolation(pid), at(100));
        assert_eq!(adoption.action(), None);
        let failure: AppServerSocketAdoptionFailure<u8, u32, u64, &str, &str> =
            child.retain_adoption_failure("reservation", adoption);
        assert_eq!(failure.error(), error);
        let build = in_use(build, "adoption failure released the running App child lease");
        let (direct, shutdown, socket) = failure.contain_child();
        assert_eq!(direct.handle, 3);
        let drained = shutdown.finish::<u8>(Ok(PinnedAppGracefulDrain::for_child_authority_test(
            direct.state.child_authority(),
        )));
        let contained = expect_ok(finish_containment(drained, socket), "the child is gone");
        let (teardown, call) = contained.cleanup_socket::<&str, &str>();
        assert!(matches!(call, TeardownCall::RequireMatchingChild("reservation")));
        let step: Teardown = advance_teardown(
            teardown,
            TeardownOutcome::Matched(Err((AppSocketError::IdentityMismatch, "reservation"))),
        );
        let failure = match step {
            TeardownStep::Failed(failure) => failure,
            _ => panic!("another session's reservation was cleaned by this App child"),
        };
        assert!(matches!(
            failure.error,
            AppServerTeardownError::Socket(AppSocketError::IdentityMismatch)
        ));
        let build = in_use(build, "a failed teardown released the session");
        drop(failure);
        clean(build);
    }
}

#[test]
fn an_adopted_socket_must_be_the_planned_one() {
    for (visible_path, revalidated, error) in [
        (b"/run/other.sock".to_vec(), Ok(()), AppServerTopologyError::CrossSessionSocket),
        (
            b"/run/app.sock".to_vec(),
            Err(AppSocketError::IdentityMismatch),
            AppServerTopologyError::Socket(AppSocketError::IdentityMismatch),
        ),
    ] {
        let child = launched_child(&mut pinned());
        let adoption = SocketAdoption { deadline: at(1), phase: AdoptionPhase::Adopted };
        let session: Result<
            AppServerSession<u8, u32, u64, &str, u8>,
            AppServerSocketAdoptionFailure<u8, u32, u64, &str, &str>,
        > = child.adopt_socket(
            adoption,
            AdoptedSocket { socket: "socket", visible_path, revalidated },
            isolation(50),
        );
        let failure = expect_err(session, "the socket does not fit");
        assert_eq!(failure.error(), error);
        assert!(matches!(failure.socket, AppServerSocketAuthority::Owned("socket")));
    }
    let mut child = launched_child(&mut pinned());
    child.monitor_seed = None;
    let session: Result<
        AppServerSession<u8, u32, u64, &str, u8>,
        AppServerSocketAdoptionFailure<u8, u32, u64, &str, &str>,
    > = child.adopt_socket(
        SocketAdoption { deadline: at(1), phase: AdoptionPhase::Adopted },
        AdoptedSocket {
            socket: "socket",
            visible_path: b"/run/app.sock".to_vec(),
            revalidated: Ok(()),
        },
        isolation(50),
    );
    assert_eq!(
        expect_err(session, "the monitor's target left before").error(),
        AppServerTopologyError::Provider(ProviderLaunchError::AuthorityConsumed)
    );
}

#[test]
fn an_adoption_ends_with_its_child_or_its_deadline() {
    let path = b"/run/app.sock".to_vec();
    let mut child = launched_child(&mut pinned());
    let mut adoption = SocketAdoption::begin(&mut child, &path, Ok(()), &isolation(50), at(100));
    adopt_socket_inner(&mut adoption, &mut child.child.state, SocketEvent::Child(live()));
    adopt_socket_inner(
        &mut adoption,
        &mut child.child.state,
        SocketEvent::Tried(Err(AppSocketError::SocketNotReady)),
    );
    adopt_socket_inner(&mut adoption, &mut child.child.state, SocketEvent::Clock(at(100)));
    assert_eq!(
        adoption.phase,
        AdoptionPhase::Failed(AppServerTopologyError::Socket(AppSocketError::AdoptionTimeout))
    );

    let mut child = launched_child(&mut pinned());
    let mut adoption = SocketAdoption::begin(&mut child, &path, Ok(()), &isolation(50), at(100));
    adopt_socket_inner(&mut adoption, &mut child.child.state, SocketEvent::Child(exited()));
    adopt_socket_inner(
        &mut adoption,
        &mut child.child.state,
        SocketEvent::Child(ChildEvent::Signaled(Err(
            codex_supervisor::process::status::SystemError::Other,
        ))),
    );
    assert!(matches!(
        adoption.phase,
        AdoptionPhase::Failed(AppServerTopologyError::Process(ProcessError::Signal { .. }))
    ));

    let mut state = app_state(50);
    let mut connect = MonitorConnect::begin(&mut state, at(100));
    connect_monitor(&mut connect, &mut state, SocketEvent::Child(live()));
    connect_monitor(
        &mut connect,
        &mut state,
        SocketEvent::Tried(Err(AppSocketError::SocketNotReady)),
    );
    connect_monitor(&mut connect, &mut state, SocketEvent::Clock(at(100)));
    assert_eq!(
        connect.phase,
        ConnectPhase::Failed(AppServerTopologyError::Socket(AppSocketError::SocketNotReady))
    );
}

#[test]
fn a_failed_isolation_keeps_the_child_and_names_the_first_misfit() {
    let scan = ProcessGroupDescriptorScanError::ForbiddenDescriptor;
    for (path, bound, error) in [
        (b"/run/other.sock".to_vec(), Ok(()), AppServerTopologyError::CrossSessionSocket),
        (
            b"/run/app.sock".to_vec(),
            Err(AppSocketError::IdentityMismatch),
            AppServerTopologyError::Socket(AppSocketError::IdentityMismatch),
        ),
        (b"/run/app.sock".to_vec(), Ok(()), AppServerTopologyError::DescriptorIsolation(scan)),
    ] {
        let failure: AppServerSocketAdoptionFailure<u8, u32, u64, &str, &str> =
            launched_child(&mut pinned()).retain_descriptor_isolation_failure("reservation", &path, bound, scan);
        assert_eq!(failure.error(), error);
    }
    let child = launched_child(&mut pinned());
    let verified = expect_ok(
        child.verify_descriptor_isolation(Ok(7_u8)),
        "a clean scan is the proof",
    );
    assert!(verified.containment().same(child.child.state.containment()));
    assert!(matches!(
        child.verify_descriptor_isolation::<u8>(Err(scan)),
        Err(error) if error == scan
    ));
}

// ---------------------------------------------------------------------------
// Relay.
// ---------------------------------------------------------------------------

#[test]
fn exact_relay_start_failure_retains_and_resolves_the_branded_route() {
    let mut build = pinned();
    let plan = relay_plan(&mut build);
    assert_eq!(*plan.route(), "route");
    let plan: Result<_, ExactRelayStartFailure<&str, u32, u64, &str>> = own_exact_relay_plan(
        plan,
        &build,
        &session_reading(),
        seed_reading("/work", 2),
        at(1_000),
    );
    let plan = expect_ok(plan, "the inputs are unchanged");
    assert_eq!(plan.target_thread_id, THREAD_ID);
    assert_eq!(plan.working_directory.path(), b"/work");
    let failure = expect_err(
        plan.spawn::<&str, _>(Err(("bound", ReadinessProxyError::InvalidArgument))),
        "the relay could not be bound",
    );
    assert_eq!(
        failure.error(),
        ExactRelayStartError::Relay(ReadinessProxyError::InvalidArgument)
    );
    let build = in_use(build, "a failed start holds the session");
    let (remote, cleanup) = match failure.resolve() {
        Ok(_) => panic!("a bound socket must be cleaned up first"),
        Err(begun) => begun,
    };
    let failure = expect_err(cleanup.finish(Err(remote)), "the cleanup failed");
    let (_, cleanup) = match failure.resolve() {
        Ok(_) => panic!("a bound socket must be cleaned up first"),
        Err(begun) => begun,
    };
    let resolution = expect_ok(cleanup.finish::<&str>(Ok(())), "the socket is gone");
    assert_eq!(
        resolution.error(),
        ExactRelayStartError::Relay(ReadinessProxyError::InvalidArgument)
    );
    let plan = expect_ok(resolution.retry::<&str>(), "the plan can be tried again");
    let session: ExactRelaySession<&str, u32> =
        expect_ok(plan.spawn::<_, &str>(Ok("proxy")), "the relay is bound");
    assert_eq!((session.proxy, session.runtime_guard.lease()), ("proxy", &LEASE));
    assert_eq!(session.brand.value(), build.brand().value());
    let build = in_use(build, "a running relay holds the session");
    drop(session);
    clean(build);
}

#[test]
fn descriptors_of_all_owners_are_listed_in_order() {
    let mut forbidden = Vec::new();
    pinned().append_forbidden_descriptors(&mut forbidden);
    let (_, relay) = relay_session();
    relay.append_forbidden_descriptors(&mut forbidden);
    append_runtime_guard_descriptors(&mut forbidden);
    assert_eq!(
        forbidden,
        [
            ForbiddenDescriptor::PinnedExecutable,
            ForbiddenDescriptor::GuardianLease,
            ForbiddenDescriptor::CodexHome,
            ForbiddenDescriptor::WorkingDirectory,
            ForbiddenDescriptor::RelayListener,
            ForbiddenDescriptor::GuardianLease,
            ForbiddenDescriptor::GuardianLease,
        ]
    );
}

#[test]
fn a_relay_whose_inputs_changed_is_never_started() {
    let mut build = pinned();
    let changed = SessionReading { codex_home: reading("/home", 6), ..session_reading() };
    let plan = relay_plan(&mut build);
    let plan: Result<_, ExactRelayStartFailure<&str, u32, u64, &str>> =
        own_exact_relay_plan(plan, &build, &changed, seed_reading("/work", 2), at(1_000));
    let failure = expect_err(plan, "the inputs changed");
    let resolution = match failure.resolve() {
        Ok(resolution) => resolution,
        Err(_) => panic!("nothing was bound"),
    };
    let failure = expect_err(resolution.retry::<&str>(), "there is no other try");
    assert_eq!(
        failure.error(),
        ExactRelayStartError::Provider(ProviderLaunchError::SessionChanged)
    );
    let resolution = match failure.resolve() {
        Ok(resolution) => resolution,
        Err(_) => panic!("nothing was bound"),
    };
    let build = in_use(build, "a relay that cannot start holds the session");
    let (guard, aborted) = resolution.into_startup_abort();
    assert_eq!(guard.lease(), &LEASE);
    let build = in_use(build, "the guard is not released yet");
    drop(guard);
    clean(build);
    assert_eq!(aborted.error(), aborted.release());
}

fn relay_session() -> (Build, ExactRelaySession<&'static str, u32>) {
    let build = pinned();
    let session = ExactRelaySession {
        proxy: "proxy",
        runtime_guard: build.retain_runtime(),
        brand: build.brand(),
    };
    (build, session)
}

#[test]
fn exact_relay_shutdown_timeout_retains_owned_retry_authority() {
    let (build, session) = relay_session();
    let (proxy, shutdown) = session.shutdown();
    let failure = expect_err(
        shutdown.finish(Err(ReadinessProxyShutdownFailure {
            proxy: Some(proxy),
            operation_error: Some(ReadinessProxyError::Timeout),
            cleanup_error: None,
        })),
        "the shutdown timed out",
    );
    assert_eq!(failure.error(), ReadinessProxyError::Timeout);
    let build = in_use(build, "relay shutdown failure released its session guard");
    let failure = expect_err(failure.try_resolve_without_retry(), "the proxy is still there");
    let (proxy, shutdown) = match failure.resolve() {
        Ok(_) => panic!("the proxy must be shut down again"),
        Err(begun) => begun,
    };
    let failure = expect_err(
        shutdown.finish_retry(Err(ReadinessProxyShutdownFailure {
            proxy: Some(proxy),
            operation_error: Some(ReadinessProxyError::Worker),
            cleanup_error: Some(ReadinessProxyError::Cleanup),
        })),
        "the proxy is still there",
    );
    assert_eq!(failure.operation_error(), Some(ReadinessProxyError::Timeout));
    assert_eq!(failure.cleanup_error(), Some(ReadinessProxyError::Cleanup));
    let (_, shutdown) = match failure.resolve() {
        Ok(_) => panic!("the proxy must be shut down again"),
        Err(begun) => begun,
    };
    let resolution = expect_ok(
        shutdown.finish_retry::<&str>(Err(ReadinessProxyShutdownFailure {
            proxy: None,
            operation_error: None,
            cleanup_error: None,
        })),
        "without a proxy everything is gone",
    );
    assert_eq!(resolution.operation_error(), Some(ReadinessProxyError::Timeout));
    assert_eq!(resolution.cleanup_error(), Some(ReadinessProxyError::Cleanup));
    assert_eq!(resolution.error(), Some(ReadinessProxyError::Timeout));
    let (guard, error) = resolution.release();
    assert_eq!((guard.lease(), error), (&LEASE, Some(ReadinessProxyError::Timeout)));
    let build = in_use(build, "the guard is not released yet");
    drop(guard);
    clean(build);
}

#[test]
fn a_relay_failure_without_an_error_of_its_own_is_the_workers() {
    let (_, session) = relay_session();
    let (_, shutdown) = session.shutdown();
    let failure = expect_err(
        shutdown.finish::<&str>(Err(ReadinessProxyShutdownFailure {
            proxy: None,
            operation_error: None,
            cleanup_error: None,
        })),
        "a report is a failure",
    );
    assert_eq!(failure.error(), ReadinessProxyError::Worker);
    assert!(failure.try_resolve_without_retry().is_ok());

    let (build, session) = relay_session();
    let (_, shutdown) = session.shutdown();
    let complete = expect_ok(shutdown.finish::<&str>(Ok(())), "the relay is gone");
    let build = in_use(build, "a finished shutdown still holds the session");
    assert_eq!(complete.release().lease(), &LEASE);
    clean(build);
}

// ---------------------------------------------------------------------------
// Teardown.
// ---------------------------------------------------------------------------

type Teardown = TeardownStep<u32, &'static str, &'static str, &'static str, &'static str, &'static str, u8>;

fn drain() -> PinnedAppGracefulDrain {
    PinnedAppGracefulDrain::for_child_authority_test(ChildAuthority::for_test(5))
}

#[test]
fn reaped_app_child_cleans_its_exact_socket_when_bind_never_reaches_chmod() {
    let build = pinned();
    let (mut teardown, mut call) = finish_reservation_teardown::<u32, &str, &str, &str, &str>(
        drain(),
        "reservation",
        build.retain_runtime(),
    );
    let build = in_use(build, "adoption failure released its live App child lease");
    let script: Vec<TeardownOutcome<&str, &str, &str, &str, &str, u8>> = vec![
        TeardownOutcome::Matched(Ok("reservation")),
        TeardownOutcome::Released(Err((AppSocketError::SocketStillPresent, "reservation"))),
        TeardownOutcome::Adopted(Err((AppSocketError::SocketNotReady, "reservation"))),
        TeardownOutcome::Claimed(Ok("claimed")),
        TeardownOutcome::SocketCleaned(Ok("runtime")),
    ];
    let mut order = Vec::new();
    for outcome in script {
        order.push(match call {
            TeardownCall::RequireMatchingChild(_) => "match",
            TeardownCall::ReleaseIfAbsent(_) => "release",
            TeardownCall::Adopt(_) => "adopt",
            TeardownCall::ClaimAfterChildExit(_) => "claim",
            TeardownCall::CleanupSocket(_) => "socket",
            TeardownCall::CleanupClaimed(_) => "claimed",
            TeardownCall::CleanupRuntime(_) => "runtime",
        });
        match advance_teardown(teardown, outcome) {
            TeardownStep::Call { teardown: next, call: then } => {
                teardown = next;
                call = then;
            }
            _ => panic!("the teardown goes on"),
        }
    }
    assert_eq!(order, ["match", "release", "adopt", "claim", "claimed"]);
    assert!(matches!(call, TeardownCall::CleanupRuntime("runtime")));
    let step: Teardown = advance_teardown(teardown, TeardownOutcome::RuntimeCleaned(Ok("clean")));
    let build = in_use(build, "a finished teardown still holds the session");
    match step {
        TeardownStep::Clean(complete) => drop(complete.into_drain()),
        _ => panic!("the topology is gone"),
    }
    clean(build);
}

#[test]
fn a_failed_teardown_is_retried_where_it_stopped() {
    let build = pinned();
    let begin = || {
        finish_reservation_teardown::<u32, &str, &str, &str, &str>(
            drain(),
            "reservation",
            build.retain_runtime(),
        )
        .0
    };
    let failed = |outcome: TeardownOutcome<&'static str, &'static str, &'static str, &'static str, &'static str, u8>| match advance_teardown(begin(), outcome) {
        TeardownStep::Failed(failure) => failure,
        _ => panic!("the teardown failed"),
    };

    let failure =
        failed(TeardownOutcome::Matched(Err((AppSocketError::IdentityMismatch, "reservation"))));
    assert!(matches!(failure.owner, TeardownOwner::Reservation("reservation")));
    assert!(matches!(
        failure.error,
        AppServerTeardownError::Socket(AppSocketError::IdentityMismatch)
    ));
    let (teardown, call) = failure.retry::<&str>();
    assert_eq!(teardown.runtime_guard.lease(), &LEASE);
    assert!(matches!(call, TeardownCall::RequireMatchingChild("reservation")));

    for outcome in [
        TeardownOutcome::Released(Err((AppSocketError::Timeout, "reservation"))),
        TeardownOutcome::Adopted(Err((AppSocketError::Timeout, "reservation"))),
        TeardownOutcome::Claimed(Err((AppSocketError::SocketNotReady, "reservation"))),
    ] {
        let (_, call) = failed(outcome).retry::<&str>();
        assert!(matches!(call, TeardownCall::RequireMatchingChild("reservation")));
    }
    let failure = failed(TeardownOutcome::SocketCleaned(Err((AppSocketError::Timeout, "claimed"))));
    let (_, call) = failure.retry::<&str>();
    assert!(matches!(call, TeardownCall::CleanupClaimed("claimed")));
    let failure = failed(TeardownOutcome::RuntimeCleaned(Err((4_u8, "runtime"))));
    assert!(matches!(failure.error, AppServerTeardownError::Runtime(4)));
    let (_, call) = failure.retry::<&str>();
    assert!(matches!(call, TeardownCall::CleanupRuntime("runtime")));
}

#[test]
fn an_app_server_that_cannot_be_stopped_keeps_its_socket_and_guard() {
    let mut build = pinned();
    let child = launched_child(&mut build);
    let (direct, shutdown) = child.shutdown();
    let drained = PinnedAppGracefulDrain::for_child_authority_test(direct.state.child_authority());
    assert!(shutdown.authority.same(direct.state.child_authority()));
    let unreaped = unreaped_children(
        None,
        Some(direct),
        ProcessError::WaitTimeout { role: ChildRole::AppServer },
        None,
        TuiShutdownMode::StartWithTerm,
    );
    let failure = expect_err(shutdown.finish(Err(unreaped)), "the child is not gone");
    assert_eq!(failure.error(), ProcessError::WaitTimeout { role: ChildRole::AppServer });
    let failure = expect_err(
        failure.retry(Err(ProcessError::Deadline)),
        "a failed attempt keeps the failure",
    );
    assert_eq!(failure.expected_socket_path, b"/run/app.sock");
    let build = in_use(build, "an App Server that is not gone holds the session");
    let complete: AppServerShutdownComplete<u32> =
        expect_ok(failure.retry(Ok(drained)), "the drain is the proof");
    assert_eq!(complete.runtime_guard.lease(), &LEASE);
    drop(complete);
    clean(build);
}
