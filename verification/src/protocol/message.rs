//! The typed messages of the lifecycle wire.
//!
//! Only redacted control state travels between the two processes: no
//! descriptor, free-form text, path, account or provider payload can be
//! represented here.
use vstd::prelude::*;

use crate::protocol::constant_time::digests_equal;

verus! {

/// The number of bytes in a terminal snapshot digest.
pub const SNAPSHOT_FINGERPRINT_BYTES: usize = 32;

/// The only asynchronous Unix signals accepted by the terminal protocol.
///
/// A window change is [`CoordinatorCommand::Resize`], and stopping and
/// continuing are the ordered suspend/resume handshake. Keeping raw signal
/// numbers off the wire makes the allow-list explicit and portable.
#[derive(Clone, Copy, Debug, PartialEq, Eq, Structural)]
pub enum UnixSignal {
    Hup,
    Int,
    Quit,
    Term,
}

impl UnixSignal {
    /// The signals whose delivery defines the end of the session.
    pub open spec fn ends_session(self) -> bool {
        self is Hup || self is Term
    }
}

/// The two direct children of the guardian.
#[derive(Clone, Copy, Debug, PartialEq, Eq, Structural)]
pub enum ChildRole {
    AppServer,
    Tui,
}

/// A bounded guardian lifecycle phase.
#[derive(Clone, Copy, Debug, PartialEq, Eq, Structural)]
pub enum Phase {
    Lease,
    Runtime,
    Worker,
    AppServer,
    Tui,
    Readiness,
    Shutdown,
    Reap,
    Cleanup,
    Protocol,
    Terminal,
    Pump,
    Signal,
    Restore,
}

/// A bounded, redacted failure code. No provider or user data is carried.
#[derive(Clone, Copy, Debug, PartialEq, Eq, Structural)]
pub enum FailureCode {
    Timeout,
    Descriptor,
    Lease,
    Spawn,
    EarlyExit,
    Worker,
    Containment,
    Wait,
    CleanupMismatch,
    InvalidControl,
    Internal,
    Terminal,
    Pump,
    Signal,
    Restore,
}

/// What the guardian had done to a child by the time it was reaped.
#[derive(Clone, Copy, Debug, PartialEq, Eq, Structural)]
pub enum StopAction {
    NoAction,
    Term,
    Kill,
}

/// The exact wait disposition of one guardian-owned direct child.
#[derive(Clone, Copy, Debug, PartialEq, Eq, Structural)]
pub enum ChildDisposition {
    NotStarted,
    Exited { code: u8, stop_action: StopAction },
    Signaled { signal: u8, core_dumped: bool, stop_action: StopAction },
}

/// Every variant is terminal: no live worker handle may be represented.
#[derive(Clone, Copy, Debug, PartialEq, Eq, Structural)]
pub enum WorkerJoinStatus {
    NotStarted,
    JoinedClean,
    JoinedFailed,
    JoinedPanicked,
}

/// `ChildrenReaped` is constructible only after complete runtime cleanup.
#[derive(Clone, Copy, Debug, PartialEq, Eq, Structural)]
pub enum CleanupStatus {
    Complete,
}

#[derive(Clone, Copy, Debug, PartialEq, Eq, Structural)]
pub enum SessionStatus {
    Completed,
    Failed,
}

/// Why the guardian entered ordered TUI shutdown. Only protocol-validated
/// forwarding of HUP or TERM can replace the coordinator-stop semantics.
#[derive(Clone, Copy, Debug, PartialEq, Eq, Structural)]
pub enum SessionTerminationCause {
    NaturalTuiEof,
    CoordinatorStop,
    ForwardedHup,
    ForwardedTerm,
}

/// Exact process disposition the guardian applies only after publishing its
/// terminal lifecycle frame and releasing the lifecycle wire.
#[derive(Clone, Copy, Debug, PartialEq, Eq, Structural)]
pub enum GuardianExitDisposition {
    Code(u8),
    Signal(u8),
    InternalFailure,
}

/// A coordinator-to-guardian command.
#[derive(Clone, Copy, Debug, PartialEq, Eq, Structural)]
pub enum CoordinatorCommand {
    Start,
    TerminalArmAccepted,
    Stop,
    OpenInputGate,
    Signal { signal: UnixSignal },
    Resize { rows: u16, cols: u16 },
    Suspend,
    Resume { rows: u16, cols: u16 },
    TerminalRestored,
}

/// Redacted semantic identity for one immutable pre-raw terminal snapshot.
///
/// The digest is carried only on the fixed lifecycle frame and is never
/// rendered: the type has no `Debug`. Equality uses a constant-time comparison
/// so a mismatch cannot reveal which terminal field first diverged.
#[derive(Clone, Copy)]
pub struct TerminalSnapshotFingerprint([u8; 32]);

impl TerminalSnapshotFingerprint {
    /// The bytes of the digest.
    pub closed spec fn digest(self) -> Seq<u8> {
        self.0@
    }

    pub fn from_digest(digest: [u8; 32]) -> (fingerprint: Self)
        ensures
            fingerprint.digest() == digest@,
    {
        TerminalSnapshotFingerprint(digest)
    }

    /// Whether both fingerprints name the same snapshot.
    pub fn matches(self, other: Self) -> (same: bool)
        ensures
            same == (self.digest() == other.digest()),
            same == (self == other),
    {
        let same = digests_equal(&self.0, &other.0);
        proof {
            if same {
                assert(self.0 =~= other.0);
            }
        }
        same
    }

    /// The same digest with the top bit of its first byte flipped.
    pub fn corrupted_for_fixture(self) -> (corrupted: Self)
        ensures
            corrupted.digest() == self.digest().update(0, self.digest()[0] ^ 0x80),
    {
        let mut digest = self.0;
        digest[0] = digest[0] ^ 0x80;
        TerminalSnapshotFingerprint(digest)
    }

    pub fn as_bytes(&self) -> (bytes: &[u8; 32])
        ensures
            bytes@ == self.digest(),
    {
        &self.0
    }

    /// What may be rendered of a fingerprint.
    pub fn redacted(&self) -> (text: &'static str)
        ensures
            text@ == "TerminalSnapshotFingerprint(<redacted>)"@,
    {
        "TerminalSnapshotFingerprint(<redacted>)"
    }
}

impl PartialEq for TerminalSnapshotFingerprint {
    fn eq(&self, other: &Self) -> (equal: bool) {
        self.matches(*other)
    }
}

impl vstd::std_specs::cmp::PartialEqSpecImpl for TerminalSnapshotFingerprint {
    open spec fn obeys_eq_spec() -> bool {
        true
    }

    open spec fn eq_spec(&self, other: &Self) -> bool {
        *self == *other
    }
}

impl Eq for TerminalSnapshotFingerprint {

}

/// Two fingerprints with the same digest are the same fingerprint.
pub proof fn lemma_fingerprint_extensional(
    left: TerminalSnapshotFingerprint,
    right: TerminalSnapshotFingerprint,
)
    ensures
        left.digest() == right.digest() <==> left == right,
        left.digest().len() == 32,
{
    if left.digest() == right.digest() {
        assert(left.0 =~= right.0);
    }
}

/// A guardian-to-coordinator lifecycle event.
#[derive(Clone, Copy)]
pub enum GuardianEvent {
    LeaseCommitted,
    TerminalArmed { snapshot: TerminalSnapshotFingerprint },
    ChildStarted { role: ChildRole, pid: i32, pgid: i32 },
    Ready,
    InputGateOpened,
    SignalForwarded { signal: UnixSignal },
    ResizeApplied { rows: u16, cols: u16 },
    Suspended,
    Resumed { rows: u16, cols: u16 },
    TerminalQuiesced,
    TerminalRecoveryDisarmed,
    Failed { phase: Phase, code: FailureCode },
    ChildrenReaped {
        app: ChildDisposition,
        tui: ChildDisposition,
        worker: WorkerJoinStatus,
        cleanup: CleanupStatus,
        session: SessionStatus,
        guardian_exit: GuardianExitDisposition,
    },
}

impl PartialEq for GuardianEvent {
    fn eq(&self, other: &Self) -> (equal: bool) {
        match (*self, *other) {
            (GuardianEvent::LeaseCommitted, GuardianEvent::LeaseCommitted) => true,
            (
                GuardianEvent::TerminalArmed { snapshot: left },
                GuardianEvent::TerminalArmed { snapshot: right },
            ) => left.matches(right),
            (
                GuardianEvent::ChildStarted { role, pid, pgid },
                GuardianEvent::ChildStarted {
                    role: other_role,
                    pid: other_pid,
                    pgid: other_pgid,
                },
            ) => role == other_role && pid == other_pid && pgid == other_pgid,
            (GuardianEvent::Ready, GuardianEvent::Ready) => true,
            (GuardianEvent::InputGateOpened, GuardianEvent::InputGateOpened) => true,
            (
                GuardianEvent::SignalForwarded { signal: left },
                GuardianEvent::SignalForwarded { signal: right },
            ) => left == right,
            (
                GuardianEvent::ResizeApplied { rows, cols },
                GuardianEvent::ResizeApplied { rows: other_rows, cols: other_cols },
            ) => rows == other_rows && cols == other_cols,
            (GuardianEvent::Suspended, GuardianEvent::Suspended) => true,
            (
                GuardianEvent::Resumed { rows, cols },
                GuardianEvent::Resumed { rows: other_rows, cols: other_cols },
            ) => rows == other_rows && cols == other_cols,
            (GuardianEvent::TerminalQuiesced, GuardianEvent::TerminalQuiesced) => true,
            (
                GuardianEvent::TerminalRecoveryDisarmed,
                GuardianEvent::TerminalRecoveryDisarmed,
            ) => true,
            (
                GuardianEvent::Failed { phase, code },
                GuardianEvent::Failed { phase: other_phase, code: other_code },
            ) => phase == other_phase && code == other_code,
            (
                GuardianEvent::ChildrenReaped { app, tui, worker, cleanup, session, guardian_exit },
                GuardianEvent::ChildrenReaped {
                    app: other_app,
                    tui: other_tui,
                    worker: other_worker,
                    cleanup: other_cleanup,
                    session: other_session,
                    guardian_exit: other_exit,
                },
            ) => app == other_app && tui == other_tui && worker == other_worker && cleanup
                == other_cleanup && session == other_session && guardian_exit == other_exit,
            _ => false,
        }
    }
}

impl vstd::std_specs::cmp::PartialEqSpecImpl for GuardianEvent {
    open spec fn obeys_eq_spec() -> bool {
        true
    }

    open spec fn eq_spec(&self, other: &Self) -> bool {
        *self == *other
    }
}

impl Eq for GuardianEvent {

}

/// A redacted protocol failure. It deliberately retains no input bytes or I/O
/// error string so diagnostics cannot expose lifecycle-adjacent secrets.
#[derive(Clone, Copy, Debug, PartialEq, Eq, Structural)]
pub enum ProtocolError {
    Timeout,
    UnexpectedEof,
    TruncatedHeader,
    TruncatedBody,
    ZeroLength,
    OversizedBody,
    BadMagic,
    UnsupportedVersion,
    WrongDirection,
    UnknownType,
    InvalidLength,
    InvalidValue,
    TrailingData,
    UnexpectedState,
    Io,
}

impl ProtocolError {
    /// The fixed sentence shown for this error.
    pub open spec fn text(self) -> Seq<char> {
        match self {
            ProtocolError::Timeout => "the lifecycle protocol deadline expired"@,
            ProtocolError::UnexpectedEof => "the lifecycle channel ended unexpectedly"@,
            ProtocolError::TruncatedHeader => "the lifecycle frame header was truncated"@,
            ProtocolError::TruncatedBody => "the lifecycle frame body was truncated"@,
            ProtocolError::ZeroLength => "the lifecycle frame body was empty"@,
            ProtocolError::OversizedBody => "the lifecycle frame body exceeded its limit"@,
            ProtocolError::BadMagic => "the lifecycle frame magic was invalid"@,
            ProtocolError::UnsupportedVersion => "the lifecycle protocol version was unsupported"@,
            ProtocolError::WrongDirection => "the lifecycle frame direction was invalid"@,
            ProtocolError::UnknownType => "the lifecycle frame type was unknown"@,
            ProtocolError::InvalidLength => "the lifecycle frame length was invalid"@,
            ProtocolError::InvalidValue => "the lifecycle frame value was invalid"@,
            ProtocolError::TrailingData => "the lifecycle stream contained trailing data"@,
            ProtocolError::UnexpectedState => "the lifecycle event was out of order"@,
            ProtocolError::Io => "the lifecycle channel failed"@,
        }
    }

    pub fn message(&self) -> (message: &'static str)
        ensures
            message@ == self.text(),
    {
        match self {
            ProtocolError::Timeout => "the lifecycle protocol deadline expired",
            ProtocolError::UnexpectedEof => "the lifecycle channel ended unexpectedly",
            ProtocolError::TruncatedHeader => "the lifecycle frame header was truncated",
            ProtocolError::TruncatedBody => "the lifecycle frame body was truncated",
            ProtocolError::ZeroLength => "the lifecycle frame body was empty",
            ProtocolError::OversizedBody => "the lifecycle frame body exceeded its limit",
            ProtocolError::BadMagic => "the lifecycle frame magic was invalid",
            ProtocolError::UnsupportedVersion => "the lifecycle protocol version was unsupported",
            ProtocolError::WrongDirection => "the lifecycle frame direction was invalid",
            ProtocolError::UnknownType => "the lifecycle frame type was unknown",
            ProtocolError::InvalidLength => "the lifecycle frame length was invalid",
            ProtocolError::InvalidValue => "the lifecycle frame value was invalid",
            ProtocolError::TrailingData => "the lifecycle stream contained trailing data",
            ProtocolError::UnexpectedState => "the lifecycle event was out of order",
            ProtocolError::Io => "the lifecycle channel failed",
        }
    }
}

/// Different protocol errors are told by different sentences.
pub proof fn law_protocol_errors_read_apart(left: ProtocolError, right: ProtocolError)
    requires
        left.text() == right.text(),
    ensures
        left == right,
{
    reveal_strlit("the lifecycle protocol deadline expired");
    assert("the lifecycle protocol deadline expired"@.len() == 39);
    reveal_strlit("the lifecycle channel ended unexpectedly");
    assert("the lifecycle channel ended unexpectedly"@.len() == 40);
    reveal_strlit("the lifecycle frame header was truncated");
    assert("the lifecycle frame header was truncated"@.len() == 40);
    reveal_strlit("the lifecycle frame body was truncated");
    assert("the lifecycle frame body was truncated"@.len() == 38);
    reveal_strlit("the lifecycle frame body was empty");
    assert("the lifecycle frame body was empty"@.len() == 34);
    reveal_strlit("the lifecycle frame body exceeded its limit");
    assert("the lifecycle frame body exceeded its limit"@.len() == 43);
    reveal_strlit("the lifecycle frame magic was invalid");
    assert("the lifecycle frame magic was invalid"@.len() == 37);
    reveal_strlit("the lifecycle protocol version was unsupported");
    assert("the lifecycle protocol version was unsupported"@.len() == 46);
    reveal_strlit("the lifecycle frame direction was invalid");
    assert("the lifecycle frame direction was invalid"@.len() == 41);
    reveal_strlit("the lifecycle frame type was unknown");
    assert("the lifecycle frame type was unknown"@.len() == 36);
    reveal_strlit("the lifecycle frame length was invalid");
    assert("the lifecycle frame length was invalid"@.len() == 38);
    reveal_strlit("the lifecycle frame value was invalid");
    assert("the lifecycle frame value was invalid"@.len() == 37);
    reveal_strlit("the lifecycle stream contained trailing data");
    assert("the lifecycle stream contained trailing data"@.len() == 44);
    reveal_strlit("the lifecycle event was out of order");
    assert("the lifecycle event was out of order"@.len() == 36);
    reveal_strlit("the lifecycle channel failed");
    assert("the lifecycle channel failed"@.len() == 28);
    assert("the lifecycle channel ended unexpectedly"@[14] != "the lifecycle frame header was truncated"@[14]);
    assert("the lifecycle frame body was truncated"@[20] != "the lifecycle frame length was invalid"@[20]);
    assert("the lifecycle frame magic was invalid"@[20] != "the lifecycle frame value was invalid"@[20]);
    assert("the lifecycle frame type was unknown"@[14] != "the lifecycle event was out of order"@[14]);
}

} // verus!
