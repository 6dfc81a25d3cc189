//! Move-only proofs that a transcript hands out.
//!
//! None of them can be copied, and only a receiver that accepted the matching
//! transition can mint one.
use vstd::prelude::*;

use crate::protocol::message::GuardianExitDisposition;

verus! {

/// The coordinator accepted an initial `Ready` or a post-suspend `Resumed`.
#[must_use]
pub struct VerifiedReady {
    private: (),
}

/// The coordinator accepted the `InputGateOpened` acknowledgement.
#[must_use]
pub struct VerifiedOpenGateAck {
    private: (),
}

/// The guardian accepted the initial `OpenInputGate` after publishing `Ready`.
#[must_use]
pub struct VerifiedInitialOpenGateCommand {
    private: (),
}

/// The guardian accepted a new `OpenInputGate` after the suspend/resume
/// handshake. It is distinct from the initial proof, so a stale gate of the
/// first generation cannot recreate ingress.
#[must_use]
pub struct VerifiedResumeOpenGateCommand {
    private: (),
}

/// The guardian accepted `Suspend` while active.
#[must_use]
pub struct VerifiedSuspendCommand {
    private: (),
}

/// The guardian accepted `Resume` with this exact size.
#[must_use]
pub struct VerifiedResumeCommand {
    rows: u16,
    cols: u16,
}

/// The guardian accepted `Resize` with this exact geometry.
#[must_use]
pub struct VerifiedResizeCommand {
    rows: u16,
    cols: u16,
}

/// The coordinator restored the exact outer terminal after `TerminalQuiesced`.
#[must_use]
pub struct VerifiedTerminalRestoredCommand {
    private: (),
}

/// The guardian's final disposition, bound to the complete transcript.
#[must_use]
pub struct VerifiedGuardianExitDisposition {
    disposition: GuardianExitDisposition,
}

impl VerifiedReady {
    pub(crate) fn mint() -> Self {
        VerifiedReady { private: () }
    }

    pub fn redacted(&self) -> (text: &'static str)
        ensures
            text@ == "VerifiedReady(<redacted>)"@,
    {
        "VerifiedReady(<redacted>)"
    }
}

impl VerifiedOpenGateAck {
    pub(crate) fn mint() -> Self {
        VerifiedOpenGateAck { private: () }
    }

    pub fn redacted(&self) -> (text: &'static str)
        ensures
            text@ == "VerifiedOpenGateAck(<redacted>)"@,
    {
        "VerifiedOpenGateAck(<redacted>)"
    }
}

impl VerifiedInitialOpenGateCommand {
    pub(crate) fn mint() -> Self {
        VerifiedInitialOpenGateCommand { private: () }
    }

    pub fn redacted(&self) -> (text: &'static str)
        ensures
            text@ == "VerifiedInitialOpenGateCommand(<redacted>)"@,
    {
        "VerifiedInitialOpenGateCommand(<redacted>)"
    }
}

impl VerifiedResumeOpenGateCommand {
    pub(crate) fn mint() -> Self {
        VerifiedResumeOpenGateCommand { private: () }
    }

    pub fn redacted(&self) -> (text: &'static str)
        ensures
            text@ == "VerifiedResumeOpenGateCommand(<redacted>)"@,
    {
        "VerifiedResumeOpenGateCommand(<redacted>)"
    }
}

impl VerifiedSuspendCommand {
    pub(crate) fn mint() -> Self {
        VerifiedSuspendCommand { private: () }
    }

    pub fn redacted(&self) -> (text: &'static str)
        ensures
            text@ == "VerifiedSuspendCommand(<redacted>)"@,
    {
        "VerifiedSuspendCommand(<redacted>)"
    }
}

impl VerifiedTerminalRestoredCommand {
    pub(crate) fn mint() -> Self {
        VerifiedTerminalRestoredCommand { private: () }
    }

    pub fn redacted(&self) -> (text: &'static str)
        ensures
            text@ == "VerifiedTerminalRestoredCommand(<redacted>)"@,
    {
        "VerifiedTerminalRestoredCommand(<redacted>)"
    }
}

impl VerifiedResumeCommand {
    /// The size that the command carried.
    pub closed spec fn size(&self) -> (u16, u16) {
        (self.rows, self.cols)
    }

    pub(crate) fn mint(rows: u16, cols: u16) -> (verified: Self)
        ensures
            verified.size() == (rows, cols),
    {
        VerifiedResumeCommand { rows, cols }
    }

    pub fn rows(&self) -> (rows: u16)
        ensures
            rows == self.size().0,
    {
        self.rows
    }

    pub fn cols(&self) -> (cols: u16)
        ensures
            cols == self.size().1,
    {
        self.cols
    }

    pub fn redacted(&self) -> (text: &'static str)
        ensures
            text@ == "VerifiedResumeCommand(<redacted>)"@,
    {
        "VerifiedResumeCommand(<redacted>)"
    }
}

impl VerifiedResizeCommand {
    /// The size that the command carried.
    pub closed spec fn size(&self) -> (u16, u16) {
        (self.rows, self.cols)
    }

    pub(crate) fn mint(rows: u16, cols: u16) -> (verified: Self)
        ensures
            verified.size() == (rows, cols),
    {
        VerifiedResizeCommand { rows, cols }
    }

    pub fn rows(&self) -> (rows: u16)
        ensures
            rows == self.size().0,
    {
        self.rows
    }

    pub fn cols(&self) -> (cols: u16)
        ensures
            cols == self.size().1,
    {
        self.cols
    }

    pub fn redacted(&self) -> (text: &'static str)
        ensures
            text@ == "VerifiedResizeCommand(<redacted>)"@,
    {
        "VerifiedResizeCommand(<redacted>)"
    }
}

impl VerifiedGuardianExitDisposition {
    /// The disposition that the terminal frame carried.
    pub closed spec fn disposition(&self) -> GuardianExitDisposition {
        self.disposition
    }

    pub(crate) fn mint(disposition: GuardianExitDisposition) -> (verified: Self)
        ensures
            verified.disposition() == disposition,
    {
        VerifiedGuardianExitDisposition { disposition }
    }

    pub fn into_disposition(self) -> (disposition: GuardianExitDisposition)
        ensures
            disposition == self.disposition(),
    {
        self.disposition
    }

    pub fn redacted(&self) -> (text: &'static str)
        ensures
            text@ == "VerifiedGuardianExitDisposition(<redacted>)"@,
    {
        "VerifiedGuardianExitDisposition(<redacted>)"
    }
}

} // verus!
