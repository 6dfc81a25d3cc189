//! Deadline-bounded transfers over a byte channel.
//!
//! A transfer never touches the channel. It names the next outside action and
//! is told what came of it. The deadline is tested before every attempt, after
//! every progress, and on both sides of every pause, so a channel that keeps
//! trickling or keeps refusing cannot outlast it.
use vstd::prelude::*;

use crate::clock::Moment;
use crate::protocol::deadline::check_deadline;
use crate::protocol::message::ProtocolError;

verus! {

/// What the owner of the channel is asked to do next.
#[derive(Clone, Copy, Debug, PartialEq, Eq, Structural)]
pub enum WireAction {
    /// Read the monotonic clock.
    ReadClock,
    /// Read at most `limit` bytes from the channel.
    Read { limit: usize },
    /// Write the frame from `offset` on.
    Write { offset: usize },
    /// Flush the channel.
    Flush,
    /// Let another thread run.
    Yield,
}

/// What came of an action.
pub enum WireEvent {
    Clock(Moment),
    /// The channel reported `count` bytes, put at the front of `buffer`.
    Read { buffer: Vec<u8>, count: usize },
    Wrote(usize),
    Flushed,
    /// The call was interrupted before it did anything.
    Interrupted,
    /// The channel would block, or its own timeout expired.
    NotReady,
    /// The channel failed in any other way.
    Failed,
    Yielded,
}

/// Where a transfer stands.
#[derive(Clone, Copy, Debug, PartialEq, Eq, Structural)]
pub enum TransferPhase {
    BeforeAttempt,
    Attempt,
    AfterProgress,
    BeforeYield,
    Yielding,
    AfterYield,
    Complete,
    Aborted(ProtocolError),
}

/// Either the next action, or the outcome.
#[derive(Debug, PartialEq, Eq)]
pub enum TransferStep<T> {
    Next(WireAction),
    Done(Result<T, ProtocolError>),
}

/// Which part of a frame is read.
#[derive(Clone, Copy, Debug, PartialEq, Eq, Structural)]
pub enum ReadPart {
    Header,
    Body,
}

/// The phase that a clock reading leads to where it is not late, or the
/// timeout.
pub open spec fn unless_late(now: Moment, deadline: Moment, phase: TransferPhase) -> TransferPhase {
    if now.reached(deadline) {
        TransferPhase::Aborted(ProtocolError::Timeout)
    } else {
        phase
    }
}

/// The part of the retry discipline that reading, writing and flushing share.
/// `None`: the event is not answered by this part.
pub open spec fn shared_step(
    phase: TransferPhase,
    event: WireEvent,
    deadline: Moment,
) -> Option<TransferPhase> {
    match (phase, event) {
        (TransferPhase::BeforeAttempt, WireEvent::Clock(now)) => Some(
            unless_late(now, deadline, TransferPhase::Attempt),
        ),
        (TransferPhase::Attempt, WireEvent::Interrupted) => Some(TransferPhase::BeforeAttempt),
        (TransferPhase::Attempt, WireEvent::NotReady) => Some(TransferPhase::BeforeYield),
        (TransferPhase::Attempt, WireEvent::Failed) => Some(
            TransferPhase::Aborted(ProtocolError::Io),
        ),
        (TransferPhase::BeforeYield, WireEvent::Clock(now)) => Some(
            unless_late(now, deadline, TransferPhase::Yielding),
        ),
        (TransferPhase::Yielding, WireEvent::Yielded) => Some(TransferPhase::AfterYield),
        (TransferPhase::AfterYield, WireEvent::Clock(now)) => Some(
            unless_late(now, deadline, TransferPhase::BeforeAttempt),
        ),
        _ => None,
    }
}

fn phase_unless_late(now: Moment, deadline: Moment, phase: TransferPhase) -> (next: TransferPhase)
    ensures
        next == unless_late(now, deadline, phase),
{
    match check_deadline(now, deadline) {
        Ok(()) => phase,
        Err(error) => TransferPhase::Aborted(error),
    }
}

fn take_shared_step(phase: TransferPhase, event: &WireEvent, deadline: Moment) -> (next: Option<
    TransferPhase,
>)
    ensures
        next == shared_step(phase, *event, deadline),
{
    match (phase, event) {
        (TransferPhase::BeforeAttempt, WireEvent::Clock(now)) => Some(
            phase_unless_late(*now, deadline, TransferPhase::Attempt),
        ),
        (TransferPhase::Attempt, WireEvent::Interrupted) => Some(TransferPhase::BeforeAttempt),
        (TransferPhase::Attempt, WireEvent::NotReady) => Some(TransferPhase::BeforeYield),
        (TransferPhase::Attempt, WireEvent::Failed) => Some(
            TransferPhase::Aborted(ProtocolError::Io),
        ),
        (TransferPhase::BeforeYield, WireEvent::Clock(now)) => Some(
            phase_unless_late(*now, deadline, TransferPhase::Yielding),
        ),
        (TransferPhase::Yielding, WireEvent::Yielded) => Some(TransferPhase::AfterYield),
        (TransferPhase::AfterYield, WireEvent::Clock(now)) => Some(
            phase_unless_late(*now, deadline, TransferPhase::BeforeAttempt),
        ),
        _ => None,
    }
}

/// The action that a phase asks for, where the attempt itself is `attempt`.
pub open spec fn phase_step(phase: TransferPhase, attempt: WireAction) -> TransferStep<()> {
    match phase {
        TransferPhase::Attempt => TransferStep::Next(attempt),
        TransferPhase::Yielding => TransferStep::Next(WireAction::Yield),
        TransferPhase::Complete => TransferStep::Done(Ok(())),
        TransferPhase::Aborted(error) => TransferStep::Done(Err(error)),
        _ => TransferStep::Next(WireAction::ReadClock),
    }
}

fn step_of_phase(phase: TransferPhase, attempt: WireAction) -> (step: TransferStep<()>)
    ensures
        step == phase_step(phase, attempt),
{
    match phase {
        TransferPhase::Attempt => TransferStep::Next(attempt),
        TransferPhase::Yielding => TransferStep::Next(WireAction::Yield),
        TransferPhase::Complete => TransferStep::Done(Ok(())),
        TransferPhase::Aborted(error) => TransferStep::Done(Err(error)),
        _ => TransferStep::Next(WireAction::ReadClock),
    }
}

// ---------------------------------------------------------------------------
// Reading.
// ---------------------------------------------------------------------------

/// A read of an exact number of bytes.
pub struct ReadTransfer {
    pub part: ReadPart,
    pub wanted: usize,
    pub data: Vec<u8>,
    pub deadline: Moment,
    pub phase: TransferPhase,
}

#[verifier::ext_equal]
pub ghost struct ReadModel {
    pub part: ReadPart,
    pub wanted: nat,
    pub data: Seq<u8>,
    pub deadline: Moment,
    pub phase: TransferPhase,
}

impl View for ReadTransfer {
    type V = ReadModel;

    open spec fn view(&self) -> ReadModel {
        ReadModel {
            part: self.part,
            wanted: self.wanted as nat,
            data: self.data@,
            deadline: self.deadline,
            phase: self.phase,
        }
    }
}

/// What the end of the stream means, by how much had arrived.
pub open spec fn eof_error(part: ReadPart, received: nat) -> ProtocolError {
    match part {
        ReadPart::Header => if received == 0 {
            ProtocolError::UnexpectedEof
        } else {
            ProtocolError::TruncatedHeader
        },
        ReadPart::Body => ProtocolError::TruncatedBody,
    }
}

impl ReadModel {
    /// A read that has not begun. Nothing has to be read for zero bytes.
    pub open spec fn start(part: ReadPart, wanted: nat, deadline: Moment) -> Self {
        ReadModel {
            part,
            wanted,
            data: Seq::empty(),
            deadline,
            phase: if wanted == 0 {
                TransferPhase::Complete
            } else {
                TransferPhase::BeforeAttempt
            },
        }
    }

    pub open spec fn at(self, phase: TransferPhase) -> Self {
        ReadModel { phase, ..self }
    }

    /// The read after one event. An event that does not answer the outstanding
    /// action changes nothing.
    pub open spec fn after(self, event: WireEvent) -> Self {
        match shared_step(self.phase, event, self.deadline) {
            Some(phase) => self.at(phase),
            None => match (self.phase, event) {
                (TransferPhase::Attempt, WireEvent::Read { buffer, count }) => if count == 0 {
                    self.at(TransferPhase::Aborted(eof_error(self.part, self.data.len())))
                } else if count <= self.wanted - self.data.len() && count <= buffer@.len() {
                    ReadModel {
                        data: self.data + buffer@.take(count as int),
                        phase: TransferPhase::AfterProgress,
                        ..self
                    }
                } else {
                    self.at(TransferPhase::Aborted(ProtocolError::Io))
                },
                (TransferPhase::AfterProgress, WireEvent::Clock(now)) => self.at(
                    unless_late(
                        now,
                        self.deadline,
                        if self.data.len() < self.wanted {
                            TransferPhase::BeforeAttempt
                        } else {
                            TransferPhase::Complete
                        },
                    ),
                ),
                _ => self,
            },
        }
    }

    pub open spec fn step(self) -> TransferStep<()> {
        phase_step(
            self.phase,
            WireAction::Read { limit: (self.wanted - self.data.len()) as usize },
        )
    }

    /// No more was taken than was wanted, and a complete read has it all.
    pub open spec fn consistent(self) -> bool {
        &&& self.data.len() <= self.wanted
        &&& self.phase == TransferPhase::Complete ==> self.data.len() == self.wanted
        &&& (self.phase == TransferPhase::Attempt || self.phase == TransferPhase::BeforeAttempt)
            ==> self.data.len() < self.wanted
        &&& (self.phase == TransferPhase::BeforeYield || self.phase == TransferPhase::Yielding
            || self.phase == TransferPhase::AfterYield) ==> self.data.len() < self.wanted
    }
}

impl ReadTransfer {
    pub fn new(part: ReadPart, wanted: usize, deadline: Moment) -> (transfer: Self)
        ensures
            transfer@ == ReadModel::start(part, wanted as nat, deadline),
            transfer@.consistent(),
    {
        ReadTransfer {
            part,
            wanted,
            data: Vec::new(),
            deadline,
            phase: if wanted == 0 {
                TransferPhase::Complete
            } else {
                TransferPhase::BeforeAttempt
            },
        }
    }

    pub fn step(&self) -> (step: TransferStep<()>)
        requires
            self@.consistent(),
        ensures
            step == self@.step(),
    {
        step_of_phase(self.phase, WireAction::Read { limit: self.wanted - self.data.len() })
    }
}

/// Takes one event into an exact read and says what comes next.
pub fn read_exact_before(transfer: &mut ReadTransfer, event: &WireEvent) -> (step: TransferStep<()>)
    requires
        old(transfer)@.consistent(),
    ensures
        final(transfer)@ == old(transfer)@.after(*event),
        final(transfer)@.consistent(),
        step == final(transfer)@.step(),
{
    match take_shared_step(transfer.phase, event, transfer.deadline) {
        Some(phase) => {
            transfer.phase = phase;
        },
        None => match (transfer.phase, event) {
            (TransferPhase::Attempt, WireEvent::Read { buffer, count }) => {
                if *count == 0 {
                    transfer.phase = TransferPhase::Aborted(
                        match transfer.part {
                            ReadPart::Header => if transfer.data.len() == 0 {
                                ProtocolError::UnexpectedEof
                            } else {
                                ProtocolError::TruncatedHeader
                            },
                            ReadPart::Body => ProtocolError::TruncatedBody,
                        },
                    );
                } else if *count <= transfer.wanted - transfer.data.len() && *count
                    <= buffer.len() {
                    transfer.data.extend_from_slice(&buffer.as_slice()[0..*count]);
                    transfer.phase = TransferPhase::AfterProgress;
                } else {
                    transfer.phase = TransferPhase::Aborted(ProtocolError::Io);
                }
            },
            (TransferPhase::AfterProgress, WireEvent::Clock(now)) => {
                let next = if transfer.data.len() < transfer.wanted {
                    TransferPhase::BeforeAttempt
                } else {
                    TransferPhase::Complete
                };
                transfer.phase = phase_unless_late(*now, transfer.deadline, next);
            },
            _ => {},
        },
    }
    transfer.step()
}

// ---------------------------------------------------------------------------
// Writing.
// ---------------------------------------------------------------------------

/// A write of one whole frame.
pub struct WriteTransfer {
    pub input: Vec<u8>,
    pub offset: usize,
    pub deadline: Moment,
    pub phase: TransferPhase,
}

#[verifier::ext_equal]
pub ghost struct WriteModel {
    pub input: Seq<u8>,
    pub offset: nat,
    pub deadline: Moment,
    pub phase: TransferPhase,
}

impl View for WriteTransfer {
    type V = WriteModel;

    open spec fn view(&self) -> WriteModel {
        WriteModel {
            input: self.input@,
            offset: self.offset as nat,
            deadline: self.deadline,
            phase: self.phase,
        }
    }
}

impl WriteModel {
    /// A write that has not begun. Nothing has to be written for zero bytes.
    pub open spec fn start(input: Seq<u8>, deadline: Moment) -> Self {
        WriteModel {
            input,
            offset: 0,
            deadline,
            phase: if input.len() == 0 {
                TransferPhase::Complete
            } else {
                TransferPhase::BeforeAttempt
            },
        }
    }

    pub open spec fn at(self, phase: TransferPhase) -> Self {
        WriteModel { phase, ..self }
    }

    /// The write after one event. An event that does not answer the
    /// outstanding action changes nothing.
    pub open spec fn after(self, event: WireEvent) -> Self {
        match shared_step(self.phase, event, self.deadline) {
            Some(phase) => self.at(phase),
            None => match (self.phase, event) {
                (TransferPhase::Attempt, WireEvent::Wrote(count)) => if 0 < count
                    <= self.input.len() - self.offset {
                    WriteModel {
                        offset: self.offset + count as nat,
                        phase: TransferPhase::AfterProgress,
                        ..self
                    }
                } else {
                    self.at(TransferPhase::Aborted(ProtocolError::Io))
                },
                (TransferPhase::AfterProgress, WireEvent::Clock(now)) => self.at(
                    unless_late(
                        now,
                        self.deadline,
                        if self.offset < self.input.len() {
                            TransferPhase::BeforeAttempt
                        } else {
                            TransferPhase::Complete
                        },
                    ),
                ),
                _ => self,
            },
        }
    }

    pub open spec fn step(self) -> TransferStep<()> {
        phase_step(self.phase, WireAction::Write { offset: self.offset as usize })
    }

    /// No more was written than there is, and a complete write wrote it all.
    pub open spec fn consistent(self) -> bool {
        &&& self.offset <= self.input.len()
        &&& self.phase == TransferPhase::Complete ==> self.offset == self.input.len()
        &&& (self.phase == TransferPhase::Attempt || self.phase == TransferPhase::BeforeAttempt)
            ==> self.offset < self.input.len()
        &&& (self.phase == TransferPhase::BeforeYield || self.phase == TransferPhase::Yielding
            || self.phase == TransferPhase::AfterYield) ==> self.offset < self.input.len()
    }
}

impl WriteTransfer {
    pub fn new(input: Vec<u8>, deadline: Moment) -> (transfer: Self)
        ensures
            transfer@ == WriteModel::start(input@, deadline),
            transfer@.consistent(),
    {
        let phase = if input.len() == 0 {
            TransferPhase::Complete
        } else {
            TransferPhase::BeforeAttempt
        };
        WriteTransfer { input, offset: 0, deadline, phase }
    }

    pub fn step(&self) -> (step: TransferStep<()>)
        ensures
            step == self@.step(),
    {
        step_of_phase(self.phase, WireAction::Write { offset: self.offset })
    }

    /// The bytes that are still to be written.
    pub fn remaining(&self) -> (bytes: &[u8])
        requires
            self@.consistent(),
        ensures
            bytes@ == self@.input.subrange(self@.offset as int, self@.input.len() as int),
    {
        &self.input.as_slice()[self.offset..self.input.len()]
    }
}

/// Takes one event into a write and says what comes next.
pub fn write_all_before(transfer: &mut WriteTransfer, event: &WireEvent) -> (step: TransferStep<()>)
    requires
        old(transfer)@.consistent(),
    ensures
        final(transfer)@ == old(transfer)@.after(*event),
        final(transfer)@.consistent(),
        step == final(transfer)@.step(),
{
    match take_shared_step(transfer.phase, event, transfer.deadline) {
        Some(phase) => {
            transfer.phase = phase;
        },
        None => match (transfer.phase, event) {
            (TransferPhase::Attempt, WireEvent::Wrote(count)) => {
                if 0 < *count && *count <= transfer.input.len() - transfer.offset {
                    transfer.offset = transfer.offset + *count;
                    transfer.phase = TransferPhase::AfterProgress;
                } else {
                    transfer.phase = TransferPhase::Aborted(ProtocolError::Io);
                }
            },
            (TransferPhase::AfterProgress, WireEvent::Clock(now)) => {
                let next = if transfer.offset < transfer.input.len() {
                    TransferPhase::BeforeAttempt
                } else {
                    TransferPhase::Complete
                };
                transfer.phase = phase_unless_late(*now, transfer.deadline, next);
            },
            _ => {},
        },
    }
    transfer.step()
}

// ---------------------------------------------------------------------------
// Flushing.
// ---------------------------------------------------------------------------

/// A flush of the channel.
#[derive(Clone, Copy, Debug, PartialEq, Eq, Structural)]
pub struct FlushTransfer {
    pub deadline: Moment,
    pub phase: TransferPhase,
}

impl FlushTransfer {
    pub open spec fn start(deadline: Moment) -> Self {
        FlushTransfer { deadline, phase: TransferPhase::BeforeAttempt }
    }

    /// The flush after one event. An event that does not answer the
    /// outstanding action changes nothing.
    pub open spec fn after(self, event: WireEvent) -> Self {
        match shared_step(self.phase, event, self.deadline) {
            Some(phase) => FlushTransfer { phase, ..self },
            None => match (self.phase, event) {
                (TransferPhase::Attempt, WireEvent::Flushed) => FlushTransfer {
                    phase: TransferPhase::AfterProgress,
                    ..self
                },
                (TransferPhase::AfterProgress, WireEvent::Clock(now)) => FlushTransfer {
                    phase: unless_late(now, self.deadline, TransferPhase::Complete),
                    ..self
                },
                _ => self,
            },
        }
    }

    pub open spec fn spec_step(self) -> TransferStep<()> {
        phase_step(self.phase, WireAction::Flush)
    }

    pub fn new(deadline: Moment) -> (transfer: Self)
        ensures
            transfer == Self::start(deadline),
    {
        FlushTransfer { deadline, phase: TransferPhase::BeforeAttempt }
    }

    pub fn step(&self) -> (step: TransferStep<()>)
        ensures
            step == self.spec_step(),
    {
        step_of_phase(self.phase, WireAction::Flush)
    }
}

/// Takes one event into a flush and says what comes next.
pub fn flush_before(transfer: &mut FlushTransfer, event: &WireEvent) -> (step: TransferStep<()>)
    ensures
        *final(transfer) == old(transfer).after(*event),
        step == final(transfer).spec_step(),
{
    match take_shared_step(transfer.phase, event, transfer.deadline) {
        Some(phase) => {
            transfer.phase = phase;
        },
        None => match (transfer.phase, event) {
            (TransferPhase::Attempt, WireEvent::Flushed) => {
                transfer.phase = TransferPhase::AfterProgress;
            },
            (TransferPhase::AfterProgress, WireEvent::Clock(now)) => {
                transfer.phase = phase_unless_late(
                    *now,
                    transfer.deadline,
                    TransferPhase::Complete,
                );
            },
            _ => {},
        },
    }
    transfer.step()
}

} // verus!
