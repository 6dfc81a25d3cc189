//! Sending and receiving whole frames before a deadline.
use vstd::prelude::*;

use crate::clock::Moment;
use crate::protocol::frame::{
    build_frame, command_frame, direct, directed, event_frame, frame_bytes, header_fields,
    parse_header, valid_direction,
};
use crate::protocol::message::{
    lemma_fingerprint_extensional, CoordinatorCommand, GuardianEvent, ProtocolError,
    TerminalSnapshotFingerprint,
};
use crate::protocol::transfer::{
    flush_before, read_exact_before, write_all_before, FlushTransfer, ReadModel, ReadPart,
    ReadTransfer, TransferPhase, TransferStep, WireAction, WireEvent, WriteModel, WriteTransfer,
};
use crate::protocol::wire::{
    command_valid, decode_command, decode_event, encode_command, encode_event, event_valid,
    frame_command, frame_event, law_command_round_trip, law_event_round_trip, ReceivedFrame,
    COORDINATOR_DIRECTION, GUARDIAN_DIRECTION, GUARDIAN_TERMINAL_ARMED, HEADER_BYTES,
    MAX_BODY_BYTES, PAYLOAD_VERSION, PROTOCOL_VERSION,
};

verus! {

// ---------------------------------------------------------------------------
// Sending.
// ---------------------------------------------------------------------------

/// One frame on its way out: written in full, then flushed.
pub struct FrameSender {
    pub write: WriteTransfer,
    pub flush: FlushTransfer,
}

#[verifier::ext_equal]
pub ghost struct SendModel {
    pub write: WriteModel,
    pub flush: FlushTransfer,
}

impl View for FrameSender {
    type V = SendModel;

    open spec fn view(&self) -> SendModel {
        SendModel { write: self.write@, flush: self.flush }
    }
}

impl SendModel {
    pub open spec fn start(frame: Seq<u8>, deadline: Moment) -> Self {
        SendModel {
            write: WriteModel::start(frame, deadline),
            flush: FlushTransfer::start(deadline),
        }
    }

    pub open spec fn after(self, event: WireEvent) -> Self {
        if self.write.phase == TransferPhase::Complete {
            SendModel { flush: self.flush.after(event), ..self }
        } else {
            SendModel { write: self.write.after(event), ..self }
        }
    }

    pub open spec fn step(self) -> TransferStep<()> {
        if self.write.phase == TransferPhase::Complete {
            self.flush.spec_step()
        } else {
            self.write.step()
        }
    }

    /// The sender after a whole series of events.
    pub open spec fn after_all(self, events: Seq<WireEvent>) -> Self
        decreases events.len(),
    {
        if events.len() == 0 {
            self
        } else {
            self.after_all(events.drop_last()).after(events.last())
        }
    }

    /// The bytes that the channel takes with one event.
    pub open spec fn taken_by(self, event: WireEvent) -> Seq<u8> {
        let next = self.after(event);
        self.write.input.subrange(self.write.offset as int, next.write.offset as int)
    }

    /// All the bytes that the channel took over a series of events.
    pub open spec fn taken(self, events: Seq<WireEvent>) -> Seq<u8>
        decreases events.len(),
    {
        if events.len() == 0 {
            Seq::empty()
        } else {
            self.taken(events.drop_last()) + self.after_all(events.drop_last()).taken_by(
                events.last(),
            )
        }
    }
}

impl FrameSender {
    fn start(frame: Vec<u8>, deadline: Moment) -> (sender: Self)
        ensures
            sender@ == SendModel::start(frame@, deadline),
            sender@.write.consistent(),
    {
        FrameSender {
            write: WriteTransfer::new(frame, deadline),
            flush: FlushTransfer::new(deadline),
        }
    }

    /// What is to be done next.
    pub fn step(&self) -> (step: TransferStep<()>)
        ensures
            step == self@.step(),
    {
        if self.write.phase == TransferPhase::Complete {
            self.flush.step()
        } else {
            self.write.step()
        }
    }

    /// Takes in what came of the last action.
    pub fn advance(&mut self, event: &WireEvent) -> (step: TransferStep<()>)
        requires
            old(self)@.write.consistent(),
        ensures
            final(self)@ == old(self)@.after(*event),
            final(self)@.write.consistent(),
            step == final(self)@.step(),
    {
        if self.write.phase == TransferPhase::Complete {
            flush_before(&mut self.flush, event);
        } else {
            write_all_before(&mut self.write, event);
        }
        self.step()
    }
}

/// Starts sending a body under a type byte.
pub fn send_frame(direction_and_type: u8, body: &[u8], deadline: Moment) -> (sender: Result<
    FrameSender,
    ProtocolError,
>)
    ensures
        match sender {
            Ok(sender) => {
                &&& 1 <= body@.len() <= MAX_BODY_BYTES
                &&& sender@ == SendModel::start(frame_bytes(direction_and_type, body@), deadline)
                &&& sender@.write.consistent()
            },
            Err(error) => if body@.len() == 0 {
                error == ProtocolError::ZeroLength
            } else {
                body@.len() > MAX_BODY_BYTES && error == ProtocolError::OversizedBody
            },
        },
{
    match build_frame(direction_and_type, body) {
        Ok(frame) => Ok(FrameSender::start(frame, deadline)),
        Err(error) => Err(error),
    }
}

/// Starts sending one typed command. Only a command without a usable terminal
/// size is refused.
pub fn send_coordinator_command(command: CoordinatorCommand, deadline: Moment) -> (sender: Result<
    FrameSender,
    ProtocolError,
>)
    ensures
        match sender {
            Ok(sender) => {
                &&& command_valid(command)
                &&& sender@ == SendModel::start(command_frame(command), deadline)
                &&& sender@.write.consistent()
            },
            Err(error) => error == ProtocolError::InvalidValue && !command_valid(command),
        },
{
    let (message_type, body) = match encode_command(command) {
        Ok(encoded) => encoded,
        Err(error) => {
            return Err(error);
        },
    };
    proof {
        law_command_round_trip(command);
    }
    send_frame(direct(COORDINATOR_DIRECTION, message_type), body.as_slice(), deadline)
}

/// Starts sending one typed event. Only an event that carries an impossible
/// value is refused.
pub fn send_guardian_event(event: GuardianEvent, deadline: Moment) -> (sender: Result<
    FrameSender,
    ProtocolError,
>)
    ensures
        match sender {
            Ok(sender) => {
                &&& event_valid(event)
                &&& sender@ == SendModel::start(event_frame(event), deadline)
                &&& sender@.write.consistent()
            },
            Err(error) => error == ProtocolError::InvalidValue && !event_valid(event),
        },
{
    let (message_type, body) = match encode_event(event) {
        Ok(encoded) => encoded,
        Err(error) => {
            return Err(error);
        },
    };
    proof {
        law_event_round_trip(event);
    }
    send_frame(direct(GUARDIAN_DIRECTION, message_type), body.as_slice(), deadline)
}

/// The one fixed invalid frame that a harness may emit: a wrong magic.
pub open spec fn malformed_frame() -> Seq<u8> {
    seq![0x42u8, 0x41, 0x44, 0x21, PROTOCOL_VERSION, 0x86, 0, 1]
}

/// Starts sending the one fixed invalid guardian frame of the process harness.
/// Keeping the malformed bytes here keeps arbitrary bytes off the wire.
pub fn send_fixture_malformed_guardian_frame(deadline: Moment) -> (sender: FrameSender)
    ensures
        sender@ == SendModel::start(malformed_frame(), deadline),
        sender@.write.consistent(),
{
    let frame: Vec<u8> = vec![0x42, 0x41, 0x44, 0x21, PROTOCOL_VERSION, 0x86, 0, 1];
    FrameSender::start(frame, deadline)
}

/// Starts sending a well-framed `TerminalArmed` event with one fixed trailing
/// body byte. The receiver must refuse it before it accepts terminal authority.
pub fn send_fixture_trailing_terminal_armed(
    snapshot: TerminalSnapshotFingerprint,
    deadline: Moment,
) -> (sender: Result<FrameSender, ProtocolError>)
    ensures
        sender matches Ok(sender) && {
            &&& sender@ == SendModel::start(
                frame_bytes(
                    directed(GUARDIAN_DIRECTION, GUARDIAN_TERMINAL_ARMED),
                    seq![PAYLOAD_VERSION] + snapshot.digest() + seq![0xa5u8],
                ),
                deadline,
            )
            &&& sender@.write.consistent()
        },
{
    let mut body: Vec<u8> = Vec::new();
    body.push(PAYLOAD_VERSION);
    body.extend_from_slice(snapshot.as_bytes());
    body.push(0xa5);
    proof {
        lemma_fingerprint_extensional(snapshot, snapshot);
    }
    send_frame(
        direct(GUARDIAN_DIRECTION, GUARDIAN_TERMINAL_ARMED),
        body.as_slice(),
        deadline,
    )
}

// ---------------------------------------------------------------------------
// Receiving.
// ---------------------------------------------------------------------------

/// How far a frame has arrived.
pub enum FrameStage {
    Header,
    Body { message_type: u8 },
    Complete(ReceivedFrame),
    Aborted(ProtocolError),
}

/// One frame on its way in: a header, then the body that it announces.
pub struct FrameReceiver {
    pub expected_direction: u8,
    pub deadline: Moment,
    pub stage: FrameStage,
    pub transfer: ReadTransfer,
}

#[verifier::ext_equal]
pub ghost enum StageModel {
    Header,
    Body { message_type: u8 },
    Complete { message_type: u8, body: Seq<u8> },
    Aborted(ProtocolError),
}

#[verifier::ext_equal]
pub ghost struct ReceiveModel {
    pub expected_direction: u8,
    pub deadline: Moment,
    pub stage: StageModel,
    pub transfer: ReadModel,
}

impl View for FrameReceiver {
    type V = ReceiveModel;

    open spec fn view(&self) -> ReceiveModel {
        ReceiveModel {
            expected_direction: self.expected_direction,
            deadline: self.deadline,
            stage: match self.stage {
                FrameStage::Header => StageModel::Header,
                FrameStage::Body { message_type } => StageModel::Body { message_type },
                FrameStage::Complete(frame) => StageModel::Complete {
                    message_type: frame.message_type,
                    body: frame.body@,
                },
                FrameStage::Aborted(error) => StageModel::Aborted(error),
            },
            transfer: self.transfer@,
        }
    }
}

impl ReceiveModel {
    pub open spec fn start(expected_direction: u8, deadline: Moment) -> Self {
        ReceiveModel {
            expected_direction,
            deadline,
            stage: StageModel::Header,
            transfer: ReadModel::start(ReadPart::Header, HEADER_BYTES as nat, deadline),
        }
    }

    /// The receiver after the transfer of the present part moved on.
    pub open spec fn with_transfer(self, transfer: ReadModel) -> Self {
        match transfer.phase {
            TransferPhase::Aborted(error) => ReceiveModel {
                stage: StageModel::Aborted(error),
                transfer,
                ..self
            },
            TransferPhase::Complete => match self.stage {
                StageModel::Header => match header_fields(transfer.data, self.expected_direction) {
                    Err(error) => ReceiveModel {
                        stage: StageModel::Aborted(error),
                        transfer,
                        ..self
                    },
                    Ok((message_type, body_len)) => ReceiveModel {
                        stage: StageModel::Body { message_type },
                        transfer: ReadModel::start(
                            ReadPart::Body,
                            body_len as nat,
                            self.deadline,
                        ),
                        ..self
                    },
                },
                StageModel::Body { message_type } => ReceiveModel {
                    stage: StageModel::Complete { message_type, body: transfer.data },
                    transfer: ReadModel { data: Seq::empty(), ..transfer },
                    ..self
                },
                _ => self,
            },
            _ => ReceiveModel { transfer, ..self },
        }
    }

    pub open spec fn after(self, event: WireEvent) -> Self {
        match self.stage {
            StageModel::Complete { .. } => self,
            StageModel::Aborted(_) => self,
            _ => self.with_transfer(self.transfer.after(event)),
        }
    }

    pub open spec fn step(self) -> TransferStep<()> {
        match self.stage {
            StageModel::Complete { .. } => TransferStep::Done(Ok(())),
            StageModel::Aborted(error) => TransferStep::Done(Err(error)),
            _ => self.transfer.step(),
        }
    }

    /// What a reader of commands has: the next action or the outcome.
    pub open spec fn command_step(self) -> TransferStep<CoordinatorCommand> {
        match self.stage {
            StageModel::Complete { message_type, body } => TransferStep::Done(
                frame_command(message_type, body),
            ),
            StageModel::Aborted(error) => TransferStep::Done(Err(error)),
            _ => TransferStep::Next(next_action(self.transfer.step())),
        }
    }

    /// What a reader of events has: the next action or the outcome.
    pub open spec fn event_step(self) -> TransferStep<GuardianEvent> {
        match self.stage {
            StageModel::Complete { message_type, body } => TransferStep::Done(
                frame_event(message_type, body),
            ),
            StageModel::Aborted(error) => TransferStep::Done(Err(error)),
            _ => TransferStep::Next(next_action(self.transfer.step())),
        }
    }

    /// Each part is read into its own transfer, and a part that ended moved the
    /// receiver on.
    pub open spec fn consistent(self) -> bool {
        &&& valid_direction(self.expected_direction)
        &&& match self.stage {
            StageModel::Header => self.pending_part(ReadPart::Header) && self.transfer.wanted
                == HEADER_BYTES,
            StageModel::Body { .. } => self.pending_part(ReadPart::Body) && 1
                <= self.transfer.wanted <= MAX_BODY_BYTES,
            _ => true,
        }
    }

    pub open spec fn pending_part(self, part: ReadPart) -> bool {
        &&& self.transfer.part == part
        &&& self.transfer.deadline == self.deadline
        &&& self.transfer.consistent()
        &&& self.transfer.phase != TransferPhase::Complete
        &&& !(self.transfer.phase is Aborted)
    }
}

/// The action of a step that is not the outcome.
pub open spec fn next_action(step: TransferStep<()>) -> WireAction {
    match step {
        TransferStep::Next(action) => action,
        TransferStep::Done(_) => WireAction::ReadClock,
    }
}

impl FrameReceiver {
    /// Starts receiving one frame of a direction.
    pub fn new(expected_direction: u8, deadline: Moment) -> (receiver: Self)
        requires
            valid_direction(expected_direction),
        ensures
            receiver@ == ReceiveModel::start(expected_direction, deadline),
            receiver@.consistent(),
    {
        FrameReceiver {
            expected_direction,
            deadline,
            stage: FrameStage::Header,
            transfer: ReadTransfer::new(ReadPart::Header, HEADER_BYTES, deadline),
        }
    }

    /// What is to be done next.
    pub fn step(&self) -> (step: TransferStep<()>)
        requires
            self@.consistent(),
        ensures
            step == self@.step(),
    {
        match &self.stage {
            FrameStage::Complete(_) => TransferStep::Done(Ok(())),
            FrameStage::Aborted(error) => TransferStep::Done(Err(*error)),
            _ => self.transfer.step(),
        }
    }
}

/// Takes one event into a frame and says what comes next. The header is judged
/// as soon as it is complete; a frame with a bad header is never read further.
pub fn receive_frame(receiver: &mut FrameReceiver, event: &WireEvent) -> (step: TransferStep<()>)
    requires
        old(receiver)@.consistent(),
    ensures
        final(receiver)@ == old(receiver)@.after(*event),
        final(receiver)@.consistent(),
        step == final(receiver)@.step(),
{
    let in_body = match &receiver.stage {
        FrameStage::Header => None,
        FrameStage::Body { message_type } => Some(*message_type),
        _ => {
            return receiver.step();
        },
    };
    read_exact_before(&mut receiver.transfer, event);
    match receiver.transfer.phase {
        TransferPhase::Aborted(error) => {
            receiver.stage = FrameStage::Aborted(error);
        },
        TransferPhase::Complete => match in_body {
            None => match parse_header(
                receiver.transfer.data.as_slice(),
                receiver.expected_direction,
            ) {
                Err(error) => {
                    receiver.stage = FrameStage::Aborted(error);
                },
                Ok((message_type, body_len)) => {
                    receiver.stage = FrameStage::Body { message_type };
                    receiver.transfer = ReadTransfer::new(
                        ReadPart::Body,
                        body_len,
                        receiver.deadline,
                    );
                },
            },
            Some(message_type) => {
                let mut body: Vec<u8> = Vec::new();
                core::mem::swap(&mut body, &mut receiver.transfer.data);
                receiver.stage = FrameStage::Complete(ReceivedFrame { message_type, body });
            },
        },
        _ => {},
    }
    receiver.step()
}

/// Takes one event into a command frame. Once the frame is complete, the step
/// is the command in it.
pub fn receive_coordinator_command(receiver: &mut FrameReceiver, event: &WireEvent) -> (step:
    TransferStep<CoordinatorCommand>)
    requires
        old(receiver)@.consistent(),
    ensures
        final(receiver)@ == old(receiver)@.after(*event),
        final(receiver)@.consistent(),
        step == final(receiver)@.command_step(),
{
    match receive_frame(receiver, event) {
        TransferStep::Next(action) => TransferStep::Next(action),
        TransferStep::Done(Err(error)) => TransferStep::Done(Err(error)),
        TransferStep::Done(Ok(())) => match &receiver.stage {
            FrameStage::Complete(frame) => TransferStep::Done(decode_command(frame)),
            _ => TransferStep::Done(Err(ProtocolError::Io)),
        },
    }
}

/// Takes one event into an event frame. Once the frame is complete, the step
/// is the event in it.
pub fn receive_guardian_event(receiver: &mut FrameReceiver, event: &WireEvent) -> (step:
    TransferStep<GuardianEvent>)
    requires
        old(receiver)@.consistent(),
    ensures
        final(receiver)@ == old(receiver)@.after(*event),
        final(receiver)@.consistent(),
        step == final(receiver)@.event_step(),
{
    match receive_frame(receiver, event) {
        TransferStep::Next(action) => TransferStep::Next(action),
        TransferStep::Done(Err(error)) => TransferStep::Done(Err(error)),
        TransferStep::Done(Ok(())) => match &receiver.stage {
            FrameStage::Complete(frame) => TransferStep::Done(decode_event(frame)),
            _ => TransferStep::Done(Err(ProtocolError::Io)),
        },
    }
}

} // verus!
