//! What frames come to, however the channel cuts and delays them.
use vstd::prelude::*;

use crate::clock::Moment;
use crate::protocol::frame::{
    command_frame, event_frame, first_command, first_event, first_frame, header_fields,
    law_command_frame_round_trip, law_event_frame_round_trip, valid_direction,
};
use crate::protocol::framing::{malformed_frame, ReceiveModel, SendModel, StageModel};
use crate::protocol::message::{CoordinatorCommand, GuardianEvent, ProtocolError};
use crate::protocol::transfer::{TransferPhase, TransferStep, WireAction, WireEvent};
use crate::protocol::wire::{
    command_valid, event_valid, magic, COORDINATOR_DIRECTION, GUARDIAN_DIRECTION, MAX_BODY_BYTES,
};

verus! {

// ---------------------------------------------------------------------------
// Sending.
// ---------------------------------------------------------------------------

proof fn lemma_send_progress(start: SendModel, frame: Seq<u8>, deadline: Moment, events: Seq<WireEvent>)
    requires
        start == SendModel::start(frame, deadline),
        frame.len() > 0,
    ensures
        ({
            let sender = start.after_all(events);
            &&& sender.write.input == frame
            &&& sender.write.consistent()
            &&& start.taken(events) == frame.take(sender.write.offset as int)
        }),
    decreases events.len(),
{
    if events.len() == 0 {
        assert(frame.take(0) =~= Seq::<u8>::empty());
    } else {
        let before = events.drop_last();
        lemma_send_progress(start, frame, deadline, before);
        let sender = start.after_all(before);
        let next = sender.after(events.last());
        assert(frame.take(sender.write.offset as int) + frame.subrange(
            sender.write.offset as int,
            next.write.offset as int,
        ) =~= frame.take(next.write.offset as int));
    }
}

/// However the channel cuts and delays a frame, at every point it has taken a
/// prefix of the frame, each byte once and in order; a send that succeeds has
/// handed over the whole frame.
pub proof fn law_channel_takes_the_frame_in_order(
    frame: Seq<u8>,
    deadline: Moment,
    events: Seq<WireEvent>,
)
    requires
        frame.len() > 0,
    ensures
        ({
            let start = SendModel::start(frame, deadline);
            let taken = start.taken(events);
            &&& taken.len() <= frame.len()
            &&& taken == frame.take(taken.len() as int)
            &&& start.after_all(events).step() == TransferStep::Done(Ok::<(), ProtocolError>(()))
                ==> taken == frame
        }),
{
    let start = SendModel::start(frame, deadline);
    lemma_send_progress(start, frame, deadline, events);
    let sender = start.after_all(events);
    assert(frame.take(frame.len() as int) =~= frame);
    assert(start.taken(events).len() == sender.write.offset);
}

// ---------------------------------------------------------------------------
// Receiving.
// ---------------------------------------------------------------------------

/// The receiver after a whole series of events.
pub open spec fn receive_all(start: ReceiveModel, events: Seq<WireEvent>) -> ReceiveModel
    decreases events.len(),
{
    if events.len() == 0 {
        start
    } else {
        receive_all(start, events.drop_last()).after(events.last())
    }
}

/// How much of the stream a receiver has taken.
pub open spec fn position(receiver: ReceiveModel) -> int {
    match receiver.stage {
        StageModel::Header => receiver.transfer.data.len() as int,
        StageModel::Body { .. } => 8 + receiver.transfer.data.len() as int,
        _ => 0,
    }
}

/// An event as a channel gives it that carries the stream: clocks are not
/// late, a read delivers the next bytes of the stream, within the limit that
/// was asked for, and reports the end exactly at the end.
pub open spec fn honest_event(receiver: ReceiveModel, event: WireEvent, stream: Seq<u8>) -> bool {
    match event {
        WireEvent::Clock(now) => !now.reached(receiver.deadline),
        WireEvent::Read { buffer, count } => {
            let from = position(receiver);
            if count == 0 {
                from == stream.len()
            } else {
                &&& count <= receiver.transfer.wanted - receiver.transfer.data.len()
                &&& count <= buffer@.len()
                &&& from + count <= stream.len()
                &&& buffer@.take(count as int) == stream.subrange(from, from + count)
            }
        },
        WireEvent::Failed => false,
        _ => true,
    }
}

pub open spec fn honest(start: ReceiveModel, events: Seq<WireEvent>, stream: Seq<u8>) -> bool
    decreases events.len(),
{
    events.len() == 0 || {
        &&& honest(start, events.drop_last(), stream)
        &&& honest_event(receive_all(start, events.drop_last()), events.last(), stream)
    }
}

/// What a receiver knows of the stream.
spec fn tracks(receiver: ReceiveModel, direction: u8, deadline: Moment, stream: Seq<u8>) -> bool {
    &&& receiver.expected_direction == direction
    &&& receiver.deadline == deadline
    &&& receiver.consistent()
    &&& match receiver.stage {
        StageModel::Header => {
            &&& receiver.transfer.data.len() <= stream.len()
            &&& receiver.transfer.data == stream.take(receiver.transfer.data.len() as int)
        },
        StageModel::Body { message_type } => {
            &&& stream.len() >= 8
            &&& header_fields(stream.subrange(0, 8), direction) == Ok::<
                (u8, usize),
                ProtocolError,
            >((message_type, receiver.transfer.wanted as usize))
            &&& 8 + receiver.transfer.data.len() <= stream.len()
            &&& receiver.transfer.data == stream.subrange(8, 8 + receiver.transfer.data.len() as int)
        },
        StageModel::Complete { message_type, body } => first_frame(stream, direction) == Ok::<
            (u8, Seq<u8>),
            ProtocolError,
        >((message_type, body)),
        StageModel::Aborted(error) => first_frame(stream, direction) == Err::<
            (u8, Seq<u8>),
            ProtocolError,
        >(error),
    }
}

proof fn lemma_honest_step(
    receiver: ReceiveModel,
    event: WireEvent,
    direction: u8,
    deadline: Moment,
    stream: Seq<u8>,
)
    requires
        tracks(receiver, direction, deadline, stream),
        honest_event(receiver, event, stream),
    ensures
        tracks(receiver.after(event), direction, deadline, stream),
{
    let next = receiver.after(event);
    let data = receiver.transfer.data;
    match receiver.stage {
        StageModel::Header => {
            let transfer = receiver.transfer.after(event);
            if let WireEvent::Read { buffer, count } = event {
                if receiver.transfer.phase == TransferPhase::Attempt && count > 0 {
                    assert(transfer.data =~= stream.take(data.len() + count));
                }
            }
            if transfer.phase == TransferPhase::Complete {
                assert(transfer.data =~= stream.subrange(0, 8));
                if let Ok((message_type, body_len)) = header_fields(transfer.data, direction) {
                    assert(stream.subrange(8, 8) =~= Seq::<u8>::empty());
                }
            }
        },
        StageModel::Body { message_type } => {
            let transfer = receiver.transfer.after(event);
            if let WireEvent::Read { buffer, count } = event {
                if receiver.transfer.phase == TransferPhase::Attempt && count > 0 {
                    assert(transfer.data =~= stream.subrange(8, 8 + data.len() + count));
                }
            }
        },
        _ => {},
    }
}

proof fn lemma_honest_run(
    direction: u8,
    deadline: Moment,
    events: Seq<WireEvent>,
    stream: Seq<u8>,
)
    requires
        valid_direction(direction),
        honest(ReceiveModel::start(direction, deadline), events, stream),
    ensures
        tracks(
            receive_all(ReceiveModel::start(direction, deadline), events),
            direction,
            deadline,
            stream,
        ),
    decreases events.len(),
{
    let start = ReceiveModel::start(direction, deadline);
    if events.len() == 0 {
        assert(stream.take(0) =~= Seq::<u8>::empty());
    } else {
        lemma_honest_run(direction, deadline, events.drop_last(), stream);
        lemma_honest_step(
            receive_all(start, events.drop_last()),
            events.last(),
            direction,
            deadline,
            stream,
        );
    }
}

/// However an honest channel cuts and delays the stream, a coordinator that
/// comes to an outcome comes to the same one: the first event of the stream,
/// or the error that the bytes themselves call for.
pub proof fn law_event_depends_on_the_bytes_alone(
    deadline: Moment,
    events: Seq<WireEvent>,
    stream: Seq<u8>,
)
    requires
        honest(ReceiveModel::start(GUARDIAN_DIRECTION, deadline), events, stream),
    ensures
        receive_all(ReceiveModel::start(GUARDIAN_DIRECTION, deadline), events).event_step() matches
            TransferStep::Done(outcome) ==> outcome == first_event(stream),
{
    lemma_honest_run(GUARDIAN_DIRECTION, deadline, events, stream);
}

/// However an honest channel cuts and delays the stream, a guardian that comes
/// to an outcome comes to the same one: the first command of the stream, or the
/// error that the bytes themselves call for.
pub proof fn law_command_depends_on_the_bytes_alone(
    deadline: Moment,
    events: Seq<WireEvent>,
    stream: Seq<u8>,
)
    requires
        honest(ReceiveModel::start(COORDINATOR_DIRECTION, deadline), events, stream),
    ensures
        receive_all(ReceiveModel::start(COORDINATOR_DIRECTION, deadline), events).command_step()
            matches TransferStep::Done(outcome) ==> outcome == first_command(stream),
{
    lemma_honest_run(COORDINATOR_DIRECTION, deadline, events, stream);
}

/// What the guardian writes, the coordinator reads: an event whose frame went
/// over an honest channel, whatever followed it, is received as it was sent.
pub proof fn law_sent_event_is_received(
    event: GuardianEvent,
    rest: Seq<u8>,
    deadline: Moment,
    events: Seq<WireEvent>,
)
    requires
        event_valid(event),
        honest(
            ReceiveModel::start(GUARDIAN_DIRECTION, deadline),
            events,
            event_frame(event) + rest,
        ),
    ensures
        receive_all(ReceiveModel::start(GUARDIAN_DIRECTION, deadline), events).event_step() matches
            TransferStep::Done(outcome) ==> outcome == Ok::<GuardianEvent, ProtocolError>(event),
{
    law_event_frame_round_trip(event, rest);
    law_event_depends_on_the_bytes_alone(deadline, events, event_frame(event) + rest);
}

/// What the coordinator writes, the guardian reads: a command whose frame went
/// over an honest channel, whatever followed it, is received as it was sent.
pub proof fn law_sent_command_is_received(
    command: CoordinatorCommand,
    rest: Seq<u8>,
    deadline: Moment,
    events: Seq<WireEvent>,
)
    requires
        command_valid(command),
        honest(
            ReceiveModel::start(COORDINATOR_DIRECTION, deadline),
            events,
            command_frame(command) + rest,
        ),
    ensures
        receive_all(ReceiveModel::start(COORDINATOR_DIRECTION, deadline), events).command_step()
            matches TransferStep::Done(outcome) ==> outcome == Ok::<
            CoordinatorCommand,
            ProtocolError,
        >(command),
{
    law_command_frame_round_trip(command, rest);
    law_command_depends_on_the_bytes_alone(deadline, events, command_frame(command) + rest);
}

/// A receiver never takes bytes beyond its frame: it asks for at most what is
/// missing of the header or of the announced body.
pub proof fn law_receiver_never_reads_ahead(receiver: ReceiveModel, limit: usize)
    requires
        receiver.consistent(),
        receiver.step() == TransferStep::<()>::Next(WireAction::Read { limit }),
    ensures
        0 < limit <= MAX_BODY_BYTES,
        receiver.stage is Header || receiver.stage is Body,
        receiver.transfer.data.len() + limit == receiver.transfer.wanted,
{
}

/// A clock reading at or past the deadline ends a pending receive with a
/// timeout, wherever the receive stands, and no later event revives it.
pub proof fn law_late_clock_ends_a_receive(
    receiver: ReceiveModel,
    now: Moment,
    later: WireEvent,
)
    requires
        receiver.consistent(),
        receiver.step() == TransferStep::<()>::Next(WireAction::ReadClock),
        now.reached(receiver.deadline),
    ensures
        receiver.after(WireEvent::Clock(now)).step() == TransferStep::Done(
            Err::<(), ProtocolError>(ProtocolError::Timeout),
        ),
        receiver.after(WireEvent::Clock(now)).after(later).step() == TransferStep::Done(
            Err::<(), ProtocolError>(ProtocolError::Timeout),
        ),
{
}

/// The harness frame with a wrong magic is refused by every reader.
pub proof fn law_malformed_frame_is_refused(rest: Seq<u8>, direction: u8)
    requires
        valid_direction(direction),
    ensures
        first_frame(malformed_frame() + rest, direction) == Err::<(u8, Seq<u8>), ProtocolError>(
            ProtocolError::BadMagic,
        ),
{
    let header = (malformed_frame() + rest).subrange(0, 8);
    assert(header.subrange(0, 4)[0] == 0x42u8);
    assert(magic()[0] == 0x43u8);
}

} // verus!
