//! Frames: the header in front of every message body.
use vstd::prelude::*;

use crate::protocol::codec::{be_u16, join_u16, lemma_u16_round_trip, split_u16, u16_of};
use crate::protocol::message::{CoordinatorCommand, GuardianEvent, ProtocolError};
use crate::protocol::wire::{
    command_body, command_type, command_valid, event_body, event_type, event_valid, frame_command,
    frame_event, law_command_round_trip, law_event_round_trip, magic, COORDINATOR_DIRECTION,
    DIRECTION_MASK, GUARDIAN_DIRECTION, HEADER_BYTES, MAX_BODY_BYTES, MAX_FRAME_BYTES,
    PROTOCOL_VERSION, TYPE_MASK,
};

verus! {

/// The top bit of the type byte says who speaks.
pub open spec fn direction_of(direction_and_type: u8) -> u8 {
    if direction_and_type >= 0x80 {
        GUARDIAN_DIRECTION
    } else {
        COORDINATOR_DIRECTION
    }
}

/// The other seven bits of the type byte.
pub open spec fn type_of(direction_and_type: u8) -> u8 {
    direction_and_type % 0x80
}

/// One of the two directions.
pub open spec fn valid_direction(direction: u8) -> bool {
    direction == COORDINATOR_DIRECTION || direction == GUARDIAN_DIRECTION
}

/// The type byte of a message.
pub open spec fn directed(direction: u8, message_type: u8) -> u8 {
    (direction + message_type) as u8
}

pub open spec fn header_bytes(direction_and_type: u8, body_len: nat) -> Seq<u8> {
    magic() + seq![PROTOCOL_VERSION, direction_and_type] + be_u16(body_len as u16)
}

/// A whole frame.
pub open spec fn frame_bytes(direction_and_type: u8, body: Seq<u8>) -> Seq<u8> {
    header_bytes(direction_and_type, body.len()) + body
}

/// The frame of a command.
pub open spec fn command_frame(command: CoordinatorCommand) -> Seq<u8> {
    frame_bytes(directed(COORDINATOR_DIRECTION, command_type(command)), command_body(command))
}

/// The frame of an event.
pub open spec fn event_frame(event: GuardianEvent) -> Seq<u8> {
    frame_bytes(directed(GUARDIAN_DIRECTION, event_type(event)), event_body(event))
}

/// The message type and body length that a header announces, or the first
/// thing that is wrong with it.
pub open spec fn header_fields(header: Seq<u8>, expected_direction: u8) -> Result<
    (u8, usize),
    ProtocolError,
> {
    let body_len = u16_of(header[6], header[7]);
    if header.subrange(0, 4) != magic() {
        Err(ProtocolError::BadMagic)
    } else if header[4] != PROTOCOL_VERSION {
        Err(ProtocolError::UnsupportedVersion)
    } else if direction_of(header[5]) != expected_direction {
        Err(ProtocolError::WrongDirection)
    } else if type_of(header[5]) == 0 {
        Err(ProtocolError::UnknownType)
    } else if body_len == 0 {
        Err(ProtocolError::ZeroLength)
    } else if body_len > MAX_BODY_BYTES {
        Err(ProtocolError::OversizedBody)
    } else {
        Ok((type_of(header[5]), body_len as usize))
    }
}

/// What a reader makes of a byte stream that then ends: the message type and
/// body of the first frame, or the first error met on the way.
pub open spec fn first_frame(stream: Seq<u8>, expected_direction: u8) -> Result<
    (u8, Seq<u8>),
    ProtocolError,
> {
    if stream.len() == 0 {
        Err(ProtocolError::UnexpectedEof)
    } else if stream.len() < HEADER_BYTES {
        Err(ProtocolError::TruncatedHeader)
    } else {
        match header_fields(stream.subrange(0, 8), expected_direction) {
            Err(error) => Err(error),
            Ok((message_type, body_len)) => if stream.len() < HEADER_BYTES + body_len {
                Err(ProtocolError::TruncatedBody)
            } else {
                Ok((message_type, stream.subrange(8, 8 + body_len)))
            },
        }
    }
}

/// The first command in a byte stream.
pub open spec fn first_command(stream: Seq<u8>) -> Result<CoordinatorCommand, ProtocolError> {
    match first_frame(stream, COORDINATOR_DIRECTION) {
        Err(error) => Err(error),
        Ok((message_type, body)) => frame_command(message_type, body),
    }
}

/// The first event in a byte stream.
pub open spec fn first_event(stream: Seq<u8>) -> Result<GuardianEvent, ProtocolError> {
    match first_frame(stream, GUARDIAN_DIRECTION) {
        Err(error) => Err(error),
        Ok((message_type, body)) => frame_event(message_type, body),
    }
}

/// Reads a header of eight bytes.
pub fn parse_header(header: &[u8], expected_direction: u8) -> (fields: Result<
    (u8, usize),
    ProtocolError,
>)
    requires
        header@.len() == HEADER_BYTES,
        valid_direction(expected_direction),
    ensures
        fields == header_fields(header@, expected_direction),
{
    proof {
        let opening = header@.subrange(0, 4);
        assert(opening == magic() <==> (opening[0] == 0x43 && opening[1] == 0x4c && opening[2]
            == 0x46 && opening[3] == 0x52)) by {
            if opening[0] == 0x43 && opening[1] == 0x4c && opening[2] == 0x46 && opening[3]
                == 0x52 {
                assert(opening =~= magic());
            }
        }
    }
    if header[0] != 0x43 || header[1] != 0x4c || header[2] != 0x46 || header[3] != 0x52 {
        return Err(ProtocolError::BadMagic);
    }
    if header[4] != PROTOCOL_VERSION {
        return Err(ProtocolError::UnsupportedVersion);
    }
    let direction_and_type = header[5];
    assert(direction_and_type & 0x80 == (if direction_and_type >= 0x80 {
        0x80u8
    } else {
        0u8
    })) by (bit_vector);
    assert(direction_and_type & 0x7f == direction_and_type % 0x80) by (bit_vector);
    if direction_and_type & DIRECTION_MASK != expected_direction {
        return Err(ProtocolError::WrongDirection);
    }
    let message_type: u8 = direction_and_type & TYPE_MASK;
    if message_type == 0 {
        return Err(ProtocolError::UnknownType);
    }
    let body_len: usize = join_u16(header[6], header[7]) as usize;
    if body_len == 0 {
        return Err(ProtocolError::ZeroLength);
    }
    if body_len > MAX_BODY_BYTES {
        return Err(ProtocolError::OversizedBody);
    }
    Ok((message_type, body_len))
}

/// The type byte of a message in a direction.
pub(crate) fn direct(direction: u8, message_type: u8) -> (byte: u8)
    requires
        valid_direction(direction),
        message_type < 0x80,
    ensures
        byte == directed(direction, message_type),
{
    assert(direction | message_type == direction + message_type) by (bit_vector)
        requires
            direction == 0 || direction == 0x80,
            message_type < 0x80,
    ;
    direction | message_type
}

/// Puts the header in front of a body.
pub fn build_frame(direction_and_type: u8, body: &[u8]) -> (frame: Result<Vec<u8>, ProtocolError>)
    ensures
        match frame {
            Ok(frame) => {
                &&& 1 <= body@.len() <= MAX_BODY_BYTES
                &&& frame@ == frame_bytes(direction_and_type, body@)
                &&& frame@.len() == HEADER_BYTES + body@.len()
            },
            Err(error) => if body@.len() == 0 {
                error == ProtocolError::ZeroLength
            } else {
                body@.len() > MAX_BODY_BYTES && error == ProtocolError::OversizedBody
            },
        },
{
    if body.len() == 0 {
        return Err(ProtocolError::ZeroLength);
    }
    if body.len() > MAX_BODY_BYTES {
        return Err(ProtocolError::OversizedBody);
    }
    let (high, low) = split_u16(body.len() as u16);
    let mut frame: Vec<u8> = Vec::new();
    frame.push(0x43);
    frame.push(0x4c);
    frame.push(0x46);
    frame.push(0x52);
    frame.push(PROTOCOL_VERSION);
    frame.push(direction_and_type);
    frame.push(high);
    frame.push(low);
    frame.extend_from_slice(body);
    assert(frame@ =~= frame_bytes(direction_and_type, body@));
    Ok(frame)
}

proof fn lemma_first_frame_of_frame(
    direction: u8,
    message_type: u8,
    body: Seq<u8>,
    rest: Seq<u8>,
)
    requires
        valid_direction(direction),
        1 <= message_type <= TYPE_MASK,
        1 <= body.len() <= MAX_BODY_BYTES,
    ensures
        first_frame(frame_bytes(directed(direction, message_type), body) + rest, direction) == Ok::<
            (u8, Seq<u8>),
            ProtocolError,
        >((message_type, body)),
        forall|other: u8|
            other != direction ==> first_frame(
                frame_bytes(directed(direction, message_type), body) + rest,
                other,
            ) == Err::<(u8, Seq<u8>), ProtocolError>(ProtocolError::WrongDirection),
        frame_bytes(directed(direction, message_type), body).len() <= MAX_FRAME_BYTES,
{
    let byte = directed(direction, message_type);
    let stream = frame_bytes(byte, body) + rest;
    let header = stream.subrange(0, 8);
    assert(header =~= header_bytes(byte, body.len()));
    assert(header.subrange(0, 4) =~= magic());
    lemma_u16_round_trip(body.len() as u16, 0, 0);
    assert(stream.subrange(8, 8 + body.len() as int) =~= body);
}

/// A frame that the coordinator writes, followed by anything, is read by the
/// guardian as the command that was written; a reader of the other direction
/// refuses it for its direction. No frame is longer than 64 bytes.
pub proof fn law_command_frame_round_trip(command: CoordinatorCommand, rest: Seq<u8>)
    requires
        command_valid(command),
    ensures
        first_command(command_frame(command) + rest) == Ok::<CoordinatorCommand, ProtocolError>(
            command,
        ),
        first_event(command_frame(command) + rest) == Err::<GuardianEvent, ProtocolError>(
            ProtocolError::WrongDirection,
        ),
        command_frame(command).len() <= MAX_FRAME_BYTES,
{
    law_command_round_trip(command);
    lemma_first_frame_of_frame(
        COORDINATOR_DIRECTION,
        command_type(command),
        command_body(command),
        rest,
    );
}

/// A frame that the guardian writes, followed by anything, is read by the
/// coordinator as the event that was written; a reader of the other direction
/// refuses it for its direction. No frame is longer than 64 bytes.
pub proof fn law_event_frame_round_trip(event: GuardianEvent, rest: Seq<u8>)
    requires
        event_valid(event),
    ensures
        first_event(event_frame(event) + rest) == Ok::<GuardianEvent, ProtocolError>(event),
        first_command(event_frame(event) + rest) == Err::<CoordinatorCommand, ProtocolError>(
            ProtocolError::WrongDirection,
        ),
        event_frame(event).len() <= MAX_FRAME_BYTES,
{
    law_event_round_trip(event);
    lemma_first_frame_of_frame(GUARDIAN_DIRECTION, event_type(event), event_body(event), rest);
}

/// What is read depends on the first frame alone: bytes behind it change
/// nothing.
pub proof fn law_later_bytes_do_not_matter(stream: Seq<u8>, rest: Seq<u8>, direction: u8)
    requires
        first_frame(stream, direction) is Ok,
    ensures
        first_frame(stream + rest, direction) == first_frame(stream, direction),
{
    assert((stream + rest).subrange(0, 8) =~= stream.subrange(0, 8));
    if let Ok((_, body_len)) = header_fields(stream.subrange(0, 8), direction) {
        assert((stream + rest).subrange(8, 8 + body_len) =~= stream.subrange(8, 8 + body_len));
    }
}

} // verus!
