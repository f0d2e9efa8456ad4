//! The frame codec of `multiwii_serial_protocol`, as far as the link uses it.
//!
//! Nothing in this file is proved: each item states what the outside crate
//! does, and the rest of the library is proved from these statements.

use crate::frame::{DecodedView, Direction, Frame, FRAME_OVERHEAD, MAX_PAYLOAD_LEN};
use multiwii_serial_protocol::{MspPacket, MspPacketDirection, MspPacketParseError, MspParser};
use std::borrow::Cow;
use vstd::prelude::*;

verus! {

/// The incremental parser of the outside crate. It is fed one byte at a time
/// and keeps what it has seen of an unfinished packet.
#[verifier::external_type_specification]
#[verifier::external_body]
pub struct ExMspParser(MspParser);

/// The error of the outside crate's parser and serializer.
#[verifier::external_type_specification]
#[verifier::external_body]
pub struct ExMspPacketParseError(MspPacketParseError);

/// A parser's answer to one byte: what it keeps, and what it reports.
pub struct ParseStep {
    pub pending: Seq<u8>,
    pub decoded: DecodedView,
}

/// The bytes of the unfinished packet that `parser` holds: those it has taken
/// in since it was made or last returned to waiting for a packet's first
/// byte. They are all that the parser's behaviour depends on.
pub uninterp spec fn parser_pending(parser: MspParser) -> Seq<u8>;

/// What `MspParser::parse` does when the parser holds `pending` and is given
/// `byte`.
pub uninterp spec fn parse_step(pending: Seq<u8>, byte: u8) -> ParseStep;

/// What the result of a call of the parser reports.
pub open spec fn decoded_of(result: Result<Option<Frame>, MspPacketParseError>) -> DecodedView {
    match result {
        Ok(None) => DecodedView::Pending,
        Ok(Some(frame)) => DecodedView::Frame(frame@),
        Err(_) => DecodedView::ChecksumError,
    }
}

/// `MspParser::new`: the parser starts out waiting for the first byte of a
/// packet, and holds nothing.
pub assume_specification[ MspParser::new ]() -> (parser: MspParser)
    ensures
        parser_pending(parser) == Seq::<u8>::empty(),
;

/// `MspParser::parse`: a function of what the parser holds and of the byte.
/// It returns a packet, nothing, or an error. The only error it returns is a
/// checksum mismatch. With a packet or an error the parser returns to waiting
/// for a packet's first byte and holds nothing after that; otherwise it holds
/// what `parse_step` says.
#[verifier::external_body]
pub(crate) fn parse_byte(parser: &mut MspParser, byte: u8) -> (result: Result<
    Option<Frame>,
    MspPacketParseError,
>)
    ensures
        decoded_of(result) == parse_step(parser_pending(*old(parser)), byte).decoded,
        parser_pending(*final(parser)) == if result matches Ok(None) {
            parse_step(parser_pending(*old(parser)), byte).pending
        } else {
            Seq::<u8>::empty()
        },
{
    match parser.parse(byte) {
        Ok(Some(packet)) => Ok(Some(Frame {
            command_code: packet.cmd,
            direction: match packet.direction {
                MspPacketDirection::ToFlightController => Direction::ToDevice,
                MspPacketDirection::FromFlightController => Direction::FromDevice,
                MspPacketDirection::Unsupported => Direction::Unsupported,
            },
            payload: packet.data.into_owned(),
        })),
        Ok(None) => Ok(None),
        Err(error) => Err(error),
    }
}

/// `MspPacket::packet_size_bytes`: six bytes more than the payload.
#[verifier::external_body]
pub(crate) fn packet_size(frame: &Frame) -> (size: usize)
    requires
        frame.payload@.len() <= MAX_PAYLOAD_LEN,
    ensures
        size == FRAME_OVERHEAD + frame.payload@.len(),
{
    MspPacket {
        cmd: frame.command_code,
        direction: match frame.direction {
            Direction::ToDevice => MspPacketDirection::ToFlightController,
            Direction::FromDevice => MspPacketDirection::FromFlightController,
            Direction::Unsupported => MspPacketDirection::Unsupported,
        },
        data: Cow::Borrowed(frame.payload.as_slice()),
    }.packet_size_bytes()
}

/// `MspPacket::serialize`: into a buffer of exactly the packet's size it
/// writes the packet as it travels and returns `Ok`; a buffer of any other
/// size it leaves alone and returns an error.
#[verifier::external_body]
pub(crate) fn serialize_packet(frame: &Frame, output: &mut Vec<u8>) -> (result: Result<
    (),
    MspPacketParseError,
>)
    requires
        frame.payload@.len() <= MAX_PAYLOAD_LEN,
    ensures
        old(output)@.len() == FRAME_OVERHEAD + frame.payload@.len() ==> result is Ok
            && final(output)@ == frame@.wire_bytes(),
        old(output)@.len() != FRAME_OVERHEAD + frame.payload@.len() ==> result is Err
            && final(output)@ == old(output)@,
{
    MspPacket {
        cmd: frame.command_code,
        direction: match frame.direction {
            Direction::ToDevice => MspPacketDirection::ToFlightController,
            Direction::FromDevice => MspPacketDirection::FromFlightController,
            Direction::Unsupported => MspPacketDirection::Unsupported,
        },
        data: Cow::Borrowed(frame.payload.as_slice()),
    }.serialize(output.as_mut_slice())
}

} // verus!
