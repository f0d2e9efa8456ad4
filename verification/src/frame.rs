//! Frames: one protocol message each, with its command, direction and payload.

use vstd::prelude::*;

verus! {

/// Command code of the request for, and the reply with, the table of mode
/// ranges.
pub const MSP_MODE_RANGES: u8 = 34;

/// Command code of the request that writes one mode range, and of its
/// acknowledgment.
pub const MSP_SET_MODE_RANGE: u8 = 35;

/// Command code of the request for, and the reply with, the dataflash summary.
pub const MSP_DATAFLASH_SUMMARY: u8 = 70;

/// Command code of the request for, and the reply with, a window of the
/// dataflash.
pub const MSP_DATAFLASH_READ: u8 = 71;

/// The longest payload that a frame can carry: its length travels in one byte.
pub const MAX_PAYLOAD_LEN: usize = 255;

/// Bytes that a frame adds around its payload: `$`, `M`, direction, length,
/// command, and the checksum at the end.
pub const FRAME_OVERHEAD: usize = 6;

/// Which way a frame travels.
#[derive(Clone, Copy, Debug, PartialEq, Eq, Structural)]
pub enum Direction {
    /// From the host to the flight controller, `<` on the wire.
    ToDevice,
    /// From the flight controller to the host, `>` on the wire.
    FromDevice,
    /// The flight controller's answer to a command it does not know, `!` on
    /// the wire.
    Unsupported,
}

impl Direction {
    /// The byte that stands for the direction on the wire.
    pub open spec fn wire_byte(self) -> u8 {
        match self {
            Direction::ToDevice => 60,
            Direction::FromDevice => 62,
            Direction::Unsupported => 33,
        }
    }
}

/// What a frame holds, as plain values.
pub struct FrameView {
    pub command_code: u8,
    pub direction: Direction,
    pub payload: Seq<u8>,
}

/// One protocol message.
#[derive(Clone, Debug, PartialEq, Eq)]
pub struct Frame {
    pub command_code: u8,
    pub direction: Direction,
    pub payload: Vec<u8>,
}

impl View for Frame {
    type V = FrameView;

    open spec fn view(&self) -> FrameView {
        FrameView {
            command_code: self.command_code,
            direction: self.direction,
            payload: self.payload@,
        }
    }
}

/// What one byte did to the decoder, as plain values.
pub enum DecodedView {
    Pending,
    Frame(FrameView),
    ChecksumError,
}

/// What one byte did to the decoder.
#[derive(Clone, Debug, PartialEq, Eq)]
pub enum Decoded {
    /// The byte completed no frame.
    Pending,
    /// The byte completed a frame, and its checksum held.
    Frame(Frame),
    /// The byte stood where a checksum was due and was not the right one. The
    /// frame before it is lost.
    ChecksumError,
}

impl View for Decoded {
    type V = DecodedView;

    open spec fn view(&self) -> DecodedView {
        match self {
            Decoded::Pending => DecodedView::Pending,
            Decoded::Frame(frame) => DecodedView::Frame(frame@),
            Decoded::ChecksumError => DecodedView::ChecksumError,
        }
    }
}

/// `seed` combined by exclusive or with every byte of `bytes` in turn.
pub open spec fn xor_fold(seed: u8, bytes: Seq<u8>) -> u8
    decreases bytes.len(),
{
    if bytes.len() == 0 {
        seed
    } else {
        xor_fold(seed, bytes.drop_last()) ^ bytes.last()
    }
}

impl FrameView {
    /// The byte that closes the frame: the exclusive or of the length byte,
    /// the command code and every byte of the payload.
    pub open spec fn checksum(self) -> u8 {
        xor_fold((self.payload.len() as u8) ^ self.command_code, self.payload)
    }

    /// The frame as it travels, for a payload of at most 255 bytes: `$`, `M`,
    /// the direction, the payload's length, the command code, the payload and
    /// the checksum.
    pub open spec fn wire_bytes(self) -> Seq<u8> {
        seq![36u8, 77u8, self.direction.wire_byte(), self.payload.len() as u8, self.command_code]
            + self.payload + seq![self.checksum()]
    }
}

} // verus!
