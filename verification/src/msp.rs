//! The link's protocol engine: what the read pump, the write pump and the
//! three requests compute, without the waiting.
//!
//! `INavMsp` owns the frame decoder. The caller reads the serial port and
//! hands over what came in, takes the decoded frames to the router, and
//! writes what the encoder produced.
//!
//! Each of the three requests comes in two halves. The function whose name
//! ends in `_request` says which frame to send and how long to wait for the
//! answer; the function named after the request turns what arrived in that
//! time, or the fact that nothing did, into the caller's result. Nothing on
//! the wire ties an answer to its request, so requests of one kind must not
//! overlap.

use crate::codec::{packet_size, parse_byte, parser_pending, serialize_packet};
use crate::decoder::{events_of, parse_outcome, pending_after, views_of};
use crate::flash::FlashDataFile;
use crate::frame::{
    Decoded, Direction, Frame, FrameView, FRAME_OVERHEAD, MAX_PAYLOAD_LEN,
    MSP_DATAFLASH_SUMMARY, MSP_MODE_RANGES, MSP_SET_MODE_RANGE,
};
use crate::wire::{
    lemma_used_ranges_grow, used_ranges, ModeRange, MspDataFlashSummaryReply, MspModeRange,
    MspModeRangesReplay, MspSetModeRange, MODE_RANGE_COUNT,
};
use multiwii_serial_protocol::MspParser;
use vstd::prelude::*;
use vstd::slice::slice_subrange;

verus! {

/// Bytes asked of the serial port with every read.
pub const READ_BUFFER_LEN: usize = 1000;

/// Milliseconds to wait before a write that timed out is tried again.
pub const WRITE_RETRY_DELAY_MS: u64 = 1;

/// Milliseconds to wait for the answer to a request.
pub const REPLY_TIMEOUT_MS: u64 = 30;

/// No answer arrived in time.
#[derive(Clone, Copy, Debug, PartialEq, Eq, Structural)]
pub struct Timeout;

/// Why a read or a write of the serial port failed.
#[derive(Clone, Copy, Debug, PartialEq, Eq, Structural)]
pub enum LinkError {
    /// The port did not get to it in time. Trying again may help.
    Transient,
    /// Anything else.
    Fatal,
}

/// What the read pump does with the outcome of one read.
#[derive(Clone, Debug, PartialEq, Eq)]
pub enum InputStep {
    /// Hand the frames on in this order, each as soon as there is room for
    /// it, and report each checksum error; then read again.
    Decoded(Vec<Decoded>),
    /// Nothing came in: let other tasks run, then read again.
    Yield,
    /// Report the fault, then read again.
    Report,
}

/// What the write pump does with the outcome of one write.
#[derive(Clone, Copy, Debug, PartialEq, Eq, Structural)]
pub enum OutputStep {
    /// The frame is out: take the next one.
    Written,
    /// The port was busy: sleep this many milliseconds and write the same
    /// bytes again.
    Retry(u64),
    /// Report the fault and take the next frame.
    Dropped,
}

/// What a request holds, as plain values.
pub struct RequestView {
    pub frame: FrameView,
    pub timeout_ms: u64,
}

/// A request to the device: the frame to send, and for how many milliseconds
/// to await the answer after that.
#[derive(Clone, Debug, PartialEq, Eq)]
pub struct Request {
    pub frame: Frame,
    pub timeout_ms: u64,
}

impl View for Request {
    type V = RequestView;

    open spec fn view(&self) -> RequestView {
        RequestView { frame: self.frame@, timeout_ms: self.timeout_ms }
    }
}

/// The request that sends `command_code` with `payload` to the device and
/// gives the answer `REPLY_TIMEOUT_MS` to arrive.
pub open spec fn request_of(command_code: u8, payload: Seq<u8>) -> RequestView {
    RequestView {
        frame: FrameView { command_code, direction: Direction::ToDevice, payload },
        timeout_ms: REPLY_TIMEOUT_MS,
    }
}

/// The protocol engine of one connection.
pub struct INavMsp {
    parser: MspParser,
}

impl INavMsp {
    /// The bytes of an unfinished frame that the decoder holds.
    pub closed spec fn pending(&self) -> Seq<u8> {
        parser_pending(self.parser)
    }

    /// An engine whose decoder waits for the first byte of a frame.
    pub fn new() -> (msp: INavMsp)
        ensures
            msp.pending() == Seq::<u8>::empty(),
    {
        INavMsp { parser: MspParser::new() }
    }

    /// Makes the decoder forget the frame it is in the middle of. What
    /// follows is decoded as by a new engine.
    pub fn reset_parser(&mut self)
        ensures
            final(self).pending() == Seq::<u8>::empty(),
    {
        self.parser = MspParser::new();
    }

    /// Gives the decoder one byte.
    pub fn parse(&mut self, byte: u8) -> (decoded: Decoded)
        ensures
            decoded@ == parse_outcome(old(self).pending(), byte).decoded,
            final(self).pending() == parse_outcome(old(self).pending(), byte).pending,
    {
        match parse_byte(&mut self.parser, byte) {
            Ok(Some(frame)) => Decoded::Frame(frame),
            Ok(None) => Decoded::Pending,
            Err(_) => Decoded::ChecksumError,
        }
    }

    /// Gives the decoder `bytes` in order and collects the frames and
    /// checksum errors that come out. None of them is `Pending`.
    pub fn feed(&mut self, bytes: &[u8]) -> (events: Vec<Decoded>)
        ensures
            views_of(events@) == events_of(old(self).pending(), bytes@),
            final(self).pending() == pending_after(old(self).pending(), bytes@),
            forall|i: int| 0 <= i < events@.len() ==> !(#[trigger] events@[i] is Pending),
    {
        let ghost start = self.pending();
        let mut events: Vec<Decoded> = Vec::new();
        let mut i: usize = 0;
        while i < bytes.len()
            invariant
                i <= bytes@.len(),
                views_of(events@) == events_of(start, bytes@.take(i as int)),
                self.pending() == pending_after(start, bytes@.take(i as int)),
                forall|k: int| 0 <= k < events@.len() ==> !(#[trigger] events@[k] is Pending),
            decreases bytes@.len() - i,
        {
            let decoded = self.parse(bytes[i]);
            assert(bytes@.take(i + 1).drop_last() == bytes@.take(i as int));
            match decoded {
                Decoded::Pending => {},
                event => {
                    events.push(event);
                },
            }
            i += 1;
        }
        assert(bytes@.take(i as int) == bytes@);
        events
    }

    /// The read pump's step: what to do after a read into `buffer` that
    /// returned `read`.
    ///
    /// The bytes that came in go through the decoder. A read that timed out
    /// leaves everything as it is and gives way to other tasks; any other
    /// fault is reported. The pump reads on in every case.
    pub fn process_input(&mut self, buffer: &[u8], read: Result<usize, LinkError>) -> (step:
        InputStep)
        requires
            read matches Ok(count) ==> count <= buffer@.len(),
        ensures
            match read {
                Ok(count) => {
                    &&& step matches InputStep::Decoded(events)
                    &&& forall|i: int|
                        0 <= i < events@.len() ==> !(#[trigger] events@[i] is Pending)
                    &&& views_of(events@) == events_of(
                        old(self).pending(),
                        buffer@.take(count as int),
                    )
                    &&& final(self).pending() == pending_after(
                        old(self).pending(),
                        buffer@.take(count as int),
                    )
                },
                Err(LinkError::Transient) => step == InputStep::Yield && final(self).pending()
                    == old(self).pending(),
                Err(LinkError::Fatal) => step == InputStep::Report && final(self).pending()
                    == old(self).pending(),
            },
    {
        match read {
            Ok(count) => InputStep::Decoded(self.feed(slice_subrange(buffer, 0, count))),
            Err(LinkError::Transient) => InputStep::Yield,
            Err(LinkError::Fatal) => InputStep::Report,
        }
    }

    /// The bytes that carry `frame` to the device: six more than its payload
    /// holds. Only frames to the device are written, and a frame carries at
    /// most 255 bytes.
    pub fn process_output(frame: &Frame) -> (bytes: Vec<u8>)
        requires
            frame.direction == Direction::ToDevice,
            frame.payload@.len() <= MAX_PAYLOAD_LEN,
        ensures
            bytes@ == frame@.wire_bytes(),
            bytes@.len() == FRAME_OVERHEAD + frame.payload@.len(),
    {
        let size = packet_size(frame);
        let mut bytes: Vec<u8> = vec![0u8; size];
        // The buffer has the packet's size, which is all the serializer asks.
        let written = serialize_packet(frame, &mut bytes);
        assert(written is Ok);
        bytes
    }

    /// The write pump's step: what to do after a write that returned
    /// `written`.
    ///
    /// A write that timed out is tried again with the same bytes after a
    /// short sleep, as often as it takes: the link has no flow control, and
    /// no frame may be dropped for it. After any other fault the frame is
    /// given up.
    pub fn after_write(written: Result<(), LinkError>) -> (step: OutputStep)
        ensures
            step == match written {
                Ok(_) => OutputStep::Written,
                Err(LinkError::Transient) => OutputStep::Retry(WRITE_RETRY_DELAY_MS),
                Err(LinkError::Fatal) => OutputStep::Dropped,
            },
    {
        match written {
            Ok(_) => OutputStep::Written,
            Err(LinkError::Transient) => OutputStep::Retry(WRITE_RETRY_DELAY_MS),
            Err(LinkError::Fatal) => OutputStep::Dropped,
        }
    }

    /// The request for the dataflash summary.
    pub fn flash_summary_request() -> (request: Request)
        ensures
            request@ == request_of(MSP_DATAFLASH_SUMMARY, Seq::empty()),
    {
        Request {
            frame: Frame {
                command_code: MSP_DATAFLASH_SUMMARY,
                direction: Direction::ToDevice,
                payload: Vec::new(),
            },
            timeout_ms: REPLY_TIMEOUT_MS,
        }
    }

    /// The outcome of asking for the dataflash summary, given the answer
    /// that arrived in time, if one did.
    pub fn flash_summary(reply: Option<MspDataFlashSummaryReply>) -> (result: Result<
        MspDataFlashSummaryReply,
        Timeout,
    >)
        ensures
            result == match reply {
                Some(summary) => Ok::<MspDataFlashSummaryReply, Timeout>(summary),
                None => Err(Timeout),
            },
    {
        match reply {
            Some(summary) => Ok(summary),
            None => Err(Timeout),
        }
    }

    /// A reader of the dataflash that starts at address zero and ends where
    /// `summary` says the used part ends.
    pub fn open_flash_data(summary: &MspDataFlashSummaryReply) -> (file: FlashDataFile)
        ensures
            file == (FlashDataFile {
                used_size: summary.used_size_bytes,
                next_address: 0,
                received_address: 0,
            }),
            file.wf(),
    {
        FlashDataFile::new(summary.used_size_bytes)
    }

    /// The request that has the device write `mode` into its slot.
    pub fn set_mode_range_request(mode: &ModeRange) -> (request: Request)
        ensures
            request@ == request_of(MSP_SET_MODE_RANGE, mode.to_request().spec_pack()),
    {
        let payload = MspSetModeRange {
            index: mode.index,
            mode_range: MspModeRange {
                box_id: mode.box_id,
                aux_channel_index: mode.aux_channel_index,
                start_step: mode.start_step,
                end_step: mode.end_step,
            },
        }.pack();
        Request {
            frame: Frame {
                command_code: MSP_SET_MODE_RANGE,
                direction: Direction::ToDevice,
                payload,
            },
            timeout_ms: REPLY_TIMEOUT_MS,
        }
    }

    /// The outcome of asking for a mode range to be written, given whether
    /// an acknowledgment arrived in time.
    pub fn set_mode_range(ack: Option<()>) -> (result: Result<(), Timeout>)
        ensures
            result == match ack {
                Some(_) => Ok::<(), Timeout>(()),
                None => Err(Timeout),
            },
    {
        match ack {
            Some(_) => Ok(()),
            None => Err(Timeout),
        }
    }

    /// The request for the table of mode ranges.
    pub fn mode_ranges_request() -> (request: Request)
        ensures
            request@ == request_of(MSP_MODE_RANGES, Seq::empty()),
    {
        Request {
            frame: Frame {
                command_code: MSP_MODE_RANGES,
                direction: Direction::ToDevice,
                payload: Vec::new(),
            },
            timeout_ms: REPLY_TIMEOUT_MS,
        }
    }

    /// The outcome of asking for the mode ranges, given the table that
    /// arrived in time, if one did: the slots of the table that are in use,
    /// each with its index, in the order of the table.
    pub fn get_mode_ranges(reply: Option<MspModeRangesReplay>) -> (result: Result<
        Vec<ModeRange>,
        Timeout,
    >)
        ensures
            match reply {
                Some(table) => result matches Ok(ranges) && ranges@ == used_ranges(table@),
                None => result == Err::<Vec<ModeRange>, Timeout>(Timeout),
            },
    {
        let table = match reply {
            Some(table) => table,
            None => {
                return Err(Timeout);
            },
        };
        let mut ranges: Vec<ModeRange> = Vec::new();
        let mut i: usize = 0;
        while i < MODE_RANGE_COUNT
            invariant
                i <= MODE_RANGE_COUNT,
                table@.len() == MODE_RANGE_COUNT,
                ranges@ == used_ranges(table@.take(i as int)),
            decreases MODE_RANGE_COUNT - i,
        {
            let slot = table.mode_ranges[i];
            proof {
                lemma_used_ranges_grow(table@, i as int);
            }
            if slot.start_step != 0 || slot.end_step != 0 {
                ranges.push(
                    ModeRange {
                        index: i as u8,
                        box_id: slot.box_id,
                        aux_channel_index: slot.aux_channel_index,
                        start_step: slot.start_step,
                        end_step: slot.end_step,
                    },
                );
            }
            i += 1;
        }
        assert(table@.take(i as int) == table@);
        Ok(ranges)
    }
}

} // verus!
