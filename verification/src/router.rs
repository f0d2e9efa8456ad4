//! Sorting the device's frames by what they answer.

use crate::frame::{
    Direction, Frame, FrameView, MSP_DATAFLASH_READ, MSP_DATAFLASH_SUMMARY, MSP_MODE_RANGES,
    MSP_SET_MODE_RANGE,
};
use crate::wire::{
    table_unpack, MspDataFlashReply, MspDataFlashReplyView, MspDataFlashSummaryReply,
    MspModeRange, MspModeRangesReplay, WireError,
};
use vstd::prelude::*;

verus! {

/// Why the router let a frame fall.
#[derive(Clone, Copy, Debug, PartialEq, Eq, Structural)]
pub enum DropReason {
    /// The frame does not come from the device.
    NotFromDevice,
    /// No request of this library is answered by the frame's command.
    UnknownCommand,
}

/// Where a frame goes, as plain values.
pub enum RoutedView {
    ModeRanges(Seq<MspModeRange>),
    SetModeRangeAck,
    Summary(MspDataFlashSummaryReply),
    Chunk(MspDataFlashReplyView),
    Dropped(DropReason),
    Malformed(WireError),
}

/// Where a frame goes.
#[derive(Clone, Debug, PartialEq, Eq)]
pub enum Routed {
    /// To whoever asked for the table of mode ranges.
    ModeRanges(MspModeRangesReplay),
    /// To whoever asked for a mode range to be written.
    SetModeRangeAck,
    /// To whoever asked for the dataflash summary.
    Summary(MspDataFlashSummaryReply),
    /// To whoever is reading the dataflash.
    Chunk(MspDataFlashReply),
    /// Nowhere: the frame is of no concern.
    Dropped(DropReason),
    /// Nowhere: the frame answers a request of this library, but its payload
    /// cannot be read. Only this frame is lost.
    Malformed(WireError),
}

impl View for Routed {
    type V = RoutedView;

    open spec fn view(&self) -> RoutedView {
        match self {
            Routed::ModeRanges(table) => RoutedView::ModeRanges(table@),
            Routed::SetModeRangeAck => RoutedView::SetModeRangeAck,
            Routed::Summary(summary) => RoutedView::Summary(*summary),
            Routed::Chunk(reply) => RoutedView::Chunk(reply@),
            Routed::Dropped(reason) => RoutedView::Dropped(*reason),
            Routed::Malformed(error) => RoutedView::Malformed(*error),
        }
    }
}

/// Where `frame` goes. Only frames from the device are looked at, and of
/// those only the answers to the four requests that this library makes. The
/// acknowledgment of a written mode range counts whatever its payload holds.
pub open spec fn route_of(frame: FrameView) -> RoutedView {
    if frame.direction != Direction::FromDevice {
        RoutedView::Dropped(DropReason::NotFromDevice)
    } else if frame.command_code == MSP_MODE_RANGES {
        match table_unpack(frame.payload) {
            Ok(slots) => RoutedView::ModeRanges(slots),
            Err(error) => RoutedView::Malformed(error),
        }
    } else if frame.command_code == MSP_SET_MODE_RANGE {
        RoutedView::SetModeRangeAck
    } else if frame.command_code == MSP_DATAFLASH_SUMMARY {
        match MspDataFlashSummaryReply::spec_unpack(frame.payload) {
            Ok(summary) => RoutedView::Summary(summary),
            Err(error) => RoutedView::Malformed(error),
        }
    } else if frame.command_code == MSP_DATAFLASH_READ {
        match MspDataFlashReplyView::spec_unpack(frame.payload) {
            Ok(reply) => RoutedView::Chunk(reply),
            Err(error) => RoutedView::Malformed(error),
        }
    } else {
        RoutedView::Dropped(DropReason::UnknownCommand)
    }
}

/// Decides where `frame` goes.
pub fn route(frame: &Frame) -> (routed: Routed)
    ensures
        routed@ == route_of(frame@),
{
    match frame.direction {
        Direction::FromDevice => {},
        _ => {
            return Routed::Dropped(DropReason::NotFromDevice);
        },
    }
    if frame.command_code == MSP_MODE_RANGES {
        match MspModeRangesReplay::unpack_from_slice(frame.payload.as_slice()) {
            Ok(table) => Routed::ModeRanges(table),
            Err(error) => Routed::Malformed(error),
        }
    } else if frame.command_code == MSP_SET_MODE_RANGE {
        Routed::SetModeRangeAck
    } else if frame.command_code == MSP_DATAFLASH_SUMMARY {
        match MspDataFlashSummaryReply::unpack_from_slice(frame.payload.as_slice()) {
            Ok(summary) => Routed::Summary(summary),
            Err(error) => Routed::Malformed(error),
        }
    } else if frame.command_code == MSP_DATAFLASH_READ {
        match MspDataFlashReply::unpack_from_slice(frame.payload.as_slice()) {
            Ok(reply) => Routed::Chunk(reply),
            Err(error) => Routed::Malformed(error),
        }
    } else {
        Routed::Dropped(DropReason::UnknownCommand)
    }
}

} // verus!
