//! What a stream of bytes decodes to.
//!
//! The decoder works through its input one byte at a time. These functions
//! say what a run of bytes leaves in it and which frames and checksum errors
//! the run brings out. The lemmas show that cutting the run into pieces
//! changes neither, and that a frame or an error leaves the decoder as new.

use crate::codec::{parse_step, ParseStep};
use crate::frame::{Decoded, DecodedView, FrameView};
use vstd::prelude::*;

verus! {

/// What one byte does to a decoder that holds `pending`: what the parser
/// reports, and what the decoder holds afterwards. With a frame or a checksum
/// error the decoder returns to waiting for a frame's first byte and holds
/// nothing.
pub open spec fn parse_outcome(pending: Seq<u8>, byte: u8) -> ParseStep {
    let step = parse_step(pending, byte);
    ParseStep {
        pending: if step.decoded is Pending {
            step.pending
        } else {
            Seq::empty()
        },
        decoded: step.decoded,
    }
}

/// What a decoder that holds `pending` holds after it was given `bytes`.
pub open spec fn pending_after(pending: Seq<u8>, bytes: Seq<u8>) -> Seq<u8>
    decreases bytes.len(),
{
    if bytes.len() == 0 {
        pending
    } else {
        parse_outcome(pending_after(pending, bytes.drop_last()), bytes.last()).pending
    }
}

/// The frames and checksum errors, in the order in which they come out, that
/// a decoder that holds `pending` reports when it is given `bytes`.
pub open spec fn events_of(pending: Seq<u8>, bytes: Seq<u8>) -> Seq<DecodedView>
    decreases bytes.len(),
{
    if bytes.len() == 0 {
        Seq::empty()
    } else {
        let before = events_of(pending, bytes.drop_last());
        let last = parse_outcome(pending_after(pending, bytes.drop_last()), bytes.last()).decoded;
        if last is Pending {
            before
        } else {
            before.push(last)
        }
    }
}

/// The plain values of a run of decoder reports.
pub open spec fn views_of(events: Seq<Decoded>) -> Seq<DecodedView> {
    events.map_values(|event: Decoded| event@)
}

/// Where a stream is cut does not matter: a decoder that is given `first` and
/// then `second` ends up holding what it would hold after the two in one
/// piece, and reports the same frames and errors in the same order.
pub proof fn lemma_decoding_ignores_cuts(pending: Seq<u8>, first: Seq<u8>, second: Seq<u8>)
    ensures
        pending_after(pending, first + second) == pending_after(
            pending_after(pending, first),
            second,
        ),
        events_of(pending, first + second) == events_of(pending, first) + events_of(
            pending_after(pending, first),
            second,
        ),
    decreases second.len(),
{
    if second.len() == 0 {
        assert(first + second =~= first);
        assert(events_of(pending, first) + Seq::<DecodedView>::empty() =~= events_of(
            pending,
            first,
        ));
    } else {
        lemma_decoding_ignores_cuts(pending, first, second.drop_last());
        assert((first + second).drop_last() =~= first + second.drop_last());
        assert((first + second).last() == second.last());
        let middle = pending_after(pending, first);
        let last = parse_outcome(pending_after(middle, second.drop_last()), second.last()).decoded;
        if !(last is Pending) {
            assert((events_of(pending, first) + events_of(middle, second.drop_last())).push(last)
                =~= events_of(pending, first) + events_of(middle, second.drop_last()).push(last));
        }
    }
}

/// A frame or a checksum error leaves nothing behind. If the last of `bytes`
/// brings one out, the decoder holds nothing after it, and whatever follows
/// is decoded as by a new decoder: a frame that was dropped for its checksum
/// does not spoil the frames behind it.
pub proof fn lemma_reports_leave_nothing_behind(
    pending: Seq<u8>,
    bytes: Seq<u8>,
    rest: Seq<u8>,
)
    requires
        bytes.len() > 0,
        !(parse_outcome(pending_after(pending, bytes.drop_last()), bytes.last()).decoded
            is Pending),
    ensures
        pending_after(pending, bytes) == Seq::<u8>::empty(),
        events_of(pending, bytes).len() > 0,
        events_of(pending, bytes).last() == parse_outcome(
            pending_after(pending, bytes.drop_last()),
            bytes.last(),
        ).decoded,
        events_of(pending, bytes + rest) == events_of(pending, bytes) + events_of(
            Seq::empty(),
            rest,
        ),
{
    lemma_decoding_ignores_cuts(pending, bytes, rest);
}

/// The pieces of a stream put together again.
pub open spec fn joined(pieces: Seq<Seq<u8>>) -> Seq<u8>
    decreases pieces.len(),
{
    if pieces.len() == 0 {
        Seq::empty()
    } else {
        joined(pieces.drop_last()) + pieces.last()
    }
}

/// What a decoder that holds `pending` holds after it was given `pieces`,
/// one after the other.
pub open spec fn pending_after_pieces(pending: Seq<u8>, pieces: Seq<Seq<u8>>) -> Seq<u8>
    decreases pieces.len(),
{
    if pieces.len() == 0 {
        pending
    } else {
        pending_after(pending_after_pieces(pending, pieces.drop_last()), pieces.last())
    }
}

/// The frames and checksum errors that a decoder that holds `pending` reports
/// when it is given `pieces`, one after the other.
pub open spec fn events_of_pieces(pending: Seq<u8>, pieces: Seq<Seq<u8>>) -> Seq<DecodedView>
    decreases pieces.len(),
{
    if pieces.len() == 0 {
        Seq::empty()
    } else {
        events_of_pieces(pending, pieces.drop_last()) + events_of(
            pending_after_pieces(pending, pieces.drop_last()),
            pieces.last(),
        )
    }
}

/// Into how many pieces a stream is cut, and where, does not matter either:
/// a decoder that is given the pieces one after the other holds and reports
/// what it would after the whole stream in one piece.
pub proof fn lemma_decoding_ignores_pieces(pending: Seq<u8>, pieces: Seq<Seq<u8>>)
    ensures
        pending_after_pieces(pending, pieces) == pending_after(pending, joined(pieces)),
        events_of_pieces(pending, pieces) == events_of(pending, joined(pieces)),
    decreases pieces.len(),
{
    if pieces.len() > 0 {
        lemma_decoding_ignores_pieces(pending, pieces.drop_last());
        lemma_decoding_ignores_cuts(pending, joined(pieces.drop_last()), pieces.last());
    }
}

/// The stream that carries `frames` one after the other.
pub open spec fn stream_of(frames: Seq<FrameView>) -> Seq<u8>
    decreases frames.len(),
{
    if frames.len() == 0 {
        Seq::empty()
    } else {
        stream_of(frames.drop_last()) + frames.last().wire_bytes()
    }
}

/// A frame decodes alone if a new decoder that is given the frame's bytes
/// reports the frame, nothing else, and holds nothing afterwards. Whether a
/// frame does is up to the parser.
pub open spec fn decodes_alone(frame: FrameView) -> bool {
    &&& events_of(Seq::empty(), frame.wire_bytes()) == seq![DecodedView::Frame(frame)]
    &&& pending_after(Seq::empty(), frame.wire_bytes()) == Seq::<u8>::empty()
}

/// Frames that decode alone decode in a row: a new decoder that is given the
/// stream of `frames` reports exactly these frames, in their order. By
/// `lemma_decoding_ignores_pieces` it does so however the stream is cut.
pub proof fn lemma_frames_decode_in_a_row(frames: Seq<FrameView>)
    requires
        forall|i: int| 0 <= i < frames.len() ==> decodes_alone(#[trigger] frames[i]),
    ensures
        events_of(Seq::empty(), stream_of(frames)) == frames.map_values(
            |frame: FrameView| DecodedView::Frame(frame),
        ),
        pending_after(Seq::empty(), stream_of(frames)) == Seq::<u8>::empty(),
    decreases frames.len(),
{
    if frames.len() > 0 {
        let earlier = frames.drop_last();
        lemma_frames_decode_in_a_row(earlier);
        lemma_decoding_ignores_cuts(Seq::empty(), stream_of(earlier), frames.last().wire_bytes());
        assert(decodes_alone(frames[frames.len() - 1]));
        assert(frames.map_values(|frame: FrameView| DecodedView::Frame(frame)) =~= earlier.map_values(
            |frame: FrameView| DecodedView::Frame(frame),
        ) + seq![DecodedView::Frame(frames.last())]);
    }
}

} // verus!
