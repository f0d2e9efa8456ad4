//! Reading the dataflash window by window.
//!
//! The device answers a read request with the bytes it found at the address
//! asked for. Nothing on the wire ties an answer to its request, answers get
//! lost, and late ones turn up after the request was repeated. `FlashDataFile`
//! keeps the two addresses that tell a fresh answer from a stale one and
//! decides, for each thing that can happen while a caller waits for the next
//! window, what is to be done next. It sends and awaits nothing itself.

use crate::frame::{Direction, Frame, FrameView, MSP_DATAFLASH_READ};
use crate::wire::{MspDataFlashRead, MspDataFlashReply, MspDataFlashReplyView};
use vstd::prelude::*;

verus! {

/// Bytes asked for with every read request.
pub const CHUNK_WINDOW: u16 = 0x1000;

/// Milliseconds to wait for the answer to a read request before the decoder
/// is reset and the request sent again.
pub const CHUNK_TIMEOUT_MS: u64 = 50;

/// Why no window came back.
#[derive(Clone, Copy, Debug, PartialEq, Eq, Structural)]
pub enum ReadError {
    /// The whole of the used dataflash was handed out before this call.
    UseAfterClose,
    /// Nobody is left to deliver the device's answers.
    Disconnected,
}

/// What can happen to someone who reads the dataflash.
#[derive(Clone, Debug, PartialEq, Eq)]
pub enum ChunkEvent {
    /// The caller asks for the next window.
    Called,
    /// An answer of the device arrived.
    Reply(MspDataFlashReply),
    /// No answer arrived in time.
    TimedOut,
    /// No answer can arrive any more.
    Closed,
}

/// What is to be done next, as plain values.
pub enum ChunkStepView {
    Wait { reset_parser: bool, request: Option<FrameView>, timeout_ms: u64 },
    Done(Result<Seq<u8>, ReadError>),
}

/// What is to be done next.
#[derive(Debug, PartialEq, Eq)]
pub enum ChunkStep {
    /// Await an answer for `timeout_ms` milliseconds and come back with what
    /// happened. Before that, reset the frame decoder if `reset_parser` is
    /// set, then send `request` if there is one.
    Wait { reset_parser: bool, request: Option<Frame>, timeout_ms: u64 },
    /// The call is over. `Ok` holds the window's bytes; no bytes mean that
    /// the end of the used dataflash is reached.
    Done(Result<Vec<u8>, ReadError>),
}

impl View for ChunkStep {
    type V = ChunkStepView;

    open spec fn view(&self) -> ChunkStepView {
        match self {
            ChunkStep::Wait { reset_parser, request, timeout_ms } => ChunkStepView::Wait {
                reset_parser: *reset_parser,
                request: match request {
                    Some(frame) => Some(frame@),
                    None => None,
                },
                timeout_ms: *timeout_ms,
            },
            ChunkStep::Done(Ok(bytes)) => ChunkStepView::Done(Ok(bytes@)),
            ChunkStep::Done(Err(error)) => ChunkStepView::Done(Err(*error)),
        }
    }
}

/// The frame that asks for the window at `address`.
pub open spec fn read_request(address: u32) -> FrameView {
    FrameView {
        command_code: MSP_DATAFLASH_READ,
        direction: Direction::ToDevice,
        payload: MspDataFlashRead { read_address: address, read_length: CHUNK_WINDOW }.spec_pack(),
    }
}

/// The step that waits for an answer, for as long as every wait lasts.
pub open spec fn wait(reset_parser: bool, request: Option<FrameView>) -> ChunkStepView {
    ChunkStepView::Wait { reset_parser, request, timeout_ms: CHUNK_TIMEOUT_MS }
}

/// Whether a reply's window ends at an address that a `u32` can hold. A
/// reader takes no other reply.
pub open spec fn fits(reply: MspDataFlashReplyView) -> bool {
    reply.end_address() <= u32::MAX
}

/// A reader of the dataflash: how many bytes are in use, the address to ask
/// for next, and the address of the last window that was accepted.
#[derive(Clone, Copy, Debug, PartialEq, Eq, Structural)]
pub struct FlashDataFile {
    pub used_size: u32,
    pub next_address: u32,
    pub received_address: u32,
}

impl FlashDataFile {
    /// The last accepted window starts no later than the next one.
    pub open spec fn wf(self) -> bool {
        self.received_address <= self.next_address
    }

    /// The whole of the used dataflash has been handed out.
    pub open spec fn exhausted(self) -> bool {
        self.received_address >= self.used_size
    }

    /// A request is due: none was sent yet, or the last answer moved the
    /// next address on.
    pub open spec fn request_due(self) -> bool {
        self.next_address == 0 || self.next_address > self.received_address
    }

    /// The request to send before waiting, if one is due.
    pub open spec fn due_request(self) -> Option<FrameView> {
        if self.request_due() {
            Some(read_request(self.next_address))
        } else {
            None
        }
    }

    /// An answer is stale if its window starts before the address that is to
    /// be asked for next.
    pub open spec fn is_stale(self, reply: MspDataFlashReplyView) -> bool {
        reply.read_address < self.next_address
    }

    /// The reader after `event`. Only an answer that is not stale changes it:
    /// its address becomes the received one, and the address behind its
    /// window the next one.
    pub open spec fn after(self, event: ChunkEvent) -> FlashDataFile {
        match event {
            ChunkEvent::Reply(reply) if !self.is_stale(reply@) => FlashDataFile {
                used_size: self.used_size,
                next_address: reply@.end_address() as u32,
                received_address: reply.read_address,
            },
            _ => self,
        }
    }

    /// What is to be done after `event`.
    pub open spec fn step_on(self, event: ChunkEvent) -> ChunkStepView {
        match event {
            ChunkEvent::Called => if self.exhausted() {
                ChunkStepView::Done(Err(ReadError::UseAfterClose))
            } else {
                wait(false, self.due_request())
            },
            ChunkEvent::Reply(reply) => if self.is_stale(reply@) {
                wait(false, None)
            } else if self.after(event).exhausted() {
                ChunkStepView::Done(Ok(Seq::empty()))
            } else {
                ChunkStepView::Done(Ok(reply.payload@))
            },
            ChunkEvent::TimedOut => wait(true, self.due_request()),
            ChunkEvent::Closed => ChunkStepView::Done(Err(ReadError::Disconnected)),
        }
    }

    /// The reader after each of `events` in turn.
    pub open spec fn after_all(self, events: Seq<ChunkEvent>) -> FlashDataFile
        decreases events.len(),
    {
        if events.len() == 0 {
            self
        } else {
            self.after_all(events.drop_last()).after(events.last())
        }
    }

    /// The bytes that the reader's calls hand out while `events` happen: the
    /// windows that end a call, one after the other.
    pub open spec fn handed_out(self, events: Seq<ChunkEvent>) -> Seq<u8>
        decreases events.len(),
    {
        if events.len() == 0 {
            Seq::empty()
        } else {
            let before = self.handed_out(events.drop_last());
            match self.after_all(events.drop_last()).step_on(events.last()) {
                ChunkStepView::Done(Ok(bytes)) => before + bytes,
                _ => before,
            }
        }
    }

    /// The answers among `events` are those of a device that holds `flash`
    /// and keeps step with the reader: each comes before the end is reached,
    /// holds the bytes of `flash` at its address, and is stale or starts
    /// where the reader asked.
    pub open spec fn answered_from(self, events: Seq<ChunkEvent>, flash: Seq<u8>) -> bool {
        forall|i: int|
            0 <= i < events.len() ==> (#[trigger] events[i] matches ChunkEvent::Reply(reply) ==> {
                let file = self.after_all(events.take(i));
                &&& !file.exhausted()
                &&& reply@.end_address() <= flash.len()
                &&& reply.payload@ == flash.subrange(
                    reply.read_address as int,
                    reply@.end_address(),
                )
                &&& (file.is_stale(reply@) || reply.read_address == file.next_address)
            })
    }

    /// How far the reader has got: the bytes before this address were handed
    /// out.
    pub open spec fn progress(self) -> u32 {
        if self.exhausted() {
            self.received_address
        } else {
            self.next_address
        }
    }

    /// A reader that has not asked for anything yet.
    pub fn new(used_size: u32) -> (file: FlashDataFile)
        ensures
            file == (FlashDataFile { used_size, next_address: 0, received_address: 0 }),
            file.wf(),
    {
        FlashDataFile { used_size, next_address: 0, received_address: 0 }
    }

    /// Whether the whole of the used dataflash has been handed out.
    pub fn is_exhausted(&self) -> (exhausted: bool)
        ensures
            exhausted == self.exhausted(),
    {
        self.received_address >= self.used_size
    }

    /// The request for the window at the next address, if one is due.
    pub fn request(&self) -> (request: Option<Frame>)
        ensures
            match request {
                Some(frame) => self.due_request() == Some(frame@),
                None => self.due_request() is None,
            },
    {
        if self.next_address == 0 || self.next_address > self.received_address {
            let payload = MspDataFlashRead {
                read_address: self.next_address,
                read_length: CHUNK_WINDOW,
            }.pack();
            Some(Frame { command_code: MSP_DATAFLASH_READ, direction: Direction::ToDevice, payload })
        } else {
            None
        }
    }

    /// Takes in what happened and says what is to be done next.
    ///
    /// A call for the next window is refused once the used dataflash is
    /// handed out; otherwise the request is sent, if one is due, and an
    /// answer awaited. An answer that is not stale moves the reader on and
    /// ends the call with the window's bytes, or with none if the end of the
    /// used dataflash is reached; a stale one is passed over and the wait
    /// goes on, with no new request. After a wait without answer the decoder
    /// is reset and the request sent again. Once no answer can come, the call
    /// ends with an error.
    pub fn read_chunk(&mut self, event: ChunkEvent) -> (step: ChunkStep)
        requires
            event matches ChunkEvent::Reply(reply) ==> fits(reply@),
        ensures
            *final(self) == old(self).after(event),
            step@ == old(self).step_on(event),
            old(self).wf() ==> final(self).wf(),
    {
        match event {
            ChunkEvent::Called => {
                if self.is_exhausted() {
                    ChunkStep::Done(Err(ReadError::UseAfterClose))
                } else {
                    ChunkStep::Wait {
                        reset_parser: false,
                        request: self.request(),
                        timeout_ms: CHUNK_TIMEOUT_MS,
                    }
                }
            },
            ChunkEvent::Reply(reply) => {
                if reply.read_address < self.next_address {
                    return ChunkStep::Wait {
                        reset_parser: false,
                        request: None,
                        timeout_ms: CHUNK_TIMEOUT_MS,
                    };
                }
                let length: usize = reply.payload.len();
                self.received_address = reply.read_address;
                self.next_address = reply.read_address + length as u32;
                if self.is_exhausted() {
                    ChunkStep::Done(Ok(Vec::new()))
                } else {
                    ChunkStep::Done(Ok(reply.payload))
                }
            },
            ChunkEvent::TimedOut => ChunkStep::Wait {
                reset_parser: true,
                request: self.request(),
                timeout_ms: CHUNK_TIMEOUT_MS,
            },
            ChunkEvent::Closed => ChunkStep::Done(Err(ReadError::Disconnected)),
        }
    }
}

/// Whatever happens, the last accepted window starts no later than the next
/// one, as long as every accepted window ends at an address that a `u32` can
/// hold.
pub proof fn lemma_addresses_stay_ordered(file: FlashDataFile, event: ChunkEvent)
    requires
        file.wf(),
        event matches ChunkEvent::Reply(reply) ==> fits(reply@),
    ensures
        file.after(event).wf(),
        file.after(event).used_size == file.used_size,
        file.next_address <= file.after(event).next_address,
{
}

/// A wait without answer changes nothing in the reader, has the decoder reset
/// and, where a request is due, has the request for the same address sent
/// again. This holds however often it happens: after any number of such
/// waits the reader is where it was, and the next one is answered in the same
/// way and never ends the call.
pub proof fn lemma_timeouts_ask_again(file: FlashDataFile, waits: Seq<ChunkEvent>)
    requires
        forall|i: int| 0 <= i < waits.len() ==> waits[i] is TimedOut,
    ensures
        file.after_all(waits) == file,
        file.after_all(waits).step_on(ChunkEvent::TimedOut) == wait(true, file.due_request()),
        file.request_due() ==> file.due_request() == Some(read_request(file.next_address)),
    decreases waits.len(),
{
    if waits.len() > 0 {
        lemma_timeouts_ask_again(file, waits.drop_last());
    }
}

/// Reading assembles the flash: against a device that holds `flash` and keeps
/// step, the calls of a new reader hand out the bytes of `flash` from address
/// zero on, in order and without gap or repetition, whatever timeouts and
/// stale answers come in between. Once the reader is exhausted, all of the
/// used part has been handed out.
pub proof fn lemma_reading_assembles_the_flash(
    used_size: u32,
    events: Seq<ChunkEvent>,
    flash: Seq<u8>,
)
    requires
        flash.len() <= u32::MAX,
        (FlashDataFile { used_size, next_address: 0, received_address: 0 }).answered_from(
            events,
            flash,
        ),
    ensures
        ({
            let start = FlashDataFile { used_size, next_address: 0, received_address: 0 };
            let end = start.after_all(events);
            &&& end.wf()
            &&& end.used_size == used_size
            &&& end.progress() <= flash.len()
            &&& start.handed_out(events) == flash.take(end.progress() as int)
            &&& end.exhausted() ==> start.handed_out(events).len() >= used_size
        }),
    decreases events.len(),
{
    let start = FlashDataFile { used_size, next_address: 0, received_address: 0 };
    if events.len() == 0 {
        assert(start.handed_out(events) =~= flash.take(0));
    } else {
        let earlier = events.drop_last();
        assert forall|i: int| 0 <= i < earlier.len() implies (#[trigger] earlier[i] matches ChunkEvent::Reply(
            reply,
        ) ==> {
            let file = start.after_all(earlier.take(i));
            &&& !file.exhausted()
            &&& reply@.end_address() <= flash.len()
            &&& reply.payload@ == flash.subrange(reply.read_address as int, reply@.end_address())
            &&& (file.is_stale(reply@) || reply.read_address == file.next_address)
        }) by {
            assert(earlier[i] == events[i]);
            assert(earlier.take(i) =~= events.take(i));
        }
        lemma_reading_assembles_the_flash(used_size, earlier, flash);
        let file = start.after_all(earlier);
        let last = events.last();
        assert(events.take(events.len() - 1) =~= earlier);
        assert(last == events[events.len() - 1]);
        match last {
            ChunkEvent::Reply(reply) => {
                if !file.is_stale(reply@) {
                    let address = reply.read_address as int;
                    assert(flash.take(address) + flash.subrange(address, reply@.end_address())
                        =~= flash.take(reply@.end_address()));
                    assert(flash.take(address) + Seq::<u8>::empty() =~= flash.take(address));
                }
            },
            _ => {},
        }
    }
}

} // verus!
