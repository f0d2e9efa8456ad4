//! Byte layouts of the payloads that the link itself reads and writes.
//!
//! Every layout is fixed by the device's firmware: integers are little-endian,
//! and the two flags of the dataflash summary share the first byte. Each type
//! has a spec function that says which bytes stand for a value and one that
//! says which value stands behind bytes; the executable `pack` and
//! `unpack_from_slice` are proved against them, and the lemmas at the end of
//! the file show that the two directions undo each other.
//!
//! The file also says which slots of the table of mode ranges count as used.

use vstd::prelude::*;

verus! {

/// Bytes of a dataflash read request.
pub const DATAFLASH_READ_LEN: usize = 6;

/// Bytes of a dataflash summary reply.
pub const DATAFLASH_SUMMARY_LEN: usize = 13;

/// Bytes of one mode range entry.
pub const MODE_RANGE_LEN: usize = 4;

/// Bytes of a set-mode-range request.
pub const SET_MODE_RANGE_LEN: usize = 5;

/// Slots in the table of mode ranges that the device reports.
pub const MODE_RANGE_COUNT: usize = 20;

/// Bytes of the table of mode ranges.
pub const MODE_RANGES_LEN: usize = 80;

/// Bytes of the address that starts a dataflash read reply.
pub const DATAFLASH_REPLY_HEADER_LEN: usize = 4;

/// Why a payload could not be read.
#[derive(Clone, Copy, Debug, PartialEq, Eq, Structural)]
pub enum WireError {
    /// A fixed-size layout was given another number of bytes.
    LengthMismatch,
    /// The bytes end before the fixed part of the layout does.
    TooShort,
}

/// The two bytes of `x`, low byte first.
pub open spec fn u16_le(x: u16) -> Seq<u8> {
    seq![(x % 256) as u8, (x / 256) as u8]
}

/// The number whose little-endian bytes are `b0, b1`.
pub open spec fn le_u16(b0: u8, b1: u8) -> u16 {
    (b0 + 256 * b1) as u16
}

/// The four bytes of `x`, low byte first.
pub open spec fn u32_le(x: u32) -> Seq<u8> {
    seq![
        (x % 256) as u8,
        (x / 256 % 256) as u8,
        (x / 65536 % 256) as u8,
        (x / 16777216) as u8,
    ]
}

/// The number whose little-endian bytes are `b0, b1, b2, b3`.
pub open spec fn le_u32(b0: u8, b1: u8, b2: u8, b3: u8) -> u32 {
    (b0 + 256 * b1 + 65536 * b2 + 16777216 * b3) as u32
}

/// The little-endian number that starts at index `at` of `bytes`.
pub open spec fn le_u32_at(bytes: Seq<u8>, at: int) -> u32 {
    le_u32(bytes[at], bytes[at + 1], bytes[at + 2], bytes[at + 3])
}

/// Appends the two little-endian bytes of `x` to `out`.
pub(crate) fn push_u16_le(out: &mut Vec<u8>, x: u16)
    ensures
        final(out)@ == old(out)@ + u16_le(x),
{
    out.push((x % 256) as u8);
    out.push((x / 256) as u8);
}

/// Appends the four little-endian bytes of `x` to `out`.
pub(crate) fn push_u32_le(out: &mut Vec<u8>, x: u32)
    ensures
        final(out)@ == old(out)@ + u32_le(x),
{
    out.push((x % 256) as u8);
    out.push((x / 256 % 256) as u8);
    out.push((x / 65536 % 256) as u8);
    out.push((x / 16777216) as u8);
}

/// Reads the little-endian `u16` that starts at index `at`.
pub(crate) fn read_u16_le(bytes: &[u8], at: usize) -> (x: u16)
    requires
        at + 2 <= bytes@.len(),
    ensures
        x == le_u16(bytes@[at as int], bytes@[at + 1]),
{
    let b0: u16 = bytes[at] as u16;
    let b1: u16 = bytes[at + 1] as u16;
    b0 + 256 * b1
}

/// Reads the little-endian `u32` that starts at index `at`.
pub(crate) fn read_u32_le(bytes: &[u8], at: usize) -> (x: u32)
    requires
        at + 4 <= bytes@.len(),
    ensures
        x == le_u32_at(bytes@, at as int),
{
    let b0: u32 = bytes[at] as u32;
    let b1: u32 = bytes[at + 1] as u32;
    let b2: u32 = bytes[at + 2] as u32;
    let b3: u32 = bytes[at + 3] as u32;
    b0 + 256 * b1 + 65536 * b2 + 16777216 * b3
}

/// Request for a window of the dataflash: where to start and how many bytes
/// the device may send at most.
#[derive(Clone, Copy, Debug, PartialEq, Eq, Structural)]
pub struct MspDataFlashRead {
    pub read_address: u32,
    pub read_length: u16,
}

impl MspDataFlashRead {
    /// The six bytes of the request: address, then length.
    pub open spec fn spec_pack(self) -> Seq<u8> {
        u32_le(self.read_address) + u16_le(self.read_length)
    }

    /// The request that the first six of `bytes` stand for.
    pub open spec fn from_bytes(bytes: Seq<u8>) -> MspDataFlashRead {
        MspDataFlashRead {
            read_address: le_u32_at(bytes, 0),
            read_length: le_u16(bytes[4], bytes[5]),
        }
    }

    /// The request behind `bytes`, which must be six.
    pub open spec fn spec_unpack(bytes: Seq<u8>) -> Result<MspDataFlashRead, WireError> {
        if bytes.len() == DATAFLASH_READ_LEN {
            Ok(Self::from_bytes(bytes))
        } else {
            Err(WireError::LengthMismatch)
        }
    }

    /// The bytes that stand for the value.
    pub fn pack(&self) -> (out: Vec<u8>)
        ensures
            out@ == self.spec_pack(),
    {
        let mut out: Vec<u8> = Vec::new();
        push_u32_le(&mut out, self.read_address);
        push_u16_le(&mut out, self.read_length);
        out
    }

    /// The value that `src` stands for, or why it stands for none.
    pub fn unpack_from_slice(src: &[u8]) -> (r: Result<MspDataFlashRead, WireError>)
        ensures
            r == Self::spec_unpack(src@),
    {
        if src.len() != DATAFLASH_READ_LEN {
            return Err(WireError::LengthMismatch);
        }
        Ok(MspDataFlashRead { read_address: read_u32_le(src, 0), read_length: read_u16_le(src, 4) })
    }
}

/// What a dataflash read reply holds, as plain values.
pub struct MspDataFlashReplyView {
    pub read_address: u32,
    pub payload: Seq<u8>,
}

/// One window of the dataflash as the device sent it: the address it was read
/// from and the bytes found there.
#[derive(Clone, Debug, PartialEq, Eq)]
pub struct MspDataFlashReply {
    pub read_address: u32,
    pub payload: Vec<u8>,
}

impl View for MspDataFlashReply {
    type V = MspDataFlashReplyView;

    open spec fn view(&self) -> MspDataFlashReplyView {
        MspDataFlashReplyView { read_address: self.read_address, payload: self.payload@ }
    }
}

impl MspDataFlashReplyView {
    /// The bytes of the reply: the address, then the window's bytes.
    pub open spec fn spec_pack(self) -> Seq<u8> {
        u32_le(self.read_address) + self.payload
    }

    /// The reply behind `bytes`: the first four are the address, the rest is
    /// the window. Fewer than four bytes are no reply.
    pub open spec fn spec_unpack(bytes: Seq<u8>) -> Result<MspDataFlashReplyView, WireError> {
        if bytes.len() >= DATAFLASH_REPLY_HEADER_LEN {
            Ok(
                MspDataFlashReplyView {
                    read_address: le_u32_at(bytes, 0),
                    payload: bytes.skip(DATAFLASH_REPLY_HEADER_LEN as int),
                },
            )
        } else {
            Err(WireError::TooShort)
        }
    }

    /// The address just behind the window.
    pub open spec fn end_address(self) -> int {
        self.read_address + self.payload.len()
    }
}

impl MspDataFlashReply {
    /// Whether the window ends at an address that a `u32` can hold.
    pub fn ends_in_range(&self) -> (fits: bool)
        ensures
            fits == (self@.end_address() <= u32::MAX),
    {
        self.payload.len() <= (u32::MAX - self.read_address) as usize
    }

    /// The bytes that stand for the reply.
    pub fn pack(&self) -> (out: Vec<u8>)
        ensures
            out@ == self@.spec_pack(),
    {
        let mut out: Vec<u8> = Vec::new();
        push_u32_le(&mut out, self.read_address);
        let mut i: usize = 0;
        while i < self.payload.len()
            invariant
                i <= self.payload@.len(),
                out@ == u32_le(self.read_address) + self.payload@.take(i as int),
            decreases self.payload@.len() - i,
        {
            out.push(self.payload[i]);
            i += 1;
        }
        out
    }

    /// The value that `src` stands for, or why it stands for none.
    pub fn unpack_from_slice(src: &[u8]) -> (r: Result<MspDataFlashReply, WireError>)
        ensures
            match r {
                Ok(reply) => MspDataFlashReplyView::spec_unpack(src@) == Ok::<
                    MspDataFlashReplyView,
                    WireError,
                >(reply@),
                Err(e) => MspDataFlashReplyView::spec_unpack(src@) == Err::<
                    MspDataFlashReplyView,
                    WireError,
                >(e),
            },
    {
        if src.len() < DATAFLASH_REPLY_HEADER_LEN {
            return Err(WireError::TooShort);
        }
        let read_address = read_u32_le(src, 0);
        let mut payload: Vec<u8> = Vec::new();
        let mut i: usize = DATAFLASH_REPLY_HEADER_LEN;
        while i < src.len()
            invariant
                DATAFLASH_REPLY_HEADER_LEN <= i <= src@.len(),
                payload@ == src@.subrange(DATAFLASH_REPLY_HEADER_LEN as int, i as int),
            decreases src@.len() - i,
        {
            payload.push(src[i]);
            i += 1;
        }
        Ok(MspDataFlashReply { read_address, payload })
    }
}

/// The device's account of its dataflash: whether it has one, whether it can
/// be read now, and how much of it is in use.
#[derive(Clone, Copy, Debug, PartialEq, Eq, Structural)]
pub struct MspDataFlashSummaryReply {
    pub supported: bool,
    pub ready: bool,
    pub sectors: u32,
    pub total_size_bytes: u32,
    pub used_size_bytes: u32,
}

/// The first byte of a summary: `supported` has the weight 2 and `ready` the
/// weight 1, which are the seventh and the eighth bit counted from the most
/// significant one.
pub open spec fn summary_flags(supported: bool, ready: bool) -> u8 {
    ((if supported { 2int } else { 0int }) + (if ready { 1int } else { 0int })) as u8
}

impl MspDataFlashSummaryReply {
    /// The thirteen bytes of the summary: flags, sectors, total size, used
    /// size.
    pub open spec fn spec_pack(self) -> Seq<u8> {
        seq![summary_flags(self.supported, self.ready)] + u32_le(self.sectors) + u32_le(
            self.total_size_bytes,
        ) + u32_le(self.used_size_bytes)
    }

    /// The summary that the first thirteen of `bytes` stand for. Of the first
    /// byte only the two flags are read.
    pub open spec fn from_bytes(bytes: Seq<u8>) -> MspDataFlashSummaryReply {
        MspDataFlashSummaryReply {
            supported: bytes[0] / 2 % 2 == 1,
            ready: bytes[0] % 2 == 1,
            sectors: le_u32_at(bytes, 1),
            total_size_bytes: le_u32_at(bytes, 5),
            used_size_bytes: le_u32_at(bytes, 9),
        }
    }

    /// The summary behind `bytes`, which must be thirteen.
    pub open spec fn spec_unpack(bytes: Seq<u8>) -> Result<MspDataFlashSummaryReply, WireError> {
        if bytes.len() == DATAFLASH_SUMMARY_LEN {
            Ok(Self::from_bytes(bytes))
        } else {
            Err(WireError::LengthMismatch)
        }
    }

    /// The bytes that stand for the value.
    pub fn pack(&self) -> (out: Vec<u8>)
        ensures
            out@ == self.spec_pack(),
    {
        let supported: u8 = if self.supported {
            2
        } else {
            0
        };
        let ready: u8 = if self.ready {
            1
        } else {
            0
        };
        let mut out: Vec<u8> = Vec::new();
        out.push(supported + ready);
        push_u32_le(&mut out, self.sectors);
        push_u32_le(&mut out, self.total_size_bytes);
        push_u32_le(&mut out, self.used_size_bytes);
        out
    }

    /// The value that `src` stands for, or why it stands for none.
    pub fn unpack_from_slice(src: &[u8]) -> (r: Result<MspDataFlashSummaryReply, WireError>)
        ensures
            r == Self::spec_unpack(src@),
    {
        if src.len() != DATAFLASH_SUMMARY_LEN {
            return Err(WireError::LengthMismatch);
        }
        let flags: u8 = src[0];
        Ok(
            MspDataFlashSummaryReply {
                supported: flags / 2 % 2 == 1,
                ready: flags % 2 == 1,
                sectors: read_u32_le(src, 1),
                total_size_bytes: read_u32_le(src, 5),
                used_size_bytes: read_u32_le(src, 9),
            },
        )
    }
}

/// One slot of the device's table of mode ranges: the mode, the auxiliary
/// channel that switches it, and the steps of the channel between which it is
/// on.
#[derive(Clone, Copy, Debug, PartialEq, Eq, Structural)]
pub struct MspModeRange {
    pub box_id: u8,
    pub aux_channel_index: u8,
    pub start_step: u8,
    pub end_step: u8,
}

impl MspModeRange {
    /// The four bytes of the slot, in the order of the fields.
    pub open spec fn spec_pack(self) -> Seq<u8> {
        seq![self.box_id, self.aux_channel_index, self.start_step, self.end_step]
    }

    /// The slot that the four bytes from index `at` of `bytes` stand for.
    pub open spec fn at(bytes: Seq<u8>, at: int) -> MspModeRange {
        MspModeRange {
            box_id: bytes[at],
            aux_channel_index: bytes[at + 1],
            start_step: bytes[at + 2],
            end_step: bytes[at + 3],
        }
    }

    /// The slot behind `bytes`, which must be four.
    pub open spec fn spec_unpack(bytes: Seq<u8>) -> Result<MspModeRange, WireError> {
        if bytes.len() == MODE_RANGE_LEN {
            Ok(Self::at(bytes, 0))
        } else {
            Err(WireError::LengthMismatch)
        }
    }

    /// A slot is in use unless both of its steps are zero.
    pub open spec fn is_used(self) -> bool {
        self.start_step != 0 || self.end_step != 0
    }

    /// The bytes that stand for the value.
    pub fn pack(&self) -> (out: Vec<u8>)
        ensures
            out@ == self.spec_pack(),
    {
        let mut out: Vec<u8> = Vec::new();
        out.push(self.box_id);
        out.push(self.aux_channel_index);
        out.push(self.start_step);
        out.push(self.end_step);
        out
    }

    /// The value that `src` stands for, or why it stands for none.
    pub fn unpack_from_slice(src: &[u8]) -> (r: Result<MspModeRange, WireError>)
        ensures
            r == Self::spec_unpack(src@),
    {
        if src.len() != MODE_RANGE_LEN {
            return Err(WireError::LengthMismatch);
        }
        Ok(
            MspModeRange {
                box_id: src[0],
                aux_channel_index: src[1],
                start_step: src[2],
                end_step: src[3],
            },
        )
    }
}

/// Request that writes one slot of the device's table of mode ranges.
#[derive(Clone, Copy, Debug, PartialEq, Eq, Structural)]
pub struct MspSetModeRange {
    pub index: u8,
    pub mode_range: MspModeRange,
}

impl MspSetModeRange {
    /// The five bytes of the request: the slot's index, then the slot.
    pub open spec fn spec_pack(self) -> Seq<u8> {
        seq![self.index] + self.mode_range.spec_pack()
    }

    /// The request that the first five of `bytes` stand for.
    pub open spec fn from_bytes(bytes: Seq<u8>) -> MspSetModeRange {
        MspSetModeRange { index: bytes[0], mode_range: MspModeRange::at(bytes, 1) }
    }

    /// The request behind `bytes`, which must be five.
    pub open spec fn spec_unpack(bytes: Seq<u8>) -> Result<MspSetModeRange, WireError> {
        if bytes.len() == SET_MODE_RANGE_LEN {
            Ok(Self::from_bytes(bytes))
        } else {
            Err(WireError::LengthMismatch)
        }
    }

    /// The bytes that stand for the value.
    pub fn pack(&self) -> (out: Vec<u8>)
        ensures
            out@ == self.spec_pack(),
    {
        let mut out: Vec<u8> = Vec::new();
        out.push(self.index);
        out.push(self.mode_range.box_id);
        out.push(self.mode_range.aux_channel_index);
        out.push(self.mode_range.start_step);
        out.push(self.mode_range.end_step);
        out
    }

    /// The value that `src` stands for, or why it stands for none.
    pub fn unpack_from_slice(src: &[u8]) -> (r: Result<MspSetModeRange, WireError>)
        ensures
            r == Self::spec_unpack(src@),
    {
        if src.len() != SET_MODE_RANGE_LEN {
            return Err(WireError::LengthMismatch);
        }
        Ok(
            MspSetModeRange {
                index: src[0],
                mode_range: MspModeRange {
                    box_id: src[1],
                    aux_channel_index: src[2],
                    start_step: src[3],
                    end_step: src[4],
                },
            },
        )
    }
}

/// The device's whole table of mode ranges: twenty slots, used or not, in the
/// order of their indices. Its view is the sequence of the slots.
#[derive(Clone, Copy, Debug, PartialEq, Eq)]
pub struct MspModeRangesReplay {
    pub mode_ranges: [MspModeRange; 20],
}

impl View for MspModeRangesReplay {
    type V = Seq<MspModeRange>;

    open spec fn view(&self) -> Seq<MspModeRange> {
        self.mode_ranges@
    }
}

/// The bytes of a table: slot after slot, four bytes each.
pub open spec fn table_bytes(slots: Seq<MspModeRange>) -> Seq<u8> {
    Seq::new(4 * slots.len(), |k: int| slots[k / 4].spec_pack()[k % 4])
}

/// The twenty slots that the first eighty of `bytes` stand for.
pub open spec fn table_slots(bytes: Seq<u8>) -> Seq<MspModeRange> {
    Seq::new(MODE_RANGE_COUNT as nat, |i: int| MspModeRange::at(bytes, 4 * i))
}

/// The slots behind `bytes`, which must be eighty.
pub open spec fn table_unpack(bytes: Seq<u8>) -> Result<Seq<MspModeRange>, WireError> {
    if bytes.len() == MODE_RANGES_LEN {
        Ok(table_slots(bytes))
    } else {
        Err(WireError::LengthMismatch)
    }
}

impl MspModeRangesReplay {
    /// The bytes that stand for the table.
    pub fn pack(&self) -> (out: Vec<u8>)
        ensures
            out@ == table_bytes(self@),
    {
        let mut out: Vec<u8> = Vec::new();
        let mut i: usize = 0;
        while i < MODE_RANGE_COUNT
            invariant
                i <= MODE_RANGE_COUNT,
                self@.len() == MODE_RANGE_COUNT,
                out@.len() == 4 * i,
                forall|k: int| 0 <= k < 4 * i ==> out@[k] == #[trigger] table_bytes(self@)[k],
            decreases MODE_RANGE_COUNT - i,
        {
            let slot = self.mode_ranges[i];
            out.push(slot.box_id);
            out.push(slot.aux_channel_index);
            out.push(slot.start_step);
            out.push(slot.end_step);
            i += 1;
        }
        out
    }

    /// The value that `src` stands for, or why it stands for none.
    pub fn unpack_from_slice(src: &[u8]) -> (r: Result<MspModeRangesReplay, WireError>)
        ensures
            match r {
                Ok(table) => table_unpack(src@) == Ok::<Seq<MspModeRange>, WireError>(table@),
                Err(e) => table_unpack(src@) == Err::<Seq<MspModeRange>, WireError>(e),
            },
    {
        if src.len() != MODE_RANGES_LEN {
            return Err(WireError::LengthMismatch);
        }
        let unused = MspModeRange { box_id: 0, aux_channel_index: 0, start_step: 0, end_step: 0 };
        let mut mode_ranges: [MspModeRange; 20] = [unused; 20];
        let mut i: usize = 0;
        while i < MODE_RANGE_COUNT
            invariant
                i <= MODE_RANGE_COUNT,
                src@.len() == MODE_RANGES_LEN,
                mode_ranges@.len() == MODE_RANGE_COUNT,
                forall|j: int| 0 <= j < i ==> mode_ranges@[j] == #[trigger] table_slots(src@)[j],
            decreases MODE_RANGE_COUNT - i,
        {
            mode_ranges[i] = MspModeRange {
                box_id: src[4 * i],
                aux_channel_index: src[4 * i + 1],
                start_step: src[4 * i + 2],
                end_step: src[4 * i + 3],
            };
            i += 1;
        }
        assert(mode_ranges@ =~= table_slots(src@));
        Ok(MspModeRangesReplay { mode_ranges })
    }
}

/// A mode range as the caller sees it: a slot together with its index in the
/// device's table.
#[derive(Clone, Copy, Debug, PartialEq, Eq, Structural)]
pub struct ModeRange {
    pub index: u8,
    pub box_id: u8,
    pub aux_channel_index: u8,
    pub start_step: u8,
    pub end_step: u8,
}

impl ModeRange {
    /// The slot at index `index` of the table, as the caller sees it.
    pub open spec fn of_slot(index: int, slot: MspModeRange) -> ModeRange {
        ModeRange {
            index: index as u8,
            box_id: slot.box_id,
            aux_channel_index: slot.aux_channel_index,
            start_step: slot.start_step,
            end_step: slot.end_step,
        }
    }

    /// A range is in use unless both of its steps are zero.
    pub open spec fn is_used(self) -> bool {
        self.start_step != 0 || self.end_step != 0
    }

    /// The request that writes this range into its slot.
    pub open spec fn to_request(self) -> MspSetModeRange {
        MspSetModeRange {
            index: self.index,
            mode_range: MspModeRange {
                box_id: self.box_id,
                aux_channel_index: self.aux_channel_index,
                start_step: self.start_step,
                end_step: self.end_step,
            },
        }
    }
}

/// Every slot of a table with its index, in the order of the table.
pub open spec fn indexed_slots(slots: Seq<MspModeRange>) -> Seq<ModeRange> {
    slots.map(|i: int, slot: MspModeRange| ModeRange::of_slot(i, slot))
}

/// The ranges of a table that are in use, in the order of the table.
pub open spec fn used_ranges(slots: Seq<MspModeRange>) -> Seq<ModeRange> {
    indexed_slots(slots).filter(|range: ModeRange| range.is_used())
}

/// A `u16` is put together again from its two little-endian bytes.
pub proof fn lemma_u16_from_its_bytes(x: u16)
    ensures
        u16_le(x).len() == 2,
        le_u16(u16_le(x)[0], u16_le(x)[1]) == x,
{
}

/// Two bytes are the little-endian bytes of the `u16` they stand for.
pub proof fn lemma_bytes_of_their_u16(b0: u8, b1: u8)
    ensures
        u16_le(le_u16(b0, b1)) == seq![b0, b1],
{
}

/// A `u32` is put together again from its four little-endian bytes.
pub proof fn lemma_u32_from_its_bytes(x: u32)
    ensures
        u32_le(x).len() == 4,
        le_u32_at(u32_le(x), 0) == x,
{
    assert(x % 256 + 256 * (x / 256 % 256) + 65536 * (x / 65536 % 256) + 16777216 * (x / 16777216)
        == x) by (bit_vector);
}

/// Four bytes are the little-endian bytes of the `u32` they stand for.
pub proof fn lemma_bytes_of_their_u32(b0: u8, b1: u8, b2: u8, b3: u8)
    ensures
        u32_le(le_u32(b0, b1, b2, b3)) == seq![b0, b1, b2, b3],
{
    let x: u32 = le_u32(b0, b1, b2, b3);
    assert(x % 256 == b0 && x / 256 % 256 == b1 && x / 65536 % 256 == b2 && x / 16777216 == b3)
        by (bit_vector)
        requires
            x == b0 + 256 * b1 + 65536 * b2 + 16777216 * b3,
    ;
}

/// A dataflash read request is read back from its bytes.
pub proof fn lemma_dataflash_read_unpacks_what_was_packed(request: MspDataFlashRead)
    ensures
        MspDataFlashRead::spec_unpack(request.spec_pack()) == Ok::<MspDataFlashRead, WireError>(
            request,
        ),
{
    lemma_u32_from_its_bytes(request.read_address);
    lemma_u16_from_its_bytes(request.read_length);
}

/// Six bytes, read as a dataflash read request and written again, are the
/// same six bytes.
pub proof fn lemma_dataflash_read_packs_what_was_unpacked(bytes: Seq<u8>)
    requires
        bytes.len() == DATAFLASH_READ_LEN,
    ensures
        MspDataFlashRead::from_bytes(bytes).spec_pack() == bytes,
{
    lemma_bytes_of_their_u32(bytes[0], bytes[1], bytes[2], bytes[3]);
    lemma_bytes_of_their_u16(bytes[4], bytes[5]);
}

/// A dataflash read reply is read back from its bytes.
pub proof fn lemma_dataflash_reply_unpacks_what_was_packed(reply: MspDataFlashReplyView)
    ensures
        MspDataFlashReplyView::spec_unpack(reply.spec_pack()) == Ok::<
            MspDataFlashReplyView,
            WireError,
        >(reply),
{
    lemma_u32_from_its_bytes(reply.read_address);
    assert(reply.spec_pack().skip(4) =~= reply.payload);
}

/// Four or more bytes, read as a dataflash read reply and written again, are
/// the same bytes.
pub proof fn lemma_dataflash_reply_packs_what_was_unpacked(bytes: Seq<u8>)
    requires
        bytes.len() >= DATAFLASH_REPLY_HEADER_LEN,
    ensures
        MspDataFlashReplyView::spec_unpack(bytes) is Ok,
        MspDataFlashReplyView::spec_unpack(bytes).unwrap().spec_pack() == bytes,
{
    lemma_bytes_of_their_u32(bytes[0], bytes[1], bytes[2], bytes[3]);
}

/// A dataflash summary is read back from its bytes.
pub proof fn lemma_dataflash_summary_unpacks_what_was_packed(summary: MspDataFlashSummaryReply)
    ensures
        MspDataFlashSummaryReply::spec_unpack(summary.spec_pack()) == Ok::<
            MspDataFlashSummaryReply,
            WireError,
        >(summary),
{
    lemma_u32_from_its_bytes(summary.sectors);
    lemma_u32_from_its_bytes(summary.total_size_bytes);
    lemma_u32_from_its_bytes(summary.used_size_bytes);
}

/// Thirteen bytes, read as a dataflash summary and written again, are the
/// same thirteen bytes, provided that the first holds nothing but the two
/// flags. Other bits of the first byte are not read, and written as zero.
pub proof fn lemma_dataflash_summary_packs_what_was_unpacked(bytes: Seq<u8>)
    requires
        bytes.len() == DATAFLASH_SUMMARY_LEN,
        bytes[0] < 4,
    ensures
        MspDataFlashSummaryReply::from_bytes(bytes).spec_pack() == bytes,
{
    lemma_bytes_of_their_u32(bytes[1], bytes[2], bytes[3], bytes[4]);
    lemma_bytes_of_their_u32(bytes[5], bytes[6], bytes[7], bytes[8]);
    lemma_bytes_of_their_u32(bytes[9], bytes[10], bytes[11], bytes[12]);
}

/// A set-mode-range request is read back from its bytes.
pub proof fn lemma_set_mode_range_unpacks_what_was_packed(request: MspSetModeRange)
    ensures
        MspSetModeRange::spec_unpack(request.spec_pack()) == Ok::<MspSetModeRange, WireError>(
            request,
        ),
{
}

/// Five bytes, read as a set-mode-range request and written again, are the
/// same five bytes.
pub proof fn lemma_set_mode_range_packs_what_was_unpacked(bytes: Seq<u8>)
    requires
        bytes.len() == SET_MODE_RANGE_LEN,
    ensures
        MspSetModeRange::from_bytes(bytes).spec_pack() == bytes,
{
}

/// A table of twenty slots is read back from its bytes.
pub proof fn lemma_mode_ranges_unpack_what_was_packed(slots: Seq<MspModeRange>)
    requires
        slots.len() == MODE_RANGE_COUNT,
    ensures
        table_unpack(table_bytes(slots)) == Ok::<Seq<MspModeRange>, WireError>(slots),
{
    assert(table_slots(table_bytes(slots)) =~= slots);
}

/// Eighty bytes, read as a table of mode ranges and written again, are the
/// same eighty bytes.
pub proof fn lemma_mode_ranges_pack_what_was_unpacked(bytes: Seq<u8>)
    requires
        bytes.len() == MODE_RANGES_LEN,
    ensures
        table_bytes(table_slots(bytes)) == bytes,
{
}

/// The used ranges of the first `i + 1` slots of a table are those of the
/// first `i`, followed by slot `i` if it is in use.
pub proof fn lemma_used_ranges_grow(slots: Seq<MspModeRange>, i: int)
    requires
        0 <= i < slots.len(),
    ensures
        used_ranges(slots.take(i + 1)) == if slots[i].is_used() {
            used_ranges(slots.take(i)).push(ModeRange::of_slot(i, slots[i]))
        } else {
            used_ranges(slots.take(i))
        },
{
    reveal(Seq::filter);
    let longer = indexed_slots(slots.take(i + 1));
    assert(longer.drop_last() =~= indexed_slots(slots.take(i)));
    assert(longer.last() == ModeRange::of_slot(i, slots[i]));
}

/// The used ranges of a table are exactly its used slots, each once and
/// under its own index, in ascending order of the indices.
pub proof fn lemma_used_ranges_are_the_used_slots(slots: Seq<MspModeRange>)
    requires
        slots.len() <= 256,
    ensures
        forall|k: int|
            0 <= k < used_ranges(slots).len() ==> {
                let range = #[trigger] used_ranges(slots)[k];
                &&& range.index < slots.len()
                &&& slots[range.index as int].is_used()
                &&& range == ModeRange::of_slot(range.index as int, slots[range.index as int])
            },
        forall|j: int, k: int|
            0 <= j < k < used_ranges(slots).len() ==> (#[trigger] used_ranges(slots)[j]).index < (
            #[trigger] used_ranges(slots)[k]).index,
        forall|i: int|
            0 <= i < slots.len() && (#[trigger] slots[i]).is_used() ==> used_ranges(
                slots,
            ).contains(ModeRange::of_slot(i, slots[i])),
    decreases slots.len(),
{
    if slots.len() == 0 {
        reveal(Seq::filter);
    } else {
        let i = slots.len() - 1;
        let shorter = slots.take(i);
        lemma_used_ranges_are_the_used_slots(shorter);
        lemma_used_ranges_grow(slots, i);
        assert(slots.take(i + 1) == slots);
        let before = used_ranges(shorter);
        let all = used_ranges(slots);
        assert forall|k: int| 0 <= k < all.len() implies {
            let range = #[trigger] all[k];
            &&& range.index < slots.len()
            &&& slots[range.index as int].is_used()
            &&& range == ModeRange::of_slot(range.index as int, slots[range.index as int])
        } by {
            if k < before.len() {
                assert(all[k] == before[k]);
                assert(shorter[before[k].index as int] == slots[before[k].index as int]);
            }
        }
        assert forall|j: int, k: int| 0 <= j < k < all.len() implies (#[trigger] all[j]).index < (
        #[trigger] all[k]).index by {
            assert(all[j] == before[j]);
            if k < before.len() {
                assert(all[k] == before[k]);
            }
        }
        assert forall|n: int| 0 <= n < slots.len() && (#[trigger] slots[n]).is_used() implies all.contains(
            ModeRange::of_slot(n, slots[n]),
        ) by {
            if n < i {
                assert(shorter[n] == slots[n]);
                let found = choose|k: int|
                    0 <= k < before.len() && before[k] == ModeRange::of_slot(n, shorter[n]);
                assert(all[found] == ModeRange::of_slot(n, slots[n]));
            } else {
                assert(all[all.len() - 1] == ModeRange::of_slot(n, slots[n]));
            }
        }
    }
}

} // verus!
