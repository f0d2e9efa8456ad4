use inav_msp::wire::{
    MspDataFlashRead, MspDataFlashReply, MspDataFlashSummaryReply, MspModeRange,
    MspModeRangesReplay, MspSetModeRange, WireError,
};
use packed_struct::PackedStruct;

fn unused() -> MspModeRange {
    MspModeRange { box_id: 0, aux_channel_index: 0, start_step: 0, end_step: 0 }
}

#[test]
fn dataflash_read_is_address_then_length() {
    let request = MspDataFlashRead { read_address: 0x1234_5678, read_length: 0x1000 };
    assert_eq!(request.pack(), vec![0x78, 0x56, 0x34, 0x12, 0x00, 0x10]);
}

#[test]
fn dataflash_read_unpacks_little_endian() {
    let request = MspDataFlashRead::unpack_from_slice(&[0x00, 0x10, 0x00, 0x00, 0xff, 0x01]);
    assert_eq!(request, Ok(MspDataFlashRead { read_address: 4096, read_length: 511 }));
}

#[test]
fn dataflash_read_holds_the_largest_values() {
    let request = MspDataFlashRead { read_address: u32::MAX, read_length: u16::MAX };
    assert_eq!(request.pack(), vec![0xff; 6]);
    assert_eq!(MspDataFlashRead::unpack_from_slice(&[0xff; 6]), Ok(request));
}

#[test]
fn dataflash_read_wants_six_bytes() {
    assert_eq!(MspDataFlashRead::unpack_from_slice(&[0; 5]), Err(WireError::LengthMismatch));
    assert_eq!(MspDataFlashRead::unpack_from_slice(&[0; 7]), Err(WireError::LengthMismatch));
    assert_eq!(MspDataFlashRead::unpack_from_slice(&[]), Err(WireError::LengthMismatch));
}

#[test]
fn dataflash_reply_is_address_then_window() {
    let reply = MspDataFlashReply { read_address: 0x0001_0203, payload: vec![9, 8, 7] };
    assert_eq!(reply.pack(), vec![0x03, 0x02, 0x01, 0x00, 9, 8, 7]);
}

#[test]
fn dataflash_reply_splits_address_from_window() {
    let reply = MspDataFlashReply::unpack_from_slice(&[0x00, 0x10, 0x00, 0x00, 1, 2, 3, 4, 5]);
    assert_eq!(reply, Ok(MspDataFlashReply { read_address: 4096, payload: vec![1, 2, 3, 4, 5] }));
}

#[test]
fn dataflash_reply_may_hold_an_empty_window() {
    let reply = MspDataFlashReply::unpack_from_slice(&[0x88, 0x13, 0x00, 0x00]);
    assert_eq!(reply, Ok(MspDataFlashReply { read_address: 5000, payload: vec![] }));
}

#[test]
fn dataflash_reply_wants_its_address() {
    assert_eq!(MspDataFlashReply::unpack_from_slice(&[1, 2, 3]), Err(WireError::TooShort));
    assert_eq!(MspDataFlashReply::unpack_from_slice(&[]), Err(WireError::TooShort));
}

#[test]
fn dataflash_reply_round_trips() {
    let bytes: Vec<u8> = (0u8..200).collect();
    let reply = MspDataFlashReply::unpack_from_slice(&bytes).unwrap();
    assert_eq!(reply.read_address, 0x0302_0100);
    assert_eq!(reply.payload.len(), 196);
    assert_eq!(reply.pack(), bytes);
}

#[test]
fn dataflash_reply_knows_whether_its_end_fits() {
    let inside = MspDataFlashReply { read_address: u32::MAX - 3, payload: vec![0; 3] };
    let outside = MspDataFlashReply { read_address: u32::MAX - 3, payload: vec![0; 4] };
    let empty = MspDataFlashReply { read_address: u32::MAX, payload: vec![] };
    assert!(inside.ends_in_range());
    assert!(!outside.ends_in_range());
    assert!(empty.ends_in_range());
}

#[test]
fn summary_packs_flags_into_the_low_bits() {
    let summary = |supported, ready| MspDataFlashSummaryReply {
        supported,
        ready,
        sectors: 0,
        total_size_bytes: 0,
        used_size_bytes: 0,
    };
    assert_eq!(summary(false, false).pack()[0], 0);
    assert_eq!(summary(false, true).pack()[0], 1);
    assert_eq!(summary(true, false).pack()[0], 2);
    assert_eq!(summary(true, true).pack()[0], 3);
}

#[test]
fn summary_is_thirteen_bytes() {
    let summary = MspDataFlashSummaryReply {
        supported: true,
        ready: true,
        sectors: 32,
        total_size_bytes: 0x0020_0000,
        used_size_bytes: 5000,
    };
    assert_eq!(
        summary.pack(),
        vec![3, 32, 0, 0, 0, 0x00, 0x00, 0x20, 0x00, 0x88, 0x13, 0x00, 0x00]
    );
    assert_eq!(MspDataFlashSummaryReply::unpack_from_slice(&summary.pack()), Ok(summary));
}

#[test]
fn summary_reads_only_the_two_flags_of_the_first_byte() {
    let mut bytes = [0u8; 13];
    bytes[0] = 0xfc;
    let summary = MspDataFlashSummaryReply::unpack_from_slice(&bytes).unwrap();
    assert!(!summary.supported);
    assert!(!summary.ready);
    bytes[0] = 0xfe;
    let summary = MspDataFlashSummaryReply::unpack_from_slice(&bytes).unwrap();
    assert!(summary.supported);
    assert!(!summary.ready);
    bytes[0] = 0x81;
    let summary = MspDataFlashSummaryReply::unpack_from_slice(&bytes).unwrap();
    assert!(!summary.supported);
    assert!(summary.ready);
}

#[test]
fn summary_wants_thirteen_bytes() {
    assert_eq!(
        MspDataFlashSummaryReply::unpack_from_slice(&[0; 12]),
        Err(WireError::LengthMismatch)
    );
    assert_eq!(
        MspDataFlashSummaryReply::unpack_from_slice(&[0; 14]),
        Err(WireError::LengthMismatch)
    );
}

#[test]
fn mode_range_is_four_bytes_in_field_order() {
    let slot = MspModeRange { box_id: 1, aux_channel_index: 2, start_step: 3, end_step: 4 };
    assert_eq!(slot.pack(), vec![1, 2, 3, 4]);
    assert_eq!(MspModeRange::unpack_from_slice(&[1, 2, 3, 4]), Ok(slot));
    assert_eq!(MspModeRange::unpack_from_slice(&[1, 2, 3]), Err(WireError::LengthMismatch));
}

#[test]
fn set_mode_range_is_index_then_slot() {
    let request = MspSetModeRange {
        index: 7,
        mode_range: MspModeRange { box_id: 1, aux_channel_index: 2, start_step: 3, end_step: 4 },
    };
    assert_eq!(request.pack(), vec![7, 1, 2, 3, 4]);
    assert_eq!(MspSetModeRange::unpack_from_slice(&[7, 1, 2, 3, 4]), Ok(request));
    assert_eq!(MspSetModeRange::unpack_from_slice(&[7, 1, 2, 3]), Err(WireError::LengthMismatch));
}

#[test]
fn mode_ranges_table_is_twenty_slots_of_four_bytes() {
    let mut slots = [unused(); 20];
    slots[0] = MspModeRange { box_id: 10, aux_channel_index: 11, start_step: 12, end_step: 13 };
    slots[19] = MspModeRange { box_id: 20, aux_channel_index: 21, start_step: 22, end_step: 23 };
    let bytes = MspModeRangesReplay { mode_ranges: slots }.pack();
    assert_eq!(bytes.len(), 80);
    assert_eq!(&bytes[0..4], &[10, 11, 12, 13]);
    assert_eq!(&bytes[4..76], &[0u8; 72][..]);
    assert_eq!(&bytes[76..80], &[20, 21, 22, 23]);
}

#[test]
fn mode_ranges_table_round_trips() {
    let bytes: Vec<u8> = (100u8..180).collect();
    let table = MspModeRangesReplay::unpack_from_slice(&bytes).unwrap();
    assert_eq!(
        table.mode_ranges[5],
        MspModeRange { box_id: 120, aux_channel_index: 121, start_step: 122, end_step: 123 }
    );
    assert_eq!(table.pack(), bytes);
}

#[test]
fn mode_ranges_table_wants_eighty_bytes() {
    assert_eq!(MspModeRangesReplay::unpack_from_slice(&[0; 79]), Err(WireError::LengthMismatch));
    assert_eq!(MspModeRangesReplay::unpack_from_slice(&[0; 81]), Err(WireError::LengthMismatch));
    assert_eq!(MspModeRangesReplay::unpack_from_slice(&[]), Err(WireError::LengthMismatch));
}

#[test]
fn summary_bytes_round_trip_when_only_the_flags_are_set() {
    for flags in 0u8..4 {
        let bytes = vec![flags, 1, 2, 3, 4, 5, 6, 7, 8, 9, 10, 11, 12];
        let summary = MspDataFlashSummaryReply::unpack_from_slice(&bytes).unwrap();
        assert_eq!(summary.sectors, 0x0403_0201);
        assert_eq!(summary.total_size_bytes, 0x0807_0605);
        assert_eq!(summary.used_size_bytes, 0x0c0b_0a09);
        assert_eq!(summary.pack(), bytes);
    }
}

#[test]
fn summary_bytes_lose_the_bits_that_are_no_flags() {
    let mut bytes = vec![0x80, 1, 2, 3, 4, 5, 6, 7, 8, 9, 10, 11, 12];
    let packed = MspDataFlashSummaryReply::unpack_from_slice(&bytes).unwrap().pack();
    bytes[0] = 0;
    assert_eq!(packed, bytes);
}

#[test]
fn set_mode_range_bytes_round_trip() {
    let bytes = vec![19, 255, 0, 36, 77];
    assert_eq!(MspSetModeRange::unpack_from_slice(&bytes).unwrap().pack(), bytes);
}

#[test]
fn dataflash_read_bytes_round_trip() {
    let bytes = vec![0xde, 0xad, 0xbe, 0xef, 0x12, 0x34];
    let request = MspDataFlashRead::unpack_from_slice(&bytes).unwrap();
    assert_eq!(request, MspDataFlashRead { read_address: 0xefbe_adde, read_length: 0x3412 });
    assert_eq!(request.pack(), bytes);
}

#[test]
fn summary_layout_is_the_one_of_the_protocol_crate() {
    for (supported, ready) in [(false, false), (false, true), (true, false), (true, true)] {
        let theirs = multiwii_serial_protocol::structs::MspDataFlashSummaryReply {
            supported,
            ready,
            sectors: 0x0102_0304,
            total_size_bytes: 0x1020_3040,
            used_size_bytes: 5000,
        };
        let ours = MspDataFlashSummaryReply {
            supported,
            ready,
            sectors: 0x0102_0304,
            total_size_bytes: 0x1020_3040,
            used_size_bytes: 5000,
        };
        assert_eq!(ours.pack(), theirs.pack().to_vec());
    }
    for flags in 0u8..=255 {
        let bytes = [flags, 1, 2, 3, 4, 5, 6, 7, 8, 9, 10, 11, 12];
        let theirs = multiwii_serial_protocol::structs::MspDataFlashSummaryReply::unpack(&bytes).unwrap();
        let ours = MspDataFlashSummaryReply::unpack_from_slice(&bytes).unwrap();
        assert_eq!(
            (ours.supported, ours.ready, ours.sectors, ours.total_size_bytes, ours.used_size_bytes),
            (
                theirs.supported,
                theirs.ready,
                theirs.sectors,
                theirs.total_size_bytes,
                theirs.used_size_bytes
            )
        );
    }
}
