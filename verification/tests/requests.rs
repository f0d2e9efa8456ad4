use inav_msp::flash::FlashDataFile;
use inav_msp::frame::{
    Decoded, Direction, Frame, MSP_DATAFLASH_SUMMARY, MSP_MODE_RANGES, MSP_SET_MODE_RANGE,
};
use inav_msp::msp::{INavMsp, Timeout, REPLY_TIMEOUT_MS};
use inav_msp::wire::{
    ModeRange, MspDataFlashSummaryReply, MspModeRange, MspModeRangesReplay, MspSetModeRange,
};

fn table(used: &[(usize, MspModeRange)]) -> MspModeRangesReplay {
    let mut slots =
        [MspModeRange { box_id: 0, aux_channel_index: 0, start_step: 0, end_step: 0 }; 20];
    for (index, slot) in used {
        slots[*index] = *slot;
    }
    MspModeRangesReplay { mode_ranges: slots }
}

#[test]
fn answers_are_awaited_for_thirty_milliseconds() {
    assert_eq!(REPLY_TIMEOUT_MS, 30);
}

#[test]
fn summary_request_is_an_empty_frame_to_the_device() {
    let request = INavMsp::flash_summary_request();
    assert_eq!(
        request.frame,
        Frame { command_code: MSP_DATAFLASH_SUMMARY, direction: Direction::ToDevice, payload: vec![] }
    );
    assert_eq!(request.timeout_ms, 30);
    assert_eq!(INavMsp::process_output(&request.frame), vec![b'$', b'M', b'<', 0, 70, 70]);
}

#[test]
fn summary_without_answer_times_out() {
    assert_eq!(INavMsp::flash_summary(None), Err(Timeout));
}

#[test]
fn summary_with_answer_is_the_answer() {
    let summary = MspDataFlashSummaryReply {
        supported: true,
        ready: false,
        sectors: 16,
        total_size_bytes: 1 << 20,
        used_size_bytes: 5000,
    };
    assert_eq!(INavMsp::flash_summary(Some(summary)), Ok(summary));
}

#[test]
fn session_starts_at_zero_and_ends_at_the_used_size() {
    let summary = MspDataFlashSummaryReply {
        supported: true,
        ready: true,
        sectors: 16,
        total_size_bytes: 1 << 20,
        used_size_bytes: 5000,
    };
    assert_eq!(
        INavMsp::open_flash_data(&summary),
        FlashDataFile { used_size: 5000, next_address: 0, received_address: 0 }
    );
}

#[test]
fn set_mode_range_request_holds_index_and_slot() {
    let mode =
        ModeRange { index: 7, box_id: 1, aux_channel_index: 2, start_step: 30, end_step: 40 };
    let request = INavMsp::set_mode_range_request(&mode);
    assert_eq!(request.timeout_ms, 30);
    let frame = request.frame;
    assert_eq!(
        frame,
        Frame {
            command_code: MSP_SET_MODE_RANGE,
            direction: Direction::ToDevice,
            payload: vec![7, 1, 2, 30, 40]
        }
    );
    assert_eq!(
        MspSetModeRange::unpack_from_slice(&frame.payload),
        Ok(MspSetModeRange {
            index: 7,
            mode_range: MspModeRange {
                box_id: 1,
                aux_channel_index: 2,
                start_step: 30,
                end_step: 40
            }
        })
    );
}

#[test]
fn set_mode_range_request_survives_the_wire() {
    let mode =
        ModeRange { index: 19, box_id: 255, aux_channel_index: 3, start_step: 36, end_step: 77 };
    let frame = INavMsp::set_mode_range_request(&mode).frame;
    let mut msp = INavMsp::new();
    assert_eq!(msp.feed(&INavMsp::process_output(&frame)), vec![Decoded::Frame(frame)]);
}

#[test]
fn set_mode_range_without_acknowledgment_times_out() {
    assert_eq!(INavMsp::set_mode_range(None), Err(Timeout));
    assert_eq!(INavMsp::set_mode_range(Some(())), Ok(()));
}

#[test]
fn mode_ranges_request_is_an_empty_frame_to_the_device() {
    let request = INavMsp::mode_ranges_request();
    assert_eq!(
        request.frame,
        Frame { command_code: MSP_MODE_RANGES, direction: Direction::ToDevice, payload: vec![] }
    );
    assert_eq!(request.timeout_ms, 30);
}

#[test]
fn mode_ranges_without_answer_time_out() {
    assert_eq!(INavMsp::get_mode_ranges(None), Err(Timeout));
}

#[test]
fn mode_ranges_are_the_used_slots_with_their_indices() {
    let reply = table(&[
        (3, MspModeRange { box_id: 1, aux_channel_index: 0, start_step: 10, end_step: 20 }),
        (7, MspModeRange { box_id: 5, aux_channel_index: 2, start_step: 32, end_step: 48 }),
    ]);
    assert_eq!(
        INavMsp::get_mode_ranges(Some(reply)),
        Ok(vec![
            ModeRange { index: 3, box_id: 1, aux_channel_index: 0, start_step: 10, end_step: 20 },
            ModeRange { index: 7, box_id: 5, aux_channel_index: 2, start_step: 32, end_step: 48 },
        ])
    );
}

#[test]
fn a_slot_with_one_step_set_is_in_use() {
    let reply = table(&[
        (0, MspModeRange { box_id: 1, aux_channel_index: 1, start_step: 0, end_step: 9 }),
        (1, MspModeRange { box_id: 2, aux_channel_index: 2, start_step: 0, end_step: 0 }),
        (19, MspModeRange { box_id: 3, aux_channel_index: 3, start_step: 9, end_step: 0 }),
    ]);
    assert_eq!(
        INavMsp::get_mode_ranges(Some(reply)),
        Ok(vec![
            ModeRange { index: 0, box_id: 1, aux_channel_index: 1, start_step: 0, end_step: 9 },
            ModeRange { index: 19, box_id: 3, aux_channel_index: 3, start_step: 9, end_step: 0 },
        ])
    );
}

#[test]
fn an_empty_table_has_no_mode_ranges() {
    assert_eq!(INavMsp::get_mode_ranges(Some(table(&[]))), Ok(vec![]));
}

#[test]
fn a_full_table_has_twenty_mode_ranges_in_order() {
    let slot = MspModeRange { box_id: 9, aux_channel_index: 1, start_step: 1, end_step: 2 };
    let all: Vec<(usize, MspModeRange)> = (0..20).map(|index| (index, slot)).collect();
    let ranges = INavMsp::get_mode_ranges(Some(table(&all))).unwrap();
    assert_eq!(ranges.len(), 20);
    for (position, range) in ranges.iter().enumerate() {
        assert_eq!(range.index as usize, position);
        assert_eq!(range.box_id, 9);
    }
}
