use inav_msp::frame::{
    Decoded, Direction, Frame, MSP_DATAFLASH_READ, MSP_DATAFLASH_SUMMARY, MSP_MODE_RANGES,
    MSP_SET_MODE_RANGE,
};
use inav_msp::msp::INavMsp;
use inav_msp::router::{route, DropReason, Routed};
use inav_msp::wire::{
    MspDataFlashReply, MspDataFlashSummaryReply, MspModeRange, MspModeRangesReplay, WireError,
};

fn from_device(command_code: u8, payload: Vec<u8>) -> Frame {
    Frame { command_code, direction: Direction::FromDevice, payload }
}

#[test]
fn routes_the_table_of_mode_ranges() {
    let mut payload = vec![0u8; 80];
    payload[12..16].copy_from_slice(&[4, 1, 10, 20]);
    let mut slots =
        [MspModeRange { box_id: 0, aux_channel_index: 0, start_step: 0, end_step: 0 }; 20];
    slots[3] = MspModeRange { box_id: 4, aux_channel_index: 1, start_step: 10, end_step: 20 };
    assert_eq!(
        route(&from_device(MSP_MODE_RANGES, payload)),
        Routed::ModeRanges(MspModeRangesReplay { mode_ranges: slots })
    );
}

#[test]
fn routes_the_acknowledgment_whatever_it_holds() {
    assert_eq!(route(&from_device(MSP_SET_MODE_RANGE, vec![])), Routed::SetModeRangeAck);
    assert_eq!(route(&from_device(MSP_SET_MODE_RANGE, vec![1, 2, 3])), Routed::SetModeRangeAck);
}

#[test]
fn routes_the_summary() {
    let payload = vec![3, 4, 0, 0, 0, 0, 0, 1, 0, 0x88, 0x13, 0, 0];
    assert_eq!(
        route(&from_device(MSP_DATAFLASH_SUMMARY, payload)),
        Routed::Summary(MspDataFlashSummaryReply {
            supported: true,
            ready: true,
            sectors: 4,
            total_size_bytes: 0x0001_0000,
            used_size_bytes: 5000,
        })
    );
}

#[test]
fn routes_a_window_of_the_dataflash() {
    assert_eq!(
        route(&from_device(MSP_DATAFLASH_READ, vec![0x00, 0x10, 0x00, 0x00, 7, 8, 9])),
        Routed::Chunk(MspDataFlashReply { read_address: 4096, payload: vec![7, 8, 9] })
    );
    assert_eq!(
        route(&from_device(MSP_DATAFLASH_READ, vec![0x88, 0x13, 0x00, 0x00])),
        Routed::Chunk(MspDataFlashReply { read_address: 5000, payload: vec![] })
    );
}

#[test]
fn drops_what_does_not_come_from_the_device() {
    for command_code in [MSP_MODE_RANGES, MSP_SET_MODE_RANGE, MSP_DATAFLASH_SUMMARY, 200] {
        for direction in [Direction::ToDevice, Direction::Unsupported] {
            let frame = Frame { command_code, direction, payload: vec![0; 13] };
            assert_eq!(route(&frame), Routed::Dropped(DropReason::NotFromDevice));
        }
    }
}

#[test]
fn drops_commands_it_does_not_know() {
    for command_code in [0u8, 1, 33, 36, 69, 72, 255] {
        assert_eq!(
            route(&from_device(command_code, vec![1, 2, 3, 4])),
            Routed::Dropped(DropReason::UnknownCommand)
        );
    }
}

#[test]
fn reports_payloads_it_cannot_read() {
    assert_eq!(
        route(&from_device(MSP_MODE_RANGES, vec![0; 79])),
        Routed::Malformed(WireError::LengthMismatch)
    );
    assert_eq!(
        route(&from_device(MSP_DATAFLASH_SUMMARY, vec![])),
        Routed::Malformed(WireError::LengthMismatch)
    );
    assert_eq!(
        route(&from_device(MSP_DATAFLASH_SUMMARY, vec![0; 14])),
        Routed::Malformed(WireError::LengthMismatch)
    );
    assert_eq!(
        route(&from_device(MSP_DATAFLASH_READ, vec![1, 2, 3])),
        Routed::Malformed(WireError::TooShort)
    );
}

#[test]
fn routes_what_the_decoder_hands_over() {
    let mut msp = INavMsp::new();
    let events = msp.feed(&[b'$', b'M', b'>', 6, 71, 0x00, 0x10, 0x00, 0x00, 5, 6, 6 ^ 71 ^ 0x10 ^ 5 ^ 6]);
    assert_eq!(events.len(), 1);
    match &events[0] {
        Decoded::Frame(frame) => assert_eq!(
            route(frame),
            Routed::Chunk(MspDataFlashReply { read_address: 4096, payload: vec![5, 6] })
        ),
        other => panic!("no frame: {:?}", other),
    }
}
