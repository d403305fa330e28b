use psvr::client::{
    close_frame, encode, message, power_off_frame, power_on_frame, set_power_frame,
    vr_mode_frame, vr_tracking_frame,
};
use psvr::command::{
    BoxOff, Command as WireCommand, EnableVrTracking, ReadDeviceInfo, SetCinematicConfiguration,
    SetHmdLeds, SetPower, SetVrMode, MAX_PAYLOAD_SIZE,
};
use psvr::protocol::{Command, CommandHeader, COMMAND_FRAME_SIZE, COMMAND_HEADER_SIZE};
use std::mem::size_of;

fn padded(head: &[u8]) -> Vec<u8> {
    let mut frame = head.to_vec();
    frame.resize(64, 0);
    frame
}

#[test]
fn command_header_size_matches_constant() {
    assert_eq!(size_of::<CommandHeader>(), COMMAND_HEADER_SIZE);
}

#[test]
fn command_raw_bytes_is_correct() {
    let command = Command {
        header: CommandHeader {
            id: 0x69,
            status: 123,
            magic: 88,
            length: 5,
        },
        payload: vec![5, 4, 3, 2, 1],
    };
    assert_eq!(&[0x69, 123, 88, 5, 5, 4, 3, 2, 1], &command.raw_bytes()[..]);
}

#[test]
fn set_cinematic_configuration() {
    let c = SetCinematicConfiguration {
        mask: 0,
        screen_size: 0,
        screen_distance: 0,
        ipd: 0,
        reserved0: [0; 6],
        brightness: 77,
        mic_volume: 95,
        reserved1: [9, 9],
        unknown: true,
        reserved2: 127,
    };

    assert_eq!(16, c.payload_bytes().len());
}

#[test]
fn set_hmd_leds() {
    let c = SetHmdLeds {
        led_mask: 0xdead,
        values: [4; 9],
        reserved: [5; 5],
    };

    assert_eq!(16, c.payload_bytes().len());
}

#[test]
fn header_raw_bytes_are_in_field_order() {
    let header = CommandHeader { id: 1, status: 2, magic: 3, length: 4 };
    assert_eq!(vec![1, 2, 3, 4], header.raw_bytes());
}

#[test]
fn set_power_on_encoding() {
    let frame = encode(&SetPower { on: true });
    assert_eq!(COMMAND_FRAME_SIZE, frame.len());
    assert_eq!(padded(&[0x17, 0x00, 0xAA, 0x04, 0x01, 0x00, 0x00, 0x00]), frame.to_vec());
    assert!(frame[8..].iter().all(|b| *b == 0));
}

#[test]
fn set_power_off_encoding() {
    let frame = encode(&SetPower { on: false });
    assert_eq!(&[0x17, 0x00, 0xAA, 0x04, 0x00, 0x00, 0x00, 0x00], &frame[..8]);
    assert_eq!(padded(&[0x17, 0x00, 0xAA, 0x04]), frame.to_vec());
}

#[test]
fn enable_vr_tracking_encoding() {
    let frame = encode(&EnableVrTracking);
    assert_eq!(
        &[0x11, 0x00, 0xAA, 0x08, 0x00, 0xFF, 0xFF, 0xFF, 0x00, 0x00, 0x00, 0x00],
        &frame[..12]
    );
    assert_eq!(padded(&[0x11, 0x00, 0xAA, 0x08, 0x00, 0xFF, 0xFF, 0xFF]), frame.to_vec());
}

#[test]
fn set_vr_mode_encoding() {
    assert_eq!(
        padded(&[0x23, 0x00, 0xAA, 0x04, 0x01]),
        encode(&SetVrMode { vr_mode: true }).to_vec()
    );
    assert_eq!(
        padded(&[0x23, 0x00, 0xAA, 0x04, 0x00]),
        encode(&SetVrMode { vr_mode: false }).to_vec()
    );
}

#[test]
fn box_off_encoding() {
    assert_eq!(padded(&[0x13, 0x00, 0xAA, 0x04, 0x01]), encode(&BoxOff).to_vec());
}

#[test]
fn read_device_info_encoding() {
    assert_eq!(vec![0x80, 0, 0, 0, 0, 0, 0, 0], ReadDeviceInfo.payload_bytes());
    assert_eq!(padded(&[0x81, 0x00, 0xAA, 0x08, 0x80]), encode(&ReadDeviceInfo).to_vec());
}

#[test]
fn set_cinematic_configuration_frame() {
    let c = SetCinematicConfiguration {
        mask: 1,
        screen_size: 2,
        screen_distance: 3,
        ipd: 4,
        reserved0: [5, 6, 7, 8, 9, 10],
        brightness: 11,
        mic_volume: 12,
        reserved1: [13, 14],
        unknown: true,
        reserved2: 15,
    };
    let m = message(&c);
    assert_eq!(16, m.header.length);
    assert_eq!(0x21, m.header.id);
    assert_eq!(0xAA, m.header.magic);
    assert_eq!(0, m.header.status);
    assert_eq!(vec![1, 2, 3, 4, 5, 6, 7, 8, 9, 10, 11, 12, 13, 14, 1, 15], m.payload);
    let frame = encode(&c);
    assert_eq!(64, frame.len());
    assert_eq!(
        padded(&[0x21, 0, 0xAA, 16, 1, 2, 3, 4, 5, 6, 7, 8, 9, 10, 11, 12, 13, 14, 1, 15]),
        frame.to_vec()
    );
    let unset = SetCinematicConfiguration { unknown: false, ..c };
    assert_eq!(0, unset.payload_bytes()[14]);
}

#[test]
fn set_hmd_leds_frame() {
    let c = SetHmdLeds {
        led_mask: 0xdead,
        values: [4; 9],
        reserved: [5; 5],
    };
    assert_eq!(
        vec![0xad, 0xde, 4, 4, 4, 4, 4, 4, 4, 4, 4, 5, 5, 5, 5, 5],
        c.payload_bytes()
    );
    assert_eq!(
        padded(&[0x15, 0, 0xAA, 16, 0xad, 0xde, 4, 4, 4, 4, 4, 4, 4, 4, 4, 5, 5, 5, 5, 5]),
        encode(&c).to_vec()
    );
}

#[test]
fn little_endian_words_are_written_low_byte_first() {
    let mut out = vec![9u8];
    psvr::codec::write_u32(&mut out, 0x0403_0201);
    psvr::codec::write_u16(&mut out, 0x0605);
    psvr::codec::write_u8(&mut out, 7);
    psvr::codec::write_all(&mut out, &[8, 9]);
    assert_eq!(vec![9, 1, 2, 3, 4, 5, 6, 7, 8, 9], out);
}

#[test]
fn every_catalogue_command_has_its_identifier() {
    assert_eq!(0x17, <SetPower as WireCommand>::ID);
    assert_eq!(0x11, <EnableVrTracking as WireCommand>::ID);
    assert_eq!(0x23, <SetVrMode as WireCommand>::ID);
    assert_eq!(0x13, <BoxOff as WireCommand>::ID);
    assert_eq!(0x21, <SetCinematicConfiguration as WireCommand>::ID);
    assert_eq!(0x15, <SetHmdLeds as WireCommand>::ID);
    assert_eq!(0x81, <ReadDeviceInfo as WireCommand>::ID);
}

#[test]
fn set_power_new_keeps_the_flag() {
    assert_eq!(SetPower { on: true }, SetPower::new(true));
    assert_eq!(SetPower { on: false }, SetPower::new(false));
}

#[test]
fn frames_are_header_payload_and_zero_padding() {
    let command = Command::new(0x42, vec![1, 2, 3]).expect("payload fits");
    assert_eq!(3, command.header.length);
    assert_eq!(0xAA, command.header.magic);
    assert_eq!(0, command.header.status);
    assert_eq!(vec![0x42, 0, 0xAA, 3, 1, 2, 3], command.raw_bytes());
    assert_eq!(padded(&[0x42, 0, 0xAA, 3, 1, 2, 3]), command.frame().to_vec());
}

#[test]
fn largest_payload_fills_the_frame() {
    let payload: Vec<u8> = (1..=60).collect();
    let command = Command::new(7, payload.clone()).expect("payload fits");
    assert_eq!(MAX_PAYLOAD_SIZE, command.header.length as usize);
    let frame = command.frame();
    assert_eq!(&[7, 0, 0xAA, 60], &frame[..4]);
    assert_eq!(&payload[..], &frame[4..]);
}

#[test]
fn oversized_payload_makes_no_command() {
    assert!(Command::new(7, vec![0; 61]).is_none());
    assert!(Command::new(7, vec![0; 60]).is_some());
    assert!(Command::new(7, Vec::new()).is_some());
}

#[test]
fn session_requests_map_to_their_commands() {
    assert_eq!(encode(&SetPower { on: true }), power_on_frame());
    assert_eq!(encode(&SetPower { on: false }), power_off_frame());
    assert_eq!(encode(&SetPower { on: true }), set_power_frame(true));
    assert_eq!(encode(&SetPower { on: false }), set_power_frame(false));
    assert_eq!(encode(&SetVrMode { vr_mode: true }), vr_mode_frame());
    assert_eq!(encode(&EnableVrTracking), vr_tracking_frame());
    assert_eq!(encode(&SetPower { on: false }), close_frame());
    assert_eq!(0x01, power_on_frame()[4]);
    assert_eq!(0x23, vr_mode_frame()[0]);
}
