use psvr::client::{receive_sensor, SensorRead};
use psvr::inertia::Instant;
use psvr::math::Vector3;
use psvr::sensor::{
    read_reserved, Buttons, Cursor, InertiaInstant, Readable, Readout, Status, FRAME_SIZE,
};

fn sample_frame() -> [u8; 64] {
    let mut data = [0u8; 64];
    data[0] = 0b0000_1010;
    data[1] = 0xEE;
    data[2] = 37;
    data[8] = 0b0100_0110;
    // instant 0: gyro (1, -2, 300), accel (-32768, 32767, 2047)
    data[20..32].copy_from_slice(&[
        0x01, 0x00, 0xFE, 0xFF, 0x2C, 0x01, 0x00, 0x80, 0xFF, 0x7F, 0xFF, 0x07,
    ]);
    data[32..36].copy_from_slice(&[0xAA, 0xBB, 0xCC, 0xDD]);
    // instant 1: gyro (-1, 256, -256), accel (16, -16, 0)
    data[36..48].copy_from_slice(&[
        0xFF, 0xFF, 0x00, 0x01, 0x00, 0xFF, 0x10, 0x00, 0xF0, 0xFF, 0x00, 0x00,
    ]);
    data[52] = 0x55;
    data
}

fn sample_readout() -> Readout {
    Readout {
        buttons: Buttons { plus: true, minus: false, mute: true },
        volume: 37,
        status: Status {
            worn: false,
            display_active: true,
            hdmi_disconnected: true,
            microphone_muted: false,
            headphone_connected: false,
            tick: true,
        },
        instants: [
            InertiaInstant {
                gyroscope_raw: Vector3::new(1, -2, 300),
                accelerometer_raw: Vector3::new(-32768, 32767, 2047),
            },
            InertiaInstant {
                gyroscope_raw: Vector3::new(-1, 256, -256),
                accelerometer_raw: Vector3::new(16, -16, 0),
            },
        ],
    }
}

#[test]
fn reads_exactly_64_bytes() {
    let data: [u8; 64] = [0; 64];
    let mut read = Cursor::new(&data[..]);

    assert_eq!(0, read.position());
    Readout::read(&mut read).expect("failed to parse sensor readout");
    assert_eq!(FRAME_SIZE, read.position() as usize);
}

#[test]
fn sensor_reads_exactly_64_bytes() {
    let data: [u8; 64] = [0; 64];
    let mut read = Cursor::new(&data[..]);

    assert_eq!(0, read.position());
    Readout::read(&mut read).expect("failed to read frame");
    assert_eq!(FRAME_SIZE, read.position() as usize);
}

#[test]
fn reads_64_bytes_of_a_longer_input() {
    let data = [0u8; 100];
    let mut read = Cursor::new(&data[..]);
    read_reserved(&mut read, 10).expect("ten bytes are there");
    Readout::read(&mut read).expect("a frame is there");
    assert_eq!(74, read.position());
    assert_eq!(26, read.remaining());
}

#[test]
fn all_zero_frame_decodes_to_nothing_set() {
    let data = [0u8; 64];
    let readout = Readout::read_bytes(&data).expect("a full frame decodes");
    assert_eq!(Buttons { plus: false, minus: false, mute: false }, readout.buttons);
    assert_eq!(0, readout.volume);
    assert_eq!(
        Status {
            worn: false,
            display_active: false,
            hdmi_disconnected: false,
            microphone_muted: false,
            headphone_connected: false,
            tick: false,
        },
        readout.status
    );
    for instant in readout.instants.iter() {
        assert_eq!(Vector3::new(0, 0, 0), instant.gyroscope_raw);
        assert_eq!(Vector3::new(0, 0, 0), instant.accelerometer_raw);
    }
}

#[test]
fn button_and_status_bits_decode() {
    let mut data = [0u8; 64];
    data[0] = 0b0000_0110;
    data[8] = 0b0001_0001;
    let readout = Readout::read_bytes(&data).expect("a full frame decodes");
    assert!(readout.buttons.plus);
    assert!(readout.buttons.minus);
    assert!(!readout.buttons.mute);
    assert!(readout.status.worn);
    assert!(readout.status.headphone_connected);
    assert!(!readout.status.display_active);
    assert!(!readout.status.hdmi_disconnected);
    assert!(!readout.status.microphone_muted);
    assert!(!readout.status.tick);
}

#[test]
fn reserved_bits_are_ignored() {
    assert_eq!(Buttons { plus: false, minus: false, mute: false }, Buttons::from_byte(0b1111_0001));
    assert_eq!(Buttons { plus: true, minus: true, mute: true }, Buttons::from_byte(0b0000_1110));
    assert_eq!(
        Status {
            worn: false,
            display_active: false,
            hdmi_disconnected: false,
            microphone_muted: false,
            headphone_connected: false,
            tick: false,
        },
        Status::from_byte(0b1010_0000)
    );
    assert_eq!(
        Status {
            worn: true,
            display_active: true,
            hdmi_disconnected: true,
            microphone_muted: true,
            headphone_connected: true,
            tick: true,
        },
        Status::from_byte(0b0101_1111)
    );
}

#[test]
fn known_layout_decodes_to_its_fields() {
    let readout = Readout::read_bytes(&sample_frame()).expect("a full frame decodes");
    assert_eq!(sample_readout(), readout);
}

#[test]
fn primitives_are_little_endian() {
    let data = [0x34u8, 0x12, 0xFE, 0xFF, 0x78, 0x56, 0x34, 0x12, 0xFF, 0xFF, 0xFF, 0xFF, 0x80, 0x7F, 0x01, 0x80];
    let mut read = Cursor::new(&data[..]);
    assert_eq!(0x1234u16, u16::read(&mut read).expect("u16"));
    assert_eq!(-2i16, i16::read(&mut read).expect("i16"));
    assert_eq!(0x1234_5678u32, u32::read(&mut read).expect("u32"));
    assert_eq!(-1i32, i32::read(&mut read).expect("i32"));
    assert_eq!(-128i8, i8::read(&mut read).expect("i8"));
    assert_eq!(127i8, i8::read(&mut read).expect("i8"));
    assert_eq!(14, read.position());
    assert_eq!(-32767i16, i16::read(&mut read).expect("i16"));
    assert_eq!(0, read.remaining());
}

#[test]
fn vector_reads_three_values_in_order() {
    let data = [1u8, 0, 2, 0, 3, 0, 9];
    let mut read = Cursor::new(&data[..]);
    assert_eq!(Vector3::new(1i16, 2, 3), Vector3::<i16>::read(&mut read).expect("vector"));
    assert_eq!(6, read.position());
    assert_eq!(9, u8::read(&mut read).expect("u8"));
}

#[test]
fn short_input_is_an_error_and_exhausts_the_cursor() {
    let data = [0u8; 63];
    let mut read = Cursor::new(&data[..]);
    let error = Readout::read(&mut read).expect_err("a frame needs 64 bytes");
    assert_eq!("failed to fill whole buffer", error.message());
    assert_eq!("communication error: failed to fill whole buffer", error.to_string());
    assert_eq!(63, read.position());

    let mut empty = Cursor::new(&[]);
    assert!(u8::read(&mut empty).is_err());
    let one = [1u8];
    let mut short = Cursor::new(&one[..]);
    assert!(i16::read(&mut short).is_err());
    assert_eq!(1, short.position());
    let mut reserved = Cursor::new(&data[..]);
    assert!(read_reserved(&mut reserved, 64).is_err());
    assert_eq!(63, reserved.position());
}

#[test]
fn take_hands_out_the_next_bytes() {
    let data = [1u8, 2, 3, 4, 5];
    let mut read = Cursor::new(&data[..]);
    assert_eq!(&[1u8, 2][..], read.take(2).expect("two bytes"));
    assert_eq!(&[3u8, 4, 5][..], read.take(3).expect("three bytes"));
    assert_eq!(&[0u8; 0][..], read.take(0).expect("no bytes"));
    assert!(read.take(1).is_err());
}

#[test]
fn gyroscope_is_the_raw_count_with_z_negated() {
    let instant = InertiaInstant {
        gyroscope_raw: Vector3::new(100, -200, 300),
        accelerometer_raw: Vector3::new(0, 0, 0),
    };
    assert_eq!(Vector3::new(100, -200, -300), instant.gyroscope());
    let mirrored = InertiaInstant {
        gyroscope_raw: Vector3::new(-100, 200, -300),
        accelerometer_raw: Vector3::new(0, 0, 0),
    };
    assert_eq!(Vector3::new(-100, 200, 300), mirrored.gyroscope());
    let extremes = InertiaInstant {
        gyroscope_raw: Vector3::new(32767, -32768, -32768),
        accelerometer_raw: Vector3::new(0, 0, 0),
    };
    assert_eq!(Vector3::new(32767, -32768, 32768), extremes.gyroscope());
}

#[test]
fn accelerometer_shifts_within_sixteen_bits_and_flips_the_sign() {
    let at = |x: i16, y: i16, z: i16| {
        InertiaInstant {
            gyroscope_raw: Vector3::new(0, 0, 0),
            accelerometer_raw: Vector3::new(x, y, z),
        }
        .accelerometer()
    };
    assert_eq!(Vector3::new(0, 0, 0), at(0, 0, 0));
    assert_eq!(Vector3::new(-16, 16, 16), at(1, -1, 1));
    assert_eq!(Vector3::new(-32752, 32768, 32752), at(2047, -2048, 2047));
    // Counts beyond twelve bits lose their upper bits to the shift.
    assert_eq!(Vector3::new(16, 0, 0), at(32767, -32768, -32768));
    assert_eq!(Vector3::new(32768, 0, -16), at(2048, 4096, 32767));
    for c in [-32768i16, -4097, -2049, -1, 0, 1, 1234, 2047, 2048, 30000, 32767] {
        let expected = -((c << 4) as i32);
        assert_eq!(expected, at(c, 0, 0).x);
        assert_eq!(expected, at(0, c, 0).y);
        assert_eq!(-((c.wrapping_neg() << 4) as i32), at(0, 0, c).z);
    }
}

#[test]
fn fusion_takes_the_first_instant() {
    let readout = sample_readout();
    let input = Instant::fusion_input(&readout);
    assert_eq!(Vector3::new(1, -2, -300), input.gyroscope);
    assert_eq!(Vector3::new(0, 16, 32752), input.accelerometer);
    assert_eq!(Instant::from_raw(&readout.instants[0]), input);
    assert_ne!(Instant::from_raw(&readout.instants[1]), input);
}

#[test]
fn one_byte_or_less_is_a_retry() {
    let buf = sample_frame();
    assert!(matches!(receive_sensor(&buf, 0), SensorRead::Retry));
    assert!(matches!(receive_sensor(&buf, 1), SensorRead::Retry));
}

#[test]
fn wrong_frame_size_is_an_error() {
    let buf = sample_frame();
    for (count, text) in [(2usize, "2"), (63, "63"), (65, "65"), (1000, "1000")] {
        match receive_sensor(&buf, count) {
            SensorRead::Failed(error) => assert_eq!(
                format!("read psvr sensor frame of {} bytes but should be 64 bytes", text),
                error.message()
            ),
            other => panic!("unexpected outcome {:?}", other),
        }
    }
}

#[test]
fn full_frame_is_decoded_and_feeds_fusion() {
    let buf = sample_frame();
    match receive_sensor(&buf, 64) {
        SensorRead::Frame { readout, fusion_input } => {
            assert_eq!(sample_readout(), readout);
            assert_eq!(Instant::from_raw(&sample_readout().instants[0]), fusion_input);
        }
        other => panic!("unexpected outcome {:?}", other),
    }
}
