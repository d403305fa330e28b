//! The sensor protocol.
//!
//! The sensor readout frame looks like this.
//!
//! ```text
//! struct {
//!  	uint8_t reserved:1;
//!  	uint8_t plus:1;
//!  	uint8_t minus:1;
//!  	uint8_t mute:1;
//! } button;
//! uint8_t reserved0;
//! uint8_t volume;
//! uint8_t reserved1[5];
//! union {
//! 	uint8_t as_byte;
//! 	struct {
//! 		uint8_t worn:1;
//! 		uint8_t display_active:1;
//! 		uint8_t hdmi_disconnected:1;
//! 		uint8_t microphone_muted:1;
//! 		uint8_t headphone_connected:1;
//! 		uint8_t reserved:2;
//! 		uint8_t tick:1;
//! 	};
//! } status;
//! uint8_t reserved2[11];
//! struct {
//! 	struct {
//! 		int16_t yaw;
//! 		int16_t pitch;
//! 		int16_t roll;
//! 	} gyro;
//! 	struct  {
//! 		int16_t x;
//! 		int16_t y;
//! 		int16_t z;
//! 	} accel;
//! 	uint8_t reserved[4];
//! } data[2];
//! uint8_t reserved3[12];
//! ```

use crate::codec::{
    decode_i16, decode_i32, decode_u16, decode_u32, i16_from_le, i32_from_le, u16_from_le,
    u32_from_le,
};
use crate::error::Error;
use crate::math::Vector3;
use vstd::prelude::*;
use vstd::slice::slice_subrange;

verus! {

/// The sensor frame size.
pub const FRAME_SIZE: usize = 64;

/// The message of the error for input that ends inside a value.
pub open spec fn end_of_input_message() -> Seq<char> {
    "failed to fill whole buffer"@
}

/// What is left of `bytes` behind its first `count` bytes.
pub open spec fn skip(bytes: Seq<u8>, count: nat) -> Seq<u8> {
    bytes.subrange(count as int, bytes.len() as int)
}

/// A reading position in a run of bytes.
pub struct Cursor<'a> {
    data: &'a [u8],
    position: usize,
}

impl<'a> Cursor<'a> {
    #[verifier::type_invariant]
    spec fn in_bounds(self) -> bool {
        self.position <= self.data@.len()
    }

    /// All the bytes the cursor walks over.
    pub closed spec fn buffer(self) -> Seq<u8> {
        self.data@
    }

    /// How many bytes have been consumed.
    pub closed spec fn offset(self) -> nat {
        self.position as nat
    }

    /// The bytes that have not been consumed yet.
    pub open spec fn rest(self) -> Seq<u8> {
        skip(self.buffer(), self.offset())
    }

    /// A cursor at the start of `data`.
    pub fn new(data: &'a [u8]) -> (cursor: Cursor<'a>)
        ensures
            cursor.buffer() == data@,
            cursor.offset() == 0,
    {
        Cursor { data, position: 0 }
    }

    /// How many bytes have been consumed.
    pub fn position(&self) -> (position: usize)
        ensures
            position == self.offset(),
            position <= self.buffer().len(),
    {
        proof {
            use_type_invariant(self);
        }
        self.position
    }

    /// How many bytes are left to read.
    pub fn remaining(&self) -> (count: usize)
        ensures
            count == self.rest().len(),
            count == self.buffer().len() - self.offset(),
    {
        proof {
            use_type_invariant(self);
        }
        self.data.len() - self.position
    }

    /// Consumes `count` bytes and hands them out. Where fewer are left, the
    /// cursor is exhausted and the read fails.
    pub fn take(&mut self, count: usize) -> (result: Result<&'a [u8], Error>)
        ensures
            final(self).buffer() == old(self).buffer(),
            old(self).offset() <= old(self).buffer().len(),
            final(self).offset() <= final(self).buffer().len(),
            match result {
                Ok(bytes) => {
                    &&& count <= old(self).rest().len()
                    &&& bytes@ == old(self).rest().subrange(0, count as int)
                    &&& final(self).offset() == old(self).offset() + count
                },
                Err(error) => {
                    &&& count > old(self).rest().len()
                    &&& error.message_text() == end_of_input_message()
                    &&& final(self).offset() == old(self).buffer().len()
                },
            },
    {
        proof {
            use_type_invariant(&*self);
        }
        if count <= self.data.len() - self.position {
            let start = self.position;
            let bytes = slice_subrange(self.data, start, start + count);
            self.position = start + count;
            Ok(bytes)
        } else {
            self.position = self.data.len();
            Err(Error::communication_error("failed to fill whole buffer"))
        }
    }
}

/// What a read of a value of `size` bytes does to a cursor: with enough
/// bytes left it consumes exactly `size` of them and yields `value`; with
/// fewer it fails and leaves the cursor exhausted.
pub open spec fn read_outcome<T>(
    before: Cursor,
    after: Cursor,
    size: nat,
    value: T,
    result: Result<T, Error>,
) -> bool {
    &&& after.buffer() == before.buffer()
    &&& before.offset() <= before.buffer().len()
    &&& after.offset() <= after.buffer().len()
    &&& if size <= before.rest().len() {
        &&& result == Ok::<T, Error>(value)
        &&& after.offset() == before.offset() + size
    } else {
        &&& result is Err
        &&& result->Err_0.message_text() == end_of_input_message()
        &&& after.offset() == before.buffer().len()
    }
}

/// Something that can be read from raw bytes.
pub trait Readable: Sized {
    /// How many bytes a value occupies.
    spec fn size() -> nat;

    /// The value that the first `size()` bytes of `bytes` hold.
    spec fn parse(bytes: Seq<u8>) -> Self;

    /// Reads a new value from a cursor.
    fn read(read: &mut Cursor) -> (result: Result<Self, Error>)
        ensures
            read_outcome(*old(read), *final(read), Self::size(), Self::parse(old(read).rest()), result),
    ;

    /// Reads a new value from raw bytes.
    fn read_bytes(raw: &[u8; 64]) -> (result: Result<Self, Error>)
        ensures
            Self::size() <= FRAME_SIZE ==> result == Ok::<Self, Error>(Self::parse(raw@)),
            Self::size() > FRAME_SIZE ==> result is Err && result->Err_0.message_text()
                == end_of_input_message(),
    {
        let mut cursor = Cursor::new(raw.as_slice());
        assert(cursor.rest() =~= raw@);
        Self::read(&mut cursor)
    }
}

/// Where a read moved a cursor forward by `count` bytes, what is left behind
/// it is what was left before, without its first `count` bytes.
pub proof fn lemma_rest_after(before: Cursor, after: Cursor, count: nat)
    requires
        after.buffer() == before.buffer(),
        after.offset() == before.offset() + count,
        after.offset() <= after.buffer().len(),
    ensures
        after.rest() == skip(before.rest(), count),
        after.rest().len() == before.rest().len() - count,
{
}

/// Whether the binary digit of the given weight is set in `byte`.
pub open spec fn bit_set(byte: u8, weight: int) -> bool {
    (byte as int / weight) % 2 == 1
}

/// The status of the PSVR headset sensors.
#[derive(Copy, Clone, Debug, PartialEq, Eq)]
pub struct Readout {
    /// The status of the buttons.
    pub buttons: Buttons,
    /// The audio volume.
    pub volume: u8,
    /// The status of the headset.
    pub status: Status,
    /// The inertia at different instants of time.
    pub instants: [InertiaInstant; 2],
}

/// The status of the PSVR headset buttons.
#[derive(Copy, Clone, Debug, PartialEq, Eq, Structural)]
pub struct Buttons {
    /// True if the plus button is pressed.
    ///
    /// This button is usually the volume up button.
    pub plus: bool,
    /// True if the minus button is pressed.
    ///
    /// This button is usually the volume down button.
    pub minus: bool,
    /// True if the mute button is pressed.
    pub mute: bool,
}

/// The headset status.
#[derive(Copy, Clone, Debug, PartialEq, Eq, Structural)]
pub struct Status {
    /// True if the headset is currently being worn.
    pub worn: bool,
    pub display_active: bool,
    /// Is the HDMI disconnected.
    pub hdmi_disconnected: bool,
    /// Is the microphone muted.
    pub microphone_muted: bool,
    /// Is there headphones plugged into the headset
    pub headphone_connected: bool,
    pub tick: bool,
}

/// Inertia sensor values at an instant in time.
#[derive(Copy, Clone, Debug, PartialEq, Eq, Structural)]
pub struct InertiaInstant {
    /// The gyroscope readout.
    pub gyroscope_raw: Vector3<i16>,
    /// The accelerometer readout.
    pub accelerometer_raw: Vector3<i16>,
}

impl Buttons {
    /// The buttons that a button byte reports.
    pub open spec fn of_byte(byte: u8) -> Buttons {
        Buttons { plus: bit_set(byte, 2), minus: bit_set(byte, 4), mute: bit_set(byte, 8) }
    }

    /// Unpacks a button byte.
    pub fn from_byte(b: u8) -> (buttons: Buttons)
        ensures
            buttons == Buttons::of_byte(b),
    {
        assert(((b & 0b0010) != 0) == ((b / 2) % 2 == 1)) by (bit_vector);
        assert(((b & 0b0100) != 0) == ((b / 4) % 2 == 1)) by (bit_vector);
        assert(((b & 0b1000) != 0) == ((b / 8) % 2 == 1)) by (bit_vector);
        Buttons {
            // reserved:  (b & 0b0001) != 0,
            plus: (b & 0b0010) != 0,
            minus: (b & 0b0100) != 0,
            mute: (b & 0b1000) != 0,
        }
    }
}

impl Status {
    /// The status that a status byte reports.
    pub open spec fn of_byte(byte: u8) -> Status {
        Status {
            worn: bit_set(byte, 1),
            display_active: bit_set(byte, 2),
            hdmi_disconnected: bit_set(byte, 4),
            microphone_muted: bit_set(byte, 8),
            headphone_connected: bit_set(byte, 16),
            tick: bit_set(byte, 64),
        }
    }

    /// Unpacks a status byte.
    pub fn from_byte(b: u8) -> (status: Status)
        ensures
            status == Status::of_byte(b),
    {
        assert(((b & 1) != 0) == ((b / 1) % 2 == 1)) by (bit_vector);
        assert(((b & 2) != 0) == ((b / 2) % 2 == 1)) by (bit_vector);
        assert(((b & 4) != 0) == ((b / 4) % 2 == 1)) by (bit_vector);
        assert(((b & 8) != 0) == ((b / 8) % 2 == 1)) by (bit_vector);
        assert(((b & 16) != 0) == ((b / 16) % 2 == 1)) by (bit_vector);
        assert(((b & 64) != 0) == ((b / 64) % 2 == 1)) by (bit_vector);
        Status {
            worn: (b & 1) != 0,
            display_active: (b & 2) != 0,
            hdmi_disconnected: (b & 4) != 0,
            microphone_muted: (b & 8) != 0,
            headphone_connected: (b & 16) != 0,
            // reserved:         (b & 32) != 0,
            tick: (b & 64) != 0,
        }
    }
}

/// Reads reserved data.
pub fn read_reserved(read: &mut Cursor, n: usize) -> (result: Result<(), Error>)
    ensures
        read_outcome(*old(read), *final(read), n as nat, (), result),
{
    proof {
        use_type_invariant(&*read);
    }
    let mut i: usize = 0;
    while i < n
        invariant
            i <= n,
            read.buffer() == old(read).buffer(),
            old(read).offset() <= old(read).buffer().len(),
            read.offset() == old(read).offset() + i,
            read.offset() <= read.buffer().len(),
        decreases n - i,
    {
        match u8::read(read) {
            Ok(_) => {},
            Err(error) => {
                return Err(error);
            },
        }
        i = i + 1;
    }
    Ok(())
}

impl Readable for u8 {
    open spec fn size() -> nat {
        1
    }

    open spec fn parse(bytes: Seq<u8>) -> u8 {
        bytes[0]
    }

    fn read(read: &mut Cursor) -> (result: Result<u8, Error>) {
        let bytes = read.take(1)?;
        Ok(bytes[0])
    }
}

impl Readable for i8 {
    open spec fn size() -> nat {
        1
    }

    open spec fn parse(bytes: Seq<u8>) -> i8 {
        if bytes[0] >= 128 {
            (bytes[0] - 256) as i8
        } else {
            bytes[0] as i8
        }
    }

    fn read(read: &mut Cursor) -> (result: Result<i8, Error>) {
        let bytes = read.take(1)?;
        let byte = bytes[0];
        if byte >= 128 {
            Ok((byte as i16 - 256) as i8)
        } else {
            Ok(byte as i8)
        }
    }
}

impl Readable for i16 {
    open spec fn size() -> nat {
        2
    }

    open spec fn parse(bytes: Seq<u8>) -> i16 {
        i16_from_le(bytes[0], bytes[1]) as i16
    }

    fn read(read: &mut Cursor) -> (result: Result<i16, Error>) {
        let bytes = read.take(2)?;
        Ok(decode_i16(bytes))
    }
}

impl Readable for u16 {
    open spec fn size() -> nat {
        2
    }

    open spec fn parse(bytes: Seq<u8>) -> u16 {
        u16_from_le(bytes[0], bytes[1]) as u16
    }

    fn read(read: &mut Cursor) -> (result: Result<u16, Error>) {
        let bytes = read.take(2)?;
        Ok(decode_u16(bytes))
    }
}

impl Readable for i32 {
    open spec fn size() -> nat {
        4
    }

    open spec fn parse(bytes: Seq<u8>) -> i32 {
        i32_from_le(bytes[0], bytes[1], bytes[2], bytes[3]) as i32
    }

    fn read(read: &mut Cursor) -> (result: Result<i32, Error>) {
        let bytes = read.take(4)?;
        Ok(decode_i32(bytes))
    }
}

impl Readable for u32 {
    open spec fn size() -> nat {
        4
    }

    open spec fn parse(bytes: Seq<u8>) -> u32 {
        u32_from_le(bytes[0], bytes[1], bytes[2], bytes[3]) as u32
    }

    fn read(read: &mut Cursor) -> (result: Result<u32, Error>) {
        let bytes = read.take(4)?;
        Ok(decode_u32(bytes))
    }
}

impl Readable for Buttons {
    open spec fn size() -> nat {
        1
    }

    open spec fn parse(bytes: Seq<u8>) -> Buttons {
        Buttons::of_byte(bytes[0])
    }

    fn read(read: &mut Cursor) -> (result: Result<Buttons, Error>) {
        let b = u8::read(read)?;
        Ok(Buttons::from_byte(b))
    }
}

impl Readable for Status {
    open spec fn size() -> nat {
        1
    }

    open spec fn parse(bytes: Seq<u8>) -> Status {
        Status::of_byte(bytes[0])
    }

    fn read(read: &mut Cursor) -> (result: Result<Status, Error>) {
        let b = u8::read(read)?;
        Ok(Status::from_byte(b))
    }
}

impl<T: Readable> Readable for Vector3<T> {
    open spec fn size() -> nat {
        3 * T::size()
    }

    open spec fn parse(bytes: Seq<u8>) -> Vector3<T> {
        Vector3 {
            x: T::parse(bytes),
            y: T::parse(skip(bytes, T::size())),
            z: T::parse(skip(bytes, 2 * T::size())),
        }
    }

    fn read(read: &mut Cursor) -> (result: Result<Vector3<T>, Error>) {
        let ghost start = *read;
        let x = T::read(read)?;
        let ghost after_x = *read;
        let y = T::read(read)?;
        let ghost after_y = *read;
        let z = T::read(read)?;
        proof {
            lemma_rest_after(start, after_x, T::size());
            lemma_rest_after(start, after_y, 2 * T::size());
        }
        Ok(Vector3::new(x, y, z))
    }
}

impl Readable for InertiaInstant {
    open spec fn size() -> nat {
        16
    }

    open spec fn parse(bytes: Seq<u8>) -> InertiaInstant {
        InertiaInstant {
            gyroscope_raw: Vector3::<i16>::parse(bytes),
            accelerometer_raw: Vector3::<i16>::parse(skip(bytes, 6)),
        }
    }

    fn read(read: &mut Cursor) -> (result: Result<InertiaInstant, Error>) {
        let ghost start = *read;
        let gyroscope_raw = Vector3::<i16>::read(read)?;
        let ghost after_gyroscope = *read;
        let accelerometer_raw = Vector3::<i16>::read(read)?;
        read_reserved(read, 4)?;
        proof {
            lemma_rest_after(start, after_gyroscope, 6);
        }
        Ok(InertiaInstant { gyroscope_raw, accelerometer_raw })
    }
}

impl Readable for Readout {
    open spec fn size() -> nat {
        64
    }

    open spec fn parse(bytes: Seq<u8>) -> Readout {
        Readout {
            buttons: Buttons::parse(bytes),
            volume: bytes[2],
            status: Status::parse(skip(bytes, 8)),
            instants: [
                InertiaInstant::parse(skip(bytes, 20)),
                InertiaInstant::parse(skip(bytes, 36)),
            ],
        }
    }

    fn read(read: &mut Cursor) -> (result: Result<Readout, Error>) {
        let ghost start = *read;
        let buttons = Buttons::read(read)?;

        read_reserved(read, 1)?;
        let ghost at_volume = *read;
        let volume = u8::read(read)?;
        read_reserved(read, 5)?;
        let ghost at_status = *read;
        let status = Status::read(read)?;
        read_reserved(read, 11)?;

        let ghost at_one = *read;
        let instant_one = InertiaInstant::read(read)?;
        let ghost at_two = *read;
        let instant_two = InertiaInstant::read(read)?;
        let instants = [instant_one, instant_two];
        read_reserved(read, 12)?;

        proof {
            lemma_rest_after(start, at_volume, 2);
            lemma_rest_after(start, at_status, 8);
            lemma_rest_after(start, at_one, 20);
            lemma_rest_after(start, at_two, 36);
        }
        Ok(Readout { buttons, volume, status, instants })
    }
}

/// `value` wrapped to sixteen bits in two's complement.
pub open spec fn wrap16(value: int) -> int {
    (value + 32768) % 65536 - 32768
}

/// One accelerometer axis in units of 1/32768 g: the raw count is shifted
/// left by four within sixteen bits, the twelve-bit sample being packed to
/// the left of the sixteen-bit field, and the sign is flipped.
pub open spec fn accelerometer_units(count: int) -> int {
    -wrap16(16 * count)
}

/// One gyroscope axis in units of 1/32768 of the full scale: the raw count
/// itself.
pub open spec fn gyroscope_units(count: int) -> int {
    count
}

/// How many units of `accelerometer` make one g, and how many units of
/// `gyroscope` make the full scale of the gyroscope.
pub const UNITS_PER_FULL_SCALE: i32 = 32768;

/// The full scale of the gyroscope in degrees per second.
pub const GYROSCOPE_FULL_SCALE_DEGREES: i32 = 2000;

fn accelerometer_axis(count: i32) -> (units: i32)
    requires
        -32768 <= count <= 32768,
    ensures
        units == accelerometer_units(count as int),
{
    // Eight whole periods are added so that the dividend is never negative.
    let shifted: i32 = count * 16 + 524288 + 32768;
    let wrapped: i32 = shifted % 65536 - 32768;
    -wrapped
}

impl InertiaInstant {
    /// Gets the accelerometer readout vector, in units of 1/32768 g. The z
    /// axis is negated before it is scaled.
    pub fn accelerometer(&self) -> (units: Vector3<i32>)
        ensures
            units.x == accelerometer_units(self.accelerometer_raw.x as int),
            units.y == accelerometer_units(self.accelerometer_raw.y as int),
            units.z == accelerometer_units(-(self.accelerometer_raw.z as int)),
    {
        Vector3::new(
            accelerometer_axis(self.accelerometer_raw.x as i32),
            accelerometer_axis(self.accelerometer_raw.y as i32),
            accelerometer_axis(-(self.accelerometer_raw.z as i32)),
        )
    }

    /// Gets the gyroscope readout vector, in units of 1/32768 of the full
    /// scale. The z axis is negated.
    pub fn gyroscope(&self) -> (units: Vector3<i32>)
        ensures
            units.x == gyroscope_units(self.gyroscope_raw.x as int),
            units.y == gyroscope_units(self.gyroscope_raw.y as int),
            units.z == gyroscope_units(-(self.gyroscope_raw.z as int)),
    {
        Vector3::new(
            self.gyroscope_raw.x as i32,
            self.gyroscope_raw.y as i32,
            -(self.gyroscope_raw.z as i32),
        )
    }
}

} // verus!
