//! The sensor frame seen from the other side: the bytes that carry a given
//! readout, and the facts that tie them to the decoder.

use crate::codec::i16_from_le;
use crate::math::Vector3;
use crate::protocol::zeros;
use crate::sensor::{
    accelerometer_units, gyroscope_units, skip, Buttons, InertiaInstant, Readable, Readout, Status,
    UNITS_PER_FULL_SCALE,
};
use vstd::prelude::*;

verus! {

/// The weight of a flag in its byte when it is set, zero otherwise.
pub open spec fn flag(set: bool, weight: int) -> int {
    if set {
        weight
    } else {
        0
    }
}

/// The two little-endian bytes of `value` in two's complement.
pub open spec fn i16_le_bytes(value: i16) -> Seq<u8> {
    seq![(value as int % 256) as u8, (value as int / 256 % 256) as u8]
}

/// The six bytes of three little-endian counts.
pub open spec fn vector_bytes(vector: Vector3<i16>) -> Seq<u8> {
    i16_le_bytes(vector.x) + i16_le_bytes(vector.y) + i16_le_bytes(vector.z)
}

/// The button byte with the reserved bit clear.
pub open spec fn buttons_byte(buttons: Buttons) -> u8 {
    (flag(buttons.plus, 2) + flag(buttons.minus, 4) + flag(buttons.mute, 8)) as u8
}

/// The status byte with the reserved bits clear.
pub open spec fn status_byte(status: Status) -> u8 {
    (flag(status.worn, 1) + flag(status.display_active, 2) + flag(status.hdmi_disconnected, 4)
        + flag(status.microphone_muted, 8) + flag(status.headphone_connected, 16) + flag(
        status.tick,
        64,
    )) as u8
}

/// The sixteen bytes of one inertial instant, reserved bytes zero.
pub open spec fn instant_bytes(instant: InertiaInstant) -> Seq<u8> {
    vector_bytes(instant.gyroscope_raw) + vector_bytes(instant.accelerometer_raw) + zeros(4)
}

/// The sensor frame that carries `readout`, every reserved byte and bit zero.
pub open spec fn readout_bytes(readout: Readout) -> Seq<u8> {
    seq![buttons_byte(readout.buttons), 0u8, readout.volume] + zeros(5) + seq![
        status_byte(readout.status),
    ] + zeros(11) + instant_bytes(readout.instants[0]) + instant_bytes(readout.instants[1])
        + zeros(12)
}

/// A count survives being written as two little-endian bytes and read back.
pub proof fn lemma_i16_round_trip(value: i16)
    ensures
        i16_from_le(i16_le_bytes(value)[0], i16_le_bytes(value)[1]) == value,
{
}

/// Buttons survive being packed into a byte and unpacked.
pub proof fn lemma_buttons_round_trip(buttons: Buttons)
    ensures
        Buttons::of_byte(buttons_byte(buttons)) == buttons,
{
}

/// A status survives being packed into a byte and unpacked.
pub proof fn lemma_status_round_trip(status: Status)
    ensures
        Status::of_byte(status_byte(status)) == status,
{
}

/// Three counts at the head of `bytes` decode to the vector they encode.
pub proof fn lemma_vector_round_trip(vector: Vector3<i16>, tail: Seq<u8>)
    ensures
        Vector3::<i16>::parse(vector_bytes(vector) + tail) == vector,
{
    lemma_i16_round_trip(vector.x);
    lemma_i16_round_trip(vector.y);
    lemma_i16_round_trip(vector.z);
}

/// An instant at the head of `bytes` decodes to the instant it encodes.
pub proof fn lemma_instant_round_trip(instant: InertiaInstant, tail: Seq<u8>)
    ensures
        InertiaInstant::parse(instant_bytes(instant) + tail) == instant,
{
    let after_gyroscope = vector_bytes(instant.accelerometer_raw) + zeros(4) + tail;
    lemma_vector_round_trip(instant.gyroscope_raw, after_gyroscope);
    lemma_vector_round_trip(instant.accelerometer_raw, zeros(4) + tail);
}

/// Decoding inverts encoding: the frame that carries a readout is a full
/// frame, and it decodes to that readout.
pub proof fn lemma_readout_round_trip(readout: Readout)
    ensures
        readout_bytes(readout).len() == 64,
        Readout::parse(readout_bytes(readout)) == readout,
{
    let bytes = readout_bytes(readout);
    let two = instant_bytes(readout.instants[1]);
    assert(skip(bytes, 36) =~= two + zeros(12));
    lemma_buttons_round_trip(readout.buttons);
    lemma_status_round_trip(readout.status);
    lemma_instant_round_trip(readout.instants[0], two + zeros(12));
    lemma_instant_round_trip(readout.instants[1], zeros(12));
    assert(Readout::parse(bytes).instants =~= readout.instants);
}

/// The decoder reads each field at its fixed offset in the frame.
pub proof fn lemma_readout_layout(bytes: Seq<u8>)
    requires
        bytes.len() >= 64,
    ensures
        Readout::parse(bytes).buttons == Buttons::of_byte(bytes[0]),
        Readout::parse(bytes).volume == bytes[2],
        Readout::parse(bytes).status == Status::of_byte(bytes[8]),
        forall|k: int|
            0 <= k < 2 ==> {
                let instant = #[trigger] Readout::parse(bytes).instants[k];
                let base = 20 + 16 * k;
                &&& instant.gyroscope_raw.x == i16_from_le(bytes[base], bytes[base + 1])
                &&& instant.gyroscope_raw.y == i16_from_le(bytes[base + 2], bytes[base + 3])
                &&& instant.gyroscope_raw.z == i16_from_le(bytes[base + 4], bytes[base + 5])
                &&& instant.accelerometer_raw.x == i16_from_le(bytes[base + 6], bytes[base + 7])
                &&& instant.accelerometer_raw.y == i16_from_le(bytes[base + 8], bytes[base + 9])
                &&& instant.accelerometer_raw.z == i16_from_le(
                    bytes[base + 10],
                    bytes[base + 11],
                )
            },
{
    lemma_instant_layout(bytes, 20);
    lemma_instant_layout(bytes, 36);
}

/// An instant that starts at `base` reads its six counts from the twelve
/// bytes that follow.
pub proof fn lemma_instant_layout(bytes: Seq<u8>, base: nat)
    requires
        base + 16 <= bytes.len(),
    ensures
        ({
            let instant = InertiaInstant::parse(skip(bytes, base));
            let base = base as int;
            &&& instant.gyroscope_raw.x == i16_from_le(bytes[base], bytes[base + 1])
            &&& instant.gyroscope_raw.y == i16_from_le(bytes[base + 2], bytes[base + 3])
            &&& instant.gyroscope_raw.z == i16_from_le(bytes[base + 4], bytes[base + 5])
            &&& instant.accelerometer_raw.x == i16_from_le(bytes[base + 6], bytes[base + 7])
            &&& instant.accelerometer_raw.y == i16_from_le(bytes[base + 8], bytes[base + 9])
            &&& instant.accelerometer_raw.z == i16_from_le(bytes[base + 10], bytes[base + 11])
        }),
{
}

/// The gyroscope conversion is odd in its input: a flipped sign comes out as
/// a flipped sign, on every axis, the negated z axis included.
pub proof fn lemma_gyroscope_is_odd(count: int)
    ensures
        gyroscope_units(-count) == -gyroscope_units(count),
{
}

/// The largest raw count comes to one unit short of the full scale of the
/// gyroscope, and the smallest to the full scale in the other direction.
pub proof fn lemma_gyroscope_full_scale()
    ensures
        gyroscope_units(32767) == UNITS_PER_FULL_SCALE - 1,
        gyroscope_units(-32768) == -UNITS_PER_FULL_SCALE,
{
}

/// A raw count of zero converts to zero, and a count within the twelve bits
/// of the sensor converts to minus sixteen times itself, so that the largest
/// twelve-bit count, 2047, comes to 32752 units short of zero: just under
/// minus one g.
pub proof fn lemma_accelerometer_scale(count: int)
    ensures
        accelerometer_units(0) == 0,
        -2048 <= count < 2048 ==> accelerometer_units(count) == -16 * count,
        accelerometer_units(2047) == -32752,
{
}

/// The accelerometer conversion never leaves the sixteen-bit range, whatever
/// the raw count.
pub proof fn lemma_accelerometer_range(count: int)
    ensures
        -32767 <= accelerometer_units(count) <= 32768,
{
}

} // verus!
