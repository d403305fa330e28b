//! Inertia sensor handling (gyroscope, accelerometer).
//!
//! The PSVR uses a BMI055 Inertial Measurement Unit (IMU): a gyroscope and
//! an accelerometer, six degrees of freedom, no magnetometer.

use crate::math::Vector3;
use crate::sensor::{accelerometer_units, gyroscope_units, InertiaInstant, Readout};
use vstd::prelude::*;

verus! {

/// How many samples are taken per second.
pub const SAMPLE_FREQUENCY: u32 = 120;

/// Inertia information at a point in time, in units of 1/32768 of the full
/// scale of each sensor.
#[derive(Copy, Clone, Debug, PartialEq, Eq, Structural)]
pub struct Instant {
    /// The gyroscope inertia information.
    pub gyroscope: Vector3<i32>,
    /// The accelerometer inertia information.
    pub accelerometer: Vector3<i32>,
}

impl Instant {
    /// The converted vectors of a raw instant.
    pub open spec fn of_raw(raw: InertiaInstant) -> Instant {
        Instant {
            gyroscope: Vector3 {
                x: gyroscope_units(raw.gyroscope_raw.x as int) as i32,
                y: gyroscope_units(raw.gyroscope_raw.y as int) as i32,
                z: gyroscope_units(-(raw.gyroscope_raw.z as int)) as i32,
            },
            accelerometer: Vector3 {
                x: accelerometer_units(raw.accelerometer_raw.x as int) as i32,
                y: accelerometer_units(raw.accelerometer_raw.y as int) as i32,
                z: accelerometer_units(-(raw.accelerometer_raw.z as int)) as i32,
            },
        }
    }

    /// Converts a raw instant.
    pub fn from_raw(raw: &InertiaInstant) -> (instant: Instant)
        ensures
            instant == Instant::of_raw(*raw),
    {
        Instant { gyroscope: raw.gyroscope(), accelerometer: raw.accelerometer() }
    }

    /// The instant of a readout that feeds sensor fusion: the first of the
    /// two. The second is not used.
    pub fn fusion_input(readout: &Readout) -> (instant: Instant)
        ensures
            instant == Instant::of_raw(readout.instants[0]),
    {
        Instant::from_raw(&readout.instants[0])
    }
}

} // verus!
