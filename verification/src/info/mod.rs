//! Information about a headset.

pub use self::lens::{ChromaticAberrationFactors, Lens};

mod lens;

use crate::math::Scalar;
use vstd::prelude::*;
use vstd::slice::slice_to_vec;
use vstd::std_specs::cmp::PartialEqSpecImpl;

verus! {

/// Information about a VR headset.
#[derive(Clone, Debug)]
pub struct Properties {
    /// Information about the headset's visuals.
    pub visuals: Visuals,
    /// Information about the display of the headset.
    pub display_info: DisplayInfo,
}

/// Information about the visuals
#[derive(Clone, Debug)]
pub enum Visuals {
    /// A headset with one or more lenses.
    ///
    /// Information about the left and right lenses are separate,
    /// so that devices with multiple different lens are supported.
    LensBased {
        /// The distance between the lens in micrometers.
        lens_separation: Distance,
        /// The baseline distance from the center of the lens to the eye.
        lens_to_eye_distance: Distance,
        /// The distance from the screen to the lens.
        screen_to_lens_distance: Distance,
        /// Information about the left lens.
        left: Lens,
        /// Information about the right lens.
        right: Lens,
    },
}

/// Information about a HMD's display.
///
/// # Finding the HDMI/VGA port of the HMD
///
/// The `DisplayInfo` type implements `Eq`. Any two `DisplayInfo`s can be
/// compared with one another for equality.
///
/// Two display information structures will be considered the same
/// if and only if they are very similar to one another.
///
/// Use OS or library calls to enumerate the list of physical displays. Create
/// a `DisplayInfo` structure out of this. You can then find what
/// physical display represents the HMD screen by comparing the OS
/// `DisplayInfo` with the HMD's `DisplayInfo` returned by this library.
#[derive(Debug)]
pub struct DisplayInfo {
    /// The monitor name of the VR headset, as reported by HDMI EDID.
    ///
    /// This is not necessarily 100% reliable for 1:1 matching against.
    /// Custom display profiles on each OS can be created by the user,
    /// possible assigning a different name, usually just adding a suffix
    /// to the monitor name of the device. Therefore, it is recommended to
    /// match monitor names by checking if the actual monitor name includes
    /// the HMD's monitor name as a substring.
    pub monitor_name: String,
    /// The physical size, in millimeters, of the HMD display if known.
    pub physical_size_millimeters: Option<(u32, u32)>,
    /// A list of `(width, height)` resolutions the headset is expected
    /// to support.
    ///
    /// This is not necessarily an exhaustive list, but every resolution
    /// in the list is guaranteed to be a resolution supported by the
    /// device.
    ///
    /// This can be used in HDMI input detection, for determining which
    /// HDMI port drives the HMD's screens.
    pub supported_resolutions: Vec<(u32, u32)>,
}

/// A geometric distance.
#[derive(Copy, Clone, Debug, PartialEq, Eq, Structural)]
pub struct Distance {
    pub(crate) micrometers: u64,
}

/// Information about a field of view.
#[derive(Copy, Clone, Debug, PartialEq, Eq, Structural)]
pub struct FieldOfView {
    /// The horizontal field of view.
    pub horizontal: FieldOfViewAxis,
    /// The vertical field of view.
    pub vertical: FieldOfViewAxis,
}

/// Information about a field of view axis.
#[derive(Copy, Clone, Debug, PartialEq, Eq, Structural)]
pub struct FieldOfViewAxis {
    /// The minimum field of view in degrees.
    pub minimum_degrees: Scalar,
    /// The maximum field of view in degrees.
    pub maximum_degrees: Scalar,
    /// The recommended field of view in degrees.
    pub recommended_degrees: Scalar,
}

/// Whether every resolution of `a` occurs in `subset_of`.
pub open spec fn is_subset_spec(a: Seq<(u32, u32)>, subset_of: Seq<(u32, u32)>) -> bool {
    forall|i: int| 0 <= i < a.len() ==> subset_of.contains(#[trigger] a[i])
}

/// Whether two displays can be the same one: their physical sizes agree
/// where both are known, and the resolutions of one are among those of the
/// other. The monitor names play no part.
pub open spec fn same_display(a: DisplayInfo, b: DisplayInfo) -> bool {
    &&& a.physical_size_millimeters is Some && b.physical_size_millimeters is Some
        ==> a.physical_size_millimeters == b.physical_size_millimeters
    &&& is_subset_spec(a.supported_resolutions@, b.supported_resolutions@) || is_subset_spec(
        b.supported_resolutions@,
        a.supported_resolutions@,
    )
}

fn contains(list: &[(u32, u32)], item: (u32, u32)) -> (found: bool)
    ensures
        found == list@.contains(item),
{
    let mut i: usize = 0;
    while i < list.len()
        invariant
            i <= list@.len(),
            forall|k: int| 0 <= k < i ==> list@[k] != item,
        decreases list@.len() - i,
    {
        if list[i].0 == item.0 && list[i].1 == item.1 {
            return true;
        }
        i = i + 1;
    }
    false
}

/// Checks whether every resolution of `a` occurs in `subset_of`.
pub fn is_subset(a: &[(u32, u32)], subset_of: &[(u32, u32)]) -> (subset: bool)
    ensures
        subset == is_subset_spec(a@, subset_of@),
{
    let mut i: usize = 0;
    while i < a.len()
        invariant
            i <= a@.len(),
            forall|k: int| 0 <= k < i ==> subset_of@.contains(#[trigger] a@[k]),
        decreases a@.len() - i,
    {
        if !contains(subset_of, a[i]) {
            return false;
        }
        i = i + 1;
    }
    true
}

impl DisplayInfo {
    /// Finds the physical monitor handle that represents the HMD's display.
    ///
    /// This can be used to find which connected physical monitor on a
    /// system is the HMD.
    ///
    /// Returns the first physical monitor whose display information, as `f`
    /// builds it, is the same display as this one.
    ///
    /// Types:
    ///
    ///   * `P` - the physical monitor handle type
    ///   * `F` - a function that builds a `DisplayInfo` for a physical monitor.
    pub fn find_physical_monitor<'a, P, F>(&self, monitors: &'a [P], f: F) -> (found: Option<&'a P>)
        where F: Fn(&P) -> DisplayInfo
        requires
            forall|i: int| 0 <= i < monitors@.len() ==> call_requires(f, (&monitors@[i],)),
        ensures
            match found {
                Some(monitor) => exists|i: int|
                    {
                        &&& 0 <= i < monitors@.len()
                        &&& monitor == &monitors@[i]
                        &&& self.may_match(f, #[trigger] monitors@[i])
                        &&& forall|j: int| 0 <= j < i ==> self.may_differ(f, #[trigger] monitors@[j])
                    },
                None => forall|j: int|
                    0 <= j < monitors@.len() ==> self.may_differ(f, #[trigger] monitors@[j]),
            },
    {
        let mut i: usize = 0;
        while i < monitors.len()
            invariant
                i <= monitors@.len(),
                forall|k: int| 0 <= k < monitors@.len() ==> call_requires(f, (&monitors@[k],)),
                forall|j: int| 0 <= j < i ==> self.may_differ(f, #[trigger] monitors@[j]),
            decreases monitors@.len() - i,
        {
            let info = f(&monitors[i]);
            if info.eq(self) {
                return Some(&monitors[i]);
            }
            i = i + 1;
        }
        None
    }

    /// `f` can build, for this monitor, information on the same display as
    /// this one.
    pub open spec fn may_match<P, F: Fn(&P) -> DisplayInfo>(self, f: F, monitor: P) -> bool {
        exists|info: DisplayInfo| call_ensures(f, (&monitor,), info) && same_display(info, self)
    }

    /// `f` can build, for this monitor, information on another display than
    /// this one.
    pub open spec fn may_differ<P, F: Fn(&P) -> DisplayInfo>(self, f: F, monitor: P) -> bool {
        exists|info: DisplayInfo| call_ensures(f, (&monitor,), info) && !same_display(info, self)
    }
}

impl Clone for DisplayInfo {
    fn clone(&self) -> (copy: DisplayInfo)
        ensures
            copy.monitor_name@ == self.monitor_name@,
            copy.physical_size_millimeters == self.physical_size_millimeters,
            copy.supported_resolutions@ == self.supported_resolutions@,
    {
        DisplayInfo {
            monitor_name: self.monitor_name.clone(),
            physical_size_millimeters: self.physical_size_millimeters,
            supported_resolutions: slice_to_vec(self.supported_resolutions.as_slice()),
        }
    }
}

impl Distance {
    /// The distance as a number of micrometers.
    pub closed spec fn as_micrometers(self) -> nat {
        self.micrometers as nat
    }

    /// Creates a new distance from a micrometer measurement.
    pub fn from_micrometers(micrometers: u64) -> (distance: Distance)
        ensures
            distance.as_micrometers() == micrometers,
    {
        Distance { micrometers }
    }

    /// Creates a new distance from a millimeter measurement, which has to
    /// fit the type when counted in micrometers.
    pub fn from_millimeters(millimeters: u64) -> (distance: Distance)
        requires
            millimeters * 1000 <= u64::MAX,
        ensures
            distance.as_micrometers() == millimeters * 1000,
    {
        Distance::from_micrometers(millimeters * 1_000)
    }

    /// Gets the distance in micrometers.
    pub fn micrometers(&self) -> (micrometers: u64)
        ensures
            micrometers == self.as_micrometers(),
    {
        self.micrometers
    }

    /// Gets the distance in millimeters, rounded down.
    pub fn millimeters(&self) -> (millimeters: u64)
        ensures
            millimeters == self.as_micrometers() / 1000,
    {
        self.micrometers() / 1_000
    }
}

impl PartialEq for DisplayInfo {
    fn eq(&self, other: &Self) -> (same: bool) {
        // Must perform rejection before acceptance.
        // Rejection criteria start.
        {
            match (self.physical_size_millimeters, other.physical_size_millimeters) {
                // Displays that are different physical sizes cannot be the same.
                (Some(a), Some(b)) => if a.0 != b.0 || a.1 != b.1 {
                    return false
                },
                _ => (),
            }

            // If neither supported resolution list subsumes the other, then
            // the displays cannot be the same.
            if !is_subset(self.supported_resolutions.as_slice(), other.supported_resolutions.as_slice())
                && !is_subset(
                other.supported_resolutions.as_slice(),
                self.supported_resolutions.as_slice(),
            ) {
                return false;
            }
        }  // Rejection criteria end

        // If we got this far, it's a match.
        true
    }
}

impl PartialEqSpecImpl for DisplayInfo {
    open spec fn obeys_eq_spec() -> bool {
        true
    }

    open spec fn eq_spec(&self, other: &Self) -> bool {
        same_display(*self, *other)
    }
}

impl Eq for DisplayInfo {

}

} // verus!
