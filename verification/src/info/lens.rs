//! Lens geometry.

use crate::info::FieldOfView;
use crate::math::Scalar;
use vstd::prelude::*;
use vstd::slice::slice_to_vec;

verus! {

/// An individual lens.
#[derive(Debug)]
pub struct Lens {
    /// The screen resolution of the lens.
    pub resolution: (u32, u32),
    /// The FOV of the lens.
    pub field_of_view: FieldOfView,
    /// The coefficients for the barrel distortion equation with this lens.
    ///
    /// The coefficients Ki correspond to the pincushion distortion equation:
    ///
    /// ```text
    /// p' = p (1 + K1 r^2 + K2 r^4 + ... + Kn r^(2n))
    /// ```
    pub distortion_coefficients: Vec<Scalar>,
    /// Chromatic aberration properties.
    pub chromatic_aberration_factors: ChromaticAberrationFactors,
}

/// Chromatic aberration factors.
#[derive(Copy, Clone, Debug, PartialEq, Eq, Structural)]
pub struct ChromaticAberrationFactors {
    pub red: Scalar,
    pub green: Scalar,
    pub blue: Scalar,
}

impl Clone for Lens {
    fn clone(&self) -> (copy: Lens)
        ensures
            copy.resolution == self.resolution,
            copy.field_of_view == self.field_of_view,
            copy.distortion_coefficients@ == self.distortion_coefficients@,
            copy.chromatic_aberration_factors == self.chromatic_aberration_factors,
    {
        Lens {
            resolution: self.resolution,
            field_of_view: self.field_of_view,
            distortion_coefficients: slice_to_vec(self.distortion_coefficients.as_slice()),
            chromatic_aberration_factors: self.chromatic_aberration_factors,
        }
    }
}

impl ChromaticAberrationFactors {
    /// Gets the factors corresponding to no aberration adjustment: one for
    /// each colour.
    pub fn no_adjustments() -> (factors: ChromaticAberrationFactors)
        ensures
            factors.red.thousandths == 1000,
            factors.green.thousandths == 1000,
            factors.blue.thousandths == 1000,
    {
        ChromaticAberrationFactors {
            red: Scalar::from_thousandths(1000),
            green: Scalar::from_thousandths(1000),
            blue: Scalar::from_thousandths(1000),
        }
    }
}

} // verus!
