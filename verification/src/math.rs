//! Mathematics types.

use vstd::prelude::*;

verus! {

/// A vector of three components.
#[derive(Copy, Clone, Debug, PartialEq, Eq, Structural)]
pub struct Vector3<T> {
    pub x: T,
    pub y: T,
    pub z: T,
}

impl<T> Vector3<T> {
    /// Creates a vector from its components.
    pub fn new(x: T, y: T, z: T) -> (v: Vector3<T>)
        ensures
            v == (Vector3 { x, y, z }),
    {
        Vector3 { x, y, z }
    }
}

/// The magnitude type: a decimal number held exactly, as a count of
/// thousandths.
#[derive(Copy, Clone, Debug, PartialEq, Eq, Structural)]
pub struct Scalar {
    pub thousandths: i32,
}

impl Scalar {
    /// The number that is `thousandths` thousandths.
    pub fn from_thousandths(thousandths: i32) -> (scalar: Scalar)
        ensures
            scalar.thousandths == thousandths,
    {
        Scalar { thousandths }
    }
}

} // verus!
