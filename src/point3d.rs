//! A point in 3D space.
use vstd::prelude::*;

verus! {

/// A point in 3D space.
///
/// Each coordinate is held as the IEEE-754 bit pattern of an `f64`
/// (`f64::to_bits`), so that equality and hashing go by bits: `-0.0` and
/// `0.0` differ, and a NaN equals itself.
#[derive(Clone, Copy, Debug, PartialEq, Eq, Structural, Hash)]
pub struct Point3D {
    /// Bit pattern of the x coordinate.
    pub x: u64,
    /// Bit pattern of the y coordinate.
    pub y: u64,
    /// Bit pattern of the z coordinate.
    pub z: u64,
}

} // verus!
