//! An axis of rotation in 3D space.
use vstd::prelude::*;

verus! {

/// An axis of rotation in 3D space.
///
/// Structurally the same as a point, kept as its own type so that a point
/// and an axis cannot be passed in each other's place. Each component is the
/// IEEE-754 bit pattern of an `f64` (`f64::to_bits`).
#[derive(Clone, Copy, Debug, PartialEq, Eq, Structural, Hash)]
pub struct RotationAxis {
    /// Bit pattern of the x component.
    pub x: u64,
    /// Bit pattern of the y component.
    pub y: u64,
    /// Bit pattern of the z component.
    pub z: u64,
}

} // verus!
