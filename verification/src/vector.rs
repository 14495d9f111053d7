//! Fixed-point vectors.

use vstd::prelude::*;

verus! {

/// How many steps of a [`Vec3`] component make one unit.
pub const UNIT: i64 = 1000;

/// A vector in three dimensions. Each component counts thousandths of a
/// unit, so `Vec3 { x: 1500, y: 0, z: -250 }` stands for (1.5, 0, -0.25).
/// The `y` axis points up.
#[derive(Clone, Copy, Debug, PartialEq, Eq, Structural)]
pub struct Vec3 {
    pub x: i64,
    pub y: i64,
    pub z: i64,
}

impl Vec3 {
    /// The vector with the given components, in thousandths.
    pub fn new(x: i64, y: i64, z: i64) -> (v: Vec3)
        ensures
            v == (Vec3 { x, y, z }),
    {
        Vec3 { x, y, z }
    }
}

} // verus!
