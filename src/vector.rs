use vstd::prelude::*;

verus! {

/// A 3-component single-precision vector.
///
/// Each component holds the IEEE-754 bit pattern of its `f32` value, so that
/// equality of two vectors is bit-exact component equality.
#[derive(Copy, Clone, Debug, PartialEq, Eq, Structural)]
pub struct Vec3f {
    pub x: u32,
    pub y: u32,
    pub z: u32,
}

impl Vec3f {
    /// Builds a vector from the bit patterns of its three components.
    pub fn new(x: u32, y: u32, z: u32) -> (r: Vec3f)
        ensures
            r.x == x,
            r.y == y,
            r.z == z,
    {
        Vec3f { x, y, z }
    }

    /// The zero vector `(0, 0, 0)`; `+0.0` has the all-zero bit pattern.
    pub fn zero() -> (r: Vec3f)
        ensures
            r == (Vec3f { x: 0, y: 0, z: 0 }),
    {
        Vec3f { x: 0, y: 0, z: 0 }
    }
}

/// A 2-component single-precision vector, held as IEEE-754 bit patterns.
#[derive(Copy, Clone, Debug, PartialEq, Eq, Structural)]
pub struct Vec2f {
    pub x: u32,
    pub y: u32,
}

impl Vec2f {
    /// Builds a vector from the bit patterns of its two components.
    pub fn new(x: u32, y: u32) -> (r: Vec2f)
        ensures
            r.x == x,
            r.y == y,
    {
        Vec2f { x, y }
    }
}

} // verus!
