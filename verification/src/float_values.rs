use vstd::prelude::*;

verus! {

/// A single-precision floating-point value carried through the library by
/// its IEEE 754 bit pattern (the value of `f32::to_bits`). The library only
/// stores, copies and compares such values; it never computes with them.
#[derive(Clone, Copy, Debug, PartialEq, Eq, Structural)]
pub struct FloatBits(pub u32);

/// The bit pattern of `0.0`.
pub const FLOAT_ZERO_BITS: u32 = 0u32;

/// The bit pattern of `1.0`.
pub const FLOAT_ONE_BITS: u32 = 0x3f80_0000u32;

/// A three-component float vector (x, y, z), each component by its bits.
#[derive(Clone, Copy, Debug, PartialEq, Eq, Structural)]
pub struct Vec3Bits {
    pub x: FloatBits,
    pub y: FloatBits,
    pub z: FloatBits,
}

/// A rotation quaternion (x, y, z, w), each component by its bits.
#[derive(Clone, Copy, Debug, PartialEq, Eq, Structural)]
pub struct QuatBits {
    pub x: FloatBits,
    pub y: FloatBits,
    pub z: FloatBits,
    pub w: FloatBits,
}

impl Vec3Bits {
    /// The vector whose three components are all `value`.
    pub fn splat(value: FloatBits) -> (v: Vec3Bits)
        ensures
            v == (Vec3Bits { x: value, y: value, z: value }),
    {
        Vec3Bits { x: value, y: value, z: value }
    }
}

} // verus!
