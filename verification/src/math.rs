//! Geometric and colour values exchanged with scripts.
//!
//! Every component is carried as the bit pattern of an IEEE-754
//! single-precision number. The host never computes with these values, it
//! only stores them and hands them on.

use vstd::prelude::*;

verus! {

/// Bit pattern of the single-precision number `0.0`.
pub const ZERO_BITS: u32 = 0;

/// Bit pattern of the single-precision number `1.0`.
pub const ONE_BITS: u32 = 0x3F80_0000;

/// A vector of three components.
#[derive(Clone, Copy, Debug, PartialEq, Eq, Structural)]
pub struct Vec3 {
    pub x: u32,
    pub y: u32,
    pub z: u32,
}

impl Vec3 {
    /// A vector whose three components all equal `value`.
    pub fn splat(value: u32) -> (v: Vec3)
        ensures
            v.x == value,
            v.y == value,
            v.z == value,
    {
        Vec3 { x: value, y: value, z: value }
    }
}

/// A rotation quaternion in `(x, y, z, w)` order.
#[derive(Clone, Copy, Debug, PartialEq, Eq, Structural)]
pub struct Quat {
    pub x: u32,
    pub y: u32,
    pub z: u32,
    pub w: u32,
}

impl Quat {
    /// The identity rotation `(0, 0, 0, 1)`.
    pub open spec fn identity() -> Quat {
        Quat { x: ZERO_BITS, y: ZERO_BITS, z: ZERO_BITS, w: ONE_BITS }
    }
}

impl Default for Quat {
    fn default() -> (q: Quat)
        ensures
            q == Quat::identity(),
    {
        Quat { x: ZERO_BITS, y: ZERO_BITS, z: ZERO_BITS, w: ONE_BITS }
    }
}

/// Placement of a node relative to its parent.
#[derive(Clone, Copy, Debug, PartialEq, Eq, Structural)]
pub struct Transform {
    pub rotation: Quat,
    pub scale: Vec3,
    pub translation: Vec3,
}

impl Transform {
    /// Identity rotation, unit scale and zero translation.
    pub open spec fn identity() -> Transform {
        Transform {
            rotation: Quat::identity(),
            scale: Vec3 { x: ONE_BITS, y: ONE_BITS, z: ONE_BITS },
            translation: Vec3 { x: ZERO_BITS, y: ZERO_BITS, z: ZERO_BITS },
        }
    }
}

impl Default for Transform {
    fn default() -> (t: Transform)
        ensures
            t == Transform::identity(),
    {
        Transform {
            rotation: Quat::default(),
            scale: Vec3::splat(ONE_BITS),
            translation: Vec3::splat(ZERO_BITS),
        }
    }
}

/// An RGBA colour with components in `[0, 1]`.
#[derive(Clone, Copy, Debug, PartialEq, Eq, Structural)]
pub struct Color {
    pub r: u32,
    pub g: u32,
    pub b: u32,
    pub a: u32,
}

impl Color {
    /// Opaque black, `(0, 0, 0, 1)`.
    pub open spec fn opaque_black() -> Color {
        Color { r: ZERO_BITS, g: ZERO_BITS, b: ZERO_BITS, a: ONE_BITS }
    }
}

impl Default for Color {
    fn default() -> (c: Color)
        ensures
            c == Color::opaque_black(),
    {
        Color { r: ZERO_BITS, g: ZERO_BITS, b: ZERO_BITS, a: ONE_BITS }
    }
}

} // verus!
