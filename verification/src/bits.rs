//! Scalar and vector values carried as IEEE-754 single-precision bit
//! patterns.
//!
//! The renderer and the cameras never do numeric work on these values:
//! they store them, move them and compare them bit-exactly, and the
//! platform layer converts them at the boundary where the numeric matrix
//! work is done. Carrying the raw 32-bit patterns keeps all of that
//! bookkeeping inside verified code.

use vstd::prelude::*;

verus! {

/// Bit pattern of the single-precision value 0.0.
pub const BITS_ZERO: u32 = 0x0000_0000;

/// Bit pattern of the single-precision value 1.0.
pub const BITS_ONE: u32 = 0x3F80_0000;

/// Bit pattern of the single-precision value -1.0.
pub const BITS_NEG_ONE: u32 = 0xBF80_0000;

/// Bit pattern of the single-precision value 2.0.
pub const BITS_TWO: u32 = 0x4000_0000;

/// A 3-component vector of single-precision values, each carried as its
/// 32-bit pattern.
#[derive(Clone, Copy, PartialEq, Eq, Structural, Debug)]
pub struct Vec3Bits {
    pub x: u32,
    pub y: u32,
    pub z: u32,
}

/// A 4-component vector of single-precision values, each carried as its
/// 32-bit pattern.
#[derive(Clone, Copy, PartialEq, Eq, Structural, Debug)]
pub struct Vec4Bits {
    pub x: u32,
    pub y: u32,
    pub z: u32,
    pub w: u32,
}

impl Vec3Bits {
    /// The origin, (0, 0, 0).
    pub open spec fn origin() -> Vec3Bits {
        Vec3Bits { x: BITS_ZERO, y: BITS_ZERO, z: BITS_ZERO }
    }

    /// The vector extended to a homogeneous position with w = 1.
    pub open spec fn homogeneous(self) -> Vec4Bits {
        Vec4Bits { x: self.x, y: self.y, z: self.z, w: BITS_ONE }
    }

    /// The +Y unit vector.
    pub open spec fn unit_y() -> Vec3Bits {
        Vec3Bits { x: BITS_ZERO, y: BITS_ONE, z: BITS_ZERO }
    }

    /// The +Z unit vector.
    pub open spec fn unit_z() -> Vec3Bits {
        Vec3Bits { x: BITS_ZERO, y: BITS_ZERO, z: BITS_ONE }
    }
}

} // verus!
