//! Bit-level representation of the engine's scalar and vector quantities.
//!
//! Every scalar the engine persists is an IEEE 754 single-precision value,
//! carried here as its raw 32-bit pattern. The engine's discrete logic never
//! does arithmetic on these values — it copies them, compares them bit for
//! bit, and classifies them (zero, positive, negative), and all three of
//! those operations are exact on the bit pattern.

use vstd::prelude::*;

verus! {

/// Bit pattern of +0.0.
pub const POS_ZERO_BITS: u32 = 0x0000_0000;

/// Bit pattern of -0.0.
pub const NEG_ZERO_BITS: u32 = 0x8000_0000;

/// Bit pattern of +1.0.
pub const ONE_BITS: u32 = 0x3F80_0000;

/// Bit pattern of positive infinity. Patterns strictly between this and
/// `NEG_ZERO_BITS` (exclusive) do not occur; patterns strictly above it and
/// below `NEG_ZERO_BITS` encode NaN payloads.
pub const POS_INF_BITS: u32 = 0x7F80_0000;

/// Bit pattern of negative infinity. Patterns strictly above it encode NaN.
pub const NEG_INF_BITS: u32 = 0xFF80_0000;

/// True iff `b` encodes +0.0 or -0.0.
pub open spec fn f32_bits_is_zero(b: u32) -> bool {
    b == POS_ZERO_BITS || b == NEG_ZERO_BITS
}

/// True iff `b` encodes a finite value strictly greater than zero.
/// Positive finite values occupy exactly the patterns 1 ..= 0x7F7F_FFFF,
/// in the same order as the values they encode.
pub open spec fn f32_bits_is_positive_finite(b: u32) -> bool {
    POS_ZERO_BITS < b < POS_INF_BITS
}

/// True iff `b` encodes a value strictly less than zero (including -inf,
/// excluding -0.0 and NaN). Negative values have the sign bit set; their
/// patterns run from 0x8000_0001 to the pattern of -inf.
pub open spec fn f32_bits_is_negative(b: u32) -> bool {
    NEG_ZERO_BITS < b <= NEG_INF_BITS
}

/// True iff `b` encodes a finite value greater than or equal to zero
/// (excluding -0.0). On this range the unsigned order of the bit patterns
/// coincides with the order of the encoded values.
pub open spec fn f32_bits_is_nonneg_finite(b: u32) -> bool {
    b < POS_INF_BITS
}

/// Classifies a scalar bit pattern as zero: the engine treats +0.0 and -0.0
/// alike when it tests a stored component for zero.
pub fn f32_bits_zero(b: u32) -> (r: bool)
    ensures
        r == f32_bits_is_zero(b),
{
    b == POS_ZERO_BITS || b == NEG_ZERO_BITS
}

/// Classifies a scalar bit pattern as finite and strictly positive.
pub fn f32_bits_positive_finite(b: u32) -> (r: bool)
    ensures
        r == f32_bits_is_positive_finite(b),
{
    POS_ZERO_BITS < b && b < POS_INF_BITS
}

/// Classifies a scalar bit pattern as strictly negative (finite or -inf).
pub fn f32_bits_negative(b: u32) -> (r: bool)
    ensures
        r == f32_bits_is_negative(b),
{
    NEG_ZERO_BITS < b && b <= NEG_INF_BITS
}

/// A three-component vector of single-precision bit patterns.
#[derive(Clone, Copy, PartialEq, Eq, Structural, Debug)]
pub struct Vec3Bits {
    pub x: u32,
    pub y: u32,
    pub z: u32,
}

impl Vec3Bits {
    /// True iff every component encodes a (positive or negative) zero.
    pub open spec fn is_zero(self) -> bool {
        f32_bits_is_zero(self.x) && f32_bits_is_zero(self.y) && f32_bits_is_zero(self.z)
    }

    /// True iff every component encodes a finite value strictly above zero.
    pub open spec fn is_positive_finite(self) -> bool {
        f32_bits_is_positive_finite(self.x)
            && f32_bits_is_positive_finite(self.y)
            && f32_bits_is_positive_finite(self.z)
    }

    /// The canonical zero vector (+0.0 in every component).
    pub fn zero() -> (v: Vec3Bits)
        ensures
            v == (Vec3Bits { x: POS_ZERO_BITS, y: POS_ZERO_BITS, z: POS_ZERO_BITS }),
            v.is_zero(),
    {
        Vec3Bits { x: POS_ZERO_BITS, y: POS_ZERO_BITS, z: POS_ZERO_BITS }
    }

    /// A vector with the same pattern in every component.
    pub fn splat(b: u32) -> (v: Vec3Bits)
        ensures
            v == (Vec3Bits { x: b, y: b, z: b }),
    {
        Vec3Bits { x: b, y: b, z: b }
    }

    /// Tests whether the stored vector is a zero vector, accepting both
    /// zero encodings per component.
    pub fn test_zero(&self) -> (r: bool)
        ensures
            r == self.is_zero(),
    {
        f32_bits_zero(self.x) && f32_bits_zero(self.y) && f32_bits_zero(self.z)
    }

    /// Tests whether every component is finite and strictly positive.
    pub fn test_positive_finite(&self) -> (r: bool)
        ensures
            r == self.is_positive_finite(),
    {
        f32_bits_positive_finite(self.x)
            && f32_bits_positive_finite(self.y)
            && f32_bits_positive_finite(self.z)
    }
}

/// A row-major 3x3 matrix of single-precision bit patterns.
#[derive(Clone, Copy, PartialEq, Eq, Structural, Debug)]
pub struct Mat3Bits {
    pub m11: u32,
    pub m12: u32,
    pub m13: u32,
    pub m21: u32,
    pub m22: u32,
    pub m23: u32,
    pub m31: u32,
    pub m32: u32,
    pub m33: u32,
}

impl Mat3Bits {
    /// True iff every entry encodes a (positive or negative) zero.
    pub open spec fn is_zero(self) -> bool {
        f32_bits_is_zero(self.m11) && f32_bits_is_zero(self.m12) && f32_bits_is_zero(self.m13)
            && f32_bits_is_zero(self.m21) && f32_bits_is_zero(self.m22)
            && f32_bits_is_zero(self.m23) && f32_bits_is_zero(self.m31)
            && f32_bits_is_zero(self.m32) && f32_bits_is_zero(self.m33)
    }

    /// The canonical zero matrix (+0.0 in every entry).
    pub fn zero() -> (m: Mat3Bits)
        ensures
            m == (Mat3Bits {
                m11: POS_ZERO_BITS,
                m12: POS_ZERO_BITS,
                m13: POS_ZERO_BITS,
                m21: POS_ZERO_BITS,
                m22: POS_ZERO_BITS,
                m23: POS_ZERO_BITS,
                m31: POS_ZERO_BITS,
                m32: POS_ZERO_BITS,
                m33: POS_ZERO_BITS,
            }),
            m.is_zero(),
    {
        Mat3Bits {
            m11: POS_ZERO_BITS,
            m12: POS_ZERO_BITS,
            m13: POS_ZERO_BITS,
            m21: POS_ZERO_BITS,
            m22: POS_ZERO_BITS,
            m23: POS_ZERO_BITS,
            m31: POS_ZERO_BITS,
            m32: POS_ZERO_BITS,
            m33: POS_ZERO_BITS,
        }
    }
}

/// A quaternion of single-precision bit patterns, stored `{x, y, z, w}`.
#[derive(Clone, Copy, PartialEq, Eq, Structural, Debug)]
pub struct QuatBits {
    pub x: u32,
    pub y: u32,
    pub z: u32,
    pub w: u32,
}

impl QuatBits {
    /// True iff the pattern is exactly the canonical identity rotation
    /// (0, 0, 0, +1.0).
    pub open spec fn is_identity(self) -> bool {
        self.x == POS_ZERO_BITS && self.y == POS_ZERO_BITS && self.z == POS_ZERO_BITS
            && self.w == ONE_BITS
    }

    /// The canonical identity rotation.
    pub fn identity() -> (q: QuatBits)
        ensures
            q == (QuatBits { x: POS_ZERO_BITS, y: POS_ZERO_BITS, z: POS_ZERO_BITS, w: ONE_BITS }),
            q.is_identity(),
    {
        QuatBits { x: POS_ZERO_BITS, y: POS_ZERO_BITS, z: POS_ZERO_BITS, w: ONE_BITS }
    }
}

} // verus!
