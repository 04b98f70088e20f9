//! Single-precision numbers as bit patterns.
//!
//! Pointer coordinates and scroll deltas only pass through this crate; the one
//! operation ever applied to them is a change of sign. Both are exact on the
//! IEEE 754 binary32 encoding, so a number is held as its 32 bits: bit 31 is
//! the sign, the low 31 bits are exponent and fraction.

use vstd::prelude::*;

verus! {

/// The sign bit of a binary32 pattern.
pub const SIGN_MASK: u32 = 0x8000_0000;

/// The exponent and fraction bits of a binary32 pattern.
pub const MAGNITUDE_MASK: u32 = 0x7fff_ffff;

/// A single-precision number, held as its IEEE 754 bit pattern.
#[derive(Clone, Copy, Debug, PartialEq, Eq, Structural)]
pub struct Scalar {
    pub bits: u32,
}

impl Scalar {
    /// Whether the sign bit is set.
    pub open spec fn sign(self) -> bool {
        self.bits & SIGN_MASK != 0
    }

    /// Exponent and fraction, without the sign.
    pub open spec fn magnitude(self) -> u32 {
        self.bits & MAGNITUDE_MASK
    }

    /// The number with the opposite sign and the same magnitude.
    pub open spec fn negated(self) -> Scalar {
        Scalar { bits: self.bits ^ SIGN_MASK }
    }

    pub fn from_bits(bits: u32) -> (s: Scalar)
        ensures
            s.bits == bits,
    {
        Scalar { bits }
    }

    pub fn to_bits(self) -> (bits: u32)
        ensures
            bits == self.bits,
    {
        self.bits
    }

    /// Changes the sign and nothing else.
    pub fn neg(self) -> (s: Scalar)
        ensures
            s == self.negated(),
    {
        Scalar { bits: self.bits ^ SIGN_MASK }
    }
}

/// Negation flips the sign bit and leaves exponent and fraction alone.
pub proof fn lemma_negated_flips_sign_only(s: Scalar)
    ensures
        s.negated().sign() == !s.sign(),
        s.negated().magnitude() == s.magnitude(),
{
    let b = s.bits;
    assert(((b ^ 0x8000_0000u32) & 0x8000_0000u32 != 0) == !(b & 0x8000_0000u32 != 0))
        by (bit_vector);
    assert((b ^ 0x8000_0000u32) & 0x7fff_ffffu32 == b & 0x7fff_ffffu32) by (bit_vector);
}

/// A pair of numbers: a position on screen, or a scroll delta.
#[derive(Clone, Copy, Debug, PartialEq, Eq, Structural)]
pub struct Point {
    pub x: Scalar,
    pub y: Scalar,
}

impl Point {
    pub fn new(x: Scalar, y: Scalar) -> (p: Point)
        ensures
            p.x == x,
            p.y == y,
    {
        Point { x, y }
    }

    pub fn from_bits(x: u32, y: u32) -> (p: Point)
        ensures
            p.x.bits == x,
            p.y.bits == y,
    {
        Point { x: Scalar { bits: x }, y: Scalar { bits: y } }
    }
}

} // verus!
