//! Resting sizes, carried as the bit pattern of a double-precision number.
//!
//! The book never computes with a size. It asks three things of it: is it not a
//! number, is it below zero, is it zero. All three are read off the IEEE 754
//! bits, so a size passes through unchanged and none of them needs rounding.

use vstd::prelude::*;

verus! {

/// The sign bit of a double.
pub const SIGN_BIT: u64 = 0x8000_0000_0000_0000;

/// The bits of positive infinity: the largest magnitude that is still a number.
pub const INFINITY_BITS: u64 = 0x7FF0_0000_0000_0000;

/// What a size is to the book.
#[derive(Clone, Copy, Debug, PartialEq, Eq, Structural)]
pub enum SizeKind {
    /// Zero of either sign: the level is to be removed.
    Zero,
    /// Above zero, infinity included: the quantity that rests at the level.
    Resting,
    /// Below zero.
    Negative,
    /// Not a number.
    NotANumber,
}

/// A quantity at a price level, as the bits of an IEEE 754 double.
#[derive(Clone, Copy, Debug, PartialEq, Eq, Structural)]
pub struct Size {
    bits: u64,
}

impl Size {
    /// The bit pattern.
    pub closed spec fn spec_bits(self) -> u64 {
        self.bits
    }

    /// The bits without the sign: the pattern of the absolute value.
    pub open spec fn magnitude(self) -> int {
        if self.spec_bits() >= SIGN_BIT {
            self.spec_bits() - SIGN_BIT
        } else {
            self.spec_bits() as int
        }
    }

    /// Whether the sign bit is set.
    pub open spec fn signed(self) -> bool {
        self.spec_bits() >= SIGN_BIT
    }

    /// What the bits denote: all exponent bits set and a mantissa other than zero is
    /// no number; a magnitude of zero is zero whatever the sign; otherwise the sign decides.
    pub open spec fn spec_kind(self) -> SizeKind {
        if self.magnitude() > INFINITY_BITS {
            SizeKind::NotANumber
        } else if self.magnitude() == 0 {
            SizeKind::Zero
        } else if self.signed() {
            SizeKind::Negative
        } else {
            SizeKind::Resting
        }
    }

    /// No quantity at all: below zero, or not a number.
    pub open spec fn malformed(self) -> bool {
        self.spec_kind() == SizeKind::Negative || self.spec_kind() == SizeKind::NotANumber
    }

    /// The size with the given bit pattern.
    pub fn from_bits(bits: u64) -> (size: Size)
        ensures
            size.spec_bits() == bits,
    {
        Size { bits }
    }

    /// The bit pattern of the size.
    #[verifier::when_used_as_spec(spec_bits)]
    pub fn to_bits(self) -> (bits: u64)
        ensures
            bits == self.spec_bits(),
    {
        self.bits
    }

    /// Tells zero, a resting quantity, a negative one and a non-number apart.
    #[verifier::when_used_as_spec(spec_kind)]
    pub fn kind(self) -> (kind: SizeKind)
        ensures
            kind == self.spec_kind(),
    {
        let signed = self.bits >= SIGN_BIT;
        let magnitude: u64 = if signed {
            self.bits - SIGN_BIT
        } else {
            self.bits
        };
        if magnitude > INFINITY_BITS {
            SizeKind::NotANumber
        } else if magnitude == 0 {
            SizeKind::Zero
        } else if signed {
            SizeKind::Negative
        } else {
            SizeKind::Resting
        }
    }
}

} // verus!
