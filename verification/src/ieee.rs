//! Real-valued quantities as IEEE-754 bit patterns, with the ordering that the
//! standard gives them.
//!
//! The library compares such quantities and moves them about; it never does
//! arithmetic on them. A caller converts at its edge, bit for bit.

use vstd::prelude::*;

verus! {

/// Number of single-precision bit patterns with the sign bit clear.
pub const SINGLE_SIGN: u32 = 0x8000_0000;

/// Bit pattern of positive infinity, single precision. Every larger magnitude is a NaN.
pub const SINGLE_INFINITY: u32 = 0x7f80_0000;

/// Number of double-precision bit patterns with the sign bit clear.
pub const DOUBLE_SIGN: u64 = 0x8000_0000_0000_0000;

/// Bit pattern of positive infinity, double precision. Every larger magnitude is a NaN.
pub const DOUBLE_INFINITY: u64 = 0x7ff0_0000_0000_0000;

/// A single-precision number, held as its bit pattern.
#[derive(Clone, Copy, Debug, PartialEq, Eq, Structural)]
pub struct Single {
    pub bits: u32,
}

impl Single {
    /// The pattern without its sign bit.
    pub open spec fn magnitude(self) -> int {
        self.bits as int % SINGLE_SIGN as int
    }

    /// Whether the sign bit is set.
    pub open spec fn negative(self) -> bool {
        self.bits >= SINGLE_SIGN
    }

    /// Whether the pattern encodes no number.
    pub open spec fn is_nan(self) -> bool {
        self.magnitude() > SINGLE_INFINITY as int
    }

    /// An integer that orders the patterns as the numbers they encode are
    /// ordered: the magnitude, negated under a set sign bit. Both zeros map to 0.
    pub open spec fn key(self) -> int {
        if self.negative() {
            -self.magnitude()
        } else {
            self.magnitude()
        }
    }

    /// `self < other` as IEEE-754 defines it: false whenever either side is a NaN.
    pub open spec fn spec_lt(self, other: Single) -> bool {
        !self.is_nan() && !other.is_nan() && self.key() < other.key()
    }

    /// `self == other` as IEEE-754 defines it: a NaN equals nothing, and the two
    /// zeros equal each other.
    pub open spec fn spec_same(self, other: Single) -> bool {
        !self.is_nan() && !other.is_nan() && self.key() == other.key()
    }

    /// Whether the number is positive or negative zero.
    pub open spec fn spec_is_zero(self) -> bool {
        self.magnitude() == 0
    }

    /// The number with the given bit pattern.
    pub fn from_bits(bits: u32) -> (r: Single)
        ensures
            r.bits == bits,
    {
        Single { bits }
    }

    /// The bit pattern of the number.
    pub fn to_bits(self) -> (r: u32)
        ensures
            r == self.bits,
    {
        self.bits
    }

    fn ordered_key(self) -> (r: i64)
        ensures
            r == self.key(),
    {
        let magnitude: u32 = self.bits % SINGLE_SIGN;
        if self.bits >= SINGLE_SIGN {
            -(magnitude as i64)
        } else {
            magnitude as i64
        }
    }

    /// Whether the pattern encodes no number.
    pub fn nan(self) -> (r: bool)
        ensures
            r == self.is_nan(),
    {
        self.bits % SINGLE_SIGN > SINGLE_INFINITY
    }

    /// Whether the number is positive or negative zero.
    pub fn is_zero(self) -> (r: bool)
        ensures
            r == self.spec_is_zero(),
    {
        self.bits % SINGLE_SIGN == 0
    }

    /// `self < other`.
    pub fn lt(self, other: Single) -> (r: bool)
        ensures
            r == self.spec_lt(other),
    {
        !self.nan() && !other.nan() && self.ordered_key() < other.ordered_key()
    }

    /// `self > other`.
    pub fn gt(self, other: Single) -> (r: bool)
        ensures
            r == other.spec_lt(self),
    {
        other.lt(self)
    }
}

/// A double-precision number, held as its bit pattern.
#[derive(Clone, Copy, Debug, PartialEq, Eq, Structural)]
pub struct Double {
    pub bits: u64,
}

impl Double {
    /// The pattern without its sign bit.
    pub open spec fn magnitude(self) -> int {
        self.bits as int % DOUBLE_SIGN as int
    }

    /// Whether the sign bit is set.
    pub open spec fn negative(self) -> bool {
        self.bits >= DOUBLE_SIGN
    }

    /// Whether the pattern encodes no number.
    pub open spec fn is_nan(self) -> bool {
        self.magnitude() > DOUBLE_INFINITY as int
    }

    /// An integer that orders the patterns as the numbers they encode are
    /// ordered: the magnitude, negated under a set sign bit. Both zeros map to 0.
    pub open spec fn key(self) -> int {
        if self.negative() {
            -self.magnitude()
        } else {
            self.magnitude()
        }
    }

    /// `self < other` as IEEE-754 defines it: false whenever either side is a NaN.
    pub open spec fn spec_lt(self, other: Double) -> bool {
        !self.is_nan() && !other.is_nan() && self.key() < other.key()
    }

    /// Positive infinity.
    pub open spec fn spec_infinity() -> Double {
        Double { bits: DOUBLE_INFINITY }
    }

    /// `other` is `self` or lies strictly below it.
    pub open spec fn not_below(self, other: Double) -> bool {
        other == self || other.spec_lt(self)
    }

    /// The number with the given bit pattern.
    pub fn from_bits(bits: u64) -> (r: Double)
        ensures
            r.bits == bits,
    {
        Double { bits }
    }

    /// The bit pattern of the number.
    pub fn to_bits(self) -> (r: u64)
        ensures
            r == self.bits,
    {
        self.bits
    }

    /// Positive infinity.
    pub fn infinity() -> (r: Double)
        ensures
            r == Double::spec_infinity(),
    {
        Double { bits: DOUBLE_INFINITY }
    }

    fn ordered_key(self) -> (r: i128)
        ensures
            r == self.key(),
    {
        let magnitude: u64 = self.bits % DOUBLE_SIGN;
        if self.bits >= DOUBLE_SIGN {
            -(magnitude as i128)
        } else {
            magnitude as i128
        }
    }

    /// Whether the pattern encodes no number.
    pub fn nan(self) -> (r: bool)
        ensures
            r == self.is_nan(),
    {
        self.bits % DOUBLE_SIGN > DOUBLE_INFINITY
    }

    /// `self < other`.
    pub fn lt(self, other: Double) -> (r: bool)
        ensures
            r == self.spec_lt(other),
    {
        !self.nan() && !other.nan() && self.ordered_key() < other.ordered_key()
    }
}

} // verus!
