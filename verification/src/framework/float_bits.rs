//! Real-valued measurements as IEEE-754 binary64 bit patterns, with their order.

use vstd::prelude::*;

verus! {

/// An IEEE-754 binary64 number carried by its bit pattern.
///
/// The library stores and orders such numbers; it does no arithmetic on them.
#[derive(Debug, Clone, Copy, PartialEq, Eq, Structural, Hash)]
pub struct FloatBits {
    pub bits: u64,
}

/// The bit pattern of the sign: numbers at or above it carry a minus sign.
pub const SIGN_BIT: u64 = 0x8000_0000_0000_0000;

/// The bit pattern of positive infinity; larger magnitudes are not numbers.
pub const INFINITY_BITS: u64 = 0x7ff0_0000_0000_0000;

/// The bit pattern of 0.5.
pub const BITS_HALF: u64 = 0x3fe0_0000_0000_0000;

/// The bit pattern of 5.0.
pub const BITS_5: u64 = 0x4014_0000_0000_0000;

/// The bit pattern of 10.0.
pub const BITS_10: u64 = 0x4024_0000_0000_0000;

/// The bit pattern of 15.0.
pub const BITS_15: u64 = 0x402e_0000_0000_0000;

/// The bit pattern of 20.0.
pub const BITS_20: u64 = 0x4034_0000_0000_0000;

/// The bit pattern of 30.0.
pub const BITS_30: u64 = 0x403e_0000_0000_0000;

/// The bit pattern of 50.0.
pub const BITS_50: u64 = 0x4049_0000_0000_0000;

/// The bit pattern of 70.0.
pub const BITS_70: u64 = 0x4051_8000_0000_0000;

/// The bit pattern of 75.0.
pub const BITS_75: u64 = 0x4052_c000_0000_0000;

/// The bit pattern of 80.0.
pub const BITS_80: u64 = 0x4054_0000_0000_0000;

/// The bit pattern of 85.0.
pub const BITS_85: u64 = 0x4055_4000_0000_0000;

/// The bit pattern of 90.0.
pub const BITS_90: u64 = 0x4056_8000_0000_0000;

/// The bit pattern of 95.0.
pub const BITS_95: u64 = 0x4057_c000_0000_0000;

/// The bit pattern of 100.0.
pub const BITS_100: u64 = 0x4059_0000_0000_0000;

/// The bit pattern of 200.0.
pub const BITS_200: u64 = 0x4069_0000_0000_0000;

/// The bit pattern of 500.0.
pub const BITS_500: u64 = 0x407f_4000_0000_0000;

impl FloatBits {
    /// The exponent and fraction bits: the position of the absolute value
    /// among the non-negative numbers.
    pub open spec fn magnitude(self) -> nat {
        (self.bits % SIGN_BIT) as nat
    }

    /// Whether the sign bit is set.
    pub open spec fn negative(self) -> bool {
        self.bits >= SIGN_BIT
    }

    /// Whether the pattern stands for no number (NaN).
    pub open spec fn is_nan(self) -> bool {
        self.magnitude() > INFINITY_BITS
    }

    /// The position of the number on the number line: numbers compare as
    /// their positions do, and both zeros stand at 0.
    pub open spec fn position(self) -> int {
        if self.negative() {
            -(self.magnitude() as int)
        } else {
            self.magnitude() as int
        }
    }

    /// `self > other` as binary64 numbers: false where either is NaN.
    pub open spec fn spec_gt(self, other: FloatBits) -> bool {
        !self.is_nan() && !other.is_nan() && self.position() > other.position()
    }

    /// `self >= other` as binary64 numbers: false where either is NaN.
    pub open spec fn spec_ge(self, other: FloatBits) -> bool {
        !self.is_nan() && !other.is_nan() && self.position() >= other.position()
    }

    /// `self < other` as binary64 numbers: false where either is NaN.
    pub open spec fn spec_lt(self, other: FloatBits) -> bool {
        other.spec_gt(self)
    }

    /// Wraps a bit pattern.
    pub fn new(bits: u64) -> (r: FloatBits)
        ensures
            r.bits == bits,
    {
        FloatBits { bits }
    }

    /// Whether the pattern stands for no number.
    pub fn nan(self) -> (r: bool)
        ensures
            r == self.is_nan(),
    {
        self.bits % SIGN_BIT > INFINITY_BITS
    }

    /// Executable position on the number line, for patterns that are numbers.
    fn place(self) -> (r: i128)
        ensures
            r == self.position(),
    {
        let magnitude: u64 = self.bits % SIGN_BIT;
        if self.bits >= SIGN_BIT {
            -(magnitude as i128)
        } else {
            magnitude as i128
        }
    }

    /// A key that orders patterns as their positions do: the position,
    /// raised by the sign bit so that it is not negative.
    pub open spec fn spec_order_key(self) -> u64 {
        (self.position() + SIGN_BIT) as u64
    }

    /// A key that orders patterns as their positions on the number line do.
    pub fn order_key(self) -> (r: u64)
        ensures
            r == self.spec_order_key(),
    {
        let magnitude: u64 = self.bits % SIGN_BIT;
        if self.bits >= SIGN_BIT {
            SIGN_BIT - magnitude
        } else {
            SIGN_BIT + magnitude
        }
    }

    /// Whether `self > other` as binary64 numbers.
    pub fn gt(self, other: FloatBits) -> (r: bool)
        ensures
            r == self.spec_gt(other),
    {
        !self.nan() && !other.nan() && self.place() > other.place()
    }

    /// Whether `self >= other` as binary64 numbers.
    pub fn ge(self, other: FloatBits) -> (r: bool)
        ensures
            r == self.spec_ge(other),
    {
        !self.nan() && !other.nan() && self.place() >= other.place()
    }

    /// Whether `self < other` as binary64 numbers.
    pub fn lt(self, other: FloatBits) -> (r: bool)
        ensures
            r == self.spec_lt(other),
    {
        other.gt(self)
    }
}

/// A real-valued reading: the number, and the decimal text that whoever took
/// the reading rendered it to, at the precision that its reports show.
#[derive(Debug, Clone)]
pub struct Reading {
    pub value: FloatBits,
    pub text: String,
}

impl Reading {
    /// A copy of the reading.
    pub fn duplicate(&self) -> (r: Reading)
        ensures
            r == *self,
    {
        Reading { value: self.value, text: self.text.clone() }
    }
}

/// The order of numbers is strict and total among the patterns that are
/// numbers, and NaN compares false with everything.
pub proof fn lemma_float_order(a: FloatBits, b: FloatBits, c: FloatBits)
    ensures
        !a.spec_gt(a),
        a.spec_gt(b) && b.spec_gt(c) ==> a.spec_gt(c),
        !a.is_nan() && !b.is_nan() ==> (a.spec_gt(b) || b.spec_gt(a) || a.position()
            == b.position()),
        a.spec_ge(b) <==> (a.spec_gt(b) || (!a.is_nan() && !b.is_nan() && a.position()
            == b.position())),
        a.is_nan() ==> !a.spec_gt(b) && !b.spec_gt(a) && !a.spec_ge(b) && !b.spec_ge(a),
{
}

} // verus!
