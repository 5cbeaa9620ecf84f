//! IEEE-754 single-precision values as raw bit patterns.

use vstd::prelude::*;

verus! {

/// The bit that holds the sign.
pub const SIGN_MASK: u32 = 0x8000_0000;

/// The pattern of positive infinity. A larger magnitude is a NaN.
pub const INFINITY_BITS: u32 = 0x7f80_0000;

/// The pattern of the machine epsilon, two to the power of -23.
pub const EPSILON_BITS: u32 = 0x3400_0000;

/// A single-precision value, held as its bit pattern.
///
/// Two values are the same `Single` when their patterns are the same, which is
/// finer than numeric equality: the two zeros differ, and a NaN equals itself.
#[derive(Clone, Copy, Debug)]
pub struct Single {
    pub bits: u32,
}

impl Single {
    /// Whether the sign bit is set. Holds of `-0.0` and of half of the NaNs.
    pub open spec fn sign_set(self) -> bool {
        self.bits >= SIGN_MASK
    }

    /// The pattern with the sign bit cleared: the pattern of the absolute value.
    pub open spec fn magnitude(self) -> u32 {
        if self.bits >= SIGN_MASK {
            (self.bits - SIGN_MASK) as u32
        } else {
            self.bits
        }
    }

    /// Whether the value is a NaN.
    pub open spec fn is_nan(self) -> bool {
        self.magnitude() > INFINITY_BITS
    }

    /// Whether the value is a zero of either sign.
    pub open spec fn is_zero(self) -> bool {
        self.magnitude() == 0
    }

    /// Whether the value compares less than zero. False of `-0.0` and of NaNs.
    pub open spec fn is_negative(self) -> bool {
        self.sign_set() && !self.is_zero() && !self.is_nan()
    }

    /// Whether the value compares greater than zero. False of NaNs.
    pub open spec fn is_positive(self) -> bool {
        !self.sign_set() && !self.is_zero() && !self.is_nan()
    }

    /// Whether the absolute value compares less than the machine epsilon.
    /// False of NaNs, whose magnitude lies above infinity.
    pub open spec fn is_tiny(self) -> bool {
        self.magnitude() < EPSILON_BITS
    }

    /// The value with its sign bit inverted and its magnitude kept.
    pub open spec fn negated(self) -> Single {
        if self.bits >= SIGN_MASK {
            Single { bits: (self.bits - SIGN_MASK) as u32 }
        } else {
            Single { bits: (self.bits + SIGN_MASK) as u32 }
        }
    }

    /// Wraps a bit pattern.
    pub fn from_bits(bits: u32) -> (f: Single)
        ensures
            f.bits == bits,
    {
        Single { bits }
    }

    /// The bit pattern.
    pub fn to_bits(self) -> (bits: u32)
        ensures
            bits == self.bits,
    {
        self.bits
    }

    /// The comparison `self < 0.0`.
    pub fn lt_zero(self) -> (r: bool)
        ensures
            r == self.is_negative(),
    {
        SIGN_MASK < self.bits && self.bits <= SIGN_MASK + INFINITY_BITS
    }

    /// The comparison `self > 0.0`.
    pub fn gt_zero(self) -> (r: bool)
        ensures
            r == self.is_positive(),
    {
        0 < self.bits && self.bits <= INFINITY_BITS
    }

    /// The comparison `self == 0.0`, which holds of both zeros.
    pub fn eq_zero(self) -> (r: bool)
        ensures
            r == self.is_zero(),
    {
        self.bits == 0 || self.bits == SIGN_MASK
    }

    /// The absolute value: the same magnitude with the sign bit clear.
    pub fn abs(self) -> (r: Single)
        ensures
            r.bits == self.magnitude(),
            !r.sign_set(),
    {
        let b: u32 = self.bits;
        assert(b & !0x8000_0000u32 == if b >= 0x8000_0000u32 {
            (b - 0x8000_0000u32) as u32
        } else {
            b
        }) by (bit_vector);
        Single { bits: self.bits & !SIGN_MASK }
    }

    /// The comparison `self.abs() < EPSILON`.
    pub fn abs_lt_epsilon(self) -> (r: bool)
        ensures
            r == self.is_tiny(),
    {
        self.abs().bits < EPSILON_BITS
    }

    /// The value with the opposite sign: what unary minus gives.
    pub fn negate(self) -> (r: Single)
        ensures
            r == self.negated(),
    {
        flip_sign_if(self, 1)
    }
}

/// The sign bit of `f`, as 0 or 1, taken from the pattern without a comparison.
pub fn sign_bit(f: Single) -> (bit: u32)
    ensures
        bit == if f.sign_set() { 1u32 } else { 0u32 },
{
    let b: u32 = f.bits;
    assert((b >> 31) & 1 == if b >= 0x8000_0000u32 { 1u32 } else { 0u32 }) by (bit_vector);
    (f.bits >> 31) & 1
}

/// `f` with its sign bit inverted where the lowest bit of `bit` is set, and `f`
/// itself where it is clear. The magnitude is kept in either case, so the
/// operation is exact on zeros, infinities and NaNs.
pub fn flip_sign_if(f: Single, bit: u32) -> (r: Single)
    ensures
        r == if bit % 2 == 1 { f.negated() } else { f },
        r.magnitude() == f.magnitude(),
        r.sign_set() == (f.sign_set() != (bit % 2 == 1)),
{
    let b: u32 = f.bits;
    assert(b ^ (bit << 31) == if bit % 2 == 1 {
        if b >= 0x8000_0000u32 {
            (b - 0x8000_0000u32) as u32
        } else {
            (b + 0x8000_0000u32) as u32
        }
    } else {
        b
    }) by (bit_vector);
    Single { bits: f.bits ^ (bit << 31) }
}

/// Negation inverts the sign bit and nothing else, so it undoes itself, keeps
/// zeros zero and NaNs NaN, and exchanges negative and positive.
pub proof fn lemma_negated(f: Single)
    ensures
        f.negated().negated() == f,
        f.negated().magnitude() == f.magnitude(),
        f.negated().sign_set() == !f.sign_set(),
        f.negated().is_zero() == f.is_zero(),
        f.negated().is_nan() == f.is_nan(),
        f.negated().is_tiny() == f.is_tiny(),
        f.negated().is_negative() == f.is_positive(),
        f.negated().is_positive() == f.is_negative(),
{
}

} // verus!
