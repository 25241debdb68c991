//! Single-precision numbers held by their IEEE 754 bit pattern, with the
//! comparisons that the format defines.
//!
//! Nothing here computes with such a number: a value is only carried,
//! stored and compared, which the bit pattern alone decides.
use vstd::prelude::*;

verus! {

/// A binary32 value: one sign bit, eight exponent bits, twenty-three
/// fraction bits, from the top down.
#[derive(Clone, Copy, Debug, PartialEq, Eq, Structural)]
pub struct Binary32 {
    pub bits: u32,
}

impl Binary32 {
    /// Whether the sign bit is set.
    pub open spec fn is_negative(self) -> bool {
        self.bits >= 0x8000_0000
    }

    /// The pattern without its sign bit.
    pub open spec fn magnitude(self) -> int {
        if self.is_negative() {
            self.bits - 0x8000_0000
        } else {
            self.bits as int
        }
    }

    /// Not a number: an exponent of all ones with a fraction that is not
    /// zero.
    pub open spec fn is_nan(self) -> bool {
        self.magnitude() > 0x7F80_0000
    }

    /// Where a number stands on the line, for one that is not a NaN: the
    /// magnitudes of the format grow with the patterns, so the pattern
    /// without its sign, negated under a sign, orders the values. Both
    /// zeros stand at 0.
    pub open spec fn rank(self) -> int {
        if self.is_negative() {
            -self.magnitude()
        } else {
            self.magnitude()
        }
    }

    /// Neither side is a NaN.
    pub open spec fn ordered(self, other: Binary32) -> bool {
        !self.is_nan() && !other.is_nan()
    }

    /// Numeric `<`: false when either side is a NaN.
    pub open spec fn lt(self, other: Binary32) -> bool {
        self.ordered(other) && self.rank() < other.rank()
    }

    /// Numeric `==`: false when either side is a NaN, true of the two
    /// zeros.
    pub open spec fn eq(self, other: Binary32) -> bool {
        self.ordered(other) && self.rank() == other.rank()
    }

    /// Numeric `<=`.
    pub open spec fn le(self, other: Binary32) -> bool {
        self.ordered(other) && self.rank() <= other.rank()
    }

    /// The comparisons cohere as those of numbers do: `<` is irreflexive
    /// and transitive, `<=` is `<` or `==`, and of two numbers neither of
    /// which is a NaN exactly one of `<`, `==` and `>` holds.
    pub proof fn comparisons_cohere(a: Binary32, b: Binary32, c: Binary32)
        ensures
            !a.lt(a),
            a.lt(b) && b.lt(c) ==> a.lt(c),
            a.le(b) == (a.lt(b) || a.eq(b)),
            a.eq(b) == b.eq(a),
            a.ordered(b) ==> (a.lt(b) || a.eq(b) || b.lt(a)),
            !(a.lt(b) && a.eq(b)) && !(a.lt(b) && b.lt(a)),
            a.eq(a) == !a.is_nan(),
    {
    }

    /// The pattern of 0.0.
    pub open spec fn zero() -> Binary32 {
        Binary32 { bits: 0 }
    }

    /// The pattern of 1.0.
    pub open spec fn one() -> Binary32 {
        Binary32 { bits: 0x3F80_0000 }
    }

    /// The pattern of -1.0.
    pub open spec fn minus_one() -> Binary32 {
        Binary32 { bits: 0xBF80_0000 }
    }

    /// The number -1.0.
    pub fn new_minus_one() -> (v: Binary32)
        ensures
            v == Self::minus_one(),
    {
        Binary32 { bits: 0xBF80_0000 }
    }

    /// The number 0.0.
    pub fn new_zero() -> (v: Binary32)
        ensures
            v == Self::zero(),
    {
        Binary32 { bits: 0 }
    }

    /// The number 1.0.
    pub fn new_one() -> (v: Binary32)
        ensures
            v == Self::one(),
    {
        Binary32 { bits: 0x3F80_0000 }
    }

    pub fn from_bits(bits: u32) -> (v: Binary32)
        ensures
            v.bits == bits,
    {
        Binary32 { bits }
    }

    pub fn to_bits(self) -> (bits: u32)
        ensures
            bits == self.bits,
    {
        self.bits
    }

    fn magnitude_bits(self) -> (m: u32)
        ensures
            m == self.magnitude(),
    {
        if self.bits >= 0x8000_0000 {
            self.bits - 0x8000_0000
        } else {
            self.bits
        }
    }

    pub fn nan(self) -> (b: bool)
        ensures
            b == self.is_nan(),
    {
        self.magnitude_bits() > 0x7F80_0000
    }

    fn rank_of(self) -> (r: i64)
        ensures
            r == self.rank(),
    {
        let m: u32 = self.magnitude_bits();
        if self.bits >= 0x8000_0000 {
            let r: i64 = 0 - (m as i64);
            r
        } else {
            m as i64
        }
    }

    pub fn less_than(self, other: Binary32) -> (b: bool)
        ensures
            b == self.lt(other),
    {
        !self.nan() && !other.nan() && self.rank_of() < other.rank_of()
    }

    pub fn equal_to(self, other: Binary32) -> (b: bool)
        ensures
            b == self.eq(other),
    {
        !self.nan() && !other.nan() && self.rank_of() == other.rank_of()
    }

    pub fn less_equal(self, other: Binary32) -> (b: bool)
        ensures
            b == self.le(other),
    {
        !self.nan() && !other.nan() && self.rank_of() <= other.rank_of()
    }
}

} // verus!
