//! Doubles as mpv reports them, held as their bit patterns.
use vstd::prelude::*;

verus! {

/// The bit pattern of the double one.
pub const ONE_BITS: u64 = 0x3ff0_0000_0000_0000;

/// The bit pattern of positive infinity. The patterns of the positive doubles ascend from one
/// up to this one with the numbers that they stand for.
pub const INFINITY_BITS: u64 = 0x7ff0_0000_0000_0000;

/// A double, as its IEEE 754 bit pattern.
#[derive(Clone, Copy, Debug, PartialEq, Eq, Structural)]
pub struct Double {
    pub bits: u64,
}

impl Double {
    /// Whether the number is greater than zero. No NaN is.
    pub open spec fn spec_is_positive(self) -> bool {
        0 < self.bits <= INFINITY_BITS
    }

    /// Whether the number is greater than one. No NaN is.
    pub open spec fn exceeds_one(self) -> bool {
        ONE_BITS < self.bits <= INFINITY_BITS
    }

    /// The number, or one where it is not greater than one.
    pub open spec fn spec_at_least_one(self) -> Double {
        if self.exceeds_one() {
            self
        } else {
            Double { bits: ONE_BITS }
        }
    }

    /// Positive zero.
    pub fn zero() -> (r: Double)
        ensures
            r == (Double { bits: 0 }),
    {
        Double { bits: 0 }
    }

    /// Whether the number is greater than zero. No NaN is.
    pub fn is_positive(&self) -> (r: bool)
        ensures
            r == self.spec_is_positive(),
    {
        0 < self.bits && self.bits <= INFINITY_BITS
    }

    /// The number, or one where it is not greater than one.
    pub fn at_least_one(&self) -> (r: Double)
        ensures
            r == self.spec_at_least_one(),
            ONE_BITS <= r.bits <= INFINITY_BITS,
    {
        if ONE_BITS < self.bits && self.bits <= INFINITY_BITS {
            *self
        } else {
            Double { bits: ONE_BITS }
        }
    }
}

/// Of an IEEE 754 pattern, the number is positive if and only if the sign bit is clear, some other bit
/// is set, and it is not a NaN: the exponent is not all ones, or the fraction is zero.
pub proof fn positive_by_parts(d: Double)
    ensures
        d.spec_is_positive() <==> {
            &&& d.bits < 0x8000_0000_0000_0000
            &&& d.bits != 0
            &&& (d.bits / 0x10_0000_0000_0000) % 0x800 != 0x7ff || d.bits % 0x10_0000_0000_0000 == 0
        },
        d.exceeds_one() <==> d.spec_is_positive() && d.bits > 0x3ff0_0000_0000_0000,
{
}

/// What is at least one is the number itself where that is positive and at least one, and else one,
/// the pattern with the exponent 1023 and no fraction. It never is a NaN.
pub proof fn at_least_one_is_the_greater(d: Double)
    ensures
        ONE_BITS == 1023 * 0x10_0000_0000_0000,
        INFINITY_BITS == 2047 * 0x10_0000_0000_0000,
        d.spec_is_positive() && d.bits >= 0x3ff0_0000_0000_0000 ==> d.spec_at_least_one() == d,
        !(d.spec_is_positive() && d.bits >= 0x3ff0_0000_0000_0000) ==> d.spec_at_least_one().bits
            == 0x3ff0_0000_0000_0000,
        d.spec_at_least_one().spec_at_least_one() == d.spec_at_least_one(),
{
}

} // verus!
