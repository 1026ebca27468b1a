//! Similarity scores, held as the bits of an IEEE 754 single-precision number.
//!
//! Two comparisons are needed: the numeric `>`, which is false as soon as one
//! side is not a number and which takes the two zeros for equal, and the IEEE
//! total order, which orders every bit pattern.

use vstd::prelude::*;

verus! {

/// The weight of the sign bit.
pub const SIGN: u32 = 0x8000_0000;

/// The bits of positive infinity: magnitudes above it are not numbers.
pub const INFINITY: u32 = 0x7f80_0000;

/// A single-precision score, by its bits.
#[derive(Clone, Copy, Debug, PartialEq, Eq, Structural)]
pub struct Score {
    pub bits: u32,
}

impl Score {
    /// The bits without the sign.
    pub open spec fn magnitude(self) -> int {
        if self.bits < SIGN {
            self.bits as int
        } else {
            self.bits - SIGN
        }
    }

    /// Whether the bits denote no number.
    pub open spec fn is_nan(self) -> bool {
        self.magnitude() > INFINITY
    }

    /// The place in the IEEE total order: negative patterns come first, the
    /// larger magnitude before the smaller, then the positive ones.
    pub open spec fn place(self) -> int {
        if self.bits < SIGN {
            self.magnitude()
        } else {
            -1 - self.magnitude()
        }
    }

    /// The number as a place on the number line, where the two zeros meet.
    pub open spec fn numeric_place(self) -> int {
        if self.bits < SIGN {
            self.magnitude()
        } else {
            -self.magnitude()
        }
    }

    /// The numeric `self > other`.
    pub open spec fn greater(self, other: Score) -> bool {
        !self.is_nan() && !other.is_nan() && self.numeric_place() > other.numeric_place()
    }

    /// Whether `self` is numerically greater than `other`; false where either
    /// is not a number, and between the two zeros.
    pub fn exceeds(self, other: Score) -> (r: bool)
        ensures
            r == self.greater(other),
    {
        let a: i64 = self.signed();
        let b: i64 = other.signed();
        let limit: i64 = INFINITY as i64;
        if a > limit || a < -limit || b > limit || b < -limit {
            false
        } else {
            a > b
        }
    }

    /// Whether `self` comes strictly after `other` in the IEEE total order.
    pub fn above(self, other: Score) -> (r: bool)
        ensures
            r == (self.place() > other.place()),
    {
        self.ordinal() > other.ordinal()
    }

    fn signed(self) -> (r: i64)
        ensures
            r == self.numeric_place(),
    {
        if self.bits < SIGN {
            self.bits as i64
        } else {
            -((self.bits - SIGN) as i64)
        }
    }

    fn ordinal(self) -> (r: i64)
        ensures
            r == self.place(),
    {
        if self.bits < SIGN {
            self.bits as i64
        } else {
            -1 - ((self.bits - SIGN) as i64)
        }
    }
}

/// Two scores share a place in the total order only if they are the same.
pub proof fn place_identifies_score(a: Score, b: Score)
    ensures
        a.place() == b.place() ==> a == b,
{
}

/// The total order refines the numeric one: a numerically greater score comes
/// later.
pub proof fn total_order_refines_numeric_order(a: Score, b: Score)
    ensures
        a.greater(b) ==> a.place() > b.place(),
{
}

/// The total order by the bits: of two positive patterns the larger comes later,
/// of two negative ones the smaller, and a negative one comes before a positive.
pub proof fn total_order_goes_by_sign_and_bits(a: Score, b: Score)
    ensures
        a.bits < 0x8000_0000 && b.bits < 0x8000_0000 ==> (a.place() > b.place() <==> a.bits
            > b.bits),
        a.bits >= 0x8000_0000 && b.bits >= 0x8000_0000 ==> (a.place() > b.place() <==> a.bits
            < b.bits),
        a.bits < 0x8000_0000 && b.bits >= 0x8000_0000 ==> a.place() > b.place(),
        a.bits == b.bits <==> a.place() == b.place(),
{
}

/// The patterns that denote no number are those beyond infinity, of either sign.
pub proof fn patterns_beyond_infinity_are_no_numbers(a: Score)
    ensures
        a.is_nan() <==> 0x7f80_0000 < a.bits < 0x8000_0000 || a.bits > 0xff80_0000,
{
}

/// The numeric order by the bits: what is no number is neither greater than
/// anything nor exceeded; of two positive numbers the one of larger bits is
/// greater, of two negative ones that of smaller bits; and a positive number is
/// greater than a negative one, unless both are zero.
pub proof fn numeric_order_goes_by_sign_and_bits(a: Score, b: Score)
    ensures
        0x7f80_0000 < a.bits < 0x8000_0000 || a.bits > 0xff80_0000 ==> !a.greater(b),
        0x7f80_0000 < b.bits < 0x8000_0000 || b.bits > 0xff80_0000 ==> !a.greater(b),
        a.bits <= 0x7f80_0000 && b.bits <= 0x7f80_0000 ==> (a.greater(b) <==> a.bits > b.bits),
        0x8000_0000 <= a.bits <= 0xff80_0000 && 0x8000_0000 <= b.bits <= 0xff80_0000 ==> (a.greater(
            b,
        ) <==> a.bits < b.bits),
        a.bits <= 0x7f80_0000 && 0x8000_0000 <= b.bits <= 0xff80_0000 ==> (a.greater(b) <==> !(
        a.bits == 0 && b.bits == 0x8000_0000)),
        a.bits >= 0x8000_0000 && b.bits < 0x8000_0000 ==> !a.greater(b),
{
}

/// What `above` answers, by the bits.
pub proof fn above_goes_by_sign_and_bits(a: Score, b: Score, above: bool)
    requires
        call_ensures(Score::above, (a, b), above),
    ensures
        a.bits < 0x8000_0000 && b.bits < 0x8000_0000 ==> above == (a.bits > b.bits),
        a.bits >= 0x8000_0000 && b.bits >= 0x8000_0000 ==> above == (a.bits < b.bits),
        a.bits < 0x8000_0000 && b.bits >= 0x8000_0000 ==> above,
        a.bits >= 0x8000_0000 && b.bits < 0x8000_0000 ==> !above,
{
}

/// What `exceeds` answers, by the bits.
pub proof fn exceeds_goes_by_sign_and_bits(a: Score, b: Score, exceeds: bool)
    requires
        call_ensures(Score::exceeds, (a, b), exceeds),
    ensures
        0x7f80_0000 < a.bits < 0x8000_0000 || a.bits > 0xff80_0000 ==> !exceeds,
        0x7f80_0000 < b.bits < 0x8000_0000 || b.bits > 0xff80_0000 ==> !exceeds,
        a.bits <= 0x7f80_0000 && b.bits <= 0x7f80_0000 ==> exceeds == (a.bits > b.bits),
        0x8000_0000 <= a.bits <= 0xff80_0000 && 0x8000_0000 <= b.bits <= 0xff80_0000 ==> exceeds
            == (a.bits < b.bits),
        a.bits <= 0x7f80_0000 && 0x8000_0000 <= b.bits <= 0xff80_0000 ==> exceeds == !(a.bits == 0
            && b.bits == 0x8000_0000),
        a.bits >= 0x8000_0000 && b.bits < 0x8000_0000 ==> !exceeds,
{
}

} // verus!
