//! Single-precision numbers held by their IEEE-754 bit pattern.

use vstd::prelude::*;

verus! {

/// A single-precision number, stored as its IEEE-754 bit pattern.
///
/// The control layer never computes with these numbers; it carries them and
/// decides whether two of them compare equal as numbers.
#[derive(Clone, Copy, Debug, PartialEq, Eq, Structural)]
pub struct Scalar {
    pub bits: u32,
}

/// Mask that clears the sign bit of a pattern.
pub const MAGNITUDE_MASK: u32 = 0x7fff_ffff;

/// Magnitude of the infinities; every larger magnitude is a NaN.
pub const INFINITY_MAGNITUDE: u32 = 0x7f80_0000;

/// Bit pattern of the number one.
pub const ONE_BITS: u32 = 0x3f80_0000;

/// The pattern encodes no number (a NaN).
pub open spec fn is_nan(s: Scalar) -> bool {
    (s.bits & MAGNITUDE_MASK) > INFINITY_MAGNITUDE
}

/// The pattern encodes zero, of either sign.
pub open spec fn is_zero(s: Scalar) -> bool {
    (s.bits & MAGNITUDE_MASK) == 0
}

/// Numeric equality of two patterns: a NaN equals nothing, the two zeros equal
/// each other, and any other two numbers are equal when their patterns are.
pub open spec fn same_number(a: Scalar, b: Scalar) -> bool {
    !is_nan(a) && !is_nan(b) && (a.bits == b.bits || (is_zero(a) && is_zero(b)))
}

/// Numeric equality, component by component, of two sequences of equal length.
pub open spec fn same_numbers(a: Seq<Scalar>, b: Seq<Scalar>) -> bool {
    a.len() == b.len() && forall|i: int| 0 <= i < a.len() ==> same_number(#[trigger] a[i], b[i])
}

impl Scalar {
    /// Wraps a bit pattern.
    pub fn from_bits(bits: u32) -> (s: Scalar)
        ensures
            s.bits == bits,
    {
        Scalar { bits }
    }

    /// The number one.
    pub fn one() -> (s: Scalar)
        ensures
            s.bits == ONE_BITS,
            !is_nan(s),
            !is_zero(s),
    {
        assert((ONE_BITS & MAGNITUDE_MASK) == ONE_BITS) by (bit_vector);
        Scalar { bits: ONE_BITS }
    }

    /// Whether the two patterns are equal as numbers.
    pub fn same(&self, other: &Scalar) -> (r: bool)
        ensures
            r == same_number(*self, *other),
    {
        let a: u32 = self.bits & MAGNITUDE_MASK;
        let b: u32 = other.bits & MAGNITUDE_MASK;
        if a > INFINITY_MAGNITUDE || b > INFINITY_MAGNITUDE {
            false
        } else {
            self.bits == other.bits || (a == 0 && b == 0)
        }
    }
}

/// Numeric equality is symmetric.
pub proof fn lemma_same_number_symmetric(a: Scalar, b: Scalar)
    ensures
        same_number(a, b) == same_number(b, a),
{
}

/// A number that is not a NaN equals itself; a NaN does not.
pub proof fn lemma_same_number_reflexive(a: Scalar)
    ensures
        same_number(a, a) == !is_nan(a),
{
}

} // verus!
