//! Exact predicate results and the tolerance facade of the math layer.
use vstd::prelude::*;

verus! {

/// Result of a predicate test: the sign of an orientation determinant.
#[derive(Debug, Clone, Copy, PartialEq, Eq, Structural)]
pub enum Orientation {
    /// Points are oriented counter-clockwise / point is inside circle
    Positive,
    /// Points are collinear/coplanar / point is on circle
    Zero,
    /// Points are oriented clockwise / point is outside circle
    Negative,
}

impl Orientation {
    /// The sign as an integer: 1, 0 or -1.
    pub open spec fn sign(self) -> int {
        match self {
            Orientation::Positive => 1,
            Orientation::Zero => 0,
            Orientation::Negative => -1,
        }
    }

    /// The orientation with the opposite sign.
    pub open spec fn reversed_spec(self) -> Orientation {
        match self {
            Orientation::Positive => Orientation::Negative,
            Orientation::Zero => Orientation::Zero,
            Orientation::Negative => Orientation::Positive,
        }
    }

    /// Check if the orientation is positive.
    pub fn is_positive(&self) -> (b: bool)
        ensures
            b == (*self == Orientation::Positive),
    {
        matches!(self, Orientation::Positive)
    }

    /// Check if the orientation is negative.
    pub fn is_negative(&self) -> (b: bool)
        ensures
            b == (*self == Orientation::Negative),
    {
        matches!(self, Orientation::Negative)
    }

    /// Check if the orientation is zero (degenerate).
    pub fn is_zero(&self) -> (b: bool)
        ensures
            b == (*self == Orientation::Zero),
    {
        matches!(self, Orientation::Zero)
    }

    /// Check if the orientation is non-zero.
    pub fn is_non_zero(&self) -> (b: bool)
        ensures
            b == (*self != Orientation::Zero),
    {
        !self.is_zero()
    }

    /// Get the sign as an integer (-1, 0, or 1).
    pub fn as_i32(&self) -> (r: i32)
        ensures
            r == self.sign(),
    {
        match self {
            Orientation::Positive => 1,
            Orientation::Zero => 0,
            Orientation::Negative => -1,
        }
    }

    /// Reverse the orientation (multiply by -1).
    pub fn reverse(&self) -> (r: Self)
        ensures
            r == self.reversed_spec(),
    {
        match self {
            Orientation::Positive => Orientation::Negative,
            Orientation::Zero => Orientation::Zero,
            Orientation::Negative => Orientation::Positive,
        }
    }
}

/// Reversing multiplies the sign by -1, and reversing twice gives the
/// orientation back.
pub proof fn lemma_orientation_reverse(o: Orientation)
    ensures
        o.reversed_spec().sign() == -o.sign(),
        o.reversed_spec().reversed_spec() == o,
        (o.reversed_spec() == o) == (o == Orientation::Zero),
{
}

/// Global tolerance functions using the default context.
#[derive(Debug, Clone, Copy)]
pub struct Tolerance;

} // verus!
