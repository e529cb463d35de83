use vstd::prelude::*;

verus! {

/// An exact fraction `num / den` of two integers.
///
/// Coordinates are kept as fractions so that every value handed to the
/// graphics layer is known exactly; rounding to a machine float happens only
/// where the value leaves the library. A fraction whose denominator is zero
/// stands for an undefined coordinate.
#[derive(Clone, Copy, Debug, PartialEq, Eq, Structural)]
pub struct Ratio {
    pub num: i64,
    pub den: i64,
}

impl Ratio {
    /// The fraction denotes a number.
    pub open spec fn defined(self) -> bool {
        self.den != 0
    }

    /// `self < other`, for fractions with positive denominators.
    pub open spec fn less_than(self, other: Ratio) -> bool {
        self.num * other.den < other.num * self.den
    }

    /// `-1 <= self <= 1`, for a fraction with a positive denominator.
    pub open spec fn in_unit_range(self) -> bool {
        -self.den <= self.num <= self.den
    }

    pub fn new(num: i64, den: i64) -> (r: Ratio)
        ensures
            r.num == num,
            r.den == den,
    {
        Ratio { num, den }
    }

    pub fn is_defined(&self) -> (b: bool)
        ensures
            b == self.defined(),
    {
        self.den != 0
    }
}

} // verus!
