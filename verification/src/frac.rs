use vstd::prelude::*;

verus! {

/// A fractional adjustment to a rate selector: one of 0, 1/3, 1/2 or 2/3.
#[derive(Copy, Clone, Debug, PartialEq, Eq, Structural)]
pub enum Frac {
    Zero,
    OneThird,
    OneHalf,
    TwoThirds,
}

impl Frac {
    /// The fraction as a numerator over a denominator of six.
    pub open spec fn spec_sixths(self) -> int {
        match self {
            Frac::Zero => 0,
            Frac::OneThird => 2,
            Frac::OneHalf => 3,
            Frac::TwoThirds => 4,
        }
    }

    /// The fraction as a numerator over a denominator of six.
    pub fn sixths(&self) -> (r: u32)
        ensures
            r == self.spec_sixths(),
    {
        match self {
            Frac::Zero => 0,
            Frac::OneThird => 2,
            Frac::OneHalf => 3,
            Frac::TwoThirds => 4,
        }
    }
}

} // verus!
