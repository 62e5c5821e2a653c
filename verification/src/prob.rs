use vstd::prelude::*;

verus! {

/// A lane's probability selector: the percent chance, in steps of ten,
/// that a gate-mode cycle fires at all.  `P100` always fires.
#[derive(Clone, Copy, Debug, PartialEq, Eq, Structural)]
pub enum Prob {
    P10,
    P20,
    P30,
    P40,
    P50,
    P60,
    P70,
    P80,
    P90,
    P100,
}

impl Prob {
    /// The largest value of a uniform draw in `[1, 10]` that still fires.
    pub open spec fn spec_threshold(self) -> int {
        match self {
            Prob::P10 => 1,
            Prob::P20 => 2,
            Prob::P30 => 3,
            Prob::P40 => 4,
            Prob::P50 => 5,
            Prob::P60 => 6,
            Prob::P70 => 7,
            Prob::P80 => 8,
            Prob::P90 => 9,
            Prob::P100 => 10,
        }
    }

    /// The largest value of a uniform draw in `[1, 10]` that still fires.
    pub fn threshold(&self) -> (r: u32)
        ensures
            r == self.spec_threshold(),
    {
        match self {
            Prob::P10 => 1,
            Prob::P20 => 2,
            Prob::P30 => 3,
            Prob::P40 => 4,
            Prob::P50 => 5,
            Prob::P60 => 6,
            Prob::P70 => 7,
            Prob::P80 => 8,
            Prob::P90 => 9,
            Prob::P100 => 10,
        }
    }
}

} // verus!
