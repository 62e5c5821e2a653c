use vstd::prelude::*;

verus! {

use crate::error::Error;
use crate::frac::Frac;

/// A lane's rate selector: divide the clock by a whole number plus a
/// fraction, run at the clock's own rate, or multiply it.
#[derive(Copy, Clone, Debug, PartialEq, Eq, Structural)]
pub enum Rate {
    Div(u32, Frac),
    Unity,
    Mult(u32, Frac),
}

/// Ticks in one cycle of a lane running at `rate` against a clock of
/// `resolution` ticks per beat: the rate's multiplier (`n + frac`,
/// `1`, or `1/n + frac`) times the resolution, floored to whole ticks.
pub open spec fn cycle_of(rate: Rate, resolution: u32) -> int {
    match rate {
        Rate::Unity => resolution as int,
        Rate::Div(n, f) => (6 * n + f.spec_sixths()) * resolution / 6,
        Rate::Mult(n, f) => (6 + f.spec_sixths() * n) * resolution / (6 * n),
    }
}

/// A rate the lane accepts against this resolution: its divisor or
/// multiplier is positive and the cycle comes out between one tick and
/// what the counter can hold.
pub open spec fn rate_valid(rate: Rate, resolution: u32) -> bool {
    &&& match rate {
        Rate::Unity => true,
        Rate::Div(n, _) => n >= 1,
        Rate::Mult(n, _) => n >= 1,
    }
    &&& 1 <= cycle_of(rate, resolution) <= u32::MAX
}

impl Rate {
    /// The length in ticks of one cycle at this rate, or an error when the
    /// rate is degenerate or the cycle would leave the counter's range.
    pub fn cycle_target(&self, resolution: u32) -> (r: Result<u32, Error>)
        ensures
            r is Ok <==> rate_valid(*self, resolution),
            r matches Ok(c) ==> c == cycle_of(*self, resolution),
            r is Err ==> r == Err::<u32, Error>(Error::Cycle),
    {
        let cycle: u128 = match self {
            Rate::Unity => resolution as u128,
            Rate::Div(n, f) => {
                if *n == 0 {
                    return Err(Error::Cycle);
                }
                let s: u128 = f.sixths() as u128;
                proof {
                    lemma_mul_le(
                        6 * (*n as int) + s,
                        resolution as int,
                        6 * 0xffff_ffffint + 4,
                        0xffff_ffff,
                    );
                }
                (6 * (*n as u128) + s) * (resolution as u128) / 6
            },
            Rate::Mult(n, f) => {
                if *n == 0 {
                    return Err(Error::Cycle);
                }
                let s: u128 = f.sixths() as u128;
                proof {
                    lemma_mul_le(s as int, *n as int, 4, 0xffff_ffff);
                    lemma_mul_le(
                        6 + (s as int) * (*n as int),
                        resolution as int,
                        6 + 4 * 0xffff_ffffint,
                        0xffff_ffff,
                    );
                }
                (6 + s * (*n as u128)) * (resolution as u128) / (6 * (*n as u128))
            },
        };
        if cycle == 0 || cycle > u32::MAX as u128 {
            Err(Error::Cycle)
        } else {
            Ok(cycle as u32)
        }
    }
}

/// A product of bounded nonnegative factors is bounded by the product of
/// the bounds.
pub proof fn lemma_mul_le(a: int, b: int, bound_a: int, bound_b: int)
    requires
        0 <= a <= bound_a,
        0 <= b <= bound_b,
    ensures
        a * b <= bound_a * bound_b,
{
    assert(a * b <= bound_a * bound_b) by (nonlinear_arith)
        requires
            0 <= a <= bound_a,
            0 <= b <= bound_b,
    ;
}

} // verus!
