use vstd::prelude::*;

verus! {

use crate::prob::Prob;

/// The fixed seed every lane's generator starts from.
pub const RNG_SEED: u64 = 0;

/// The state pair of oorandom's `Rand32` right after seeding: a function
/// of the seed alone.
pub uninterp spec fn rand32_new_state(seed: u64) -> (u64, u64);

/// The uniform draw in `[1, 10]` that oorandom's `Rand32` produces from a
/// state pair, together with the successor state word: a function of the
/// state pair alone.
pub uninterp spec fn rand32_draw10(state: u64, inc: u64) -> (u32, u64);

/// Relies on oorandom's `Rand32::new`: seeding is deterministic, and
/// `state()` only reads the state pair out.
#[verifier::external_body]
fn seed_state(seed: u64) -> (r: (u64, u64))
    ensures
        r == rand32_new_state(seed),
{
    oorandom::Rand32::new(seed).state()
}

/// Relies on oorandom's `Rand32::rand_range`: the draw lies within the
/// given bounds, the lower included and the upper excluded, and depends on
/// the state pair alone; `from_state()` and `state()` only move the pair.
#[verifier::external_body]
fn draw10(state: u64, inc: u64) -> (r: (u32, u64))
    ensures
        r == rand32_draw10(state, inc),
        1 <= r.0 <= 10,
{
    let mut rng = oorandom::Rand32::from_state((state, inc));
    let value = rng.rand_range(1..11);
    (value, rng.state().0)
}

/// A lane's own pseudo-random generator, held as the plain state pair of
/// oorandom's `Rand32` so that every draw is a function of this value.
#[derive(Clone, Copy, Debug, PartialEq, Eq, Structural)]
pub struct Rng {
    pub state: u64,
    pub inc: u64,
}

/// What one probability decision does to a generator: at `P100` it fires
/// without drawing; otherwise it draws once and fires when the draw is at
/// or under the probability's threshold.
pub open spec fn fire_spec(r: Rng, prob: Prob) -> (bool, Rng) {
    if prob == Prob::P100 {
        (true, r)
    } else {
        let d = rand32_draw10(r.state, r.inc);
        (d.0 <= prob.spec_threshold(), Rng { state: d.1, inc: r.inc })
    }
}

impl Rng {
    /// A generator seeded deterministically: no time, no hidden entropy.
    pub fn new(seed: u64) -> (r: Rng)
        ensures
            (r.state, r.inc) == rand32_new_state(seed),
    {
        let pair = seed_state(seed);
        Rng { state: pair.0, inc: pair.1 }
    }

    /// Decide whether a cycle fires.  The result and the new state are a
    /// function of the old state and the probability alone, so identical
    /// runs reproduce the same fire/no-fire sequence.
    pub fn rand_bool(&mut self, prob: Prob) -> (fired: bool)
        ensures
            fired == fire_spec(*old(self), prob).0,
            *final(self) == fire_spec(*old(self), prob).1,
    {
        match prob {
            Prob::P100 => true,
            _ => {
                let d = draw10(self.state, self.inc);
                self.state = d.1;
                let threshold = prob.threshold();
                d.0 <= threshold
            },
        }
    }
}

} // verus!
