use vstd::prelude::*;

verus! {

use crate::error::Error;

/// The largest number of steps a pattern can hold.
pub const MAX_STEPS: usize = 16;

/// How many onset steps a Euclidean pattern carries.
#[derive(Clone, Copy, Debug, PartialEq, Eq, Structural)]
pub struct Density(pub u32);

/// How many steps a Euclidean pattern has in all.
#[derive(Clone, Copy, Debug, PartialEq, Eq, Structural)]
pub struct Length(pub u32);

/// A fixed-capacity ordered bit vector: the onset pattern of a lane.
/// Mutating operations are bounds-checked and fail with an error instead
/// of panicking.
#[derive(Clone, Debug, PartialEq)]
pub struct Sequence {
    pub steps: Vec<bool>,
}

impl View for Sequence {
    type V = Seq<bool>;

    open spec fn view(&self) -> Seq<bool> {
        self.steps@
    }
}

impl Sequence {
    /// A pattern never grows past the fixed capacity.
    pub open spec fn wf(&self) -> bool {
        self@.len() <= MAX_STEPS
    }

    pub fn new() -> (s: Sequence)
        ensures
            s@ == Seq::<bool>::empty(),
            s.wf(),
    {
        Sequence { steps: Vec::new() }
    }

    pub fn len(&self) -> (n: usize)
        ensures
            n == self@.len(),
    {
        self.steps.len()
    }

    /// The step at `index`, or an error when the index is out of range.
    pub fn get(&self, index: usize) -> (r: Result<bool, Error>)
        ensures
            index < self@.len() ==> r == Ok::<bool, Error>(self@[index as int]),
            index >= self@.len() ==> r == Err::<bool, Error>(Error::Pattern),
    {
        if index < self.steps.len() {
            Ok(self.steps[index])
        } else {
            Err(Error::Pattern)
        }
    }

    /// Append a step, or fail when the pattern is already at capacity.
    pub fn push(&mut self, step: bool) -> (r: Result<(), Error>)
        ensures
            old(self)@.len() < MAX_STEPS ==> r is Ok && final(self)@ == old(self)@.push(step),
            old(self)@.len() >= MAX_STEPS ==> r == Err::<(), Error>(Error::Pattern) && *final(self)
                == *old(self),
            old(self).wf() ==> final(self).wf(),
    {
        if self.steps.len() < MAX_STEPS {
            self.steps.push(step);
            Ok(())
        } else {
            Err(Error::Pattern)
        }
    }
}

} // verus!
