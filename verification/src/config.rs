use vstd::prelude::*;

verus! {

use crate::error::Error;
use crate::euclid::{euclid, euclid_seq};
use crate::pattern::{Density, Length, Sequence, MAX_STEPS};
use crate::prob::Prob;
use crate::pwm::Pwm;
use crate::rate::Rate;

/// Which synthesis a lane runs: a probability-gated pulse, or a Euclidean
/// onset pattern.
#[derive(Clone, Copy, Debug, PartialEq, Eq, Structural)]
pub enum OutputType {
    Gate,
    Euclid,
}

/// Everything a lane is configured with.  The stored sequence is always
/// the Euclidean pattern of the stored density and length; gate mode
/// simply does not read it.
#[derive(Clone, Debug, PartialEq)]
pub struct Config {
    pub density: Density,
    pub length: Length,
    pub output_type: OutputType,
    pub prob: Prob,
    pub pwm: Pwm,
    pub rate: Rate,
    pub sequence: Sequence,
}

impl Config {
    /// The pattern parameters stay within capacity, the density within
    /// the length, and the sequence is their Euclidean pattern.
    pub open spec fn wf(&self) -> bool {
        &&& 1 <= self.length.0 <= MAX_STEPS
        &&& self.density.0 <= self.length.0
        &&& self.sequence@ == euclid_seq(self.density.0 as int, self.length.0 as int)
    }

    /// The default configuration: a gate lane at the clock's own rate,
    /// half duty cycle, always firing, over a four-in-sixteen pattern.
    pub fn new() -> (c: Config)
        ensures
            c.wf(),
            c.density == (Density(4)),
            c.length == (Length(16)),
            c.output_type == OutputType::Gate,
            c.prob == Prob::P100,
            c.pwm == Pwm::P50,
            c.rate == Rate::Unity,
    {
        let mut sequence = Sequence::new();
        let filled = euclid(Density(4), Length(16), &mut sequence);
        proof {
            assert(filled is Ok);
        }
        Config {
            density: Density(4),
            length: Length(16),
            output_type: OutputType::Gate,
            prob: Prob::P100,
            pwm: Pwm::P50,
            rate: Rate::Unity,
            sequence,
        }
    }

    pub fn density(&self) -> (r: Density)
        ensures
            r == self.density,
    {
        self.density
    }

    pub fn length(&self) -> (r: Length)
        ensures
            r == self.length,
    {
        self.length
    }

    pub fn output_type(&self) -> (r: OutputType)
        ensures
            r == self.output_type,
    {
        self.output_type
    }

    pub fn prob(&self) -> (r: Prob)
        ensures
            r == self.prob,
    {
        self.prob
    }

    pub fn pwm(&self) -> (r: Pwm)
        ensures
            r == self.pwm,
    {
        self.pwm
    }

    pub fn rate(&self) -> (r: Rate)
        ensures
            r == self.rate,
    {
        self.rate
    }

    pub fn sequence(&self) -> (r: &Sequence)
        ensures
            r == self.sequence,
    {
        &self.sequence
    }

    /// Store a new pattern length and density and regenerate the
    /// sequence; a rejected pair leaves the configuration as it was.
    pub fn set_sequence(&mut self, length: Length, density: Density) -> (r: Result<(), Error>)
        requires
            old(self).wf(),
        ensures
            r is Ok <==> (1 <= length.0 <= MAX_STEPS && density.0 <= length.0),
            r is Ok ==> *final(self) == (Config {
                density,
                length,
                sequence: final(self).sequence,
                ..*old(self)
            }) && final(self).wf(),
            r is Err ==> *final(self) == *old(self) && r == Err::<(), Error>(Error::Pattern),
    {
        match euclid(density, length, &mut self.sequence) {
            Ok(u) => {
                self.length = length;
                self.density = density;
                Ok(u)
            },
            Err(e) => Err(e),
        }
    }

    pub fn set_output_type(&mut self, output_type: OutputType)
        ensures
            *final(self) == (Config { output_type, ..*old(self) }),
    {
        self.output_type = output_type;
    }

    pub fn set_prob(&mut self, prob: Prob)
        ensures
            *final(self) == (Config { prob, ..*old(self) }),
    {
        self.prob = prob;
    }

    pub fn set_pwm(&mut self, pwm: Pwm)
        ensures
            *final(self) == (Config { pwm, ..*old(self) }),
    {
        self.pwm = pwm;
    }

    pub fn set_rate(&mut self, rate: Rate)
        ensures
            *final(self) == (Config { rate, ..*old(self) }),
    {
        self.rate = rate;
    }
}

} // verus!
