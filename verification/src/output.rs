use vstd::prelude::*;

verus! {

use vstd::arithmetic::div_mod::{
    lemma_div_denominator,
    lemma_div_multiples_vanish,
    lemma_mod_bound,
};
use crate::config::{Config, OutputType};
use crate::error::Error;
use crate::frac::Frac;
use crate::pattern::{Density, Length, MAX_STEPS};
use crate::prob::Prob;
use crate::pwm::{off_of, percent_off_spec, Pwm};
use crate::rate::{cycle_of, rate_valid, Rate};
use crate::rng::{fire_spec, Rng};
use crate::tick::Tick;

/// The per-tick reading of one lane: level, step position, and the two
/// change flags, together with the lane's own generator.
#[derive(Clone, Debug, PartialEq)]
pub struct OutputState {
    pub index: usize,
    pub index_change: bool,
    pub on: bool,
    pub on_change: bool,
    pub rng: Rng,
}

/// The readings of every lane, in lane order.
pub type OutputStates = Vec<OutputState>;

impl OutputState {
    /// The reading a fresh lane starts from: off, at step zero, with its
    /// generator freshly seeded from the fixed seed.
    pub open spec fn initial(self) -> bool {
        &&& self.index == 0
        &&& !self.index_change
        &&& !self.on
        &&& !self.on_change
        &&& (self.rng.state, self.rng.inc) == crate::rng::rand32_new_state(crate::rng::RNG_SEED)
    }
}

impl Default for OutputState {
    fn default() -> (s: Self)
        ensures
            s.initial(),
    {
        OutputState {
            index: 0,
            index_change: false,
            on: false,
            on_change: false,
            rng: Rng::new(crate::rng::RNG_SEED),
        }
    }
}

/// Whether this tick opens a new cycle of a lane.
pub open spec fn starts_cycle(count: u32, cycle: u32) -> bool {
    (count as int) % (cycle as int) == 0
}

/// Whether this tick sits on an off point within the cycle.
pub open spec fn hits_off(count: u32, cycle: u32, off: u32) -> bool {
    ((count as int) % (cycle as int)) % (off as int) == 0
}

/// The step a lane moves to at a cycle start: the first cycle lands on
/// step zero, every later one advances by one, wrapping at the length.
pub open spec fn next_index_spec(prev: Option<usize>, length: int) -> int {
    match prev {
        Option::None => 0,
        Option::Some(i) => (i + 1) % length,
    }
}

/// One output lane: its configuration and the targets derived from it.
/// `index` is the step the lane last played, `None` before the first
/// cycle start.
#[derive(Debug, PartialEq)]
pub struct Output {
    pub config: Config,
    pub cycle_target: u32,
    pub index: Option<usize>,
    pub off_target: u32,
    pub resolution: u32,
}

impl Output {
    /// The lane's targets agree with its configuration: the cycle length
    /// is the one its rate gives; the off point — which only gate mode
    /// reads — is positive on a gate lane, and for a percentage width,
    /// whose off point does not depend on the clock, it is the one the
    /// width gives.  The step position stays within the pattern
    /// capacity.
    pub open spec fn wf(&self) -> bool {
        &&& self.config.wf()
        &&& rate_valid(self.config.rate, self.resolution)
        &&& self.cycle_target == cycle_of(self.config.rate, self.resolution)
        &&& self.config.output_type is Gate ==> self.off_target >= 1
        &&& !(self.config.pwm is Pew) ==> self.off_target == percent_off_spec(
            self.config.pwm.spec_tenths(),
            self.cycle_target as int,
        )
        &&& self.index matches Some(i) ==> i < MAX_STEPS
    }

    /// Everything one tick does to a lane and its reading.  At a cycle
    /// start the step advances; then the probability decides the level
    /// of a gate lane, while the pattern decides the level of a euclid
    /// lane and leaves the generator untouched.  At an off point a gate
    /// lane's level falls; a euclid step keeps its level for the whole
    /// step, a duty cycle of one.  Any other tick changes nothing.  The
    /// change flags compare against the previous tick.
    pub open spec fn tick_spec(
        pre: Output,
        pre_s: OutputState,
        count: u32,
        post: Output,
        post_s: OutputState,
    ) -> bool {
        let start = starts_cycle(count, pre.cycle_target);
        let ni = next_index_spec(pre.index, pre.config.length.0 as int);
        let fire = fire_spec(pre_s.rng, pre.config.prob);
        &&& post.config == pre.config
        &&& post.cycle_target == pre.cycle_target
        &&& post.off_target == pre.off_target
        &&& post.resolution == pre.resolution
        &&& post.index == (if start {
            Some(ni as usize)
        } else {
            pre.index
        })
        &&& post_s.index as int == (if start {
            ni
        } else {
            pre_s.index as int
        })
        &&& post_s.on == (if start {
            match pre.config.output_type {
                OutputType::Gate => fire.0,
                OutputType::Euclid => pre.config.sequence@[ni],
            }
        } else if pre.config.output_type is Gate && hits_off(
            count,
            pre.cycle_target,
            pre.off_target,
        ) {
            false
        } else {
            pre_s.on
        })
        &&& post_s.rng == (if start && pre.config.output_type == OutputType::Gate {
            fire.1
        } else {
            pre_s.rng
        })
        &&& post_s.on_change == (post_s.on != pre_s.on)
        &&& post_s.index_change == (post_s.index != pre_s.index)
    }

    /// Build a lane from a configuration, deriving its targets against
    /// the given clock.  A rate whose cycle leaves the counter's range
    /// is rejected, as is — on a gate lane, the only mode that reads an
    /// off point — a pulse width whose off point would be zero ticks;
    /// per-tick evaluation can then never fail.
    pub fn new(resolution: u32, tick: &Tick, config: Config) -> (r: Result<Output, Error>)
        requires
            config.wf(),
            tick.wf(),
        ensures
            r is Ok <==> rate_valid(config.rate, resolution) && (config.output_type is Gate
                ==> off_of(
                config.pwm,
                tick.duration_micros,
                cycle_of(config.rate, resolution),
            ) >= 1),
            r matches Ok(o) ==> o.wf() && o.config == config && o.resolution == resolution
                && o.index is None && o.cycle_target == cycle_of(config.rate, resolution)
                && o.off_target == off_of(
                config.pwm,
                tick.duration_micros,
                cycle_of(config.rate, resolution),
            ),
            r is Err ==> !rate_valid(config.rate, resolution) ==> r == Err::<Output, Error>(
                Error::Cycle,
            ),
            r is Err && rate_valid(config.rate, resolution) ==> r == Err::<Output, Error>(
                Error::Width,
            ),
    {
        let cycle_target = match config.rate.cycle_target(resolution) {
            Ok(c) => c,
            Err(e) => {
                return Err(e);
            },
        };
        let off_target = config.pwm.off_target(tick, cycle_target);
        let reads_off = match config.output_type {
            OutputType::Gate => true,
            OutputType::Euclid => false,
        };
        if reads_off && off_target == 0 {
            return Err(Error::Width);
        }
        Ok(Output { config, cycle_target, index: None, off_target, resolution })
    }

    /// Advance the lane by one tick of the master counter, writing the
    /// new reading into `state`.
    pub fn tick(&mut self, count: u32, state: &mut OutputState)
        requires
            old(self).wf(),
        ensures
            final(self).wf(),
            Output::tick_spec(*old(self), *old(state), count, *final(self), *final(state)),
    {
        let initial_on = state.on;
        let initial_index = state.index;
        if count % self.cycle_target == 0 {
            let ni: usize = match self.index {
                None => 0,
                Some(i) => (i + 1) % (self.config.length.0 as usize),
            };
            self.index = Some(ni);
            state.index = ni;
            match self.config.output_type {
                OutputType::Gate => {
                    state.on = state.rng.rand_bool(self.config.prob);
                },
                OutputType::Euclid => {
                    proof {
                        crate::euclid::lemma_euclid_onsets(
                            self.config.density.0 as int,
                            self.config.length.0 as int,
                        );
                    }
                    state.on = self.config.sequence.steps[ni];
                },
            }
        } else {
            match self.config.output_type {
                OutputType::Gate => {
                    if (count % self.cycle_target) % self.off_target == 0 {
                        state.on = false;
                    }
                },
                OutputType::Euclid => {},
            }
        }
        state.on_change = initial_on != state.on;
        state.index_change = initial_index != state.index;
    }

    /// Change the lane's rate, recomputing both targets against the
    /// given clock; a rejected rate leaves the lane as it was.
    pub fn set_rate(&mut self, tick: &Tick, rate: Rate) -> (r: Result<(), Error>)
        requires
            old(self).wf(),
            tick.wf(),
        ensures
            r is Ok <==> rate_valid(rate, old(self).resolution) && (old(
                self,
            ).config.output_type is Gate ==> off_of(
                old(self).config.pwm,
                tick.duration_micros,
                cycle_of(rate, old(self).resolution),
            ) >= 1),
            r is Ok ==> final(self).wf() && *final(self) == (Output {
                config: (Config { rate, ..old(self).config }),
                cycle_target: final(self).cycle_target,
                off_target: final(self).off_target,
                ..*old(self)
            }) && final(self).cycle_target == cycle_of(rate, old(self).resolution)
                && final(self).off_target == off_of(
                old(self).config.pwm,
                tick.duration_micros,
                cycle_of(rate, old(self).resolution),
            ),
            r is Err ==> *final(self) == *old(self),
            r is Err && !rate_valid(rate, old(self).resolution) ==> r == Err::<(), Error>(
                Error::Cycle,
            ),
            r is Err && rate_valid(rate, old(self).resolution) ==> r == Err::<(), Error>(
                Error::Width,
            ),
    {
        let cycle_target = match rate.cycle_target(self.resolution) {
            Ok(c) => c,
            Err(e) => {
                return Err(e);
            },
        };
        let off_target = self.config.pwm.off_target(tick, cycle_target);
        let reads_off = match self.config.output_type {
            OutputType::Gate => true,
            OutputType::Euclid => false,
        };
        if reads_off && off_target == 0 {
            return Err(Error::Width);
        }
        self.config.rate = rate;
        self.cycle_target = cycle_target;
        self.off_target = off_target;
        Ok(())
    }

    /// Change the lane's pulse width, recomputing its off point against
    /// the given clock; a width whose off point a gate lane would read
    /// as zero ticks is rejected and leaves the lane as it was.
    pub fn set_pwm(&mut self, tick: &Tick, pwm: Pwm) -> (r: Result<(), Error>)
        requires
            old(self).wf(),
            tick.wf(),
        ensures
            r is Ok <==> (old(self).config.output_type is Gate ==> off_of(
                pwm,
                tick.duration_micros,
                old(self).cycle_target as int,
            ) >= 1),
            r is Ok ==> final(self).wf() && *final(self) == (Output {
                config: (Config { pwm, ..old(self).config }),
                off_target: final(self).off_target,
                ..*old(self)
            }) && final(self).off_target == off_of(
                pwm,
                tick.duration_micros,
                old(self).cycle_target as int,
            ),
            r is Err ==> *final(self) == *old(self) && r == Err::<(), Error>(Error::Width),
    {
        let off_target = pwm.off_target(tick, self.cycle_target);
        let reads_off = match self.config.output_type {
            OutputType::Gate => true,
            OutputType::Euclid => false,
        };
        if reads_off && off_target == 0 {
            return Err(Error::Width);
        }
        self.config.pwm = pwm;
        self.off_target = off_target;
        Ok(())
    }

    /// Change the lane's synthesis mode, deriving the off point anew
    /// against the given clock.  A switch to gate mode — the mode that
    /// reads the off point — is rejected when the stored width's off
    /// point would be zero ticks, and leaves the lane as it was.
    pub fn set_output_type(&mut self, tick: &Tick, output_type: OutputType) -> (r: Result<
        (),
        Error,
    >)
        requires
            old(self).wf(),
            tick.wf(),
        ensures
            r is Ok <==> (output_type is Gate ==> off_of(
                old(self).config.pwm,
                tick.duration_micros,
                old(self).cycle_target as int,
            ) >= 1),
            r is Ok ==> final(self).wf() && *final(self) == (Output {
                config: (Config { output_type, ..old(self).config }),
                off_target: final(self).off_target,
                ..*old(self)
            }) && final(self).off_target == off_of(
                old(self).config.pwm,
                tick.duration_micros,
                old(self).cycle_target as int,
            ),
            r is Err ==> *final(self) == *old(self) && r == Err::<(), Error>(Error::Width),
    {
        let off_target = self.config.pwm.off_target(tick, self.cycle_target);
        let reads_off = match output_type {
            OutputType::Gate => true,
            OutputType::Euclid => false,
        };
        if reads_off && off_target == 0 {
            return Err(Error::Width);
        }
        self.config.output_type = output_type;
        self.off_target = off_target;
        Ok(())
    }

    /// Change the lane's firing probability.  Only the next cycle start
    /// reads it, so nothing else moves.
    pub fn set_prob(&mut self, prob: Prob)
        requires
            old(self).wf(),
        ensures
            final(self).wf(),
            *final(self) == (Output {
                config: (Config { prob, ..old(self).config }),
                ..*old(self)
            }),
    {
        self.config.prob = prob;
    }

    /// Change the lane's pattern length and density, regenerating its
    /// sequence; a rejected pair leaves the lane as it was.  The targets
    /// do not depend on the pattern and stay put.
    pub fn set_sequence(&mut self, length: Length, density: Density) -> (r: Result<(), Error>)
        requires
            old(self).wf(),
        ensures
            r is Ok <==> (1 <= length.0 <= MAX_STEPS && density.0 <= length.0),
            r is Ok ==> final(self).wf() && *final(self) == (Output {
                config: final(self).config,
                ..*old(self)
            }) && final(self).config == (Config {
                length,
                density,
                sequence: final(self).config.sequence,
                ..old(self).config
            }) && final(self).config.wf(),
            r is Err ==> *final(self) == *old(self) && r == Err::<(), Error>(Error::Pattern),
    {
        self.config.set_sequence(length, density)
    }

    /// Recompute the off point against a clock whose tempo has changed.
    /// A percentage width's off point does not depend on the clock and
    /// keeps its value, and a fixed-width off point is never zero, so
    /// this never fails.
    pub fn refresh_off_target(&mut self, tick: &Tick)
        requires
            old(self).wf(),
            tick.wf(),
        ensures
            final(self).wf(),
            *final(self) == (Output { off_target: final(self).off_target, ..*old(self) }),
            final(self).off_target == off_of(
                old(self).config.pwm,
                tick.duration_micros,
                old(self).cycle_target as int,
            ),
    {
        let off_target = self.config.pwm.off_target(tick, self.cycle_target);
        self.off_target = off_target;
    }
}

/// The level a gate lane that always fires shows at tick `t`, against a
/// cycle of `cycle` ticks that falls at tick `off` of each repetition:
/// high through the first `off` ticks, low through the rest.
pub open spec fn square_wave(cycle: int, off: int, t: int) -> bool {
    t % cycle < off
}

/// A gate lane that always fires plays a square wave.  One tick of a
/// lane whose probability is `P100` takes a reading that matched the
/// wave at the previous tick to one that matches it at this tick; when
/// the off point halves the cycle — as rate `Unity` and width `P50` do
/// at the clock's resolution of 1920, giving `cycle == 1920` and
/// `off == 960` — the level changes exactly at the multiples of the
/// off point.
pub proof fn lemma_gate_square_wave(
    pre: Output,
    pre_s: OutputState,
    count: u32,
    post: Output,
    post_s: OutputState,
)
    requires
        Output::tick_spec(pre, pre_s, count, post, post_s),
        pre.config.output_type == OutputType::Gate,
        pre.config.prob == Prob::P100,
        1 <= pre.off_target < pre.cycle_target,
        pre_s.on == square_wave(pre.cycle_target as int, pre.off_target as int, count - 1),
    ensures
        post_s.on == square_wave(pre.cycle_target as int, pre.off_target as int, count as int),
        pre.cycle_target == 2 * pre.off_target ==> post_s.on_change == ((count as int) % (
        pre.off_target as int) == 0),
{
    let cycle = pre.cycle_target as int;
    let off = pre.off_target as int;
    let t = count as int;
    let u = t % cycle;
    let p = (t - 1) % cycle;
    lemma_mod_bound(t, cycle);
    lemma_mod_bound(t - 1, cycle);
    lemma_mod_step(t, cycle);
    if u == 0 {
        assert(post_s.on == true);
    } else {
        assert(u == p + 1);
        if u % off == 0 {
            assert(u >= off) by {
                if u < off {
                    vstd::arithmetic::div_mod::lemma_small_mod(u as nat, off as nat);
                }
            }
            assert(!square_wave(cycle, off, t));
        } else {
            assert(post_s.on == pre_s.on);
            assert(square_wave(cycle, off, t) == square_wave(cycle, off, t - 1)) by {
                if p < off && u >= off {
                    assert(u == off);
                    vstd::arithmetic::div_mod::lemma_mod_self_0(off);
                }
            }
        }
    }
    if pre.cycle_target == 2 * pre.off_target {
        lemma_square_wave_edges(cycle, off, t);
    }
}

/// Stepping the dividend by one steps the remainder by one, wrapping to
/// zero at the modulus.
proof fn lemma_mod_step(t: int, m: int)
    requires
        m >= 1,
    ensures
        t % m == (if (t - 1) % m + 1 == m {
            0int
        } else {
            (t - 1) % m + 1
        }),
{
    let p = (t - 1) % m;
    let q = (t - 1) / m;
    vstd::arithmetic::div_mod::lemma_fundamental_div_mod(t - 1, m);
    lemma_mod_bound(t - 1, m);
    if p + 1 == m {
        assert(t == (q + 1) * m + 0) by (nonlinear_arith)
            requires
                t - 1 == m * q + p,
                p + 1 == m,
        ;
        vstd::arithmetic::div_mod::lemma_fundamental_div_mod_converse(t, m, q + 1, 0);
    } else {
        assert(t == q * m + (p + 1)) by (nonlinear_arith)
            requires
                t - 1 == m * q + p,
        ;
        vstd::arithmetic::div_mod::lemma_fundamental_div_mod_converse(t, m, q, p + 1);
    }
}

/// With the off point at half the cycle, the square wave flips exactly
/// at the multiples of the off point.
proof fn lemma_square_wave_edges(cycle: int, off: int, t: int)
    requires
        1 <= off,
        cycle == 2 * off,
    ensures
        (square_wave(cycle, off, t) != square_wave(cycle, off, t - 1)) == (t % off == 0),
{
    let u = t % cycle;
    let p = (t - 1) % cycle;
    lemma_mod_bound(t, cycle);
    lemma_mod_bound(t - 1, cycle);
    lemma_mod_step(t, cycle);
    assert(cycle == off * 2);
    vstd::arithmetic::div_mod::lemma_mod_mod(t, off, 2);
    assert(u % off == t % off);
    if u == 0 {
        vstd::arithmetic::div_mod::lemma_small_mod(0nat, off as nat);
        assert(t % off == 0);
        assert(p == cycle - 1 >= off);
    } else {
        assert(u == p + 1);
        if u < off {
            vstd::arithmetic::div_mod::lemma_small_mod(u as nat, off as nat);
            assert(t % off == u);
            assert(t % off != 0);
        } else if u == off {
            vstd::arithmetic::div_mod::lemma_mod_self_0(off);
            assert(t % off == 0);
            assert(p == off - 1 < off);
        } else {
            assert(off < u < cycle);
            vstd::arithmetic::div_mod::lemma_fundamental_div_mod_converse(u, off, 1, u - off);
            assert(t % off == u - off);
            assert(t % off != 0);
            assert(p >= off);
        }
    }
}

/// A rate of `Multiply(2, 0)` halves the cycle a lane runs on, and — at
/// an even resolution, for a percentage pulse width — halves the off
/// point with it.
pub proof fn lemma_mult_two_halves(resolution: u32, pwm: Pwm, duration_micros: u64)
    requires
        resolution % 2 == 0,
        !(pwm is Pew),
    ensures
        cycle_of(Rate::Mult(2, Frac::Zero), resolution) == cycle_of(Rate::Unity, resolution) / 2,
        off_of(pwm, duration_micros, cycle_of(Rate::Mult(2, Frac::Zero), resolution)) == off_of(
            pwm,
            duration_micros,
            cycle_of(Rate::Unity, resolution),
        ) / 2,
{
    let res = resolution as int;
    let t = pwm.spec_tenths();
    assert(cycle_of(Rate::Mult(2, Frac::Zero), resolution) == 6 * res / 12);
    lemma_div_denominator(6 * res, 6, 2);
    lemma_div_multiples_vanish(res, 6);
    assert(6 * res / 12 == res / 2);
    let half = res / 2;
    assert(res == 2 * half);
    assert(off_of(pwm, duration_micros, half) == half * t / 10);
    assert(off_of(pwm, duration_micros, res) == res * t / 10);
    assert(res * t == 2 * (half * t)) by (nonlinear_arith)
        requires
            res == 2 * half,
    ;
    lemma_div_denominator(res * t, 2, 10);
    lemma_div_multiples_vanish(half * t, 2);
    assert(res * t / 2 == half * t);
    assert(res * t / 20 == half * t / 10);
    lemma_div_denominator(res * t, 10, 2);
    assert(res * t / 10 / 2 == res * t / 20);
}

/// A lane runs on no hidden entropy: one tick is a function of the
/// lane, its reading and the counter alone, so two runs over identical
/// inputs — in particular two runs of a probability-gated lane from the
/// fixed seed — reproduce the same fire/no-fire sequence.
pub proof fn lemma_tick_deterministic(
    pre: Output,
    pre_s: OutputState,
    count: u32,
    post_a: Output,
    post_a_s: OutputState,
    post_b: Output,
    post_b_s: OutputState,
)
    requires
        Output::tick_spec(pre, pre_s, count, post_a, post_a_s),
        Output::tick_spec(pre, pre_s, count, post_b, post_b_s),
    ensures
        post_a == post_b,
        post_a_s == post_b_s,
{
}

/// From the next cycle start onward, a lane's step stays within its
/// pattern's length — also right after the length was changed, since the
/// step advances by one modulo the new length.
pub proof fn lemma_index_within_length(
    pre: Output,
    pre_s: OutputState,
    count: u32,
    post: Output,
    post_s: OutputState,
)
    requires
        Output::tick_spec(pre, pre_s, count, post, post_s),
        pre.config.wf(),
        starts_cycle(count, pre.cycle_target),
    ensures
        (post_s.index as int) < pre.config.length.0,
        post.index == Some(post_s.index),
{
    match pre.index {
        Option::None => {
        },
        Option::Some(i) => {
            lemma_mod_bound(i + 1, pre.config.length.0 as int);
        },
    }
}

} // verus!
