use vstd::prelude::*;

verus! {

use crate::config::{Config, OutputType};
use crate::error::Error;
use crate::output::{Output, OutputState};
use crate::pattern::{Density, Length, MAX_STEPS};
use crate::prob::Prob;
use crate::pwm::{off_of, Pwm};
use crate::rate::{cycle_of, rate_valid, Rate};
use crate::tick::{bpm_valid, tick_duration_spec, Tick, RESOLUTION};

/// How many lanes a sequencer drives at most.
pub const MAX_LANES: usize = 4;

/// Whether a lane configuration can be built against this resolution and
/// tick duration: its rate gives a usable cycle and — for a gate lane,
/// the only mode that reads an off point — its pulse width a positive
/// off point.
pub open spec fn lane_valid(c: Config, resolution: u32, duration_micros: u64) -> bool {
    &&& rate_valid(c.rate, resolution)
    &&& c.output_type is Gate ==> off_of(
        c.pwm,
        duration_micros,
        cycle_of(c.rate, resolution),
    ) >= 1
}

/// The counter after one tick: one more, wrapping silently at the top.
pub open spec fn wrap_inc(count: u32) -> int {
    if count == u32::MAX {
        0
    } else {
        count + 1
    }
}

/// Up to four output lanes sharing one master clock.  Every tick
/// advances the clock once, runs every lane against the old counter and
/// retains each lane's reading.
pub struct Sequencer {
    pub tick: Tick,
    pub outputs: Vec<Output>,
    pub output_states: Vec<OutputState>,
    pub resolution: u32,
}

impl Sequencer {
    /// The clock holds a valid tempo, the lanes and readings pair up
    /// within capacity, and every lane is well-formed against the shared
    /// resolution.
    pub open spec fn wf(&self) -> bool {
        &&& self.tick.wf()
        &&& self.outputs@.len() == self.output_states@.len()
        &&& self.outputs@.len() <= MAX_LANES
        &&& forall|i: int|
            0 <= i < self.outputs@.len() ==> (#[trigger] self.outputs@[i]).wf()
                && self.outputs@[i].resolution == self.resolution
    }

    /// Number of lanes the sequencer drives.
    pub open spec fn spec_lanes(&self) -> int {
        self.outputs@.len() as int
    }

    /// Build a sequencer at the clock's fixed resolution.
    pub fn new(bpm: u32, configs: Vec<Config>) -> (r: Result<Sequencer, Error>)
        requires
            forall|i: int| 0 <= i < configs@.len() ==> (#[trigger] configs@[i]).wf(),
        ensures
            r is Ok <==> bpm_valid(bpm) && configs@.len() <= MAX_LANES && (forall|i: int|
                0 <= i < configs@.len() ==> lane_valid(
                    #[trigger] configs@[i],
                    RESOLUTION,
                    tick_duration_spec(bpm) as u64,
                )),
            r matches Ok(s) ==> s.wf() && s.resolution == RESOLUTION && s.tick.bpm == bpm
                && s.tick.count == 0 && s.spec_lanes() == configs@.len() && (forall|i: int|
                0 <= i < configs@.len() ==> (#[trigger] s.outputs@[i]).config == configs@[i]
                    && s.outputs@[i].index is None && s.output_states@[i].initial()),
    {
        Sequencer::new_with_resolution(RESOLUTION, bpm, configs)
    }

    /// Build a sequencer: a clock at the given tempo, and one lane per
    /// configuration, each with a freshly seeded generator and an
    /// all-off initial reading.  A bad tempo, too many lanes or a lane
    /// whose targets cannot be derived is rejected.
    pub fn new_with_resolution(resolution: u32, bpm: u32, configs: Vec<Config>) -> (r: Result<
        Sequencer,
        Error,
    >)
        requires
            forall|i: int| 0 <= i < configs@.len() ==> (#[trigger] configs@[i]).wf(),
        ensures
            r is Ok <==> bpm_valid(bpm) && configs@.len() <= MAX_LANES && (forall|i: int|
                0 <= i < configs@.len() ==> lane_valid(
                    #[trigger] configs@[i],
                    resolution,
                    tick_duration_spec(bpm) as u64,
                )),
            r matches Ok(s) ==> s.wf() && s.resolution == resolution && s.tick.bpm == bpm
                && s.tick.count == 0 && s.spec_lanes() == configs@.len() && (forall|i: int|
                0 <= i < configs@.len() ==> (#[trigger] s.outputs@[i]).config == configs@[i]
                    && s.outputs@[i].index is None && s.output_states@[i].initial()),
            !bpm_valid(bpm) ==> r == Err::<Sequencer, Error>(Error::Tempo),
            bpm_valid(bpm) && configs@.len() > MAX_LANES ==> r == Err::<Sequencer, Error>(
                Error::Lane,
            ),
    {
        let tick = match Tick::new(bpm) {
            Ok(t) => t,
            Err(e) => {
                return Err(e);
            },
        };
        if configs.len() > MAX_LANES {
            return Err(Error::Lane);
        }
        let ghost all = configs@;
        let mut remaining = configs;
        let mut outputs: Vec<Output> = Vec::new();
        let mut output_states: Vec<OutputState> = Vec::new();
        while remaining.len() > 0
            invariant
                all == configs@,
                bpm_valid(bpm),
                tick.wf(),
                tick.bpm == bpm,
                tick.count == 0,
                tick.duration_micros == tick_duration_spec(bpm),
                tick.duration_micros == tick_duration_spec(bpm) as u64,
                outputs@.len() + remaining@.len() == all.len(),
                all.len() <= MAX_LANES,
                remaining@ == all.subrange(outputs@.len() as int, all.len() as int),
                forall|i: int| 0 <= i < all.len() ==> (#[trigger] all[i]).wf(),
                output_states@.len() == outputs@.len(),
                forall|i: int|
                    0 <= i < outputs@.len() ==> (#[trigger] outputs@[i]).wf()
                        && outputs@[i].resolution == resolution && outputs@[i].config == all[i]
                        && outputs@[i].index is None && lane_valid(
                        all[i],
                        resolution,
                        tick.duration_micros,
                    ) && output_states@[i].initial(),
            decreases remaining@.len(),
        {
            let ghost done = outputs@.len() as int;
            let config = remaining.remove(0);
            proof {
                assert(config == all[done]);
                assert(remaining@ =~= all.subrange(done + 1, all.len() as int));
            }
            let output = match Output::new(resolution, &tick, config) {
                Ok(o) => o,
                Err(e) => {
                    proof {
                        assert(!lane_valid(all[done], resolution, tick_duration_spec(bpm) as u64));
                    }
                    return Err(e);
                },
            };
            outputs.push(output);
            output_states.push(OutputState::default());
        }
        proof {
            assert forall|i: int|
                0 <= i < configs@.len() implies lane_valid(
                    #[trigger] configs@[i],
                    resolution,
                    tick_duration_spec(bpm) as u64,
                ) by {
                assert(outputs@[i].config == all[i]);
                assert(lane_valid(all[i], resolution, tick.duration_micros));
            }
        }
        Ok(Sequencer { tick, outputs, output_states, resolution })
    }

    /// Duration of one tick of the shared clock, in microseconds.
    pub fn tick_duration_micros(&self) -> (r: u64)
        ensures
            r == self.tick.duration_micros,
    {
        self.tick.duration_micros
    }

    /// Advance the clock by one tick: every lane runs against the old
    /// counter and its reading is retained, then the counter steps,
    /// wrapping silently at the top.
    pub fn tick(&mut self)
        requires
            old(self).wf(),
        ensures
            final(self).wf(),
            final(self).tick.bpm == old(self).tick.bpm,
            final(self).tick.duration_micros == old(self).tick.duration_micros,
            final(self).resolution == old(self).resolution,
            final(self).spec_lanes() == old(self).spec_lanes(),
            final(self).tick.count == wrap_inc(old(self).tick.count),
            forall|i: int|
                0 <= i < old(self).spec_lanes() ==> Output::tick_spec(
                    old(self).outputs@[i],
                    old(self).output_states@[i],
                    old(self).tick.count,
                    #[trigger] final(self).outputs@[i],
                    final(self).output_states@[i],
                ),
    {
        let count = self.tick.count;
        let lanes = self.outputs.len();
        let mut i: usize = 0;
        while i < lanes
            invariant
                i <= lanes,
                self.outputs@.len() == lanes,
                self.output_states@.len() == lanes,
                self.tick == old(self).tick,
                self.resolution == old(self).resolution,
                count == old(self).tick.count,
                forall|j: int| i <= j < lanes ==> #[trigger] self.outputs@[j] == old(self).outputs@[j],
                forall|j: int|
                    i <= j < lanes ==> #[trigger] self.output_states@[j] == old(self).output_states@[j],
                forall|j: int|
                    0 <= j < lanes ==> (#[trigger] self.outputs@[j]).wf()
                        && self.outputs@[j].resolution == self.resolution,
                forall|j: int|
                    0 <= j < i ==> Output::tick_spec(
                        old(self).outputs@[j],
                        old(self).output_states@[j],
                        count,
                        #[trigger] self.outputs@[j],
                        self.output_states@[j],
                    ),
            decreases lanes - i,
        {
            let ghost outputs_pre = self.outputs@;
            let ghost states_pre = self.output_states@;
            self.outputs[i].tick(count, &mut self.output_states[i]);
            proof {
                assert(self.outputs@ == outputs_pre.update(i as int, self.outputs@[i as int]));
                assert(self.output_states@ == states_pre.update(
                    i as int,
                    self.output_states@[i as int],
                ));
                assert forall|j: int|
                    i + 1 <= j < lanes implies self.outputs@[j] == old(self).outputs@[j] by {
                    assert(self.outputs@[j] == outputs_pre[j]);
                    assert(outputs_pre[j] == old(self).outputs@[j]);
                }
                assert forall|j: int|
                    i + 1 <= j < lanes implies self.output_states@[j] == old(self).output_states@[j] by {
                    assert(self.output_states@[j] == states_pre[j]);
                    assert(states_pre[j] == old(self).output_states@[j]);
                }
            }
            i = i + 1;
        }
        if self.tick.count == u32::MAX {
            self.tick.count = 0;
        } else {
            self.tick.count = self.tick.count + 1;
        }
    }

    /// The step index lane `index` last played.
    pub fn get_index(&self, index: usize) -> (r: Result<usize, Error>)
        requires
            self.wf(),
        ensures
            index < self.spec_lanes() ==> r == Ok::<usize, Error>(
                self.output_states@[index as int].index,
            ),
            index >= self.spec_lanes() ==> r == Err::<usize, Error>(Error::Lane),
    {
        if index < self.output_states.len() {
            Ok(self.output_states[index].index)
        } else {
            Err(Error::Lane)
        }
    }

    /// Whether lane `index` moved to a new step on the last tick.
    pub fn get_index_change(&self, index: usize) -> (r: Result<bool, Error>)
        requires
            self.wf(),
        ensures
            index < self.spec_lanes() ==> r == Ok::<bool, Error>(
                self.output_states@[index as int].index_change,
            ),
            index >= self.spec_lanes() ==> r == Err::<bool, Error>(Error::Lane),
    {
        if index < self.output_states.len() {
            Ok(self.output_states[index].index_change)
        } else {
            Err(Error::Lane)
        }
    }

    /// The level lane `index` showed on the last tick.
    pub fn get_on(&self, index: usize) -> (r: Result<bool, Error>)
        requires
            self.wf(),
        ensures
            index < self.spec_lanes() ==> r == Ok::<bool, Error>(
                self.output_states@[index as int].on,
            ),
            index >= self.spec_lanes() ==> r == Err::<bool, Error>(Error::Lane),
    {
        if index < self.output_states.len() {
            Ok(self.output_states[index].on)
        } else {
            Err(Error::Lane)
        }
    }

    /// Whether lane `index`'s level changed on the last tick.
    pub fn get_on_change(&self, index: usize) -> (r: Result<bool, Error>)
        requires
            self.wf(),
        ensures
            index < self.spec_lanes() ==> r == Ok::<bool, Error>(
                self.output_states@[index as int].on_change,
            ),
            index >= self.spec_lanes() ==> r == Err::<bool, Error>(Error::Lane),
    {
        if index < self.output_states.len() {
            Ok(self.output_states[index].on_change)
        } else {
            Err(Error::Lane)
        }
    }

    /// The clock's resolution in ticks per beat.
    pub fn resolution(&self) -> (r: u32)
        ensures
            r == self.resolution,
    {
        self.resolution
    }

    /// Change the shared tempo.  The tick-count cycle lengths do not
    /// move, but the off point of a fixed-width lane follows the tick
    /// duration, so every lane's off point is derived anew; a percentage
    /// lane keeps its value.  A rejected tempo leaves everything as it
    /// was.
    pub fn set_bpm(&mut self, bpm: u32) -> (r: Result<(), Error>)
        requires
            old(self).wf(),
        ensures
            r is Ok <==> bpm_valid(bpm),
            r is Ok ==> final(self).wf() && final(self).tick.bpm == bpm && final(self).tick.count
                == old(self).tick.count && final(self).resolution == old(self).resolution
                && final(self).spec_lanes() == old(self).spec_lanes()
                && final(self).output_states@ == old(self).output_states@ && (forall|i: int|
                0 <= i < old(self).spec_lanes() ==> #[trigger] final(self).outputs@[i] == (Output {
                    off_target: final(self).outputs@[i].off_target,
                    ..old(self).outputs@[i]
                }) && final(self).outputs@[i].off_target == off_of(
                    old(self).outputs@[i].config.pwm,
                    final(self).tick.duration_micros,
                    old(self).outputs@[i].cycle_target as int,
                )),
            r is Err ==> *final(self) == *old(self) && r == Err::<(), Error>(Error::Tempo),
    {
        match self.tick.set_bpm(bpm) {
            Ok(u) => u,
            Err(e) => {
                return Err(e);
            },
        }
        let lanes = self.outputs.len();
        let mut i: usize = 0;
        while i < lanes
            invariant
                i <= lanes,
                self.outputs@.len() == lanes,
                self.output_states@ == old(self).output_states@,
                self.output_states@.len() == lanes,
                lanes <= MAX_LANES,
                self.tick.wf(),
                self.tick.bpm == bpm,
                self.tick.count == old(self).tick.count,
                self.resolution == old(self).resolution,
                forall|j: int|
                    i <= j < lanes ==> #[trigger] self.outputs@[j] == old(self).outputs@[j],
                forall|j: int|
                    0 <= j < lanes ==> (#[trigger] self.outputs@[j]).wf()
                        && self.outputs@[j].resolution == self.resolution,
                forall|j: int|
                    0 <= j < i ==> #[trigger] self.outputs@[j] == (Output {
                        off_target: self.outputs@[j].off_target,
                        ..old(self).outputs@[j]
                    }) && self.outputs@[j].off_target == off_of(
                        old(self).outputs@[j].config.pwm,
                        self.tick.duration_micros,
                        old(self).outputs@[j].cycle_target as int,
                    ),
            decreases lanes - i,
        {
            self.outputs[i].refresh_off_target(&self.tick);
            i = i + 1;
        }
        Ok(())
    }

    /// Change lane `index`'s firing probability.
    pub fn set_prob(&mut self, index: usize, prob: Prob) -> (r: Result<(), Error>)
        requires
            old(self).wf(),
        ensures
            r is Ok <==> index < old(self).spec_lanes(),
            r is Ok ==> final(self).wf() && *final(self) == (Sequencer {
                outputs: final(self).outputs,
                ..*old(self)
            }) && final(self).outputs@ == old(self).outputs@.update(
                index as int,
                (Output {
                    config: (Config { prob, ..old(self).outputs@[index as int].config }),
                    ..old(self).outputs@[index as int]
                }),
            ),
            r is Err ==> *final(self) == *old(self) && r == Err::<(), Error>(Error::Lane),
    {
        if index >= self.outputs.len() {
            return Err(Error::Lane);
        }
        self.outputs[index].set_prob(prob);
        Ok(())
    }

    /// Change lane `index`'s pulse width, deriving its off point anew.
    pub fn set_pwm(&mut self, index: usize, pwm: Pwm) -> (r: Result<(), Error>)
        requires
            old(self).wf(),
        ensures
            r is Ok <==> index < old(self).spec_lanes() && (old(
                self,
            ).outputs@[index as int].config.output_type is Gate ==> off_of(
                pwm,
                old(self).tick.duration_micros,
                old(self).outputs@[index as int].cycle_target as int,
            ) >= 1),
            r is Ok ==> final(self).wf() && *final(self) == (Sequencer {
                outputs: final(self).outputs,
                ..*old(self)
            }) && final(self).outputs@ == old(self).outputs@.update(
                index as int,
                (Output {
                    config: (Config { pwm, ..old(self).outputs@[index as int].config }),
                    off_target: final(self).outputs@[index as int].off_target,
                    ..old(self).outputs@[index as int]
                }),
            ) && final(self).outputs@[index as int].off_target == off_of(
                pwm,
                old(self).tick.duration_micros,
                old(self).outputs@[index as int].cycle_target as int,
            ),
            r is Err ==> final(self).tick == old(self).tick && final(self).outputs@ == old(self).outputs@ && final(self).output_states == old(self).output_states && final(self).resolution == old(self).resolution && final(self).wf(),
            r is Err && index >= old(self).spec_lanes() ==> r == Err::<(), Error>(Error::Lane),
            r is Err && index < old(self).spec_lanes() ==> r == Err::<(), Error>(Error::Width),
    {
        if index >= self.outputs.len() {
            return Err(Error::Lane);
        }
        let tick = self.tick;
        match self.outputs[index].set_pwm(&tick, pwm) {
            Ok(u) => Ok(u),
            Err(e) => {
                proof {
                    assert(self.outputs@ =~= old(self).outputs@);
                }
                Err(e)
            },
        }
    }

    /// Change lane `index`'s rate, deriving both its targets anew.
    pub fn set_rate(&mut self, index: usize, rate: Rate) -> (r: Result<(), Error>)
        requires
            old(self).wf(),
        ensures
            r is Ok <==> index < old(self).spec_lanes() && rate_valid(
                rate,
                old(self).resolution,
            ) && (old(self).outputs@[index as int].config.output_type is Gate ==> off_of(
                old(self).outputs@[index as int].config.pwm,
                old(self).tick.duration_micros,
                cycle_of(rate, old(self).resolution),
            ) >= 1),
            r is Ok ==> final(self).wf() && *final(self) == (Sequencer {
                outputs: final(self).outputs,
                ..*old(self)
            }) && final(self).outputs@ == old(self).outputs@.update(
                index as int,
                (Output {
                    config: (Config { rate, ..old(self).outputs@[index as int].config }),
                    cycle_target: final(self).outputs@[index as int].cycle_target,
                    off_target: final(self).outputs@[index as int].off_target,
                    ..old(self).outputs@[index as int]
                }),
            ) && final(self).outputs@[index as int].cycle_target == cycle_of(
                rate,
                old(self).resolution,
            ) && final(self).outputs@[index as int].off_target == off_of(
                old(self).outputs@[index as int].config.pwm,
                old(self).tick.duration_micros,
                cycle_of(rate, old(self).resolution),
            ),
            r is Err ==> final(self).tick == old(self).tick && final(self).outputs@ == old(self).outputs@ && final(self).output_states == old(self).output_states && final(self).resolution == old(self).resolution && final(self).wf(),
            r is Err && index >= old(self).spec_lanes() ==> r == Err::<(), Error>(Error::Lane),
    {
        if index >= self.outputs.len() {
            return Err(Error::Lane);
        }
        let tick = self.tick;
        match self.outputs[index].set_rate(&tick, rate) {
            Ok(u) => Ok(u),
            Err(e) => {
                proof {
                    assert(self.outputs@ =~= old(self).outputs@);
                }
                Err(e)
            },
        }
    }

    /// Change lane `index`'s pattern length and density, regenerating
    /// its sequence.
    pub fn set_sequence(&mut self, index: usize, length: Length, density: Density) -> (r: Result<
        (),
        Error,
    >)
        requires
            old(self).wf(),
        ensures
            r is Ok <==> index < old(self).spec_lanes() && 1 <= length.0 <= MAX_STEPS && density.0
                <= length.0,
            r is Ok ==> final(self).wf() && *final(self) == (Sequencer {
                outputs: final(self).outputs,
                ..*old(self)
            }) && final(self).outputs@ == old(self).outputs@.update(
                index as int,
                (Output {
                    config: final(self).outputs@[index as int].config,
                    ..old(self).outputs@[index as int]
                }),
            ) && final(self).outputs@[index as int].config == (Config {
                length,
                density,
                sequence: final(self).outputs@[index as int].config.sequence,
                ..old(self).outputs@[index as int].config
            }) && final(self).outputs@[index as int].config.wf(),
            r is Err ==> final(self).tick == old(self).tick && final(self).outputs@ == old(self).outputs@ && final(self).output_states == old(self).output_states && final(self).resolution == old(self).resolution && final(self).wf(),
            r is Err && index >= old(self).spec_lanes() ==> r == Err::<(), Error>(Error::Lane),
            r is Err && index < old(self).spec_lanes() ==> r == Err::<(), Error>(Error::Pattern),
    {
        if index >= self.outputs.len() {
            return Err(Error::Lane);
        }
        match self.outputs[index].set_sequence(length, density) {
            Ok(u) => Ok(u),
            Err(e) => {
                proof {
                    assert(self.outputs@ =~= old(self).outputs@);
                }
                Err(e)
            },
        }
    }

    /// Change lane `index`'s synthesis mode, deriving its off point anew
    /// with the pulse width that mode uses.
    pub fn set_output_type(&mut self, index: usize, output_type: OutputType) -> (r: Result<
        (),
        Error,
    >)
        requires
            old(self).wf(),
        ensures
            r is Ok <==> index < old(self).spec_lanes() && (output_type is Gate ==> off_of(
                old(self).outputs@[index as int].config.pwm,
                old(self).tick.duration_micros,
                old(self).outputs@[index as int].cycle_target as int,
            ) >= 1),
            r is Ok ==> final(self).wf() && *final(self) == (Sequencer {
                outputs: final(self).outputs,
                ..*old(self)
            }) && final(self).outputs@ == old(self).outputs@.update(
                index as int,
                (Output {
                    config: (Config {
                        output_type,
                        ..old(self).outputs@[index as int].config
                    }),
                    off_target: final(self).outputs@[index as int].off_target,
                    ..old(self).outputs@[index as int]
                }),
            ) && final(self).outputs@[index as int].off_target == off_of(
                old(self).outputs@[index as int].config.pwm,
                old(self).tick.duration_micros,
                old(self).outputs@[index as int].cycle_target as int,
            ),
            r is Err ==> final(self).tick == old(self).tick && final(self).outputs@ == old(self).outputs@ && final(self).output_states == old(self).output_states && final(self).resolution == old(self).resolution && final(self).wf(),
            r is Err && index >= old(self).spec_lanes() ==> r == Err::<(), Error>(Error::Lane),
            r is Err && index < old(self).spec_lanes() ==> r == Err::<(), Error>(Error::Width),
    {
        if index >= self.outputs.len() {
            return Err(Error::Lane);
        }
        let tick = self.tick;
        match self.outputs[index].set_output_type(&tick, output_type) {
            Ok(u) => Ok(u),
            Err(e) => {
                proof {
                    assert(self.outputs@ =~= old(self).outputs@);
                }
                Err(e)
            },
        }
    }
}

} // verus!
