use vstd::prelude::*;

verus! {

use crate::error::Error;

/// Percent steps a pulse width can take.
pub const PWM_PERCENT_INCREMENTS: u32 = 10;

/// The largest rate multiplier the clock is sized for.
pub const MAX_MULT: u32 = 192;

/// Ticks per beat: the fixed sub-beat resolution of the clock.
pub const RESOLUTION: u32 = PWM_PERCENT_INCREMENTS * MAX_MULT;

/// Microseconds in one minute.
pub const MICROS_PER_MINUTE: u64 = 60_000_000;

/// Ticks per beat, as a function.
pub fn resolution() -> (r: u32)
    ensures
        r == RESOLUTION,
{
    RESOLUTION
}

/// Duration of one tick in microseconds at the given tempo: the quotient
/// `60_000_000 / (bpm * RESOLUTION)` rounded half-up to a whole microsecond.
pub open spec fn tick_duration_spec(bpm: u32) -> int {
    (2 * MICROS_PER_MINUTE + bpm * RESOLUTION) / (2 * (bpm as int) * (RESOLUTION as int))
}

/// A tempo the clock accepts: positive, and slow enough that a tick still
/// lasts at least one whole microsecond.
pub open spec fn bpm_valid(bpm: u32) -> bool {
    1 <= bpm && tick_duration_spec(bpm) >= 1
}

/// The master clock: a tempo, a free-running tick counter and the derived
/// duration of one tick.
#[derive(Clone, Copy, Debug, PartialEq)]
pub struct Tick {
    pub bpm: u32,
    pub count: u32,
    pub duration_micros: u64,
}

impl Tick {
    /// A clock holds a valid tempo and the tick duration derived from it.
    pub open spec fn wf(&self) -> bool {
        &&& bpm_valid(self.bpm)
        &&& self.duration_micros == tick_duration_spec(self.bpm)
        &&& self.duration_micros >= 1
    }

    pub fn new(bpm: u32) -> (r: Result<Tick, Error>)
        ensures
            r is Ok <==> bpm_valid(bpm),
            r matches Ok(t) ==> t.wf() && t.bpm == bpm && t.count == 0,
            r is Err ==> r == Err::<Tick, Error>(Error::Tempo),
    {
        match duration_micros_for(bpm) {
            Ok(duration_micros) => Ok(Tick { bpm, count: 0, duration_micros }),
            Err(e) => Err(e),
        }
    }

    /// Change the tempo; a rejected tempo leaves the clock as it was.
    pub fn set_bpm(&mut self, bpm: u32) -> (r: Result<(), Error>)
        ensures
            r is Ok <==> bpm_valid(bpm),
            r is Ok ==> final(self).wf() && final(self).bpm == bpm && final(self).count
                == old(self).count,
            r is Err ==> *final(self) == *old(self) && r == Err::<(), Error>(Error::Tempo),
    {
        match duration_micros_for(bpm) {
            Ok(duration_micros) => {
                self.bpm = bpm;
                self.duration_micros = duration_micros;
                Ok(())
            },
            Err(e) => Err(e),
        }
    }
}

/// The microseconds one tick lasts at the given tempo, rounded half-up.
fn duration_micros_for(bpm: u32) -> (r: Result<u64, Error>)
    ensures
        r is Ok <==> bpm_valid(bpm),
        r matches Ok(d) ==> d == tick_duration_spec(bpm) && d >= 1,
        r is Err ==> r == Err::<u64, Error>(Error::Tempo),
{
    if bpm == 0 {
        return Err(Error::Tempo);
    }
    proof {
        assert(RESOLUTION == 1920);
        assert(bpm * RESOLUTION <= 0xffff_ffffu64 * 1920) by (nonlinear_arith)
            requires bpm <= 0xffff_ffffu64,
        ;
    }
    let ticks_per_minute: u64 = (bpm as u64) * (RESOLUTION as u64);
    let duration: u64 = (2 * MICROS_PER_MINUTE + ticks_per_minute) / (2 * ticks_per_minute);
    if duration == 0 {
        Err(Error::Tempo)
    } else {
        Ok(duration)
    }
}

} // verus!
