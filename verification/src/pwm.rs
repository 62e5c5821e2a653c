use vstd::prelude::*;

verus! {

use crate::tick::Tick;

/// Microseconds a fixed-width trigger pulse lasts.
pub const PEW_MICROS: u64 = 10_000;

/// A lane's pulse-width selector: a duty-cycle percentage in steps of ten,
/// or `Pew`, a fixed short trigger whose width in ticks follows from the
/// clock's tick duration.
#[derive(Clone, Copy, Debug, PartialEq, Eq, Structural)]
pub enum Pwm {
    Pew,
    P10,
    P20,
    P30,
    P40,
    P50,
    P60,
    P70,
    P80,
    P90,
}

/// The off point of a percentage pulse width: the duty-cycle ratio times
/// the cycle length, floored to whole ticks.
pub open spec fn percent_off_spec(tenths: int, cycle: int) -> int {
    cycle * tenths / 10
}

/// The off point of the fixed short pulse: `PEW_MICROS` translated into
/// ticks, rounded up so the pulse is never zero ticks.
pub open spec fn pew_off_spec(duration_micros: u64) -> int {
    (PEW_MICROS - 1) / (duration_micros as int) + 1
}

/// The tick offset within a cycle at which a pulse of this width ends.
pub open spec fn off_of(pwm: Pwm, duration_micros: u64, cycle: int) -> int {
    match pwm {
        Pwm::Pew => pew_off_spec(duration_micros),
        _ => percent_off_spec(pwm.spec_tenths(), cycle),
    }
}

impl Pwm {
    /// The duty-cycle ratio as tenths.  `Pew` carries the smallest ratio,
    /// though its off point is computed from the tick duration instead.
    pub open spec fn spec_tenths(self) -> int {
        match self {
            Pwm::Pew => 1,
            Pwm::P10 => 1,
            Pwm::P20 => 2,
            Pwm::P30 => 3,
            Pwm::P40 => 4,
            Pwm::P50 => 5,
            Pwm::P60 => 6,
            Pwm::P70 => 7,
            Pwm::P80 => 8,
            Pwm::P90 => 9,
        }
    }

    /// The position of this selector among the ten choices.
    pub open spec fn spec_index(self) -> int {
        match self {
            Pwm::Pew => 0,
            Pwm::P10 => 1,
            Pwm::P20 => 2,
            Pwm::P30 => 3,
            Pwm::P40 => 4,
            Pwm::P50 => 5,
            Pwm::P60 => 6,
            Pwm::P70 => 7,
            Pwm::P80 => 8,
            Pwm::P90 => 9,
        }
    }

    /// The position of this selector among the ten choices.
    pub fn index(&self) -> (r: usize)
        ensures
            r == self.spec_index(),
    {
        match self {
            Pwm::Pew => 0,
            Pwm::P10 => 1,
            Pwm::P20 => 2,
            Pwm::P30 => 3,
            Pwm::P40 => 4,
            Pwm::P50 => 5,
            Pwm::P60 => 6,
            Pwm::P70 => 7,
            Pwm::P80 => 8,
            Pwm::P90 => 9,
        }
    }

    /// The duty-cycle ratio as tenths.
    pub fn tenths(&self) -> (r: u32)
        ensures
            r == self.spec_tenths(),
    {
        match self {
            Pwm::Pew => 1,
            Pwm::P10 => 1,
            Pwm::P20 => 2,
            Pwm::P30 => 3,
            Pwm::P40 => 4,
            Pwm::P50 => 5,
            Pwm::P60 => 6,
            Pwm::P70 => 7,
            Pwm::P80 => 8,
            Pwm::P90 => 9,
        }
    }

    /// The tick offset within a cycle of `cycle_target` ticks at which a
    /// pulse of this width ends, against the given clock.
    pub fn off_target(&self, tick: &Tick, cycle_target: u32) -> (r: u32)
        requires
            tick.wf(),
        ensures
            r == off_of(*self, tick.duration_micros, cycle_target as int),
    {
        match self {
            Pwm::Pew => {
                let d: u64 = tick.duration_micros;
                (((PEW_MICROS - 1) / d + 1) as u32)
            },
            _ => {
                let t: u64 = self.tenths() as u64;
                proof {
                    crate::rate::lemma_mul_le(cycle_target as int, t as int, 0xffff_ffff, 9);
                }
                let off: u64 = (cycle_target as u64) * t / 10;
                proof {
                    lemma_percent_off_below_cycle(cycle_target as int, t as int);
                }
                off as u32
            },
        }
    }
}

/// A percentage off point never exceeds the cycle itself.
proof fn lemma_percent_off_below_cycle(cycle: int, tenths: int)
    requires
        cycle >= 0,
        0 <= tenths <= 10,
    ensures
        cycle * tenths / 10 <= cycle,
{
    assert(cycle * tenths <= cycle * 10) by (nonlinear_arith)
        requires
            cycle >= 0,
            tenths <= 10,
    ;
    assert(cycle * tenths / 10 <= cycle * 10 / 10) by (nonlinear_arith)
        requires
            cycle * tenths <= cycle * 10,
    ;
    assert(cycle * 10 / 10 == cycle) by (nonlinear_arith);
}

} // verus!
