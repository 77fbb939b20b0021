//! Throughput measurement: simulated time advanced per real time elapsed.

use vstd::prelude::*;
use crate::pacing::{elapsed_since, elapsed_micros};

verus! {

/// One real second, in microseconds: the window a measurement waits for.
pub const ONE_SECOND: u64 = 1_000_000;

/// Speeds are reported in hundredths (`420` reads "4.20x").
pub const REPORT_SCALE: u64 = 100;

/// Achieved speed in hundredths: simulated time over real time, rounded down.
pub open spec fn speed_hundredths(sim_elapsed: nat, real_elapsed: nat) -> nat
    recommends
        real_elapsed > 0,
{
    (sim_elapsed * (REPORT_SCALE as nat) / real_elapsed) as nat
}

/// The start of a measurement window: when it began in real time and where the
/// simulation stood then.
#[derive(Clone, Copy, Debug, PartialEq, Eq, Structural)]
pub struct Benchmark {
    pub start_real: u64,
    pub start_sim: u64,
}

impl Benchmark {
    /// Opens a window at real time `now`, with the simulation at `sim_time`.
    pub fn start(now: u64, sim_time: u64) -> (r: Benchmark)
        ensures
            r == (Benchmark { start_real: now, start_sim: sim_time }),
    {
        Benchmark { start_real: now, start_sim: sim_time }
    }

    /// Whether more than `threshold` real microseconds have passed since the
    /// window opened.
    pub fn has_real_time_passed(&self, now: u64, threshold: u64) -> (r: bool)
        ensures
            r == (elapsed_since(now, self.start_real) > threshold),
    {
        elapsed_micros(now, self.start_real) > threshold
    }

    /// The speed achieved since the window opened, in hundredths, with the
    /// simulation now at `sim_time`. With `reset`, the window then starts over
    /// at `now`; without it the window keeps growing.
    pub fn measure_speed(&mut self, now: u64, sim_time: u64, reset: bool) -> (r: u128)
        requires
            elapsed_since(now, old(self).start_real) > 0,
        ensures
            r == speed_hundredths(
                elapsed_since(sim_time, old(self).start_sim),
                elapsed_since(now, old(self).start_real),
            ),
            reset ==> *final(self) == (Benchmark { start_real: now, start_sim: sim_time }),
            !reset ==> *final(self) == *old(self),
    {
        let real_us: u64 = elapsed_micros(now, self.start_real);
        let sim_us: u64 = elapsed_micros(sim_time, self.start_sim);
        let scaled: u128 = (sim_us as u128) * (REPORT_SCALE as u128);
        let r: u128 = scaled / (real_us as u128);
        if reset {
            *self = Benchmark::start(now, sim_time);
        }
        r
    }
}

} // verus!
