//! A pair of simulation instances that only ever advance together.

use vstd::prelude::*;

verus! {

/// The controller's record of one simulation instance: which instance it is,
/// how many steps it has taken and the simulated time it has reached.
#[derive(Clone, Copy, Debug, PartialEq, Eq, Structural)]
pub struct SimulationHandle {
    pub id: u64,
    pub steps: u64,
    pub time: u64,
}

/// The instance after one step of `timestep` simulated microseconds.
pub open spec fn stepped_once(s: SimulationHandle, timestep: u64) -> SimulationHandle {
    SimulationHandle { id: s.id, steps: (s.steps + 1) as u64, time: (s.time + timestep) as u64 }
}

/// Two instances under comparison. Which one is primary is a label only.
#[derive(Clone, Copy, Debug, PartialEq, Eq, Structural)]
pub struct DualSimulationHandle {
    pub primary: SimulationHandle,
    pub secondary: SimulationHandle,
}

/// Both instances, each advanced by one step.
pub open spec fn stepped_both(h: DualSimulationHandle, timestep: u64) -> DualSimulationHandle {
    DualSimulationHandle {
        primary: stepped_once(h.primary, timestep),
        secondary: stepped_once(h.secondary, timestep),
    }
}

/// The same two instances with their labels exchanged.
pub open spec fn swapped(h: DualSimulationHandle) -> DualSimulationHandle {
    DualSimulationHandle { primary: h.secondary, secondary: h.primary }
}

impl DualSimulationHandle {
    /// Both instances have taken the same number of steps and stand at the
    /// same simulated time.
    pub open spec fn wf(&self) -> bool {
        &&& self.primary.steps == self.secondary.steps
        &&& self.primary.time == self.secondary.time
    }

    /// One more step of `timestep` fits in both counters.
    pub open spec fn can_step_spec(&self, timestep: u64) -> bool {
        &&& self.primary.steps < u64::MAX
        &&& self.primary.time <= u64::MAX - timestep
    }

    /// A fresh pair: neither instance has stepped yet.
    pub open spec fn fresh(primary_id: u64, secondary_id: u64) -> DualSimulationHandle {
        DualSimulationHandle {
            primary: SimulationHandle { id: primary_id, steps: 0, time: 0 },
            secondary: SimulationHandle { id: secondary_id, steps: 0, time: 0 },
        }
    }

    /// Pairs the two instances that setup produced.
    pub fn new(primary_id: u64, secondary_id: u64) -> (r: DualSimulationHandle)
        ensures
            r == DualSimulationHandle::fresh(primary_id, secondary_id),
            r.wf(),
    {
        DualSimulationHandle {
            primary: SimulationHandle { id: primary_id, steps: 0, time: 0 },
            secondary: SimulationHandle { id: secondary_id, steps: 0, time: 0 },
        }
    }

    /// Whether both counters have room for one more step of `timestep`.
    pub fn can_step(&self, timestep: u64) -> (r: bool)
        ensures
            r == self.can_step_spec(timestep),
    {
        self.primary.steps < u64::MAX && self.primary.time <= u64::MAX - timestep
    }

    /// Advances the primary, then the secondary, by one step each.
    pub fn step_both(&mut self, timestep: u64)
        requires
            old(self).wf(),
            old(self).can_step_spec(timestep),
        ensures
            *final(self) == stepped_both(*old(self), timestep),
            final(self).wf(),
    {
        self.primary = SimulationHandle {
            id: self.primary.id,
            steps: self.primary.steps + 1,
            time: self.primary.time + timestep,
        };
        self.secondary = SimulationHandle {
            id: self.secondary.id,
            steps: self.secondary.steps + 1,
            time: self.secondary.time + timestep,
        };
    }

    /// Exchanges the primary and secondary labels; neither instance changes.
    pub fn swap(&mut self)
        ensures
            *final(self) == swapped(*old(self)),
    {
        let p = self.primary;
        self.primary = self.secondary;
        self.secondary = p;
    }

    /// Simulated time both instances have reached.
    pub fn time(&self) -> (r: u64)
        ensures
            r == self.primary.time,
    {
        self.primary.time
    }
}

/// Swapping twice gives back the pair as it was, and a single swap hands each
/// instance over untouched: same identity, same step count, same simulated
/// time.
pub proof fn swap_twice_restores(h: DualSimulationHandle)
    ensures
        swapped(swapped(h)) == h,
        swapped(h).primary == h.secondary,
        swapped(h).secondary == h.primary,
        h.wf() ==> swapped(h).wf(),
{
}

} // verus!
