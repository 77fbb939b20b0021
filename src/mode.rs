//! The operator-facing state machine: setup, then paused and running in turn,
//! until the operator quits.

use vstd::prelude::*;
use crate::benchmark::{Benchmark, ONE_SECOND, speed_hundredths};
use crate::dual::{DualSimulationHandle, stepped_both, swapped};
use crate::status::{speed_line, speed_line_text};
use crate::pacing::{
    INITIAL_SPEED, decrease, elapsed_since, increase, should_step_now, slowed_down, sped_up,
    step_due,
};

verus! {

/// Where the controller stands.
#[derive(Clone, Copy, Debug, PartialEq, Eq, Structural)]
pub enum State {
    /// Waiting for setup to produce the two instances; nothing steps.
    Setup,
    /// Both instances are held; only a manual step advances them.
    Paused,
    /// Both instances advance on their own, paced against real time.
    /// `speed` is the last measured speed in hundredths, or `None` until the
    /// first measurement window has completed.
    Running { last_step: u64, benchmark: Benchmark, speed: Option<u128> },
    /// The operator quit: the instances are gone and nothing changes any more.
    Exited,
}

/// What the surrounding event loop should do until the next event.
#[derive(Clone, Copy, Debug, PartialEq, Eq, Structural)]
pub enum EventLoopMode {
    /// Wait for the next input.
    InputOnly,
    /// Keep delivering update ticks.
    Animation,
}

/// One event delivered to the controller. Times are real microseconds read
/// from a monotonic clock.
#[derive(Clone, Copy, Debug, PartialEq, Eq, Structural)]
pub enum Input {
    /// Setup finished with the instances `primary` and `secondary`.
    SetupDone { primary: u64, secondary: u64 },
    /// A scheduling tick at real time `now`.
    Tick { now: u64 },
    /// Toggle between running and paused, at real time `now`.
    RunPause { now: u64 },
    /// Step both instances once while paused.
    SingleStep,
    SpeedUp,
    SlowDown,
    Swap,
    Quit,
}

/// The dual-simulation controller.
#[derive(Clone, Copy, Debug, PartialEq, Eq, Structural)]
pub struct ABTestMode {
    /// Simulated seconds per real second, in tenths.
    pub desired_speed: u64,
    pub state: State,
    /// The two instances, present exactly while paused or running.
    pub sims: Option<DualSimulationHandle>,
    /// Simulated microseconds advanced by one step.
    pub timestep: u64,
}

/// Paused or running: the states in which the instances exist and the global
/// commands apply.
pub open spec fn is_active(s: State) -> bool {
    s is Paused || s is Running
}

impl ABTestMode {
    /// The instances exist exactly while paused or running, and they are in
    /// step with each other.
    pub open spec fn wf(&self) -> bool {
        &&& is_active(self.state) <==> self.sims is Some
        &&& self.sims is Some ==> self.sims.unwrap().wf()
    }
}

/// Setup finished: pair the instances and pause.
pub open spec fn after_setup_done(m: ABTestMode, primary: u64, secondary: u64) -> ABTestMode {
    if m.state is Setup {
        ABTestMode {
            state: State::Paused,
            sims: Some(DualSimulationHandle::fresh(primary, secondary)),
            ..m
        }
    } else {
        m
    }
}

/// Run from paused with a fresh benchmark window, or pause from running,
/// dropping the window and the measured speed.
pub open spec fn after_run_pause(m: ABTestMode, now: u64) -> ABTestMode {
    match m.state {
        State::Paused => ABTestMode {
            state: State::Running {
                last_step: now,
                benchmark: Benchmark { start_real: now, start_sim: m.sims.unwrap().primary.time },
                speed: None,
            },
            ..m
        },
        State::Running { .. } => ABTestMode { state: State::Paused, ..m },
        _ => m,
    }
}

/// A manual step, offered only while paused.
pub open spec fn after_single_step(m: ABTestMode) -> ABTestMode {
    if m.state is Paused && m.sims.unwrap().can_step_spec(m.timestep) {
        ABTestMode { sims: Some(stepped_both(m.sims.unwrap(), m.timestep)), ..m }
    } else {
        m
    }
}

pub open spec fn after_speed_up(m: ABTestMode) -> ABTestMode {
    if is_active(m.state) {
        ABTestMode { desired_speed: sped_up(m.desired_speed), ..m }
    } else {
        m
    }
}

pub open spec fn after_slow_down(m: ABTestMode) -> ABTestMode {
    if is_active(m.state) {
        ABTestMode { desired_speed: slowed_down(m.desired_speed), ..m }
    } else {
        m
    }
}

pub open spec fn after_swap(m: ABTestMode) -> ABTestMode {
    if is_active(m.state) {
        ABTestMode { sims: Some(swapped(m.sims.unwrap())), ..m }
    } else {
        m
    }
}

pub open spec fn after_quit(m: ABTestMode) -> ABTestMode {
    if is_active(m.state) {
        ABTestMode { state: State::Exited, sims: None, ..m }
    } else {
        m
    }
}

/// The measured speed after a step taken at `now` that brought the
/// simulation to `sim_time`: refreshed once more than a second of the window
/// has passed, kept otherwise. The window itself is never reset while running.
pub open spec fn refreshed_speed(
    benchmark: Benchmark,
    speed: Option<u128>,
    now: u64,
    sim_time: u64,
) -> Option<u128> {
    if elapsed_since(now, benchmark.start_real) > ONE_SECOND {
        Some(
            speed_hundredths(
                elapsed_since(sim_time, benchmark.start_sim),
                elapsed_since(now, benchmark.start_real),
            ) as u128,
        )
    } else {
        speed
    }
}

/// A scheduling tick: while running, step both instances once if a step is
/// due and the counters have room, and restart the pacing interval at `now`.
pub open spec fn after_tick(m: ABTestMode, now: u64) -> ABTestMode {
    match m.state {
        State::Running { last_step, benchmark, speed } => {
            let h = m.sims.unwrap();
            if step_due(elapsed_since(now, last_step), m.desired_speed as nat, m.timestep as nat)
                && h.can_step_spec(m.timestep) {
                let h2 = stepped_both(h, m.timestep);
                ABTestMode {
                    state: State::Running {
                        last_step: now,
                        benchmark,
                        speed: refreshed_speed(benchmark, speed, now, h2.primary.time),
                    },
                    sims: Some(h2),
                    ..m
                }
            } else {
                m
            }
        },
        _ => m,
    }
}

/// The controller after one input.
pub open spec fn after_input(m: ABTestMode, input: Input) -> ABTestMode {
    match input {
        Input::SetupDone { primary, secondary } => after_setup_done(m, primary, secondary),
        Input::Tick { now } => after_tick(m, now),
        Input::RunPause { now } => after_run_pause(m, now),
        Input::SingleStep => after_single_step(m),
        Input::SpeedUp => after_speed_up(m),
        Input::SlowDown => after_slow_down(m),
        Input::Swap => after_swap(m),
        Input::Quit => after_quit(m),
    }
}

/// The controller after a whole sequence of inputs, in order.
pub open spec fn after_inputs(m: ABTestMode, inputs: Seq<Input>) -> ABTestMode
    decreases inputs.len(),
{
    if inputs.len() == 0 {
        m
    } else {
        after_inputs(after_input(m, inputs[0]), inputs.drop_first())
    }
}

/// How the event loop should proceed after `input` reached `m`: keep ticking
/// while the controller was running, unless the input quit.
pub open spec fn loop_mode_after(m: ABTestMode, input: Input) -> EventLoopMode {
    if m.state is Running && !(input is Quit) {
        EventLoopMode::Animation
    } else {
        EventLoopMode::InputOnly
    }
}

/// What the status line shows for the achieved speed.
#[derive(Clone, Copy, Debug, PartialEq, Eq, Structural)]
pub enum SpeedReading {
    /// Not running (also before setup and after quitting).
    Paused,
    /// Running, but the first measurement window has not completed.
    Pending,
    /// Running, with the last measured speed in hundredths.
    Measured(u128),
}

pub open spec fn speed_reading_of(s: State) -> SpeedReading {
    match s {
        State::Running { speed, .. } => match speed {
            Some(v) => SpeedReading::Measured(v),
            None => SpeedReading::Pending,
        },
        _ => SpeedReading::Paused,
    }
}

impl ABTestMode {
    /// A controller waiting for setup, at one simulated second per real
    /// second, stepping `timestep` simulated microseconds at a time.
    pub fn new(timestep: u64) -> (r: ABTestMode)
        ensures
            r == (ABTestMode {
                desired_speed: INITIAL_SPEED,
                state: State::Setup,
                sims: None,
                timestep,
            }),
            r.wf(),
    {
        ABTestMode { desired_speed: INITIAL_SPEED, state: State::Setup, sims: None, timestep }
    }

    /// Setup produced the instances `primary` and `secondary`: pause with
    /// both at step zero. Outside setup this changes nothing.
    pub fn setup_done(&mut self, primary: u64, secondary: u64)
        requires
            old(self).wf(),
        ensures
            *final(self) == after_setup_done(*old(self), primary, secondary),
            final(self).wf(),
    {
        if let State::Setup = self.state {
            self.state = State::Paused;
            self.sims = Some(DualSimulationHandle::new(primary, secondary));
        }
    }

    /// Paused: start running at `now` with a fresh benchmark window.
    /// Running: pause. Otherwise nothing changes.
    pub fn cmd_run_pause(&mut self, now: u64)
        requires
            old(self).wf(),
        ensures
            *final(self) == after_run_pause(*old(self), now),
            final(self).wf(),
    {
        match self.state {
            State::Paused => {
                let h = self.sims.unwrap();
                self.state = State::Running {
                    last_step: now,
                    benchmark: Benchmark::start(now, h.time()),
                    speed: None,
                };
            },
            State::Running { .. } => {
                self.state = State::Paused;
            },
            _ => {},
        }
    }

    /// While paused, steps both instances once; returns whether it did.
    pub fn cmd_single_step(&mut self) -> (stepped: bool)
        requires
            old(self).wf(),
        ensures
            *final(self) == after_single_step(*old(self)),
            final(self).wf(),
            stepped == (final(self).sims != old(self).sims),
    {
        if let State::Paused = self.state {
            let mut h = self.sims.unwrap();
            if h.can_step(self.timestep) {
                h.step_both(self.timestep);
                self.sims = Some(h);
                return true;
            }
        }
        false
    }

    /// Raises the desired speed by 0.1 while paused or running.
    pub fn cmd_speed_up(&mut self)
        requires
            old(self).wf(),
        ensures
            *final(self) == after_speed_up(*old(self)),
            final(self).wf(),
    {
        if self.is_active() {
            self.desired_speed = increase(self.desired_speed);
        }
    }

    /// Lowers the desired speed by 0.1, never below zero, while paused or
    /// running.
    pub fn cmd_slow_down(&mut self)
        requires
            old(self).wf(),
        ensures
            *final(self) == after_slow_down(*old(self)),
            final(self).wf(),
    {
        if self.is_active() {
            self.desired_speed = decrease(self.desired_speed);
        }
    }

    /// Exchanges which instance is primary while paused or running.
    pub fn cmd_swap(&mut self)
        requires
            old(self).wf(),
        ensures
            *final(self) == after_swap(*old(self)),
            final(self).wf(),
    {
        if self.is_active() {
            let mut h = self.sims.unwrap();
            h.swap();
            self.sims = Some(h);
        }
    }

    /// Drops both instances and leaves the controller for good, from paused
    /// or running.
    pub fn cmd_quit(&mut self)
        requires
            old(self).wf(),
        ensures
            *final(self) == after_quit(*old(self)),
            final(self).wf(),
    {
        if self.is_active() {
            self.state = State::Exited;
            self.sims = None;
        }
    }

    /// A scheduling tick at real time `now`. While running and a step is due,
    /// steps both instances once, restarts the pacing interval and, once the
    /// benchmark window is over a second old, refreshes the measured speed.
    /// Returns whether the instances moved, so that a redraw is needed.
    pub fn on_tick(&mut self, now: u64) -> (redraw: bool)
        requires
            old(self).wf(),
        ensures
            *final(self) == after_tick(*old(self), now),
            final(self).wf(),
            redraw == (final(self).sims != old(self).sims),
    {
        if let State::Running { last_step, benchmark, speed } = self.state {
            let mut h = self.sims.unwrap();
            if should_step_now(now, last_step, self.desired_speed, self.timestep)
                && h.can_step(self.timestep) {
                h.step_both(self.timestep);
                let mut b = benchmark;
                let new_speed = if b.has_real_time_passed(now, ONE_SECOND) {
                    Some(b.measure_speed(now, h.time(), false))
                } else {
                    speed
                };
                self.state = State::Running { last_step: now, benchmark: b, speed: new_speed };
                self.sims = Some(h);
                return true;
            }
        }
        false
    }

    /// Handles one input and says how the event loop should go on.
    pub fn event(&mut self, input: Input) -> (r: EventLoopMode)
        requires
            old(self).wf(),
        ensures
            *final(self) == after_input(*old(self), input),
            final(self).wf(),
            r == loop_mode_after(*old(self), input),
    {
        let r = if let State::Running { .. } = self.state {
            if let Input::Quit = input {
                EventLoopMode::InputOnly
            } else {
                EventLoopMode::Animation
            }
        } else {
            EventLoopMode::InputOnly
        };
        match input {
            Input::SetupDone { primary, secondary } => self.setup_done(primary, secondary),
            Input::Tick { now } => {
                self.on_tick(now);
            },
            Input::RunPause { now } => self.cmd_run_pause(now),
            Input::SingleStep => {
                self.cmd_single_step();
            },
            Input::SpeedUp => self.cmd_speed_up(),
            Input::SlowDown => self.cmd_slow_down(),
            Input::Swap => self.cmd_swap(),
            Input::Quit => self.cmd_quit(),
        }
        r
    }

    /// Whether the instances exist: paused or running.
    pub fn is_active(&self) -> (r: bool)
        ensures
            r == is_active(self.state),
    {
        match self.state {
            State::Paused | State::Running { .. } => true,
            _ => false,
        }
    }

    /// The speed line of the status display, for example
    /// `Speed: 4.20x / desired 1.00x` or `Speed: paused / desired 1.00x`.
    pub fn speed_line(&self) -> (r: String)
        ensures
            r@ == speed_line_text(speed_reading_of(self.state), self.desired_speed),
    {
        speed_line(self.speed_reading(), self.desired_speed)
    }

    /// The achieved speed as the status line shows it.
    pub fn speed_reading(&self) -> (r: SpeedReading)
        ensures
            r == speed_reading_of(self.state),
    {
        match self.state {
            State::Running { speed, .. } => match speed {
                Some(v) => SpeedReading::Measured(v),
                None => SpeedReading::Pending,
            },
            _ => SpeedReading::Paused,
        }
    }
}

/// Every input keeps the controller well formed.
pub proof fn input_preserves_wf(m: ABTestMode, input: Input)
    requires
        m.wf(),
    ensures
        after_input(m, input).wf(),
{
}

} // verus!
