//! What holds of the controller over whole runs of inputs.

use vstd::prelude::*;
use crate::benchmark::Benchmark;
use crate::mode::{
    ABTestMode, Input, State, after_input, after_inputs, after_quit, after_run_pause,
    after_swap, input_preserves_wf, is_active,
};
use crate::pacing::{step_due, SPEED_SCALE};

verus! {

/// Every run of inputs keeps the controller well formed.
pub proof fn inputs_preserve_wf(m: ABTestMode, inputs: Seq<Input>)
    requires
        m.wf(),
    ensures
        after_inputs(m, inputs).wf(),
    decreases inputs.len(),
{
    if inputs.len() > 0 {
        input_preserves_wf(m, inputs[0]);
        inputs_preserve_wf(after_input(m, inputs[0]), inputs.drop_first());
    }
}

/// Whatever the operator presses, in whatever order, the desired speed never
/// drops below zero, and pressing "slow down" at zero leaves it at zero.
pub proof fn desired_speed_never_negative(m: ABTestMode, inputs: Seq<Input>)
    ensures
        after_inputs(m, inputs).desired_speed as int >= 0,
        m.desired_speed == 0 ==> after_input(m, Input::SlowDown).desired_speed == 0,
{
}

/// After every input, and so after every tick while running, the primary and
/// the secondary have been stepped the same number of times and stand at the
/// same simulated time.
pub proof fn instances_stay_in_step(m: ABTestMode, inputs: Seq<Input>)
    requires
        m.wf(),
    ensures
        after_inputs(m, inputs).sims matches Some(h) ==> h.primary.steps == h.secondary.steps
            && h.primary.time == h.secondary.time,
{
    inputs_preserve_wf(m, inputs);
}

/// Two swaps give back the controller as it was; one swap changes neither
/// instance, only which of them is primary.
pub proof fn swap_twice_is_identity(m: ABTestMode)
    requires
        m.wf(),
    ensures
        after_swap(after_swap(m)) == m,
        is_active(m.state) ==> after_swap(m).sims.unwrap().primary == m.sims.unwrap().secondary
            && after_swap(m).sims.unwrap().secondary == m.sims.unwrap().primary,
{
}

/// At one simulated second per real second and a timestep of 0.1 s, a step
/// is due exactly when 0.1 s of real time has passed since the last one.
pub proof fn unit_speed_steps_every_timestep(elapsed: nat)
    ensures
        step_due(elapsed, SPEED_SCALE as nat, 100_000) <==> elapsed >= 100_000,
{
}

/// At a desired speed of zero no tick ever steps the instances, however much
/// real time passes.
pub proof fn zero_speed_never_steps(m: ABTestMode, inputs: Seq<Input>)
    requires
        m.desired_speed == 0,
        forall|i: int| 0 <= i < inputs.len() ==> inputs[i] is Tick,
    ensures
        after_inputs(m, inputs).sims == m.sims,
        after_inputs(m, inputs) == m,
    decreases inputs.len(),
{
    if inputs.len() > 0 {
        let rest = inputs.drop_first();
        assert(after_input(m, inputs[0]) == m);
        assert forall|i: int| 0 <= i < rest.len() implies rest[i] is Tick by {
            assert(rest[i] == inputs[i + 1]);
        }
        zero_speed_never_steps(m, rest);
    }
}

/// Pausing and resuming opens a new benchmark window at the moment of
/// resuming, measured from where the simulation stands then, with no speed
/// carried over from before the pause.
pub proof fn resume_restarts_benchmark(m: ABTestMode, pause_at: u64, resume_at: u64)
    requires
        m.wf(),
        m.state is Running,
    ensures
        after_run_pause(after_run_pause(m, pause_at), resume_at).state == (State::Running {
            last_step: resume_at,
            benchmark: Benchmark { start_real: resume_at, start_sim: m.sims.unwrap().primary.time },
            speed: None,
        }),
        after_run_pause(after_run_pause(m, pause_at), resume_at).sims == m.sims,
{
}

/// Once the operator has quit, no input changes anything: the instances stay
/// gone and the controller stays where it is.
pub proof fn quit_is_terminal(m: ABTestMode, inputs: Seq<Input>)
    requires
        m.wf(),
        is_active(m.state),
    ensures
        after_inputs(after_quit(m), inputs) == after_quit(m),
        after_inputs(after_quit(m), inputs).sims is None,
{
    exited_stays_exited(after_quit(m), inputs);
}

proof fn exited_stays_exited(q: ABTestMode, inputs: Seq<Input>)
    requires
        q.state is Exited,
    ensures
        after_inputs(q, inputs) == q,
    decreases inputs.len(),
{
    if inputs.len() > 0 {
        assert(after_input(q, inputs[0]) == q);
        exited_stays_exited(q, inputs.drop_first());
    }
}

} // verus!
