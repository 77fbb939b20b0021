//! When the next simulation step is due, and how the desired speed moves.

use vstd::prelude::*;

verus! {

/// Desired speeds are counted in tenths of a simulated second per real second.
pub const SPEED_SCALE: u64 = 10;

/// One press of "speed up" or "slow down" moves the desired speed by 0.1.
pub const ADJUST_SPEED: u64 = 1;

/// The desired speed a fresh controller starts with: one simulated second per
/// real second.
pub const INITIAL_SPEED: u64 = 10;

/// Real time since `since`, read at `now`; a clock that appears to run
/// backwards counts as no time at all.
pub open spec fn elapsed_since(now: u64, since: u64) -> nat {
    if now >= since {
        (now - since) as nat
    } else {
        0
    }
}

/// A step is due once `elapsed >= timestep / (desired_speed / SPEED_SCALE)`;
/// a desired speed of zero never makes a step due.
pub open spec fn step_due(elapsed: nat, desired_speed: nat, timestep: nat) -> bool {
    desired_speed > 0 && elapsed * desired_speed >= timestep * SPEED_SCALE
}

/// The desired speed after one "speed up": no upper clamp but the machine's.
pub open spec fn sped_up(desired_speed: u64) -> u64 {
    if desired_speed <= u64::MAX - ADJUST_SPEED {
        (desired_speed + ADJUST_SPEED) as u64
    } else {
        u64::MAX
    }
}

/// The desired speed after one "slow down": clamped at zero.
pub open spec fn slowed_down(desired_speed: u64) -> u64 {
    if desired_speed >= ADJUST_SPEED {
        (desired_speed - ADJUST_SPEED) as u64
    } else {
        0
    }
}

/// Real microseconds from `since` to `now`, zero if the clock went backwards.
pub fn elapsed_micros(now: u64, since: u64) -> (r: u64)
    ensures
        r == elapsed_since(now, since),
{
    if now >= since {
        now - since
    } else {
        0
    }
}

/// Whether a step is due at `now` when the last one was taken at `last_step`.
/// At most one step is ever due per evaluation, however much time has passed.
pub fn should_step_now(now: u64, last_step: u64, desired_speed: u64, timestep: u64) -> (r: bool)
    ensures
        r == step_due(elapsed_since(now, last_step), desired_speed as nat, timestep as nat),
{
    if desired_speed == 0 {
        return false;
    }
    let elapsed = elapsed_micros(now, last_step);
    let e: u128 = elapsed as u128;
    let d: u128 = desired_speed as u128;
    proof {
        assert(e * d <= u64::MAX * u64::MAX) by (nonlinear_arith)
            requires
                e <= u64::MAX,
                d <= u64::MAX,
        ;
    }
    let lhs: u128 = e * d;
    let t: u128 = timestep as u128;
    assert(t * 10 <= u64::MAX * 10);
    let rhs: u128 = t * (SPEED_SCALE as u128);
    lhs >= rhs
}

/// Raises the desired speed by 0.1.
pub fn increase(desired_speed: u64) -> (r: u64)
    ensures
        r == sped_up(desired_speed),
        r >= desired_speed,
{
    desired_speed.saturating_add(ADJUST_SPEED)
}

/// Lowers the desired speed by 0.1, never below zero.
pub fn decrease(desired_speed: u64) -> (r: u64)
    ensures
        r == slowed_down(desired_speed),
        r <= desired_speed,
{
    desired_speed.saturating_sub(ADJUST_SPEED)
}

} // verus!
