use abtest::benchmark::Benchmark;
use abtest::dual::{DualSimulationHandle, SimulationHandle};
use abtest::mode::{ABTestMode, EventLoopMode, Input, SpeedReading, State};
use abtest::pacing::{decrease, elapsed_micros, increase, should_step_now};
use abtest::status::{push_decimal, speed_line};

const TIMESTEP: u64 = 100_000;

fn paused_mode() -> ABTestMode {
    let mut m = ABTestMode::new(TIMESTEP);
    m.setup_done(1, 2);
    m
}

fn steps_of(m: &ABTestMode) -> (u64, u64) {
    let h = m.sims.unwrap();
    (h.primary.steps, h.secondary.steps)
}

#[test]
fn new_mode_waits_for_setup() {
    let m = ABTestMode::new(TIMESTEP);
    assert_eq!(m.state, State::Setup);
    assert_eq!(m.desired_speed, 10);
    assert!(m.sims.is_none());
    assert_eq!(m.speed_reading(), SpeedReading::Paused);
}

#[test]
fn setup_done_pauses_with_fresh_pair() {
    let m = paused_mode();
    assert_eq!(m.state, State::Paused);
    let h = m.sims.unwrap();
    assert_eq!(h.primary, SimulationHandle { id: 1, steps: 0, time: 0 });
    assert_eq!(h.secondary, SimulationHandle { id: 2, steps: 0, time: 0 });
}

#[test]
fn commands_ignored_during_setup() {
    let mut m = ABTestMode::new(TIMESTEP);
    let before = m;
    m.cmd_speed_up();
    m.cmd_slow_down();
    m.cmd_swap();
    m.cmd_quit();
    m.cmd_run_pause(5);
    assert!(!m.cmd_single_step());
    assert!(!m.on_tick(1_000_000));
    assert_eq!(m, before);
}

#[test]
fn five_single_steps_keep_both_at_five() {
    let mut m = paused_mode();
    for _ in 0..5 {
        assert!(m.cmd_single_step());
    }
    assert_eq!(steps_of(&m), (5, 5));
    let h = m.sims.unwrap();
    assert_eq!(h.primary.time, 500_000);
    assert_eq!(h.secondary.time, 500_000);
    assert_eq!(m.state, State::Paused);
}

#[test]
fn single_step_ignored_while_running() {
    let mut m = paused_mode();
    m.cmd_run_pause(0);
    assert!(!m.cmd_single_step());
    assert_eq!(steps_of(&m), (0, 0));
}

#[test]
fn double_speed_ticks_step_once_per_tick() {
    let mut m = paused_mode();
    for _ in 0..10 {
        m.cmd_speed_up();
    }
    assert_eq!(m.desired_speed, 20);
    m.cmd_run_pause(0);
    let mut stepped: u64 = 0;
    for k in 1..=10u64 {
        if m.on_tick(k * 60_000) {
            stepped += 1;
        }
    }
    // at most one step per tick, so ten ticks give ten steps
    assert_eq!(stepped, 10);
    assert_eq!(steps_of(&m), (10, 10));
}

#[test]
fn ticks_keep_instances_in_step() {
    let mut m = paused_mode();
    m.cmd_run_pause(0);
    let times = [10_000u64, 100_000, 150_000, 200_000, 200_001, 350_000, 900_000];
    for t in times {
        m.on_tick(t);
        let (p, s) = steps_of(&m);
        assert_eq!(p, s);
    }
    assert_eq!(steps_of(&m), (4, 4));
}

#[test]
fn swap_twice_restores_labels() {
    let mut m = paused_mode();
    m.cmd_single_step();
    let before = m;
    m.cmd_swap();
    let h = m.sims.unwrap();
    assert_eq!(h.primary, SimulationHandle { id: 2, steps: 1, time: 100_000 });
    assert_eq!(h.secondary, SimulationHandle { id: 1, steps: 1, time: 100_000 });
    m.cmd_swap();
    assert_eq!(m, before);
}

#[test]
fn dual_handle_swap_and_step() {
    let mut h = DualSimulationHandle::new(3, 4);
    assert!(h.can_step(TIMESTEP));
    h.step_both(TIMESTEP);
    h.swap();
    assert_eq!(h.primary.id, 4);
    assert_eq!(h.secondary.id, 3);
    assert_eq!(h.time(), 100_000);
}

#[test]
fn dual_handle_refuses_step_past_counter_limit() {
    let mut h = DualSimulationHandle::new(3, 4);
    h.primary.time = u64::MAX - 5;
    h.secondary.time = u64::MAX - 5;
    assert!(!h.can_step(10));
    assert!(h.can_step(5));
}

#[test]
fn unit_speed_step_fires_at_timestep() {
    assert!(!should_step_now(1_099_999, 1_000_000, 10, TIMESTEP));
    assert!(should_step_now(1_100_000, 1_000_000, 10, TIMESTEP));
    assert!(should_step_now(5_000_000, 1_000_000, 10, TIMESTEP));
}

#[test]
fn double_speed_step_interval_halves() {
    assert!(!should_step_now(49_999, 0, 20, TIMESTEP));
    assert!(should_step_now(50_000, 0, 20, TIMESTEP));
}

#[test]
fn zero_speed_never_fires() {
    assert!(!should_step_now(u64::MAX, 0, 0, TIMESTEP));
    let mut m = paused_mode();
    for _ in 0..20 {
        m.cmd_slow_down();
    }
    assert_eq!(m.desired_speed, 0);
    m.cmd_run_pause(0);
    for k in 1..50u64 {
        assert!(!m.on_tick(k * 1_000_000));
    }
    assert_eq!(steps_of(&m), (0, 0));
    m.cmd_run_pause(60_000_000);
    assert!(m.cmd_single_step());
    assert_eq!(steps_of(&m), (1, 1));
}

#[test]
fn clock_going_backwards_counts_as_no_time() {
    assert_eq!(elapsed_micros(5, 10), 0);
    assert_eq!(elapsed_micros(10, 5), 5);
    assert!(!should_step_now(5, 10, 10, TIMESTEP));
}

#[test]
fn speed_never_below_zero() {
    assert_eq!(decrease(0), 0);
    assert_eq!(decrease(1), 0);
    assert_eq!(decrease(15), 14);
    assert_eq!(increase(15), 16);
    assert_eq!(increase(u64::MAX), u64::MAX);
    let mut m = paused_mode();
    for _ in 0..13 {
        m.cmd_slow_down();
    }
    assert_eq!(m.desired_speed, 0);
    m.cmd_speed_up();
    m.cmd_speed_up();
    m.cmd_slow_down();
    assert_eq!(m.desired_speed, 1);
}

#[test]
fn benchmark_measures_exact_ratio() {
    let mut b = Benchmark::start(1_000_000, 500_000);
    assert!(!b.has_real_time_passed(2_000_000, 1_000_000));
    assert!(b.has_real_time_passed(2_000_001, 1_000_000));
    // 4.2 simulated seconds over 1 real second
    assert_eq!(b.measure_speed(2_000_000, 4_700_000, false), 420);
    assert_eq!(b, Benchmark { start_real: 1_000_000, start_sim: 500_000 });
    // 3 simulated seconds over 2 real seconds, rounded down to hundredths
    assert_eq!(b.measure_speed(3_000_000, 3_500_000, true), 150);
    assert_eq!(b, Benchmark { start_real: 3_000_000, start_sim: 3_500_000 });
    assert_eq!(b.measure_speed(6_000_000, 3_600_000, false), 3);
}

#[test]
fn running_measures_speed_after_one_second() {
    let mut m = paused_mode();
    m.cmd_run_pause(0);
    assert_eq!(m.speed_reading(), SpeedReading::Pending);
    let mut t: u64 = 0;
    while t < 1_000_000 {
        t += 100_000;
        assert!(m.on_tick(t));
    }
    // exactly one second has passed: not yet more than the window
    assert_eq!(m.speed_reading(), SpeedReading::Pending);
    assert!(m.on_tick(1_200_000));
    // 1.1 simulated seconds in 1.2 real seconds
    assert_eq!(m.speed_reading(), SpeedReading::Measured(91));
}

#[test]
fn pause_and_resume_restarts_benchmark() {
    let mut m = paused_mode();
    m.cmd_run_pause(0);
    for k in 1..=15u64 {
        m.on_tick(k * 100_000);
    }
    assert_eq!(m.speed_reading(), SpeedReading::Measured(100));
    m.cmd_run_pause(1_600_000);
    assert_eq!(m.state, State::Paused);
    assert_eq!(m.speed_reading(), SpeedReading::Paused);
    m.cmd_run_pause(10_000_000);
    assert_eq!(
        m.state,
        State::Running {
            last_step: 10_000_000,
            benchmark: Benchmark { start_real: 10_000_000, start_sim: 1_500_000 },
            speed: None,
        }
    );
    assert_eq!(m.speed_reading(), SpeedReading::Pending);
}

#[test]
fn quit_is_terminal() {
    let mut m = paused_mode();
    m.cmd_single_step();
    m.cmd_quit();
    assert_eq!(m.state, State::Exited);
    assert!(m.sims.is_none());
    let after_quit = m;
    m.cmd_run_pause(1);
    m.cmd_single_step();
    m.cmd_speed_up();
    m.cmd_slow_down();
    m.cmd_swap();
    m.on_tick(9_000_000);
    m.setup_done(5, 6);
    assert_eq!(m, after_quit);
}

#[test]
fn event_dispatch_and_loop_mode() {
    let mut m = ABTestMode::new(TIMESTEP);
    assert_eq!(m.event(Input::SpeedUp), EventLoopMode::InputOnly);
    assert_eq!(m.desired_speed, 10);
    assert_eq!(m.event(Input::SetupDone { primary: 1, secondary: 2 }), EventLoopMode::InputOnly);
    assert_eq!(m.state, State::Paused);
    assert_eq!(m.event(Input::SingleStep), EventLoopMode::InputOnly);
    assert_eq!(m.event(Input::RunPause { now: 0 }), EventLoopMode::InputOnly);
    assert_eq!(m.event(Input::Tick { now: 100_000 }), EventLoopMode::Animation);
    assert_eq!(steps_of(&m), (2, 2));
    assert_eq!(m.event(Input::Swap), EventLoopMode::Animation);
    assert_eq!(m.sims.unwrap().primary.id, 2);
    assert_eq!(m.event(Input::RunPause { now: 200_000 }), EventLoopMode::Animation);
    assert_eq!(m.state, State::Paused);
    assert_eq!(m.event(Input::SlowDown), EventLoopMode::InputOnly);
    assert_eq!(m.desired_speed, 9);
    m.event(Input::RunPause { now: 300_000 });
    assert_eq!(m.event(Input::Quit), EventLoopMode::InputOnly);
    assert_eq!(m.state, State::Exited);
}

#[test]
fn speed_line_texts() {
    assert_eq!(speed_line(SpeedReading::Paused, 10), "Speed: paused / desired 1.00x");
    assert_eq!(speed_line(SpeedReading::Pending, 20), "Speed: ... / desired 2.00x");
    assert_eq!(speed_line(SpeedReading::Measured(420), 9), "Speed: 4.20x / desired 0.90x");
    assert_eq!(speed_line(SpeedReading::Measured(5), 0), "Speed: 0.05x / desired 0.00x");
    assert_eq!(speed_line(SpeedReading::Measured(12345), 123), "Speed: 123.45x / desired 12.30x");
    let mut s = String::from("n=");
    push_decimal(&mut s, 0);
    push_decimal(&mut s, 1_000_907);
    assert_eq!(s, "n=01000907");
}

#[test]
fn mode_speed_line_follows_state() {
    let mut m = paused_mode();
    assert_eq!(m.speed_line(), "Speed: paused / desired 1.00x");
    m.cmd_speed_up();
    m.cmd_run_pause(0);
    assert_eq!(m.speed_line(), "Speed: ... / desired 1.10x");
}
