use tether::clock::SimulationClock;
use tether::state::Controls;
use tether::state::RunState;

const SUBSTEP: u64 = 20_000;
const SECOND: u64 = 1_000_000;

#[test]
fn run_state_defaults_to_running() {
    assert_eq!(RunState::default(), RunState::Running);
    assert_eq!(Controls::new().state, RunState::Running);
}

#[test]
fn toggle_edges_alternate_strictly() {
    let mut controls = Controls::new();
    let mut clock = SimulationClock::new(SUBSTEP, 200);
    // Rising edge: Running -> Paused.
    controls.sample_pause_signal(&mut clock, true);
    assert_eq!(controls.state, RunState::Paused);
    assert!(clock.paused);
    // Release, then a fresh edge: Paused -> Running.
    controls.sample_pause_signal(&mut clock, false);
    assert_eq!(controls.state, RunState::Paused);
    controls.sample_pause_signal(&mut clock, true);
    assert_eq!(controls.state, RunState::Running);
    assert!(!clock.paused);
    // And again: Running -> Paused.
    controls.sample_pause_signal(&mut clock, false);
    controls.sample_pause_signal(&mut clock, true);
    assert_eq!(controls.state, RunState::Paused);
    assert!(clock.paused);
}

#[test]
fn held_toggle_signal_does_not_retoggle() {
    let mut controls = Controls::new();
    let mut clock = SimulationClock::new(SUBSTEP, 200);
    controls.sample_pause_signal(&mut clock, true);
    assert_eq!(controls.state, RunState::Paused);
    // The key is held down over several frames: no fresh edge, no toggle.
    for _ in 0..5 {
        controls.sample_pause_signal(&mut clock, true);
        assert_eq!(controls.state, RunState::Paused);
        assert!(clock.paused);
    }
}

#[test]
fn manual_step_accepted_only_while_paused() {
    let mut controls = Controls::new();
    let mut clock = SimulationClock::new(SUBSTEP, 200);
    // While running, a step edge is ignored.
    controls.sample_step_signal(&mut clock, true);
    assert_eq!(clock.accumulator, 0);
    controls.sample_step_signal(&mut clock, false);
    // Pause, then a fresh step edge injects exactly one substep.
    controls.sample_pause_signal(&mut clock, true);
    controls.sample_step_signal(&mut clock, true);
    assert_eq!(clock.accumulator, SUBSTEP);
    // Accepting the step did not itself change the run state.
    assert_eq!(controls.state, RunState::Paused);
}

#[test]
fn held_step_signal_steps_once() {
    let mut controls = Controls::new();
    let mut clock = SimulationClock::new(SUBSTEP, 200);
    controls.sample_pause_signal(&mut clock, true);
    controls.sample_step_signal(&mut clock, true);
    for _ in 0..5 {
        controls.sample_step_signal(&mut clock, true);
    }
    assert_eq!(clock.accumulator, SUBSTEP);
}

#[test]
fn frame_loop_runs_and_pauses() {
    let mut controls = Controls::new();
    let mut clock = SimulationClock::new(SUBSTEP, 200);
    // A running frame converts one second into 50 substeps.
    let n = controls.frame(&mut clock, false, false, SECOND);
    assert_eq!(n, 50);
    // A frame with a pause edge stops time before it accumulates.
    let n = controls.frame(&mut clock, true, false, SECOND);
    assert_eq!(n, 0);
    assert_eq!(controls.state, RunState::Paused);
    // Held pause key, paused frames: nothing is due.
    let n = controls.frame(&mut clock, true, false, SECOND);
    assert_eq!(n, 0);
}

#[test]
fn frame_manual_step_drains_exactly_one_substep() {
    let mut controls = Controls::new();
    let mut clock = SimulationClock::new(SUBSTEP, 200);
    let n = controls.frame(&mut clock, true, false, SECOND);
    assert_eq!(n, 0);
    // Step edge while paused: exactly one substep this frame.
    let n = controls.frame(&mut clock, true, true, SECOND);
    assert_eq!(n, 1);
    // Held step key: no fresh edge, nothing due.
    let n = controls.frame(&mut clock, true, true, SECOND);
    assert_eq!(n, 0);
    // Release and press again: one more substep.
    let n = controls.frame(&mut clock, true, false, SECOND);
    assert_eq!(n, 0);
    let n = controls.frame(&mut clock, true, true, SECOND);
    assert_eq!(n, 1);
}

#[test]
fn frame_cap_bounds_a_burst_after_resume() {
    let mut controls = Controls::new();
    let mut clock = SimulationClock::new(SUBSTEP, 200);
    // Pause; ten seconds pass unnoticed.
    let n = controls.frame(&mut clock, true, false, 10 * SECOND);
    assert_eq!(n, 0);
    // Resume and tick ten more seconds: 500 pending, capped at 200, the
    // remainder discarded rather than queued.
    controls.frame(&mut clock, false, false, 0);
    let n = controls.frame(&mut clock, true, false, 10 * SECOND);
    assert_eq!(n, 200);
    let n = controls.frame(&mut clock, false, false, 0);
    assert_eq!(n, 0);
}
