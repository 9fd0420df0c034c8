//! The pause/resume state machine and the per-frame control loop.
//!
//! A two-state machine (`Running`, `Paused`) gates the simulation clock:
//! entering `Paused` pauses the clock, leaving it unpauses the clock.
//! Transitions are edge-triggered: the controls sample a level signal
//! once per frame and toggle only on a rising edge, so a held key does
//! not re-toggle. A second edge-triggered signal requests a manual
//! single-step advance, accepted only while paused.

use vstd::prelude::*;
use crate::clock::SimulationClock;

verus! {

/// Whether the simulation advances automatically from the wall clock.
#[derive(Clone, Copy, PartialEq, Eq, Structural, Debug)]
pub enum RunState {
    /// Wall-clock time accumulates into physics time each frame.
    Running,
    /// Time accumulation is halted; only manual single steps advance
    /// physics.
    Paused,
}

impl RunState {
    /// The opposite state: one toggle edge moves between `Running` and
    /// `Paused`.
    pub open spec fn spec_toggled(self) -> RunState {
        match self {
            RunState::Running => RunState::Paused,
            RunState::Paused => RunState::Running,
        }
    }

    /// Flip between `Running` and `Paused`.
    pub fn toggled(self) -> (next: RunState)
        ensures
            next == self.spec_toggled(),
    {
        match self {
            RunState::Running => RunState::Paused,
            RunState::Paused => RunState::Running,
        }
    }
}

impl Default for RunState {
    /// The simulation starts out running.
    fn default() -> (state: Self)
        ensures
            state == RunState::Running,
    {
        RunState::Running
    }
}

/// A rising edge of a level signal sampled once per frame: high now,
/// low at the previous sample.
pub open spec fn spec_edge(prev_level: bool, level: bool) -> bool {
    level && !prev_level
}

/// The control state carried from frame to frame: the run state and the
/// previous level of each input signal, for edge detection.
#[derive(Clone, Copy, PartialEq, Eq, Structural, Debug)]
pub struct Controls {
    /// The current run state; starts as `Running`.
    pub state: RunState,
    /// Level of the pause-toggle signal at the previous sample.
    pub toggle_level: bool,
    /// Level of the manual-step signal at the previous sample.
    pub step_level: bool,
}

impl Controls {
    /// The controls and clock after sampling the pause-toggle signal: on
    /// a rising edge the run state flips and the clock is paused or
    /// unpaused to match; otherwise only the remembered level changes.
    pub open spec fn spec_pause_sampled(self, clock: SimulationClock, level: bool) -> (
        Controls,
        SimulationClock,
    ) {
        if spec_edge(self.toggle_level, level) {
            let next = self.state.spec_toggled();
            (
                Controls { state: next, toggle_level: level, ..self },
                SimulationClock { paused: next is Paused, ..clock },
            )
        } else {
            (Controls { toggle_level: level, ..self }, clock)
        }
    }

    /// The controls and clock after sampling the manual-step signal: on a
    /// rising edge while paused, one substep's worth of time is injected
    /// into the clock; in every other case only the remembered level
    /// changes.
    pub open spec fn spec_step_sampled(self, clock: SimulationClock, level: bool) -> (
        Controls,
        SimulationClock,
    ) {
        let next = Controls { step_level: level, ..self };
        if spec_edge(self.step_level, level) && self.state is Paused {
            (next, clock.spec_manual_advanced())
        } else {
            (next, clock)
        }
    }

    /// Fresh controls: running, with both signals remembered as low.
    pub fn new() -> (controls: Controls)
        ensures
            controls == (Controls {
                state: RunState::Running,
                toggle_level: false,
                step_level: false,
            }),
    {
        Controls { state: RunState::Running, toggle_level: false, step_level: false }
    }

    /// Sample the pause-toggle signal for this frame. On a rising edge
    /// the run state flips; entering `Paused` pauses the clock and
    /// entering `Running` unpauses it. A held (level) signal without a
    /// fresh edge changes nothing but the remembered level.
    pub fn sample_pause_signal(&mut self, clock: &mut SimulationClock, level: bool)
        ensures
            (*final(self), *final(clock)) == old(self).spec_pause_sampled(*old(clock), level),
    {
        if level && !self.toggle_level {
            self.state = self.state.toggled();
            match self.state {
                RunState::Paused => clock.pause(),
                RunState::Running => clock.unpause(),
            }
        }
        self.toggle_level = level;
    }

    /// Sample the manual-step signal for this frame. On a rising edge
    /// while paused, request one manual substep from the clock; manual
    /// stepping is ignored while running, and accepting one does not
    /// itself change the run state.
    pub fn sample_step_signal(&mut self, clock: &mut SimulationClock, level: bool)
        requires
            spec_edge(old(self).step_level, level) && old(self).state is Paused
                && old(clock).paused ==> old(clock).accumulator + old(clock).substep_duration
                <= u64::MAX,
        ensures
            (*final(self), *final(clock)) == old(self).spec_step_sampled(*old(clock), level),
    {
        if level && !self.step_level {
            match self.state {
                RunState::Paused => clock.request_manual_advance(),
                RunState::Running => (),
            }
        }
        self.step_level = level;
    }
}

/// Everything one rendered frame does to the control and time state, in
/// order: sample the pause toggle, sample the manual-step signal, add the
/// frame's elapsed wall-clock time, and convert the accumulated time into
/// the substeps now due. The third component is that substep count.
pub open spec fn spec_frame(
    controls: Controls,
    clock: SimulationClock,
    toggle_level: bool,
    step_level: bool,
    elapsed: u64,
) -> (Controls, SimulationClock, int) {
    let (c1, k1) = controls.spec_pause_sampled(clock, toggle_level);
    let (c2, k2) = c1.spec_step_sampled(k1, step_level);
    let k3 = k2.spec_ticked(elapsed);
    (c2, k3.spec_drained(), k3.drainable_substeps())
}

impl Controls {
    /// Run one frame of the control loop and return how many fixed
    /// substeps the solver must now run, all due substeps being handed
    /// out before the frame renders.
    pub fn frame(&mut self, clock: &mut SimulationClock, toggle_level: bool, step_level: bool,
        elapsed: u64) -> (substeps: u64)
        requires
            old(clock).wf(),
            old(clock).accumulator + old(clock).substep_duration + elapsed <= u64::MAX,
        ensures
            (*final(self), *final(clock), substeps as int) == spec_frame(
                *old(self),
                *old(clock),
                toggle_level,
                step_level,
                elapsed,
            ),
    {
        self.sample_pause_signal(clock, toggle_level);
        self.sample_step_signal(clock, step_level);
        clock.tick(elapsed);
        clock.drain_substeps()
    }
}

/// The run state and the clock's paused flag move in lockstep: if they
/// agree before a frame, they agree after it.
pub open spec fn coupled(controls: Controls, clock: SimulationClock) -> bool {
    clock.paused == (controls.state is Paused)
}

/// One frame of the control loop preserves the coupling between the run
/// state and the clock's paused flag.
pub proof fn lemma_frame_preserves_coupling(
    controls: Controls,
    clock: SimulationClock,
    toggle_level: bool,
    step_level: bool,
    elapsed: u64,
)
    requires
        coupled(controls, clock),
    ensures
        ({
            let (c, k, n) = spec_frame(controls, clock, toggle_level, step_level, elapsed);
            coupled(c, k)
        }),
{
}

/// Toggling strictly alternates: a toggle always changes the run state,
/// and a second toggle restores it.
pub proof fn lemma_toggle_alternates(state: RunState)
    ensures
        state.spec_toggled() != state,
        state.spec_toggled().spec_toggled() == state,
{
}

/// A held pause signal toggles exactly once: after the frame that saw
/// the rising edge, further frames at the same high level leave the
/// controls and the clock entirely alone.
pub proof fn lemma_held_toggle_signal_toggles_once(controls: Controls, clock: SimulationClock)
    ensures
        ({
            let (c1, k1) = controls.spec_pause_sampled(clock, true);
            let (c2, k2) = c1.spec_pause_sampled(k1, true);
            &&& !controls.toggle_level ==> c1.state == controls.state.spec_toggled()
            &&& c2 == c1
            &&& k2 == k1
        }),
{
}

/// Separate rising edges alternate the run state strictly: toggle, then
/// release, then toggle again returns to the original state, having
/// visited the opposite state in between.
pub proof fn lemma_fresh_edges_alternate(controls: Controls, clock: SimulationClock)
    requires
        !controls.toggle_level,
    ensures
        ({
            let (c1, k1) = controls.spec_pause_sampled(clock, true);
            let (c2, k2) = c1.spec_pause_sampled(k1, false);
            let (c3, k3) = c2.spec_pause_sampled(k2, true);
            &&& c1.state == controls.state.spec_toggled()
            &&& c2.state == c1.state
            &&& c3.state == controls.state
        }),
{
}

} // verus!
