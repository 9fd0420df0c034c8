//! A fixed-timestep physics clock.
//!
//! The clock decouples fixed-step constraint solving from the variable
//! rendering frame rate: wall-clock time is accumulated while running and
//! converted into a whole number of fixed-duration substeps on demand.
//! While paused, time does not accumulate, but a manual advance can
//! inject exactly one substep's worth of time for single-step debugging.
//! A per-drain cap bounds how many substeps one frame may hand to the
//! solver; when the cap binds, the excess accumulated time is discarded,
//! not queued.

use vstd::prelude::*;
use vstd::arithmetic::div_mod::lemma_basic_div;
use vstd::arithmetic::div_mod::lemma_div_multiples_vanish_fancy;
use vstd::arithmetic::div_mod::lemma_mod_add_multiples_vanish;
use vstd::arithmetic::div_mod::lemma_small_mod;

verus! {

/// The time-control state of the simulation, in fixed-point micro-units
/// of a second.
#[derive(Clone, Copy, PartialEq, Eq, Structural, Debug)]
pub struct SimulationClock {
    /// Physics time waiting to be consumed as substeps, micro-units.
    pub accumulator: u64,
    /// Duration of one fixed substep, micro-units; positive in any
    /// well-formed clock.
    pub substep_duration: u64,
    /// The most substeps a single drain may hand out; when more are
    /// pending, the excess time is discarded.
    pub max_substeps: u64,
    /// While paused, `tick` is a no-op and only manual advances add time.
    pub paused: bool,
}

impl SimulationClock {
    /// A clock is meaningful only with a positive substep duration.
    pub open spec fn wf(self) -> bool {
        self.substep_duration > 0
    }

    /// Whole substeps currently pending, before the per-drain cap.
    pub open spec fn pending_substeps(self) -> int
        recommends
            self.wf(),
    {
        self.accumulator as int / self.substep_duration as int
    }

    /// Substeps the next `drain_substeps` call will hand out: the pending
    /// count, capped at `max_substeps`.
    pub open spec fn drainable_substeps(self) -> int
        recommends
            self.wf(),
    {
        if self.pending_substeps() > self.max_substeps {
            self.max_substeps as int
        } else {
            self.pending_substeps()
        }
    }

    /// The clock after `tick(elapsed)`: unchanged while paused, otherwise
    /// the elapsed time is added to the accumulator.
    pub open spec fn spec_ticked(self, elapsed: u64) -> SimulationClock
        recommends
            self.paused || self.accumulator + elapsed <= u64::MAX,
    {
        if self.paused {
            self
        } else {
            SimulationClock { accumulator: (self.accumulator + elapsed) as u64, ..self }
        }
    }

    /// The clock after `drain_substeps`: when the cap binds, all
    /// accumulated time is discarded; otherwise only the drained whole
    /// substeps leave and the sub-substep remainder is kept.
    pub open spec fn spec_drained(self) -> SimulationClock
        recommends
            self.wf(),
    {
        if self.pending_substeps() > self.max_substeps {
            SimulationClock { accumulator: 0, ..self }
        } else {
            SimulationClock {
                accumulator: (self.accumulator as int % self.substep_duration as int) as u64,
                ..self
            }
        }
    }

    /// The clock after `request_manual_advance`: one substep's worth of
    /// time is injected while paused; a no-op while running.
    pub open spec fn spec_manual_advanced(self) -> SimulationClock
        recommends
            self.paused ==> self.accumulator + self.substep_duration <= u64::MAX,
    {
        if self.paused {
            SimulationClock {
                accumulator: (self.accumulator + self.substep_duration) as u64,
                ..self
            }
        } else {
            self
        }
    }

    /// A fresh clock: running, with nothing accumulated.
    pub fn new(substep_duration: u64, max_substeps: u64) -> (clock: SimulationClock)
        requires
            substep_duration > 0,
        ensures
            clock == (SimulationClock {
                accumulator: 0,
                substep_duration,
                max_substeps,
                paused: false,
            }),
            clock.wf(),
    {
        SimulationClock { accumulator: 0, substep_duration, max_substeps, paused: false }
    }

    /// Accumulate `elapsed` micro-units of wall-clock time. While paused
    /// this is a no-op: no time accumulates and no substeps become due.
    pub fn tick(&mut self, elapsed: u64)
        requires
            old(self).paused || old(self).accumulator + elapsed <= u64::MAX,
        ensures
            *final(self) == old(self).spec_ticked(elapsed),
    {
        if !self.paused {
            self.accumulator = self.accumulator + elapsed;
        }
    }

    /// Convert the accumulated time into whole substeps now due, capped
    /// at `max_substeps` per drain. When the cap binds, the excess
    /// accumulated time is discarded, not queued for later frames.
    pub fn drain_substeps(&mut self) -> (count: u64)
        requires
            old(self).wf(),
        ensures
            count == old(self).drainable_substeps(),
            *final(self) == old(self).spec_drained(),
    {
        let pending: u64 = self.accumulator / self.substep_duration;
        if pending > self.max_substeps {
            self.accumulator = 0;
            self.max_substeps
        } else {
            self.accumulator = self.accumulator % self.substep_duration;
            pending
        }
    }

    /// Halt time accumulation; nothing else about the clock changes.
    pub fn pause(&mut self)
        ensures
            *final(self) == (SimulationClock { paused: true, ..*old(self) }),
    {
        self.paused = true;
    }

    /// Resume time accumulation from this instant; time that passed while
    /// paused is not back-dated.
    pub fn unpause(&mut self)
        ensures
            *final(self) == (SimulationClock { paused: false, ..*old(self) }),
    {
        self.paused = false;
    }

    /// While paused, inject exactly one substep's worth of time, to be
    /// drained by the next `drain_substeps` call. While running this is a
    /// no-op: manual stepping is a paused-only affordance.
    pub fn request_manual_advance(&mut self)
        requires
            old(self).paused ==> old(self).accumulator + old(self).substep_duration <= u64::MAX,
        ensures
            *final(self) == old(self).spec_manual_advanced(),
    {
        if self.paused {
            self.accumulator = self.accumulator + self.substep_duration;
        }
    }
}

/// While paused, ticking changes nothing: in particular the drainable
/// substep count stays exactly as it was.
pub proof fn lemma_tick_while_paused_is_noop(clock: SimulationClock, elapsed: u64)
    requires
        clock.paused,
    ensures
        clock.spec_ticked(elapsed) == clock,
        clock.spec_ticked(elapsed).drainable_substeps() == clock.drainable_substeps(),
{
}

/// While running with less than one substep already pending, ticking `k`
/// whole substep durations makes exactly `k` substeps drainable (for a
/// `k` within the per-drain cap).
pub proof fn lemma_tick_whole_substeps_drains_exactly(clock: SimulationClock, k: u64)
    requires
        clock.wf(),
        !clock.paused,
        clock.accumulator < clock.substep_duration,
        k <= clock.max_substeps,
        clock.accumulator + k * clock.substep_duration <= u64::MAX,
    ensures
        clock.spec_ticked((k * clock.substep_duration) as u64).drainable_substeps() == k,
{
    let a = clock.accumulator as int;
    let d = clock.substep_duration as int;
    lemma_div_multiples_vanish_fancy(k as int, a, d);
    vstd::arithmetic::mul::lemma_mul_is_commutative(d, k as int);
    assert(d * (k as int) + a == a + (k as int) * d);
}

/// A manual advance while paused (with no whole substep already pending)
/// makes exactly one substep drainable; after that substep is drained,
/// nothing is drainable until another tick or manual advance, and the
/// sub-substep remainder is untouched.
pub proof fn lemma_manual_advance_one_substep(clock: SimulationClock)
    requires
        clock.wf(),
        clock.paused,
        clock.accumulator < clock.substep_duration,
        clock.max_substeps >= 1,
        clock.accumulator + clock.substep_duration <= u64::MAX,
    ensures
        clock.spec_manual_advanced().drainable_substeps() == 1,
        clock.spec_manual_advanced().spec_drained().drainable_substeps() == 0,
        clock.spec_manual_advanced().spec_drained().accumulator == clock.accumulator,
{
    let a = clock.accumulator as int;
    let d = clock.substep_duration as int;
    lemma_div_multiples_vanish_fancy(1, a, d);
    assert(d * 1 + a == a + d);
    lemma_mod_add_multiples_vanish(a, d);
    lemma_small_mod(a as nat, d as nat);
    lemma_basic_div(a, d);
}

/// A manual advance while running changes nothing at all.
pub proof fn lemma_manual_advance_while_running_is_noop(clock: SimulationClock)
    requires
        !clock.paused,
    ensures
        clock.spec_manual_advanced() == clock,
{
}

/// A drain never hands out more than the cap; afterwards nothing is
/// drainable until more time arrives, and when the cap binds the excess
/// accumulated time has been discarded entirely, not queued.
pub proof fn lemma_drain_bounded_and_exhaustive(clock: SimulationClock)
    requires
        clock.wf(),
    ensures
        clock.drainable_substeps() <= clock.max_substeps,
        clock.spec_drained().drainable_substeps() == 0,
        clock.pending_substeps() > clock.max_substeps ==> clock.spec_drained().accumulator == 0,
{
    let a = clock.accumulator as int;
    let d = clock.substep_duration as int;
    if clock.pending_substeps() > clock.max_substeps {
        lemma_basic_div(0, d);
    } else {
        vstd::arithmetic::div_mod::lemma_mod_division_less_than_divisor(a, d);
        lemma_basic_div(a % d, d);
    }
}

} // verus!
