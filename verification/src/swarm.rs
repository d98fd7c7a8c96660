//! Pacing of a mission run: the swarm ticks a mission until it completes,
//! fails, or runs out of ticks.

use vstd::prelude::*;

verus! {

/// How many ticks a move-to mission may take.
pub const MOVE_TO_MAX_TICKS: u32 = 1000;

/// How many ticks a patrol mission may take.
pub const PATROL_MAX_TICKS: u32 = 2000;

/// How many ticks a search mission may take.
pub const SEARCH_MAX_TICKS: u32 = 3000;

/// What the run does after a tick.
pub enum RunOutcome {
    /// Tick again.
    Continue,
    /// The mission completed.
    Completed,
    /// The mission failed with this error.
    Failed(String),
    /// The tick budget is spent.
    TimedOut,
}

/// A mission run with a budget of ticks.
pub struct MissionRun {
    iteration: u32,
    max_iterations: u32,
}

impl MissionRun {
    /// Ticks counted so far.
    pub closed spec fn ticks(&self) -> nat {
        self.iteration as nat
    }

    /// The tick budget.
    pub closed spec fn budget(&self) -> nat {
        self.max_iterations as nat
    }

    /// The run is within its budget.
    pub open spec fn wf(&self) -> bool {
        self.ticks() < self.budget()
    }

    /// A run with no ticks counted and a budget of `max_iterations`.
    pub fn new(max_iterations: u32) -> (r: MissionRun)
        requires
            max_iterations > 0,
        ensures
            r.ticks() == 0,
            r.budget() == max_iterations,
            r.wf(),
    {
        MissionRun { iteration: 0, max_iterations }
    }

    /// Ticks counted so far.
    pub fn iteration(&self) -> (r: u32)
        ensures
            r == self.ticks(),
    {
        self.iteration
    }

    /// Decides what follows a tick whose result was `tick`: `Ok(true)` when
    /// the mission goes on, `Ok(false)` when it completed, `Err` when it
    /// failed. A mission that goes on counts a tick, and the run times out
    /// once the budget is spent.
    pub fn after_tick(&mut self, tick: Result<bool, String>) -> (r: RunOutcome)
        requires
            old(self).wf(),
        ensures
            final(self).budget() == old(self).budget(),
            match tick {
                Ok(true) => {
                    &&& final(self).ticks() == old(self).ticks() + 1
                    &&& if final(self).ticks() >= final(self).budget() {
                        r is TimedOut
                    } else {
                        r is Continue && final(self).wf()
                    }
                },
                Ok(false) => r is Completed && *final(self) == *old(self),
                Err(e) => r == RunOutcome::Failed(e) && *final(self) == *old(self),
            },
    {
        match tick {
            Ok(true) => {
                self.iteration = self.iteration + 1;
                if self.iteration >= self.max_iterations {
                    RunOutcome::TimedOut
                } else {
                    RunOutcome::Continue
                }
            },
            Ok(false) => RunOutcome::Completed,
            Err(e) => RunOutcome::Failed(e),
        }
    }
}

} // verus!
