//! Decision kernel of the calibration pipeline.
//!
//! One calibration alternates numerical work (a global evolutionary search, a
//! quasi-Newton refinement, a bound expansion) with discrete decisions: which
//! kind of global search to launch, whether a refinement result is kept, and
//! when the adaptive-bounds outer loop runs again or stops. The numerical
//! work stays with the unverified layer, which drives it by the verified
//! decisions defined here.

use vstd::prelude::*;

verus! {

/// How the global search stage of one calibration runs.
#[derive(Debug, Clone, Copy, PartialEq, Eq, Structural)]
pub enum GlobalSearchPlan {
    /// No warm start was given: a full evolutionary search with restarts.
    FullSearch,
    /// A warm start was given and the small search around it is enabled:
    /// sample near the warm start, then refine.
    MiniSearch,
    /// A warm start was given and the small search is disabled: hand the
    /// warm start directly to the local refiner.
    UseGuess,
}

/// Chooses the global search stage from the presence of a warm start and the
/// `mini_cmaes_on_refinement` switch of the optimizer configuration.
pub fn plan_global_search(has_initial_guess: bool, mini_cmaes_on_refinement: bool) -> (r:
    GlobalSearchPlan)
    ensures
        has_initial_guess && mini_cmaes_on_refinement ==> r == GlobalSearchPlan::MiniSearch,
        has_initial_guess && !mini_cmaes_on_refinement ==> r == GlobalSearchPlan::UseGuess,
        !has_initial_guess ==> r == GlobalSearchPlan::FullSearch,
{
    if has_initial_guess {
        if mini_cmaes_on_refinement {
            GlobalSearchPlan::MiniSearch
        } else {
            GlobalSearchPlan::UseGuess
        }
    } else {
        GlobalSearchPlan::FullSearch
    }
}

/// Whether a local refinement result replaces the incumbent: only a
/// refinement that finished without error and strictly reduced the objective
/// is kept; a failed refinement is swallowed and the incumbent survives.
pub fn accept_refinement(refinement_succeeded: bool, strictly_improved: bool) -> (r: bool)
    ensures
        r == (refinement_succeeded && strictly_improved),
{
    refinement_succeeded && strictly_improved
}

/// Progress of the adaptive-bounds outer loop.
///
/// With the loop disabled the search sequence runs exactly once. With it
/// enabled, the sequence runs at most `max_iterations` times and stops early
/// after the first run whose bound expansion moved nothing.
#[derive(Debug, Clone, Copy)]
pub struct AdaptiveSchedule {
    /// Whether the adaptive-bounds loop is enabled.
    pub enabled: bool,
    /// Cap on runs when the loop is enabled.
    pub max_iterations: usize,
    /// Runs of the search sequence recorded so far.
    pub runs_done: usize,
    /// Whether a run whose bound expansion moved nothing has ended the loop.
    pub stopped_early: bool,
}

impl AdaptiveSchedule {
    /// The number of runs this schedule may reach: one when the loop is
    /// disabled, else the configured cap.
    pub open spec fn run_limit(&self) -> nat {
        if self.enabled {
            self.max_iterations as nat
        } else {
            1nat
        }
    }

    /// A fresh schedule: nothing run, nothing stopped.
    pub fn new(enabled: bool, max_iterations: usize) -> (r: Self)
        ensures
            r.enabled == enabled,
            r.max_iterations == max_iterations,
            r.runs_done == 0,
            !r.stopped_early,
    {
        AdaptiveSchedule { enabled, max_iterations, runs_done: 0, stopped_early: false }
    }

    /// Whether another run of the search sequence is due.
    pub fn should_run(&self) -> (r: bool)
        ensures
            r == (!self.stopped_early && self.runs_done < self.run_limit()),
    {
        if self.stopped_early {
            return false;
        }
        if self.enabled {
            self.runs_done < self.max_iterations
        } else {
            self.runs_done < 1
        }
    }

    /// Records one completed run of the search sequence and whether its bound
    /// expansion moved any interval edge; an enabled loop stops early exactly
    /// when nothing moved.
    pub fn record_run(&mut self, bounds_adjusted: bool)
        requires
            !old(self).stopped_early,
            old(self).runs_done < old(self).run_limit(),
        ensures
            final(self).enabled == old(self).enabled,
            final(self).max_iterations == old(self).max_iterations,
            final(self).runs_done == old(self).runs_done + 1,
            final(self).stopped_early == (old(self).enabled && !bounds_adjusted),
    {
        self.runs_done = self.runs_done + 1;
        self.stopped_early = self.enabled && !bounds_adjusted;
    }
}

} // verus!
