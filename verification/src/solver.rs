//! Discrete control of the limited-memory BFGS solver.
//!
//! The solver's numeric work — directions from the two-loop recursion,
//! trial points, Wolfe-condition dot products — runs on `f64` in the
//! unverified front end. Every decision it takes, though, is a function of
//! a handful of booleans and counters, and those decisions live here with
//! exact contracts: when the strong-Wolfe line search accepts a trial,
//! keeps bracketing, or settles for the best point found; which end of
//! the bracket a rejected trial moves; when a step's curvature pair
//! enters the rolling history and when the near-zero-denominator guard
//! skips it; and when the stepping loop terminates.

use vstd::prelude::*;
use crate::history::History;

verus! {

/// Immutable tuning record, passed by value to every solver call.
///
/// The scalar fields (`armijo`, `wolfe`, `min_interval`, `epsd`) are only
/// carried through to the numeric front end, so the record is generic in
/// the scalar type; the verified decisions read `m` and `max_steps`.
#[derive(Clone, Copy)]
pub struct Config<S> {
    /// History depth: greatest number of curvature pairs retained.
    pub m: usize,
    /// Armijo sufficient-decrease constant.
    pub armijo: S,
    /// Wolfe curvature constant.
    pub wolfe: S,
    /// Smallest bracket width the line search keeps shrinking past.
    pub min_interval: S,
    /// Greatest number of trial evaluations per line search.
    pub max_steps: usize,
    /// Numerical-safety bound guarding near-zero denominators.
    pub epsd: S,
}

/// What the line search does after judging one trial point.
#[derive(Clone, Copy, Debug, PartialEq, Eq, Structural)]
pub enum LineSearchDecision {
    /// The trial satisfies both strong-Wolfe conditions: take it.
    Accept,
    /// The budget is exhausted or the bracket is too narrow: settle for
    /// the best point found so far.
    TakeBest,
    /// Keep bracketing.
    Continue,
}

/// Whether the stepping protocol goes on.
#[derive(Clone, Copy, Debug, PartialEq, Eq, Structural)]
pub enum Phase {
    Stepping,
    Terminated,
}

/// Judge one line-search trial.
///
/// `trials` counts the evaluations already spent (the one being judged
/// included) against the budget `max_trials`; `armijo_ok` and
/// `curvature_ok` report the two strong-Wolfe tests at the trial point,
/// and `width_below_min` reports whether the bracket has shrunk below the
/// configured minimum width. A trial meeting both conditions is accepted;
/// otherwise the search settles for its best point exactly when the
/// evaluation budget is spent or the bracket is exhausted, and keeps
/// bracketing in every remaining case.
pub fn line_search_decide(
    max_trials: usize,
    trials: usize,
    armijo_ok: bool,
    curvature_ok: bool,
    width_below_min: bool,
) -> (d: LineSearchDecision)
    ensures
        (d == LineSearchDecision::Accept) <==> (armijo_ok && curvature_ok),
        (d == LineSearchDecision::TakeBest) <==> (!(armijo_ok && curvature_ok) && (trials
            >= max_trials || width_below_min)),
        (d == LineSearchDecision::Continue) <==> (!(armijo_ok && curvature_ok) && trials
            < max_trials && !width_below_min),
{
    if armijo_ok && curvature_ok {
        LineSearchDecision::Accept
    } else if trials >= max_trials || width_below_min {
        LineSearchDecision::TakeBest
    } else {
        LineSearchDecision::Continue
    }
}

/// One line search's trial bookkeeping: every oracle evaluation is
/// charged against the configured budget before it is judged, so the
/// search provably keeps bracketing only while budget remains.
pub struct TrialBudget {
    used: usize,
    budget: usize,
}

impl TrialBudget {
    /// Trial evaluations charged so far.
    pub closed spec fn used(&self) -> int {
        self.used as int
    }

    /// The configured greatest number of trial evaluations.
    pub closed spec fn budget(&self) -> int {
        self.budget as int
    }

    /// A fresh budget of `cfg.max_steps` trial evaluations.
    pub fn begin<S>(cfg: &Config<S>) -> (t: TrialBudget)
        ensures
            t.used() == 0,
            t.budget() == cfg.max_steps,
    {
        TrialBudget { used: 0, budget: cfg.max_steps }
    }

    /// Charge one oracle evaluation and judge the trial it produced.
    /// Judging is only possible while budget remains, and the search may
    /// keep bracketing — the `Continue` outcome — only while it still
    /// does after the charge.
    pub fn judge(&mut self, armijo_ok: bool, curvature_ok: bool, width_below_min: bool) -> (d:
        LineSearchDecision)
        requires
            old(self).used() < old(self).budget(),
        ensures
            final(self).budget() == old(self).budget(),
            final(self).used() == old(self).used() + 1,
            (d == LineSearchDecision::Accept) <==> (armijo_ok && curvature_ok),
            (d == LineSearchDecision::TakeBest) <==> (!(armijo_ok && curvature_ok)
                && (old(self).used() + 1 >= old(self).budget() || width_below_min)),
            (d == LineSearchDecision::Continue) <==> (!(armijo_ok && curvature_ok)
                && old(self).used() + 1 < old(self).budget() && !width_below_min),
    {
        self.used = self.used + 1;
        line_search_decide(self.budget, self.used, armijo_ok, curvature_ok, width_below_min)
    }
}

/// Which end of the bracket a rejected trial moves.
#[derive(Clone, Copy, Debug, PartialEq, Eq, Structural)]
pub enum BracketMove {
    /// The trial overshot: it caps the bracket from above.
    ShrinkHigh,
    /// The trial undershot: it raises the bracket's lower end.
    RaiseLow,
}

/// Shrink the bracket around one trial the search keeps bracketing past.
/// A trial that fails sufficient decrease, fails to decrease the value at
/// all, or already has a non-negative slope along the direction lies at or
/// beyond the acceptable region and caps the bracket from above; any other
/// trial lies before it and raises the lower end.
pub fn bracket_update(armijo_ok: bool, no_decrease: bool, slope_nonneg: bool) -> (b: BracketMove)
    ensures
        (b == BracketMove::ShrinkHigh) <==> (!armijo_ok || no_decrease || slope_nonneg),
        (b == BracketMove::RaiseLow) <==> (armijo_ok && !no_decrease && !slope_nonneg),
{
    if !armijo_ok || no_decrease || slope_nonneg {
        BracketMove::ShrinkHigh
    } else {
        BracketMove::RaiseLow
    }
}

/// Record an accepted step's curvature pair, under the near-zero guard.
///
/// `denom_ok` reports that the pair's dot product cleared the configured
/// `epsd` bound; when it did not, the update is skipped and the history is
/// left untouched, preserving positive-definiteness of the implied
/// inverse-Hessian approximation. When it did, the pair is appended and
/// the oldest pair is evicted if the history is at capacity.
pub fn record_pair<T>(hist: &mut History<T>, pair: T, denom_ok: bool)
    requires
        old(hist).wf(),
    ensures
        final(hist).wf(),
        final(hist).capacity() == old(hist).capacity(),
        final(hist)@.len() <= final(hist).capacity(),
        !denom_ok ==> *final(hist) == *old(hist),
        denom_ok ==> final(hist).log() == old(hist).log().push(pair),
        denom_ok && old(hist)@.len() < old(hist).capacity() ==> final(hist)@ == old(
            hist,
        )@.push(pair),
        denom_ok && old(hist)@.len() == old(hist).capacity() ==> final(hist)@ == old(
            hist,
        )@.drop_first().push(pair),
{
    if denom_ok {
        hist.push(pair);
    } else {
        proof {
            crate::history::lemma_history_is_recent_window(hist);
        }
    }
}

/// Outcome of one accepted step: the protocol terminates exactly when the
/// observer signalled a stop or the line search ran out of budget without
/// an acceptable step.
pub fn next_phase(observer_stop: bool, search_exhausted: bool) -> (p: Phase)
    ensures
        (p == Phase::Terminated) <==> (observer_stop || search_exhausted),
        (p == Phase::Stepping) <==> !(observer_stop || search_exhausted),
{
    if observer_stop || search_exhausted {
        Phase::Terminated
    } else {
        Phase::Stepping
    }
}

} // verus!
