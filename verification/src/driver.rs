//! The constrained optimization driver: a state machine around the
//! quasi-Newton sub-searches.
//!
//! The driver owns the global best point and the cumulative iteration
//! count across all restarts. Each sub-search gets a fresh evaluation
//! cache and a fresh convergence window; when a sub-search ends without
//! converging and without being cancelled, the driver restarts from the
//! globally best point, deterministically perturbed toward the bound
//! midpoints with strength proportional to the restart count, until the
//! restart cap or the iteration budget is exhausted. Convergence is a dual
//! criterion checked every iteration: a floor on the cumulative iteration
//! count, the projected-gradient norm at most the absolute tolerance, and
//! the relative objective change over the recent window below the
//! relative tolerance. Cancellation, reported by the progress callback,
//! aborts everything: no further sub-search starts and the run fails with
//! a cancellation error. Finalization projects the globally best point
//! into the feasible box, unpacks it, and commits it to the caller's
//! state.
//!
//! The blocking work — the quasi-Newton inner loop and the forward/adjoint
//! solve — happens outside this crate; callers run it between the
//! decision points this module exposes and hand back plain values. The one
//! quantity a caller computes for the driver is the relative objective
//! change `|oldest - newest| / max(|oldest|, |newest|, 1)` over the window
//! ends returned by `note_iteration`, which needs general floating-point
//! arithmetic.

use vstd::prelude::*;

use vstd::arithmetic::div_mod::{
    lemma_div_is_ordered, lemma_div_multiples_vanish, lemma_div_nonincreasing,
    lemma_div_pos_is_pos,
};
use vstd::arithmetic::mul::{lemma_mul_inequality, lemma_mul_is_commutative, lemma_mul_nonnegative};

use crate::cache::EvalCache;
use crate::codec::{
    OptimizationState, Problem, clamp, lemma_clamp_in_box, lemma_full_bounds_wf, pack_parameters,
    pack_spec, parameter_bounds, project_spec, project_to_bounds, unpack_anchors_spec,
    unpack_parameters, unpack_q_spec,
};
use crate::num::{
    POS_INF_BITS, check_any_nan, copy_vec, f_le, f_lt, finite, from_key, from_key_spec,
    is_finite, is_nan, key, le, lemma_const_patterns, lemma_mag_bounds, lt, no_nan, to_key,
};

verus! {

/// Maximum number of restarts after the first sub-search.
pub const MAX_RESTARTS: usize = 3;

/// Cumulative iteration floor before convergence may be declared.
pub const MIN_ITERATIONS_BEFORE_CONVERGENCE: usize = 10;

/// Length of the sliding window of recent objective values.
pub const CONVERGENCE_WINDOW: usize = 5;

/// Smallest remaining iteration budget worth starting a sub-search for.
pub const MIN_USEFUL_ITERATIONS: usize = 5;

/// How a run can fail.
#[derive(Clone, Copy, Debug, PartialEq, Eq, Structural)]
pub enum TheseusError {
    /// A non-finite value where a finite one is required.
    InvalidInput,
    /// A numerical failure that survived every recovery attempt.
    NumericalFailure,
    /// The progress callback requested a stop.
    Cancelled,
    /// The quasi-Newton search produced no best point at all.
    NoSolution,
}

/// Why the search loop stopped.
#[derive(Clone, Copy, Debug, PartialEq, Eq, Structural)]
pub enum TerminationReason {
    /// The dual convergence criterion was met.
    Converged,
    /// The iteration budget ran out first.
    BudgetExhausted,
    /// Factorization or line-search failure ended the last sub-search.
    NumericalFailure,
    /// The quasi-Newton search returned no solution.
    NoSolution,
    /// The progress callback requested a stop.
    Cancelled,
}

/// The driver's final answer: the globally best point, projected into the
/// feasible box and unpacked, with the run's trace and bookkeeping. The
/// caller re-runs one forward solve at this point for the final geometry.
#[derive(Debug)]
pub struct SolverResult {
    /// Best force densities found, feasible componentwise.
    pub q: Vec<u64>,
    /// Best variable-anchor coordinates found, row-major.
    pub anchor_positions: Vec<u64>,
    /// Losses of every accepted evaluation across all sub-searches.
    pub loss_trace: Vec<u64>,
    /// Cumulative quasi-Newton iterations (number of evaluations when the
    /// underlying search reported none).
    pub iterations: usize,
    /// Whether the dual convergence criterion was met.
    pub converged: bool,
    /// Why the search loop stopped.
    pub termination_reason: TerminationReason,
}

/// What a caller needs to run one quasi-Newton sub-search.
pub struct SubSearchStart {
    /// Feasible start point of this sub-search.
    pub x0: Vec<u64>,
    /// Iteration budget left for this sub-search.
    pub iteration_budget: usize,
    /// A fresh evaluation cache for this sub-search.
    pub cache: EvalCache,
}

/// An integer key nudged toward `mid` by `num` hundredths of the distance.
pub open spec fn nudge_toward(k: int, mid: int, num: int) -> int {
    if mid >= k {
        k + ((mid - k) * num) / 100
    } else {
        k - ((k - mid) * num) / 100
    }
}

/// One parameter perturbed for a restart. Components without a finite,
/// nonempty bound range stay put; the rest move `num` hundredths of the
/// way toward the midpoint of their bound interval in the order-key space
/// of binary64 patterns, then are clamped back into the interval.
pub open spec fn perturb_component(v: u64, lo: u64, hi: u64, num: int) -> u64 {
    if !is_finite(lo) || !is_finite(hi) || key(hi) <= key(lo) {
        v
    } else {
        let mid = key(lo) + (key(hi) - key(lo)) / 2;
        clamp(from_key_spec(nudge_toward(key(v), mid, num)), lo, hi)
    }
}

/// A whole parameter vector perturbed for a restart: only the first
/// `num_edges` components (the force densities) move.
pub open spec fn perturbed(x: Seq<u64>, lb: Seq<u64>, ub: Seq<u64>, num_edges: int, num: int) -> Seq<
    u64,
> {
    Seq::new(
        x.len(),
        |i: int|
            if i < num_edges {
                perturb_component(x[i], lb[i], ub[i], num)
            } else {
                x[i]
            },
    )
}

/// Apply the deterministic restart perturbation to the force-density
/// components of `x`: nudge each component with a finite, nonempty bound
/// range toward its bound midpoint, with strength `2 * restart_count`
/// hundredths, and keep it inside its bounds.
pub fn perturb_interior(
    x: &mut Vec<u64>,
    lb: &Vec<u64>,
    ub: &Vec<u64>,
    num_edges: usize,
    restart_count: usize,
)
    requires
        old(x)@.len() == lb@.len(),
        old(x)@.len() == ub@.len(),
        num_edges <= old(x)@.len(),
        1 <= restart_count <= 50,
        no_nan(old(x)@),
        forall|i: int|
            0 <= i < lb@.len() ==> !is_nan(#[trigger] lb@[i]) && !is_nan(ub@[i]),
    ensures
        final(x)@ == perturbed(old(x)@, lb@, ub@, num_edges as int, 2 * restart_count as int),
        final(x)@.len() == old(x)@.len(),
        no_nan(final(x)@),
{
    let num: u128 = 2 * (restart_count as u128);
    let ghost num_i: int = 2 * restart_count as int;
    let n = x.len();
    let mut i: usize = 0;
    while i < num_edges
        invariant
            i <= num_edges,
            num_edges <= n,
            n == x@.len(),
            n == old(x)@.len(),
            n == lb@.len(),
            n == ub@.len(),
            num == num_i,
            2 <= num_i <= 100,
            no_nan(old(x)@),
            forall|j: int|
                0 <= j < lb@.len() ==> !is_nan(#[trigger] lb@[j]) && !is_nan(ub@[j]),
            forall|j: int|
                0 <= j < i ==> x@[j] == perturb_component(old(x)@[j], lb@[j], ub@[j], num_i)
                    && !is_nan(#[trigger] x@[j]),
            forall|j: int| i <= j < n ==> x@[j] == old(x)@[j],
        decreases num_edges - i,
    {
        let lo = lb[i];
        let hi = ub[i];
        if finite(lo) && finite(hi) {
            let klo: i128 = to_key(lo);
            let khi: i128 = to_key(hi);
            proof {
                lemma_mag_bounds(lo);
                lemma_mag_bounds(hi);
                lemma_mag_bounds(x@[i as int]);
            }
            if klo < khi {
                let k: i128 = to_key(x[i]);
                let half: u128 = ((khi - klo) as u128) / 2;
                proof {
                    lemma_div_nonincreasing((khi - klo) as int, 2);
                    lemma_div_pos_is_pos((khi - klo) as int, 2);
                }
                let mid: i128 = klo + (half as i128);
                let step_base: u128 = if mid >= k {
                    (mid - k) as u128
                } else {
                    (k - mid) as u128
                };
                proof {
                    let sb = step_base as int;
                    lemma_mul_nonnegative(sb, num_i);
                    lemma_mul_inequality(num_i, 100, sb);
                    lemma_mul_is_commutative(sb, num_i);
                    lemma_mul_is_commutative(sb, 100);
                    lemma_div_is_ordered(sb * num_i, sb * 100, 100);
                    lemma_div_multiples_vanish(sb, 100);
                    lemma_div_pos_is_pos(sb * num_i, 100);
                }
                let step: u128 = (step_base * num) / 100;
                let k2: i128 = if mid >= k {
                    k + (step as i128)
                } else {
                    k - (step as i128)
                };
                let v = from_key(k2);
                let v1 = if lt(v, lo) {
                    lo
                } else {
                    v
                };
                let v2 = if lt(hi, v1) {
                    hi
                } else {
                    v1
                };
                proof {
                    lemma_clamp_in_box(v, lo, hi);
                    assert(v2 == perturb_component(old(x)@[i as int], lb@[i as int], ub@[i as int],
                        num_i));
                }
                x.set(i, v2);
            }
        }
        i += 1;
    }
    proof {
        assert(x@ =~= perturbed(old(x)@, lb@, ub@, num_edges as int, num_i));
    }
}

/// The driver's state across one whole optimization run.
pub struct Driver {
    /// Length of the flat parameter vector.
    pub dim: usize,
    /// Number of force-density components at the front of the vector.
    pub num_edges: usize,
    /// Lower bounds over the whole parameter vector.
    pub lb: Vec<u64>,
    /// Upper bounds over the whole parameter vector.
    pub ub: Vec<u64>,
    /// Absolute tolerance on the projected-gradient norm.
    pub abs_tol: u64,
    /// Relative tolerance on the windowed objective change.
    pub rel_tol: u64,
    /// Cumulative iteration budget.
    pub max_iterations: usize,
    /// Progress is reported every this many evaluations.
    pub report_frequency: usize,
    /// Start point of the current or next sub-search.
    pub x: Vec<u64>,
    /// Best point across all sub-searches so far.
    pub global_best_x: Vec<u64>,
    /// Best loss across all sub-searches so far (+inf before the first).
    pub global_best_f: u64,
    /// Iterations spent across all sub-searches so far.
    pub total_iterations: usize,
    /// Number of sub-searches started.
    pub sub_searches: usize,
    /// Whether the progress callback requested a stop.
    pub cancelled: bool,
    /// Whether the dual convergence criterion was met.
    pub converged: bool,
    /// Why the last sub-search ended.
    pub termination: TerminationReason,
    /// Losses of every accepted evaluation across all sub-searches.
    pub all_trace: Vec<u64>,
    /// Objective values of the most recent iterations of the current
    /// sub-search.
    pub window: Vec<u64>,
}

impl Driver {
    /// Structural invariant of the driver. In particular the globally
    /// tracked best loss is a lower bound on every loss in the combined
    /// evaluation trace.
    pub open spec fn wf(self) -> bool {
        &&& self.lb@.len() == self.dim
        &&& self.ub@.len() == self.dim
        &&& self.x@.len() == self.dim
        &&& self.global_best_x@.len() == self.dim
        &&& self.num_edges <= self.dim
        &&& no_nan(self.x@)
        &&& no_nan(self.global_best_x@)
        &&& !is_nan(self.global_best_f)
        &&& self.report_frequency >= 1
        &&& self.window@.len() <= CONVERGENCE_WINDOW
        &&& forall|i: int|
            0 <= i < self.all_trace@.len() ==> f_le(
                self.global_best_f,
                #[trigger] self.all_trace@[i],
            )
        &&& forall|i: int|
            0 <= i < self.dim ==> !is_nan(#[trigger] self.lb@[i]) && !is_nan(self.ub@[i]) && key(
                self.lb@[i],
            ) <= key(self.ub@[i])
    }

    /// The driver was built from this problem.
    pub open spec fn matches_problem(self, p: Problem) -> bool {
        &&& self.dim == p.theta_len()
        &&& self.num_edges == p.num_edges
        &&& self.lb@ == p.full_lower()
        &&& self.ub@ == p.full_upper()
        &&& self.abs_tol == p.absolute_tolerance
        &&& self.rel_tol == p.relative_tolerance
        &&& self.max_iterations == p.max_iterations
    }

    /// Iterations still available under the cumulative budget.
    pub open spec fn remaining_budget(self) -> int {
        if self.total_iterations <= self.max_iterations {
            self.max_iterations - self.total_iterations
        } else {
            0
        }
    }

    /// The dual convergence criterion: enough cumulative iterations, a
    /// small projected gradient, and a small relative objective change
    /// over the recent window (absent window ends mean no convergence).
    pub open spec fn convergence_met(
        self,
        iteration: usize,
        pg_norm: u64,
        rel_change: Option<u64>,
    ) -> bool {
        &&& self.total_iterations + iteration >= MIN_ITERATIONS_BEFORE_CONVERGENCE
        &&& f_le(pg_norm, self.abs_tol)
        &&& (rel_change matches Some(rc) && f_lt(rc, self.rel_tol))
    }

    /// Set up a run: pack the caller's state into a parameter vector,
    /// reject it if any component is NaN, project it into the feasible
    /// box, and start with an empty history. Nothing is evaluated yet.
    pub fn new(problem: &Problem, state: &OptimizationState, report_frequency: usize) -> (r: Result<
        Driver,
        TheseusError,
    >)
        requires
            problem.wf(),
            state.wf(*problem),
        ensures
            r matches Err(e) ==> e == TheseusError::InvalidInput && !no_nan(
                pack_spec(state.force_densities@, state.variable_anchor_positions@),
            ),
            r matches Ok(d) ==> ({
                &&& d.wf()
                &&& d.matches_problem(*problem)
                &&& no_nan(pack_spec(state.force_densities@, state.variable_anchor_positions@))
                &&& d.x@ == project_spec(
                    pack_spec(state.force_densities@, state.variable_anchor_positions@),
                    problem.full_lower(),
                    problem.full_upper(),
                )
                &&& d.global_best_x@ == d.x@
                &&& d.global_best_f == POS_INF_BITS
                &&& d.total_iterations == 0
                &&& d.sub_searches == 0
                &&& !d.cancelled
                &&& !d.converged
                &&& d.termination == TerminationReason::BudgetExhausted
                &&& d.all_trace@ == Seq::<u64>::empty()
                &&& d.window@ == Seq::<u64>::empty()
                &&& d.report_frequency == if report_frequency == 0 {
                    1usize
                } else {
                    report_frequency
                }
            }),
    {
        let rf = if report_frequency == 0 {
            1
        } else {
            report_frequency
        };
        let (lb, ub) = parameter_bounds(problem);
        let mut x = pack_parameters(problem, state);
        if check_any_nan(&x) {
            return Err(TheseusError::InvalidInput);
        }
        let ghost packed = x@;
        project_to_bounds(&mut x, &lb, &ub);
        proof {
            lemma_full_bounds_wf(*problem);
            lemma_const_patterns();
            assert forall|i: int| 0 <= i < x@.len() implies !is_nan(#[trigger] x@[i]) by {
                lemma_clamp_in_box(packed[i], lb@[i], ub@[i]);
            }
        }
        let gbx = copy_vec(&x);
        Ok(
            Driver {
                dim: x.len(),
                num_edges: problem.num_edges,
                lb,
                ub,
                abs_tol: problem.absolute_tolerance,
                rel_tol: problem.relative_tolerance,
                max_iterations: problem.max_iterations,
                report_frequency: rf,
                x,
                global_best_x: gbx,
                global_best_f: POS_INF_BITS,
                total_iterations: 0,
                sub_searches: 0,
                cancelled: false,
                converged: false,
                termination: TerminationReason::BudgetExhausted,
                all_trace: Vec::new(),
                window: Vec::new(),
            },
        )
    }

    /// Decide whether another sub-search runs, and set it up if so. No
    /// sub-search starts after convergence or cancellation, past the
    /// restart cap, or with less than a minimal useful budget left. From
    /// the second sub-search on, the start point is the globally best
    /// point under the restart perturbation.
    pub fn begin_sub_search(&mut self) -> (r: Option<SubSearchStart>)
        requires
            old(self).wf(),
        ensures
            final(self).wf(),
            r is None ==> *final(self) == *old(self),
            r is None <==> (old(self).cancelled || old(self).converged || old(self).sub_searches
                > MAX_RESTARTS || old(self).remaining_budget() < MIN_USEFUL_ITERATIONS),
            r matches Some(s) ==> ({
                &&& s.x0@ == final(self).x@
                &&& s.x0@.len() == old(self).dim
                &&& s.iteration_budget == old(self).remaining_budget()
                &&& s.iteration_budget >= MIN_USEFUL_ITERATIONS
                &&& s.cache.wf()
                &&& s.cache.dim == old(self).dim
                &&& s.cache.memo_theta is None
                &&& s.cache.trace@ == Seq::<u64>::empty()
                &&& s.cache.n_solves == 0
                &&& s.cache.best_loss == POS_INF_BITS
                &&& s.cache.best_theta@ == s.x0@
                &&& old(self).sub_searches == 0 ==> s.x0@ == old(self).x@
                &&& old(self).sub_searches >= 1 ==> s.x0@ == perturbed(
                    old(self).global_best_x@,
                    old(self).lb@,
                    old(self).ub@,
                    old(self).num_edges as int,
                    2 * old(self).sub_searches as int,
                )
                &&& final(self).sub_searches == old(self).sub_searches + 1
                &&& final(self).window@ == Seq::<u64>::empty()
                &&& final(self).global_best_x@ == old(self).global_best_x@
                &&& final(self).global_best_f == old(self).global_best_f
                &&& final(self).total_iterations == old(self).total_iterations
                &&& final(self).all_trace@ == old(self).all_trace@
                &&& final(self).cancelled == old(self).cancelled
                &&& final(self).converged == old(self).converged
                &&& final(self).termination == old(self).termination
                &&& final(self).dim == old(self).dim
                &&& final(self).num_edges == old(self).num_edges
                &&& final(self).lb@ == old(self).lb@
                &&& final(self).ub@ == old(self).ub@
                &&& final(self).abs_tol == old(self).abs_tol
                &&& final(self).rel_tol == old(self).rel_tol
                &&& final(self).max_iterations == old(self).max_iterations
                &&& final(self).report_frequency == old(self).report_frequency
            }),
    {
        if self.cancelled || self.converged {
            return None;
        }
        if self.sub_searches > MAX_RESTARTS {
            return None;
        }
        let remaining = if self.total_iterations <= self.max_iterations {
            self.max_iterations - self.total_iterations
        } else {
            0
        };
        if remaining < MIN_USEFUL_ITERATIONS {
            return None;
        }
        if self.sub_searches >= 1 {
            let mut nx = copy_vec(&self.global_best_x);
            perturb_interior(&mut nx, &self.lb, &self.ub, self.num_edges, self.sub_searches);
            self.x = nx;
        }
        self.window = Vec::new();
        let cache = EvalCache::new(&self.x);
        self.sub_searches = self.sub_searches + 1;
        Some(SubSearchStart { x0: copy_vec(&self.x), iteration_budget: remaining, cache })
    }

    /// Fold one iteration's objective value into the sliding window and
    /// return the window's oldest and newest values once it holds at least
    /// two, for the caller to turn into a relative change.
    pub fn note_iteration(&mut self, f: u64) -> (r: Option<(u64, u64)>)
        requires
            old(self).wf(),
        ensures
            final(self).wf(),
            final(self).window@ == ({
                let grown = old(self).window@.push(f);
                if grown.len() > CONVERGENCE_WINDOW {
                    grown.subrange(1, grown.len() as int)
                } else {
                    grown
                }
            }),
            r == ({
                let w = final(self).window@;
                if w.len() >= 2 {
                    Some((w[0], w[w.len() - 1]))
                } else {
                    None::<(u64, u64)>
                }
            }),
            *final(self) == (Driver { window: final(self).window, ..*old(self) }),
    {
        self.window.push(f);
        if self.window.len() > CONVERGENCE_WINDOW {
            self.window.remove(0);
        }
        if self.window.len() >= 2 {
            Some((self.window[0], self.window[self.window.len() - 1]))
        } else {
            None
        }
    }

    /// Evaluate the dual convergence criterion for the current iteration.
    /// `rel_change` is the relative objective change over the window ends
    /// returned by `note_iteration`, computed by the caller as
    /// `|oldest - newest| / max(|oldest|, |newest|, 1)`; `None` while the
    /// window is still too short.
    pub fn check_convergence(&self, iteration: usize, pg_norm: u64, rel_change: Option<u64>) -> (r:
        bool)
        ensures
            r == self.convergence_met(iteration, pg_norm, rel_change),
    {
        let cumulative = (self.total_iterations as u128) + (iteration as u128);
        if cumulative < MIN_ITERATIONS_BEFORE_CONVERGENCE as u128 {
            return false;
        }
        if !le(pg_norm, self.abs_tol) {
            return false;
        }
        match rel_change {
            Some(rc) => lt(rc, self.rel_tol),
            None => false,
        }
    }

    /// Whether the progress callback is due at this evaluation count:
    /// always on the first, then every `report_frequency`-th.
    pub fn should_report(&self, eval_count: usize) -> (r: bool)
        requires
            self.wf(),
        ensures
            r == (eval_count == 1 || eval_count % self.report_frequency == 0),
    {
        eval_count == 1 || eval_count % self.report_frequency == 0
    }

    /// Fold the progress callback's answer into the run: the stop sentinel
    /// (zero) cancels the whole run, any other value continues it.
    /// Cancellation is sticky and never reset.
    pub fn on_callback_result(&mut self, should_continue: i32) -> (stop: bool)
        requires
            old(self).wf(),
        ensures
            final(self).wf(),
            stop == (should_continue == 0),
            final(self).cancelled == (old(self).cancelled || should_continue == 0),
            *final(self) == (Driver { cancelled: final(self).cancelled, ..*old(self) }),
    {
        if should_continue == 0 {
            self.cancelled = true;
            true
        } else {
            false
        }
    }

    /// Harvest one finished sub-search: add its iterations to the
    /// cumulative count (saturating), append its evaluation trace, fold
    /// its best point into the global best — which never gets worse — and
    /// record how it ended.
    pub fn end_sub_search(&mut self, cache: EvalCache, outcome: TerminationReason, iterations:
        usize)
        requires
            old(self).wf(),
            cache.wf(),
            cache.dim == old(self).dim,
        ensures
            final(self).wf(),
            final(self).total_iterations == if old(self).total_iterations + iterations
                <= usize::MAX {
                old(self).total_iterations + iterations
            } else {
                usize::MAX as int
            },
            final(self).all_trace@ == old(self).all_trace@ + cache.trace@,
            f_lt(cache.best_loss, old(self).global_best_f) ==> final(self).global_best_f
                == cache.best_loss && final(self).global_best_x@ == cache.best_theta@,
            !f_lt(cache.best_loss, old(self).global_best_f) ==> final(self).global_best_f == old(
                self,
            ).global_best_f && final(self).global_best_x@ == old(self).global_best_x@,
            f_le(final(self).global_best_f, old(self).global_best_f),
            f_le(final(self).global_best_f, cache.best_loss),
            final(self).converged == (outcome is Converged),
            final(self).termination == outcome,
            final(self).cancelled == old(self).cancelled,
            final(self).sub_searches == old(self).sub_searches,
            final(self).window@ == old(self).window@,
            final(self).x@ == old(self).x@,
            final(self).dim == old(self).dim,
            final(self).num_edges == old(self).num_edges,
            final(self).lb@ == old(self).lb@,
            final(self).ub@ == old(self).ub@,
            final(self).abs_tol == old(self).abs_tol,
            final(self).rel_tol == old(self).rel_tol,
            final(self).max_iterations == old(self).max_iterations,
            final(self).report_frequency == old(self).report_frequency,
    {
        let EvalCache { trace: mut sub_trace, best_loss, best_theta, .. } = cache;
        if self.total_iterations <= usize::MAX - iterations {
            self.total_iterations = self.total_iterations + iterations;
        } else {
            self.total_iterations = usize::MAX;
        }
        self.all_trace.append(&mut sub_trace);
        if lt(best_loss, self.global_best_f) {
            self.global_best_f = best_loss;
            self.global_best_x = best_theta;
        }
        self.converged = outcome == TerminationReason::Converged;
        self.termination = outcome;
        proof {
            assert forall|i: int| 0 <= i < self.all_trace@.len() implies f_le(
                self.global_best_f,
                #[trigger] self.all_trace@[i],
            ) by {
                if i < old(self).all_trace@.len() {
                    assert(self.all_trace@[i] == old(self).all_trace@[i]);
                    assert(f_le(old(self).global_best_f, old(self).all_trace@[i]));
                } else {
                    assert(self.all_trace@[i] == cache.trace@[i - old(self).all_trace@.len()]);
                    assert(f_le(cache.best_loss, cache.trace@[i - old(self).all_trace@.len()]));
                }
            }
        }
    }

    /// Monotone global best: at every point of a run, the globally tracked
    /// best loss is a lower bound on every loss in the combined evaluation
    /// trace, so it is non-increasing as evaluations proceed and a restart
    /// never discards a better point found earlier.
    pub proof fn lemma_global_best_bounds_trace(d: Driver)
        requires
            d.wf(),
        ensures
            forall|i: int|
                0 <= i < d.all_trace@.len() ==> f_le(d.global_best_f, #[trigger] d.all_trace@[i]),
    {
    }

    /// Finish the run. A cancelled run fails with the cancellation error
    /// and leaves the caller's state untouched. Otherwise the globally
    /// best point is projected into the feasible box, unpacked, and
    /// committed to the caller's state; every force-density component of
    /// the answer lies within its bounds.
    pub fn finish(&self, problem: &Problem, state: &mut OptimizationState) -> (r: Result<
        SolverResult,
        TheseusError,
    >)
        requires
            self.wf(),
            problem.wf(),
            self.matches_problem(*problem),
        ensures
            self.cancelled <==> r is Err,
            r matches Err(e) ==> e == TheseusError::Cancelled && *final(state) == *old(state),
            r matches Ok(res) ==> ({
                let best = project_spec(self.global_best_x@, self.lb@, self.ub@);
                &&& res.q@ == unpack_q_spec(best, problem.num_edges as int)
                &&& res.anchor_positions@ == unpack_anchors_spec(best, problem.num_edges as int)
                &&& res.q@.len() == problem.num_edges
                &&& forall|i: int|
                    0 <= i < problem.num_edges ==> f_le(
                        #[trigger] problem.lower_bounds@[i],
                        res.q@[i],
                    ) && f_le(res.q@[i], problem.upper_bounds@[i])
                &&& no_nan(res.q@)
                &&& res.loss_trace@ == self.all_trace@
                &&& forall|i: int|
                    0 <= i < res.loss_trace@.len() ==> f_le(
                        self.global_best_f,
                        #[trigger] res.loss_trace@[i],
                    )
                &&& res.iterations == if self.total_iterations > 0 {
                    self.total_iterations as int
                } else {
                    self.all_trace@.len() as int
                }
                &&& res.converged == self.converged
                &&& res.termination_reason == self.termination
                &&& final(state).force_densities@ == res.q@
                &&& final(state).variable_anchor_positions@ == res.anchor_positions@
                &&& final(state).iterations == res.iterations
                &&& final(state).loss_trace@ == res.loss_trace@
                &&& final(state).wf(*problem)
            }),
    {
        if self.cancelled {
            return Err(TheseusError::Cancelled);
        }
        let mut best = copy_vec(&self.global_best_x);
        project_to_bounds(&mut best, &self.lb, &self.ub);
        proof {
            lemma_full_bounds_wf(*problem);
        }
        let r = unpack_parameters(problem, &best);
        let q = r.0;
        let anchors = r.1;
        proof {
            assert forall|i: int| 0 <= i < problem.num_edges implies f_le(
                #[trigger] problem.lower_bounds@[i],
                q@[i],
            ) && f_le(q@[i], problem.upper_bounds@[i]) && !is_nan(q@[i]) by {
                assert(q@[i] == clamp(self.global_best_x@[i], self.lb@[i], self.ub@[i]));
                assert(self.lb@[i] == problem.lower_bounds@[i]);
                assert(self.ub@[i] == problem.upper_bounds@[i]);
                lemma_clamp_in_box(self.global_best_x@[i], self.lb@[i], self.ub@[i]);
            }
        }
        let iterations = if self.total_iterations > 0 {
            self.total_iterations
        } else {
            self.all_trace.len()
        };
        state.force_densities = copy_vec(&q);
        state.variable_anchor_positions = copy_vec(&anchors);
        state.iterations = iterations;
        state.loss_trace = copy_vec(&self.all_trace);
        Ok(
            SolverResult {
                q,
                anchor_positions: anchors,
                loss_trace: copy_vec(&self.all_trace),
                iterations,
                converged: self.converged,
                termination_reason: self.termination,
            },
        )
    }
}

} // verus!
