//! End-to-end runs of the optimization driver around the `lbfgsb_rs_pure`
//! quasi-Newton solver, with simple analytic oracles standing in for the
//! forward/adjoint solve: convergence under strictly positive bounds,
//! recovery from failed evaluations via the penalty path, feasibility from
//! an out-of-bounds start, monotone tracking of the global best, and
//! cooperative cancellation.

use lbfgsb_rs_pure::{IterationControl, IterationInfo, LBFGSB, Status};
use theseus::cache::LookupOutcome;
use theseus::codec::{OptimizationState, Problem};
use theseus::driver::{Driver, SolverResult, TerminationReason, TheseusError};
use theseus::strategy::{Strategy, strategy};

fn bits(xs: &[f64]) -> Vec<u64> {
    xs.iter().map(|v| v.to_bits()).collect()
}

fn floats(bs: &[u64]) -> Vec<f64> {
    bs.iter().map(|b| f64::from_bits(*b)).collect()
}

type Oracle<'a> = &'a mut dyn FnMut(&[f64]) -> Result<(f64, Vec<f64>), String>;
type Progress<'a> = &'a mut dyn FnMut(usize, f64, &[f64]) -> i32;

/// Run the driver's full restart loop with lbfgsb sub-searches, returning
/// the result together with the driver's final global best loss bits.
fn run_optimize(
    problem: &Problem,
    state: &mut OptimizationState,
    oracle: Oracle,
    progress: Progress,
    report_freq: usize,
) -> Result<(SolverResult, u64), TheseusError> {
    let mut driver = match Driver::new(problem, state, report_freq) {
        Ok(d) => d,
        Err(e) => return Err(e),
    };
    let lb_f = floats(&driver.lb);
    let ub_f = floats(&driver.ub);
    loop {
        let mut start = match driver.begin_sub_search() {
            Some(s) => s,
            None => break,
        };
        let mut x: Vec<f64> = floats(&start.x0);
        let mut solver = LBFGSB::new(10)
            .with_pgtol(0.0)
            .with_max_iter(start.iteration_budget);
        let cache = &mut start.cache;
        let mut objective = |theta: &[f64]| -> (f64, Vec<f64>) {
            let tb = bits(theta);
            match cache.lookup(&tb) {
                LookupOutcome::Hit { loss, gradient } => (f64::from_bits(loss), floats(&gradient)),
                LookupOutcome::Invalid { penalty, gradient } => {
                    (f64::from_bits(penalty), floats(&gradient))
                }
                LookupOutcome::Solve => match oracle(theta) {
                    Ok((val, grad)) => {
                        let (l, g) = cache.record(&tb, val.to_bits(), &bits(&grad));
                        (f64::from_bits(l), floats(&g))
                    }
                    Err(_) => {
                        let (l, g) = cache.record_failure();
                        (f64::from_bits(l), floats(&g))
                    }
                },
            }
        };
        let dref = &mut driver;
        let prog = &mut *progress;
        let mut callback = |info: &IterationInfo, theta: &[f64]| -> IterationControl {
            let ends = dref.note_iteration(info.f.to_bits());
            let rel = ends.map(|(o, n)| {
                let of = f64::from_bits(o);
                let nf = f64::from_bits(n);
                let denom = of.abs().max(nf.abs()).max(1.0);
                ((of - nf).abs() / denom).to_bits()
            });
            if dref.check_convergence(info.iteration, info.proj_grad_norm.to_bits(), rel) {
                return IterationControl::StopConverged;
            }
            if dref.should_report(info.n_func_evals) {
                let rc = prog(info.n_func_evals, info.f, theta);
                if dref.on_callback_result(rc) {
                    return IterationControl::StopCustom;
                }
            }
            IterationControl::Continue
        };
        let res = solver.minimize_with_callback(&mut x, &lb_f, &ub_f, &mut objective, &mut callback);
        let (outcome, iters) = match res {
            Ok(sol) => (
                match sol.status {
                    Status::Converged => TerminationReason::Converged,
                    Status::MaxIter => TerminationReason::BudgetExhausted,
                    Status::LineSearchFailure | Status::NumericalFailure => {
                        TerminationReason::NumericalFailure
                    }
                },
                sol.iterations,
            ),
            Err(_) => (TerminationReason::NoSolution, 0),
        };
        driver.end_sub_search(start.cache, outcome, iters);
    }
    let best = driver.global_best_f;
    match driver.finish(problem, state) {
        Ok(r) => Ok((r, best)),
        Err(e) => Err(e),
    }
}

fn quadratic_problem(n: usize, lb: f64, ub: f64, max_iterations: usize) -> Problem {
    Problem {
        num_edges: n,
        num_variable_anchors: 0,
        lower_bounds: bits(&vec![lb; n]),
        upper_bounds: bits(&vec![ub; n]),
        absolute_tolerance: (1e-6f64).to_bits(),
        relative_tolerance: (1e-9f64).to_bits(),
        max_iterations,
    }
}

fn initial_state(q: &[f64]) -> OptimizationState {
    OptimizationState {
        force_densities: bits(q),
        variable_anchor_positions: Vec::new(),
        iterations: 0,
        loss_trace: Vec::new(),
    }
}

/// Quadratic bowl with its minimum at `target` in every coordinate.
fn quadratic_oracle(target: f64) -> impl FnMut(&[f64]) -> Result<(f64, Vec<f64>), String> {
    move |x: &[f64]| {
        let mut f = 0.0;
        let mut g = Vec::with_capacity(x.len());
        for &xi in x {
            let d = xi - target;
            f += d * d;
            g.push(2.0 * d);
        }
        Ok((f, g))
    }
}

#[test]
fn converges_on_a_quadratic_with_positive_bounds() {
    let n = 12;
    let problem = quadratic_problem(n, 0.1, 100.0, 200);
    assert_eq!(strategy(&problem.lower_bounds), Strategy::Spd);
    let mut state = initial_state(&vec![1.0; n]);
    let mut oracle = quadratic_oracle(2.5);
    let mut progress = |_k: usize, _f: f64, _x: &[f64]| 1;
    let (res, _best) =
        run_optimize(&problem, &mut state, &mut oracle, &mut progress, 10).expect("run must succeed");
    assert!(res.iterations >= 3, "should run more than 3 iterations, got {}", res.iterations);
    let trace = floats(&res.loss_trace);
    assert!(trace.len() >= 2, "should have at least 2 loss evaluations");
    let initial_loss = trace[0];
    let min_loss = trace.iter().cloned().fold(f64::INFINITY, f64::min);
    assert!(min_loss < initial_loss, "loss should decrease: {initial_loss:.6e} vs {min_loss:.6e}");
    for &q in &floats(&res.q) {
        assert!(q.is_finite() && q > 0.0, "q must be finite positive: {q}");
        assert!((0.1..=100.0).contains(&q), "q must stay in bounds: {q}");
        assert!((q - 2.5).abs() < 1e-3, "q should be near the minimum: {q}");
    }
    assert!(res.converged, "the dual criterion should fire on this problem");
    assert_eq!(res.termination_reason, TerminationReason::Converged);
    assert_eq!(floats(&state.force_densities), floats(&res.q));
    assert_eq!(state.iterations, res.iterations);
}

#[test]
fn recovers_from_failed_evaluations_with_penalties() {
    let n = 4;
    let problem = quadratic_problem(n, 1e-6, f64::INFINITY, 200);
    assert_eq!(strategy(&problem.lower_bounds), Strategy::Spd);
    let mut state = initial_state(&vec![2e-6; n]);
    let mut calls: usize = 0;
    let mut base = quadratic_oracle(1.0);
    let mut oracle = move |x: &[f64]| {
        calls += 1;
        if calls == 3 {
            return Err(String::from("factorization distress"));
        }
        base(x)
    };
    let mut progress = |_k: usize, _f: f64, _x: &[f64]| 1;
    let (res, _best) = run_optimize(&problem, &mut state, &mut oracle, &mut progress, 10)
        .expect("a failed evaluation must not fail the whole run");
    assert!(res.iterations >= 1, "should complete at least 1 iteration");
    for &q in &floats(&res.q) {
        assert!(q.is_finite(), "q must be finite: {q}");
        assert!(q >= 1e-6, "q must respect the lower bound: {q}");
    }
    for &l in &floats(&res.loss_trace) {
        assert!(l.is_finite(), "traced losses must be finite: {l}");
    }
}

#[test]
fn out_of_bounds_start_still_yields_a_feasible_answer() {
    let n = 6;
    let problem = quadratic_problem(n, 0.1, 100.0, 10);
    let mut state = initial_state(&vec![-10.0; n]);
    let mut oracle = quadratic_oracle(50.0);
    let mut progress = |_k: usize, _f: f64, _x: &[f64]| 1;
    let (res, _best) =
        run_optimize(&problem, &mut state, &mut oracle, &mut progress, 10).expect("run must succeed");
    for &q in &floats(&res.q) {
        assert!((0.1..=100.0).contains(&q), "q value {q} out of bounds");
    }
    for &q in &floats(&state.force_densities) {
        assert!((0.1..=100.0).contains(&q), "state q value {q} out of bounds");
    }
}

#[test]
fn global_best_is_the_minimum_of_the_trace() {
    let n = 8;
    let problem = quadratic_problem(n, 0.1, 100.0, 200);
    let mut state = initial_state(&vec![30.0; n]);
    let mut oracle = quadratic_oracle(0.05);
    let mut progress = |_k: usize, _f: f64, _x: &[f64]| 1;
    let (res, best) =
        run_optimize(&problem, &mut state, &mut oracle, &mut progress, 10).expect("run must succeed");
    let trace = floats(&res.loss_trace);
    assert!(!trace.is_empty());
    let min_loss = trace.iter().cloned().fold(f64::INFINITY, f64::min);
    assert_eq!(f64::from_bits(best), min_loss, "the tracked best must be the trace minimum");
    let mut running = f64::INFINITY;
    for &l in &trace {
        running = running.min(l);
        assert!(running <= min_loss || l >= min_loss);
    }
}

#[test]
fn cancellation_stops_the_run_immediately() {
    let n = 5;
    let problem = quadratic_problem(n, 0.1, 100.0, 200);
    let mut state = initial_state(&vec![1.0; n]);
    let calls = std::rc::Rc::new(std::cell::Cell::new(0usize));
    let calls_in_oracle = calls.clone();
    let mut base = quadratic_oracle(2.0);
    let mut oracle = move |x: &[f64]| {
        calls_in_oracle.set(calls_in_oracle.get() + 1);
        base(x)
    };
    let calls_at_cancel = std::rc::Rc::new(std::cell::Cell::new(0usize));
    let cac = calls_at_cancel.clone();
    let calls_for_progress = calls.clone();
    let mut fired = 0usize;
    let mut progress = move |_k: usize, _f: f64, _x: &[f64]| {
        fired += 1;
        if fired == 3 {
            cac.set(calls_for_progress.get());
            0
        } else {
            1
        }
    };
    let old_iterations = state.iterations;
    let old_q = state.force_densities.clone();
    let err = run_optimize(&problem, &mut state, &mut oracle, &mut progress, 1)
        .expect_err("a stop sentinel must cancel the run");
    assert_eq!(err, TheseusError::Cancelled);
    assert_eq!(
        calls.get(),
        calls_at_cancel.get(),
        "no evaluation may happen after the stop sentinel"
    );
    assert_eq!(state.force_densities, old_q, "a cancelled run commits nothing");
    assert_eq!(state.iterations, old_iterations);
}

#[test]
fn window_keeps_the_last_five_values_and_reporting_follows_frequency() {
    let problem = quadratic_problem(2, 0.1, 100.0, 50);
    let state = initial_state(&[1.0, 1.0]);
    let mut driver = Driver::new(&problem, &state, 10).expect("setup must succeed");
    let values: [f64; 7] = [9.0, 8.0, 7.0, 6.0, 5.0, 4.0, 3.0];
    let mut last_ends = None;
    for (idx, v) in values.iter().enumerate() {
        let ends = driver.note_iteration(v.to_bits());
        if idx == 0 {
            assert_eq!(ends, None, "one value is not enough for a relative change");
        }
        last_ends = ends;
    }
    let (oldest, newest) = last_ends.expect("a full window has ends");
    assert_eq!(f64::from_bits(oldest), 7.0, "the window holds the last five values");
    assert_eq!(f64::from_bits(newest), 3.0);
    assert!(driver.should_report(1), "the first evaluation always reports");
    assert!(driver.should_report(10));
    assert!(driver.should_report(20));
    assert!(!driver.should_report(7));
}

#[test]
fn budget_exhaustion_is_reported_and_still_usable() {
    let n = 6;
    let problem = quadratic_problem(n, 0.1, 100.0, 7);
    let mut state = initial_state(&vec![90.0; n]);
    // A coupled valley objective that no quasi-Newton search finishes in
    // seven iterations from a distant start.
    let mut oracle = |x: &[f64]| -> Result<(f64, Vec<f64>), String> {
        let mut f = 0.0;
        let mut g = vec![0.0; x.len()];
        let mut i: usize = 0;
        while i + 1 < x.len() {
            let a = x[i];
            let b = x[i + 1];
            f += 100.0 * (b - a * a).powi(2) + (1.0 - a).powi(2);
            g[i] += -400.0 * a * (b - a * a) - 2.0 * (1.0 - a);
            g[i + 1] += 200.0 * (b - a * a);
            i += 2;
        }
        Ok((f, g))
    };
    let mut progress = |_k: usize, _f: f64, _x: &[f64]| 1;
    let (res, _best) =
        run_optimize(&problem, &mut state, &mut oracle, &mut progress, 10).expect("run must succeed");
    assert!(!res.converged, "7 iterations stay under the convergence floor");
    assert_ne!(res.termination_reason, TerminationReason::Converged);
    for &q in &floats(&res.q) {
        assert!((0.1..=100.0).contains(&q), "q value {q} out of bounds");
        assert!(q.is_finite());
    }
}

#[test]
fn nan_in_the_initial_state_is_invalid_input() {
    let problem = quadratic_problem(2, 0.1, 100.0, 50);
    let mut state = initial_state(&[1.0, f64::NAN]);
    let mut oracle = quadratic_oracle(2.0);
    let mut progress = |_k: usize, _f: f64, _x: &[f64]| 1;
    let err = run_optimize(&problem, &mut state, &mut oracle, &mut progress, 10)
        .expect_err("a NaN start must be rejected");
    assert_eq!(err, TheseusError::InvalidInput);
}
