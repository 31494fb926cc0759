//! Unit tests for the numeric bit-pattern model, the parameter codec, the
//! strategy selector and the evaluation cache, cross-checked against real
//! binary64 arithmetic.

use theseus::cache::{EvalCache, LookupOutcome, penalty_bits};
use theseus::codec::{
    OptimizationState, Problem, pack_parameters, parameter_bounds, project_to_bounds,
    unpack_parameters,
};
use theseus::num::{abs_bits, finite, le, lt, nan_bits};
use theseus::strategy::{Strategy, strategy};

fn bits(xs: &[f64]) -> Vec<u64> {
    xs.iter().map(|v| v.to_bits()).collect()
}

fn floats(bs: &[u64]) -> Vec<f64> {
    bs.iter().map(|b| f64::from_bits(*b)).collect()
}

fn sample_values() -> Vec<f64> {
    vec![
        0.0,
        -0.0,
        1.0,
        -1.0,
        0.5,
        -0.5,
        2.0,
        1e-300,
        -1e-300,
        5e-324,
        -5e-324,
        1e300,
        -1e300,
        f64::INFINITY,
        f64::NEG_INFINITY,
        f64::NAN,
        -f64::NAN,
        f64::MAX,
        f64::MIN,
        3.141592653589793,
        -2.718281828459045,
    ]
}

#[test]
fn comparison_matches_f64_semantics() {
    let vs = sample_values();
    for &a in &vs {
        for &b in &vs {
            assert_eq!(
                lt(a.to_bits(), b.to_bits()),
                a < b,
                "lt mismatch for {a:?} < {b:?}"
            );
            assert_eq!(
                le(a.to_bits(), b.to_bits()),
                a <= b,
                "le mismatch for {a:?} <= {b:?}"
            );
        }
    }
}

#[test]
fn finiteness_and_nan_match_f64_semantics() {
    for &a in &sample_values() {
        assert_eq!(finite(a.to_bits()), a.is_finite(), "finite mismatch for {a:?}");
        assert_eq!(nan_bits(a.to_bits()), a.is_nan(), "nan mismatch for {a:?}");
    }
}

#[test]
fn abs_matches_f64_semantics() {
    for &a in &sample_values() {
        assert_eq!(abs_bits(a.to_bits()), a.abs().to_bits(), "abs mismatch for {a:?}");
    }
}

fn small_problem() -> Problem {
    Problem {
        num_edges: 3,
        num_variable_anchors: 2,
        lower_bounds: bits(&[0.1, 0.1, 0.1]),
        upper_bounds: bits(&[100.0, 100.0, 100.0]),
        absolute_tolerance: (1e-6f64).to_bits(),
        relative_tolerance: (1e-9f64).to_bits(),
        max_iterations: 200,
    }
}

#[test]
fn pack_then_unpack_returns_the_parts() {
    let problem = small_problem();
    let state = OptimizationState {
        force_densities: bits(&[1.0, 2.0, 3.0]),
        variable_anchor_positions: bits(&[0.5, -0.5, 4.0, 1.5, -2.5, 6.0]),
        iterations: 0,
        loss_trace: Vec::new(),
    };
    let theta = pack_parameters(&problem, &state);
    assert_eq!(
        floats(&theta),
        vec![1.0, 2.0, 3.0, 0.5, -0.5, 4.0, 1.5, -2.5, 6.0]
    );
    let (q, anchors) = unpack_parameters(&problem, &theta);
    assert_eq!(q, state.force_densities);
    assert_eq!(anchors, state.variable_anchor_positions);
}

#[test]
fn unpack_then_pack_returns_the_vector() {
    let problem = small_problem();
    let theta = bits(&[7.0, 8.0, 9.0, 1.0, 2.0, 3.0, 4.0, 5.0, 6.0]);
    let (q, anchors) = unpack_parameters(&problem, &theta);
    let state = OptimizationState {
        force_densities: q,
        variable_anchor_positions: anchors,
        iterations: 0,
        loss_trace: Vec::new(),
    };
    assert_eq!(pack_parameters(&problem, &state), theta);
}

#[test]
fn bounds_append_unconstrained_anchor_entries() {
    let problem = small_problem();
    let (lb, ub) = parameter_bounds(&problem);
    let lbf = floats(&lb);
    let ubf = floats(&ub);
    assert_eq!(lbf.len(), 9);
    assert_eq!(&lbf[..3], &[0.1, 0.1, 0.1]);
    assert_eq!(&ubf[..3], &[100.0, 100.0, 100.0]);
    for i in 3..9 {
        assert_eq!(lbf[i], f64::NEG_INFINITY);
        assert_eq!(ubf[i], f64::INFINITY);
    }
}

#[test]
fn projection_clamps_out_of_bounds_components() {
    let lb = bits(&[0.1, 0.1, f64::NEG_INFINITY]);
    let ub = bits(&[100.0, 100.0, f64::INFINITY]);
    let mut x = bits(&[-10.0, 250.0, -1e12]);
    project_to_bounds(&mut x, &lb, &ub);
    assert_eq!(floats(&x), vec![0.1, 100.0, -1e12]);
}

#[test]
fn strategy_is_spd_iff_all_lower_bounds_positive() {
    assert_eq!(strategy(&bits(&[0.1, 1.0, 5.0])), Strategy::Spd);
    assert_eq!(strategy(&bits(&[1e-6, 1e-6])), Strategy::Spd);
    assert_eq!(strategy(&bits(&[0.1, 0.0, 5.0])), Strategy::GeneralSymmetric);
    assert_eq!(strategy(&bits(&[0.1, -2.0])), Strategy::GeneralSymmetric);
    assert_eq!(
        strategy(&bits(&[f64::NEG_INFINITY, 1.0])),
        Strategy::GeneralSymmetric
    );
    assert_eq!(strategy(&Vec::new()), Strategy::Spd);
}

#[test]
fn cache_memoizes_exactly_one_entry() {
    let x0 = bits(&[1.0, 2.0]);
    let mut cache = EvalCache::new(&x0);
    let theta = bits(&[3.0, 4.0]);
    assert!(matches!(cache.lookup(&theta), LookupOutcome::Solve));
    let grad = bits(&[0.5, -0.5]);
    let (loss, g) = cache.record(&theta, (7.0f64).to_bits(), &grad);
    assert_eq!(loss, (7.0f64).to_bits());
    assert_eq!(g, grad);
    assert_eq!(cache.n_solves, 1);
    match cache.lookup(&theta) {
        LookupOutcome::Hit { loss, gradient } => {
            assert_eq!(loss, (7.0f64).to_bits());
            assert_eq!(gradient, grad);
        }
        _ => panic!("second lookup of the identical vector must hit the memo"),
    }
    assert_eq!(cache.n_solves, 1, "a hit must not count as a forward solve");
    assert_eq!(cache.trace.len(), 1);
    let other = bits(&[3.0, 4.000000001]);
    assert!(matches!(cache.lookup(&other), LookupOutcome::Solve));
}

#[test]
fn cache_rejects_non_finite_parameters() {
    let x0 = bits(&[1.0]);
    let cache = EvalCache::new(&x0);
    match cache.lookup(&bits(&[f64::NAN])) {
        LookupOutcome::Invalid { penalty, gradient } => {
            assert!(f64::from_bits(penalty).is_finite());
            assert_eq!(floats(&gradient), vec![0.0]);
        }
        _ => panic!("a NaN component must be rejected before any solve"),
    }
    match cache.lookup(&bits(&[f64::INFINITY])) {
        LookupOutcome::Invalid { .. } => {}
        _ => panic!("an infinite component must be rejected before any solve"),
    }
}

#[test]
fn cache_turns_non_finite_outputs_into_penalties() {
    let x0 = bits(&[1.0]);
    let mut cache = EvalCache::new(&x0);
    let theta = bits(&[2.0]);
    let good_grad = bits(&[0.25]);
    cache.record(&theta, (5.0f64).to_bits(), &good_grad);
    let (penalty, fallback) = cache.record(&bits(&[3.0]), f64::NAN.to_bits(), &good_grad);
    let p = f64::from_bits(penalty);
    assert!(p.is_finite() && p >= 5.0 * 1e6 * 0.9);
    assert_eq!(fallback, good_grad);
    assert_eq!(cache.trace.len(), 1, "a failed evaluation is not traced");
    assert_eq!(cache.n_solves, 2);
    assert_eq!(cache.best_loss, (5.0f64).to_bits());
}

#[test]
fn penalty_scales_with_the_best_loss() {
    let scale = (1u64 << 20) as f64;
    assert_eq!(penalty_bits((3.0f64).to_bits()), (3.0 * scale).to_bits());
    assert_eq!(penalty_bits((-3.0f64).to_bits()), (3.0 * scale).to_bits());
    assert_eq!(penalty_bits((0.25f64).to_bits()), scale.to_bits());
    assert_eq!(penalty_bits((0.0f64).to_bits()), scale.to_bits());
    let huge = f64::from_bits(penalty_bits(f64::INFINITY.to_bits()));
    assert!(huge.is_finite() && huge >= 1e300);
    let capped = f64::from_bits(penalty_bits(f64::MAX.to_bits()));
    assert!(capped.is_finite() && capped >= f64::MAX);
}
