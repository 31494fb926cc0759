//! Parameter codec: the bijective mapping between the structured
//! optimization variables (per-edge force densities plus variable-anchor
//! coordinates) and the flat parameter vector the quasi-Newton search
//! works on, together with bound-vector construction and projection into
//! the feasible box.
//!
//! All numeric entries are IEEE-754 binary64 bit patterns (see `num`).

use vstd::prelude::*;

use crate::num::{NEG_INF_BITS, POS_INF_BITS, f_le, f_lt, is_nan, key, lt};

verus! {

/// The read-only description of one optimization problem, as far as the
/// driver reads it: sizes, per-edge force-density bounds, and the solver
/// tolerances and iteration budget. The equilibrium topology, loads and
/// objective terms live with the external forward/adjoint oracle.
pub struct Problem {
    /// Number of edges; the force-density vector has this length.
    pub num_edges: usize,
    /// Number of anchors whose positions are optimization variables.
    pub num_variable_anchors: usize,
    /// Per-edge lower bounds on the force density.
    pub lower_bounds: Vec<u64>,
    /// Per-edge upper bounds on the force density.
    pub upper_bounds: Vec<u64>,
    /// Absolute tolerance on the projected-gradient norm.
    pub absolute_tolerance: u64,
    /// Relative tolerance on the objective decrease over the recent window.
    pub relative_tolerance: u64,
    /// Cumulative iteration budget across all restarts.
    pub max_iterations: usize,
}

impl Problem {
    /// Length of the flat parameter vector: one entry per edge, then three
    /// coordinates per variable anchor.
    pub open spec fn theta_len(self) -> int {
        self.num_edges + 3 * self.num_variable_anchors
    }

    /// Problem invariant: bound vectors as long as the edge list, a
    /// parameter vector that fits in memory, and bounds that describe a
    /// real box (no NaN, lower at most upper).
    pub open spec fn wf(self) -> bool {
        &&& self.lower_bounds@.len() == self.num_edges
        &&& self.upper_bounds@.len() == self.num_edges
        &&& self.num_edges + 3 * self.num_variable_anchors <= usize::MAX
        &&& forall|i: int|
            0 <= i < self.num_edges ==> !is_nan(#[trigger] self.lower_bounds@[i]) && !is_nan(
                self.upper_bounds@[i],
            ) && key(self.lower_bounds@[i]) <= key(self.upper_bounds@[i])
    }

    /// The lower-bound vector over the whole parameter vector: the
    /// force-density bounds, then unconstrained anchor coordinates.
    pub open spec fn full_lower(self) -> Seq<u64> {
        self.lower_bounds@ + Seq::new((3 * self.num_variable_anchors) as nat, |i: int| NEG_INF_BITS)
    }

    /// The upper-bound vector over the whole parameter vector.
    pub open spec fn full_upper(self) -> Seq<u64> {
        self.upper_bounds@ + Seq::new((3 * self.num_variable_anchors) as nat, |i: int| POS_INF_BITS)
    }
}

/// The caller-owned state threaded through one optimization run: the
/// current force densities and variable-anchor positions (row-major, three
/// entries per anchor), updated in place only when a run commits its
/// result.
pub struct OptimizationState {
    /// Per-edge force densities; length equals the problem's edge count.
    pub force_densities: Vec<u64>,
    /// Variable-anchor coordinates, row-major, three per anchor.
    pub variable_anchor_positions: Vec<u64>,
    /// Iterations spent by the last committed run.
    pub iterations: usize,
    /// Losses of the last committed run, in evaluation order.
    pub loss_trace: Vec<u64>,
}

impl OptimizationState {
    /// The state's vectors agree with the problem's sizes.
    pub open spec fn wf(self, p: Problem) -> bool {
        &&& self.force_densities@.len() == p.num_edges
        &&& self.variable_anchor_positions@.len() == 3 * p.num_variable_anchors
    }
}

/// What packing produces: the force densities followed by the anchor
/// coordinates, in that fixed order.
pub open spec fn pack_spec(q: Seq<u64>, anchors: Seq<u64>) -> Seq<u64> {
    q + anchors
}

/// The force-density half of a flat parameter vector.
pub open spec fn unpack_q_spec(theta: Seq<u64>, num_edges: int) -> Seq<u64> {
    theta.subrange(0, num_edges)
}

/// The anchor-coordinate half of a flat parameter vector.
pub open spec fn unpack_anchors_spec(theta: Seq<u64>, num_edges: int) -> Seq<u64> {
    theta.subrange(num_edges, theta.len() as int)
}

/// Pack force densities and anchor positions into a single flat parameter
/// vector: densities first, then anchor coordinates row-major.
pub fn pack_parameters(problem: &Problem, state: &OptimizationState) -> (theta: Vec<u64>)
    requires
        problem.wf(),
        state.wf(*problem),
    ensures
        theta@ == pack_spec(state.force_densities@, state.variable_anchor_positions@),
        theta@.len() == problem.theta_len(),
{
    let mut theta: Vec<u64> = Vec::new();
    let mut i: usize = 0;
    while i < state.force_densities.len()
        invariant
            i <= state.force_densities@.len(),
            theta@ == state.force_densities@.take(i as int),
        decreases state.force_densities@.len() - i,
    {
        theta.push(state.force_densities[i]);
        i += 1;
        proof {
            assert(theta@ =~= state.force_densities@.take(i as int));
        }
    }
    let mut j: usize = 0;
    while j < state.variable_anchor_positions.len()
        invariant
            j <= state.variable_anchor_positions@.len(),
            theta@ == state.force_densities@ + state.variable_anchor_positions@.take(j as int),
        decreases state.variable_anchor_positions@.len() - j,
    {
        theta.push(state.variable_anchor_positions[j]);
        j += 1;
        proof {
            assert(theta@ =~= state.force_densities@ + state.variable_anchor_positions@.take(
                j as int,
            ));
        }
    }
    proof {
        assert(state.force_densities@.take(state.force_densities@.len() as int)
            =~= state.force_densities@);
        assert(theta@ =~= pack_spec(state.force_densities@, state.variable_anchor_positions@));
    }
    theta
}

/// Unpack a flat parameter vector into force densities and anchor
/// positions: the exact inverse of `pack_parameters`.
pub fn unpack_parameters(problem: &Problem, theta: &Vec<u64>) -> (r: (Vec<u64>, Vec<u64>))
    requires
        problem.wf(),
        theta@.len() == problem.theta_len(),
    ensures
        r.0@ == unpack_q_spec(theta@, problem.num_edges as int),
        r.1@ == unpack_anchors_spec(theta@, problem.num_edges as int),
{
    let ne = problem.num_edges;
    let mut q: Vec<u64> = Vec::new();
    let mut i: usize = 0;
    while i < ne
        invariant
            i <= ne,
            ne <= theta@.len(),
            q@ == theta@.subrange(0, i as int),
        decreases ne - i,
    {
        q.push(theta[i]);
        i += 1;
        proof {
            assert(q@ =~= theta@.subrange(0, i as int));
        }
    }
    let mut anchors: Vec<u64> = Vec::new();
    let mut j: usize = ne;
    while j < theta.len()
        invariant
            ne <= j <= theta@.len(),
            anchors@ == theta@.subrange(ne as int, j as int),
        decreases theta@.len() - j,
    {
        anchors.push(theta[j]);
        j += 1;
        proof {
            assert(anchors@ =~= theta@.subrange(ne as int, j as int));
        }
    }
    (q, anchors)
}

/// Build the bound vectors over the whole parameter vector: the problem's
/// force-density bounds verbatim, then unconstrained (infinite) bounds for
/// every anchor coordinate, in packing order.
pub fn parameter_bounds(problem: &Problem) -> (r: (Vec<u64>, Vec<u64>))
    requires
        problem.wf(),
    ensures
        r.0@ == problem.full_lower(),
        r.1@ == problem.full_upper(),
        r.0@.len() == problem.theta_len(),
        r.1@.len() == problem.theta_len(),
{
    let mut lb: Vec<u64> = Vec::new();
    let mut ub: Vec<u64> = Vec::new();
    let mut i: usize = 0;
    while i < problem.num_edges
        invariant
            i <= problem.num_edges,
            problem.wf(),
            lb@ == problem.lower_bounds@.take(i as int),
            ub@ == problem.upper_bounds@.take(i as int),
        decreases problem.num_edges - i,
    {
        lb.push(problem.lower_bounds[i]);
        ub.push(problem.upper_bounds[i]);
        i += 1;
        proof {
            assert(lb@ =~= problem.lower_bounds@.take(i as int));
            assert(ub@ =~= problem.upper_bounds@.take(i as int));
        }
    }
    let mut j: usize = 0;
    let extra: usize = 3 * problem.num_variable_anchors;
    while j < extra
        invariant
            j <= extra,
            extra == 3 * problem.num_variable_anchors,
            problem.wf(),
            lb@ == problem.lower_bounds@ + Seq::new(j as nat, |k: int| NEG_INF_BITS),
            ub@ == problem.upper_bounds@ + Seq::new(j as nat, |k: int| POS_INF_BITS),
        decreases extra - j,
    {
        lb.push(NEG_INF_BITS);
        ub.push(POS_INF_BITS);
        j += 1;
        proof {
            assert(lb@ =~= problem.lower_bounds@ + Seq::new(j as nat, |k: int| NEG_INF_BITS));
            assert(ub@ =~= problem.upper_bounds@ + Seq::new(j as nat, |k: int| POS_INF_BITS));
        }
    }
    proof {
        assert(lb@ =~= problem.full_lower());
        assert(ub@ =~= problem.full_upper());
    }
    (lb, ub)
}

/// One component clamped into its interval: raised to the lower bound when
/// strictly below it, then cut to the upper bound when strictly above it.
/// NaN components pass through unchanged, as binary64 comparison dictates.
pub open spec fn clamp(v: u64, lo: u64, hi: u64) -> u64 {
    let raised = if f_lt(v, lo) {
        lo
    } else {
        v
    };
    if f_lt(hi, raised) {
        hi
    } else {
        raised
    }
}

/// A clamped non-NaN component lands inside a well-formed interval.
pub proof fn lemma_clamp_in_box(v: u64, lo: u64, hi: u64)
    requires
        !is_nan(v),
        !is_nan(lo),
        !is_nan(hi),
        key(lo) <= key(hi),
    ensures
        !is_nan(clamp(v, lo, hi)),
        f_le(lo, clamp(v, lo, hi)),
        f_le(clamp(v, lo, hi), hi),
{
}

/// A whole vector clamped componentwise into the box `[lb, ub]`.
pub open spec fn project_spec(x: Seq<u64>, lb: Seq<u64>, ub: Seq<u64>) -> Seq<u64> {
    Seq::new(x.len(), |i: int| clamp(x[i], lb[i], ub[i]))
}

/// The full bound vectors of a well-formed problem describe a box: no NaN
/// anywhere, and each lower key at most its upper key.
pub proof fn lemma_full_bounds_wf(p: Problem)
    requires
        p.wf(),
    ensures
        forall|i: int|
            0 <= i < p.theta_len() ==> !is_nan(#[trigger] p.full_lower()[i]) && !is_nan(
                p.full_upper()[i],
            ) && key(p.full_lower()[i]) <= key(p.full_upper()[i]),
{
    crate::num::lemma_const_patterns();
    assert forall|i: int| 0 <= i < p.theta_len() implies !is_nan(#[trigger] p.full_lower()[i])
        && !is_nan(p.full_upper()[i]) && key(p.full_lower()[i]) <= key(p.full_upper()[i]) by {
        if i < p.num_edges {
            assert(p.full_lower()[i] == p.lower_bounds@[i]);
            assert(p.full_upper()[i] == p.upper_bounds@[i]);
        } else {
            assert(p.full_lower()[i] == NEG_INF_BITS);
            assert(p.full_upper()[i] == POS_INF_BITS);
        }
    }
}

/// Clamp every component of `x` into the feasible box `[lb, ub]`.
pub fn project_to_bounds(x: &mut Vec<u64>, lb: &Vec<u64>, ub: &Vec<u64>)
    requires
        old(x)@.len() == lb@.len(),
        old(x)@.len() == ub@.len(),
    ensures
        final(x)@ == project_spec(old(x)@, lb@, ub@),
        final(x)@.len() == old(x)@.len(),
        forall|i: int|
            0 <= i < final(x)@.len() ==> final(x)@[i] == clamp(old(x)@[i], lb@[i], ub@[i]),
{
    let n = x.len();
    let mut i: usize = 0;
    while i < n
        invariant
            i <= n,
            n == x@.len(),
            n == old(x)@.len(),
            n == lb@.len(),
            n == ub@.len(),
            forall|k: int| 0 <= k < i ==> x@[k] == clamp(old(x)@[k], lb@[k], ub@[k]),
            forall|k: int| i <= k < n ==> x@[k] == old(x)@[k],
        decreases n - i,
    {
        if lt(x[i], lb[i]) {
            let v = lb[i];
            x.set(i, v);
        }
        if lt(ub[i], x[i]) {
            let v = ub[i];
            x.set(i, v);
        }
        i += 1;
    }
    proof {
        assert(x@ =~= project_spec(old(x)@, lb@, ub@));
    }
}

/// Round-trip law: packing the unpacked halves of any flat parameter
/// vector reproduces that vector exactly.
pub proof fn lemma_pack_unpack_round_trip(theta: Seq<u64>, num_edges: int)
    requires
        0 <= num_edges <= theta.len(),
    ensures
        pack_spec(unpack_q_spec(theta, num_edges), unpack_anchors_spec(theta, num_edges)) == theta,
{
    assert(pack_spec(unpack_q_spec(theta, num_edges), unpack_anchors_spec(theta, num_edges))
        =~= theta);
}

/// Round-trip law: unpacking a packed parameter vector returns exactly the
/// force densities and anchor coordinates that were packed.
pub proof fn lemma_unpack_pack_round_trip(q: Seq<u64>, anchors: Seq<u64>)
    ensures
        unpack_q_spec(pack_spec(q, anchors), q.len() as int) == q,
        unpack_anchors_spec(pack_spec(q, anchors), q.len() as int) == anchors,
{
    assert(unpack_q_spec(pack_spec(q, anchors), q.len() as int) =~= q);
    assert(unpack_anchors_spec(pack_spec(q, anchors), q.len() as int) =~= anchors);
}

} // verus!
