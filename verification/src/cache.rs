//! The memoizing evaluation cache standing between the optimization driver
//! and the external forward/adjoint oracle.
//!
//! The driver asks for cost and gradient at the same point repeatedly, so
//! the cache keeps exactly one entry: the last successfully evaluated
//! parameter vector with its loss and gradient. It validates inputs (a
//! non-finite parameter vector is never forwarded to the oracle) and
//! outputs (a non-finite loss or gradient is treated as a failed solve),
//! appends each accepted loss to the evaluation trace, and tracks the best
//! point of the current sub-search. Failed evaluations are answered with a
//! large finite penalty scaled to the best loss seen so far, paired with
//! the last valid gradient, so the line search backtracks instead of being
//! poisoned by a NaN.

use vstd::prelude::*;

use vstd::arithmetic::mul::{lemma_mul_is_associative, lemma_mul_is_commutative};
use vstd::arithmetic::power2::{lemma2_to64, lemma_pow2_adds, pow2};

use crate::num::{
    INF_MAG, MAG_MASK, ONE_BITS, POS_INF_BITS, SIGN_MASK, all_finite, check_all_finite, copy_vec,
    f_le, f_lt, finite, is_finite, is_nan, lemma_const_patterns, lemma_mag_bounds, lt, mag,
    no_nan, val2, vecs_equal,
};

verus! {

/// Exponent-field increment worth a factor of 2^20 (close to 1e6): the
/// penalty scale applied to the best loss magnitude.
pub const PENALTY_EXP_STEP: u64 = 0x0140_0000_0000_0000;

/// Bit pattern of 2^1000: the fixed huge finite penalty used when no
/// finite best loss exists yet.
pub const HUGE_BITS: u64 = 0x7E70_0000_0000_0000;

/// Bit pattern of the largest finite binary64 value: the saturation point
/// when scaling the best loss would leave the finite range.
pub const MAX_FINITE_BITS: u64 = 0x7FEF_FFFF_FFFF_FFFF;

/// `max(|best|, 1)` as a bit pattern: what the penalty scales.
pub open spec fn penalty_base(best: u64) -> u64 {
    if mag(best) < ONE_BITS {
        ONE_BITS
    } else {
        mag(best)
    }
}

/// The penalty answered for a failed evaluation, given the best loss seen
/// so far: `max(|best|, 1)` scaled by 2^20 (close to 1e6) via an exact
/// exponent bump, saturated to the largest finite value, so the result is
/// always finite and never below the best loss.
pub open spec fn penalty_spec(best: u64) -> u64 {
    if !is_finite(best) {
        HUGE_BITS
    } else {
        if penalty_base(best) + PENALTY_EXP_STEP < INF_MAG {
            (penalty_base(best) + PENALTY_EXP_STEP) as u64
        } else {
            MAX_FINITE_BITS
        }
    }
}

/// The penalty is always finite, at least 1, at least the best loss it
/// was scaled from, and — when scaling stays inside the finite range —
/// worth exactly 2^20 times `max(|best|, 1)`.
pub proof fn lemma_penalty_properties(best: u64)
    ensures
        is_finite(penalty_spec(best)),
        f_le(ONE_BITS, penalty_spec(best)),
        is_finite(best) ==> f_le(best, penalty_spec(best)),
        is_finite(best) && penalty_base(best) + PENALTY_EXP_STEP < INF_MAG ==> val2(
            penalty_spec(best),
        ) == 0x10_0000 * val2(penalty_base(best)),
{
    lemma_const_patterns();
    lemma_mag_bounds(best);
    assert(HUGE_BITS & MAG_MASK == HUGE_BITS && HUGE_BITS & SIGN_MASK == 0) by (bit_vector);
    assert(MAX_FINITE_BITS & MAG_MASK == MAX_FINITE_BITS && MAX_FINITE_BITS & SIGN_MASK == 0)
        by (bit_vector);
    if is_finite(best) {
        let base = penalty_base(best);
        if base + PENALTY_EXP_STEP < INF_MAG {
            let r = (base + PENALTY_EXP_STEP) as u64;
            assert(r < 0x7FF0_0000_0000_0000 ==> (r & MAG_MASK == r && r & SIGN_MASK == 0))
                by (bit_vector);
            lemma_penalty_value(base, r);
        }
    }
}

/// An exponent bump by 20 multiplies the value of a positive normal
/// pattern by exactly 2^20.
proof fn lemma_penalty_value(base: u64, r: u64)
    requires
        0x3FF0_0000_0000_0000 <= base,
        r == base + 0x0140_0000_0000_0000,
        r < 0x7FF0_0000_0000_0000,
    ensures
        val2(r) == 0x10_0000 * val2(base),
{
    assert(base & MAG_MASK == base && base & SIGN_MASK == 0 && r & MAG_MASK == r && r & SIGN_MASK
        == 0) by (bit_vector)
        requires
            0x3FF0_0000_0000_0000 <= base && r == base + 0x0140_0000_0000_0000 && r
                < 0x7FF0_0000_0000_0000,
    ;
    assert(r >> 52 == (base >> 52) + 20 && (r & 0xF_FFFF_FFFF_FFFF) == (base & 0xF_FFFF_FFFF_FFFF)
        && 1023 <= (base >> 52) < 2027) by (bit_vector)
        requires
            0x3FF0_0000_0000_0000 <= base && r == base + 0x0140_0000_0000_0000 && r
                < 0x7FF0_0000_0000_0000,
    ;
    let e = (base >> 52) as nat;
    let f = (base & 0xF_FFFF_FFFF_FFFF) as int;
    let k: int = 0x10_0000_0000_0000;
    let p = pow2((e - 1) as nat) as int;
    lemma_pow2_adds(20, (e - 1) as nat);
    lemma2_to64();
    assert(pow2((e + 19) as nat) as int == 0x10_0000 * p);
    assert(val2(r) == (k + f) * (0x10_0000 * p));
    lemma_mul_is_associative(k + f, 0x10_0000, p);
    lemma_mul_is_commutative(k + f, 0x10_0000);
    lemma_mul_is_associative(0x10_0000, k + f, p);
}

/// Compute the penalty for a failed evaluation.
pub fn penalty_bits(best: u64) -> (r: u64)
    ensures
        r == penalty_spec(best),
        is_finite(r),
        f_le(ONE_BITS, r),
        is_finite(best) ==> f_le(best, r),
        is_finite(best) && penalty_base(best) + PENALTY_EXP_STEP < INF_MAG ==> val2(r) == 0x10_0000
            * val2(penalty_base(best)),
{
    proof {
        lemma_penalty_properties(best);
        lemma_mag_bounds(best);
    }
    if !finite(best) {
        return HUGE_BITS;
    }
    let m: u64 = best & MAG_MASK;
    let base: u64 = if m < ONE_BITS {
        ONE_BITS
    } else {
        m
    };
    if base + PENALTY_EXP_STEP < INF_MAG {
        base + PENALTY_EXP_STEP
    } else {
        MAX_FINITE_BITS
    }
}

/// What the cache answers a lookup with.
pub enum LookupOutcome {
    /// The parameter vector has a non-finite component; it is never
    /// forwarded to the oracle. The penalty value and fallback gradient
    /// are returned in its place.
    Invalid { penalty: u64, gradient: Vec<u64> },
    /// The vector is bit-identical to the memoized evaluation; its cached
    /// loss and gradient are returned without a new forward solve.
    Hit { loss: u64, gradient: Vec<u64> },
    /// A fresh forward solve is needed for this vector.
    Solve,
}

/// The per-sub-search evaluation cache. Discarded and recreated at each
/// restart.
pub struct EvalCache {
    /// Parameter-vector length.
    pub dim: usize,
    /// The last successfully evaluated parameter vector, if any.
    pub memo_theta: Option<Vec<u64>>,
    /// Loss at the memoized vector.
    pub memo_loss: u64,
    /// Gradient at the memoized vector.
    pub memo_grad: Vec<u64>,
    /// Losses of every accepted evaluation, in evaluation order.
    pub trace: Vec<u64>,
    /// Number of forward solves recorded (accepted or failed).
    pub n_solves: usize,
    /// Best accepted loss of this sub-search (+inf before the first).
    pub best_loss: u64,
    /// Parameter vector of the best accepted loss.
    pub best_theta: Vec<u64>,
    /// Gradient of the last accepted evaluation; zeros before the first.
    pub last_valid_grad: Vec<u64>,
}

impl EvalCache {
    /// Structural invariant of the cache. In particular the best loss is a
    /// lower bound on every loss in the trace.
    pub open spec fn wf(self) -> bool {
        &&& self.best_theta@.len() == self.dim
        &&& self.last_valid_grad@.len() == self.dim
        &&& !is_nan(self.best_loss)
        &&& no_nan(self.best_theta@)
        &&& forall|i: int|
            0 <= i < self.trace@.len() ==> f_le(self.best_loss, #[trigger] self.trace@[i])
        &&& match self.memo_theta {
            Some(t) => t@.len() == self.dim && self.memo_grad@.len() == self.dim && is_finite(
                self.memo_loss,
            ) && all_finite(t@) && all_finite(self.memo_grad@),
            None => true,
        }
    }

    /// The vector is bit-identical to the memoized evaluation.
    pub open spec fn memo_hit(self, theta: Seq<u64>) -> bool {
        match self.memo_theta {
            Some(t) => t@ == theta,
            None => false,
        }
    }

    /// A lookup of this vector is answered from the memo, with no forward
    /// solve.
    pub open spec fn lookup_is_hit(self, theta: Seq<u64>) -> bool {
        all_finite(theta) && self.memo_hit(theta)
    }

    /// An evaluation of this vector counts as accepted: the vector and the
    /// oracle's outputs are all finite.
    pub open spec fn accepts(theta: Seq<u64>, loss: u64, gradient: Seq<u64>) -> bool {
        all_finite(theta) && is_finite(loss) && all_finite(gradient)
    }

    /// A fresh cache for a sub-search starting at `x0`: empty memo and
    /// trace, best loss +inf at the start point, zero fallback gradient.
    pub fn new(x0: &Vec<u64>) -> (c: EvalCache)
        requires
            no_nan(x0@),
        ensures
            c.wf(),
            c.dim == x0@.len(),
            c.memo_theta is None,
            c.trace@ == Seq::<u64>::empty(),
            c.n_solves == 0,
            c.best_loss == POS_INF_BITS,
            c.best_theta@ == x0@,
    {
        proof {
            lemma_const_patterns();
        }
        let dim = x0.len();
        let mut zeros: Vec<u64> = Vec::new();
        let mut i: usize = 0;
        while i < dim
            invariant
                i <= dim,
                zeros@.len() == i,
            decreases dim - i,
        {
            zeros.push(0);
            i += 1;
        }
        EvalCache {
            dim,
            memo_theta: None,
            memo_loss: POS_INF_BITS,
            memo_grad: Vec::new(),
            trace: Vec::new(),
            n_solves: 0,
            best_loss: POS_INF_BITS,
            best_theta: copy_vec(x0),
            last_valid_grad: zeros,
        }
    }

    /// Answer an evaluation request without solving: reject a non-finite
    /// vector with the penalty, return the memoized pair for a
    /// bit-identical repeat, and ask for a fresh solve otherwise.
    pub fn lookup(&self, theta: &Vec<u64>) -> (r: LookupOutcome)
        requires
            self.wf(),
        ensures
            !all_finite(theta@) ==> (r matches LookupOutcome::Invalid { penalty, gradient }
                && penalty == penalty_spec(self.best_loss) && gradient@ == self.last_valid_grad@),
            self.lookup_is_hit(theta@) ==> (r matches LookupOutcome::Hit { loss, gradient } && loss
                == self.memo_loss && gradient@ == self.memo_grad@ && is_finite(loss) && all_finite(
                gradient@,
            )),
            all_finite(theta@) && !self.memo_hit(theta@) ==> r is Solve,
    {
        if !check_all_finite(theta) {
            return LookupOutcome::Invalid {
                penalty: penalty_bits(self.best_loss),
                gradient: copy_vec(&self.last_valid_grad),
            };
        }
        match &self.memo_theta {
            Some(t) => {
                if vecs_equal(t, theta) {
                    LookupOutcome::Hit { loss: self.memo_loss, gradient: copy_vec(&self.memo_grad) }
                } else {
                    LookupOutcome::Solve
                }
            },
            None => LookupOutcome::Solve,
        }
    }

    /// Record the outcome of one forward solve at `theta`. An accepted
    /// evaluation (finite vector, finite loss and gradient) is memoized,
    /// appended to the trace, taken as the fallback gradient, and folded
    /// into the sub-search best; its own loss and gradient are answered.
    /// A rejected one (any non-finite output) leaves memo, trace and best
    /// untouched and answers the penalty with the fallback gradient. The
    /// best loss never increases.
    pub fn record(&mut self, theta: &Vec<u64>, loss: u64, gradient: &Vec<u64>) -> (r: (u64, Vec<
        u64,
    >))
        requires
            old(self).wf(),
            theta@.len() == old(self).dim,
            gradient@.len() == old(self).dim,
        ensures
            final(self).wf(),
            final(self).dim == old(self).dim,
            final(self).n_solves == if old(self).n_solves < usize::MAX {
                old(self).n_solves + 1
            } else {
                old(self).n_solves as int
            },
            EvalCache::accepts(theta@, loss, gradient@) ==> {
                &&& final(self).lookup_is_hit(theta@)
                &&& final(self).memo_loss == loss
                &&& final(self).memo_grad@ == gradient@
                &&& final(self).trace@ == old(self).trace@.push(loss)
                &&& final(self).last_valid_grad@ == gradient@
                &&& r.0 == loss
                &&& r.1@ == gradient@
                &&& if f_lt(loss, old(self).best_loss) {
                    final(self).best_loss == loss && final(self).best_theta@ == theta@
                } else {
                    final(self).best_loss == old(self).best_loss && final(self).best_theta@ == old(
                        self,
                    ).best_theta@
                }
            },
            !EvalCache::accepts(theta@, loss, gradient@) ==> {
                &&& final(self).memo_theta == old(self).memo_theta
                &&& final(self).memo_loss == old(self).memo_loss
                &&& final(self).memo_grad@ == old(self).memo_grad@
                &&& final(self).trace@ == old(self).trace@
                &&& final(self).best_loss == old(self).best_loss
                &&& final(self).best_theta@ == old(self).best_theta@
                &&& final(self).last_valid_grad@ == old(self).last_valid_grad@
                &&& r.0 == penalty_spec(old(self).best_loss)
                &&& is_finite(r.0)
                &&& r.1@ == old(self).last_valid_grad@
            },
            f_le(final(self).best_loss, old(self).best_loss),
    {
        if self.n_solves < usize::MAX {
            self.n_solves = self.n_solves + 1;
        }
        let ok = check_all_finite(theta) && finite(loss) && check_all_finite(gradient);
        if ok {
            self.memo_theta = Some(copy_vec(theta));
            self.memo_loss = loss;
            self.memo_grad = copy_vec(gradient);
            self.trace.push(loss);
            self.last_valid_grad = copy_vec(gradient);
            if lt(loss, self.best_loss) {
                self.best_loss = loss;
                self.best_theta = copy_vec(theta);
            }
            (loss, copy_vec(gradient))
        } else {
            let penalty = penalty_bits(self.best_loss);
            (penalty, copy_vec(&self.last_valid_grad))
        }
    }

    /// Record a forward solve that failed outright: counts the solve and
    /// answers the penalty with the fallback gradient; nothing else moves.
    pub fn record_failure(&mut self) -> (r: (u64, Vec<u64>))
        requires
            old(self).wf(),
        ensures
            final(self).wf(),
            final(self).dim == old(self).dim,
            final(self).n_solves == if old(self).n_solves < usize::MAX {
                old(self).n_solves + 1
            } else {
                old(self).n_solves as int
            },
            final(self).memo_theta == old(self).memo_theta,
            final(self).memo_loss == old(self).memo_loss,
            final(self).memo_grad@ == old(self).memo_grad@,
            final(self).trace@ == old(self).trace@,
            final(self).best_loss == old(self).best_loss,
            final(self).best_theta@ == old(self).best_theta@,
            final(self).last_valid_grad@ == old(self).last_valid_grad@,
            r.0 == penalty_spec(old(self).best_loss),
            is_finite(r.0),
            r.1@ == old(self).last_valid_grad@,
            f_le(final(self).best_loss, old(self).best_loss),
    {
        if self.n_solves < usize::MAX {
            self.n_solves = self.n_solves + 1;
        }
        let penalty = penalty_bits(self.best_loss);
        (penalty, copy_vec(&self.last_valid_grad))
    }
}

/// Memoization law: once an evaluation of `theta` is accepted and
/// recorded, a lookup of any bit-identical vector is a hit answered from
/// the memo, so no second forward solve happens for that point.
pub proof fn lemma_memoization(c: EvalCache, theta: Seq<u64>)
    requires
        c.memo_hit(theta),
        c.wf(),
    ensures
        c.lookup_is_hit(theta),
{
}

} // verus!
