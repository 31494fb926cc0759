//! Factorization-strategy selection for the equilibrium forward solve.
//!
//! Decided once per problem from the force-density bounds: when every lower
//! bound is strictly positive, every feasible point keeps the equilibrium
//! system positive definite and the cheaper SPD (Cholesky) factorization is
//! safe; any bound admitting a zero or negative force density forces the
//! general symmetric (indefinite-tolerant) factorization. Runtime
//! factorization distress inside the oracle is a per-call fallback there,
//! not a mutation of this choice.

use vstd::prelude::*;

use crate::num::{ZERO_BITS, f_lt, lt};

verus! {

/// Which factorization the forward solve should use.
#[derive(Clone, Copy, Debug, PartialEq, Eq, Structural)]
pub enum Strategy {
    /// Symmetric positive definite: Cholesky.
    Spd,
    /// General symmetric: pivoted factorization tolerating indefiniteness.
    GeneralSymmetric,
}

/// The bound is a strictly positive (non-NaN) value.
pub open spec fn strictly_positive(b: u64) -> bool {
    f_lt(ZERO_BITS, b)
}

/// Every lower bound is strictly positive.
pub open spec fn all_strictly_positive(lower: Seq<u64>) -> bool {
    forall|i: int| 0 <= i < lower.len() ==> strictly_positive(#[trigger] lower[i])
}

/// Choose the factorization strategy from the force-density lower bounds:
/// SPD exactly when every lower bound is strictly positive, general
/// symmetric otherwise.
pub fn strategy(lower_bounds: &Vec<u64>) -> (r: Strategy)
    ensures
        r == Strategy::Spd <==> all_strictly_positive(lower_bounds@),
{
    let mut i: usize = 0;
    while i < lower_bounds.len()
        invariant
            i <= lower_bounds@.len(),
            forall|k: int| 0 <= k < i ==> strictly_positive(#[trigger] lower_bounds@[k]),
        decreases lower_bounds@.len() - i,
    {
        if !lt(ZERO_BITS, lower_bounds[i]) {
            return Strategy::GeneralSymmetric;
        }
        i += 1;
    }
    Strategy::Spd
}

} // verus!
