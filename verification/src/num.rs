//! IEEE-754 binary64 values as `u64` bit patterns.
//!
//! The optimizer never performs general floating-point arithmetic: every
//! decision it makes rests on comparisons, finiteness tests, absolute
//! values and exponent adjustments, and all of those are exact functions
//! of the bit pattern. This module defines the order of binary64 patterns
//! (`key`), the NaN and finiteness predicates, and verified executable
//! comparisons implementing the standard semantics: comparisons involving
//! a NaN are false, the two zero patterns are equal, and otherwise the
//! order is the order of the represented values.

use vstd::prelude::*;

use vstd::arithmetic::mul::{
    lemma_mul_basics, lemma_mul_inequality, lemma_mul_is_associative, lemma_mul_is_commutative,
    lemma_mul_strict_inequality,
};
use vstd::arithmetic::power2::{
    lemma2_to64, lemma_pow2_adds, lemma_pow2_pos, lemma_pow2_strictly_increases, pow2,
};

verus! {

/// Sign bit of a binary64 pattern.
pub const SIGN_MASK: u64 = 0x8000_0000_0000_0000;

/// Exponent and fraction bits of a binary64 pattern.
pub const MAG_MASK: u64 = 0x7FFF_FFFF_FFFF_FFFF;

/// Magnitude of an infinity; any strictly larger magnitude is a NaN.
pub const INF_MAG: u64 = 0x7FF0_0000_0000_0000;

/// Bit pattern of positive infinity.
pub const POS_INF_BITS: u64 = 0x7FF0_0000_0000_0000;

/// Bit pattern of negative infinity.
pub const NEG_INF_BITS: u64 = 0xFFF0_0000_0000_0000;

/// Bit pattern of 1.0.
pub const ONE_BITS: u64 = 0x3FF0_0000_0000_0000;

/// Bit pattern of +0.0.
pub const ZERO_BITS: u64 = 0;

/// Magnitude of a pattern: its exponent and fraction bits.
pub open spec fn mag(b: u64) -> u64 {
    b & MAG_MASK
}

/// Whether the sign bit is set.
pub open spec fn is_neg(b: u64) -> bool {
    b & SIGN_MASK != 0
}

/// Whether the pattern is a NaN.
pub open spec fn is_nan(b: u64) -> bool {
    mag(b) > INF_MAG
}

/// Whether the pattern represents a finite value (neither NaN nor infinite).
pub open spec fn is_finite(b: u64) -> bool {
    mag(b) < INF_MAG
}

/// Order key of a pattern: the monotone map from non-NaN patterns to the
/// integers under which binary64 comparison is integer comparison. The two
/// zero patterns share the key 0, matching their equality as values.
pub open spec fn key(b: u64) -> int {
    if is_neg(b) {
        -(mag(b) as int)
    } else {
        mag(b) as int
    }
}

/// The exact value of a non-NaN magnitude (a pattern with its sign bit
/// cleared), in units of 2^-1074, the smallest positive binary64 value: a
/// subnormal is its fraction, a normal is `(2^52 + fraction) *
/// 2^(exponent - 1)`, and infinity's magnitude extends the same formula
/// past every finite value.
pub open spec fn mag_val(m: u64) -> int {
    let e = (m >> 52) as int;
    let f = (m & 0xF_FFFF_FFFF_FFFF) as int;
    if e == 0 {
        f
    } else {
        (0x10_0000_0000_0000 + f) * pow2((e - 1) as nat)
    }
}

/// The exact value of a non-NaN pattern, in units of 2^-1074.
pub open spec fn val2(b: u64) -> int {
    if is_neg(b) {
        -mag_val(mag(b))
    } else {
        mag_val(mag(b))
    }
}

/// A larger magnitude carries a strictly larger value, up to and
/// including infinity's magnitude.
pub proof fn lemma_mag_val_monotone(m1: u64, m2: u64)
    requires
        m1 < m2 <= INF_MAG,
    ensures
        0 <= mag_val(m1) < mag_val(m2),
{
    let e1 = (m1 >> 52) as int;
    let f1 = (m1 & 0xF_FFFF_FFFF_FFFF) as int;
    let e2 = (m2 >> 52) as int;
    let f2 = (m2 & 0xF_FFFF_FFFF_FFFF) as int;
    let k: int = 0x10_0000_0000_0000;
    assert((m1 >> 52) * 0x10_0000_0000_0000 + (m1 & 0xF_FFFF_FFFF_FFFF) == m1 && (m1
        & 0xF_FFFF_FFFF_FFFF) < 0x10_0000_0000_0000) by (bit_vector);
    assert((m2 >> 52) * 0x10_0000_0000_0000 + (m2 & 0xF_FFFF_FFFF_FFFF) == m2 && (m2
        & 0xF_FFFF_FFFF_FFFF) < 0x10_0000_0000_0000) by (bit_vector);
    lemma_mul_basics(k);
    if e1 == e2 {
        if e1 != 0 {
            let p = pow2((e1 - 1) as nat) as int;
            lemma_pow2_pos((e1 - 1) as nat);
            lemma_mul_strict_inequality(0, k + f1, p);
            lemma_mul_basics(p);
            lemma_mul_strict_inequality(k + f1, k + f2, p);
        }
    } else {
        let p2 = pow2((e2 - 1) as nat) as int;
        lemma_pow2_pos((e2 - 1) as nat);
        lemma_mul_basics(p2);
        lemma_mul_inequality(k, k + f2, p2);
        if e1 == 0 {
            // value below 2^52, against at least 2^52 * p2
            lemma_mul_inequality(1, p2, k);
            lemma_mul_is_commutative(k, p2);
        } else {
            let p1 = pow2((e1 - 1) as nat) as int;
            lemma_pow2_pos((e1 - 1) as nat);
            lemma_mul_basics(p1);
            lemma_mul_strict_inequality(0, k + f1, p1);
            // (k+f1)*p1 <= (2k-1)*p1 < 2k*p1 == k*pow2(e1) <= k*p2 <= (k+f2)*p2
            lemma_mul_inequality(k + f1, 2 * k - 1, p1);
            lemma_mul_strict_inequality(2 * k - 1, 2 * k, p1);
            lemma_pow2_adds(1, (e1 - 1) as nat);
            lemma2_to64();
            assert(pow2(e1 as nat) as int == 2 * p1);
            lemma_mul_is_associative(k, 2, p1);
            lemma_mul_is_commutative(k, 2);
            if e1 < e2 - 1 {
                lemma_pow2_strictly_increases(e1 as nat, (e2 - 1) as nat);
            }
            lemma_mul_inequality(pow2(e1 as nat) as int, p2, k);
            lemma_mul_is_commutative(k, pow2(e1 as nat) as int);
            lemma_mul_is_commutative(k, p2);
        }
    }
}

/// The order key is faithful: over non-NaN patterns it orders exactly as
/// the represented values do, with infinities beyond every finite value
/// and the two zero patterns sharing the value 0.
pub proof fn lemma_key_orders_values(a: u64, b: u64)
    requires
        !is_nan(a),
        !is_nan(b),
    ensures
        (key(a) < key(b)) == (val2(a) < val2(b)),
        (key(a) == key(b)) == (val2(a) == val2(b)),
{
    lemma_mag_bounds(a);
    lemma_mag_bounds(b);
    assert(0u64 >> 52 == 0 && 0u64 & 0xF_FFFF_FFFF_FFFF == 0) by (bit_vector);
    if mag(a) < mag(b) {
        lemma_mag_val_monotone(mag(a), mag(b));
    } else if mag(b) < mag(a) {
        lemma_mag_val_monotone(mag(b), mag(a));
    }
    if 0 < mag(a) {
        lemma_mag_val_monotone(0, mag(a));
    }
    if 0 < mag(b) {
        lemma_mag_val_monotone(0, mag(b));
    }
}

/// Strict binary64 `<` on patterns; false when either side is a NaN.
pub open spec fn f_lt(a: u64, b: u64) -> bool {
    !is_nan(a) && !is_nan(b) && key(a) < key(b)
}

/// Binary64 `<=` on patterns; false when either side is a NaN.
pub open spec fn f_le(a: u64, b: u64) -> bool {
    !is_nan(a) && !is_nan(b) && key(a) <= key(b)
}

/// Every entry of the sequence is finite.
pub open spec fn all_finite(s: Seq<u64>) -> bool {
    forall|i: int| 0 <= i < s.len() ==> is_finite(#[trigger] s[i])
}

/// No entry of the sequence is a NaN (infinities allowed).
pub open spec fn no_nan(s: Seq<u64>) -> bool {
    forall|i: int| 0 <= i < s.len() ==> !is_nan(#[trigger] s[i])
}

/// The pattern `from_key_spec(key(b))` reconstructs from a key: keys of the
/// two zero patterns collapse to +0.0, every other non-NaN pattern is
/// reproduced exactly.
pub open spec fn from_key_spec(k: int) -> u64 {
    if k >= 0 {
        k as u64
    } else {
        (0x8000_0000_0000_0000 + (-k)) as u64
    }
}

/// The distinguished constant patterns are what their names say.
pub proof fn lemma_const_patterns()
    ensures
        !is_nan(POS_INF_BITS),
        !is_neg(POS_INF_BITS),
        mag(POS_INF_BITS) == INF_MAG,
        key(POS_INF_BITS) == INF_MAG as int,
        !is_nan(NEG_INF_BITS),
        is_neg(NEG_INF_BITS),
        mag(NEG_INF_BITS) == INF_MAG,
        key(NEG_INF_BITS) == -(INF_MAG as int),
        is_finite(ONE_BITS),
        !is_neg(ONE_BITS),
        mag(ONE_BITS) == ONE_BITS,
        key(ONE_BITS) == ONE_BITS as int,
        is_finite(ZERO_BITS),
        !is_neg(ZERO_BITS),
        key(ZERO_BITS) == 0,
{
    assert(0x7FF0_0000_0000_0000u64 & MAG_MASK == 0x7FF0_0000_0000_0000u64 && 0x7FF0_0000_0000_0000u64
        & SIGN_MASK == 0) by (bit_vector);
    assert(0xFFF0_0000_0000_0000u64 & MAG_MASK == 0x7FF0_0000_0000_0000u64 && 0xFFF0_0000_0000_0000u64
        & SIGN_MASK != 0) by (bit_vector);
    assert(0x3FF0_0000_0000_0000u64 & MAG_MASK == 0x3FF0_0000_0000_0000u64 && 0x3FF0_0000_0000_0000u64
        & SIGN_MASK == 0) by (bit_vector);
    assert(0u64 & MAG_MASK == 0u64 && 0u64 & SIGN_MASK == 0) by (bit_vector);
}

/// Basic consequences of the bit masks, used throughout the crate.
pub proof fn lemma_mag_bounds(b: u64)
    ensures
        mag(b) <= MAG_MASK,
        mag(mag(b)) == mag(b),
        !is_neg(mag(b)),
{
    assert(b & MAG_MASK <= MAG_MASK) by (bit_vector);
    assert((b & MAG_MASK) & MAG_MASK == b & MAG_MASK) by (bit_vector);
    assert((b & MAG_MASK) & SIGN_MASK == 0) by (bit_vector);
}

/// Strict binary64 `<` on bit patterns: false when either side is a NaN,
/// otherwise exactly the order of the represented values.
pub fn lt(a: u64, b: u64) -> (r: bool)
    ensures
        r == f_lt(a, b),
        !is_nan(a) && !is_nan(b) ==> r == (val2(a) < val2(b)),
{
    proof {
        if !is_nan(a) && !is_nan(b) {
            lemma_key_orders_values(a, b);
        }
    }
    let ma: u64 = a & MAG_MASK;
    let mb: u64 = b & MAG_MASK;
    if ma > INF_MAG || mb > INF_MAG {
        return false;
    }
    let na: bool = (a & SIGN_MASK) != 0;
    let nb: bool = (b & SIGN_MASK) != 0;
    if na && nb {
        mb < ma
    } else if na {
        ma != 0 || mb != 0
    } else if nb {
        false
    } else {
        ma < mb
    }
}

/// Binary64 `<=` on bit patterns: false when either side is a NaN,
/// otherwise exactly the order of the represented values.
pub fn le(a: u64, b: u64) -> (r: bool)
    ensures
        r == f_le(a, b),
        !is_nan(a) && !is_nan(b) ==> r == (val2(a) <= val2(b)),
{
    proof {
        if !is_nan(a) && !is_nan(b) {
            lemma_key_orders_values(a, b);
        }
    }
    let ma: u64 = a & MAG_MASK;
    let mb: u64 = b & MAG_MASK;
    if ma > INF_MAG || mb > INF_MAG {
        return false;
    }
    let na: bool = (a & SIGN_MASK) != 0;
    let nb: bool = (b & SIGN_MASK) != 0;
    if na && nb {
        mb <= ma
    } else if na {
        true
    } else if nb {
        ma == 0 && mb == 0
    } else {
        ma <= mb
    }
}

/// Whether the pattern represents a finite value.
pub fn finite(b: u64) -> (r: bool)
    ensures
        r == is_finite(b),
{
    (b & MAG_MASK) < INF_MAG
}

/// Whether the pattern is a NaN.
pub fn nan_bits(b: u64) -> (r: bool)
    ensures
        r == is_nan(b),
{
    (b & MAG_MASK) > INF_MAG
}

/// Absolute value: clears the sign bit, exactly as binary64 `abs` does.
pub fn abs_bits(b: u64) -> (r: u64)
    ensures
        r == mag(b),
        mag(r) == mag(b),
        !is_neg(r),
        is_nan(r) == is_nan(b),
        !is_nan(b) ==> key(r) >= 0 && key(r) >= key(b) && -key(r) <= key(b),
{
    proof {
        lemma_mag_bounds(b);
    }
    b & MAG_MASK
}

/// The order key of a non-NaN pattern, as a machine integer.
pub fn to_key(b: u64) -> (k: i128)
    requires
        !is_nan(b),
    ensures
        k as int == key(b),
{
    let m: u64 = b & MAG_MASK;
    proof {
        lemma_mag_bounds(b);
    }
    if (b & SIGN_MASK) != 0 {
        -(m as i128)
    } else {
        m as i128
    }
}

/// The non-NaN pattern with the given order key (keys of the two zero
/// patterns collapse to +0.0).
pub fn from_key(k: i128) -> (b: u64)
    requires
        -(INF_MAG as int) <= k as int <= INF_MAG as int,
    ensures
        !is_nan(b),
        key(b) == k as int,
        b == from_key_spec(k as int),
        is_finite(b) || k as int == INF_MAG as int || k as int == -(INF_MAG as int),
{
    if k >= 0 {
        let b: u64 = k as u64;
        proof {
            assert(b <= INF_MAG ==> (b & MAG_MASK == b && b & SIGN_MASK == 0)) by (bit_vector);
        }
        b
    } else {
        let m: u64 = (-k) as u64;
        let b: u64 = SIGN_MASK | m;
        proof {
            assert(m <= INF_MAG ==> ((SIGN_MASK | m) & MAG_MASK == m && (SIGN_MASK | m)
                & SIGN_MASK != 0)) by (bit_vector);
            assert(m <= INF_MAG ==> (SIGN_MASK | m) == SIGN_MASK + m) by (bit_vector);
        }
        b
    }
}

/// Exact copy of a vector of bit patterns.
pub fn copy_vec(v: &Vec<u64>) -> (r: Vec<u64>)
    ensures
        r@ == v@,
{
    let mut r: Vec<u64> = Vec::new();
    let mut i: usize = 0;
    while i < v.len()
        invariant
            i <= v@.len(),
            r@ == v@.take(i as int),
        decreases v@.len() - i,
    {
        r.push(v[i]);
        i += 1;
        proof {
            assert(r@ =~= v@.take(i as int));
        }
    }
    proof {
        assert(r@ =~= v@);
    }
    r
}

/// Whether every entry of the vector is finite.
pub fn check_all_finite(v: &Vec<u64>) -> (r: bool)
    ensures
        r == all_finite(v@),
{
    let mut i: usize = 0;
    while i < v.len()
        invariant
            i <= v@.len(),
            forall|k: int| 0 <= k < i ==> is_finite(#[trigger] v@[k]),
        decreases v@.len() - i,
    {
        if !finite(v[i]) {
            return false;
        }
        i += 1;
    }
    true
}

/// Whether some entry of the vector is a NaN.
pub fn check_any_nan(v: &Vec<u64>) -> (r: bool)
    ensures
        r == !no_nan(v@),
{
    let mut i: usize = 0;
    while i < v.len()
        invariant
            i <= v@.len(),
            forall|k: int| 0 <= k < i ==> !is_nan(#[trigger] v@[k]),
        decreases v@.len() - i,
    {
        if nan_bits(v[i]) {
            return true;
        }
        i += 1;
    }
    false
}

/// Whether two vectors of bit patterns are bit-identical.
pub fn vecs_equal(a: &Vec<u64>, b: &Vec<u64>) -> (r: bool)
    ensures
        r == (a@ == b@),
{
    if a.len() != b.len() {
        return false;
    }
    let mut i: usize = 0;
    while i < a.len()
        invariant
            a@.len() == b@.len(),
            i <= a@.len(),
            forall|k: int| 0 <= k < i ==> a@[k] == b@[k],
        decreases a@.len() - i,
    {
        if a[i] != b[i] {
            return false;
        }
        i += 1;
    }
    proof {
        assert(a@ =~= b@);
    }
    true
}

} // verus!

