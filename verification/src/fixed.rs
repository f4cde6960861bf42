//! Fixed-point arithmetic used by the amortization engine.
//!
//! A quantity (an amount of money, an annual or monthly rate, a number of
//! discount points) is represented as an `i128` holding the quantity times
//! [`SCALE`], so one unit carries twelve fractional decimal digits.
//! Multiplication and division of two fixed-point quantities rescale the
//! raw product or quotient; both round toward negative infinity on the
//! non-negative operands admitted here, so the executable results agree
//! exactly with the mathematical (`int`) specifications below.

use vstd::prelude::*;

verus! {

/// One fixed-point unit: every quantity is stored times this factor.
pub const SCALE: i128 = 1_000_000_000_000;

/// Largest amount-like operand accepted by [`fp_mul`] (first slot).
pub const AMOUNT_MAX: i128 = 10_000_000_000_000_000_000_000_000;

/// Largest rate-like operand accepted by [`fp_mul`] (second slot).
pub const RATE_MAX: i128 = 10_000_000_000_000;

/// Largest value a fixed-point product can take: `AMOUNT_MAX * RATE_MAX / SCALE`.
pub const PRODUCT_MAX: i128 = 100_000_000_000_000_000_000_000_000;

/// Mathematical value of the fixed-point product of `a` and `b`.
pub open spec fn fp_mul_v(a: int, b: int) -> int {
    (a * b) / (SCALE as int)
}

/// The operands on which the executable fixed-point product is defined:
/// an amount-like first operand and a rate-like second operand, both
/// non-negative, small enough that the raw product fits the machine.
pub open spec fn fp_mul_ok(a: int, b: int) -> bool {
    &&& 0 <= a <= AMOUNT_MAX
    &&& 0 <= b <= RATE_MAX
}

/// Fixed-point product of two in-range operands.
pub fn fp_mul_unchecked(a: i128, b: i128) -> (r: i128)
    requires
        fp_mul_ok(a as int, b as int),
    ensures
        r == fp_mul_v(a as int, b as int),
        0 <= r <= PRODUCT_MAX,
{
    proof {
        assert((a as int) * (b as int) <= (AMOUNT_MAX as int) * (RATE_MAX as int))
            by (nonlinear_arith)
            requires
                0 <= a <= AMOUNT_MAX,
                0 <= b <= RATE_MAX,
        ;
        assert((a as int) * (b as int) >= 0) by (nonlinear_arith)
            requires
                0 <= a,
                0 <= b,
        ;
        vstd::arithmetic::div_mod::lemma_div_is_ordered(
            (a as int) * (b as int),
            (AMOUNT_MAX as int) * (RATE_MAX as int),
            SCALE as int,
        );
        vstd::arithmetic::div_mod::lemma_div_pos_is_pos((a as int) * (b as int), SCALE as int);
    }
    let prod: u128 = (a as u128) * (b as u128);
    let q: u128 = prod / (SCALE as u128);
    q as i128
}

/// Fixed-point product, total: `None` exactly on operands outside the
/// range that [`fp_mul_unchecked`] accepts.
pub fn fp_mul(a: i128, b: i128) -> (r: Option<i128>)
    ensures
        (r is Some) == fp_mul_ok(a as int, b as int),
        r matches Some(v) ==> v == fp_mul_v(a as int, b as int) && 0 <= v <= PRODUCT_MAX,
{
    if 0 <= a && a <= AMOUNT_MAX && 0 <= b && b <= RATE_MAX {
        Some(fp_mul_unchecked(a, b))
    } else {
        None
    }
}

/// Mathematical value of the fixed-point quotient of `a` by `b`.
pub open spec fn fp_div_v(a: int, b: int) -> int {
    (a * (SCALE as int)) / b
}

/// The operands on which the executable fixed-point quotient is defined:
/// a non-negative numerator small enough that rescaling it fits the
/// machine, and a positive denominator.
pub open spec fn fp_div_ok(a: int, b: int) -> bool {
    &&& 0 <= a <= PRODUCT_MAX
    &&& 1 <= b
}

/// Fixed-point quotient of two in-range operands.
pub fn fp_div_unchecked(a: i128, b: i128) -> (r: i128)
    requires
        fp_div_ok(a as int, b as int),
    ensures
        r == fp_div_v(a as int, b as int),
        0 <= r,
{
    proof {
        assert((a as int) * (SCALE as int) <= (PRODUCT_MAX as int) * (SCALE as int))
            by (nonlinear_arith)
            requires
                0 <= a <= PRODUCT_MAX,
        ;
        assert((a as int) * (SCALE as int) >= 0) by (nonlinear_arith)
            requires
                0 <= a,
        ;
        vstd::arithmetic::div_mod::lemma_div_is_ordered(
            (a as int) * (SCALE as int),
            (PRODUCT_MAX as int) * (SCALE as int),
            b as int,
        );
        vstd::arithmetic::div_mod::lemma_div_is_ordered_by_denominator(
            (PRODUCT_MAX as int) * (SCALE as int),
            1,
            b as int,
        );
        vstd::arithmetic::div_mod::lemma_div_pos_is_pos((a as int) * (SCALE as int), b as int);
    }
    let num: u128 = (a as u128) * (SCALE as u128);
    let q: u128 = num / (b as u128);
    q as i128
}

/// Fixed-point quotient, total: `None` exactly on operands outside the
/// range that [`fp_div_unchecked`] accepts.
pub fn fp_div(a: i128, b: i128) -> (r: Option<i128>)
    ensures
        (r is Some) == fp_div_ok(a as int, b as int),
        r matches Some(v) ==> v == fp_div_v(a as int, b as int) && 0 <= v,
{
    if 0 <= a && a <= PRODUCT_MAX && 1 <= b {
        Some(fp_div_unchecked(a, b))
    } else {
        None
    }
}

/// A fixed-point product with a non-negative rate grows with its
/// amount operand.
pub proof fn lemma_fp_mul_v_monotone(a1: int, a2: int, b: int)
    requires
        a1 <= a2,
        0 <= b,
    ensures
        fp_mul_v(a1, b) <= fp_mul_v(a2, b),
{
    vstd::arithmetic::mul::lemma_mul_inequality(a1, a2, b);
    vstd::arithmetic::div_mod::lemma_div_is_ordered(a1 * b, a2 * b, SCALE as int);
}

/// Quotient of a non-negative value by a positive divisor (plain integer
/// division, not rescaled: used to split an annual rate into months and a
/// principal into equal instalments).
pub fn div_nonneg(a: i128, b: i128) -> (r: i128)
    requires
        0 <= a,
        1 <= b,
    ensures
        r == a as int / b as int,
        0 <= r <= a,
{
    proof {
        vstd::arithmetic::div_mod::lemma_div_nonincreasing(a as int, b as int);
        vstd::arithmetic::div_mod::lemma_div_pos_is_pos(a as int, b as int);
    }
    ((a as u128) / (b as u128)) as i128
}

/// Mathematical value of the fixed-point `k`-th power of `b`
/// (one unit, multiplied by `b` a total of `k` times).
pub open spec fn fp_pow_v(b: int, k: nat) -> int
    decreases k,
{
    if k == 0 {
        SCALE as int
    } else {
        fp_mul_v(fp_pow_v(b, (k - 1) as nat), b)
    }
}

/// Whether every multiplication performed while raising `b` to the `k`-th
/// fixed-point power stays within the range [`fp_mul`] accepts.
pub open spec fn fp_pow_ok(b: int, k: nat) -> bool
    decreases k,
{
    if k == 0 {
        true
    } else {
        fp_pow_ok(b, (k - 1) as nat) && fp_mul_ok(fp_pow_v(b, (k - 1) as nat), b)
    }
}

/// A power that can be taken to exponent `k` can be taken to any smaller
/// exponent.
pub proof fn lemma_fp_pow_ok_monotone(b: int, j: nat, k: nat)
    requires
        j <= k,
        fp_pow_ok(b, k),
    ensures
        fp_pow_ok(b, j),
    decreases k,
{
    if j < k {
        lemma_fp_pow_ok_monotone(b, j, (k - 1) as nat);
    }
}

/// Fixed-point power, total: `None` exactly when some intermediate
/// product falls outside the range [`fp_mul`] accepts.
pub fn fp_pow(b: i128, k: u32) -> (r: Option<i128>)
    ensures
        (r is Some) == fp_pow_ok(b as int, k as nat),
        r matches Some(v) ==> v == fp_pow_v(b as int, k as nat),
{
    let mut acc: i128 = SCALE;
    let mut i: u32 = 0;
    while i < k
        invariant
            i <= k,
            acc == fp_pow_v(b as int, i as nat),
            fp_pow_ok(b as int, i as nat),
        decreases k - i,
    {
        match fp_mul(acc, b) {
            Some(next) => {
                acc = next;
            },
            None => {
                proof {
                    assert(!fp_pow_ok(b as int, (i + 1) as nat));
                    if fp_pow_ok(b as int, k as nat) {
                        lemma_fp_pow_ok_monotone(b as int, (i + 1) as nat, k as nat);
                    }
                }
                return None;
            },
        }
        i = i + 1;
    }
    Some(acc)
}

} // verus!
