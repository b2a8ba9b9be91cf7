//! Exact integer helpers the dynamics are built on: division that rounds
//! toward zero (the rounding every per-step quantity uses) and the floor of
//! the integer square root (used for the distance in Coulomb's law).

use vstd::arithmetic::div_mod::{
    lemma_basic_div_specific_divisor, lemma_div_non_zero, lemma_div_nonincreasing,
    lemma_div_pos_is_pos,
};
use vstd::prelude::*;

verus! {

/// Integer division rounded toward zero, as a mathematical function.
///
/// For a nonnegative dividend this is plain Euclidean division; for a
/// negative dividend the magnitude is divided and the sign restored, so the
/// quotient of `-a` is always the exact negation of the quotient of `a`.
pub open spec fn div_trunc(a: int, b: int) -> int
    recommends
        b >= 1,
{
    if a >= 0 {
        a / b
    } else {
        -((-a) / b)
    }
}

/// Rounding toward zero never grows the magnitude and never flips the sign.
pub proof fn lemma_div_trunc_bounds(a: int, b: int)
    requires
        b >= 1,
    ensures
        a >= 0 ==> 0 <= div_trunc(a, b) <= a,
        a <= 0 ==> a <= div_trunc(a, b) <= 0,
{
    if a >= 0 {
        lemma_div_pos_is_pos(a, b);
        lemma_div_nonincreasing(a, b);
    } else {
        lemma_div_pos_is_pos(-a, b);
        lemma_div_nonincreasing(-a, b);
    }
}

/// A zero dividend gives a zero quotient.
pub proof fn lemma_div_trunc_zero(b: int)
    requires
        b >= 1,
    ensures
        div_trunc(0, b) == 0,
{
    lemma_div_trunc_bounds(0, b);
}

/// The quotient vanishes exactly when the dividend's magnitude is below
/// the divisor.
pub proof fn lemma_div_trunc_zero_iff(a: int, b: int)
    requires
        b >= 1,
    ensures
        div_trunc(a, b) == 0 <==> -b < a < b,
{
    lemma_basic_div_specific_divisor(b);
    if a >= b {
        lemma_div_non_zero(a, b);
    }
    if -a >= b {
        lemma_div_non_zero(-a, b);
    }
}

/// Negating the dividend negates the quotient exactly.
pub proof fn lemma_div_trunc_neg(a: int, b: int)
    requires
        b >= 1,
    ensures
        div_trunc(-a, b) == -div_trunc(a, b),
{
    if a == 0 {
        lemma_div_pos_is_pos(0, b);
        lemma_div_nonincreasing(0, b);
    }
}

/// Division rounded toward zero, executable form.
pub fn div_toward_zero(a: i128, b: i128) -> (q: i128)
    requires
        b >= 1,
        a > i128::MIN,
    ensures
        q == div_trunc(a as int, b as int),
        a >= 0 ==> 0 <= q <= a,
        a <= 0 ==> a <= q <= 0,
{
    proof {
        lemma_div_trunc_bounds(a as int, b as int);
    }
    if a >= 0 {
        ((a as u128) / (b as u128)) as i128
    } else {
        let m = (-a) as u128;
        -((m / (b as u128)) as i128)
    }
}

/// A product is bounded by the product of the factors' bounds.
pub proof fn lemma_mul_bound(x: int, y: int, bx: int, by: int)
    by (nonlinear_arith)
    requires
        -bx <= x <= bx,
        -by <= y <= by,
    ensures
        -(bx * by) <= x * y <= bx * by,
{
}

/// The square of a nonzero integer is at least one.
pub proof fn lemma_square_pos(x: int)
    by (nonlinear_arith)
    requires
        x != 0,
    ensures
        x * x >= 1,
{
}

/// Squares are never negative.
pub proof fn lemma_square_nonneg(x: int)
    by (nonlinear_arith)
    ensures
        x * x >= 0,
{
}

/// Floor of the square root, as a mathematical function.
pub open spec fn sqrt_floor(n: nat) -> nat
    decreases n,
{
    if n == 0 {
        0
    } else {
        let r = sqrt_floor((n - 1) as nat);
        if (r + 1) * (r + 1) <= n {
            r + 1
        } else {
            r
        }
    }
}

/// `sqrt_floor(n)` really is the floor of the square root of `n`.
pub proof fn lemma_sqrt_floor_correct(n: nat)
    ensures
        sqrt_floor(n) * sqrt_floor(n) <= n,
        n < (sqrt_floor(n) + 1) * (sqrt_floor(n) + 1),
    decreases n,
{
    if n == 0 {
        assert(sqrt_floor(0) == 0);
        assert(n < (sqrt_floor(n) + 1) * (sqrt_floor(n) + 1)) by (nonlinear_arith)
            requires
                n == 0,
                sqrt_floor(n) == 0,
        ;
    } else {
        lemma_sqrt_floor_correct((n - 1) as nat);
        let r = sqrt_floor((n - 1) as nat);
        if (r + 1) * (r + 1) <= n {
            assert(sqrt_floor(n) == r + 1);
            assert(n < (r + 2) * (r + 2)) by (nonlinear_arith)
                requires
                    n <= (r + 1) * (r + 1) + 1,
                    (r + 1) * (r + 1) <= n,
            ;
        } else {
            assert(sqrt_floor(n) == r);
        }
    }
}

/// Any value bracketed by consecutive squares is the floor square root.
pub proof fn lemma_sqrt_floor_unique(n: nat, r: nat)
    requires
        r * r <= n,
        n < (r + 1) * (r + 1),
    ensures
        r == sqrt_floor(n),
{
    let s = sqrt_floor(n);
    lemma_sqrt_floor_correct(n);
    if r < s {
        assert((r + 1) * (r + 1) <= s * s) by (nonlinear_arith)
            requires
                r + 1 <= s,
        ;
    }
    if s < r {
        assert((s + 1) * (s + 1) <= r * r) by (nonlinear_arith)
            requires
                s + 1 <= r,
        ;
    }
}

/// Floor of the square root, executable form (binary search on the root).
pub fn isqrt(n: u64) -> (r: u64)
    requires
        n < 0x1000_0000_0000_0000,
    ensures
        r == sqrt_floor(n as nat),
        r * r <= n < (r + 1) * (r + 1),
        r <= 0x4000_0000,
{
    let mut lo: u64 = 0;
    let mut hi: u64 = 0x4000_0000;
    while hi - lo > 1
        invariant
            lo < hi <= 0x4000_0000,
            (lo as int) * (lo as int) <= n as int,
            (n as int) < (hi as int) * (hi as int),
        decreases hi - lo,
    {
        let mid = lo + (hi - lo) / 2;
        proof {
            assert((mid as int) * (mid as int) <= 0x4000_0000int * 0x4000_0000int)
                by (nonlinear_arith)
                requires
                    0 <= mid as int <= 0x4000_0000int,
            ;
        }
        if mid * mid <= n {
            lo = mid;
        } else {
            hi = mid;
        }
    }
    proof {
        lemma_sqrt_floor_unique(n as nat, lo as nat);
    }
    lo
}

} // verus!
