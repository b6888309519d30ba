//! Scalar helpers shared by the whole simulation: clamping, truncating
//! division by a positive divisor, and an integer square root.

use vstd::prelude::*;

verus! {

/// Mathematical clamp of `x` into `[lo, hi]`.
pub open spec fn clamp_spec(x: int, lo: int, hi: int) -> int {
    if x < lo {
        lo
    } else if x > hi {
        hi
    } else {
        x
    }
}

/// Division truncating toward zero (the usual machine division), defined for
/// positive divisors from Euclidean division.
pub open spec fn div_trunc(a: int, b: int) -> int {
    if a >= 0 {
        a / b
    } else {
        -((-a) / b)
    }
}

/// Clamp `x` into `[lo, hi]`.
pub fn clamp_i64(x: i64, lo: i64, hi: i64) -> (r: i64)
    requires
        lo <= hi,
    ensures
        r == clamp_spec(x as int, lo as int, hi as int),
{
    if x < lo {
        lo
    } else if x > hi {
        hi
    } else {
        x
    }
}

/// Truncating division of `a` by the positive divisor `b`.
pub fn div_i64(a: i64, b: i64) -> (q: i64)
    requires
        a > i64::MIN,
        b > 0,
    ensures
        q == div_trunc(a as int, b as int),
{
    if a >= 0 {
        let q: u64 = (a as u64) / (b as u64);
        proof {
            vstd::arithmetic::div_mod::lemma_div_nonincreasing(a as int, b as int);
            vstd::arithmetic::div_mod::lemma_div_pos_is_pos(a as int, b as int);
        }
        q as i64
    } else {
        let na: i64 = -a;
        let q: u64 = (na as u64) / (b as u64);
        proof {
            vstd::arithmetic::div_mod::lemma_div_nonincreasing(na as int, b as int);
            vstd::arithmetic::div_mod::lemma_div_pos_is_pos(na as int, b as int);
        }
        -(q as i64)
    }
}

/// The divided value never grows in magnitude: |div_trunc(a, b)| <= |a|.
pub proof fn lemma_div_trunc_bound(a: int, b: int)
    requires
        b > 0,
    ensures
        a >= 0 ==> 0 <= div_trunc(a, b) <= a,
        a < 0 ==> a <= div_trunc(a, b) <= 0,
{
    if a >= 0 {
        vstd::arithmetic::div_mod::lemma_div_nonincreasing(a, b);
        vstd::arithmetic::div_mod::lemma_div_pos_is_pos(a, b);
    } else {
        vstd::arithmetic::div_mod::lemma_div_nonincreasing(-a, b);
        vstd::arithmetic::div_mod::lemma_div_pos_is_pos(-a, b);
    }
}

/// The truncated quotient is within one of the exact quotient:
/// `b * div_trunc(a, b)` differs from `a` by less than `b`.
pub proof fn lemma_div_trunc_exact(a: int, b: int)
    requires
        b > 0,
    ensures
        -b < a - b * div_trunc(a, b) && a - b * div_trunc(a, b) < b,
        a % b == 0 ==> b * div_trunc(a, b) == a,
{
    if a >= 0 {
        vstd::arithmetic::div_mod::lemma_fundamental_div_mod(a, b);
        vstd::arithmetic::div_mod::lemma_mod_division_less_than_divisor(a, b);
    } else {
        let q = (-a) / b;
        let r = (-a) % b;
        vstd::arithmetic::div_mod::lemma_fundamental_div_mod(-a, b);
        vstd::arithmetic::div_mod::lemma_mod_division_less_than_divisor(-a, b);
        assert(a - b * div_trunc(a, b) == -r) by (nonlinear_arith)
            requires
                -a == b * q + r,
                div_trunc(a, b) == -q,
        ;
        if a % b == 0 {
            let p = a / b;
            vstd::arithmetic::div_mod::lemma_fundamental_div_mod(a, b);
            let k = -(p + q);
            assert(r == b * k) by (nonlinear_arith)
                requires
                    a == b * p,
                    -a == b * q + r,
                    k == -(p + q),
            ;
            if k >= 1 {
                assert(b * k >= b) by (nonlinear_arith)
                    requires
                        b > 0,
                        k >= 1,
                ;
            }
            if k <= -1 {
                assert(b * k <= -b) by (nonlinear_arith)
                    requires
                        b > 0,
                        k <= -1,
                ;
            }
            assert(k == 0);
            assert(r == 0) by (nonlinear_arith)
                requires
                    r == b * k,
                    k == 0,
            ;
        }
    }
}

/// Division rounding away from zero for positive results: the least `q` with
/// `q * b >= a` (for `b > 0`), i.e. the ceiling of the exact quotient.
pub open spec fn ceil_div(a: int, b: int) -> int {
    -((-a) / b)
}

/// Ceiling division of `a` by the positive divisor `b`.
pub fn ceil_div_i64(a: i64, b: i64) -> (q: i64)
    requires
        i64::MIN < a < i64::MAX,
        b > 0,
    ensures
        q == ceil_div(a as int, b as int),
{
    if a <= 0 {
        let q = div_i64(a, b);
        proof {
            assert(div_trunc(a as int, b as int) == ceil_div(a as int, b as int));
        }
        q
    } else {
        let qu: u64 = (a as u64) / (b as u64);
        let ru: u64 = (a as u64) % (b as u64);
        proof {
            vstd::arithmetic::div_mod::lemma_fundamental_div_mod(a as int, b as int);
            vstd::arithmetic::div_mod::lemma_mod_division_less_than_divisor(a as int, b as int);
            vstd::arithmetic::div_mod::lemma_div_nonincreasing(a as int, b as int);
            vstd::arithmetic::div_mod::lemma_div_pos_is_pos(a as int, b as int);
            let q0 = a as int / b as int;
            let r0 = a as int % b as int;
            if r0 == 0 {
                assert(-(a as int) == (-q0) * (b as int) + 0) by (nonlinear_arith)
                    requires
                        a as int == b as int * q0 + 0,
                ;
                vstd::arithmetic::div_mod::lemma_fundamental_div_mod_converse(
                    -(a as int), b as int, -q0, 0);
            } else {
                assert(-(a as int) == (-q0 - 1) * (b as int) + (b as int - r0)) by (nonlinear_arith)
                    requires
                        a as int == b as int * q0 + r0,
                ;
                vstd::arithmetic::div_mod::lemma_fundamental_div_mod_converse(
                    -(a as int), b as int, -q0 - 1, b - r0);
            }
        }
        if ru == 0 {
            qu as i64
        } else {
            qu as i64 + 1
        }
    }
}

/// The magnitude of a quotient is capped by any `c` with `|a| <= c * b`.
pub proof fn lemma_div_trunc_cap(a: int, b: int, c: int)
    requires
        b > 0,
        c >= 0,
        -(c * b) <= a <= c * b,
    ensures
        -c <= div_trunc(a, b) <= c,
{
    if a >= 0 {
        vstd::arithmetic::div_mod::lemma_div_pos_is_pos(a, b);
        vstd::arithmetic::div_mod::lemma_div_is_ordered(a, c * b, b);
        vstd::arithmetic::div_mod::lemma_div_multiples_vanish(c, b);
        vstd::arithmetic::mul::lemma_mul_is_commutative(c, b);
    } else {
        vstd::arithmetic::div_mod::lemma_div_pos_is_pos(-a, b);
        vstd::arithmetic::div_mod::lemma_div_is_ordered(-a, c * b, b);
        vstd::arithmetic::div_mod::lemma_div_multiples_vanish(c, b);
        vstd::arithmetic::mul::lemma_mul_is_commutative(c, b);
    }
}

/// The magnitude of a ceiling quotient is capped by any `c` with
/// `|a| <= c * b`.
pub proof fn lemma_ceil_div_cap(a: int, b: int, c: int)
    requires
        b > 0,
        c >= 0,
        -(c * b) <= a <= c * b,
    ensures
        -c <= ceil_div(a, b) <= c,
{
    vstd::arithmetic::div_mod::lemma_div_is_ordered(-(c * b), -a, b);
    vstd::arithmetic::div_mod::lemma_div_is_ordered(-a, c * b, b);
    vstd::arithmetic::div_mod::lemma_div_multiples_vanish(c, b);
    vstd::arithmetic::div_mod::lemma_div_multiples_vanish(-c, b);
    vstd::arithmetic::mul::lemma_mul_is_commutative(c, b);
    assert(b * (-c) == -(c * b)) by (nonlinear_arith);
}

/// A product of magnitude-capped factors is capped by the product of the caps.
pub proof fn lemma_mul_cap(a: int, b: int, ca: int, cb: int)
    requires
        0 <= ca,
        0 <= cb,
        -ca <= a <= ca,
        -cb <= b <= cb,
    ensures
        -(ca * cb) <= a * b <= ca * cb,
{
    assert(-(ca * cb) <= a * b <= ca * cb) by (nonlinear_arith)
        requires
            0 <= ca,
            0 <= cb,
            -ca <= a <= ca,
            -cb <= b <= cb,
    ;
}

/// Largest nonnegative integer whose square is at most `n`.
pub open spec fn isqrt_spec(n: nat) -> nat
    decreases n,
{
    if n == 0 {
        0
    } else {
        let r = isqrt_spec((n - 1) as nat);
        if (r + 1) * (r + 1) <= n {
            r + 1
        } else {
            r
        }
    }
}

pub proof fn lemma_isqrt_spec_bounds(n: nat)
    ensures
        isqrt_spec(n) * isqrt_spec(n) <= n,
        n < (isqrt_spec(n) + 1) * (isqrt_spec(n) + 1),
    decreases n,
{
    if n == 0 {
        assert(isqrt_spec(n) == 0);
        assert((0 + 1) * (0 + 1) == 1) by (nonlinear_arith);
    } else {
        lemma_isqrt_spec_bounds((n - 1) as nat);
        let r = isqrt_spec((n - 1) as nat);
        let s = isqrt_spec(n);
        if (r + 1) * (r + 1) <= n {
            assert(s == r + 1);
            assert(n == (r + 1) * (r + 1));
            assert((s + 1) * (s + 1) > n) by (nonlinear_arith)
                requires
                    s == r + 1,
                    n == (r + 1) * (r + 1),
            ;
        } else {
            assert(s == r);
            assert(s * s <= n);
            assert(n < (s + 1) * (s + 1));
        }
    }
}

/// Any `r` bracketing `n` between consecutive squares is the integer root.
pub proof fn lemma_isqrt_unique(n: nat, r: nat)
    requires
        r * r <= n,
        n < (r + 1) * (r + 1),
    ensures
        r == isqrt_spec(n),
{
    lemma_isqrt_spec_bounds(n);
    let s = isqrt_spec(n);
    if r < s {
        assert(false) by (nonlinear_arith)
            requires
                r < s,
                s * s <= n,
                n < (r + 1) * (r + 1),
        ;
    }
    if s < r {
        assert(false) by (nonlinear_arith)
            requires
                s < r,
                r * r <= n,
                n < (s + 1) * (s + 1),
        ;
    }
}

/// Largest `r` with `r * r <= n`, by binary search.
pub fn isqrt_u64(n: u64) -> (r: u64)
    ensures
        r * r <= n < (r + 1) * (r + 1),
        r == isqrt_spec(n as nat),
{
    let mut lo: u64 = 0;
    let mut hi: u64 = 0x1_0000_0000;
    proof {
        assert((0x1_0000_0000u64 as int) * (0x1_0000_0000u64 as int) > n as int) by (nonlinear_arith)
            requires
                n <= u64::MAX,
        ;
    }
    while hi - lo > 1
        invariant
            lo < hi <= 0x1_0000_0000,
            lo * lo <= n,
            n < hi * hi,
        decreases hi - lo,
    {
        let mid: u64 = lo + (hi - lo) / 2;
        assert(lo < mid < hi);
        assert(mid * mid <= u64::MAX) by (nonlinear_arith)
            requires
                mid < 0x1_0000_0000u64,
        ;
        if mid * mid <= n {
            lo = mid;
        } else {
            hi = mid;
        }
    }
    proof {
        lemma_isqrt_unique(n as nat, lo as nat);
    }
    lo
}

} // verus!
