//! Fixed-point arithmetic helpers shared by the motion pipeline: an integer
//! square root and a truncating signed division, each with an exact
//! mathematical specification.

use vstd::prelude::*;

verus! {

/// `r` is the floor of the real square root of `n`.
pub open spec fn is_sqrt(n: int, r: int) -> bool {
    0 <= r && r * r <= n < (r + 1) * (r + 1)
}

/// Floor of the real square root, defined by recursion so that it exists for
/// every argument (negative arguments are mapped to zero).
pub open spec fn sqrt_floor(n: int) -> int
    decreases n,
{
    if n < 1 {
        0
    } else {
        let r = sqrt_floor(n - 1);
        if (r + 1) * (r + 1) <= n {
            r + 1
        } else {
            r
        }
    }
}

pub proof fn lemma_sqrt_floor_is_sqrt(n: int)
    requires
        n >= 0,
    ensures
        is_sqrt(n, sqrt_floor(n)),
    decreases n,
{
    if n < 1 {
        assert(sqrt_floor(n) == 0);
    } else {
        lemma_sqrt_floor_is_sqrt(n - 1);
        let r = sqrt_floor(n - 1);
        if (r + 1) * (r + 1) <= n {
            assert(n - 1 < (r + 1) * (r + 1));
            assert(n == (r + 1) * (r + 1));
            assert((r + 1 + 1) * (r + 1 + 1) > n) by (nonlinear_arith)
                requires
                    r >= 0,
                    n == (r + 1) * (r + 1),
            ;
        }
    }
}

pub proof fn lemma_sqrt_unique(n: int, a: int, b: int)
    requires
        is_sqrt(n, a),
        is_sqrt(n, b),
    ensures
        a == b,
{
    if a < b {
        assert((a + 1) * (a + 1) <= b * b) by (nonlinear_arith)
            requires
                0 <= a,
                a + 1 <= b,
        ;
    }
    if b < a {
        assert((b + 1) * (b + 1) <= a * a) by (nonlinear_arith)
            requires
                0 <= b,
                b + 1 <= a,
        ;
    }
}

/// Integer square root: the largest `r` with `r * r <= n`.
pub fn isqrt(n: u64) -> (r: u64)
    ensures
        r == sqrt_floor(n as int),
        is_sqrt(n as int, r as int),
{
    proof {
        lemma_sqrt_floor_is_sqrt(n as int);
    }
    if n == 0 {
        proof {
            lemma_sqrt_unique(n as int, sqrt_floor(n as int), 0);
        }
        return 0;
    }
    let mut lo: u64 = 0;
    let mut hi: u64 = 4294967296;
    if n < 4294967296 {
        hi = n;
        if hi < 2 {
            hi = 2;
        }
    }
    proof {
        assert((hi as int) * (hi as int) > n as int) by (nonlinear_arith)
            requires
                hi as int >= 2,
                hi as int >= 4294967296 || n as int <= hi as int,
                n < 0x1_0000_0000_0000_0000,
        ;
    }
    while hi - lo > 1
        invariant
            lo < hi <= 4294967296,
            (lo as int) * (lo as int) <= n as int,
            (hi as int) * (hi as int) > n as int,
        decreases hi - lo,
    {
        let mid: u64 = lo + (hi - lo) / 2;
        assert(lo < mid < hi);
        assert(mid * mid <= 0xffff_fffe_0000_0001) by (nonlinear_arith)
            requires
                mid <= 0xffff_ffff,
        ;
        if mid * mid <= n {
            lo = mid;
        } else {
            hi = mid;
        }
    }
    proof {
        assert(is_sqrt(n as int, lo as int));
        lemma_sqrt_unique(n as int, sqrt_floor(n as int), lo as int);
    }
    lo
}

/// Division that truncates toward zero (the behaviour of `/` on machine
/// integers), stated for a positive divisor.
pub open spec fn div_trunc(a: int, b: int) -> int {
    if a >= 0 {
        a / b
    } else {
        -((-a) / b)
    }
}

/// Truncating division shrinks magnitudes: `|a / b| <= |a|` for `b > 0`.
pub proof fn lemma_div_trunc_bound(a: int, b: int, m: int)
    requires
        b > 0,
        -m <= a <= m,
        0 <= m,
    ensures
        -m <= div_trunc(a, b) <= m,
        a >= 0 ==> 0 <= div_trunc(a, b) <= a,
        a <= 0 ==> a <= div_trunc(a, b) <= 0,
{
    if a >= 0 {
        assert(0 <= a / b <= a) by (nonlinear_arith)
            requires
                b > 0,
                a >= 0,
        ;
    } else {
        assert(0 <= (-a) / b <= -a) by (nonlinear_arith)
            requires
                b > 0,
                -a > 0,
        ;
    }
}

/// A magnitude bound that scales down with the divisor:
/// `|a| <= b * m` implies `|a / b| <= m`.
pub proof fn lemma_div_trunc_scaled(a: int, b: int, m: int)
    requires
        b > 0,
        m >= 0,
        -(b * m) <= a <= b * m,
    ensures
        -m <= div_trunc(a, b) <= m,
{
    assert(b * m == m * b) by (nonlinear_arith);
    vstd::arithmetic::div_mod::lemma_fundamental_div_mod_converse(b * m, b, m, 0);
    assert((b * m) / b == m);
    if a >= 0 {
        vstd::arithmetic::div_mod::lemma_div_is_ordered(a, b * m, b);
        lemma_div_trunc_bound(a, b, b * m);
    } else {
        vstd::arithmetic::div_mod::lemma_div_is_ordered(-a, b * m, b);
        lemma_div_trunc_bound(a, b, b * m);
    }
}

/// Truncating division stays between integer bounds on the quotient:
/// `b * lo <= a <= b * hi` implies `lo <= a / b <= hi`.
pub proof fn lemma_div_trunc_between(a: int, b: int, lo: int, hi: int)
    requires
        b > 0,
        b * lo <= a <= b * hi,
    ensures
        lo <= div_trunc(a, b) <= hi,
{
    assert(b * lo == lo * b && b * hi == hi * b && b * (-lo) == (-lo) * b && b * (-hi) == (-hi)
        * b && b * (-lo) == -(b * lo) && b * (-hi) == -(b * hi)) by (nonlinear_arith);
    vstd::arithmetic::div_mod::lemma_fundamental_div_mod_converse(b * lo, b, lo, 0);
    vstd::arithmetic::div_mod::lemma_fundamental_div_mod_converse(b * hi, b, hi, 0);
    if a >= 0 {
        vstd::arithmetic::div_mod::lemma_div_is_ordered(a, b * hi, b);
        if lo >= 0 {
            vstd::arithmetic::div_mod::lemma_div_is_ordered(b * lo, a, b);
        } else {
            lemma_div_trunc_bound(a, b, a);
        }
    } else {
        vstd::arithmetic::div_mod::lemma_fundamental_div_mod_converse(b * (-lo), b, -lo, 0);
        vstd::arithmetic::div_mod::lemma_div_is_ordered(-a, b * (-lo), b);
        if hi <= 0 {
            vstd::arithmetic::div_mod::lemma_fundamental_div_mod_converse(b * (-hi), b, -hi, 0);
            vstd::arithmetic::div_mod::lemma_div_is_ordered(b * (-hi), -a, b);
        } else {
            lemma_div_trunc_bound(a, b, -a);
        }
    }
}

/// Truncating division loses less than one divisor's worth:
/// `|b * (a / b) - a| < b`.
pub proof fn lemma_div_trunc_close(a: int, b: int)
    requires
        b > 0,
    ensures
        abs_int(b * div_trunc(a, b) - a) < b,
{
    if a >= 0 {
        vstd::arithmetic::div_mod::lemma_fundamental_div_mod(a, b);
        vstd::arithmetic::div_mod::lemma_mod_bound(a, b);
    } else {
        vstd::arithmetic::div_mod::lemma_fundamental_div_mod(-a, b);
        vstd::arithmetic::div_mod::lemma_mod_bound(-a, b);
        assert(b * (-((-a) / b)) == -(b * ((-a) / b))) by (nonlinear_arith);
    }
}

/// The larger of two integers.
pub open spec fn max_int(a: int, b: int) -> int {
    if a >= b {
        a
    } else {
        b
    }
}

/// Truncating division of an `i64` by a positive divisor.
pub fn div_trunc_i64(a: i64, b: i64) -> (r: i64)
    requires
        b > 0,
        a > i64::MIN,
    ensures
        r == div_trunc(a as int, b as int),
{
    if a >= 0 {
        proof {
            lemma_div_trunc_bound(a as int, b as int, a as int);
        }
        a / b
    } else {
        proof {
            lemma_div_trunc_bound(a as int, b as int, -(a as int));
        }
        -((-a) / b)
    }
}

/// Absolute value of an `i64` that is above the minimum.
pub fn abs_i64(a: i64) -> (r: i64)
    requires
        a > i64::MIN,
    ensures
        r == abs_int(a as int),
{
    if a >= 0 {
        a
    } else {
        -a
    }
}

pub open spec fn abs_int(a: int) -> int {
    if a >= 0 {
        a
    } else {
        -a
    }
}

} // verus!
