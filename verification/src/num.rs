//! Fixed-point scalar conventions and the small arithmetic helpers the
//! controller is built on.
//!
//! Every world-space scalar (coordinate, speed, time-to-impact, goal weight,
//! steering magnitude, aggression) is an `i64` carrying three fractional
//! decimal digits: a stored value of [`MILLI`] stands for `1.0`.

use vstd::prelude::*;

verus! {

/// The fixed-point unit: stored values are thousandths, so `MILLI` is `1.0`.
pub const MILLI: i64 = 1000;

/// Magnitude bound on bot positions, velocities and probe targets handed to
/// the controller: one million world units, far beyond any track.
pub const COORD_LIMIT: i64 = 1_000_000_000;

/// Magnitude bound on blended target points.  Goal targets stay within a
/// lookahead distance of the bot except for the skirting avoidance offset,
/// which scales a bot-to-obstacle vector by a small factor; `TARGET_LIMIT`
/// leaves room for all of them.
pub const TARGET_LIMIT: i64 = 100_000_000_000;

/// Quotient of `a / b` rounded toward zero, as executable division does it.
pub open spec fn div_q(a: int, b: int) -> int
    recommends
        b > 0,
{
    if a >= 0 {
        a / b
    } else {
        -((-a) / b)
    }
}

/// The smaller of two spec integers.
pub open spec fn min_i(a: int, b: int) -> int {
    if a < b {
        a
    } else {
        b
    }
}

/// The sign of a spec integer: `-1`, `0` or `1`.
pub open spec fn sign_i(a: int) -> int {
    if a > 0 {
        1
    } else if a < 0 {
        -1
    } else {
        0
    }
}

/// The absolute value of a spec integer.
pub open spec fn abs_i(a: int) -> int {
    if a >= 0 {
        a
    } else {
        -a
    }
}

proof fn lemma_div_bounds_nonneg(a: int, b: int)
    requires
        a >= 0,
        b > 0,
    ensures
        0 <= a / b <= a,
{
    vstd::arithmetic::div_mod::lemma_div_nonincreasing(a, b);
    vstd::arithmetic::div_mod::lemma_div_pos_is_pos(a, b);
}

/// Division toward zero never grows the magnitude of the dividend.
pub proof fn lemma_div_q_bounds(a: int, b: int)
    requires
        b > 0,
    ensures
        abs_i(div_q(a, b)) <= abs_i(a),
        a >= 0 ==> 0 <= div_q(a, b) <= a,
        a <= 0 ==> a <= div_q(a, b) <= 0,
{
    if a >= 0 {
        lemma_div_bounds_nonneg(a, b);
    } else {
        lemma_div_bounds_nonneg(-a, b);
    }
}

/// A quotient toward zero is bounded by any bound on the dividend:
/// if `|a| <= b * c` then `|a / b| <= c`.
pub proof fn lemma_div_q_le_multiple(a: int, b: int, c: int)
    requires
        b > 0,
        c >= 0,
        abs_i(a) <= b * c,
    ensures
        abs_i(div_q(a, b)) <= c,
{
    if a >= 0 {
        vstd::arithmetic::div_mod::lemma_div_is_ordered(a, b * c, b);
        vstd::arithmetic::div_mod::lemma_div_multiples_vanish(c, b);
        lemma_div_bounds_nonneg(a, b);
    } else {
        vstd::arithmetic::div_mod::lemma_div_is_ordered(-a, b * c, b);
        vstd::arithmetic::div_mod::lemma_div_multiples_vanish(c, b);
        lemma_div_bounds_nonneg(-a, b);
    }
}

/// A quotient toward zero stays between any integer bounds on the exact
/// quotient: if `b * lo <= a <= b * hi` then `lo <= a / b <= hi`.
pub proof fn lemma_div_q_between(a: int, b: int, lo: int, hi: int)
    requires
        b > 0,
        b * lo <= a,
        a <= b * hi,
    ensures
        lo <= div_q(a, b) <= hi,
{
    if a >= 0 {
        lemma_div_bounds_nonneg(a, b);
        assert(b * hi >= 0);
        assert(hi >= 0) by (nonlinear_arith)
            requires
                b > 0,
                b * hi >= 0,
        ;
        vstd::arithmetic::div_mod::lemma_div_is_ordered(a, b * hi, b);
        vstd::arithmetic::div_mod::lemma_div_multiples_vanish(hi, b);
        if lo > 0 {
            vstd::arithmetic::div_mod::lemma_div_is_ordered(b * lo, a, b);
            vstd::arithmetic::div_mod::lemma_div_multiples_vanish(lo, b);
        }
    } else {
        assert(b * lo < 0);
        assert(lo < 0) by (nonlinear_arith)
            requires
                b > 0,
                b * lo < 0,
        ;
        assert(-a <= -(b * lo) && -(b * lo) == b * (-lo)) by (nonlinear_arith)
            requires
                b * lo <= a,
        ;
        vstd::arithmetic::div_mod::lemma_div_is_ordered(-a, b * (-lo), b);
        vstd::arithmetic::div_mod::lemma_div_multiples_vanish(-lo, b);
        lemma_div_bounds_nonneg(-a, b);
        if hi < 0 {
            assert(b * (-hi) <= -a && -(b * hi) == b * (-hi)) by (nonlinear_arith)
                requires
                    a <= b * hi,
            ;
            vstd::arithmetic::div_mod::lemma_div_is_ordered(b * (-hi), -a, b);
            vstd::arithmetic::div_mod::lemma_div_multiples_vanish(-hi, b);
        }
    }
}

/// A multiple of the divisor divides back exactly: `(b * a) / b == a`.
pub proof fn lemma_div_q_exact(a: int, b: int)
    requires
        b > 0,
    ensures
        div_q(b * a, b) == a,
{
    if a >= 0 {
        vstd::arithmetic::div_mod::lemma_div_multiples_vanish(a, b);
    } else {
        assert(-(b * a) == b * (-a)) by (nonlinear_arith);
        vstd::arithmetic::div_mod::lemma_div_multiples_vanish(-a, b);
    }
}

/// Executable division rounded toward zero, for a positive divisor.
pub fn div_trunc(a: i64, b: i64) -> (q: i64)
    requires
        b > 0,
        a > i64::MIN,
    ensures
        q == div_q(a as int, b as int),
        abs_i(q as int) <= abs_i(a as int),
{
    proof {
        lemma_div_q_bounds(a as int, b as int);
    }
    if a >= 0 {
        ((a as u64) / (b as u64)) as i64
    } else {
        let m: u64 = (-a) as u64;
        -((m / (b as u64)) as i64)
    }
}

/// Executable division toward zero on wide integers, for a positive divisor.
pub fn div_trunc_wide(a: i128, b: i128) -> (q: i128)
    requires
        b > 0,
        a > i128::MIN,
    ensures
        q == div_q(a as int, b as int),
        abs_i(q as int) <= abs_i(a as int),
{
    proof {
        lemma_div_q_bounds(a as int, b as int);
    }
    if a >= 0 {
        ((a as u128) / (b as u128)) as i128
    } else {
        let m: u128 = (-a) as u128;
        -((m / (b as u128)) as i128)
    }
}

/// The square root of `n` rounded down: the unique nonnegative `r` with
/// `r * r <= n < (r + 1) * (r + 1)`.
pub open spec fn sqrt_floor(n: int) -> int {
    choose|r: int| 0 <= r && #[trigger] (r * r) <= n && n < (r + 1) * (r + 1)
}

proof fn lemma_sqrt_exists(n: int)
    requires
        n >= 0,
    ensures
        exists|r: int| 0 <= r && #[trigger] (r * r) <= n && n < (r + 1) * (r + 1),
    decreases n,
{
    if n == 0 {
        assert(0 <= 0 && (0int * 0int) <= n && n < (0int + 1) * (0int + 1));
    } else {
        lemma_sqrt_exists(n - 1);
        let p = choose|r: int| 0 <= r && #[trigger] (r * r) <= n - 1 && n - 1 < (r + 1) * (r + 1);
        if n < (p + 1) * (p + 1) {
            assert(0 <= p && (p * p) <= n && n < (p + 1) * (p + 1));
        } else {
            assert(n == (p + 1) * (p + 1));
            assert(((p + 1) + 1) * ((p + 1) + 1) > n) by (nonlinear_arith)
                requires
                    n == (p + 1) * (p + 1),
                    p >= 0,
            ;
            assert(0 <= p + 1 && ((p + 1) * (p + 1)) <= n && n < ((p + 1) + 1) * ((p + 1) + 1));
        }
    }
}

/// What the rounded-down square root satisfies.
pub proof fn lemma_sqrt_floor_props(n: int)
    requires
        n >= 0,
    ensures
        0 <= sqrt_floor(n),
        sqrt_floor(n) * sqrt_floor(n) <= n,
        n < (sqrt_floor(n) + 1) * (sqrt_floor(n) + 1),
{
    lemma_sqrt_exists(n);
}

/// Any nonnegative `r` squaring below `n` and above it at `r + 1` is the
/// rounded-down square root.
pub proof fn lemma_sqrt_floor_unique(n: int, r: int)
    requires
        0 <= r,
        r * r <= n,
        n < (r + 1) * (r + 1),
    ensures
        r == sqrt_floor(n),
{
    assert(n >= 0) by (nonlinear_arith)
        requires
            0 <= r,
            r * r <= n,
    ;
    lemma_sqrt_floor_props(n);
    let s = sqrt_floor(n);
    if r < s {
        assert((r + 1) * (r + 1) <= s * s) by (nonlinear_arith)
            requires
                0 <= r + 1 <= s,
        ;
    } else if s < r {
        assert((s + 1) * (s + 1) <= r * r) by (nonlinear_arith)
            requires
                0 <= s + 1 <= r,
        ;
    }
}

/// Integer square root: the greatest `r` with `r * r <= n`.
pub fn isqrt(n: u64) -> (r: u64)
    requires
        n < 0x4000_0000_0000_0000,
    ensures
        r * r <= n < (r + 1) * (r + 1),
        r < 0x8000_0000,
        r == sqrt_floor(n as int),
{
    let mut lo: u64 = 0;
    let mut hi: u64 = 0x8000_0000;
    assert(hi * hi > n);
    while lo + 1 < hi
        invariant
            lo < hi <= 0x8000_0000,
            lo * lo <= n,
            hi * hi > n,
        decreases hi - lo,
    {
        let mid: u64 = lo + (hi - lo) / 2;
        assert(lo < mid < hi);
        assert(mid * mid < 0x4000_0000_0000_0000) by (nonlinear_arith)
            requires
                mid < 0x8000_0000,
        ;
        if mid * mid <= n {
            lo = mid;
        } else {
            hi = mid;
        }
    }
    proof {
        lemma_sqrt_floor_unique(n as int, lo as int);
    }
    lo
}

} // verus!
