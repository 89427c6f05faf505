//! Binary angles, the signed wrap, and the fixed-point trigonometry the
//! controller uses.
//!
//! Angles are `i64` values in binary angle units: [`HALF_TURN`] units stand
//! for half a turn (the mathematical pi), so a full circle is [`FULL_TURN`]
//! units.  The scale is divisible by 64 and by 6, so every angular constant
//! the controller needs (the deadzone of a sixty-fourth turn, the quarter-turn
//! reversing threshold, the zone boundaries at one sixth and five sixths of a
//! half turn) is exact.

use vstd::prelude::*;

verus! {

/// Half a turn (pi) in angle units.
pub const HALF_TURN: i64 = 12288;

/// A full turn (two pi) in angle units.
pub const FULL_TURN: i64 = 24576;

/// A quarter turn (pi over two): the reversing threshold of the steering
/// decision.
pub const QUARTER_TURN: i64 = 6144;

/// The marginal-rotation deadzone, pi over 64.
pub const DEADZONE: i64 = 192;

/// Zone boundary at pi over six: the track quadrant nearest the positive
/// x-axis ends here.
pub const ZONE_NEAR: i64 = 2048;

/// Zone boundary at five pi over six: the track quadrant around the negative
/// x-axis begins here.
pub const ZONE_FAR: i64 = 10240;

/// Unit amplitude of the fixed-point sine and cosine.
pub const TRIG_ONE: i64 = 4096;

/// The representative of `a` in the half-open interval `(-HALF_TURN,
/// HALF_TURN]`, congruent to `a` modulo a full turn.
pub open spec fn wrapped(a: int) -> int {
    let m = (a + HALF_TURN) % (FULL_TURN as int);
    if m == 0 {
        HALF_TURN as int
    } else {
        m - HALF_TURN
    }
}

/// The wrap always lands in the half-open target interval.
pub proof fn lemma_wrapped_range(a: int)
    ensures
        -HALF_TURN < wrapped(a) <= HALF_TURN,
{
    vstd::arithmetic::div_mod::lemma_mod_division_less_than_divisor(
        a + HALF_TURN,
        FULL_TURN as int,
    );
}

/// An angle already in the target interval wraps to itself.
pub proof fn lemma_wrapped_identity(a: int)
    requires
        -HALF_TURN < a <= HALF_TURN,
    ensures
        wrapped(a) == a,
{
    if a == HALF_TURN {
        vstd::arithmetic::div_mod::lemma_mod_self_0(FULL_TURN as int);
    } else {
        vstd::arithmetic::div_mod::lemma_small_mod((a + HALF_TURN) as nat, FULL_TURN as nat);
    }
}

/// Wrapping is periodic: a full turn more or less does not change it.
pub proof fn lemma_wrapped_period(a: int)
    ensures
        wrapped(a + FULL_TURN) == wrapped(a),
        wrapped(a - FULL_TURN) == wrapped(a),
{
    vstd::arithmetic::div_mod::lemma_mod_add_multiples_vanish(a + HALF_TURN, FULL_TURN as int);
    vstd::arithmetic::div_mod::lemma_mod_sub_multiples_vanish(a + HALF_TURN, FULL_TURN as int);
}

/// The wrap changes an angle by a whole number of turns: `a - wrapped(a)` is
/// a multiple of `FULL_TURN`.
pub proof fn lemma_wrapped_congruent(a: int)
    ensures
        (a - wrapped(a)) % (FULL_TURN as int) == 0,
{
    let d = FULL_TURN as int;
    vstd::arithmetic::div_mod::lemma_fundamental_div_mod(a + HALF_TURN, d);
    let q = (a + HALF_TURN) / d;
    let m = (a + HALF_TURN) % d;
    if m == 0 {
        assert(a - wrapped(a) == (q - 1) * d) by (nonlinear_arith)
            requires
                a + HALF_TURN == q * d + m,
                m == 0,
                wrapped(a) == HALF_TURN as int,
                d == FULL_TURN as int,
                HALF_TURN + HALF_TURN == FULL_TURN,
        ;
        vstd::arithmetic::div_mod::lemma_mod_multiples_basic(q - 1, d);
    } else {
        assert(a - wrapped(a) == q * d) by (nonlinear_arith)
            requires
                a + HALF_TURN == q * d + m,
                wrapped(a) == m - HALF_TURN,
        ;
        vstd::arithmetic::div_mod::lemma_mod_multiples_basic(q, d);
    }
}

/// Maps an angle into the signed half-open interval `(-HALF_TURN,
/// HALF_TURN]`.
///
/// The wrap is only defined for inputs of at most two full turns in
/// magnitude; larger inputs are ruled out by the precondition rather than
/// handled silently.
pub fn wrap_to_signed_pi(a: i64) -> (r: i64)
    requires
        -2 * FULL_TURN <= a <= 2 * FULL_TURN,
    ensures
        r == wrapped(a as int),
        -HALF_TURN < r <= HALF_TURN,
{
    let mut r = a;
    if r > HALF_TURN {
        proof {
            lemma_wrapped_period(r - FULL_TURN);
        }
        r = r - FULL_TURN;
    }
    if r > HALF_TURN {
        proof {
            lemma_wrapped_period(r - FULL_TURN);
        }
        r = r - FULL_TURN;
    }
    if r <= -HALF_TURN {
        proof {
            lemma_wrapped_period(r as int);
        }
        r = r + FULL_TURN;
    }
    if r <= -HALF_TURN {
        proof {
            lemma_wrapped_period(r as int);
        }
        r = r + FULL_TURN;
    }
    proof {
        lemma_wrapped_identity(r as int);
    }
    r
}

/// Fixed-point sine of a wrapped angle, scaled by [`TRIG_ONE`]: a parabolic
/// approximation, exact at `0`, at the quarter turn and at the half turn.
pub open spec fn sin_approx(a: int) -> int
    recommends
        -HALF_TURN <= a <= HALF_TURN,
{
    if a >= 0 {
        (a * (HALF_TURN - a)) / 9216
    } else {
        -(((-a) * (HALF_TURN + a)) / 9216)
    }
}

/// Fixed-point cosine: the sine shifted by a quarter turn.
pub open spec fn cos_approx(a: int) -> int
    recommends
        -HALF_TURN <= a <= HALF_TURN,
{
    sin_approx(wrapped(a + QUARTER_TURN))
}

proof fn lemma_sin_quadrant_bounds(a: int)
    requires
        0 <= a <= HALF_TURN,
    ensures
        0 <= a * (HALF_TURN - a) <= 37748736,
        0 <= (a * (HALF_TURN - a)) / 9216 <= TRIG_ONE,
{
    assert(0 <= a * (HALF_TURN - a) <= 37748736) by (nonlinear_arith)
        requires
            0 <= a <= HALF_TURN,
            HALF_TURN == 12288,
    ;
    vstd::arithmetic::div_mod::lemma_div_pos_is_pos(a * (HALF_TURN - a), 9216);
    vstd::arithmetic::div_mod::lemma_div_is_ordered(a * (HALF_TURN - a), 37748736, 9216);
}

/// The sine approximation stays within its unit amplitude.
pub proof fn lemma_sin_approx_bounds(a: int)
    requires
        -HALF_TURN <= a <= HALF_TURN,
    ensures
        -TRIG_ONE <= sin_approx(a) <= TRIG_ONE,
        a >= 0 ==> sin_approx(a) >= 0,
        a <= 0 ==> sin_approx(a) <= 0,
{
    if a >= 0 {
        lemma_sin_quadrant_bounds(a);
    } else {
        lemma_sin_quadrant_bounds(-a);
    }
}

/// Fixed-point sine, scaled by [`TRIG_ONE`].
pub fn sin_fp(a: i64) -> (r: i64)
    requires
        -HALF_TURN <= a <= HALF_TURN,
    ensures
        r == sin_approx(a as int),
        -TRIG_ONE <= r <= TRIG_ONE,
{
    proof {
        lemma_sin_approx_bounds(a as int);
    }
    if a >= 0 {
        proof {
            lemma_sin_quadrant_bounds(a as int);
        }
        let p: u64 = (a as u64) * ((HALF_TURN - a) as u64);
        (p / 9216) as i64
    } else {
        proof {
            lemma_sin_quadrant_bounds(-a as int);
        }
        let n: i64 = -a;
        let p: u64 = (n as u64) * ((HALF_TURN + a) as u64);
        -((p / 9216) as i64)
    }
}

/// Fixed-point cosine, scaled by [`TRIG_ONE`].
pub fn cos_fp(a: i64) -> (r: i64)
    requires
        -HALF_TURN <= a <= HALF_TURN,
    ensures
        r == cos_approx(a as int),
        -TRIG_ONE <= r <= TRIG_ONE,
{
    let w = wrap_to_signed_pi(a + QUARTER_TURN);
    sin_fp(w)
}

/// Arctangent over one octant: for `q` in `[0, 1024]` standing for a slope in
/// `[0, 1]`, the angle in units, between `0` and an eighth turn.  A linear
/// term with a small quadratic correction, exact at both ends.
pub open spec fn atan_octant(q: int) -> int
    recommends
        0 <= q <= 1024,
{
    3 * q + (1068 * q * (1024 - q)) / 1048576
}

/// The octant arctangent stays between zero and an eighth turn.
pub proof fn lemma_atan_octant_bounds(q: int)
    requires
        0 <= q <= 1024,
    ensures
        0 <= atan_octant(q) <= 3072,
{
    let p = 1068 * q * (1024 - q);
    assert(0 <= 1068 * q * (1024 - q) && 1068 * q * (1024 - q) <= 3145728 * (1024 - q))
        by (nonlinear_arith)
        requires
            0 <= q <= 1024,
    ;
    assert(3145728 * (1024 - q) == 1048576 * (3 * (1024 - q)));
    vstd::arithmetic::div_mod::lemma_div_pos_is_pos(p, 1048576);
    vstd::arithmetic::div_mod::lemma_div_is_ordered(p, 1048576 * (3 * (1024 - q)), 1048576);
    vstd::arithmetic::div_mod::lemma_div_multiples_vanish(3 * (1024 - q), 1048576);
}

fn atan_octant_fp(q: u64) -> (r: i64)
    requires
        q <= 1024,
    ensures
        r == atan_octant(q as int),
        0 <= r <= 3072,
{
    proof {
        lemma_atan_octant_bounds(q as int);
        assert(1068 * q * (1024 - q) <= 1048576 * 3072) by (nonlinear_arith)
            requires
                q <= 1024,
        ;
    }
    let p: u64 = 1068 * q * (1024 - q);
    (3 * q + p / 1048576) as i64
}

/// The bearing of the vector `(x, y)` from the positive x-axis, in angle
/// units within `[-HALF_TURN, HALF_TURN]`; zero for the zero vector.
pub open spec fn atan2_approx(y: int, x: int) -> int {
    let ax = crate::num::abs_i(x);
    let ay = crate::num::abs_i(y);
    if ax == 0 && ay == 0 {
        0
    } else {
        let base = if ay <= ax {
            atan_octant((ay * 1024) / ax)
        } else {
            QUARTER_TURN - atan_octant((ax * 1024) / ay)
        };
        if x >= 0 && y >= 0 {
            base
        } else if x < 0 && y >= 0 {
            HALF_TURN - base
        } else if x < 0 {
            -(HALF_TURN - base)
        } else {
            -base
        }
    }
}

proof fn lemma_octant_quotient_range(ay: int, ax: int)
    requires
        0 <= ay <= ax,
        0 < ax,
    ensures
        0 <= (ay * 1024) / ax <= 1024,
{
    assert(0 <= ay * 1024 <= ax * 1024) by (nonlinear_arith)
        requires
            0 <= ay <= ax,
    ;
    vstd::arithmetic::div_mod::lemma_div_pos_is_pos(ay * 1024, ax);
    vstd::arithmetic::div_mod::lemma_div_is_ordered(ay * 1024, ax * 1024, ax);
    vstd::arithmetic::div_mod::lemma_div_multiples_vanish(1024, ax);
}

/// The base angle of the dominant octant pair lies within a quarter turn.
proof fn lemma_atan2_base_range(ay: int, ax: int)
    requires
        0 <= ay,
        0 <= ax,
        ay > 0 || ax > 0,
    ensures
        ay <= ax ==> 0 <= atan_octant((ay * 1024) / ax) <= 3072,
        ay > ax ==> 3072 <= QUARTER_TURN - atan_octant((ax * 1024) / ay) <= QUARTER_TURN,
{
    if ay <= ax {
        lemma_octant_quotient_range(ay, ax);
        lemma_atan_octant_bounds((ay * 1024) / ax);
    } else {
        lemma_octant_quotient_range(ax, ay);
        lemma_atan_octant_bounds((ax * 1024) / ay);
    }
}

/// The bearing approximation lies within half a turn either way, is zero
/// along the positive x-axis, and takes the sign of `y` off the axis.
pub proof fn lemma_atan2_approx_range(y: int, x: int)
    ensures
        -HALF_TURN <= atan2_approx(y, x) <= HALF_TURN,
        y == 0 && x >= 0 ==> atan2_approx(y, x) == 0,
        y == 0 && x < 0 ==> atan2_approx(y, x) == HALF_TURN,
        y > 0 ==> atan2_approx(y, x) >= 0,
        y < 0 ==> atan2_approx(y, x) <= 0,
{
    let ax = crate::num::abs_i(x);
    let ay = crate::num::abs_i(y);
    if ax == 0 && ay == 0 {
    } else {
        lemma_atan2_base_range(ay, ax);
        if ay == 0 {
            assert((0int * 1024) / ax == 0) by {
                vstd::arithmetic::div_mod::lemma_div_of0(ax);
            }
        }
    }
}

/// Fixed-point bearing of the vector `(x, y)`, in angle units.
pub fn atan2_fp(y: i64, x: i64) -> (r: i64)
    requires
        -200_000_000_000 <= y <= 200_000_000_000,
        -200_000_000_000 <= x <= 200_000_000_000,
    ensures
        r == atan2_approx(y as int, x as int),
        -HALF_TURN <= r <= HALF_TURN,
{
    proof {
        lemma_atan2_approx_range(y as int, x as int);
    }
    let ax: u64 = if x >= 0 {
        x as u64
    } else {
        (-x) as u64
    };
    let ay: u64 = if y >= 0 {
        y as u64
    } else {
        (-y) as u64
    };
    if ax == 0 && ay == 0 {
        return 0;
    }
    let base: i64 = if ay <= ax {
        proof {
            lemma_octant_quotient_range(ay as int, ax as int);
        }
        atan_octant_fp((ay * 1024) / ax)
    } else {
        proof {
            lemma_octant_quotient_range(ax as int, ay as int);
        }
        QUARTER_TURN - atan_octant_fp((ax * 1024) / ay)
    };
    if x >= 0 && y >= 0 {
        base
    } else if x < 0 && y >= 0 {
        HALF_TURN - base
    } else if x < 0 {
        -(HALF_TURN - base)
    } else {
        -base
    }
}

} // verus!
