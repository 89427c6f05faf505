//! The steering decision: from the bearing toward the ideal target to
//! discrete drive commands.
//!
//! Evaluated fresh each tick from the bot's position and facing, the blended
//! ideal target, and one aggression draw from the bot's private stream.  The
//! bearing error is wrapped to a signed half turn; a tiny error is ignored
//! (the deadzone), an error beyond a quarter turn makes reversing cheaper
//! than turning and flips the effective steering direction, and the final
//! magnitude is the normalized error scaled by the aggression.

use vstd::prelude::*;
use crate::angle::DEADZONE;
use crate::angle::HALF_TURN;
use crate::angle::QUARTER_TURN;
use crate::angle::atan2_approx;
use crate::angle::atan2_fp;
use crate::angle::wrap_to_signed_pi;
use crate::angle::wrapped;
use crate::geom::Point;
use crate::geom::in_box;
use crate::num::COORD_LIMIT;
use crate::num::MILLI;
use crate::num::TARGET_LIMIT;
use crate::num::abs_i;
use crate::num::div_q;
use crate::num::div_trunc;
use crate::num::lemma_div_q_exact;
use crate::num::lemma_div_q_le_multiple;
use crate::num::min_i;
use crate::num::sign_i;

verus! {

/// The one decision the controller hands to the vehicle dynamics each tick:
/// thrust direction and a signed steering magnitude in `[-MILLI, MILLI]`.
#[derive(Clone, Copy, Debug, PartialEq, Eq, Structural)]
pub struct SteeringOutcome {
    /// Thrust forward when true, backward when false.
    pub accelerate_forward: bool,
    /// Signed steering magnitude, milli fixed point of the unit interval.
    pub steering: i64,
}

/// The steering sign before any reversing flip: zero inside the deadzone,
/// else the sign of the bearing error.  An exactly aligned bot steers
/// straight.
pub open spec fn steer_sign(delta: int) -> int {
    if abs_i(delta) < DEADZONE {
        0
    } else {
        sign_i(delta)
    }
}

/// Whether the bearing error is more than a quarter turn away, making it
/// cheaper to reverse than to turn around.
pub open spec fn reverse_cheaper(delta: int) -> bool {
    abs_i(delta) > QUARTER_TURN
}

/// The normalized magnitude of the bearing error: a quarter turn or more
/// saturates at one.
pub open spec fn steer_norm(delta: int) -> int {
    min_i(MILLI as int, div_q(abs_i(delta) * MILLI, QUARTER_TURN as int))
}

/// The signed steering value: the sign (flipped when reversing, because
/// reversing inverts the effective turn direction) times the aggression
/// times the normalized error.
pub open spec fn steering_value(delta: int, aggression: int) -> int {
    let s = if reverse_cheaper(delta) {
        -steer_sign(delta)
    } else {
        steer_sign(delta)
    };
    s * div_q(aggression * steer_norm(delta), MILLI as int)
}

/// Drive commands from a wrapped bearing error and an aggression scalar.
pub fn drive_from_delta(delta: i64, aggression: i64) -> (r: SteeringOutcome)
    requires
        -HALF_TURN < delta <= HALF_TURN,
        0 <= aggression <= MILLI,
    ensures
        r.accelerate_forward == !reverse_cheaper(delta as int),
        r.steering == steering_value(delta as int, aggression as int),
        -MILLI <= r.steering <= MILLI,
{
    let mag: i64 = if delta >= 0 {
        delta
    } else {
        -delta
    };
    let sign: i64 = if mag < DEADZONE {
        0
    } else if delta > 0 {
        1
    } else {
        -1
    };
    let forward = mag <= QUARTER_TURN;
    let signed: i64 = if forward {
        sign
    } else {
        -sign
    };
    proof {
        lemma_div_q_le_multiple(mag as int * MILLI, QUARTER_TURN as int, 2 * MILLI as int);
    }
    let norm_raw = div_trunc(mag * MILLI, QUARTER_TURN);
    let norm = if norm_raw > MILLI {
        MILLI
    } else {
        norm_raw
    };
    proof {
        assert(0 <= aggression * norm <= MILLI as int * MILLI as int) by (nonlinear_arith)
            requires
                0 <= aggression <= MILLI,
                0 <= norm <= MILLI,
        ;
        lemma_div_q_le_multiple(aggression * norm, MILLI as int, MILLI as int);
    }
    let scaled = div_trunc(aggression * norm, MILLI);
    SteeringOutcome { accelerate_forward: forward, steering: signed * scaled }
}

/// Deadzone law: a bearing error smaller than a sixty-fourth turn steers
/// straight, whatever the aggression.
pub proof fn lemma_deadzone(delta: int, aggression: int)
    requires
        abs_i(delta) < DEADZONE,
    ensures
        steering_value(delta, aggression) == 0,
{
}

/// Reverse-flip law: a bearing error beyond a quarter turn selects backward
/// thrust, and the steering saturates at the aggression with the sign of the
/// error negated.
pub proof fn lemma_reverse_flip(delta: int, aggression: int)
    requires
        QUARTER_TURN < abs_i(delta) <= HALF_TURN,
        0 <= aggression <= MILLI,
    ensures
        reverse_cheaper(delta),
        steering_value(delta, aggression) == -sign_i(delta) * aggression,
{
    lemma_norm_saturates(delta);
    lemma_div_q_exact(aggression, MILLI as int);
    assert(aggression * (MILLI as int) == (MILLI as int) * aggression);
}

/// Saturation law: at a bearing error of exactly a quarter turn the bot
/// still drives forward and the steering magnitude is exactly the
/// aggression.
pub proof fn lemma_aggression_saturation(delta: int, aggression: int)
    requires
        abs_i(delta) == QUARTER_TURN,
        0 <= aggression <= MILLI,
    ensures
        !reverse_cheaper(delta),
        steering_value(delta, aggression) == sign_i(delta) * aggression,
{
    lemma_norm_saturates(delta);
    lemma_div_q_exact(aggression, MILLI as int);
    assert(aggression * (MILLI as int) == (MILLI as int) * aggression);
}

/// From a quarter turn on, the normalized error is pinned at one.
proof fn lemma_norm_saturates(delta: int)
    requires
        QUARTER_TURN <= abs_i(delta),
    ensures
        steer_norm(delta) == MILLI as int,
{
    let a = abs_i(delta);
    assert(a * MILLI >= QUARTER_TURN as int * MILLI) by (nonlinear_arith)
        requires
            a >= QUARTER_TURN,
    ;
    assert(QUARTER_TURN as int * MILLI == (QUARTER_TURN as int) * (MILLI as int));
    lemma_div_q_exact(MILLI as int, QUARTER_TURN as int);
    vstd::arithmetic::div_mod::lemma_div_is_ordered(
        QUARTER_TURN as int * MILLI,
        a * MILLI,
        QUARTER_TURN as int,
    );
}

/// The wrapped bearing error between the bot's facing and the bearing
/// toward the ideal target.
pub open spec fn delta_rotation(pos: Point, facing: int, ideal: Point) -> int {
    wrapped(atan2_approx(ideal.y - pos.y, ideal.x - pos.x) - facing)
}

/// The full steering decision: bearing toward the ideal target, wrapped
/// error against the facing, then drive commands.
pub fn decide_steering(pos: Point, facing: i64, ideal: Point, aggression: i64) -> (r:
    SteeringOutcome)
    requires
        in_box(pos, COORD_LIMIT as int),
        in_box(ideal, TARGET_LIMIT as int),
        -HALF_TURN <= facing <= HALF_TURN,
        0 <= aggression <= MILLI,
    ensures
        r.accelerate_forward == !reverse_cheaper(delta_rotation(pos, facing as int, ideal)),
        r.steering == steering_value(delta_rotation(pos, facing as int, ideal), aggression as int),
        -MILLI <= r.steering <= MILLI,
{
    let dy = ideal.y - pos.y;
    let dx = ideal.x - pos.x;
    let heading = atan2_fp(dy, dx);
    let delta = wrap_to_signed_pi(heading - facing);
    drive_from_delta(delta, aggression)
}

} // verus!
