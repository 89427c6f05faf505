//! Influence arbitration: blending weighted desires into one ideal target.
//!
//! Every goal becomes an [`Influence`], a target point with a positive
//! strength, and the arbiter folds the influences in arrival order into
//! exact running sums, returning the weighted centroid: the sum of
//! strength-scaled targets divided by the total strength.  Because the sums
//! are exact integers, the streaming fold computes identically to the
//! closed-form weighted mean.

use vstd::prelude::*;
use crate::geom::Point;
use crate::geom::in_box;
use crate::num::TARGET_LIMIT;
use crate::num::abs_i;
use crate::num::div_q;
use crate::num::div_trunc_wide;
use crate::num::lemma_div_q_le_multiple;
use crate::num::lemma_div_q_exact;

verus! {

/// Bound on one influence's strength: a weight of one thousand in milli
/// fixed point, far above any weight the goal generator assigns.
pub const WEIGHT_LIMIT: i64 = 1_000_000;

/// Bound on how many influences one arbitration may blend.
pub const MAX_INFLUENCES: usize = 64;

/// A goal made concrete: a target point and a positive strength, produced
/// and consumed within a single tick.
#[derive(Clone, Copy, Debug, PartialEq, Eq, Structural)]
pub struct Influence {
    pub target: Point,
    pub strength: i64,
}

impl Influence {
    /// A well-formed influence: positive bounded strength, bounded target.
    pub open spec fn wf(self) -> bool {
        0 < self.strength <= WEIGHT_LIMIT && in_box(self.target, TARGET_LIMIT as int)
    }

    /// Packs a target and a strength.
    pub fn new(target: Point, strength: i64) -> (r: Influence)
        ensures
            r == (Influence { target, strength }),
    {
        Influence { target, strength }
    }
}

/// The total strength of a list of influences.
pub open spec fn total_weight(s: Seq<Influence>) -> int
    decreases s.len(),
{
    if s.len() == 0 {
        0
    } else {
        total_weight(s.drop_last()) + s.last().strength
    }
}

/// The strength-weighted sum of the targets' x coordinates.
pub open spec fn weighted_sum_x(s: Seq<Influence>) -> int
    decreases s.len(),
{
    if s.len() == 0 {
        0
    } else {
        weighted_sum_x(s.drop_last()) + s.last().strength * s.last().target.x
    }
}

/// The strength-weighted sum of the targets' y coordinates.
pub open spec fn weighted_sum_y(s: Seq<Influence>) -> int
    decreases s.len(),
{
    if s.len() == 0 {
        0
    } else {
        weighted_sum_y(s.drop_last()) + s.last().strength * s.last().target.y
    }
}

/// The x coordinate of the weighted centroid, rounded toward zero.
pub open spec fn centroid_x(s: Seq<Influence>) -> int {
    div_q(weighted_sum_x(s), total_weight(s))
}

/// The y coordinate of the weighted centroid, rounded toward zero.
pub open spec fn centroid_y(s: Seq<Influence>) -> int {
    div_q(weighted_sum_y(s), total_weight(s))
}

/// The weighted centroid of a non-empty list of influences.
pub open spec fn centroid(s: Seq<Influence>) -> Point {
    Point { x: centroid_x(s) as i64, y: centroid_y(s) as i64 }
}

/// Sums of well-formed influences are bounded: the total weight counts at
/// least one milli-unit per influence, and each weighted coordinate sum is at
/// most the total weight times the target bound.
pub proof fn lemma_sums_bounded(s: Seq<Influence>)
    requires
        forall|i: int| 0 <= i < s.len() ==> s[i].wf(),
    ensures
        s.len() <= total_weight(s) <= s.len() * (WEIGHT_LIMIT as int),
        abs_i(weighted_sum_x(s)) <= total_weight(s) * (TARGET_LIMIT as int),
        abs_i(weighted_sum_y(s)) <= total_weight(s) * (TARGET_LIMIT as int),
    decreases s.len(),
{
    if s.len() == 0 {
    } else {
        let head = s.drop_last();
        let last = s.last();
        assert(forall|i: int| 0 <= i < head.len() ==> head[i] == s[i]);
        lemma_sums_bounded(head);
        assert(s.len() * (WEIGHT_LIMIT as int) == head.len() * (WEIGHT_LIMIT as int)
            + WEIGHT_LIMIT) by (nonlinear_arith)
            requires
                s.len() == head.len() + 1,
        ;
        assert(abs_i(last.strength * last.target.x) <= last.strength * (TARGET_LIMIT as int))
            by (nonlinear_arith)
            requires
                0 < last.strength,
                -TARGET_LIMIT <= last.target.x <= TARGET_LIMIT,
        ;
        assert(abs_i(last.strength * last.target.y) <= last.strength * (TARGET_LIMIT as int))
            by (nonlinear_arith)
            requires
                0 < last.strength,
                -TARGET_LIMIT <= last.target.y <= TARGET_LIMIT,
        ;
        assert(total_weight(head) * (TARGET_LIMIT as int) + last.strength * (TARGET_LIMIT as int)
            == total_weight(s) * (TARGET_LIMIT as int)) by (nonlinear_arith)
            requires
                total_weight(s) == total_weight(head) + last.strength,
        ;
    }
}

/// The weighted centroid of the influences, folded in arrival order.
///
/// The result equals the closed-form weighted mean: each coordinate is the
/// sum of strength-scaled targets divided by the total strength, rounded
/// toward zero.
pub fn weighted_avg(influences: &Vec<Influence>) -> (r: Point)
    requires
        1 <= influences@.len() <= MAX_INFLUENCES,
        forall|i: int| 0 <= i < influences@.len() ==> influences@[i].wf(),
    ensures
        r == centroid(influences@),
        r.x == centroid_x(influences@),
        r.y == centroid_y(influences@),
        in_box(r, TARGET_LIMIT as int),
{
    let s = influences;
    let n = s.len();
    let mut total: i64 = 0;
    let mut sum_x: i128 = 0;
    let mut sum_y: i128 = 0;
    let mut i: usize = 0;
    while i < n
        invariant
            0 <= i <= n,
            n == s@.len() <= MAX_INFLUENCES,
            forall|j: int| 0 <= j < s@.len() ==> s@[j].wf(),
            total == total_weight(s@.take(i as int)),
            sum_x == weighted_sum_x(s@.take(i as int)),
            sum_y == weighted_sum_y(s@.take(i as int)),
        decreases n - i,
    {
        let inf = s[i];
        proof {
            assert(forall|j: int| 0 <= j < i ==> s@.take(i as int)[j] == s@[j]);
            lemma_sums_bounded(s@.take(i as int));
            assert(s@.take(i as int + 1).drop_last() =~= s@.take(i as int));
            assert(s@.take(i as int + 1).last() == s@[i as int]);
            assert(total_weight(s@.take(i as int)) <= i * (WEIGHT_LIMIT as int));
            assert(i * (WEIGHT_LIMIT as int) <= 64 * (WEIGHT_LIMIT as int)) by (nonlinear_arith)
                requires
                    0 <= i <= 64,
            ;
            assert(abs_i(inf.strength * inf.target.x) <= (WEIGHT_LIMIT as int) * (
            TARGET_LIMIT as int)) by (nonlinear_arith)
                requires
                    0 < inf.strength <= WEIGHT_LIMIT,
                    -TARGET_LIMIT <= inf.target.x <= TARGET_LIMIT,
            ;
            assert(abs_i(inf.strength * inf.target.y) <= (WEIGHT_LIMIT as int) * (
            TARGET_LIMIT as int)) by (nonlinear_arith)
                requires
                    0 < inf.strength <= WEIGHT_LIMIT,
                    -TARGET_LIMIT <= inf.target.y <= TARGET_LIMIT,
            ;
            assert(abs_i(sum_x as int) <= total * (TARGET_LIMIT as int));
            assert(total * (TARGET_LIMIT as int) <= 64_000_000 * (TARGET_LIMIT as int))
                by (nonlinear_arith)
                requires
                    0 <= total <= 64_000_000,
            ;
            assert(abs_i(sum_y as int) <= total * (TARGET_LIMIT as int));
        }
        total = total + inf.strength;
        sum_x = sum_x + (inf.strength as i128) * (inf.target.x as i128);
        sum_y = sum_y + (inf.strength as i128) * (inf.target.y as i128);
        i = i + 1;
    }
    proof {
        assert(s@.take(n as int) =~= s@);
        lemma_sums_bounded(s@);
        assert(total * (TARGET_LIMIT as int) <= 64_000_000 * (TARGET_LIMIT as int))
            by (nonlinear_arith)
            requires
                0 <= total <= 64_000_000,
        ;
        lemma_div_q_le_multiple(sum_x as int, total as int, TARGET_LIMIT as int);
        lemma_div_q_le_multiple(sum_y as int, total as int, TARGET_LIMIT as int);
    }
    let qx = div_trunc_wide(sum_x, total as i128);
    let qy = div_trunc_wide(sum_y, total as i128);
    Point { x: qx as i64, y: qy as i64 }
}

proof fn lemma_weighted_sums_within(s: Seq<Influence>, lox: int, hix: int, loy: int, hiy: int)
    requires
        forall|i: int| 0 <= i < s.len() ==> s[i].wf(),
        forall|i: int| 0 <= i < s.len() ==> lox <= (#[trigger] s[i]).target.x <= hix,
        forall|i: int| 0 <= i < s.len() ==> loy <= (#[trigger] s[i]).target.y <= hiy,
    ensures
        total_weight(s) * lox <= weighted_sum_x(s) <= total_weight(s) * hix,
        total_weight(s) * loy <= weighted_sum_y(s) <= total_weight(s) * hiy,
    decreases s.len(),
{
    if s.len() == 0 {
    } else {
        let head = s.drop_last();
        let last = s.last();
        assert(forall|i: int| 0 <= i < head.len() ==> head[i] == s[i]);
        lemma_weighted_sums_within(head, lox, hix, loy, hiy);
        let tw = total_weight(head);
        let w = last.strength as int;
        assert(w * lox <= w * last.target.x <= w * hix && w * loy <= w * last.target.y <= w
            * hiy) by (nonlinear_arith)
            requires
                w > 0,
                lox <= last.target.x <= hix,
                loy <= last.target.y <= hiy,
        ;
        assert(tw * lox + w * lox == (tw + w) * lox && tw * hix + w * hix == (tw + w) * hix && tw
            * loy + w * loy == (tw + w) * loy && tw * hiy + w * hiy == (tw + w) * hiy)
            by (nonlinear_arith);
    }
}

/// Arbitration is a true blend: the centroid never leaves an axis-aligned
/// box that holds every influence's target.
pub proof fn lemma_centroid_within_targets(
    s: Seq<Influence>,
    lox: int,
    hix: int,
    loy: int,
    hiy: int,
)
    requires
        s.len() >= 1,
        forall|i: int| 0 <= i < s.len() ==> s[i].wf(),
        forall|i: int| 0 <= i < s.len() ==> lox <= (#[trigger] s[i]).target.x <= hix,
        forall|i: int| 0 <= i < s.len() ==> loy <= (#[trigger] s[i]).target.y <= hiy,
    ensures
        lox <= centroid_x(s) <= hix,
        loy <= centroid_y(s) <= hiy,
{
    lemma_sums_bounded(s);
    lemma_weighted_sums_within(s, lox, hix, loy, hiy);
    crate::num::lemma_div_q_between(weighted_sum_x(s), total_weight(s), lox, hix);
    crate::num::lemma_div_q_between(weighted_sum_y(s), total_weight(s), loy, hiy);
}

/// The influences a goal list converts to, in order, relative to one bot's
/// position and velocity.
pub open spec fn influences_of(goals: Seq<crate::goal::Goal>, pos: Point, vel: Point) -> Seq<
    Influence,
> {
    goals.map_values(|g: crate::goal::Goal| crate::goal::influence_of(g, pos, vel))
}

/// Converts each goal into its influence and blends them: the single ideal
/// target position of this tick.
pub fn ideal_target(goals: &Vec<crate::goal::Goal>, pos: Point, vel: Point) -> (r: Point)
    requires
        1 <= goals@.len() <= MAX_INFLUENCES,
        forall|i: int| 0 <= i < goals@.len() ==> (#[trigger] goals@[i]).wf(),
        in_box(pos, crate::num::COORD_LIMIT as int),
        in_box(vel, crate::num::COORD_LIMIT as int),
    ensures
        r == centroid(influences_of(goals@, pos, vel)),
        in_box(r, TARGET_LIMIT as int),
{
    let n = goals.len();
    let mut infs: Vec<Influence> = Vec::new();
    let mut i: usize = 0;
    while i < n
        invariant
            0 <= i <= n,
            n == goals@.len() <= MAX_INFLUENCES,
            forall|j: int| 0 <= j < goals@.len() ==> (#[trigger] goals@[j]).wf(),
            in_box(pos, crate::num::COORD_LIMIT as int),
            in_box(vel, crate::num::COORD_LIMIT as int),
            infs@ == influences_of(goals@.take(i as int), pos, vel),
            forall|j: int| 0 <= j < infs@.len() ==> (#[trigger] infs@[j]).wf(),
        decreases n - i,
    {
        let inf = goals[i].to_influence(pos, vel);
        infs.push(inf);
        proof {
            assert(infs@ =~= influences_of(goals@.take(i as int + 1), pos, vel));
        }
        i = i + 1;
    }
    proof {
        assert(goals@.take(n as int) =~= goals@);
    }
    weighted_avg(&infs)
}

/// Single-goal identity: the centroid of one positive-strength influence is
/// that influence's target, exactly.
pub proof fn lemma_single_influence_identity(inf: Influence)
    requires
        inf.wf(),
    ensures
        centroid(seq![inf]) == inf.target,
        centroid_x(seq![inf]) == inf.target.x,
        centroid_y(seq![inf]) == inf.target.y,
{
    let s = seq![inf];
    assert(s.len() == 1);
    assert(s.last() == inf);
    assert(s.drop_last() =~= Seq::<Influence>::empty());
    assert(total_weight(s.drop_last()) == 0);
    assert(weighted_sum_x(s.drop_last()) == 0);
    assert(weighted_sum_y(s.drop_last()) == 0);
    assert(total_weight(s) == inf.strength);
    assert(weighted_sum_x(s) == inf.strength * inf.target.x);
    assert(weighted_sum_y(s) == inf.strength * inf.target.y);
    lemma_div_q_exact(inf.target.x as int, inf.strength as int);
    lemma_div_q_exact(inf.target.y as int, inf.strength as int);
}

} // verus!
