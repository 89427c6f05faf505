//! Goal generation: turning one tick's world snapshot into a non-empty,
//! ordered list of weighted desires.
//!
//! A bot always wants to keep moving ([`Goal::MaxSpeed`]) and to follow the
//! racing line of its current track zone ([`Goal::FollowTrack`]).  When the
//! obstacle probe reports a hit it also wants to avoid it ([`Goal::Avoid`]),
//! and tag rules may add one more desire toward or away from another racer
//! ([`Goal::Chase`]).  Each goal converts, purely, into exactly one
//! [`Influence`] relative to the bot's position and velocity.

use vstd::prelude::*;
use crate::angle::HALF_TURN;
use crate::angle::QUARTER_TURN;
use crate::angle::TRIG_ONE;
use crate::angle::ZONE_FAR;
use crate::angle::ZONE_NEAR;
use crate::angle::atan2_approx;
use crate::angle::atan2_fp;
use crate::angle::cos_approx;
use crate::angle::cos_fp;
use crate::angle::sin_approx;
use crate::angle::sin_fp;
use crate::angle::wrap_to_signed_pi;
use crate::angle::wrapped;
use crate::arbiter::Influence;
use crate::arbiter::WEIGHT_LIMIT;
use crate::geom::Point;
use crate::geom::in_box;
use crate::num::COORD_LIMIT;
use crate::num::div_q;
use crate::num::div_trunc;
use crate::num::lemma_div_q_le_multiple;
use crate::num::sqrt_floor;
use crate::track::Track;

verus! {

/// How far ahead of the bot a directional goal places its target: one
/// hundred world units.
pub const LOOKAHEAD: i64 = 100_000;

/// Weight of the keep-moving goal: low, it only prevents idling.
pub const MAX_SPEED_WEIGHT: i64 = 1_000;

/// Weight of the racing-line goal: the dominant stay-on-course signal.
pub const FOLLOW_TRACK_WEIGHT: i64 = 5_000;

/// Weight of an imminent avoidance: dominates everything else.
pub const AVOID_IMMINENT_WEIGHT: i64 = 100_000;

/// Weight of a graceful skirting avoidance.
pub const AVOID_SKIRT_WEIGHT: i64 = 5_000;

/// Probe times to impact below this count as imminent: fifty time units.
pub const AVOID_NEAR_TOI: i64 = 50_000;

/// How far the skirting offset pushes the target sideways, as a multiple of
/// the bot-to-obstacle vector.
pub const SKIRT_SCALE: i64 = 30;

/// Squared speed below which the bot counts as near-stationary: a speed of
/// one thousandth of a world unit.
pub const MIN_SPEED_SQ: u64 = 1;

/// Magnitude bound on goal targets: a mirror point doubles the position and
/// subtracts another bounded position, so three times the coordinate bound
/// covers every goal.
pub const GOAL_LIMIT: i64 = 3_000_000_000;

/// A tagged, weighted desire, expressed as a target point.
#[derive(Clone, Copy, Debug, PartialEq, Eq, Structural)]
pub enum Goal {
    /// Keep moving in the current direction of travel.
    MaxSpeed(Point),
    /// Move toward the racing line of the current track zone.
    FollowTrack(Point),
    /// Steer away from an obstacle the probe reported.
    Avoid { target: Point, time_to_impact: i64 },
    /// Pursue a point (another racer, or the mirror point away from one),
    /// with its own weight.
    Chase { target: Point, priority: i64 },
}

impl Goal {
    /// A well-formed goal: targets within bounds, probe times nonnegative,
    /// chase priorities positive and bounded.
    pub open spec fn wf(self) -> bool {
        match self {
            Goal::MaxSpeed(t) => in_box(t, GOAL_LIMIT as int),
            Goal::FollowTrack(t) => in_box(t, GOAL_LIMIT as int),
            Goal::Avoid { target, time_to_impact } => in_box(target, COORD_LIMIT as int)
                && 0 <= time_to_impact,
            Goal::Chase { target, priority } => in_box(target, GOAL_LIMIT as int) && 0 < priority
                <= WEIGHT_LIMIT,
        }
    }
}

/// The four angular zones of the track, named for where they lie seen from
/// the track center.  Boundaries are half-open: each belongs to exactly one
/// zone.
#[derive(Clone, Copy, Debug, PartialEq, Eq, Structural)]
pub enum TrackZone {
    /// Position angles within a sixth of a half turn of the positive x-axis.
    RightBend,
    /// Position angles from a sixth to five sixths of a half turn.
    TopStraightaway,
    /// The mirror band below the axis.
    BottomStraightaway,
    /// Everything beyond five sixths of a half turn, either way round.
    LeftBend,
}

/// The zone owning a position angle.
pub open spec fn zone_of(phi: int) -> TrackZone {
    if -ZONE_NEAR <= phi < ZONE_NEAR {
        TrackZone::RightBend
    } else if ZONE_NEAR <= phi < ZONE_FAR {
        TrackZone::TopStraightaway
    } else if -ZONE_FAR <= phi < -ZONE_NEAR {
        TrackZone::BottomStraightaway
    } else {
        TrackZone::LeftBend
    }
}

/// The zone owning a position angle, executable.
pub fn track_zone(phi: i64) -> (z: TrackZone)
    ensures
        z == zone_of(phi as int),
{
    if -ZONE_NEAR <= phi && phi < ZONE_NEAR {
        TrackZone::RightBend
    } else if ZONE_NEAR <= phi && phi < ZONE_FAR {
        TrackZone::TopStraightaway
    } else if -ZONE_FAR <= phi && phi < -ZONE_NEAR {
        TrackZone::BottomStraightaway
    } else {
        TrackZone::LeftBend
    }
}

/// The bot's position angle around the track center.
pub open spec fn position_angle(pos: Point, center: Point) -> int {
    atan2_approx(pos.y - center.y, pos.x - center.x)
}

/// The tangent heading of a bend at position angle `phi`: a quarter turn
/// counterclockwise of the position vector.
pub open spec fn bend_tangent(phi: int) -> int {
    wrapped(phi + QUARTER_TURN)
}

/// True when the bot counts as near-stationary for goal generation.
pub open spec fn stationary(vel: Point) -> bool {
    vel.x * vel.x + vel.y * vel.y < MIN_SPEED_SQ
}

/// The length of a velocity vector, rounded down to milli-units.
pub open spec fn len_of(vel: Point) -> int {
    sqrt_floor(vel.x * vel.x + vel.y * vel.y)
}

/// x coordinate of the keep-moving target: the position plus a lookahead
/// along the velocity, or along the facing when near-stationary.
pub open spec fn max_speed_target_x(pos: Point, facing: int, vel: Point) -> int {
    if stationary(vel) {
        pos.x + div_q(cos_approx(facing) * LOOKAHEAD, TRIG_ONE as int)
    } else {
        pos.x + div_q(vel.x * LOOKAHEAD, len_of(vel))
    }
}

/// y coordinate of the keep-moving target.
pub open spec fn max_speed_target_y(pos: Point, facing: int, vel: Point) -> int {
    if stationary(vel) {
        pos.y + div_q(sin_approx(facing) * LOOKAHEAD, TRIG_ONE as int)
    } else {
        pos.y + div_q(vel.y * LOOKAHEAD, len_of(vel))
    }
}

/// The keep-moving goal.
pub open spec fn max_speed_goal(pos: Point, facing: int, vel: Point) -> Goal {
    Goal::MaxSpeed(
        Point {
            x: max_speed_target_x(pos, facing, vel) as i64,
            y: max_speed_target_y(pos, facing, vel) as i64,
        },
    )
}

/// x offset of the racing-line target for a position angle: straightaways
/// use a fixed lateral direction, opposite on each side so the flow
/// circulates; bends follow the tangent.
pub open spec fn follow_offset_x(phi: int) -> int {
    match zone_of(phi) {
        TrackZone::TopStraightaway => -LOOKAHEAD as int,
        TrackZone::BottomStraightaway => LOOKAHEAD as int,
        _ => div_q(cos_approx(bend_tangent(phi)) * LOOKAHEAD, TRIG_ONE as int),
    }
}

/// y offset of the racing-line target.
pub open spec fn follow_offset_y(phi: int) -> int {
    match zone_of(phi) {
        TrackZone::TopStraightaway => 0,
        TrackZone::BottomStraightaway => 0,
        _ => div_q(sin_approx(bend_tangent(phi)) * LOOKAHEAD, TRIG_ONE as int),
    }
}

/// The racing-line goal for a bot position around a track center.
pub open spec fn follow_track_goal(pos: Point, center: Point) -> Goal {
    Goal::FollowTrack(
        Point {
            x: (pos.x + follow_offset_x(position_angle(pos, center))) as i64,
            y: (pos.y + follow_offset_y(position_angle(pos, center))) as i64,
        },
    )
}

/// An order from the tag rules: chase a racer, or flee from one, with a
/// weight of its own.
#[derive(Clone, Copy, Debug, PartialEq, Eq, Structural)]
pub struct TagDirective {
    /// The other racer's position.
    pub racer: Point,
    /// Chase toward the racer when true, flee from it when false.
    pub chase: bool,
    /// The weight of the resulting goal.
    pub weight: i64,
}

impl TagDirective {
    /// A well-formed directive: racer in bounds, weight positive and
    /// bounded.
    pub open spec fn wf(self) -> bool {
        in_box(self.racer, COORD_LIMIT as int) && 0 < self.weight <= WEIGHT_LIMIT
    }
}

/// The goal a tag directive adds: toward the racer when chasing, toward the
/// diametrically opposite point when fleeing.
pub open spec fn tag_goal(pos: Point, d: TagDirective) -> Goal {
    if d.chase {
        Goal::Chase { target: d.racer, priority: d.weight }
    } else {
        Goal::Chase {
            target: Point { x: (2 * pos.x - d.racer.x) as i64, y: (2 * pos.y - d.racer.y) as i64 },
            priority: d.weight,
        }
    }
}

impl Goal {
    /// Builds the keep-moving goal: target a lookahead ahead along the
    /// velocity, or along the facing when near-stationary.
    pub fn max_speed(pos: Point, facing: i64, vel: Point) -> (g: Goal)
        requires
            in_box(pos, COORD_LIMIT as int),
            in_box(vel, COORD_LIMIT as int),
            -HALF_TURN <= facing <= HALF_TURN,
        ensures
            g == max_speed_goal(pos, facing as int, vel),
            g.wf(),
    {
        let sq = vel.length_sq();
        if sq < MIN_SPEED_SQ {
            let c = cos_fp(facing);
            let s = sin_fp(facing);
            proof {
                assert(crate::num::abs_i(c * LOOKAHEAD) <= (TRIG_ONE as int) * (
                LOOKAHEAD as int)) by (nonlinear_arith)
                    requires
                        -TRIG_ONE <= c <= TRIG_ONE,
                ;
                assert(crate::num::abs_i(s * LOOKAHEAD) <= (TRIG_ONE as int) * (
                LOOKAHEAD as int)) by (nonlinear_arith)
                    requires
                        -TRIG_ONE <= s <= TRIG_ONE,
                ;
                lemma_div_q_le_multiple(c * LOOKAHEAD, TRIG_ONE as int, LOOKAHEAD as int);
                lemma_div_q_le_multiple(s * LOOKAHEAD, TRIG_ONE as int, LOOKAHEAD as int);
            }
            let ox = div_trunc(c * LOOKAHEAD, TRIG_ONE);
            let oy = div_trunc(s * LOOKAHEAD, TRIG_ONE);
            Goal::MaxSpeed(Point { x: pos.x + ox, y: pos.y + oy })
        } else {
            let len = crate::num::isqrt(sq);
            proof {
                assert(-(len as int) <= vel.x <= len as int && -(len as int) <= vel.y
                    <= len as int) by (nonlinear_arith)
                    requires
                        vel.x * vel.x + vel.y * vel.y == sq,
                        (len as int) * (len as int) <= sq,
                        sq < (len as int + 1) * (len as int + 1),
                        len >= 0,
                ;
                assert(crate::num::abs_i(vel.x * LOOKAHEAD) <= (len as int) * (LOOKAHEAD as int)
                    && crate::num::abs_i(vel.y * LOOKAHEAD) <= (len as int) * (
                LOOKAHEAD as int)) by (nonlinear_arith)
                    requires
                        -(len as int) <= vel.x <= len as int,
                        -(len as int) <= vel.y <= len as int,
                        LOOKAHEAD > 0,
                ;
                lemma_div_q_le_multiple(vel.x * LOOKAHEAD, len as int, LOOKAHEAD as int);
                lemma_div_q_le_multiple(vel.y * LOOKAHEAD, len as int, LOOKAHEAD as int);
            }
            let ox = div_trunc(vel.x * LOOKAHEAD, len as i64);
            let oy = div_trunc(vel.y * LOOKAHEAD, len as i64);
            Goal::MaxSpeed(Point { x: pos.x + ox, y: pos.y + oy })
        }
    }

    /// Builds the racing-line goal from the bot's track zone.
    ///
    /// The velocity is part of the racing-line query's interface but the
    /// zone rule decides on position alone.
    pub fn follow_track(pos: Point, _vel: Point, track: &Track) -> (g: Goal)
        requires
            in_box(pos, COORD_LIMIT as int),
            track.wf(),
        ensures
            g == follow_track_goal(pos, track.center),
            g.wf(),
    {
        let c = track.center;
        let dx = pos.x - c.x;
        let dy = pos.y - c.y;
        let phi = atan2_fp(dy, dx);
        match track_zone(phi) {
            TrackZone::TopStraightaway => Goal::FollowTrack(
                Point { x: pos.x - LOOKAHEAD, y: pos.y },
            ),
            TrackZone::BottomStraightaway => Goal::FollowTrack(
                Point { x: pos.x + LOOKAHEAD, y: pos.y },
            ),
            _ => {
                let th = wrap_to_signed_pi(phi + QUARTER_TURN);
                let cv = cos_fp(th);
                let sv = sin_fp(th);
                proof {
                    assert(crate::num::abs_i(cv * LOOKAHEAD) <= (TRIG_ONE as int) * (
                    LOOKAHEAD as int)) by (nonlinear_arith)
                        requires
                            -TRIG_ONE <= cv <= TRIG_ONE,
                    ;
                    assert(crate::num::abs_i(sv * LOOKAHEAD) <= (TRIG_ONE as int) * (
                    LOOKAHEAD as int)) by (nonlinear_arith)
                        requires
                            -TRIG_ONE <= sv <= TRIG_ONE,
                    ;
                    lemma_div_q_le_multiple(cv * LOOKAHEAD, TRIG_ONE as int, LOOKAHEAD as int);
                    lemma_div_q_le_multiple(sv * LOOKAHEAD, TRIG_ONE as int, LOOKAHEAD as int);
                }
                let ox = div_trunc(cv * LOOKAHEAD, TRIG_ONE);
                let oy = div_trunc(sv * LOOKAHEAD, TRIG_ONE);
                Goal::FollowTrack(Point { x: pos.x + ox, y: pos.y + oy })
            },
        }
    }

    /// Packages an obstacle-probe hit as an avoidance goal.
    pub fn avoid(target: Point, time_of_impact: i64) -> (g: Goal)
        requires
            in_box(target, COORD_LIMIT as int),
            0 <= time_of_impact,
        ensures
            g == (Goal::Avoid { target, time_to_impact: time_of_impact }),
            g.wf(),
    {
        Goal::Avoid { target, time_to_impact: time_of_impact }
    }

    /// Builds the goal a tag directive asks for.
    pub fn from_tag(pos: Point, directive: TagDirective) -> (g: Goal)
        requires
            in_box(pos, COORD_LIMIT as int),
            directive.wf(),
        ensures
            g == tag_goal(pos, directive),
            g.wf(),
    {
        if directive.chase {
            Goal::Chase { target: directive.racer, priority: directive.weight }
        } else {
            Goal::Chase {
                target: directive.racer.opposite_through(pos),
                priority: directive.weight,
            }
        }
    }
}

/// Strength the arbiter gives a goal.
pub open spec fn influence_strength(g: Goal) -> int {
    match g {
        Goal::MaxSpeed(_) => MAX_SPEED_WEIGHT as int,
        Goal::FollowTrack(_) => FOLLOW_TRACK_WEIGHT as int,
        Goal::Avoid { time_to_impact, .. } => if time_to_impact < AVOID_NEAR_TOI {
            AVOID_IMMINENT_WEIGHT as int
        } else {
            AVOID_SKIRT_WEIGHT as int
        },
        Goal::Chase { priority, .. } => priority as int,
    }
}

/// x coordinate of the influence target a goal converts to.  Directional
/// goals keep their target; an imminent avoidance pushes to the point
/// diametrically opposite the obstacle; a distant one offsets the obstacle
/// sideways, away from the side of the velocity heading the obstacle is on.
pub open spec fn influence_target_x(g: Goal, pos: Point, vel: Point) -> int {
    match g {
        Goal::MaxSpeed(t) => t.x as int,
        Goal::FollowTrack(t) => t.x as int,
        Goal::Chase { target, .. } => target.x as int,
        Goal::Avoid { target, time_to_impact } => {
            if time_to_impact < AVOID_NEAR_TOI {
                2 * pos.x - target.x
            } else {
                let dy = target.y - pos.y;
                if cross_sign_left(g, pos, vel) {
                    target.x + SKIRT_SCALE * (-dy)
                } else {
                    target.x - SKIRT_SCALE * (-dy)
                }
            }
        },
    }
}

/// y coordinate of the influence target a goal converts to.
pub open spec fn influence_target_y(g: Goal, pos: Point, vel: Point) -> int {
    match g {
        Goal::MaxSpeed(t) => t.y as int,
        Goal::FollowTrack(t) => t.y as int,
        Goal::Chase { target, .. } => target.y as int,
        Goal::Avoid { target, time_to_impact } => {
            if time_to_impact < AVOID_NEAR_TOI {
                2 * pos.y - target.y
            } else {
                let dx = target.x - pos.x;
                if cross_sign_left(g, pos, vel) {
                    target.y + SKIRT_SCALE * dx
                } else {
                    target.y - SKIRT_SCALE * dx
                }
            }
        },
    }
}

/// Whether the velocity heading lies counterclockwise of the bot-to-obstacle
/// vector, so skirting prefers the left offset.
pub open spec fn cross_sign_left(g: Goal, pos: Point, vel: Point) -> bool {
    match g {
        Goal::Avoid { target, .. } => (target.x - pos.x) * vel.y - (target.y - pos.y) * vel.x
            >= 0,
        _ => true,
    }
}

/// The influence a goal converts to.
pub open spec fn influence_of(g: Goal, pos: Point, vel: Point) -> Influence {
    Influence {
        target: Point {
            x: influence_target_x(g, pos, vel) as i64,
            y: influence_target_y(g, pos, vel) as i64,
        },
        strength: influence_strength(g) as i64,
    }
}

impl Goal {
    /// Converts this goal into its influence, relative to the bot's current
    /// position and velocity.  Pure: equal inputs give equal influences.
    pub fn to_influence(&self, bot_position: Point, bot_velocity: Point) -> (r: Influence)
        requires
            self.wf(),
            in_box(bot_position, COORD_LIMIT as int),
            in_box(bot_velocity, COORD_LIMIT as int),
        ensures
            r == influence_of(*self, bot_position, bot_velocity),
            r.wf(),
    {
        match self {
            Goal::MaxSpeed(t) => Influence::new(*t, MAX_SPEED_WEIGHT),
            Goal::FollowTrack(t) => Influence::new(*t, FOLLOW_TRACK_WEIGHT),
            Goal::Chase { target, priority } => Influence::new(*target, *priority),
            Goal::Avoid { target, time_to_impact } => {
                if *time_to_impact < AVOID_NEAR_TOI {
                    Influence::new(target.opposite_through(bot_position), AVOID_IMMINENT_WEIGHT)
                } else {
                    let delta = target.sub_p(bot_position);
                    let side = delta.cross(bot_velocity);
                    let p = delta.perp();
                    let (ox, oy) = if side >= 0 {
                        (p.x * SKIRT_SCALE, p.y * SKIRT_SCALE)
                    } else {
                        (-(p.x * SKIRT_SCALE), -(p.y * SKIRT_SCALE))
                    };
                    Influence::new(
                        Point { x: target.x + ox, y: target.y + oy },
                        AVOID_SKIRT_WEIGHT,
                    )
                }
            },
        }
    }
}

/// One tick's kinematic snapshot of a bot.
#[derive(Clone, Copy, Debug, PartialEq, Eq, Structural)]
pub struct Kinematics {
    /// World position.
    pub position: Point,
    /// Signed facing angle, wrapped.
    pub facing: i64,
    /// Linear velocity.
    pub velocity: Point,
}

impl Kinematics {
    /// A readable snapshot: bounded coordinates, wrapped facing.
    pub open spec fn wf(self) -> bool {
        in_box(self.position, COORD_LIMIT as int) && in_box(self.velocity, COORD_LIMIT as int)
            && -HALF_TURN <= self.facing <= HALF_TURN
    }
}

/// The nearest hit the obstacle probe reported this tick.
#[derive(Clone, Copy, Debug, PartialEq, Eq, Structural)]
pub struct ProbeHit {
    /// Position of what was hit.
    pub target: Point,
    /// Time to impact along the probe, in milli time units.
    pub time_to_impact: i64,
}

impl ProbeHit {
    /// A meaningful hit: bounded position, nonnegative time.
    pub open spec fn wf(self) -> bool {
        in_box(self.target, COORD_LIMIT as int) && 0 <= self.time_to_impact
    }
}

/// The goal list one tick generates: keep moving, follow the track, avoid a
/// reported obstacle, serve a tag directive — in that order.
pub open spec fn generated_goals(
    k: Kinematics,
    center: Point,
    probe: Option<ProbeHit>,
    tag: Option<TagDirective>,
) -> Seq<Goal> {
    let base = seq![
        max_speed_goal(k.position, k.facing as int, k.velocity),
        follow_track_goal(k.position, center),
    ];
    let with_avoid = match probe {
        Option::Some(h) => base.push(Goal::Avoid { target: h.target, time_to_impact: h.time_to_impact }),
        Option::None => base,
    };
    match tag {
        Option::Some(d) => with_avoid.push(tag_goal(k.position, d)),
        Option::None => with_avoid,
    }
}

/// Generates the tick's goals.  The list is never empty: the keep-moving and
/// racing-line goals are always present, in that order, before any
/// avoidance or tag goal.
pub fn compute_goals(
    k: &Kinematics,
    track: &Track,
    probe: Option<ProbeHit>,
    tag: Option<TagDirective>,
) -> (r: Vec<Goal>)
    requires
        k.wf(),
        track.wf(),
        probe matches Option::Some(h) ==> h.wf(),
        tag matches Option::Some(d) ==> d.wf(),
    ensures
        r@ == generated_goals(*k, track.center, probe, tag),
        2 <= r@.len() <= 4,
        forall|i: int| 0 <= i < r@.len() ==> (#[trigger] r@[i]).wf(),
{
    let mut goals: Vec<Goal> = Vec::new();
    goals.push(Goal::max_speed(k.position, k.facing, k.velocity));
    goals.push(Goal::follow_track(k.position, k.velocity, track));
    if let Option::Some(hit) = probe {
        goals.push(Goal::avoid(hit.target, hit.time_to_impact));
    }
    if let Option::Some(directive) = tag {
        goals.push(Goal::from_tag(k.position, directive));
    }
    proof {
        assert(goals@ =~= generated_goals(*k, track.center, probe, tag));
    }
    goals
}

} // verus!
