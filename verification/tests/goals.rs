use bot_controller::angle::QUARTER_TURN;
use bot_controller::angle::ZONE_FAR;
use bot_controller::angle::ZONE_NEAR;
use bot_controller::arbiter::Influence;
use bot_controller::geom::Point;
use bot_controller::goal::AVOID_IMMINENT_WEIGHT;
use bot_controller::goal::AVOID_SKIRT_WEIGHT;
use bot_controller::goal::FOLLOW_TRACK_WEIGHT;
use bot_controller::goal::Goal;
use bot_controller::goal::Kinematics;
use bot_controller::goal::MAX_SPEED_WEIGHT;
use bot_controller::goal::ProbeHit;
use bot_controller::goal::TagDirective;
use bot_controller::goal::TrackZone;
use bot_controller::goal::compute_goals;
use bot_controller::goal::track_zone;
use bot_controller::track::Track;

fn origin() -> Point {
    Point { x: 0, y: 0 }
}

#[test]
fn max_speed_follows_the_velocity() {
    // Moving at one unit per second along x: the target is one lookahead
    // ahead.
    let g = Goal::max_speed(origin(), 0, Point { x: 1_000, y: 0 });
    assert_eq!(g, Goal::MaxSpeed(Point { x: 100_000, y: 0 }));
}

#[test]
fn max_speed_normalizes_a_skewed_velocity() {
    // Velocity (3, 4) units per second has length five: the offset keeps
    // the direction and the lookahead magnitude.
    let g = Goal::max_speed(origin(), 0, Point { x: 3_000, y: 4_000 });
    assert_eq!(g, Goal::MaxSpeed(Point { x: 60_000, y: 80_000 }));
}

#[test]
fn max_speed_uses_the_facing_when_stationary() {
    // A stopped bot facing a quarter turn: the target is straight up.
    let g = Goal::max_speed(origin(), QUARTER_TURN, Point { x: 0, y: 0 });
    assert_eq!(g, Goal::MaxSpeed(Point { x: 0, y: 100_000 }));
}

#[test]
fn zone_boundaries_are_half_open() {
    assert_eq!(track_zone(0), TrackZone::RightBend);
    assert_eq!(track_zone(-ZONE_NEAR), TrackZone::RightBend);
    assert_eq!(track_zone(ZONE_NEAR - 1), TrackZone::RightBend);
    assert_eq!(track_zone(ZONE_NEAR), TrackZone::TopStraightaway);
    assert_eq!(track_zone(ZONE_FAR - 1), TrackZone::TopStraightaway);
    assert_eq!(track_zone(ZONE_FAR), TrackZone::LeftBend);
    assert_eq!(track_zone(12288), TrackZone::LeftBend);
    assert_eq!(track_zone(-12288), TrackZone::LeftBend);
    assert_eq!(track_zone(-ZONE_FAR), TrackZone::BottomStraightaway);
    assert_eq!(track_zone(-ZONE_NEAR - 1), TrackZone::BottomStraightaway);
}

#[test]
fn follow_track_in_the_straightaways() {
    let track = Track::default();
    // High above the center: the top straightaway flows toward negative x.
    let top = Goal::follow_track(Point { x: 0, y: 700_000 }, origin(), &track);
    assert_eq!(top, Goal::FollowTrack(Point { x: -100_000, y: 700_000 }));
    // Far below: the bottom straightaway flows toward positive x.
    let bottom = Goal::follow_track(Point { x: 0, y: -700_000 }, origin(), &track);
    assert_eq!(bottom, Goal::FollowTrack(Point { x: 100_000, y: -700_000 }));
}

#[test]
fn follow_track_in_the_right_bend_is_tangent() {
    // Directly right of center the position angle is zero, so the desired
    // direction is a quarter turn on: straight up.
    let track = Track::default();
    let g = Goal::follow_track(Point { x: 800_000, y: 0 }, origin(), &track);
    assert_eq!(g, Goal::FollowTrack(Point { x: 800_000, y: 100_000 }));
}

#[test]
fn follow_track_in_the_left_bend_is_tangent() {
    // Directly left of center the position angle is a half turn; the
    // tangent points straight down.
    let track = Track::default();
    let g = Goal::follow_track(Point { x: -800_000, y: 0 }, origin(), &track);
    assert_eq!(g, Goal::FollowTrack(Point { x: -800_000, y: -100_000 }));
}

#[test]
fn imminent_avoidance_mirrors_the_obstacle() {
    // Ten time units to impact is imminent: push to the point diametrically
    // opposite the obstacle, with the dominating weight.
    let g = Goal::avoid(Point { x: 50_000, y: 1_000 }, 10_000);
    let inf = g.to_influence(origin(), Point { x: 1_000, y: 0 });
    assert_eq!(inf, Influence::new(Point { x: -50_000, y: -1_000 }, AVOID_IMMINENT_WEIGHT));
}

#[test]
fn distant_avoidance_skirts_sideways() {
    // Obstacle ahead on x while moving up: the velocity lies to the left of
    // the approach vector, so the offset is the left perpendicular, scaled.
    let g = Goal::avoid(Point { x: 10_000, y: 0 }, 60_000);
    let inf = g.to_influence(origin(), Point { x: 0, y: 1_000 });
    assert_eq!(inf, Influence::new(Point { x: 10_000, y: 300_000 }, AVOID_SKIRT_WEIGHT));
}

#[test]
fn distant_avoidance_skirts_the_other_way() {
    // Moving down instead: the offset flips to the right perpendicular.
    let g = Goal::avoid(Point { x: 10_000, y: 0 }, 60_000);
    let inf = g.to_influence(origin(), Point { x: 0, y: -1_000 });
    assert_eq!(inf, Influence::new(Point { x: 10_000, y: -300_000 }, AVOID_SKIRT_WEIGHT));
}

#[test]
fn directional_goals_keep_their_targets_and_weights() {
    let t = Point { x: 7_000, y: -9_000 };
    let vel = Point { x: 0, y: 0 };
    assert_eq!(
        Goal::MaxSpeed(t).to_influence(origin(), vel),
        Influence::new(t, MAX_SPEED_WEIGHT)
    );
    assert_eq!(
        Goal::FollowTrack(t).to_influence(origin(), vel),
        Influence::new(t, FOLLOW_TRACK_WEIGHT)
    );
    assert_eq!(
        Goal::Chase { target: t, priority: 12_000 }.to_influence(origin(), vel),
        Influence::new(t, 12_000)
    );
}

#[test]
fn tag_directive_chases_or_flees() {
    let racer = Point { x: 40_000, y: -10_000 };
    let here = Point { x: 10_000, y: 10_000 };
    let chase = Goal::from_tag(here, TagDirective { racer, chase: true, weight: 8_000 });
    assert_eq!(chase, Goal::Chase { target: racer, priority: 8_000 });
    let flee = Goal::from_tag(here, TagDirective { racer, chase: false, weight: 8_000 });
    assert_eq!(flee, Goal::Chase { target: Point { x: -20_000, y: 30_000 }, priority: 8_000 });
}

#[test]
fn goal_list_always_starts_with_max_speed_and_follow_track() {
    let track = Track::default();
    let k = Kinematics {
        position: Point { x: 800_000, y: 0 },
        facing: 0,
        velocity: Point { x: 0, y: 2_000 },
    };
    let goals = compute_goals(&k, &track, None, None);
    assert_eq!(goals.len(), 2);
    assert_eq!(goals[0], Goal::MaxSpeed(Point { x: 800_000, y: 100_000 }));
    assert_eq!(goals[1], Goal::FollowTrack(Point { x: 800_000, y: 100_000 }));
}

#[test]
fn slowest_measurable_velocity_still_normalizes() {
    // One milli-unit per second is exactly the near-stationary threshold:
    // it is not below it, so the velocity, not the facing, sets the
    // direction.
    let g = Goal::max_speed(origin(), QUARTER_TURN, Point { x: 1, y: 0 });
    assert_eq!(g, Goal::MaxSpeed(Point { x: 100_000, y: 0 }));
}

#[test]
fn goals_at_the_coordinate_limit() {
    // The largest coordinates the controller accepts: a million world
    // units out, at full velocity bound, every goal still comes back
    // well-formed.
    let far = Point { x: 1_000_000_000, y: -1_000_000_000 };
    let vel = Point { x: -1_000_000_000, y: 1_000_000_000 };
    let g = Goal::max_speed(far, -12_288, vel);
    match g {
        Goal::MaxSpeed(t) => {
            assert!((t.x - far.x).abs() <= 100_000);
            assert!((t.y - far.y).abs() <= 100_000);
        }
        _ => panic!("a keep-moving goal was expected"),
    }
    let track = Track::default();
    let f = Goal::follow_track(far, vel, &track);
    match f {
        Goal::FollowTrack(t) => {
            assert!((t.x - far.x).abs() <= 100_000);
            assert!((t.y - far.y).abs() <= 100_000);
        }
        _ => panic!("a racing-line goal was expected"),
    }
}

#[test]
fn goal_list_appends_probe_and_tag_goals_in_order() {
    let track = Track::default();
    let k = Kinematics {
        position: Point { x: 800_000, y: 0 },
        facing: 0,
        velocity: Point { x: 0, y: 2_000 },
    };
    let hit = ProbeHit { target: Point { x: 820_000, y: 0 }, time_to_impact: 70_000 };
    let tag = TagDirective { racer: Point { x: 0, y: 0 }, chase: true, weight: 4_000 };
    let goals = compute_goals(&k, &track, Some(hit), Some(tag));
    assert_eq!(goals.len(), 4);
    assert_eq!(goals[2], Goal::Avoid { target: Point { x: 820_000, y: 0 }, time_to_impact: 70_000 });
    assert_eq!(goals[3], Goal::Chase { target: Point { x: 0, y: 0 }, priority: 4_000 });
}
