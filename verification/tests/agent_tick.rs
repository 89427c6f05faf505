use bot_controller::agent::BotAgent;
use bot_controller::agent::CHECKPOINT_LAYER;
use bot_controller::agent::ProbeConfig;
use bot_controller::angle::atan2_fp;
use bot_controller::arbiter::ideal_target;
use bot_controller::geom::Point;
use bot_controller::goal::Goal;
use bot_controller::goal::Kinematics;
use bot_controller::goal::ProbeHit;
use bot_controller::rng::RngStream;
use bot_controller::steering::decide_steering;
use bot_controller::track::Track;

fn origin() -> Point {
    Point { x: 0, y: 0 }
}

#[test]
fn scenario_single_max_speed_goal_drives_straight() {
    // Bot at the origin, facing zero, stationary: the keep-moving goal
    // targets one lookahead along the facing, the blend of that single goal
    // is the target itself, and the decision is straight ahead.
    let goal = Goal::max_speed(origin(), 0, origin());
    assert_eq!(goal, Goal::MaxSpeed(Point { x: 100_000, y: 0 }));
    let goals = vec![goal];
    let ideal = ideal_target(&goals, origin(), origin());
    assert_eq!(ideal, Point { x: 100_000, y: 0 });
    let out = decide_steering(origin(), 0, ideal, 800);
    assert!(out.accelerate_forward);
    assert_eq!(out.steering, 0);
}

#[test]
fn scenario_turn_zone_weighted_majority() {
    // Directly right of center the bot is in a bend: the racing line target
    // is offset a quarter turn on from the position angle.  Against a
    // keep-moving goal pointing the opposite way, the heavier racing-line
    // goal wins the blend.
    let track = Track::default();
    let pos = Point { x: 800_000, y: 0 };
    let follow = Goal::follow_track(pos, origin(), &track);
    assert_eq!(follow, Goal::FollowTrack(Point { x: 800_000, y: 100_000 }));
    let max_speed = Goal::max_speed(pos, 0, Point { x: 0, y: -2_000 });
    assert_eq!(max_speed, Goal::MaxSpeed(Point { x: 800_000, y: -100_000 }));
    let goals = vec![max_speed, follow];
    let ideal = ideal_target(&goals, pos, Point { x: 0, y: -2_000 });
    assert_eq!(ideal, Point { x: 800_000, y: 66_666 });
    let follow_target = Point { x: 800_000, y: 100_000 };
    let max_target = Point { x: 800_000, y: -100_000 };
    let to_follow = (ideal.y - follow_target.y).abs();
    let to_max = (ideal.y - max_target.y).abs();
    assert!(to_follow < to_max);
}

#[test]
fn scenario_imminent_obstacle_steers_away() {
    // A hit ten time units out is imminent: the avoidance goal mirrors the
    // obstacle through the bot, and the resulting steering opposes the
    // bearing toward the obstacle.
    let track = Track::default();
    let pos = origin();
    let vel = Point { x: 1_000, y: 0 };
    let obstacle = Point { x: 50_000, y: 1_000 };
    let k = Kinematics { position: pos, facing: 0, velocity: vel };
    let hit = ProbeHit { target: obstacle, time_to_impact: 10_000 };
    let goals = bot_controller::goal::compute_goals(&k, &track, Some(hit), None);
    assert_eq!(
        goals[2],
        Goal::Avoid { target: obstacle, time_to_impact: 10_000 }
    );
    let avoid_influence = goals[2].to_influence(pos, vel);
    assert_eq!(avoid_influence.target, Point { x: -50_000, y: -1_000 });
    let ideal = ideal_target(&goals, pos, vel);
    assert_eq!(ideal, Point { x: -46_226, y: 3_773 });
    let out = decide_steering(pos, 0, ideal, 1_000);
    let bearing_to_obstacle = atan2_fp(obstacle.y - pos.y, obstacle.x - pos.x);
    assert!(bearing_to_obstacle > 0);
    assert!(out.steering < 0);
    assert!(!out.accelerate_forward);
}

#[test]
fn tick_without_kinematics_is_skipped() {
    let track = Track::default();
    let mut global = RngStream::new(42);
    let mut agent = BotAgent::new(&mut global, ProbeConfig::default());
    let state_before = agent.rng.state;
    let out = agent.tick(None, &track, None, None);
    assert!(out.is_none());
    // Untouched: no draw was made, no goals were generated.
    assert_eq!(agent.rng.state, state_before);
    assert_eq!(agent.goals.len(), 0);
}

#[test]
fn tick_replaces_the_goal_set_and_decides() {
    let track = Track::default();
    let mut global = RngStream::new(42);
    let mut agent = BotAgent::new(&mut global, ProbeConfig::default());
    let k = Kinematics {
        position: Point { x: 800_000, y: 0 },
        facing: 0,
        velocity: Point { x: 0, y: 2_000 },
    };
    let out = agent.tick(Some(k), &track, None, None);
    let out = out.expect("a readable snapshot must produce a decision");
    assert_eq!(agent.goals.len(), 2);
    assert!(-1_000 <= out.steering && out.steering <= 1_000);
    // Both goals target straight up from the bot; facing zero means a
    // quarter-turn error: full deflection left, scaled by the aggression.
    assert!(out.accelerate_forward);
    assert!(out.steering >= 0);
}

#[test]
fn equal_seeds_make_equal_bots() {
    // The pipeline is deterministic: two agents forked from equal global
    // streams make identical decisions on identical snapshots.
    let track = Track::default();
    let mut global_a = RngStream::new(99);
    let mut global_b = RngStream::new(99);
    let mut bot_a = BotAgent::new(&mut global_a, ProbeConfig::default());
    let mut bot_b = BotAgent::new(&mut global_b, ProbeConfig::default());
    let k = Kinematics {
        position: Point { x: -300_000, y: 650_000 },
        facing: 3_000,
        velocity: Point { x: -4_000, y: 500 },
    };
    for _ in 0..5 {
        let a = bot_a.tick(Some(k), &track, None, None);
        let b = bot_b.tick(Some(k), &track, None, None);
        assert_eq!(a, b);
    }
}

#[test]
fn forked_streams_are_independent() {
    let mut global = RngStream::new(7);
    let mut first = global.fork_rng();
    let mut second = global.fork_rng();
    assert_ne!(first.state, second.state);
    let draws_first: Vec<u64> = (0..4).map(|_| first.next_u64()).collect();
    let draws_second: Vec<u64> = (0..4).map(|_| second.next_u64()).collect();
    assert_ne!(draws_first, draws_second);
}

#[test]
fn aggression_draws_stay_in_the_unit_interval() {
    let mut rng = RngStream::new(123_456);
    for _ in 0..1_000 {
        let a = rng.next_milli();
        assert!(0 <= a && a <= 1_000);
    }
}

#[test]
fn same_seed_same_draws() {
    let mut a = RngStream::new(31_415);
    let mut b = RngStream::new(31_415);
    for _ in 0..16 {
        assert_eq!(a.next_u64(), b.next_u64());
    }
}

#[test]
fn probe_configuration_is_the_hosts() {
    let p = ProbeConfig::default();
    assert_eq!(p.max_hits, 2);
    assert_eq!(p.max_time_of_impact, 250_000);
    assert!(p.ignore_origin_penetration);
    assert_eq!(p.ignore_mask, CHECKPOINT_LAYER);
    assert_eq!(CHECKPOINT_LAYER, 1 << 5);
}

#[test]
fn default_track_matches_the_host_game() {
    let t = Track::default();
    assert_eq!(t.center, Point { x: 0, y: 0 });
    assert_eq!(t.half_length, 1_600_000);
    assert_eq!(t.radius, 800_000);
    assert_eq!(t.thickness, 600_000);
    assert_eq!(t.interior_radius(), 200_000);
}
