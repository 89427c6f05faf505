use bot_controller::angle::DEADZONE;
use bot_controller::angle::HALF_TURN;
use bot_controller::angle::QUARTER_TURN;
use bot_controller::geom::Point;
use bot_controller::steering::SteeringOutcome;
use bot_controller::steering::decide_steering;
use bot_controller::steering::drive_from_delta;

#[test]
fn deadzone_suppresses_marginal_rotation() {
    // A bearing error of a one-hundred-twenty-eighth turn is below the
    // sixty-fourth-turn deadzone: no steering at all.
    let r = drive_from_delta(HALF_TURN / 128, 1_000);
    assert_eq!(r, SteeringOutcome { accelerate_forward: true, steering: 0 });
    let l = drive_from_delta(-HALF_TURN / 128, 1_000);
    assert_eq!(l, SteeringOutcome { accelerate_forward: true, steering: 0 });
}

#[test]
fn deadzone_boundary_is_sharp() {
    assert_eq!(drive_from_delta(DEADZONE - 1, 1_000).steering, 0);
    assert!(drive_from_delta(DEADZONE, 1_000).steering > 0);
}

#[test]
fn zero_error_drives_forward_and_straight() {
    let r = drive_from_delta(0, 1_000);
    assert_eq!(r, SteeringOutcome { accelerate_forward: true, steering: 0 });
}

#[test]
fn reverse_flip_beyond_a_quarter_turn() {
    // Three eighths of a turn off: reversing is cheaper, and the steering
    // sign is the negation of the error's sign.
    let r = drive_from_delta(3 * HALF_TURN / 4, 777);
    assert_eq!(r, SteeringOutcome { accelerate_forward: false, steering: -777 });
    let l = drive_from_delta(-3 * HALF_TURN / 4, 777);
    assert_eq!(l, SteeringOutcome { accelerate_forward: false, steering: 777 });
}

#[test]
fn reverse_boundary_is_sharp() {
    assert!(drive_from_delta(QUARTER_TURN, 500).accelerate_forward);
    assert!(!drive_from_delta(QUARTER_TURN + 1, 500).accelerate_forward);
}

#[test]
fn aggression_saturates_at_a_quarter_turn() {
    // At exactly a quarter turn the normalized error is one, so the
    // magnitude equals the aggression.
    let r = drive_from_delta(QUARTER_TURN, 777);
    assert_eq!(r, SteeringOutcome { accelerate_forward: true, steering: 777 });
    let l = drive_from_delta(-QUARTER_TURN, 777);
    assert_eq!(l, SteeringOutcome { accelerate_forward: true, steering: -777 });
}

#[test]
fn steering_scales_linearly_below_saturation() {
    // An eighth of a turn is half the saturation error: half the
    // aggression.
    let r = drive_from_delta(QUARTER_TURN / 2, 1_000);
    assert_eq!(r, SteeringOutcome { accelerate_forward: true, steering: 500 });
}

#[test]
fn zero_aggression_never_steers() {
    for delta in [0i64, 100, DEADZONE, QUARTER_TURN, QUARTER_TURN + 5, HALF_TURN] {
        assert_eq!(drive_from_delta(delta, 0).steering, 0);
    }
}

#[test]
fn steering_stays_within_the_unit_interval() {
    for delta in [-HALF_TURN + 1, -9_000, -DEADZONE, 0, DEADZONE, 5_000, HALF_TURN] {
        for aggression in [0i64, 1, 499, 1_000] {
            let r = drive_from_delta(delta, aggression);
            assert!(-1_000 <= r.steering && r.steering <= 1_000);
        }
    }
}

#[test]
fn decision_toward_a_target_straight_ahead() {
    // Facing the target exactly: forward, no steering.
    let r = decide_steering(Point { x: 0, y: 0 }, 0, Point { x: 100_000, y: 0 }, 900);
    assert_eq!(r, SteeringOutcome { accelerate_forward: true, steering: 0 });
}

#[test]
fn decision_toward_a_target_behind() {
    // The target is straight behind: a half-turn error, so reverse.
    let r = decide_steering(Point { x: 0, y: 0 }, 0, Point { x: -100_000, y: 0 }, 1_000);
    assert!(!r.accelerate_forward);
    assert_eq!(r.steering, -1_000);
}

#[test]
fn decision_toward_a_target_to_the_left() {
    // The target is a quarter turn to the left: forward at full deflection.
    let r = decide_steering(Point { x: 0, y: 0 }, 0, Point { x: 0, y: 100_000 }, 1_000);
    assert_eq!(r, SteeringOutcome { accelerate_forward: true, steering: 1_000 });
}
