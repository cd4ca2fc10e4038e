use bevy::math::{Quat, Vec3};
use flight_control::fleet::step_spatial_fleet;
use flight_control::input::InputSnapshot;
use flight_control::pipeline::{step_spatial, try_step_spatial};
use flight_control::state::SpatialState;
use flight_control::transform::{compose, Axis, AxisTurn};
use flight_control::units::{
    ANGLE_PER_RADIAN, HEADING_PER_RADIAN, PITCH_STEP, ROLL_GUARD, ROLL_STEP, TURN_SPEED,
};

fn keys(up: bool, down: bool, left: bool, right: bool) -> InputSnapshot {
    InputSnapshot { up, down, left, right }
}

fn none() -> InputSnapshot {
    keys(false, false, false, false)
}

fn attitude(heading: i64, roll: i64, pitch: i64) -> SpatialState {
    SpatialState { heading, roll, pitch }
}

#[test]
fn spatial_constants_are_tenths_of_a_radian() {
    assert_eq!(ANGLE_PER_RADIAN, 1_000);
    assert_eq!(HEADING_PER_RADIAN, 10_000);
    assert_eq!(ROLL_STEP * 10, ANGLE_PER_RADIAN);
    assert_eq!(PITCH_STEP * 10, ANGLE_PER_RADIAN);
    assert_eq!(ROLL_GUARD, ANGLE_PER_RADIAN);
    assert_eq!(TURN_SPEED * ANGLE_PER_RADIAN * 10, HEADING_PER_RADIAN);
}

fn quat_of(turn: &AxisTurn) -> Quat {
    let axis = match turn.axis {
        Axis::X => Vec3::X,
        Axis::Y => Vec3::Y,
        Axis::Z => Vec3::Z,
    };
    Quat::from_axis_angle(axis, (turn.angle as f64 / turn.per_radian as f64) as f32)
}

fn tilt_of(roll: Quat) -> f32 {
    let (axis, angle) = roll.to_axis_angle();
    angle * axis.z
}

#[test]
fn spatial_spawn_is_identity() {
    let state = SpatialState::spawn();
    assert_eq!(state, attitude(0, 0, 0));
    assert_eq!(state.roll_tilt(), 0);
}

#[test]
fn right_for_one_frame_lowers_the_tilt_by_one_step() {
    let mut state = SpatialState::spawn();
    let before = state.roll_tilt();
    assert!(before > -ROLL_GUARD);
    assert!(state.attitude_fits(keys(false, false, false, true)));
    state.integrate_attitude(keys(false, false, false, true));
    assert_eq!(state.roll_tilt(), before - 100);
    assert_eq!(state, attitude(0, -100, 0));
}

#[test]
fn left_for_one_frame_raises_the_tilt_by_one_step() {
    let mut state = SpatialState::spawn();
    state.integrate_attitude(keys(false, false, true, false));
    assert_eq!(state, attitude(0, 100, 0));
}

#[test]
fn left_banks_up_to_the_guard_and_no_further() {
    let mut state = SpatialState::spawn();
    let mut rolls = Vec::new();
    for _ in 0..13 {
        state.integrate_attitude(keys(false, false, true, false));
        rolls.push(state.roll);
    }
    assert_eq!(rolls, vec![100, 200, 300, 400, 500, 600, 700, 800, 900, 1000, 1000, 1000, 1000]);
}

#[test]
fn right_banks_down_to_the_guard_and_no_further() {
    let mut state = SpatialState::spawn();
    for _ in 0..13 {
        state.integrate_attitude(keys(false, false, false, true));
    }
    assert_eq!(state.roll, -1000);
}

#[test]
fn a_tilt_just_under_the_guard_still_banks() {
    let mut state = attitude(0, 999, 0);
    state.integrate_attitude(keys(false, false, true, false));
    assert_eq!(state.roll, 1099);
    state.integrate_attitude(keys(false, false, true, false));
    assert_eq!(state.roll, 1099);
    let mut state = attitude(0, -999, 0);
    state.integrate_attitude(keys(false, false, false, true));
    assert_eq!(state.roll, -1099);
}

#[test]
fn left_and_right_together_cancel_inside_the_guard() {
    let mut state = attitude(0, 300, 0);
    state.integrate_attitude(keys(false, false, true, true));
    assert_eq!(state.roll, 300);
}

#[test]
fn left_and_right_together_at_the_guard_let_only_one_act() {
    let mut state = attitude(0, 1000, 0);
    state.integrate_attitude(keys(false, false, true, true));
    assert_eq!(state.roll, 900);
    let mut state = attitude(0, -1000, 0);
    state.integrate_attitude(keys(false, false, true, true));
    assert_eq!(state.roll, -900);
}

#[test]
fn held_roll_key_switches_auto_centering_off() {
    let mut state = attitude(0, 1000, 0);
    state.integrate_attitude(keys(false, false, true, false));
    assert_eq!(state.roll, 1000);
}

#[test]
fn auto_centering_from_whole_steps_reaches_level_and_stays() {
    let mut state = attitude(0, 300, 0);
    let mut rolls = Vec::new();
    for _ in 0..5 {
        state.integrate_attitude(none());
        rolls.push(state.roll);
    }
    assert_eq!(rolls, vec![200, 100, 0, 0, 0]);
    let mut state = attitude(0, -200, 0);
    state.integrate_attitude(keys(true, false, false, false));
    assert_eq!(state.roll, -100);
    state.integrate_attitude(keys(false, true, false, false));
    assert_eq!(state.roll, 0);
}

#[test]
fn auto_centering_from_a_part_step_swings_within_one_step_of_level() {
    let mut state = attitude(0, 250, 0);
    let mut rolls = Vec::new();
    for _ in 0..6 {
        state.integrate_attitude(none());
        rolls.push(state.roll);
    }
    assert_eq!(rolls, vec![150, 50, -50, 50, -50, 50]);
    let frames_to_center = (250 + ROLL_STEP - 1) / ROLL_STEP;
    assert_eq!(frames_to_center, 3);
    for roll in &rolls[(frames_to_center as usize - 1)..] {
        assert!(roll.abs() < ROLL_STEP);
    }
}

#[test]
fn heading_turns_by_the_tilt_at_the_start_of_the_frame() {
    let mut state = attitude(0, 300, 0);
    state.integrate_attitude(keys(false, false, true, false));
    assert_eq!(state, attitude(-300, 400, 0));
    state.integrate_attitude(none());
    assert_eq!(state, attitude(-700, 300, 0));
    let mut state = attitude(50, -200, 0);
    state.integrate_attitude(keys(false, false, false, true));
    assert_eq!(state, attitude(250, -300, 0));
}

#[test]
fn heading_stays_while_level() {
    let mut state = attitude(1234, 0, 0);
    state.integrate_attitude(none());
    assert_eq!(state, attitude(1234, 0, 0));
}

#[test]
fn spatial_pitch_accumulates_without_bound() {
    let mut state = SpatialState::spawn();
    for _ in 0..50 {
        state.integrate_attitude(keys(true, false, false, false));
    }
    assert_eq!(state.pitch, 5_000);
    for _ in 0..120 {
        state.integrate_attitude(keys(false, true, false, false));
    }
    assert_eq!(state.pitch, -7_000);
}

#[test]
fn spatial_up_and_down_together_cancel() {
    let mut state = attitude(0, 0, 700);
    state.integrate_attitude(keys(true, true, false, false));
    assert_eq!(state.pitch, 700);
}

#[test]
fn compose_orders_heading_then_roll_then_pitch() {
    let rotation = compose(11, 22, 33);
    assert_eq!(
        rotation,
        [
            AxisTurn { axis: Axis::Y, angle: 11, per_radian: 10_000 },
            AxisTurn { axis: Axis::Z, angle: 22, per_radian: 1_000 },
            AxisTurn { axis: Axis::X, angle: 33, per_radian: 1_000 },
        ]
    );
}

#[test]
fn spatial_frame_renders_the_attitude_it_leaves() {
    let mut state = attitude(0, 300, 0);
    let rotation = step_spatial(&mut state, keys(true, false, true, false));
    assert_eq!(state, attitude(-300, 400, 100));
    assert_eq!(rotation, compose(-300, 400, 100));
    assert_eq!(state.synthesize(), rotation);
}

#[test]
fn attitude_fits_tells_when_the_heading_would_overflow() {
    assert!(attitude(i64::MIN + 100, 100, 0).attitude_fits(none()));
    assert!(!attitude(i64::MIN + 99, 100, 0).attitude_fits(none()));
    assert!(attitude(i64::MAX - 100, -100, 0).attitude_fits(none()));
    assert!(!attitude(i64::MAX - 99, -100, 0).attitude_fits(none()));
    assert!(attitude(i64::MAX, 0, 0).attitude_fits(none()));
    assert!(attitude(i64::MIN, 0, 0).attitude_fits(none()));
}

#[test]
fn attitude_fits_tells_when_the_pitch_would_overflow() {
    let up = keys(true, false, false, false);
    let down = keys(false, true, false, false);
    let both = keys(true, true, false, false);
    assert!(attitude(0, 0, i64::MAX - 100).attitude_fits(up));
    assert!(!attitude(0, 0, i64::MAX - 99).attitude_fits(up));
    assert!(attitude(0, 0, i64::MAX - 99).attitude_fits(down));
    assert!(attitude(0, 0, i64::MIN + 100).attitude_fits(down));
    assert!(!attitude(0, 0, i64::MIN + 99).attitude_fits(down));
    assert!(attitude(0, 0, i64::MAX).attitude_fits(both));
    assert!(attitude(0, 0, i64::MIN).attitude_fits(none()));
}

#[test]
fn try_step_spatial_leaves_an_attitude_that_would_overflow() {
    let mut state = attitude(i64::MIN, 100, 0);
    assert_eq!(try_step_spatial(&mut state, none()), None);
    assert_eq!(state, attitude(i64::MIN, 100, 0));
    let mut state = attitude(i64::MIN + 100, 100, 0);
    assert_eq!(try_step_spatial(&mut state, none()), Some(compose(i64::MIN, 0, 0)));
    assert_eq!(state, attitude(i64::MIN, 0, 0));
}

#[test]
fn spatial_fleet_advances_each_aircraft_by_itself() {
    let mut fleet = vec![attitude(0, 300, 0), attitude(i64::MIN, 100, 5), attitude(7, -1000, -50)];
    let input = keys(true, false, false, true);
    let rotations = step_spatial_fleet(&mut fleet, input);
    assert_eq!(
        fleet,
        vec![attitude(-300, 200, 100), attitude(i64::MIN, 100, 5), attitude(1007, -1000, 50)]
    );
    assert_eq!(
        rotations,
        vec![compose(-300, 200, 100), compose(i64::MIN, 100, 5), compose(1007, -1000, 50)]
    );
    let mut reversed = vec![attitude(7, -1000, -50), attitude(i64::MIN, 100, 5), attitude(0, 300, 0)];
    step_spatial_fleet(&mut reversed, input);
    reversed.reverse();
    assert_eq!(reversed, fleet);
}

#[test]
fn spatial_fleet_of_none_is_left_empty() {
    let mut fleet: Vec<SpatialState> = Vec::new();
    let rotations = step_spatial_fleet(&mut fleet, none());
    assert!(fleet.is_empty());
    assert!(rotations.is_empty());
}

#[test]
fn the_roll_tilt_is_the_axis_angle_tilt_of_the_roll_quaternion() {
    let mut roll = -1_099;
    while roll <= 1_099 {
        let state = attitude(0, roll, 0);
        let rotation = state.synthesize();
        let tilt = tilt_of(quat_of(&rotation[1]));
        assert!((tilt - state.roll_tilt() as f32 / 1_000.0).abs() < 1.0e-3);
        roll += 7;
    }
}

#[test]
fn right_for_one_frame_lowers_the_quaternion_tilt_by_a_tenth() {
    let mut state = SpatialState::spawn();
    let before = tilt_of(quat_of(&state.synthesize()[1]));
    assert_eq!(before, 0.0);
    assert!(before > -1.0);
    let rotation = step_spatial(&mut state, keys(false, false, false, true));
    let after = tilt_of(quat_of(&rotation[1]));
    assert!((before - after - 0.1).abs() < 1.0e-3);
}

#[test]
fn the_composed_factors_multiply_to_heading_times_roll_times_pitch() {
    let state = attitude(-7_000, 400, 1_300);
    let rotation = state.synthesize();
    let product = rotation.iter().fold(Quat::IDENTITY, |product, turn| product.mul_quat(quat_of(turn)));
    let heading = Quat::from_axis_angle(Vec3::Y, -0.7);
    let roll = Quat::from_axis_angle(Vec3::Z, 0.4);
    let pitch = Quat::from_axis_angle(Vec3::X, 1.3);
    let expected = heading.mul_quat(roll).mul_quat(pitch);
    assert!(product.abs_diff_eq(expected, 1.0e-5));
    let swapped = pitch.mul_quat(roll).mul_quat(heading);
    assert!(!product.abs_diff_eq(swapped, 1.0e-2));
}

#[test]
fn frames_of_held_keys_add_up_to_the_product_of_their_quaternion_steps() {
    let mut state = SpatialState::spawn();
    let mut heading = Quat::IDENTITY;
    let mut roll = Quat::IDENTITY;
    let mut pitch = Quat::IDENTITY;
    let run = [
        keys(false, false, true, false),
        keys(true, false, true, false),
        keys(true, false, false, false),
        keys(false, true, false, true),
        keys(false, false, false, true),
        keys(true, true, true, true),
        keys(false, false, false, false),
    ];
    for input in run {
        let (axis, angle) = roll.to_axis_angle();
        let tilt = angle * axis.z;
        if input.left && tilt < 1.0 {
            roll *= Quat::from_axis_angle(Vec3::Z, 0.1);
        }
        if input.right && tilt > -1.0 {
            roll *= Quat::from_axis_angle(Vec3::Z, -0.1);
        }
        if !input.left && !input.right {
            if tilt > 0.0 {
                roll *= Quat::from_axis_angle(Vec3::Z, -0.1);
            } else if tilt < 0.0 {
                roll *= Quat::from_axis_angle(Vec3::Z, 0.1);
            }
        }
        if input.up {
            pitch *= Quat::from_axis_angle(Vec3::X, 0.1);
        }
        if input.down {
            pitch *= Quat::from_axis_angle(Vec3::X, -0.1);
        }
        heading *= Quat::from_axis_angle(Vec3::Y, tilt * -0.1);
        let expected = heading.mul_quat(roll).mul_quat(pitch);
        let rotation = step_spatial(&mut state, input);
        let product =
            rotation.iter().fold(Quat::IDENTITY, |product, turn| product.mul_quat(quat_of(turn)));
        assert!(product.abs_diff_eq(expected, 1.0e-3) || product.abs_diff_eq(-expected, 1.0e-3));
    }
    assert_eq!(state, attitude(-200, 0, 100));
}
