//! What holds of the model over all states, all inputs and all runs of frames.
use crate::attitude::{centering_turn, facing_after, flips, roll_turn};
use crate::direction::Direction;
use crate::input::InputSnapshot;
use crate::kinematics::{bearing_of_agreeing_pitch, Bearing};
use crate::speed::{governed_speed, target_speed, target_speed_bounds};
use crate::state::{PlanarModel, SpatialModel};
use crate::transform::{disagrees, flipped_scale, TransformModel};
use crate::units::{
    magnitude, ACCELERATION, BASE_SPEED, PITCH_SCALE, ROLL_GUARD, ROLL_STEP, TURN_SPEED,
};
use vstd::prelude::*;

verus! {

/// The roll tilt after a number of frames of auto-centering.
pub open spec fn centered(tilt: int, frames: nat) -> int
    decreases frames,
{
    if frames == 0 {
        tilt
    } else {
        let before = centered(tilt, (frames - 1) as nat);
        before + centering_turn(before)
    }
}

/// The frames of auto-centering that bring a tilt to within a step of level:
/// its magnitude in steps, rounded up.
pub open spec fn frames_to_center(tilt: int) -> nat {
    ((magnitude(tilt) + ROLL_STEP - 1) / (ROLL_STEP as int)) as nat
}

/// The attitude after a run of frames, one input for each.
pub open spec fn run_spatial(start: SpatialModel, inputs: Seq<InputSnapshot>) -> SpatialModel
    decreases inputs.len(),
{
    if inputs.len() == 0 {
        start
    } else {
        run_spatial(start, inputs.drop_last()).integrate_attitude(inputs.last())
    }
}

/// The planar state after a run of frames, one input and one bearing for
/// each.
pub open spec fn run_planar(
    start: PlanarModel,
    inputs: Seq<InputSnapshot>,
    bearings: Seq<Bearing>,
) -> PlanarModel
    decreases inputs.len(),
{
    if inputs.len() == 0 {
        start
    } else {
        run_planar(start, inputs.drop_last(), bearings.drop_last()).frame(
            inputs.last(),
            bearings.last(),
        )
    }
}

/// One frame of auto-centering moves the tilt by one step toward level and
/// leaves a level tilt alone. A tilt of a step or more comes a step closer
/// and stays on its side. A tilt of less than a step passes level and ends
/// less than a step beyond it.
pub proof fn centering_never_overshoots_by_a_step(tilt: int)
    ensures
        tilt == 0 ==> centered(tilt, 1) == 0,
        tilt != 0 ==> magnitude(centered(tilt, 1) - tilt) == ROLL_STEP,
        magnitude(tilt) >= ROLL_STEP ==> magnitude(centered(tilt, 1)) == magnitude(tilt)
            - ROLL_STEP,
        magnitude(tilt) < ROLL_STEP ==> magnitude(centered(tilt, 1)) < ROLL_STEP,
        tilt > 0 ==> -ROLL_STEP < centered(tilt, 1) < tilt,
        tilt < 0 ==> tilt < centered(tilt, 1) < ROLL_STEP,
{
    reveal_with_fuel(centered, 2);
}

/// While whole steps remain between the tilt and level, each frame of
/// auto-centering takes one of them away.
pub proof fn centering_approaches_level(tilt: int, frames: nat)
    requires
        frames * ROLL_STEP <= magnitude(tilt),
    ensures
        tilt >= 0 ==> centered(tilt, frames) == tilt - frames * ROLL_STEP,
        tilt <= 0 ==> centered(tilt, frames) == tilt + frames * ROLL_STEP,
        magnitude(centered(tilt, frames)) == magnitude(tilt) - frames * ROLL_STEP,
    decreases frames,
{
    if frames > 0 {
        centering_approaches_level(tilt, (frames - 1) as nat);
    }
}

/// Auto-centering brings any tilt to within a step of level in as many frames
/// as its magnitude has steps, rounded up, and keeps it there in every frame
/// after.
pub proof fn centering_converges(tilt: int, frames: nat)
    requires
        frames >= frames_to_center(tilt),
    ensures
        magnitude(centered(tilt, frames)) < ROLL_STEP,
        magnitude(tilt) % (ROLL_STEP as int) == 0 ==> centered(tilt, frames) == 0,
    decreases frames,
{
    if frames == 0 {
    } else if (frames - 1) * ROLL_STEP < magnitude(tilt) {
        centering_approaches_level(tilt, (frames - 1) as nat);
    } else {
        centering_converges(tilt, (frames - 1) as nat);
    }
}

/// A frame with neither Left nor Right held applies the auto-centering rule to
/// the roll, whatever else is held.
pub proof fn hands_off_frame_centers(attitude: SpatialModel, input: InputSnapshot)
    requires
        !input.left,
        !input.right,
    ensures
        attitude.integrate_attitude(input).roll_tilt() == centered(attitude.roll_tilt(), 1),
{
    reveal_with_fuel(centered, 2);
}

/// Over a run of frames with neither Left nor Right held, the roll tilt goes
/// the way of auto-centering: it is within a step of level once the run is as
/// long as the starting tilt has steps, rounded up.
pub proof fn hands_off_run_centers(start: SpatialModel, inputs: Seq<InputSnapshot>)
    requires
        forall|i: int| 0 <= i < inputs.len() ==> !inputs[i].left && !inputs[i].right,
    ensures
        run_spatial(start, inputs).roll_tilt() == centered(start.roll_tilt(), inputs.len()),
        inputs.len() >= frames_to_center(start.roll_tilt()) ==> magnitude(
            run_spatial(start, inputs).roll_tilt(),
        ) < ROLL_STEP,
    decreases inputs.len(),
{
    if inputs.len() > 0 {
        hands_off_run_centers(start, inputs.drop_last());
    }
    if inputs.len() >= frames_to_center(start.roll_tilt()) {
        centering_converges(start.roll_tilt(), inputs.len());
    }
}

/// No frame moves the roll by more than one step, and a roll inside the band
/// of one step beyond the guard stays inside it. A roll of whole steps within
/// the guard, as every roll is that began level, stays one.
pub proof fn roll_stays_in_band(attitude: SpatialModel, input: InputSnapshot)
    ensures
        magnitude(roll_turn(attitude.roll_tilt(), input)) <= ROLL_STEP,
        attitude.in_roll_band() ==> attitude.integrate_attitude(input).in_roll_band(),
        attitude.roll % (ROLL_STEP as int) == 0 && magnitude(attitude.roll) <= ROLL_GUARD ==> {
            &&& attitude.integrate_attitude(input).roll % (ROLL_STEP as int) == 0
            &&& magnitude(attitude.integrate_attitude(input).roll) <= ROLL_GUARD
        },
{
}

/// The heading turns by a tenth of the roll tilt against its sign, whatever
/// is held, and not at all while the roll is level.
pub proof fn heading_follows_bank(attitude: SpatialModel, input: InputSnapshot)
    ensures
        attitude.integrate_attitude(input).heading - attitude.heading == -(TURN_SPEED
            * attitude.roll_tilt()),
        attitude.roll_tilt() == 0 ==> attitude.integrate_attitude(input).heading
            == attitude.heading,
        attitude.roll_tilt() > 0 ==> attitude.integrate_attitude(input).heading
            < attitude.heading,
        attitude.roll_tilt() < 0 ==> attitude.integrate_attitude(input).heading
            > attitude.heading,
{
}

/// The planar pitch lies between the two full deflections after every frame,
/// whatever the pitch was before and whatever is held.
pub proof fn pitch_in_range_after_frame(state: PlanarModel, input: InputSnapshot, bearing: Bearing)
    ensures
        state.integrate_attitude(input).pitch_in_range(),
        state.frame(input, bearing).pitch_in_range(),
        state.frame(input, bearing).pitch == state.integrate_attitude(input).pitch,
{
}

/// The planar pitch lies between the two full deflections after every run of
/// one frame or more, whatever the starting pitch and whatever is held in
/// each frame.
pub proof fn pitch_in_range_after_run(
    start: PlanarModel,
    inputs: Seq<InputSnapshot>,
    bearings: Seq<Bearing>,
)
    requires
        inputs.len() > 0,
    ensures
        run_planar(start, inputs, bearings).pitch_in_range(),
{
    pitch_in_range_after_frame(
        run_planar(start, inputs.drop_last(), bearings.drop_last()),
        inputs.last(),
        bearings.last(),
    );
}

/// A frame keeps the invariant of the planar model, and leaves the speed at
/// or under the target of the pitch it leaves.
pub proof fn frame_keeps_invariant(state: PlanarModel, input: InputSnapshot, bearing: Bearing)
    requires
        state.speed >= 0,
    ensures
        state.frame(input, bearing).wf(),
        state.frame(input, bearing).speed <= target_speed(state.frame(input, bearing).pitch),
        state.frame(input, bearing).speed <= 2 * BASE_SPEED,
{
    target_speed_bounds(state.integrate_attitude(input).pitch);
}

/// Left held while facing right, or Right held while facing left, sets the
/// speed to the base speed in the attitude stage of that frame, whatever the
/// speed was. The speed stage of the same frame then governs from the base
/// speed.
pub proof fn flip_resets_speed(state: PlanarModel, input: InputSnapshot, bearing: Bearing)
    requires
        (input.left && state.direction == Direction::RightFacing) || (input.right
            && state.direction == Direction::LeftFacing),
    ensures
        flips(state.direction, input),
        state.integrate_attitude(input).speed == BASE_SPEED,
        state.frame(input, bearing).speed == governed_speed(
            BASE_SPEED as int,
            state.integrate_attitude(input).pitch,
        ),
        !(input.left && input.right) ==> state.integrate_attitude(input).direction
            == state.direction.opposite(),
{
}

/// The facing after a frame is right where Right is held, left where only
/// Left is held, and what it was where neither is.
pub proof fn facing_follows_the_keys(direction: Direction, input: InputSnapshot)
    ensures
        input.right ==> facing_after(direction, input) == Direction::RightFacing,
        input.left && !input.right ==> facing_after(direction, input) == Direction::LeftFacing,
        !input.left && !input.right ==> facing_after(direction, input) == direction,
        facing_after(direction, input) != direction ==> flips(direction, input),
{
}

/// In a frame in which the facing does not flip, the attitude stage leaves
/// facing and speed untouched.
pub proof fn no_flip_keeps_speed(state: PlanarModel, input: InputSnapshot)
    requires
        !flips(state.direction, input),
    ensures
        state.integrate_attitude(input).speed == state.speed,
        state.integrate_attitude(input).direction == state.direction,
{
}

/// The speed stage never raises the speed by more than the acceleration, and
/// never leaves it above the target. Where the target is under the speed, the
/// speed falls to the target at once, however far that is.
pub proof fn speed_rises_slowly_falls_at_once(speed: int, pitch: int)
    ensures
        governed_speed(speed, pitch) <= speed + ACCELERATION,
        governed_speed(speed, pitch) <= target_speed(pitch),
        target_speed(pitch) <= speed ==> governed_speed(speed, pitch) == target_speed(pitch),
        target_speed(pitch) >= speed + ACCELERATION ==> governed_speed(speed, pitch) == speed
            + ACCELERATION,
{
}

/// Over a whole frame in which the facing does not flip, the speed rises by
/// the acceleration at most.
pub proof fn frame_speed_rises_slowly(state: PlanarModel, input: InputSnapshot, bearing: Bearing)
    requires
        !flips(state.direction, input),
    ensures
        state.frame(input, bearing).speed <= state.speed + ACCELERATION,
{
}

/// After the horizontal scale was held to the facing, its sign is that of the
/// facing, whatever its sign was before; its magnitude is unchanged. A scale
/// of nothing has no sign to match and stays nothing.
pub proof fn flip_matches_direction(transform: TransformModel, direction: Direction)
    ensures
        transform.scale_x != 0 ==> transform.set_flip_from_direction(direction).scale_x
            * direction.sign() > 0,
        !disagrees(transform.set_flip_from_direction(direction).scale_x, direction),
        magnitude(transform.set_flip_from_direction(direction).scale_x) == magnitude(
            transform.scale_x,
        ),
        transform.scale_x == 0 ==> transform.set_flip_from_direction(direction).scale_x == 0,
{
    assert(direction.sign() == 1 || direction.sign() == -1);
}

/// Holding the scale to the facing a second time changes nothing.
pub proof fn flip_is_idempotent(transform: TransformModel, direction: Direction)
    ensures
        transform.set_flip_from_direction(direction).set_flip_from_direction(direction)
            == transform.set_flip_from_direction(direction),
        flipped_scale(flipped_scale(transform.scale_x, direction), direction) == flipped_scale(
            transform.scale_x,
            direction,
        ),
{
    assert(direction.sign() == 1 || direction.sign() == -1);
}

/// While the aircraft climbs short of the vertical with some speed, the
/// kinematics stage raises its height, whatever its facing. Level flight
/// keeps the height, and a vertical climb moves nowhere sideways.
pub proof fn climb_raises_height(state: PlanarModel, bearing: Bearing)
    requires
        bearing.agrees_with(state.pitch),
        state.speed >= 0,
    ensures
        state.pitch > 0 && state.speed > 0 ==> state.advance(bearing).position.y
            > state.position.y,
        state.pitch < 0 && state.speed > 0 ==> state.advance(bearing).position.y
            < state.position.y,
        state.pitch == 0 ==> state.advance(bearing).position.y == state.position.y,
        magnitude(state.pitch) == PITCH_SCALE ==> state.advance(bearing).position.x
            == state.position.x,
{
    bearing_of_agreeing_pitch(bearing, state.pitch);
    let sin: int = bearing.sin as int;
    let cos: int = bearing.cos as int;
    let speed: int = state.speed;
    assert(sin > 0 && speed > 0 ==> sin * speed > 0) by (nonlinear_arith);
    assert(sin < 0 && speed > 0 ==> sin * speed < 0) by (nonlinear_arith);
    assert(sin == 0 ==> sin * speed == 0) by (nonlinear_arith);
    assert(cos == 0 ==> cos * speed * state.direction.sign() == 0) by (nonlinear_arith);
}

} // verus!
