//! One frame of each model: the stages in their fixed order. Each stage reads
//! what the stages before it left in the same frame.
use crate::input::InputSnapshot;
use crate::kinematics::Bearing;
use crate::state::{PlanarModel, PlanarState, SpatialState};
use crate::transform::{AxisTurn, PlanarTransform, TransformModel};
use vstd::prelude::*;

verus! {

/// Runs one frame of the spatial model: the attitude stage, then the
/// transform stage. Returns the rotation to render.
pub fn step_spatial(state: &mut SpatialState, input: InputSnapshot) -> (rotation: [AxisTurn; 3])
    requires
        old(state)@.attitude_fits(input),
    ensures
        final(state)@ == old(state)@.integrate_attitude(input),
        rotation@ == final(state).orientation(),
{
    state.integrate_attitude(input);
    state.synthesize()
}

/// Runs one frame of the spatial model where its result fits the machine's
/// integers, and leaves the attitude as it is where it does not.
pub fn try_step_spatial(state: &mut SpatialState, input: InputSnapshot) -> (rotation: Option<
    [AxisTurn; 3],
>)
    ensures
        rotation is Some <==> old(state)@.attitude_fits(input),
        rotation is Some ==> final(state)@ == old(state)@.integrate_attitude(input)
            && rotation->Some_0@ == final(state).orientation(),
        rotation is None ==> *final(state) == *old(state),
{
    if state.attitude_fits(input) {
        Some(step_spatial(state, input))
    } else {
        None
    }
}

impl PlanarModel {
    /// The state after one frame: the attitude stage, then the speed stage,
    /// then the kinematics stage. `bearing` is that of the pitch which the
    /// attitude stage leaves.
    pub open spec fn frame(self, input: InputSnapshot, bearing: Bearing) -> PlanarModel {
        self.integrate_attitude(input).govern_speed().advance(bearing)
    }

    /// Whether one frame can run from this state: the bearing agrees with the
    /// pitch that the attitude stage leaves, and the position and the scale
    /// are within what the machine's integers take.
    pub open spec fn frame_ready(
        self,
        input: InputSnapshot,
        bearing: Bearing,
        transform: TransformModel,
    ) -> bool {
        &&& bearing.agrees_with(self.integrate_attitude(input).pitch)
        &&& self.position.within_limit()
        &&& transform.can_flip()
    }
}

impl PlanarState {
    /// Whether `step_planar` can take this state with these arguments.
    pub fn frame_ready(&self, input: InputSnapshot, bearing: Bearing, transform: &PlanarTransform) -> (ok:
        bool)
        ensures
            ok == self@.frame_ready(input, bearing, transform@),
    {
        let pitch: i64 = self.pitch_after(input);
        bearing.matches_pitch(pitch) && self.position.within_limit() && transform.scale_x
            > i64::MIN
    }
}

/// Runs one frame of the planar model: attitude, speed, kinematics and
/// transform, in that order. `bearing` is that of `state.pitch_after(input)`.
pub fn step_planar(
    state: &mut PlanarState,
    input: InputSnapshot,
    bearing: Bearing,
    transform: &mut PlanarTransform,
)
    requires
        old(state)@.frame_ready(input, bearing, old(transform)@),
    ensures
        final(state)@ == old(state)@.frame(input, bearing),
        final(transform)@ == final(state)@.synthesize(old(transform)@),
        final(state)@.wf(),
        final(transform)@.can_flip(),
{
    state.integrate_attitude(input);
    state.govern_speed();
    state.advance(bearing);
    state.synthesize(transform);
}

/// Runs one frame of the planar model where `step_planar` can take the
/// arguments, and leaves state and transform as they are where it cannot.
pub fn try_step_planar(
    state: &mut PlanarState,
    input: InputSnapshot,
    bearing: Bearing,
    transform: &mut PlanarTransform,
) -> (done: bool)
    ensures
        done == old(state)@.frame_ready(input, bearing, old(transform)@),
        done ==> final(state)@ == old(state)@.frame(input, bearing) && final(transform)@
            == final(state)@.synthesize(old(transform)@),
        !done ==> *final(state) == *old(state) && *final(transform) == *old(transform),
{
    if state.frame_ready(input, bearing, transform) {
        step_planar(state, input, bearing, transform);
        true
    } else {
        false
    }
}

} // verus!
