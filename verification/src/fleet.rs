//! Many aircraft under one input. Each aircraft owns its state, and a frame
//! takes each through the pipeline by itself: what one becomes depends on
//! nothing but its own state and the frame's input.
use crate::input::InputSnapshot;
use crate::kinematics::Bearing;
use crate::pipeline::{try_step_planar, try_step_spatial};
use crate::state::{PlanarModel, PlanarState, SpatialModel, SpatialState};
use crate::transform::{AxisTurn, PlanarTransform, TransformModel};
use vstd::prelude::*;

verus! {

impl SpatialModel {
    /// The attitude after one frame where that fits the machine's integers,
    /// and the attitude as it is where it does not.
    pub open spec fn try_frame(self, input: InputSnapshot) -> SpatialModel {
        if self.attitude_fits(input) {
            self.integrate_attitude(input)
        } else {
            self
        }
    }
}

/// Runs one frame of the spatial model for every aircraft of the fleet, and
/// returns the rotation to render for each, in the fleet's order. An aircraft
/// whose next attitude would not fit the machine's integers stays as it is.
pub fn step_spatial_fleet(fleet: &mut Vec<SpatialState>, input: InputSnapshot) -> (rotations: Vec<
    [AxisTurn; 3],
>)
    ensures
        final(fleet)@.len() == old(fleet)@.len(),
        rotations@.len() == old(fleet)@.len(),
        forall|i: int|
            0 <= i < old(fleet)@.len() ==> {
                &&& (#[trigger] final(fleet)@[i])@ == old(fleet)@[i]@.try_frame(input)
                &&& rotations@[i]@ == final(fleet)@[i].orientation()
            },
{
    let count: usize = fleet.len();
    let mut rotations: Vec<[AxisTurn; 3]> = Vec::new();
    let mut index: usize = 0;
    while index < count
        invariant
            index <= count,
            fleet@.len() == count,
            old(fleet)@.len() == count,
            rotations@.len() == index,
            forall|i: int|
                0 <= i < index ==> {
                    &&& (#[trigger] fleet@[i])@ == old(fleet)@[i]@.try_frame(input)
                    &&& rotations@[i]@ == fleet@[i].orientation()
                },
            forall|i: int| index <= i < count ==> #[trigger] fleet@[i] == old(fleet)@[i],
        decreases count - index,
    {
        let mut state: SpatialState = fleet[index];
        let rotation: [AxisTurn; 3] = match try_step_spatial(&mut state, input) {
            Some(rotation) => rotation,
            None => state.synthesize(),
        };
        fleet[index] = state;
        rotations.push(rotation);
        index = index + 1;
    }
    rotations
}

/// One aircraft of the planar model with the transform that a renderer draws
/// for it.
#[derive(Clone, Copy, Debug, PartialEq, Eq, Structural)]
pub struct PlanarAircraft {
    pub state: PlanarState,
    pub transform: PlanarTransform,
}

/// A planar aircraft over unbounded integers.
pub struct PlanarAircraftModel {
    pub state: PlanarModel,
    pub transform: TransformModel,
}

impl View for PlanarAircraft {
    type V = PlanarAircraftModel;

    open spec fn view(&self) -> PlanarAircraftModel {
        PlanarAircraftModel { state: self.state@, transform: self.transform@ }
    }
}

impl PlanarAircraftModel {
    /// The aircraft after one frame where the frame can run, and the aircraft
    /// as it is where it cannot.
    pub open spec fn try_frame(self, input: InputSnapshot, bearing: Bearing) -> PlanarAircraftModel {
        if self.state.frame_ready(input, bearing, self.transform) {
            PlanarAircraftModel {
                state: self.state.frame(input, bearing),
                transform: self.state.frame(input, bearing).synthesize(self.transform),
            }
        } else {
            self
        }
    }
}

/// Runs one frame of the planar model for every aircraft of the fleet.
/// `bearings` holds, in the fleet's order, the bearing of the pitch that the
/// attitude stage will leave each aircraft. Returns how many aircraft ran the
/// frame; one for which the frame cannot run stays as it is.
pub fn step_planar_fleet(
    fleet: &mut Vec<PlanarAircraft>,
    input: InputSnapshot,
    bearings: &Vec<Bearing>,
) -> (ran: usize)
    requires
        bearings@.len() == old(fleet)@.len(),
    ensures
        final(fleet)@.len() == old(fleet)@.len(),
        forall|i: int|
            0 <= i < old(fleet)@.len() ==> (#[trigger] final(fleet)@[i])@ == old(fleet)@[i]@.try_frame(
                input,
                bearings@[i],
            ),
        ran <= old(fleet)@.len(),
        ran == old(fleet)@.len() <==> forall|i: int|
            0 <= i < old(fleet)@.len() ==> (#[trigger] old(fleet)@[i])@.state.frame_ready(
                input,
                bearings@[i],
                old(fleet)@[i]@.transform,
            ),
{
    let count: usize = fleet.len();
    let mut ran: usize = 0;
    let mut index: usize = 0;
    while index < count
        invariant
            index <= count,
            ran <= index,
            fleet@.len() == count,
            old(fleet)@.len() == count,
            bearings@.len() == count,
            forall|i: int|
                0 <= i < index ==> (#[trigger] fleet@[i])@ == old(fleet)@[i]@.try_frame(
                    input,
                    bearings@[i],
                ),
            forall|i: int| index <= i < count ==> #[trigger] fleet@[i] == old(fleet)@[i],
            ran == index <==> forall|i: int|
                0 <= i < index ==> (#[trigger] old(fleet)@[i])@.state.frame_ready(
                    input,
                    bearings@[i],
                    old(fleet)@[i]@.transform,
                ),
        decreases count - index,
    {
        let mut aircraft: PlanarAircraft = fleet[index];
        let mut state: PlanarState = aircraft.state;
        let mut transform: PlanarTransform = aircraft.transform;
        let done: bool = try_step_planar(&mut state, input, bearings[index], &mut transform);
        aircraft.state = state;
        aircraft.transform = transform;
        fleet[index] = aircraft;
        if done {
            ran = ran + 1;
        }
        index = index + 1;
    }
    ran
}

} // verus!
