//! The state of one aircraft in each of the two models, and the mathematical
//! values that the contracts speak of.
use crate::direction::Direction;
use crate::units::{BASE_SPEED, PITCH_SCALE, POSITION_LIMIT, ROLL_GUARD, ROLL_STEP};
use vstd::prelude::*;

verus! {

/// The attitude of the spatial model as three unbounded angles.
pub struct SpatialModel {
    /// Turn about the vertical axis, in heading units.
    pub heading: int,
    /// Turn about the forward axis, in angle units.
    pub roll: int,
    /// Turn about the sideways axis, in angle units.
    pub pitch: int,
}

/// The attitude of an aircraft in the spatial model. Each of the three
/// rotations turns about one fixed axis, so each is held as its angle.
#[derive(Clone, Copy, Debug, PartialEq, Eq, Structural)]
pub struct SpatialState {
    /// Turn about the vertical axis, in heading units.
    pub heading: i64,
    /// Turn about the forward axis, in angle units. It centers itself.
    pub roll: i64,
    /// Turn about the sideways axis, in angle units. Nothing bounds it.
    pub pitch: i64,
}

impl View for SpatialState {
    type V = SpatialModel;

    open spec fn view(&self) -> SpatialModel {
        SpatialModel { heading: self.heading as int, roll: self.roll as int, pitch: self.pitch as int }
    }
}

impl SpatialModel {
    /// The roll tilt: the component of the roll's rotation vector along the
    /// roll axis. The roll turns about that axis alone, so the tilt is the
    /// roll angle itself, positive when banked to the left.
    pub open spec fn roll_tilt(self) -> int {
        self.roll
    }

    /// The band of roll that keys and auto-centering never leave: short of one
    /// step beyond the guard on either side.
    pub open spec fn in_roll_band(self) -> bool {
        -(ROLL_GUARD + ROLL_STEP) < self.roll < ROLL_GUARD + ROLL_STEP
    }
}

impl SpatialState {
    /// The attitude at spawn: no turn about any axis.
    pub fn spawn() -> (state: SpatialState)
        ensures
            state@ == (SpatialModel { heading: 0, roll: 0, pitch: 0 }),
            state@.in_roll_band(),
    {
        SpatialState { heading: 0, roll: 0, pitch: 0 }
    }

    /// The roll tilt of this attitude.
    pub fn roll_tilt(&self) -> (tilt: i64)
        ensures
            tilt == self@.roll_tilt(),
    {
        self.roll
    }
}

/// A point of the plane as two unbounded coordinates, in position units.
pub struct PointModel {
    pub x: int,
    pub y: int,
}

/// A point of the plane, in position units.
#[derive(Clone, Copy, Debug, PartialEq, Eq, Structural)]
pub struct Position {
    pub x: i128,
    pub y: i128,
}

impl View for Position {
    type V = PointModel;

    open spec fn view(&self) -> PointModel {
        PointModel { x: self.x as int, y: self.y as int }
    }
}

impl PointModel {
    /// Whether one more frame of motion from here fits the machine's integers.
    pub open spec fn within_limit(self) -> bool {
        &&& -POSITION_LIMIT <= self.x <= POSITION_LIMIT
        &&& -POSITION_LIMIT <= self.y <= POSITION_LIMIT
    }
}

impl Position {
    /// Whether one more frame of motion from here fits the machine's integers.
    pub fn within_limit(&self) -> (ok: bool)
        ensures
            ok == self@.within_limit(),
    {
        -POSITION_LIMIT <= self.x && self.x <= POSITION_LIMIT && -POSITION_LIMIT <= self.y
            && self.y <= POSITION_LIMIT
    }
}

/// The state of the planar model over unbounded integers.
pub struct PlanarModel {
    /// Pitch in pitch units; the full deflection up is `PITCH_SCALE`.
    pub pitch: int,
    /// The facing.
    pub direction: Direction,
    /// Speed in speed units.
    pub speed: int,
    /// Position in position units.
    pub position: PointModel,
}

/// The state of an aircraft in the planar model.
#[derive(Clone, Copy, Debug, PartialEq, Eq, Structural)]
pub struct PlanarState {
    /// Pitch in pitch units; the full deflection up is `PITCH_SCALE`.
    pub pitch: i64,
    /// The facing.
    pub direction: Direction,
    /// Speed in speed units.
    pub speed: u64,
    /// Position in position units.
    pub position: Position,
}

impl View for PlanarState {
    type V = PlanarModel;

    open spec fn view(&self) -> PlanarModel {
        PlanarModel {
            pitch: self.pitch as int,
            direction: self.direction,
            speed: self.speed as int,
            position: self.position@,
        }
    }
}

impl PlanarModel {
    /// Whether the pitch lies between the two full deflections.
    pub open spec fn pitch_in_range(self) -> bool {
        -PITCH_SCALE <= self.pitch <= PITCH_SCALE
    }

    /// The invariant of the planar model: the pitch is in range and the speed
    /// is not negative.
    pub open spec fn wf(self) -> bool {
        &&& self.pitch_in_range()
        &&& self.speed >= 0
    }
}

impl PlanarState {
    /// The state at spawn: level, facing right, at the base speed, at the
    /// origin.
    pub fn spawn() -> (state: PlanarState)
        ensures
            state@ == (PlanarModel {
                pitch: 0,
                direction: Direction::RightFacing,
                speed: BASE_SPEED as int,
                position: PointModel { x: 0, y: 0 },
            }),
            state@.wf(),
    {
        PlanarState {
            pitch: 0,
            direction: Direction::RightFacing,
            speed: BASE_SPEED,
            position: Position { x: 0, y: 0 },
        }
    }

    /// Whether the pitch lies between the two full deflections.
    pub fn pitch_in_range(&self) -> (ok: bool)
        ensures
            ok == self@.pitch_in_range(),
    {
        -PITCH_SCALE <= self.pitch && self.pitch <= PITCH_SCALE
    }
}

} // verus!
