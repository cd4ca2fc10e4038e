//! The kinematics integrator of the planar model: the third stage of a frame.
//!
//! The pitch is mapped through a quarter turn: the full deflection up is a
//! vertical climb and no pitch is level flight. The cosine and sine of that
//! angle are not integer arithmetic. The caller supplies them as a `Bearing`,
//! and this stage holds them to what is known of them without computing them.
use crate::direction::Direction;
use crate::state::{PlanarModel, PlanarState, PointModel, Position};
use crate::units::{magnitude, BEARING_PER_PITCH, BEARING_SCALE, HALF_PI_BOUND, PITCH_SCALE};
use vstd::prelude::*;

verus! {

/// The cosine and sine of the pitch angle, each in bearing units.
#[derive(Clone, Copy, Debug, PartialEq, Eq, Structural)]
pub struct Bearing {
    /// The share of the speed that moves the aircraft along its facing.
    pub cos: i64,
    /// The share of the speed that moves the aircraft upward.
    pub sin: i64,
}

impl Bearing {
    /// Whether the components can be those of an angle between a quarter turn
    /// down and a quarter turn up: the cosine between nothing and one, the
    /// sine between minus one and one.
    pub open spec fn in_range(self) -> bool {
        &&& 0 <= self.cos <= BEARING_SCALE
        &&& -BEARING_SCALE <= self.sin <= BEARING_SCALE
    }

    /// Whether the components can be those of the angle of `pitch`.
    ///
    /// The sine of a share of a quarter turn is at least that share and at
    /// most half of pi times that share. So the sine has the sign of the
    /// pitch, and its magnitude lies between the pitch's magnitude and that
    /// magnitude times a bound on half of pi. The cosine is the sine of what
    /// the pitch lacks to the full deflection, and lies in the same bracket of
    /// that. Level flight therefore has the cosine one and the sine nothing,
    /// and a full deflection has the cosine nothing and the sine one or minus
    /// one.
    pub open spec fn agrees_with(self, pitch: int) -> bool {
        let rise = magnitude(pitch);
        let run = PITCH_SCALE - rise;
        &&& self.in_range()
        &&& -PITCH_SCALE <= pitch <= PITCH_SCALE
        &&& (pitch >= 0 ==> self.sin >= 0)
        &&& (pitch <= 0 ==> self.sin <= 0)
        &&& BEARING_PER_PITCH * rise <= magnitude(self.sin as int) <= HALF_PI_BOUND * rise
        &&& BEARING_PER_PITCH * run <= self.cos <= HALF_PI_BOUND * run
    }

    /// Whether the components can be those of the angle of `pitch`.
    pub fn matches_pitch(&self, pitch: i64) -> (ok: bool)
        ensures
            ok == self.agrees_with(pitch as int),
    {
        let in_range: bool = 0 <= self.cos && self.cos <= BEARING_SCALE && -BEARING_SCALE
            <= self.sin && self.sin <= BEARING_SCALE;
        let pitch_in_range: bool = -PITCH_SCALE <= pitch && pitch <= PITCH_SCALE;
        if !in_range || !pitch_in_range {
            return false;
        }
        let rise: i64 = if pitch < 0 { -pitch } else { pitch };
        let run: i64 = PITCH_SCALE - rise;
        let sin_size: i64 = if self.sin < 0 { -self.sin } else { self.sin };
        let signs_agree: bool = (pitch < 0 || self.sin >= 0) && (pitch > 0 || self.sin <= 0);
        let sin_bracketed: bool = BEARING_PER_PITCH * rise <= sin_size && sin_size
            <= HALF_PI_BOUND * rise;
        let cos_bracketed: bool = BEARING_PER_PITCH * run <= self.cos && self.cos
            <= HALF_PI_BOUND * run;
        signs_agree && sin_bracketed && cos_bracketed
    }
}

/// What a bearing that agrees with a pitch is known to be: the sine has the
/// sign of the pitch, the cosine is positive short of a full deflection, and
/// level flight and the two full deflections have their exact bearings.
pub proof fn bearing_of_agreeing_pitch(bearing: Bearing, pitch: int)
    requires
        bearing.agrees_with(pitch),
    ensures
        pitch > 0 <==> bearing.sin > 0,
        pitch < 0 <==> bearing.sin < 0,
        -PITCH_SCALE < pitch < PITCH_SCALE <==> bearing.cos > 0,
        pitch == 0 ==> bearing.cos == BEARING_SCALE && bearing.sin == 0,
        pitch == PITCH_SCALE ==> bearing.cos == 0 && bearing.sin == BEARING_SCALE,
        pitch == -PITCH_SCALE ==> bearing.cos == 0 && bearing.sin == -BEARING_SCALE,
{
}

/// The motion of one frame, in position units. The horizontal part is the
/// cosine times the speed, turned to the side of the facing. The vertical part
/// is the sine times the speed, whatever the facing.
pub open spec fn displacement(bearing: Bearing, speed: int, direction: Direction) -> PointModel {
    PointModel { x: bearing.cos * speed * direction.sign(), y: bearing.sin * speed }
}

impl PlanarModel {
    /// The state after the kinematics stage of one frame: only the position
    /// changes, by the displacement of the frame.
    pub open spec fn advance(self, bearing: Bearing) -> PlanarModel {
        let moved = displacement(bearing, self.speed, self.direction);
        PlanarModel {
            position: PointModel { x: self.position.x + moved.x, y: self.position.y + moved.y },
            ..self
        }
    }
}

/// Computes the motion of one frame.
pub fn frame_displacement(bearing: Bearing, speed: u64, direction: Direction) -> (moved: Position)
    requires
        bearing.in_range(),
    ensures
        moved@ == displacement(bearing, speed as int, direction),
        -BEARING_SCALE * u64::MAX <= moved.x <= BEARING_SCALE * u64::MAX,
        -BEARING_SCALE * u64::MAX <= moved.y <= BEARING_SCALE * u64::MAX,
{
    let cos: i128 = bearing.cos as i128;
    let sin: i128 = bearing.sin as i128;
    let wide_speed: i128 = speed as i128;
    proof {
        assert(0 <= cos * wide_speed <= 1_000_000 * 0xffff_ffff_ffff_ffff) by (nonlinear_arith)
            requires
                0 <= cos <= 1_000_000,
                0 <= wide_speed <= 0xffff_ffff_ffff_ffff,
        ;
        assert(-1_000_000 * 0xffff_ffff_ffff_ffff <= sin * wide_speed <= 1_000_000
            * 0xffff_ffff_ffff_ffff) by (nonlinear_arith)
            requires
                -1_000_000 <= sin <= 1_000_000,
                0 <= wide_speed <= 0xffff_ffff_ffff_ffff,
        ;
    }
    let along: i128 = cos * wide_speed;
    let x: i128 = match direction {
        Direction::RightFacing => along,
        Direction::LeftFacing => -along,
    };
    let y: i128 = sin * wide_speed;
    proof {
        assert(along * 1 == along && along * (-1) == -along);
    }
    Position { x, y }
}

impl PlanarState {
    /// Runs the kinematics stage of one frame with the bearing of the pitch.
    pub fn advance(&mut self, bearing: Bearing)
        requires
            bearing.agrees_with(old(self).pitch as int),
            old(self).position@.within_limit(),
        ensures
            final(self)@ == old(self)@.advance(bearing),
    {
        let moved: Position = frame_displacement(bearing, self.speed, self.direction);
        self.position = Position { x: self.position.x + moved.x, y: self.position.y + moved.y };
    }
}

} // verus!
