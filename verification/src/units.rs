//! Fixed-point units and the constants of the flight model.
//!
//! Every quantity of the model is a whole number of a unit chosen so that each
//! update rule is exact: no rule rounds.
//!
//! | quantity                         | unit                                  |
//! |----------------------------------|---------------------------------------|
//! | spatial roll and pitch angles    | a thousandth of a radian              |
//! | spatial heading angle            | a ten-thousandth of a radian          |
//! | planar pitch                     | a thousandth of the full deflection   |
//! | speed                            | a billionth of a length per frame     |
//! | bearing components               | a millionth                           |
//! | position                         | a thousand-million-millionth of a length |
//! | scale factors                    | a thousandth                          |
use vstd::prelude::*;

verus! {

/// Units of roll or pitch angle in one radian.
pub const ANGLE_PER_RADIAN: i64 = 1_000;

/// Units of heading angle in one radian: ten to each unit of roll angle.
pub const HEADING_PER_RADIAN: i64 = 10_000;

/// The heading units turned in one frame for each angle unit of roll tilt: a
/// tenth of a radian of heading for each radian of tilt.
pub const TURN_SPEED: i64 = 1;

/// The roll turned in one frame by a held key or by auto-centering: a tenth of
/// a radian.
pub const ROLL_STEP: i64 = 100;

/// The pitch turned in one frame by a held key in the spatial model: a tenth
/// of a radian.
pub const PITCH_STEP: i64 = 100;

/// The roll tilt of one radian at which a held key stops banking further.
pub const ROLL_GUARD: i64 = 1_000;

/// Units of planar pitch in the full deflection, which is a vertical climb.
pub const PITCH_SCALE: i64 = 1_000;

/// The planar pitch added or removed in one frame by a held key: a twentieth
/// of the full deflection.
pub const PITCH_DELTA: i64 = 50;

/// Units of speed in one length per frame: the cube of `PITCH_SCALE`, so that
/// the cubic speed curve is exact.
pub const SPEED_SCALE: u64 = 1_000_000_000;

/// The speed of level flight, and the speed after a change of facing: three
/// lengths per frame.
pub const BASE_SPEED: u64 = 3_000_000_000;

/// `BASE_SPEED` in whole lengths per frame.
pub const BASE_SPEED_LENGTHS: u64 = 3;

/// The most that speed can grow in one frame: five thousandths of a length
/// per frame.
pub const ACCELERATION: u64 = 5_000_000;

/// Units of a bearing component in one.
pub const BEARING_SCALE: i64 = 1_000_000;

/// Bearing units to one pitch unit.
pub const BEARING_PER_PITCH: i64 = 1_000;

/// A bound from above on half of pi, in thousandths: the bearing units that
/// the sine of a small pitch can gain at most with each pitch unit.
pub const HALF_PI_BOUND: i64 = 1_571;

/// Units of position in one length: `SPEED_SCALE` times `BEARING_SCALE`.
pub const POSITION_SCALE: i128 = 1_000_000_000_000_000;

/// Positions up to this distance from the origin on either axis can always be
/// advanced by one more frame.
pub const POSITION_LIMIT: i128 = 100_000_000_000_000_000_000_000_000_000_000_000_000;

/// Units of a scale factor in one.
pub const SCALE_UNIT: i64 = 1_000;

/// The distance of a number from nothing.
pub open spec fn magnitude(x: int) -> int {
    if x < 0 {
        -x
    } else {
        x
    }
}

} // verus!
