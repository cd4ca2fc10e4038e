//! The speed governor of the planar model: the second stage of a frame.
use crate::state::{PlanarModel, PlanarState};
use crate::units::{ACCELERATION, BASE_SPEED, BASE_SPEED_LENGTHS, PITCH_SCALE, SPEED_SCALE};
use vstd::prelude::*;

verus! {

/// The speed that a pitch calls for: the base speed times one less the cube of
/// the pitch. Level flight calls for the base speed, a dive for more, up to
/// twice the base speed, a climb for less, down to none.
pub open spec fn target_speed(pitch: int) -> int {
    BASE_SPEED_LENGTHS * (SPEED_SCALE - pitch * pitch * pitch)
}

/// The speed after one frame of governing: the target, unless that is more
/// than one acceleration above the speed so far. Speed falls to a lower target
/// at once and rises toward a higher one by at most the acceleration.
pub open spec fn governed_speed(speed: int, pitch: int) -> int {
    if target_speed(pitch) <= speed + ACCELERATION {
        target_speed(pitch)
    } else {
        speed + ACCELERATION
    }
}

/// The cube of a pitch in range lies between the cubes of the two full
/// deflections, so the target speed lies between none and twice the base
/// speed.
pub proof fn target_speed_bounds(pitch: int)
    requires
        -PITCH_SCALE <= pitch <= PITCH_SCALE,
    ensures
        -SPEED_SCALE <= pitch * pitch * pitch <= SPEED_SCALE,
        0 <= target_speed(pitch) <= 2 * BASE_SPEED,
        pitch > 0 ==> target_speed(pitch) < BASE_SPEED,
        pitch < 0 ==> target_speed(pitch) > BASE_SPEED,
        pitch == 0 ==> target_speed(pitch) == BASE_SPEED,
{
    assert(-1_000_000_000 <= pitch * pitch * pitch <= 1_000_000_000) by (nonlinear_arith)
        requires
            -1_000 <= pitch <= 1_000,
    ;
    assert(pitch > 0 ==> pitch * pitch * pitch > 0) by (nonlinear_arith);
    assert(pitch < 0 ==> pitch * pitch * pitch < 0) by (nonlinear_arith);
}

impl PlanarModel {
    /// The state after the speed stage of one frame: only the speed changes.
    pub open spec fn govern_speed(self) -> PlanarModel {
        PlanarModel { speed: governed_speed(self.speed, self.pitch), ..self }
    }
}

impl PlanarState {
    /// The speed that the pitch of this state calls for.
    pub fn target_speed(&self) -> (target: u64)
        requires
            self@.pitch_in_range(),
        ensures
            target == target_speed(self.pitch as int),
            target <= 2 * BASE_SPEED,
    {
        let pitch: i64 = self.pitch;
        proof {
            target_speed_bounds(pitch as int);
            assert(0 <= pitch * pitch <= 1_000_000) by (nonlinear_arith)
                requires
                    -1_000 <= pitch <= 1_000,
            ;
        }
        let square: i64 = pitch * pitch;
        let cube: i64 = square * pitch;
        let shortfall: i64 = 1_000_000_000 - cube;
        BASE_SPEED_LENGTHS * (shortfall as u64)
    }

    /// Runs the speed stage of one frame.
    pub fn govern_speed(&mut self)
        requires
            old(self)@.pitch_in_range(),
        ensures
            final(self)@ == old(self)@.govern_speed(),
            final(self).speed <= target_speed(old(self).pitch as int),
            final(self).speed <= old(self).speed + ACCELERATION,
    {
        let target: u64 = self.target_speed();
        if self.speed >= target {
            self.speed = target;
        } else {
            let raised: u64 = self.speed + ACCELERATION;
            self.speed = if target <= raised { target } else { raised };
        }
    }
}

} // verus!
