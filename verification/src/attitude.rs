//! The attitude integrator: held keys and the previous attitude give the new
//! attitude. It is the first stage of a frame.
use crate::direction::Direction;
use crate::input::InputSnapshot;
use crate::state::{PlanarModel, PlanarState, SpatialModel, SpatialState};
use crate::units::{
    BASE_SPEED, PITCH_DELTA, PITCH_SCALE, PITCH_STEP, ROLL_GUARD, ROLL_STEP, TURN_SPEED,
};
use vstd::prelude::*;

verus! {

/// The roll turned by auto-centering in one frame: one step toward level, and
/// nothing when level. A tilt of less than a step is carried past level to
/// the other side, never by a whole step.
pub open spec fn centering_turn(tilt: int) -> int {
    if tilt > 0 {
        -ROLL_STEP
    } else if tilt < 0 {
        ROLL_STEP as int
    } else {
        0
    }
}

/// The roll turned in one frame. Left banks by one step while the tilt is
/// under the guard, Right banks the other way while the tilt is above the
/// guard's negative; both are judged by the tilt at the start of the frame and
/// both can act in one frame. With neither held the roll centers itself.
pub open spec fn roll_turn(tilt: int, input: InputSnapshot) -> int {
    if input.hands_off_roll() {
        centering_turn(tilt)
    } else {
        (if input.left && tilt < ROLL_GUARD { ROLL_STEP as int } else { 0 })
            - (if input.right && tilt > -ROLL_GUARD { ROLL_STEP as int } else { 0 })
    }
}

/// The pitch turned in one frame of the spatial model: one step up for Up,
/// one step down for Down, with no bound on what accumulates.
pub open spec fn pitch_turn(input: InputSnapshot) -> int {
    (if input.up { PITCH_STEP as int } else { 0 }) - (if input.down { PITCH_STEP as int } else { 0 })
}

/// The heading turned in one frame: the roll tilt at the turn speed, against
/// the tilt's sign. The more the aircraft banks, the faster it yaws, and level
/// flight does not yaw.
pub open spec fn heading_turn(tilt: int) -> int {
    -(TURN_SPEED * tilt)
}

impl SpatialModel {
    /// The attitude after one frame of input. The roll and the heading both
    /// turn by the roll tilt at the start of the frame: the heading does not
    /// see the roll that the same frame leaves.
    pub open spec fn integrate_attitude(self, input: InputSnapshot) -> SpatialModel {
        SpatialModel {
            heading: self.heading + heading_turn(self.roll_tilt()),
            roll: self.roll + roll_turn(self.roll_tilt(), input),
            pitch: self.pitch + pitch_turn(input),
        }
    }

    /// Whether the attitude after one frame of input fits the machine's
    /// integers. The roll always does.
    pub open spec fn attitude_fits(self, input: InputSnapshot) -> bool {
        let next = self.integrate_attitude(input);
        &&& i64::MIN <= next.heading <= i64::MAX
        &&& i64::MIN <= next.pitch <= i64::MAX
    }
}

impl SpatialState {
    /// Whether `integrate_attitude` can take this attitude and input.
    pub fn attitude_fits(&self, input: InputSnapshot) -> (ok: bool)
        ensures
            ok == self@.attitude_fits(input),
    {
        let turn: i64 = TURN_SPEED * self.roll;
        let heading_ok: bool = if turn >= 0 {
            self.heading >= i64::MIN + turn
        } else {
            self.heading <= i64::MAX + turn
        };
        let pitch_ok: bool = if input.up && !input.down {
            self.pitch <= i64::MAX - PITCH_STEP
        } else if input.down && !input.up {
            self.pitch >= i64::MIN + PITCH_STEP
        } else {
            true
        };
        heading_ok && pitch_ok
    }

    /// Advances the attitude by one frame of input.
    pub fn integrate_attitude(&mut self, input: InputSnapshot)
        requires
            old(self)@.attitude_fits(input),
        ensures
            final(self)@ == old(self)@.integrate_attitude(input),
    {
        let tilt: i64 = self.roll;
        let mut roll: i64 = self.roll;
        if input.left {
            if tilt < ROLL_GUARD {
                roll = roll + ROLL_STEP;
            }
        }
        if input.right {
            if tilt > -ROLL_GUARD {
                roll = roll - ROLL_STEP;
            }
        }
        if !input.left && !input.right {
            if tilt > 0 {
                roll = roll - ROLL_STEP;
            } else if tilt < 0 {
                roll = roll + ROLL_STEP;
            }
        }
        let mut pitch_change: i64 = 0;
        if input.up {
            pitch_change = pitch_change + PITCH_STEP;
        }
        if input.down {
            pitch_change = pitch_change - PITCH_STEP;
        }
        self.roll = roll;
        self.pitch = self.pitch + pitch_change;
        self.heading = self.heading - TURN_SPEED * tilt;
    }
}

/// The pitch brought back between the two full deflections: the high side to
/// the full deflection up, the low side to the full deflection down.
pub open spec fn clamp_pitch(pitch: int) -> int {
    if pitch > PITCH_SCALE {
        PITCH_SCALE as int
    } else if pitch < -PITCH_SCALE {
        -PITCH_SCALE
    } else {
        pitch
    }
}

/// The pitch asked for in one frame of the planar model: one delta up for Up,
/// one delta down for Down.
pub open spec fn pitch_delta(input: InputSnapshot) -> int {
    (if input.up { PITCH_DELTA as int } else { 0 }) - (if input.down { PITCH_DELTA as int } else { 0 })
}

/// The facing after one frame: Left is looked at first, then Right.
pub open spec fn facing_after(direction: Direction, input: InputSnapshot) -> Direction {
    direction.after_key(Direction::LeftFacing, input.left).after_key(
        Direction::RightFacing,
        input.right,
    )
}

/// Whether the facing flips during one frame: Left is held while facing
/// right, or Right is held while facing left, the facing that Left may just
/// have brought about included.
pub open spec fn flips(direction: Direction, input: InputSnapshot) -> bool {
    ||| direction.flips_on(Direction::LeftFacing, input.left)
    ||| direction.after_key(Direction::LeftFacing, input.left).flips_on(
        Direction::RightFacing,
        input.right,
    )
}

impl PlanarModel {
    /// The state after the attitude stage of one frame. The pitch moves by the
    /// deltas of the held keys and is then clamped. A flip of the facing sets
    /// the speed to the base speed at once. The position stays.
    pub open spec fn integrate_attitude(self, input: InputSnapshot) -> PlanarModel {
        PlanarModel {
            pitch: clamp_pitch(self.pitch + pitch_delta(input)),
            direction: facing_after(self.direction, input),
            speed: if flips(self.direction, input) { BASE_SPEED as int } else { self.speed },
            position: self.position,
        }
    }
}

impl PlanarState {
    /// The pitch that the attitude stage will leave for this input.
    pub fn pitch_after(&self, input: InputSnapshot) -> (pitch: i64)
        ensures
            pitch == self@.integrate_attitude(input).pitch,
            -PITCH_SCALE <= pitch <= PITCH_SCALE,
    {
        if self.pitch >= PITCH_SCALE + PITCH_DELTA {
            PITCH_SCALE
        } else if self.pitch <= -PITCH_SCALE - PITCH_DELTA {
            -PITCH_SCALE
        } else {
            let mut pitch: i64 = self.pitch;
            if input.up {
                pitch = pitch + PITCH_DELTA;
            }
            if input.down {
                pitch = pitch - PITCH_DELTA;
            }
            if pitch > PITCH_SCALE {
                pitch = PITCH_SCALE;
            }
            if pitch < -PITCH_SCALE {
                pitch = -PITCH_SCALE;
            }
            pitch
        }
    }

    /// Runs the attitude stage of one frame. Every pitch and every input is
    /// taken; whatever the pitch was, it ends between the two full
    /// deflections.
    pub fn integrate_attitude(&mut self, input: InputSnapshot)
        ensures
            final(self)@ == old(self)@.integrate_attitude(input),
            final(self)@.pitch_in_range(),
            flips(old(self).direction, input) ==> final(self).speed == BASE_SPEED,
    {
        let pitch: i64 = self.pitch_after(input);
        self.pitch = pitch;
        let (after_left, flipped_left) = self.direction.turn_toward(Direction::LeftFacing, input.left);
        if flipped_left {
            self.direction = after_left;
            self.speed = BASE_SPEED;
        }
        let (after_right, flipped_right) = self.direction.turn_toward(
            Direction::RightFacing,
            input.right,
        );
        if flipped_right {
            self.direction = after_right;
            self.speed = BASE_SPEED;
        }
    }
}

} // verus!
