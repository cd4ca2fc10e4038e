//! The transform synthesizer: the last stage of a frame. It derives what a
//! renderer draws from the state that the stages before it left.
use crate::direction::Direction;
use crate::state::{PlanarModel, PlanarState, PointModel, Position, SpatialState};
use crate::units::{ANGLE_PER_RADIAN, HEADING_PER_RADIAN, SCALE_UNIT};
use vstd::prelude::*;

verus! {

/// One of the three fixed axes of the world.
#[derive(Clone, Copy, Debug, PartialEq, Eq, Structural)]
pub enum Axis {
    /// The sideways axis, about which the aircraft pitches.
    X,
    /// The vertical axis, about which the heading turns.
    Y,
    /// The forward axis, about which the aircraft rolls.
    Z,
}

/// A rotation about one axis by `angle / per_radian` radians.
#[derive(Clone, Copy, Debug, PartialEq, Eq, Structural)]
pub struct AxisTurn {
    pub axis: Axis,
    pub angle: i64,
    pub per_radian: i64,
}

/// The rotation of the spatial model as a product of three single-axis
/// rotations, written from left to right: the heading about the vertical
/// axis, then the roll about the forward axis, then the pitch about the
/// sideways axis. The order matters: the pitch acts first on the aircraft's
/// own axes and the heading last in the world.
pub open spec fn composed(heading: i64, roll: i64, pitch: i64) -> Seq<AxisTurn> {
    seq![
        AxisTurn { axis: Axis::Y, angle: heading, per_radian: HEADING_PER_RADIAN },
        AxisTurn { axis: Axis::Z, angle: roll, per_radian: ANGLE_PER_RADIAN },
        AxisTurn { axis: Axis::X, angle: pitch, per_radian: ANGLE_PER_RADIAN },
    ]
}

/// Composes heading, roll and pitch, in that order, into one rotation. A
/// renderer multiplies the three factors from left to right.
pub fn compose(heading: i64, roll: i64, pitch: i64) -> (rotation: [AxisTurn; 3])
    ensures
        rotation@ == composed(heading, roll, pitch),
{
    let rotation: [AxisTurn; 3] = [
        AxisTurn { axis: Axis::Y, angle: heading, per_radian: HEADING_PER_RADIAN },
        AxisTurn { axis: Axis::Z, angle: roll, per_radian: ANGLE_PER_RADIAN },
        AxisTurn { axis: Axis::X, angle: pitch, per_radian: ANGLE_PER_RADIAN },
    ];
    assert(rotation@ =~= composed(heading, roll, pitch));
    rotation
}

impl SpatialState {
    /// The rotation that a renderer draws for this attitude.
    pub open spec fn orientation(self) -> Seq<AxisTurn> {
        composed(self.heading, self.roll, self.pitch)
    }

    /// Synthesizes the render rotation of this attitude.
    pub fn synthesize(&self) -> (rotation: [AxisTurn; 3])
        ensures
            rotation@ == self.orientation(),
    {
        compose(self.heading, self.roll, self.pitch)
    }
}

/// What a renderer draws for the planar model, over unbounded integers.
pub struct TransformModel {
    /// Where the sprite is drawn, in position units.
    pub translation: PointModel,
    /// The turn of the sprite about the axis out of the plane, in thousandths
    /// of a quarter turn.
    pub rotation: int,
    /// The horizontal scale factor, in scale units. Its sign mirrors the
    /// sprite.
    pub scale_x: int,
    /// The vertical scale factor, in scale units.
    pub scale_y: int,
}

/// What a renderer draws for the planar model.
#[derive(Clone, Copy, Debug, PartialEq, Eq, Structural)]
pub struct PlanarTransform {
    /// Where the sprite is drawn, in position units.
    pub translation: Position,
    /// The turn of the sprite about the axis out of the plane, in thousandths
    /// of a quarter turn.
    pub rotation: i64,
    /// The horizontal scale factor, in scale units. Its sign mirrors the
    /// sprite.
    pub scale_x: i64,
    /// The vertical scale factor, in scale units.
    pub scale_y: i64,
}

impl View for PlanarTransform {
    type V = TransformModel;

    open spec fn view(&self) -> TransformModel {
        TransformModel {
            translation: self.translation@,
            rotation: self.rotation as int,
            scale_x: self.scale_x as int,
            scale_y: self.scale_y as int,
        }
    }
}

/// Whether a horizontal scale and a facing disagree in sign. A scale of
/// nothing has no sign and disagrees with neither facing.
pub open spec fn disagrees(scale_x: int, direction: Direction) -> bool {
    scale_x * direction.sign() < 0
}

/// The horizontal scale after it was held to the facing: its negative where
/// the two disagreed in sign, itself otherwise.
pub open spec fn flipped_scale(scale_x: int, direction: Direction) -> int {
    if disagrees(scale_x, direction) {
        -scale_x
    } else {
        scale_x
    }
}

impl TransformModel {
    /// The transform with its horizontal scale held to the facing. Nothing
    /// else changes.
    pub open spec fn set_flip_from_direction(self, direction: Direction) -> TransformModel {
        TransformModel { scale_x: flipped_scale(self.scale_x, direction), ..self }
    }

    /// Whether the horizontal scale can be negated in the machine's integers.
    pub open spec fn can_flip(self) -> bool {
        self.scale_x > i64::MIN
    }
}

impl PlanarModel {
    /// The turn of the sprite: the pitch angle, turned to the side of the
    /// facing, in thousandths of a quarter turn.
    pub open spec fn render_rotation(self) -> int {
        self.pitch * self.direction.sign()
    }

    /// The transform after the transform stage of one frame. The translation
    /// is the position, unchanged. The rotation is the pitch angle on the side
    /// of the facing. The horizontal scale is held to the facing and the
    /// vertical scale stays.
    pub open spec fn synthesize(self, before: TransformModel) -> TransformModel {
        TransformModel {
            translation: self.position,
            rotation: self.render_rotation(),
            scale_x: flipped_scale(before.scale_x, self.direction),
            scale_y: before.scale_y,
        }
    }
}

/// Mirrors the sprite to the side of the facing: where the horizontal scale
/// and the facing disagree in sign the scale is negated, and where they agree
/// nothing happens.
pub fn set_flip_from_direction(transform: &mut PlanarTransform, direction: Direction)
    requires
        old(transform)@.can_flip(),
    ensures
        final(transform)@ == old(transform)@.set_flip_from_direction(direction),
        old(transform).scale_x != 0 ==> final(transform).scale_x * direction.sign() > 0,
        final(transform)@.can_flip(),
{
    let scale_x: i64 = transform.scale_x;
    let disagree: bool = match direction {
        Direction::RightFacing => scale_x < 0,
        Direction::LeftFacing => scale_x > 0,
    };
    if disagree {
        transform.scale_x = -scale_x;
    }
}

impl PlanarTransform {
    /// The transform of a sprite that nothing has moved, turned or scaled.
    pub fn identity() -> (transform: PlanarTransform)
        ensures
            transform@ == (TransformModel {
                translation: PointModel { x: 0, y: 0 },
                rotation: 0,
                scale_x: SCALE_UNIT as int,
                scale_y: SCALE_UNIT as int,
            }),
            transform@.can_flip(),
    {
        PlanarTransform {
            translation: Position { x: 0, y: 0 },
            rotation: 0,
            scale_x: SCALE_UNIT,
            scale_y: SCALE_UNIT,
        }
    }
}

impl PlanarState {
    /// Runs the transform stage of one frame.
    pub fn synthesize(&self, transform: &mut PlanarTransform)
        requires
            self@.pitch_in_range(),
            old(transform)@.can_flip(),
        ensures
            final(transform)@ == self@.synthesize(old(transform)@),
            final(transform)@.can_flip(),
    {
        transform.translation = self.position;
        transform.rotation = match self.direction {
            Direction::RightFacing => self.pitch,
            Direction::LeftFacing => -self.pitch,
        };
        set_flip_from_direction(transform, self.direction);
    }
}

} // verus!
