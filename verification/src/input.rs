//! The control keys held during one frame.
use bevy::input::keyboard::KeyCode;
use bevy::input::Input;
use vstd::prelude::*;

verus! {

/// One of the four control keys.
#[derive(Clone, Copy, Debug, PartialEq, Eq, Structural)]
pub enum ControlKey {
    Up,
    Down,
    Left,
    Right,
}

/// Which control keys are held during one frame.
#[derive(Clone, Copy, Debug, PartialEq, Eq, Structural)]
pub struct InputSnapshot {
    pub up: bool,
    pub down: bool,
    pub left: bool,
    pub right: bool,
}

/// bevy's record of pressed inputs. Nothing inside it is visible to the
/// verifier.
#[verifier::external_type_specification]
#[verifier::external_body]
#[verifier::reject_recursive_types(T)]
pub struct ExInput<T: Eq + std::hash::Hash>(Input<T>);

/// bevy's keyboard key codes. Nothing inside one is visible to the verifier.
#[verifier::external_type_specification]
#[verifier::external_body]
pub struct ExKeyCode(KeyCode);

/// The control keys that a keyboard record holds as pressed: for each control
/// key, whether its arrow key is in the record's set of pressed keys.
pub uninterp spec fn pressed_controls(keys: Input<KeyCode>) -> Set<ControlKey>;

/// Calls bevy's `Input::pressed` with the arrow key that stands for `key`.
/// Trusted: the answer is whether that arrow key is in the record's set of
/// pressed keys, which is what `pressed_controls` names.
#[verifier::external_body]
fn control_pressed(keys: &Input<KeyCode>, key: ControlKey) -> (held: bool)
    ensures
        held == pressed_controls(*keys).contains(key),
{
    keys.pressed(
        match key {
            ControlKey::Up => KeyCode::Up,
            ControlKey::Down => KeyCode::Down,
            ControlKey::Left => KeyCode::Left,
            ControlKey::Right => KeyCode::Right,
        },
    )
}

impl InputSnapshot {
    /// The snapshot that holds exactly the keys of `held`.
    pub open spec fn of(held: Set<ControlKey>) -> InputSnapshot {
        InputSnapshot {
            up: held.contains(ControlKey::Up),
            down: held.contains(ControlKey::Down),
            left: held.contains(ControlKey::Left),
            right: held.contains(ControlKey::Right),
        }
    }

    /// Whether neither Left nor Right is held, so that the roll centers itself.
    pub open spec fn hands_off_roll(self) -> bool {
        !self.left && !self.right
    }

    /// Reads the four control keys out of a keyboard record.
    pub fn capture(keys: &Input<KeyCode>) -> (snapshot: InputSnapshot)
        ensures
            snapshot == InputSnapshot::of(pressed_controls(*keys)),
    {
        InputSnapshot {
            up: control_pressed(keys, ControlKey::Up),
            down: control_pressed(keys, ControlKey::Down),
            left: control_pressed(keys, ControlKey::Left),
            right: control_pressed(keys, ControlKey::Right),
        }
    }
}

} // verus!
