//! What the controller reads from the keyboard and the mouse buttons.
//!
//! The engine keeps the inputs that are currently held in its `Input`
//! resource. This module asks that resource about the keys and the button
//! that matter here, through two trusted calls, and turns the answers into
//! plain values. Everything else is proved on those.

use bevy::input::keyboard::KeyCode;
use bevy::input::mouse::MouseButton;
use bevy::input::Input;
use vstd::prelude::*;

verus! {

#[verifier::external_type_specification]
#[verifier::external_body]
#[verifier::reject_recursive_types(T)]
pub struct ExInput<T>(Input<T>);

#[verifier::external_type_specification]
#[verifier::external_body]
pub struct ExKeyCode(KeyCode);

#[verifier::external_type_specification]
#[verifier::external_body]
pub struct ExMouseButton(MouseButton);

/// The keys that steer the camera.
#[derive(Clone, Copy, Debug, PartialEq, Eq, Structural)]
pub enum Key {
    W,
    A,
    S,
    D,
    Up,
    Left,
    Down,
    Right,
}

/// A button of the mouse.
#[derive(Clone, Copy, Debug, PartialEq, Eq, Structural)]
pub enum Button {
    Left,
    Right,
    Middle,
    Other(u16),
}

/// The steering keys that a keyboard state holds as pressed.
pub uninterp spec fn held_keys(input: &Input<KeyCode>) -> Set<Key>;

/// The mouse buttons that a button state holds as pressed.
pub uninterp spec fn held_buttons(input: &Input<MouseButton>) -> Set<Button>;

/// `Input::pressed` for the key code of the same name as `key`: whether the
/// keyboard state holds that key as pressed. Nothing is proved of this call;
/// it only looks the key up in the state's set of pressed keys.
#[verifier::external_body]
fn key_pressed(input: &Input<KeyCode>, key: Key) -> (held: bool)
    ensures
        held == held_keys(input).contains(key),
{
    input.pressed(match key {
        Key::W => KeyCode::W,
        Key::A => KeyCode::A,
        Key::S => KeyCode::S,
        Key::D => KeyCode::D,
        Key::Up => KeyCode::Up,
        Key::Left => KeyCode::Left,
        Key::Down => KeyCode::Down,
        Key::Right => KeyCode::Right,
    })
}

/// `Input::pressed` for the mouse button that `button` stands for: whether
/// the button state holds it as pressed. Nothing is proved of this call; it
/// only looks the button up in the state's set of pressed buttons.
#[verifier::external_body]
fn button_pressed(input: &Input<MouseButton>, button: Button) -> (held: bool)
    ensures
        held == held_buttons(input).contains(button),
{
    input.pressed(match button {
        Button::Left => MouseButton::Left,
        Button::Right => MouseButton::Right,
        Button::Middle => MouseButton::Middle,
        Button::Other(n) => MouseButton::Other(n),
    })
}

/// Whether the middle mouse button is held, read from the engine's button
/// state.
pub fn middle_button_held(input: &Input<MouseButton>) -> (held: bool)
    ensures
        held == held_buttons(input).contains(Button::Middle),
{
    button_pressed(input, Button::Middle)
}

/// Which of the steering keys are held, one flag per key.
#[derive(Clone, Copy, Debug, PartialEq, Eq, Structural)]
pub struct HeldKeys {
    pub w: bool,
    pub a: bool,
    pub s: bool,
    pub d: bool,
    pub up: bool,
    pub left: bool,
    pub down: bool,
    pub right: bool,
}

/// The direction in which the held keys steer: whole steps along each axis.
#[derive(Clone, Copy, Debug, PartialEq, Eq, Structural)]
pub struct Motion {
    pub x: i64,
    pub y: i64,
}

/// What one pair of keys adds to the motion: its unit vector while either key
/// of the pair is held, nothing otherwise.
pub open spec fn contribution(first: bool, second: bool, unit: (int, int)) -> (int, int) {
    if first || second {
        unit
    } else {
        (0, 0)
    }
}

/// The motion that a set of held keys asks for: the vector sum of what the
/// four pairs contribute, W or Up for up, A or Left for left, S or Down for
/// down, D or Right for right.
pub open spec fn motion_of(keys: HeldKeys) -> (int, int) {
    let up = contribution(keys.w, keys.up, (0, 1));
    let left = contribution(keys.a, keys.left, (-1, 0));
    let down = contribution(keys.s, keys.down, (0, -1));
    let right = contribution(keys.d, keys.right, (1, 0));
    (up.0 + left.0 + down.0 + right.0, up.1 + left.1 + down.1 + right.1)
}

impl HeldKeys {
    /// The flags that stand for a set of keys.
    pub open spec fn of(keys: Set<Key>) -> HeldKeys {
        HeldKeys {
            w: keys.contains(Key::W),
            a: keys.contains(Key::A),
            s: keys.contains(Key::S),
            d: keys.contains(Key::D),
            up: keys.contains(Key::Up),
            left: keys.contains(Key::Left),
            down: keys.contains(Key::Down),
            right: keys.contains(Key::Right),
        }
    }

    /// No key held.
    pub fn none() -> (keys: HeldKeys)
        ensures
            keys == HeldKeys::of(Set::empty()),
    {
        HeldKeys {
            w: false,
            a: false,
            s: false,
            d: false,
            up: false,
            left: false,
            down: false,
            right: false,
        }
    }

    /// Reads the eight steering keys from the engine's keyboard state.
    pub fn read(input: &Input<KeyCode>) -> (keys: HeldKeys)
        ensures
            keys == HeldKeys::of(held_keys(input)),
    {
        HeldKeys {
            w: key_pressed(input, Key::W),
            a: key_pressed(input, Key::A),
            s: key_pressed(input, Key::S),
            d: key_pressed(input, Key::D),
            up: key_pressed(input, Key::Up),
            left: key_pressed(input, Key::Left),
            down: key_pressed(input, Key::Down),
            right: key_pressed(input, Key::Right),
        }
    }

    /// The motion that these keys ask for. Opposite directions held together
    /// cancel in the sum; neither takes precedence.
    pub fn motion(&self) -> (motion: Motion)
        ensures
            (motion.x as int, motion.y as int) == motion_of(*self),
    {
        let mut x: i64 = 0;
        let mut y: i64 = 0;
        if self.w || self.up {
            y = y + 1;
        }
        if self.a || self.left {
            x = x - 1;
        }
        if self.s || self.down {
            y = y - 1;
        }
        if self.d || self.right {
            x = x + 1;
        }
        Motion { x, y }
    }
}

/// For every combination of held keys the motion is the sum of the four
/// contributions: one step right if D or Right is held, less one if A or Left
/// is held, and likewise up and down. Each component is a whole step at most,
/// and a direction held together with its opposite adds nothing.
pub proof fn lemma_motion_is_sum_of_units(keys: HeldKeys)
    ensures
        motion_of(keys).0 == (if keys.d || keys.right { 1int } else { 0 }) - (if keys.a || keys.left {
            1int
        } else {
            0
        }),
        motion_of(keys).1 == (if keys.w || keys.up { 1int } else { 0 }) - (if keys.s || keys.down {
            1int
        } else {
            0
        }),
        -1 <= motion_of(keys).0 <= 1,
        -1 <= motion_of(keys).1 <= 1,
        (keys.d || keys.right) && (keys.a || keys.left) ==> motion_of(keys).0 == 0,
        (keys.w || keys.up) && (keys.s || keys.down) ==> motion_of(keys).1 == 0,
        keys == HeldKeys::of(Set::empty()) ==> motion_of(keys) == (0int, 0int),
{
}

} // verus!
