//! What the library takes on trust from the engine: its key and button
//! types, the button state it keeps per frame, and the names it prints keys
//! under. Nothing in this file is proved; every contract restates what the
//! engine's source shows.

use std::hash::Hash;
use bevy::input::keyboard::KeyCode;
use bevy::input::mouse::MouseButton;
use bevy::input::ButtonInput;
use vstd::prelude::*;

verus! {

/// `bevy::input::keyboard::KeyCode`, a key of the keyboard. Carried through
/// unopened.
#[verifier::external_type_specification]
#[verifier::external_body]
pub struct ExKeyCode(KeyCode);

/// `bevy::input::mouse::MouseButton`, a button of the mouse. Carried through
/// unopened.
#[verifier::external_type_specification]
#[verifier::external_body]
pub struct ExMouseButton(MouseButton);

/// `bevy::input::ButtonInput`, the engine's record of which buttons are
/// down, went down this frame and came up this frame.
#[verifier::external_type_specification]
#[verifier::external_body]
#[verifier::reject_recursive_types(T)]
pub struct ExButtonInput<T: Clone + Eq + Hash + Send + Sync + 'static>(ButtonInput<T>);

/// The keys that the keyboard's record holds as down: the set in which
/// `ButtonInput::pressed` looks a key up.
pub uninterp spec fn held_keys(keys: ButtonInput<KeyCode>) -> Set<KeyCode>;

/// The keys that the keyboard's record holds as gone down this frame: the
/// set in which `ButtonInput::just_pressed` looks a key up.
pub uninterp spec fn pressed_keys(keys: ButtonInput<KeyCode>) -> Set<KeyCode>;

/// The buttons that the mouse's record holds as gone down this frame: the
/// set in which `ButtonInput::just_pressed` looks a button up.
pub uninterp spec fn pressed_buttons(buttons: ButtonInput<MouseButton>) -> Set<MouseButton>;

/// The buttons that the mouse's record holds as come up this frame: the set
/// in which `ButtonInput::just_released` looks a button up.
pub uninterp spec fn released_buttons(buttons: ButtonInput<MouseButton>) -> Set<MouseButton>;

/// The text that `<KeyCode as Debug>::fmt` prints for a key.
pub uninterp spec fn key_label(key: KeyCode) -> Seq<char>;

/// The text that `<MouseButton as Debug>::fmt` prints for a mouse button.
pub uninterp spec fn button_label(button: MouseButton) -> Seq<char>;

/// `ButtonInput::pressed` on the keyboard's record: whether `key` is among
/// the keys held as down.
#[verifier::external_body]
pub(crate) fn key_held(keys: &ButtonInput<KeyCode>, key: KeyCode) -> (held: bool)
    ensures
        held == held_keys(*keys).contains(key),
{
    keys.pressed(key)
}

/// `ButtonInput::just_pressed` on the keyboard's record: whether `key` is
/// among the keys that went down this frame.
#[verifier::external_body]
pub(crate) fn key_pressed(keys: &ButtonInput<KeyCode>, key: KeyCode) -> (pressed: bool)
    ensures
        pressed == pressed_keys(*keys).contains(key),
{
    keys.just_pressed(key)
}

/// `ButtonInput::just_pressed` on the mouse's record: whether `button` is
/// among the buttons that went down this frame.
#[verifier::external_body]
pub(crate) fn button_pressed(buttons: &ButtonInput<MouseButton>, button: MouseButton) -> (pressed:
    bool)
    ensures
        pressed == pressed_buttons(*buttons).contains(button),
{
    buttons.just_pressed(button)
}

/// `ButtonInput::just_released` on the mouse's record: whether `button` is
/// among the buttons that came up this frame.
#[verifier::external_body]
pub(crate) fn button_released(buttons: &ButtonInput<MouseButton>, button: MouseButton) -> (released:
    bool)
    ensures
        released == released_buttons(*buttons).contains(button),
{
    buttons.just_released(button)
}

/// `<KeyCode as Debug>::fmt`, through `format!`: the key's printed name.
#[verifier::external_body]
pub(crate) fn key_name(key: KeyCode) -> (name: String)
    ensures
        name@ == key_label(key),
{
    format!("{:?}", key)
}

/// `<MouseButton as Debug>::fmt`, through `format!`: the button's printed
/// name.
#[verifier::external_body]
pub(crate) fn button_name(button: MouseButton) -> (name: String)
    ensures
        name@ == button_label(button),
{
    format!("{:?}", button)
}

} // verus!
