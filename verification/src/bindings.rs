//! Key bindings, and the engine's button state read through them.

use bevy::input::keyboard::KeyCode;
use bevy::input::mouse::MouseButton;
use bevy::input::ButtonInput;
use vstd::prelude::*;
use crate::engine::{
    button_label, button_name, button_pressed, button_released, held_keys, key_held, key_label,
    key_name, key_pressed, pressed_buttons, pressed_keys, released_buttons,
};
use crate::grab::GrabEdges;
use crate::input::{FrameInput, HeldKeys, ScrollUnit};
use crate::legend::{ControlLabels, LabelTexts};

verus! {

/// Which key or button stands for which control. Configuration: no update
/// changes it.
#[derive(Clone, Copy, Debug, PartialEq, Eq)]
pub struct KeyBindings {
    pub key_forward: KeyCode,
    pub key_backward: KeyCode,
    pub key_left: KeyCode,
    pub key_right: KeyCode,
    pub key_up: KeyCode,
    pub key_down: KeyCode,
    /// Selects the run speed while held.
    pub key_run: KeyCode,
    /// Captures the cursor while held.
    pub mouse_key_to_grab_cursor: MouseButton,
    /// Toggles the capture of the cursor.
    pub keyboard_key_to_toggle_cursor_grab: KeyCode,
}

impl KeyBindings {
    /// Which movement keys the keyboard's record holds as down.
    pub open spec fn held(self, keys: ButtonInput<KeyCode>) -> HeldKeys {
        HeldKeys {
            forward: held_keys(keys).contains(self.key_forward),
            backward: held_keys(keys).contains(self.key_backward),
            left: held_keys(keys).contains(self.key_left),
            right: held_keys(keys).contains(self.key_right),
            up: held_keys(keys).contains(self.key_up),
            down: held_keys(keys).contains(self.key_down),
            run: held_keys(keys).contains(self.key_run),
        }
    }

    /// Which capture edges the two records hold for this frame.
    pub open spec fn edges(
        self,
        keys: ButtonInput<KeyCode>,
        buttons: ButtonInput<MouseButton>,
    ) -> GrabEdges {
        GrabEdges {
            toggle_pressed: pressed_keys(keys).contains(self.keyboard_key_to_toggle_cursor_grab),
            button_pressed: pressed_buttons(buttons).contains(self.mouse_key_to_grab_cursor),
            button_released: released_buttons(buttons).contains(self.mouse_key_to_grab_cursor),
        }
    }

    /// The frame's input as these bindings read it.
    pub open spec fn input(
        self,
        keys: ButtonInput<KeyCode>,
        buttons: ButtonInput<MouseButton>,
        scroll_unit: ScrollUnit,
        mouse_moved: bool,
    ) -> FrameInput {
        FrameInput {
            keys: self.held(keys),
            edges: self.edges(keys, buttons),
            scroll_unit,
            mouse_moved,
        }
    }

    /// The names that the engine prints the bound keys and button under.
    pub open spec fn label_texts(self) -> LabelTexts {
        LabelTexts {
            grab_button: button_label(self.mouse_key_to_grab_cursor),
            toggle_key: key_label(self.keyboard_key_to_toggle_cursor_grab),
            forward: key_label(self.key_forward),
            backward: key_label(self.key_backward),
            left: key_label(self.key_left),
            right: key_label(self.key_right),
            up: key_label(self.key_up),
            down: key_label(self.key_down),
            run: key_label(self.key_run),
        }
    }

    /// Looks the movement keys up in the keyboard's record.
    pub fn read_held(&self, keys: &ButtonInput<KeyCode>) -> (held: HeldKeys)
        ensures
            held == self.held(*keys),
    {
        HeldKeys {
            forward: key_held(keys, self.key_forward),
            backward: key_held(keys, self.key_backward),
            left: key_held(keys, self.key_left),
            right: key_held(keys, self.key_right),
            up: key_held(keys, self.key_up),
            down: key_held(keys, self.key_down),
            run: key_held(keys, self.key_run),
        }
    }

    /// Looks this frame's capture edges up in the two records.
    pub fn read_edges(
        &self,
        keys: &ButtonInput<KeyCode>,
        buttons: &ButtonInput<MouseButton>,
    ) -> (edges: GrabEdges)
        ensures
            edges == self.edges(*keys, *buttons),
    {
        GrabEdges {
            toggle_pressed: key_pressed(keys, self.keyboard_key_to_toggle_cursor_grab),
            button_pressed: button_pressed(buttons, self.mouse_key_to_grab_cursor),
            button_released: button_released(buttons, self.mouse_key_to_grab_cursor),
        }
    }

    /// Gathers the frame's input: the keys and edges from the engine's
    /// records, the scroll unit and the fact of mouse motion as given.
    pub fn read(
        &self,
        keys: &ButtonInput<KeyCode>,
        buttons: &ButtonInput<MouseButton>,
        scroll_unit: ScrollUnit,
        mouse_moved: bool,
    ) -> (input: FrameInput)
        ensures
            input == self.input(*keys, *buttons, scroll_unit, mouse_moved),
    {
        FrameInput {
            keys: self.read_held(keys),
            edges: self.read_edges(keys, buttons),
            scroll_unit,
            mouse_moved,
        }
    }

    /// The bound keys and button under the names that the engine prints.
    pub fn labels(&self) -> (labels: ControlLabels)
        ensures
            labels@ == self.label_texts(),
    {
        ControlLabels {
            grab_button: button_name(self.mouse_key_to_grab_cursor),
            toggle_key: key_name(self.keyboard_key_to_toggle_cursor_grab),
            forward: key_name(self.key_forward),
            backward: key_name(self.key_backward),
            left: key_name(self.key_left),
            right: key_name(self.key_right),
            up: key_name(self.key_up),
            down: key_name(self.key_down),
            run: key_name(self.key_run),
        }
    }
}

} // verus!
