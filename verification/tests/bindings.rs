use bevy::input::keyboard::KeyCode;
use bevy::input::mouse::MouseButton;
use bevy::input::ButtonInput;
use freecam::bindings::KeyBindings;
use freecam::controller::CameraController;
use freecam::grab::GrabEdges;
use freecam::input::{FrameInput, HeldKeys, ScrollUnit};

const BINDINGS: KeyBindings = KeyBindings {
    key_forward: KeyCode::KeyW,
    key_backward: KeyCode::KeyS,
    key_left: KeyCode::KeyA,
    key_right: KeyCode::KeyD,
    key_up: KeyCode::Space,
    key_down: KeyCode::ShiftLeft,
    key_run: KeyCode::ControlLeft,
    mouse_key_to_grab_cursor: MouseButton::Left,
    keyboard_key_to_toggle_cursor_grab: KeyCode::KeyG,
};

const NO_KEYS: HeldKeys = HeldKeys {
    forward: false,
    backward: false,
    left: false,
    right: false,
    up: false,
    down: false,
    run: false,
};
const NO_EDGES: GrabEdges =
    GrabEdges { toggle_pressed: false, button_pressed: false, button_released: false };

fn keyboard(down: &[KeyCode]) -> ButtonInput<KeyCode> {
    let mut keys = ButtonInput::default();
    for key in down {
        keys.press(*key);
    }
    keys
}

#[test]
fn nothing_down_nothing_held() {
    assert_eq!(BINDINGS.read_held(&keyboard(&[])), NO_KEYS);
}

#[test]
fn each_bound_key_is_read_as_its_own_control() {
    let held = |key| BINDINGS.read_held(&keyboard(&[key]));
    assert_eq!(held(KeyCode::KeyW), HeldKeys { forward: true, ..NO_KEYS });
    assert_eq!(held(KeyCode::KeyS), HeldKeys { backward: true, ..NO_KEYS });
    assert_eq!(held(KeyCode::KeyA), HeldKeys { left: true, ..NO_KEYS });
    assert_eq!(held(KeyCode::KeyD), HeldKeys { right: true, ..NO_KEYS });
    assert_eq!(held(KeyCode::Space), HeldKeys { up: true, ..NO_KEYS });
    assert_eq!(held(KeyCode::ShiftLeft), HeldKeys { down: true, ..NO_KEYS });
    assert_eq!(held(KeyCode::ControlLeft), HeldKeys { run: true, ..NO_KEYS });
}

#[test]
fn unbound_keys_are_not_read() {
    let keys = keyboard(&[KeyCode::KeyQ, KeyCode::ArrowUp, KeyCode::KeyG, KeyCode::ShiftRight]);
    assert_eq!(BINDINGS.read_held(&keys), NO_KEYS);
}

#[test]
fn a_key_stays_held_after_the_frame_it_went_down_in() {
    let mut keys = keyboard(&[KeyCode::KeyW, KeyCode::KeyD]);
    keys.clear();
    assert_eq!(BINDINGS.read_held(&keys), HeldKeys { forward: true, right: true, ..NO_KEYS });
    keys.release(KeyCode::KeyW);
    assert_eq!(BINDINGS.read_held(&keys), HeldKeys { right: true, ..NO_KEYS });
}

#[test]
fn a_key_bound_twice_is_read_twice() {
    let doubled = KeyBindings { key_up: KeyCode::KeyW, ..BINDINGS };
    assert_eq!(
        doubled.read_held(&keyboard(&[KeyCode::KeyW])),
        HeldKeys { forward: true, up: true, ..NO_KEYS }
    );
}

#[test]
fn the_toggle_edge_lasts_one_frame() {
    let buttons: ButtonInput<MouseButton> = ButtonInput::default();
    let mut keys = keyboard(&[KeyCode::KeyG]);
    assert_eq!(BINDINGS.read_edges(&keys, &buttons), GrabEdges { toggle_pressed: true, ..NO_EDGES });
    keys.clear();
    assert_eq!(BINDINGS.read_edges(&keys, &buttons), NO_EDGES);
    keys.release(KeyCode::KeyG);
    assert_eq!(BINDINGS.read_edges(&keys, &buttons), NO_EDGES);
}

#[test]
fn the_grab_button_gives_a_press_and_a_release_edge() {
    let keys = keyboard(&[]);
    let mut buttons: ButtonInput<MouseButton> = ButtonInput::default();
    buttons.press(MouseButton::Left);
    assert_eq!(BINDINGS.read_edges(&keys, &buttons), GrabEdges { button_pressed: true, ..NO_EDGES });
    buttons.clear();
    assert_eq!(BINDINGS.read_edges(&keys, &buttons), NO_EDGES);
    buttons.release(MouseButton::Left);
    assert_eq!(BINDINGS.read_edges(&keys, &buttons), GrabEdges { button_released: true, ..NO_EDGES });
}

#[test]
fn a_click_within_one_frame_gives_both_edges() {
    let keys = keyboard(&[]);
    let mut buttons: ButtonInput<MouseButton> = ButtonInput::default();
    buttons.press(MouseButton::Left);
    buttons.release(MouseButton::Left);
    assert_eq!(
        BINDINGS.read_edges(&keys, &buttons),
        GrabEdges { button_pressed: true, button_released: true, ..NO_EDGES }
    );
}

#[test]
fn other_buttons_and_keys_give_no_edge() {
    let keys = keyboard(&[KeyCode::KeyW, KeyCode::KeyH]);
    let mut buttons: ButtonInput<MouseButton> = ButtonInput::default();
    buttons.press(MouseButton::Right);
    buttons.press(MouseButton::Middle);
    buttons.release(MouseButton::Right);
    assert_eq!(BINDINGS.read_edges(&keys, &buttons), NO_EDGES);
}

#[test]
fn read_gathers_keys_edges_and_what_it_is_given() {
    let keys = keyboard(&[KeyCode::KeyA, KeyCode::KeyG]);
    let mut buttons: ButtonInput<MouseButton> = ButtonInput::default();
    buttons.press(MouseButton::Left);
    assert_eq!(
        BINDINGS.read(&keys, &buttons, ScrollUnit::Pixel, true),
        FrameInput {
            keys: HeldKeys { left: true, ..NO_KEYS },
            edges: GrabEdges { toggle_pressed: true, button_pressed: true, button_released: false },
            scroll_unit: ScrollUnit::Pixel,
            mouse_moved: true,
        }
    );
    assert_eq!(
        BINDINGS.read(&keyboard(&[]), &ButtonInput::default(), ScrollUnit::Line, false),
        FrameInput { keys: NO_KEYS, edges: NO_EDGES, scroll_unit: ScrollUnit::Line, mouse_moved: false }
    );
}

#[test]
fn labels_are_the_names_the_engine_prints() {
    let labels = BINDINGS.labels();
    assert_eq!(labels.grab_button, "Left");
    assert_eq!(labels.toggle_key, "KeyG");
    assert_eq!(labels.forward, "KeyW");
    assert_eq!(labels.backward, "KeyS");
    assert_eq!(labels.left, "KeyA");
    assert_eq!(labels.right, "KeyD");
    assert_eq!(labels.up, "Space");
    assert_eq!(labels.down, "ShiftLeft");
    assert_eq!(labels.run, "ControlLeft");
}

#[test]
fn labels_of_keys_that_carry_a_number() {
    let odd = KeyBindings { mouse_key_to_grab_cursor: MouseButton::Other(7), ..BINDINGS };
    assert_eq!(odd.labels().grab_button, "Other(7)");
}

#[test]
fn the_controller_prints_the_legend_of_its_bindings() {
    let expected = format!(
        "
            Freecam Controls:
                Mouse\t- Move camera orientation
                Scroll\t- Adjust movement speed
                {:?}\t- Hold to grab cursor
                {:?}\t- Toggle cursor grab
                {:?} & {:?}\t- Fly forward & backwards
                {:?} & {:?}\t- Fly sideways left & right
                {:?} & {:?}\t- Fly up & down
                {:?}\t- Fly faster while held
            ",
        MouseButton::Left,
        KeyCode::KeyG,
        KeyCode::KeyW,
        KeyCode::KeyS,
        KeyCode::KeyA,
        KeyCode::KeyD,
        KeyCode::Space,
        KeyCode::ShiftLeft,
        KeyCode::ControlLeft,
    );
    assert_eq!(CameraController::new(BINDINGS).legend(), expected);
    assert!(expected.contains("                KeyW & KeyS\t- Fly forward & backwards\n"));
}
