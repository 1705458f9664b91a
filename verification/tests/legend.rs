use freecam::legend::{format_controls, ControlLabels};

fn labels() -> ControlLabels {
    ControlLabels {
        grab_button: String::from("Left"),
        toggle_key: String::from("KeyG"),
        forward: String::from("KeyW"),
        backward: String::from("KeyS"),
        left: String::from("KeyA"),
        right: String::from("KeyD"),
        up: String::from("Space"),
        down: String::from("ShiftLeft"),
        run: String::from("ControlLeft"),
    }
}

#[test]
fn legend_lists_every_binding_in_order() {
    let l = labels();
    let expected = format!(
        "
            Freecam Controls:
                Mouse\t- Move camera orientation
                Scroll\t- Adjust movement speed
                {}\t- Hold to grab cursor
                {}\t- Toggle cursor grab
                {} & {}\t- Fly forward & backwards
                {} & {}\t- Fly sideways left & right
                {} & {}\t- Fly up & down
                {}\t- Fly faster while held
            ",
        l.grab_button, l.toggle_key, l.forward, l.backward, l.left, l.right, l.up, l.down, l.run,
    );
    assert_eq!(format_controls(&l), expected);
}

#[test]
fn legend_for_the_usual_bindings() {
    let text = format_controls(&labels());
    let lines: Vec<&str> = text.split('\n').collect();
    assert_eq!(
        lines,
        vec![
            "",
            "            Freecam Controls:",
            "                Mouse\t- Move camera orientation",
            "                Scroll\t- Adjust movement speed",
            "                Left\t- Hold to grab cursor",
            "                KeyG\t- Toggle cursor grab",
            "                KeyW & KeyS\t- Fly forward & backwards",
            "                KeyA & KeyD\t- Fly sideways left & right",
            "                Space & ShiftLeft\t- Fly up & down",
            "                ControlLeft\t- Fly faster while held",
            "            ",
        ]
    );
}

#[test]
fn legend_takes_labels_as_they_are() {
    let text = format_controls(&ControlLabels {
        grab_button: String::new(),
        toggle_key: String::from("a\tb"),
        ..labels()
    });
    assert!(text.contains("\n                \t- Hold to grab cursor\n"));
    assert!(text.contains("\n                a\tb\t- Toggle cursor grab\n"));
}
