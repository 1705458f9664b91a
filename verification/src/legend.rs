//! The control legend that is shown once, when a controller first runs.

use vstd::prelude::*;

verus! {

/// The names under which the bound keys and the grab button are shown.
#[derive(Debug)]
pub struct ControlLabels {
    /// Mouse button that captures the cursor while held.
    pub grab_button: String,
    /// Key that toggles the capture.
    pub toggle_key: String,
    pub forward: String,
    pub backward: String,
    pub left: String,
    pub right: String,
    pub up: String,
    pub down: String,
    /// Key that selects the run speed while held.
    pub run: String,
}

/// The labels as plain text.
pub struct LabelTexts {
    pub grab_button: Seq<char>,
    pub toggle_key: Seq<char>,
    pub forward: Seq<char>,
    pub backward: Seq<char>,
    pub left: Seq<char>,
    pub right: Seq<char>,
    pub up: Seq<char>,
    pub down: Seq<char>,
    pub run: Seq<char>,
}

impl View for ControlLabels {
    type V = LabelTexts;

    open spec fn view(&self) -> LabelTexts {
        LabelTexts {
            grab_button: self.grab_button@,
            toggle_key: self.toggle_key@,
            forward: self.forward@,
            backward: self.backward@,
            left: self.left@,
            right: self.right@,
            up: self.up@,
            down: self.down@,
            run: self.run@,
        }
    }
}

/// The legend's text: a heading, two fixed lines on the mouse, then one line
/// for each binding or pair of bindings, every line indented under the
/// heading.
pub open spec fn legend(labels: LabelTexts) -> Seq<char> {
    "\n            Freecam Controls:\n"@
        + "                Mouse\t- Move camera orientation\n"@
        + "                Scroll\t- Adjust movement speed\n"@
        + "                "@ + labels.grab_button + "\t- Hold to grab cursor\n"@
        + "                "@ + labels.toggle_key + "\t- Toggle cursor grab\n"@
        + "                "@ + labels.forward + " & "@ + labels.backward
        + "\t- Fly forward & backwards\n"@
        + "                "@ + labels.left + " & "@ + labels.right
        + "\t- Fly sideways left & right\n"@
        + "                "@ + labels.up + " & "@ + labels.down + "\t- Fly up & down\n"@
        + "                "@ + labels.run + "\t- Fly faster while held\n"@
        + "            "@
}

/// Writes the control legend out for the given labels.
pub fn format_controls(labels: &ControlLabels) -> (text: String)
    ensures
        text@ == legend(labels@),
{
    let mut text = String::new();
    text.append("\n            Freecam Controls:\n");
    text.append("                Mouse\t- Move camera orientation\n");
    text.append("                Scroll\t- Adjust movement speed\n");
    text.append("                ");
    text.append(labels.grab_button.as_str());
    text.append("\t- Hold to grab cursor\n");
    text.append("                ");
    text.append(labels.toggle_key.as_str());
    text.append("\t- Toggle cursor grab\n");
    text.append("                ");
    text.append(labels.forward.as_str());
    text.append(" & ");
    text.append(labels.backward.as_str());
    text.append("\t- Fly forward & backwards\n");
    text.append("                ");
    text.append(labels.left.as_str());
    text.append(" & ");
    text.append(labels.right.as_str());
    text.append("\t- Fly sideways left & right\n");
    text.append("                ");
    text.append(labels.up.as_str());
    text.append(" & ");
    text.append(labels.down.as_str());
    text.append("\t- Fly up & down\n");
    text.append("                ");
    text.append(labels.run.as_str());
    text.append("\t- Fly faster while held\n");
    text.append("            ");
    text
}

} // verus!
