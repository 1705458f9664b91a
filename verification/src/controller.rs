//! The per-frame update of the camera controller.
//!
//! An update settles everything that is discrete: it moves the controller's
//! flags and latches on, rewrites the cursor state of the windows where the
//! capture changed, and returns the frame's script, the steps that are left
//! for the host, in the order in which they are to be carried out.

use bevy::input::keyboard::KeyCode;
use bevy::input::mouse::MouseButton;
use bevy::input::ButtonInput;
use vstd::prelude::*;
use crate::bindings::KeyBindings;
use crate::direction::{pull, Direction};
use crate::grab::GrabLatches;
use crate::input::{FrameInput, HeldKeys, ScrollUnit};
use crate::legend::{format_controls, legend};
use crate::window::{all_with_capture, apply_capture, WindowCursor};

verus! {

/// Why a frame did no work.
#[derive(Clone, Copy, Debug, PartialEq, Eq)]
pub enum Notice {
    /// There was not exactly one camera.
    NoUniqueCamera,
    /// The controller is switched off.
    Disabled,
}

/// One step of a frame's script.
#[derive(Clone, Copy, Debug, PartialEq, Eq)]
pub enum Step {
    /// Take yaw and pitch from the camera's present orientation, read in
    /// yaw-pitch-roll order, and drop the roll.
    AdoptOrientation,
    /// Show the control legend.
    ShowLegend,
    /// Report why the frame does no work.
    Warn(Notice),
    /// Divide the frame's scroll amount by `divisor` to get lines, raise the
    /// walk speed by lines times scroll factor times walk speed, and set the
    /// run speed to the walk speed times the run factor.
    AdjustSpeed { divisor: u32 },
    /// Set the velocity to the normalised `direction` times the run speed if
    /// `running`, else times the walk speed.
    Drive { direction: Direction, running: bool },
    /// Take friction's share off the velocity, and set what is left below
    /// the threshold to zero.
    Coast,
    /// Move the camera by the velocity over the frame's time, if the velocity
    /// is not zero.
    Translate,
    /// Write the windows' cursor state, which this update has rewritten, back
    /// to the windows.
    WriteCursors,
    /// Turn yaw and pitch by the mouse motion, keep the pitch within a quarter
    /// turn up and down, and rebuild the camera's orientation from them.
    Look,
}

impl Step {
    /// Whether the step brings the velocity up to date or moves the camera.
    pub open spec fn moves(self) -> bool {
        self is Drive || self is Coast || self is Translate
    }
}

/// The velocity step that the held keys call for.
pub open spec fn motion_of(keys: HeldKeys) -> Step {
    if Direction::of(keys).is_zero() {
        Step::Coast
    } else {
        Step::Drive { direction: Direction::of(keys), running: keys.run }
    }
}

/// Chooses the velocity step for the held keys.
pub fn choose_motion(keys: &HeldKeys) -> (step: Step)
    ensures
        step == motion_of(*keys),
{
    let direction = Direction::from_keys(keys);
    if direction.is_still() {
        Step::Coast
    } else {
        Step::Drive { direction, running: keys.run }
    }
}

/// The discrete state of one camera's controller.
#[derive(Clone, Copy, Debug, PartialEq, Eq)]
pub struct CameraController {
    /// Master switch. While false a frame does nothing beyond the one-time
    /// adoption of the orientation.
    pub enabled: bool,
    /// Set by the first frame that reaches the controller.
    pub initialized: bool,
    /// Which keys and button steer the camera.
    pub bindings: KeyBindings,
    /// Cursor-capture latches.
    pub latches: GrabLatches,
}

impl CameraController {
    /// A controller with the given bindings that is switched on, has seen no
    /// frame and holds no capture.
    pub fn new(bindings: KeyBindings) -> (c: CameraController)
        ensures
            c == (CameraController {
                enabled: true,
                initialized: false,
                bindings,
                latches: GrabLatches { toggle: false, button: false },
            }),
    {
        CameraController {
            enabled: true,
            initialized: false,
            bindings,
            latches: GrabLatches { toggle: false, button: false },
        }
    }

    /// The control legend for this controller's bindings.
    pub fn legend(&self) -> (text: String)
        ensures
            text@ == legend(self.bindings.label_texts()),
    {
        format_controls(&self.bindings.labels())
    }

    /// How every script of a controller begins: with the adoption of the
    /// orientation and the legend while it is not initialized, with nothing
    /// once it is.
    pub open spec fn opening(self) -> Seq<Step> {
        if self.initialized {
            Seq::empty()
        } else {
            seq![Step::AdoptOrientation, Step::ShowLegend]
        }
    }

    /// Whether the cursor is captured once the frame's edge events are in.
    pub open spec fn captured(self, input: FrameInput) -> bool {
        self.latches.after(input.edges).engaged()
    }

    /// The work of a frame while the controller is switched on: speed from
    /// scroll, velocity from the keys, the move; then the cursors if an edge
    /// event fired, and the look if the mouse moved under capture.
    pub open spec fn work(self, input: FrameInput) -> Seq<Step> {
        seq![
            Step::AdjustSpeed { divisor: input.scroll_unit.per_line() as u32 },
            motion_of(input.keys),
            Step::Translate,
        ] + (if input.edges.any() {
            seq![Step::WriteCursors]
        } else {
            Seq::empty()
        }) + (if input.mouse_moved && self.captured(input) {
            seq![Step::Look]
        } else {
            Seq::empty()
        })
    }

    /// The script of a frame with `input`.
    pub open spec fn script(self, input: FrameInput) -> Seq<Step> {
        if self.enabled {
            self.opening() + self.work(input)
        } else {
            self.opening() + seq![Step::Warn(Notice::Disabled)]
        }
    }

    /// The controller after a frame with `input`. The frame marks it
    /// initialized in any case; the latches follow the edge events only
    /// while it is switched on.
    pub open spec fn after_frame(self, input: FrameInput) -> CameraController {
        CameraController {
            enabled: self.enabled,
            initialized: true,
            bindings: self.bindings,
            latches: if self.enabled {
                self.latches.after(input.edges)
            } else {
                self.latches
            },
        }
    }

    /// The windows after a frame with `input`. They are rewritten only when
    /// the controller is switched on and an edge event fired.
    pub open spec fn windows_after(self, input: FrameInput, windows: Seq<WindowCursor>) -> Seq<
        WindowCursor,
    > {
        if self.enabled && input.edges.any() {
            all_with_capture(windows, self.captured(input))
        } else {
            windows
        }
    }

    /// The controller after a run of frames, the first of them first.
    pub open spec fn after_frames(self, frames: Seq<FrameInput>) -> CameraController
        decreases frames.len(),
    {
        if frames.len() == 0 {
            self
        } else {
            self.after_frames(frames.drop_last()).after_frame(frames.last())
        }
    }

    /// Runs one frame on this camera's controller: moves its state on,
    /// carries a change of capture out on `windows`, and returns the frame's
    /// script.
    pub fn update(&mut self, windows: &mut Vec<WindowCursor>, input: &FrameInput) -> (script: Vec<
        Step,
    >)
        ensures
            *final(self) == old(self).after_frame(*input),
            final(windows)@ == old(self).windows_after(*input, old(windows)@),
            script@ == old(self).script(*input),
    {
        let mut script: Vec<Step> = Vec::new();
        if !self.initialized {
            script.push(Step::AdoptOrientation);
            script.push(Step::ShowLegend);
            self.initialized = true;
        }
        if !self.enabled {
            script.push(Step::Warn(Notice::Disabled));
            return script;
        }
        script.push(Step::AdjustSpeed { divisor: input.scroll_unit.units_per_line() });
        script.push(choose_motion(&input.keys));
        script.push(Step::Translate);
        let changed = self.latches.apply(&input.edges);
        let captured = self.latches.is_engaged();
        if changed {
            apply_capture(windows, captured);
            script.push(Step::WriteCursors);
        }
        if input.mouse_moved && captured {
            script.push(Step::Look);
        }
        script
    }
}

/// The frame coasts exactly when on every axis both keys are held or neither
/// is; otherwise it drives along the keys' pull, which is never zero, and
/// runs exactly when the run key is held.
pub proof fn lemma_motion_follows_keys(keys: HeldKeys)
    ensures
        motion_of(keys) is Coast <==> (keys.right == keys.left && keys.up == keys.down
            && keys.forward == keys.backward),
        motion_of(keys) !is Coast ==> motion_of(keys) is Drive,
        motion_of(keys) matches Step::Drive { direction, running } ==> {
            &&& direction@ == pull(keys)
            &&& direction.wf()
            &&& !direction.is_zero()
            &&& running == keys.run
        },
{
}

/// A frame's script adopts the camera's orientation exactly if the
/// controller has not been initialized, does so before anything else, and
/// the frame leaves the controller initialized.
pub proof fn lemma_first_frame_initializes(c: CameraController, input: FrameInput)
    ensures
        c.script(input).contains(Step::AdoptOrientation) <==> !c.initialized,
        !c.initialized ==> c.script(input)[0] == Step::AdoptOrientation,
        forall|i: int|
            0 < i < c.script(input).len() ==> c.script(input)[i] != Step::AdoptOrientation,
        c.after_frame(input).initialized,
{
}

/// Once any frame has run, the controller is initialized and no further
/// frame adopts the camera's orientation again, whatever the frames hold.
pub proof fn lemma_orientation_adopted_once(
    c: CameraController,
    frames: Seq<FrameInput>,
    next: FrameInput,
)
    requires
        frames.len() > 0,
    ensures
        c.after_frames(frames).initialized,
        !c.after_frames(frames).script(next).contains(Step::AdoptOrientation),
{
    lemma_first_frame_initializes(c.after_frames(frames), next);
}

/// The master switch and the bindings are configuration: no run of frames
/// changes them.
pub proof fn lemma_frames_keep_configuration(c: CameraController, frames: Seq<FrameInput>)
    ensures
        c.after_frames(frames).enabled == c.enabled,
        c.after_frames(frames).bindings == c.bindings,
    decreases frames.len(),
{
    if frames.len() > 0 {
        lemma_frames_keep_configuration(c, frames.drop_last());
    }
}

/// While the controller is switched on, every script adjusts the speeds
/// exactly once, right after its opening, and only later brings the velocity
/// up to date and moves the camera.
pub proof fn lemma_speed_adjusted_before_motion(c: CameraController, input: FrameInput)
    requires
        c.enabled,
    ensures
        ({
            let script = c.script(input);
            let at = c.opening().len() as int;
            &&& at < script.len() && script[at] is AdjustSpeed
            &&& forall|j: int| 0 <= j < script.len() && script[j] is AdjustSpeed ==> j == at
            &&& forall|j: int| 0 <= j < script.len() && script[j].moves() ==> at < j
        }),
{
}

/// The capture that decides over a frame's look is the disjunction of the
/// two latches as the frame leaves them.
pub proof fn lemma_captured_is_either_latch(c: CameraController, input: FrameInput)
    requires
        c.enabled,
    ensures
        c.captured(input) == (c.after_frame(input).latches.toggle || c.after_frame(
            input,
        ).latches.button),
{
}

/// A frame that leaves the cursor uncaptured does not turn the camera,
/// however the mouse moved.
pub proof fn lemma_no_look_without_capture(c: CameraController, input: FrameInput)
    requires
        !c.after_frame(input).latches.engaged(),
    ensures
        !c.script(input).contains(Step::Look),
{
}

/// A frame turns the camera exactly when the controller is switched on, the
/// mouse moved and the cursor is captured.
pub proof fn lemma_look_iff_moved_under_capture(c: CameraController, input: FrameInput)
    ensures
        c.script(input).contains(Step::Look) <==> (c.enabled && input.mouse_moved && c.captured(
            input,
        )),
{
    let script = c.script(input);
    if c.enabled && input.mouse_moved && c.captured(input) {
        assert(script[script.len() - 1] == Step::Look);
    }
}

/// Runs one frame on whatever cameras the host found. With exactly one camera
/// the frame's input is read from the engine's records through that camera's
/// bindings, and the frame is its [`CameraController::update`]; with none or
/// several nothing is touched and the script is the warning alone.
pub fn run_camera_controller(
    cameras: &mut Vec<CameraController>,
    windows: &mut Vec<WindowCursor>,
    keys: &ButtonInput<KeyCode>,
    buttons: &ButtonInput<MouseButton>,
    scroll_unit: ScrollUnit,
    mouse_moved: bool,
) -> (script: Vec<Step>)
    ensures
        old(cameras)@.len() != 1 ==> {
            &&& script@ == seq![Step::Warn(Notice::NoUniqueCamera)]
            &&& final(cameras)@ == old(cameras)@
            &&& final(windows)@ == old(windows)@
        },
        old(cameras)@.len() == 1 ==> ({
            let camera = old(cameras)@[0];
            let input = camera.bindings.input(*keys, *buttons, scroll_unit, mouse_moved);
            &&& script@ == camera.script(input)
            &&& final(cameras)@ == seq![camera.after_frame(input)]
            &&& final(windows)@ == camera.windows_after(input, old(windows)@)
        }),
{
    if cameras.len() != 1 {
        let mut script: Vec<Step> = Vec::new();
        script.push(Step::Warn(Notice::NoUniqueCamera));
        return script;
    }
    let input = cameras[0].bindings.read(keys, buttons, scroll_unit, mouse_moved);
    cameras[0].update(windows, &input)
}

} // verus!
