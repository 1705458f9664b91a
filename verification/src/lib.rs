//! Decision core of a free-flying camera controller for the Bevy engine.
//!
//! Every frame the host hands over the engine's button records, the scroll
//! unit, whether the mouse moved, its cameras' controllers and the cursor
//! state of its windows. The library reads the input through the camera's key
//! bindings, moves the controller's flags and capture latches on, rewrites
//! the windows' cursor state where the capture changed, and returns the
//! frame's script: the steps that are left for the host, in order.
//!
//! Everything here is integer and boolean logic. The arithmetic on speeds,
//! velocity and angles that the steps call for is the host's.

pub mod bindings;
pub mod controller;
pub mod direction;
pub mod engine;
pub mod grab;
pub mod input;
pub mod legend;
pub mod window;
