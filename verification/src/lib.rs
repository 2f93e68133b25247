//! Verified core of a swerve-drive robot simulator and of the debug window
//! that draws what the simulator sends it.
//!
//! The physics, the motor model and the colour conversions work on floating
//! point numbers and on the physics engine's own types; they live with the
//! program around this library. What is kept here is the discrete logic:
//! the transfer protocol by which debug lines reach the window, the vertex
//! layout built from those lines, the camera key bindings, the surface and
//! frame-pacing decisions of the window, and the module catalogue.
#![allow(unused_imports)]

pub mod camera;
pub mod message;
pub mod swerve_module;
pub mod timing;
pub mod util;
pub mod vertex;
pub mod window;

use vstd::prelude::*;

verus! {

} // verus!
