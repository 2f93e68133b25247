//! Helpers of the simulator.
pub mod debug_render;
