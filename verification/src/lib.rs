//! An animated grid of coloured tiles and the loop that drives it.
//!
//! The crate computes; it never draws. A render pass is returned as a list of
//! draw calls over integers, and the driver is a step function from an event
//! to the pass that the event asks for. Opening a window, pumping events and
//! issuing the calls against a graphics context is left to the caller.

pub mod color;
pub mod grid;
pub mod tile;
pub mod render;
pub mod config;
pub mod game;
