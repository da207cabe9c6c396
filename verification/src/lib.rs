//! Core logic of a live camera preview that rotates each captured frame and
//! hands it to a display loop at a fixed tick rate.
//!
//! The verified library holds the parts that decide and compute: the rotation
//! angle and its wrap rule, the fixed-size frame buffer and its length
//! invariant, the single-slot newest-wins frame channel, the render adapter
//! that never blocks, the capture-loop state machine, and the one-shot
//! shutdown signal. Device access and the window itself are outside
//! collaborators driven by a thin unverified shell.

pub mod angle;
pub mod capture;
pub mod channel;
pub mod config;
pub mod frame;
pub mod render;
pub mod shutdown;
pub mod ticker;
pub mod transform;

use vstd::prelude::*;

verus! {

/// Fixed canvas width in pixels, agreed by producer and consumer.
pub const CANVAS_WIDTH: u32 = 640;

/// Fixed canvas height in pixels, agreed by producer and consumer.
pub const CANVAS_HEIGHT: u32 = 480;

/// Bytes per pixel of the display layout: one byte per channel, four channels.
pub const BYTES_PER_PIXEL: u32 = 4;

} // verus!
