//! The capture configuration.
//!
//! Device index, backend selector and target resolution are fixed at startup
//! and read-only after the device session is created.

use vstd::prelude::*;
use crate::frame::frame_len;

verus! {

/// The device index the session opens.
pub const CAMERA_INDEX: i32 = 1;

/// Milliseconds the capture loop sleeps between iterations, bounding its rate
/// independent of device speed.
pub const PACING_INTERVAL_MS: u64 = 10;

/// What the device session is opened and configured with.
pub struct CaptureConfig {
    device_index: i32,
    backend: i32,
    width: u32,
    height: u32,
}

impl CaptureConfig {
    /// The device index.
    pub closed spec fn spec_device_index(&self) -> i32 {
        self.device_index
    }

    /// The backend selector handed to the video library.
    pub closed spec fn spec_backend(&self) -> i32 {
        self.backend
    }

    /// The target width.
    pub closed spec fn spec_width(&self) -> u32 {
        self.width
    }

    /// The target height.
    pub closed spec fn spec_height(&self) -> u32 {
        self.height
    }

    /// A frame for this canvas fits in memory.
    pub open spec fn wf(&self) -> bool {
        frame_len(self.spec_width(), self.spec_height()) <= usize::MAX
    }

    /// Fix the configuration at startup.
    pub fn new(device_index: i32, backend: i32, width: u32, height: u32) -> (c: Self)
        requires
            frame_len(width, height) <= usize::MAX,
        ensures
            c.wf(),
            c.spec_device_index() == device_index,
            c.spec_backend() == backend,
            c.spec_width() == width,
            c.spec_height() == height,
    {
        CaptureConfig { device_index, backend, width, height }
    }

    /// The device index.
    pub fn device_index(&self) -> (i: i32)
        ensures
            i == self.spec_device_index(),
    {
        self.device_index
    }

    /// The backend selector.
    pub fn backend(&self) -> (b: i32)
        ensures
            b == self.spec_backend(),
    {
        self.backend
    }

    /// The target width.
    pub fn width(&self) -> (w: u32)
        ensures
            w == self.spec_width(),
    {
        self.width
    }

    /// The target height.
    pub fn height(&self) -> (h: u32)
        ensures
            h == self.spec_height(),
    {
        self.height
    }
}

} // verus!
