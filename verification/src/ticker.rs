//! The render ticker.
//!
//! A fixed-rate timer on the display thread fires a configured number of
//! times per second; each tick only advances an observable counter that the
//! window binds to, which marks the surface as needing a redraw. No image
//! work happens here.

use vstd::prelude::*;

verus! {

/// Redraw ticks per second requested of the display timer.
pub const CANVAS_FPS: u32 = 30;

/// The redraw counter the display surface binds to.
pub struct RenderTicker {
    count: u32,
}

impl RenderTicker {
    /// The number of ticks so far, modulo the counter's width.
    pub closed spec fn spec_count(&self) -> u32 {
        self.count
    }

    /// A fresh ticker that has not ticked yet.
    pub fn new() -> (t: Self)
        ensures
            t.spec_count() == 0,
    {
        RenderTicker { count: 0 }
    }

    /// The current value of the redraw counter.
    pub fn count(&self) -> (c: u32)
        ensures
            c == self.spec_count(),
    {
        self.count
    }

    /// One timer tick: advance the counter by one, wrapping at its width.
    /// The new value is returned for the window property to take.
    pub fn tick(&mut self) -> (c: u32)
        ensures
            final(self).spec_count() == (old(self).spec_count() + 1) % (u32::MAX as int + 1),
            c == final(self).spec_count(),
    {
        self.count = self.count.wrapping_add(1);
        self.count
    }
}

} // verus!
