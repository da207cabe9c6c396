//! The render adapter and the displayed buffer.
//!
//! The display thread keeps one last-known-good frame, zero-filled at
//! startup. Each redraw makes one non-blocking attempt to take the newest
//! frame from the channel; if one arrived for the right canvas it overwrites
//! the displayed buffer in place, and either way the current contents are
//! returned for display. The adapter never waits and never hands out a frame
//! shorter than the canvas demands.

use vstd::prelude::*;
use crate::channel::FrameSlot;
use crate::frame::{frame_len, FrameBuffer};

verus! {

/// The display thread's state: its canvas and its last-known-good frame.
pub struct DisplayState {
    width: u32,
    height: u32,
    displayed: FrameBuffer,
}

impl DisplayState {
    /// The bytes currently on display.
    pub closed spec fn view(&self) -> Seq<u8> {
        self.displayed@
    }

    /// The canvas width.
    pub closed spec fn spec_width(&self) -> u32 {
        self.width
    }

    /// The canvas height.
    pub closed spec fn spec_height(&self) -> u32 {
        self.height
    }

    /// The displayed buffer always has exactly the canvas's length.
    pub closed spec fn wf(&self) -> bool {
        &&& self.displayed.wf()
        &&& self.displayed.spec_width() == self.width
        &&& self.displayed.spec_height() == self.height
    }

    /// A fresh display state: the displayed buffer starts zero-filled, so
    /// there is a whole frame to show before any capture has arrived.
    pub fn new(width: u32, height: u32) -> (d: Self)
        requires
            frame_len(width, height) <= usize::MAX,
        ensures
            d.wf(),
            d.spec_width() == width,
            d.spec_height() == height,
            d@ == Seq::new(frame_len(width, height) as nat, |i: int| 0u8),
    {
        DisplayState { width, height, displayed: FrameBuffer::new_zeroed(width, height) }
    }

    /// One redraw. Drains the channel without waiting; a frame that arrived
    /// for this canvas replaces the displayed contents in place, a frame for
    /// any other canvas is discarded, and with no frame the previous contents
    /// are reused. The returned bytes are the displayed buffer, never shorter
    /// than the canvas demands.
    pub fn render(&mut self, slot: &mut FrameSlot) -> (img: &Vec<u8>)
        requires
            old(self).wf(),
            old(slot).wf(),
        ensures
            final(self).wf(),
            final(self).spec_width() == old(self).spec_width(),
            final(self).spec_height() == old(self).spec_height(),
            final(slot)@ is None,
            final(self)@ == match old(slot)@ {
                Some(f) => if f.spec_width() == old(self).spec_width()
                    && f.spec_height() == old(self).spec_height() {
                    f@
                } else {
                    old(self)@
                },
                None => old(self)@,
            },
            img@ == final(self)@,
            img@.len() == frame_len(old(self).spec_width(), old(self).spec_height()),
    {
        match slot.try_receive() {
            Some(fresh) => {
                if fresh.width() == self.width && fresh.height() == self.height {
                    self.displayed.copy_from(&fresh);
                }
            },
            None => {},
        }
        self.displayed.bytes()
    }
}

} // verus!
