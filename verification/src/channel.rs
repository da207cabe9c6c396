//! The frame channel: a single-slot, newest-wins handoff.
//!
//! At most one frame is retained in flight. A send overwrites any unconsumed
//! previous frame, so the producer is never stalled and memory stays bounded;
//! a receive takes the newest frame or nothing, and never waits. Frame loss
//! under load is the accepted trade-off.

use vstd::prelude::*;
use crate::frame::FrameBuffer;

verus! {

/// One overwrite cell between the capture loop and the render adapter.
pub struct FrameSlot {
    slot: Option<FrameBuffer>,
}

impl FrameSlot {
    /// The frame in flight, if any.
    pub closed spec fn view(&self) -> Option<FrameBuffer> {
        self.slot
    }

    /// Any frame in flight satisfies the frame length invariant.
    pub open spec fn wf(&self) -> bool {
        self@ is Some ==> self@->Some_0.wf()
    }

    /// A fresh, empty slot: nothing in flight.
    pub fn new() -> (s: Self)
        ensures
            s@ is None,
            s.wf(),
    {
        FrameSlot { slot: None }
    }

    /// Hand a frame to the consumer. The newest frame wins: whatever was in
    /// flight is superseded, and the producer never waits.
    pub fn send(&mut self, frame: FrameBuffer)
        requires
            frame.wf(),
        ensures
            final(self)@ == Some(frame),
            final(self).wf(),
    {
        self.slot = Some(frame);
    }

    /// Take the newest frame if one is in flight, without ever waiting.
    /// Afterwards the slot is empty either way.
    pub fn try_receive(&mut self) -> (r: Option<FrameBuffer>)
        ensures
            r == old(self)@,
            final(self)@ is None,
            final(self).wf(),
            old(self).wf() && r is Some ==> r->Some_0.wf(),
    {
        self.slot.take()
    }
}

} // verus!
