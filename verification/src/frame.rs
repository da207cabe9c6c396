//! Fixed-size frame buffers.
//!
//! A frame buffer is one image in the four-channel display layout: exactly
//! `width * height * 4` bytes for the canvas dimensions agreed by producer
//! and consumer. A byte sequence of any other length is never accepted as a
//! frame: it is taken whole or refused.

use vstd::prelude::*;
use vstd::pervasive::VecAdditionalExecFns;

verus! {

/// The byte length of one frame for a `width` by `height` canvas.
pub open spec fn frame_len(width: u32, height: u32) -> int {
    width * height * (crate::BYTES_PER_PIXEL as int)
}

/// One image in the display layout, with the canvas it was produced for.
/// Invariant: the data holds exactly `width * height * 4` bytes.
pub struct FrameBuffer {
    width: u32,
    height: u32,
    data: Vec<u8>,
}

impl FrameBuffer {
    /// The bytes of the frame.
    pub closed spec fn view(&self) -> Seq<u8> {
        self.data@
    }

    /// The canvas width the frame was produced for.
    pub closed spec fn spec_width(&self) -> u32 {
        self.width
    }

    /// The canvas height the frame was produced for.
    pub closed spec fn spec_height(&self) -> u32 {
        self.height
    }

    /// The length invariant: exactly four bytes per canvas pixel.
    pub open spec fn wf(&self) -> bool {
        self@.len() == frame_len(self.spec_width(), self.spec_height())
    }

    /// The canvas width the frame was produced for.
    pub fn width(&self) -> (w: u32)
        ensures
            w == self.spec_width(),
    {
        self.width
    }

    /// The canvas height the frame was produced for.
    pub fn height(&self) -> (h: u32)
        ensures
            h == self.spec_height(),
    {
        self.height
    }

    /// A zero-filled frame for the given canvas, the initial contents of the
    /// displayed buffer.
    pub fn new_zeroed(width: u32, height: u32) -> (f: Self)
        requires
            frame_len(width, height) <= usize::MAX,
        ensures
            f.wf(),
            f.spec_width() == width,
            f.spec_height() == height,
            f@ == Seq::new(frame_len(width, height) as nat, |i: int| 0u8),
    {
        let len: usize = (width as usize) * (height as usize) * 4;
        let mut data: Vec<u8> = Vec::new();
        let mut i: usize = 0;
        while i < len
            invariant
                i <= len,
                data@ =~= Seq::new(i as nat, |j: int| 0u8),
            decreases len - i,
        {
            data.push(0u8);
            i = i + 1;
        }
        assert(data@ =~= Seq::new(frame_len(width, height) as nat, |i: int| 0u8));
        FrameBuffer { width, height, data }
    }

    /// Accept a byte sequence as a frame only if it has exactly the length
    /// the canvas demands; any other length is refused.
    pub fn from_bytes(width: u32, height: u32, data: Vec<u8>) -> (r: Result<Self, Vec<u8>>)
        requires
            frame_len(width, height) <= usize::MAX,
        ensures
            match r {
                Ok(f) => {
                    &&& data@.len() == frame_len(width, height)
                    &&& f.wf()
                    &&& f.spec_width() == width
                    &&& f.spec_height() == height
                    &&& f@ == data@
                },
                Err(rejected) => {
                    &&& data@.len() != frame_len(width, height)
                    &&& rejected@ == data@
                },
            },
    {
        let len: usize = (width as usize) * (height as usize) * 4;
        if data.len() == len {
            Ok(FrameBuffer { width, height, data })
        } else {
            Err(data)
        }
    }

    /// Read access to the frame's bytes, for handing the image to a display.
    pub fn bytes(&self) -> (b: &Vec<u8>)
        ensures
            b@ == self@,
    {
        &self.data
    }

    /// Overwrite this frame's contents in place with another frame of the
    /// same canvas; the length never varies across the session.
    pub fn copy_from(&mut self, other: &FrameBuffer)
        requires
            old(self).wf(),
            other.wf(),
            other.spec_width() == old(self).spec_width(),
            other.spec_height() == old(self).spec_height(),
        ensures
            final(self).wf(),
            final(self).spec_width() == old(self).spec_width(),
            final(self).spec_height() == old(self).spec_height(),
            final(self)@ == other@,
    {
        let len: usize = self.data.len();
        let mut i: usize = 0;
        while i < len
            invariant
                i <= len,
                len == self.data@.len(),
                self.data@.len() == other@.len(),
                other.wf(),
                self.width == old(self).spec_width(),
                self.height == old(self).spec_height(),
                self.data@.len() == frame_len(self.width, self.height),
                forall|j: int| 0 <= j < i ==> self.data@[j] == other@[j],
            decreases len - i,
        {
            let b = other.data[i];
            self.data.set(i, b);
            i = i + 1;
        }
        assert(self.data@ =~= other@);
    }
}

} // verus!
