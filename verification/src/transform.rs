//! The transform stage's color conversion.
//!
//! The device delivers frames with three bytes per pixel in blue-green-red
//! order; the display wants four bytes per pixel in red-green-blue-alpha
//! order with an opaque alpha. The conversion is a pure function of the input
//! frame, stated byte for byte and proved of the loop below. The geometric
//! rotation that follows it is the video library's affine warp, floating
//! point through and through, and is left to the unverified shell.

use vstd::prelude::*;
use crate::frame::frame_len;

verus! {

/// Byte `i` of the display-layout image converted from the device-layout
/// bytes `src`: pixel `i / 4`'s red, green and blue come from the source
/// pixel's third, second and first byte, and every fourth byte is an opaque
/// alpha.
pub open spec fn rgba_byte(src: Seq<u8>, i: int) -> u8 {
    if i % 4 == 3 {
        255u8
    } else {
        src[(i / 4) * 3 + (2 - i % 4)]
    }
}

/// The display-layout image converted from the device-layout bytes `src`.
pub open spec fn rgba_from_bgr(src: Seq<u8>) -> Seq<u8> {
    Seq::new(src.len() / 3 * 4, |i: int| rgba_byte(src, i))
}

/// Convert one frame from three-byte blue-green-red pixels to four-byte
/// red-green-blue-alpha pixels for a `width` by `height` canvas.
pub fn bgr_to_rgba(src: &Vec<u8>, width: u32, height: u32) -> (out: Vec<u8>)
    requires
        src@.len() == width * height * 3,
        frame_len(width, height) <= usize::MAX,
    ensures
        out@ == rgba_from_bgr(src@),
        out@.len() == frame_len(width, height),
{
    let pixels: usize = (width as usize) * (height as usize);
    assert(pixels * 3 == src@.len() && pixels * 4 == frame_len(width, height))
        by (nonlinear_arith)
        requires
            pixels == width * height,
            src@.len() == width * height * 3,
    ;
    let mut out: Vec<u8> = Vec::new();
    let mut p: usize = 0;
    while p < pixels
        invariant
            p <= pixels,
            src@.len() == pixels * 3,
            pixels * 4 <= usize::MAX,
            out@.len() == p * 4,
            forall|i: int| 0 <= i < p * 4 ==> out@[i] == rgba_byte(src@, i),
        decreases pixels - p,
    {
        proof {
            assert(p * 3 + 2 < pixels * 3 && (p + 1) * 4 <= pixels * 4 && (p + 1) * 4 == p * 4
                + 4) by (nonlinear_arith)
                requires
                    p < pixels,
            ;
        }
        let base: usize = p * 3;
        out.push(src[base + 2]);
        out.push(src[base + 1]);
        out.push(src[base]);
        out.push(255u8);
        proof {
            assert forall|i: int| p * 4 <= i < (p + 1) * 4 implies out@[i] == rgba_byte(
                src@,
                i,
            ) by {
                assert(i / 4 == p && (i % 4 == i - p * 4)) by (nonlinear_arith)
                    requires
                        p * 4 <= i < (p + 1) * 4,
                ;
            }
        }
        p = p + 1;
    }
    proof {
        assert(pixels * 3 / 3 == pixels) by (nonlinear_arith);
        assert(out@ =~= rgba_from_bgr(src@));
    }
    out
}

} // verus!
