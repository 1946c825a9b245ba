use vstd::prelude::*;

use crate::bytes::zeros;

verus! {

pub const WIDTH: usize = 256;
pub const HEIGHT: usize = 240;

/// One video frame: `WIDTH * HEIGHT` pixels as row-major RGB bytes.
#[derive(Clone, Copy, PartialEq, Eq)]
pub struct Frame {
    pub pixels: [u8; 184320],
}

/// Byte offset of pixel `(x, y)`.
pub open spec fn pixel_offset(x: int, y: int) -> int {
    (y * 256 + x) * 3
}

/// The frame with every byte zero.
pub open spec fn blank_frame() -> Frame {
    Frame { pixels: choose|a: [u8; 184320]| a@ == zeros(256 * 240 * 3) }
}

/// A frame is its bytes.
pub proof fn lemma_frame_from_bytes(f: Frame, g: Frame)
    requires
        f.pixels@ == g.pixels@,
    ensures
        f == g,
{
    assert(f.pixels =~= g.pixels);
}

impl Frame {
    pub open spec fn wf(self) -> bool {
        self.pixels@.len() == 256 * 240 * 3
    }

    pub fn new() -> (f: Self)
        ensures
            f.wf(),
            f.pixels@ == zeros(256 * 240 * 3),
            f == blank_frame(),
    {
        let pixels = [0u8; 184320];
        assert(pixels@ =~= zeros(256 * 240 * 3));
        let f = Frame { pixels };
        proof {
            let b = blank_frame();
            assert(b.pixels@ == zeros(256 * 240 * 3));
            lemma_frame_from_bytes(f, b);
        }
        f
    }

    pub fn pixels(&self) -> (p: &[u8])
        ensures
            p@ == self.pixels@,
    {
        self.pixels.as_slice()
    }

    /// Stores `rgb` at `(x, y)`; coordinates outside the frame are ignored.
    pub fn set_pixel(&mut self, x: usize, y: usize, rgb: [u8; 3])
        requires
            old(self).wf(),
        ensures
            final(self).wf(),
            final(self).pixels@ == if x < 256 && y < 240 {
                let o = pixel_offset(x as int, y as int);
                old(self).pixels@.update(o, rgb[0]).update(o + 1, rgb[1]).update(o + 2, rgb[2])
            } else {
                old(self).pixels@
            },
    {
        if x >= WIDTH || y >= HEIGHT {
            return;
        }
        assert(y * 256 + x < 256 * 240) by (nonlinear_arith)
            requires
                x < 256,
                y < 240,
        ;
        let offset = (y * WIDTH + x) * 3;
        self.pixels[offset] = rgb[0];
        self.pixels[offset + 1] = rgb[1];
        self.pixels[offset + 2] = rgb[2];
    }
}

impl Default for Frame {
    fn default() -> (f: Self)
        ensures
            f.wf(),
            f.pixels@ == zeros(256 * 240 * 3),
    {
        Self::new()
    }
}

} // verus!
