//! The frame buffer that the PPU draws into: 256 by 240 colours.

use vstd::prelude::*;
use crate::palette::Rgb;

verus! {

/// The width of the picture in pixels.
pub const WIDTH: usize = 256;

/// The height of the picture in pixels.
pub const HEIGHT: usize = 240;

/// The pixels `pixels` after the pixel at column `x` of row `y` took the
/// colour `color`. A pixel outside the picture is dropped.
pub open spec fn plotted(pixels: Seq<Rgb>, x: int, y: int, color: Rgb) -> Seq<Rgb> {
    if 0 <= y * 256 + x < pixels.len() {
        pixels.update(y * 256 + x, color)
    } else {
        pixels
    }
}

/// A frame buffer that the PPU draws into: a grid of colours, 256 to a
/// row, to which the PPU only writes.
pub trait FrameBuffer {
    /// The pixels, row after row.
    spec fn canvas(&self) -> Seq<Rgb>;

    /// Gives the pixel at column `x` of row `y` the colour `color`. A pixel
    /// outside the picture is dropped.
    fn plot_pixel(&mut self, x: usize, y: usize, color: Rgb)
        requires
            x < 0x10000,
            y < 0x10000,
        ensures
            final(self).canvas() == plotted(old(self).canvas(), x as int, y as int, color),
    ;
}

pub struct Screen {
    frame_buffer: Vec<Rgb>,
}

impl Screen {
    /// The pixels, row after row.
    pub closed spec fn view(&self) -> Seq<Rgb> {
        self.frame_buffer@
    }

    /// The picture has its full size.
    pub open spec fn wf(&self) -> bool {
        self@.len() == 256 * 240
    }

    /// A black picture.
    pub fn new() -> (r: Self)
        ensures
            r.wf(),
            forall|i: int| 0 <= i < 256 * 240 ==> r@[i] == (Rgb { r: 0, g: 0, b: 0 }),
    {
        let mut frame_buffer: Vec<Rgb> = Vec::new();
        let mut i: usize = 0;
        while i < WIDTH * HEIGHT
            invariant
                i <= WIDTH * HEIGHT,
                frame_buffer@.len() == i,
                forall|k: int| 0 <= k < i ==> frame_buffer@[k] == (Rgb { r: 0, g: 0, b: 0 }),
            decreases WIDTH * HEIGHT - i,
        {
            frame_buffer.push(Rgb { r: 0, g: 0, b: 0 });
            i += 1;
        }
        Self { frame_buffer }
    }

    /// The pixels, row after row.
    pub fn pixels(&self) -> (r: &[Rgb])
        ensures
            r@ == self@,
    {
        self.frame_buffer.as_slice()
    }
}

impl FrameBuffer for Screen {
    open spec fn canvas(&self) -> Seq<Rgb> {
        self@
    }

    fn plot_pixel(&mut self, x: usize, y: usize, color: Rgb) {
        let idx: usize = y * WIDTH + x;
        if idx < self.frame_buffer.len() {
            self.frame_buffer.set(idx, color);
        }
    }
}

} // verus!
