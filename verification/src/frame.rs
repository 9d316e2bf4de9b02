//! The pixel buffer a single frame render produces: a dense
//! `width x height` grid of RGB byte triples, stored row-major.

use vstd::prelude::*;

verus! {

/// A rendered frame: `width * height` RGB pixels in row-major order.
pub struct FrameBuffer {
    width: u32,
    height: u32,
    pixels: Vec<[u8; 3]>,
}

impl FrameBuffer {
    /// The buffer is dense: exactly one pixel per grid cell.
    pub closed spec fn wf(&self) -> bool {
        self.pixels@.len() == self.width * self.height
    }

    pub closed spec fn spec_width(&self) -> u32 {
        self.width
    }

    pub closed spec fn spec_height(&self) -> u32 {
        self.height
    }

    /// The pixel at column `x`, row `y`.
    pub closed spec fn spec_pixel(&self, x: int, y: int) -> [u8; 3] {
        self.pixels@[y * self.width + x]
    }

    /// Wrap a flat row-major pixel vector as a frame of the given size.
    pub fn from_pixels(width: u32, height: u32, pixels: Vec<[u8; 3]>) -> (frame: Self)
        requires
            pixels@.len() == width * height,
        ensures
            frame.wf(),
            frame.spec_width() == width,
            frame.spec_height() == height,
            forall|x: int, y: int|
                0 <= x < width && 0 <= y < height ==> frame.spec_pixel(x, y) == pixels@[y * width + x],
    {
        FrameBuffer { width, height, pixels }
    }

    pub fn width(&self) -> (w: u32)
        ensures
            w == self.spec_width(),
    {
        self.width
    }

    pub fn height(&self) -> (h: u32)
        ensures
            h == self.spec_height(),
    {
        self.height
    }

    /// Read the pixel at column `x`, row `y`.
    pub fn pixel_at(&self, x: u32, y: u32) -> (pixel: [u8; 3])
        requires
            self.wf(),
            x < self.spec_width(),
            y < self.spec_height(),
        ensures
            pixel == self.spec_pixel(x as int, y as int),
    {
        let len = self.pixels.len();
        proof {
            lemma_row_major_index_in_range(
                self.width as nat,
                self.height as nat,
                x as nat,
                y as nat,
            );
            assert(y * self.width + x < len);
        }
        let idx: usize = (y as usize) * (self.width as usize) + (x as usize);
        self.pixels[idx]
    }
}

/// A row-major index lies inside the buffer: for `x < w` and `y < h`,
/// `y * w + x < w * h`.
proof fn lemma_row_major_index_in_range(w: nat, h: nat, x: nat, y: nat)
    requires
        x < w,
        y < h,
    ensures
        y * w + x < w * h,
{
    assert(y * w + x < w * h) by (nonlinear_arith)
        requires
            x < w,
            y < h,
    ;
}

/// The larger of two pixel counts; the camera floors its computed image
/// height with `max_u32(1, ...)` so a frame is never empty.
pub fn max_u32(a: u32, b: u32) -> (r: u32)
    ensures
        r == if a > b {
            a
        } else {
            b
        },
{
    if a > b {
        a
    } else {
        b
    }
}

/// The column and row a flat row-major pixel index denotes, as the render
/// loop computes them: `x = idx % width`, `y = idx / width`.
pub fn pixel_coords(idx: usize, width: u32) -> (xy: (u32, u32))
    requires
        width > 0,
        idx < width * (u32::MAX as usize),
    ensures
        xy.0 == idx as int % width as int,
        xy.1 == idx as int / width as int,
        xy.1 * width + xy.0 == idx,
        xy.0 < width,
{
    let x = idx % (width as usize);
    let y = idx / (width as usize);
    proof {
        vstd::arithmetic::div_mod::lemma_fundamental_div_mod(idx as int, width as int);
        assert(idx == width * (idx as int / width as int) + idx as int % width as int);
        assert(y * width as int == width as int * y) by (nonlinear_arith);
        assert(y * width as int + x == idx);
        assert(y < u32::MAX as usize) by (nonlinear_arith)
            requires
                idx < width * (u32::MAX as usize),
                y == idx as int / width as int,
                width > 0,
        ;
    }
    (x as u32, y as u32)
}

} // verus!
