//! The uniform in-memory image representation: an owned grid of RGBA pixels,
//! four bytes per pixel, rows stored top to bottom with no padding.

use vstd::prelude::*;

verus! {

/// Row-major linear indices of two distinct in-range pixels differ.
proof fn lemma_pixel_index_distinct(w: int, h: int, x1: int, y1: int, x2: int, y2: int)
    requires
        0 <= x1 < w,
        0 <= y1 < h,
        0 <= x2 < w,
        0 <= y2 < h,
        !(x1 == x2 && y1 == y2),
    ensures
        y1 * w + x1 != y2 * w + x2,
{
    if y1 != y2 {
        if y1 < y2 {
            assert((y2 - y1) * w >= 1 * w) by (nonlinear_arith)
                requires
                    y2 - y1 >= 1,
                    w >= 1,
            ;
            assert(y2 * w - y1 * w == (y2 - y1) * w) by (nonlinear_arith);
        } else {
            assert((y1 - y2) * w >= 1 * w) by (nonlinear_arith)
                requires
                    y1 - y2 >= 1,
                    w >= 1,
            ;
            assert(y1 * w - y2 * w == (y1 - y2) * w) by (nonlinear_arith);
        }
    }
}

/// An in-range pixel's linear index stays below `w * h`.
proof fn lemma_pixel_index_in_range(w: int, h: int, x: int, y: int)
    requires
        0 <= x < w,
        0 <= y < h,
    ensures
        0 <= y * w + x < w * h,
{
    assert(y * w + x < w * h) by (nonlinear_arith)
        requires
            0 <= x < w,
            0 <= y < h,
    ;
    assert(y * w >= 0) by (nonlinear_arith)
        requires
            y >= 0,
            w >= 1,
    ;
}

/// An owned grid of RGBA pixels. Pixel `(x, y)` occupies the four bytes at
/// offset `4 * (y * width + x)`, in the channel order r, g, b, a.
#[derive(Debug)]
pub struct PixelBuffer {
    pub width: u32,
    pub height: u32,
    pub data: Vec<u8>,
}

impl PixelBuffer {
    /// The buffer holds exactly four bytes for each of its
    /// `width * height` pixels.
    pub open spec fn wf(self) -> bool {
        self.data@.len() == 4 * ((self.width as int) * (self.height as int))
    }

    pub open spec fn spec_width(self) -> u32 {
        self.width
    }

    pub open spec fn spec_height(self) -> u32 {
        self.height
    }

    /// The raw bytes, row-major RGBA.
    pub open spec fn spec_data(self) -> Seq<u8> {
        self.data@
    }

    /// Byte offset of the first channel of the pixel at `(x, y)`.
    pub open spec fn pixel_base(self, x: int, y: int) -> int {
        4 * (y * (self.width as int) + x)
    }

    /// The four channels (r, g, b, a) of the pixel at `(x, y)`.
    pub open spec fn pixel_spec(self, x: int, y: int) -> (u8, u8, u8, u8) {
        let base = self.pixel_base(x, y);
        (self.data@[base], self.data@[base + 1], self.data@[base + 2], self.data@[base + 3])
    }

    pub fn width(&self) -> (r: u32)
        ensures
            r == self.spec_width(),
    {
        self.width
    }

    pub fn height(&self) -> (r: u32)
        ensures
            r == self.spec_height(),
    {
        self.height
    }

    /// A fully transparent black buffer of the given dimensions.
    pub fn new(width: u32, height: u32) -> (r: PixelBuffer)
        requires
            4 * ((width as int) * (height as int)) <= usize::MAX,
        ensures
            r.wf(),
            r.spec_width() == width,
            r.spec_height() == height,
            forall|i: int| 0 <= i < r.spec_data().len() ==> r.spec_data()[i] == 0,
    {
        let len: usize = 4 * ((width as usize) * (height as usize));
        let mut data: Vec<u8> = Vec::new();
        while data.len() < len
            invariant
                data@.len() <= len,
                forall|i: int| 0 <= i < data@.len() ==> data@[i] == 0,
            decreases len - data@.len(),
        {
            data.push(0);
        }
        PixelBuffer { width, height, data }
    }

    /// Wraps decoded row-major RGBA bytes as a buffer without copying.
    pub fn from_rgba(width: u32, height: u32, data: Vec<u8>) -> (r: PixelBuffer)
        requires
            data@.len() == 4 * ((width as int) * (height as int)),
        ensures
            r.wf(),
            r.spec_width() == width,
            r.spec_height() == height,
            r.spec_data() == data@,
    {
        PixelBuffer { width, height, data }
    }

    /// Gives the raw bytes back, row-major RGBA.
    pub fn into_raw(self) -> (r: Vec<u8>)
        ensures
            r@ == self.spec_data(),
    {
        self.data
    }

    /// The four channels of the pixel at `(x, y)`.
    pub fn get_pixel(&self, x: u32, y: u32) -> (rgba: (u8, u8, u8, u8))
        requires
            self.wf(),
            x < self.spec_width(),
            y < self.spec_height(),
        ensures
            rgba == self.pixel_spec(x as int, y as int),
    {
        let n: usize = self.data.len();
        proof {
            lemma_pixel_index_in_range(
                self.width as int,
                self.height as int,
                x as int,
                y as int,
            );
            assert(4 * ((y as int) * (self.width as int) + (x as int)) + 3 < n as int);
        }
        let base: usize = 4 * ((y as usize) * (self.width as usize) + (x as usize));
        (self.data[base], self.data[base + 1], self.data[base + 2], self.data[base + 3])
    }

    /// Overwrites the pixel at `(x, y)`; every other pixel keeps its value.
    pub fn put_pixel(&mut self, x: u32, y: u32, rgba: (u8, u8, u8, u8))
        requires
            old(self).wf(),
            x < old(self).spec_width(),
            y < old(self).spec_height(),
        ensures
            final(self).wf(),
            final(self).spec_width() == old(self).spec_width(),
            final(self).spec_height() == old(self).spec_height(),
            final(self).pixel_spec(x as int, y as int) == rgba,
            forall|xx: int, yy: int|
                0 <= xx < old(self).spec_width() && 0 <= yy < old(self).spec_height() && !(xx == x
                    && yy == y) ==> final(self).pixel_spec(xx, yy) == old(self).pixel_spec(xx, yy),
    {
        let n: usize = self.data.len();
        proof {
            lemma_pixel_index_in_range(
                self.width as int,
                self.height as int,
                x as int,
                y as int,
            );
            assert(4 * ((y as int) * (self.width as int) + (x as int)) + 3 < n as int);
        }
        let base: usize = 4 * ((y as usize) * (self.width as usize) + (x as usize));
        self.data[base] = rgba.0;
        self.data[base + 1] = rgba.1;
        self.data[base + 2] = rgba.2;
        self.data[base + 3] = rgba.3;
        proof {
            let w = old(self).spec_width() as int;
            let h = old(self).spec_height() as int;
            assert forall|xx: int, yy: int|
                0 <= xx < w && 0 <= yy < h && !(xx == x && yy == y) implies self.pixel_spec(
                xx,
                yy,
            ) == old(self).pixel_spec(xx, yy) by {
                lemma_pixel_index_distinct(w, h, xx, yy, x as int, y as int);
                lemma_pixel_index_in_range(w, h, xx, yy);
            }
        }
    }
}

} // verus!
