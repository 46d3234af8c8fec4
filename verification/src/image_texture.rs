//! A texture backed by a decoded raster image.
//!
//! Decoding an image file is the scene loader's job; the core receives
//! the finished pixel grid — width, height, and row-major RGB bytes —
//! and serves pixel lookups to the UV-mapping code.

use vstd::prelude::*;

use crate::colour::Rgb8;

verus! {

/// A decoded raster image: `width * height` pixels, three bytes each,
/// row-major with the top row first.
pub struct ImageTexture {
    width: u32,
    height: u32,
    data: Vec<u8>,
}

impl ImageTexture {
    /// The raw RGB bytes, three per pixel.
    pub closed spec fn data(self) -> Seq<u8> {
        self.data@
    }

    pub closed spec fn spec_width(self) -> u32 {
        self.width
    }

    pub closed spec fn spec_height(self) -> u32 {
        self.height
    }

    /// An image holds exactly three bytes per pixel.
    pub open spec fn wf(self) -> bool {
        self.data().len() == 3 * self.spec_width() * self.spec_height()
    }

    /// Wraps a decoded pixel grid; refuses byte data that does not
    /// amount to exactly three bytes per pixel.
    pub fn new(width: u32, height: u32, data: Vec<u8>) -> (r: Option<ImageTexture>)
        requires
            3 * width * height <= u32::MAX,
        ensures
            r is Some <==> data@.len() == 3 * width * height,
            r is Some ==> {
                &&& r->0.wf()
                &&& r->0.spec_width() == width
                &&& r->0.spec_height() == height
                &&& r->0.data() == data@
            },
    {
        proof {
            assert((width as int) * (height as int) * 3 == 3 * (width as int)
                * (height as int)) by (nonlinear_arith);
        }
        let n_bytes: usize = (width as usize) * (height as usize) * 3;
        if data.len() != n_bytes {
            return None;
        }
        Some(ImageTexture { width, height, data })
    }

    pub fn width(&self) -> (w: u32)
        ensures
            w == self.spec_width(),
    {
        self.width
    }

    pub fn height(&self) -> (h: u32)
        ensures
            h == self.spec_height(),
    {
        self.height
    }

    /// The first byte of pixel (i, j) in the byte data.
    pub open spec fn byte_index(self, i: int, j: int) -> int {
        3 * (j * self.spec_width() + i)
    }

    /// The colour of pixel (i, j), column `i` of row `j` counted from
    /// the top-left corner.
    pub fn pixel(&self, i: u32, j: u32) -> (c: Rgb8)
        requires
            self.wf(),
            i < self.spec_width(),
            j < self.spec_height(),
        ensures
            c.r == self.data()[self.byte_index(i as int, j as int)],
            c.g == self.data()[self.byte_index(i as int, j as int) + 1],
            c.b == self.data()[self.byte_index(i as int, j as int) + 2],
    {
        // the vector length carries the usize bound for the index arithmetic
        let _len: usize = self.data.len();
        proof {
            lemma_byte_index_in_range(
                i as int,
                j as int,
                self.spec_width() as int,
                self.spec_height() as int,
            );
        }
        let pos: usize = ((j as usize) * (self.width as usize) + (i as usize)) * 3;
        Rgb8 { r: self.data[pos], g: self.data[pos + 1], b: self.data[pos + 2] }
    }
}

/// The three bytes of pixel (i, j) lie inside the image's byte data.
proof fn lemma_byte_index_in_range(i: int, j: int, width: int, height: int)
    by (nonlinear_arith)
    requires
        0 <= i < width,
        0 <= j < height,
    ensures
        0 <= 3 * (j * width + i) && 3 * (j * width + i) + 2 < 3 * width * height,
        (j * width + i) * 3 == 3 * (j * width + i),
{
}

} // verus!
