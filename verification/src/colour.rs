//! RGB byte triples and the per-pixel events that the renderer emits.

use vstd::prelude::*;

verus! {

/// One displayable pixel colour: an 8-bit RGB triple.
#[derive(Clone, Copy, PartialEq, Eq, Structural, Debug)]
pub struct Rgb8 {
    pub r: u8,
    pub g: u8,
    pub b: u8,
}

impl Rgb8 {
    /// True of the colour that an untouched pixel holds.
    pub open spec fn is_black(self) -> bool {
        self.r == 0 && self.g == 0 && self.b == 0
    }

    pub fn new(r: u8, g: u8, b: u8) -> (c: Rgb8)
        ensures
            c.r == r,
            c.g == g,
            c.b == b,
    {
        Rgb8 { r, g, b }
    }

    pub fn black() -> (c: Rgb8)
        ensures
            c.is_black(),
    {
        Rgb8 { r: 0, g: 0, b: 0 }
    }
}

/// One finished pixel, as a worker reports it: the pixel's linear
/// row-major index and its tone-mapped colour.
#[derive(Clone, Copy, PartialEq, Eq, Structural, Debug)]
pub struct PixelData {
    pub index: u32,
    pub colour: Rgb8,
}

impl PixelData {
    pub fn new(index: u32, colour: Rgb8) -> (d: PixelData)
        ensures
            d.index == index,
            d.colour == colour,
    {
        PixelData { index, colour }
    }
}

} // verus!
