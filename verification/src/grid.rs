//! The renderer's output image: a row-major grid of RGB byte triples,
//! top row first, with pixel (i, j) at linear index `j * width + i`.
//!
//! Workers may deliver pixels out of order, as `PixelData` events; a
//! grid can be assembled from such an event stream exactly when every
//! pixel index is reported exactly once.

use vstd::prelude::*;

use crate::colour::PixelData;
use crate::colour::Rgb8;

verus! {

/// Every event names a pixel inside a grid of `n_pixels` pixels.
pub open spec fn indices_in_range(events: Seq<PixelData>, n_pixels: int) -> bool {
    forall|k: int| 0 <= k < events.len() ==> (#[trigger] events[k]).index < n_pixels
}

/// No two events name the same pixel.
pub open spec fn indices_distinct(events: Seq<PixelData>) -> bool {
    forall|k1: int, k2: int|
        0 <= k1 < k2 < events.len() ==> events[k1].index != events[k2].index
}

/// The event stream covers a grid of `n_pixels` pixels completely:
/// every pixel index is reported exactly once.
pub open spec fn covers_exactly(events: Seq<PixelData>, n_pixels: int) -> bool {
    &&& events.len() == n_pixels
    &&& indices_in_range(events, n_pixels)
    &&& indices_distinct(events)
}

/// Some event of the stream carries pixel index `p`.
pub open spec fn reports_pixel(events: Seq<PixelData>, p: int) -> bool {
    exists|k: int| 0 <= k < events.len() && (#[trigger] events[k]).index == p
}

/// A stream that covers a grid exactly misses no pixel: as many
/// in-range events as pixels, none repeated, leaves every pixel index
/// reported by some event.
pub proof fn lemma_covers_exactly_reports_every_pixel(events: Seq<PixelData>, n_pixels: int)
    requires
        covers_exactly(events, n_pixels),
    ensures
        forall|p: int| 0 <= p < n_pixels ==> #[trigger] reports_pixel(events, p),
{
    broadcast use vstd::set::group_set_axioms;

    let idxs = events.map_values(|e: PixelData| e.index as int);
    assert(idxs.no_duplicates()) by {
        assert forall|i: int, j: int|
            0 <= i < idxs.len() && 0 <= j < idxs.len() && i != j implies idxs[i] != idxs[j] by {
            if i < j {
                assert(events[i].index != events[j].index);
            } else {
                assert(events[j].index != events[i].index);
            }
        }
    }
    idxs.unique_seq_to_set();
    let s = idxs.to_set();
    let r = vstd::set_lib::set_int_range(0, n_pixels);
    vstd::set_lib::lemma_int_range(0, n_pixels);
    assert(s.subset_of(r)) by {
        assert forall|x: int| s.contains(x) implies r.contains(x) by {
            let k = choose|k: int| 0 <= k < idxs.len() && idxs[k] == x;
            assert(events[k].index < n_pixels);
        }
    }
    vstd::set_lib::lemma_subset_equality(s, r);
    assert forall|p: int| 0 <= p < n_pixels implies #[trigger] reports_pixel(events, p) by {
        assert(r.contains(p));
        assert(idxs.contains(p));
        let k = choose|k: int| 0 <= k < idxs.len() && idxs[k] == p;
        assert((events[k]).index == p);
    }
}

/// A row-major image of `width * height` RGB byte triples.
pub struct PixelGrid {
    width: u32,
    height: u32,
    pixels: Vec<Rgb8>,
}

impl PixelGrid {
    /// The pixel contents in row-major order, top row first.
    pub closed spec fn pixels(self) -> Seq<Rgb8> {
        self.pixels@
    }

    pub closed spec fn spec_width(self) -> u32 {
        self.width
    }

    pub closed spec fn spec_height(self) -> u32 {
        self.height
    }

    /// A grid holds exactly one colour per pixel.
    pub open spec fn wf(self) -> bool {
        self.pixels().len() == self.spec_width() * self.spec_height()
    }

    /// A fresh grid: every pixel starts black.
    pub fn new(width: u32, height: u32) -> (g: PixelGrid)
        requires
            width * height <= u32::MAX,
        ensures
            g.wf(),
            g.spec_width() == width,
            g.spec_height() == height,
            forall|k: int| 0 <= k < g.pixels().len() ==> (#[trigger] g.pixels()[k]).is_black(),
    {
        let n_pixels: usize = (width as usize) * (height as usize);
        let mut pixels: Vec<Rgb8> = Vec::new();
        let mut k: usize = 0;
        while k < n_pixels
            invariant
                k <= n_pixels,
                pixels@.len() == k,
                forall|m: int| 0 <= m < k ==> (#[trigger] pixels@[m]).is_black(),
            decreases n_pixels - k,
        {
            pixels.push(Rgb8::black());
            k = k + 1;
        }
        PixelGrid { width, height, pixels }
    }

    pub fn width(&self) -> (w: u32)
        ensures
            w == self.spec_width(),
    {
        self.width
    }

    pub fn height(&self) -> (h: u32)
        ensures
            h == self.spec_height(),
    {
        self.height
    }

    /// The linear row-major index of pixel (i, j).
    pub open spec fn pixel_index(self, i: int, j: int) -> int {
        j * self.spec_width() + i
    }

    /// Paints pixel (i, j); every other pixel keeps its colour.
    pub fn set_pixel(&mut self, i: u32, j: u32, colour: Rgb8)
        requires
            old(self).wf(),
            i < old(self).spec_width(),
            j < old(self).spec_height(),
        ensures
            final(self).wf(),
            final(self).spec_width() == old(self).spec_width(),
            final(self).spec_height() == old(self).spec_height(),
            final(self).pixels() == old(self).pixels().update(
                old(self).pixel_index(i as int, j as int),
                colour,
            ),
    {
        // the vector length carries the usize bound for the index arithmetic
        let _len: usize = self.pixels.len();
        proof {
            lemma_pixel_index_in_range(
                i as int,
                j as int,
                self.spec_width() as int,
                self.spec_height() as int,
            );
        }
        let n: usize = (j as usize) * (self.width as usize) + (i as usize);
        self.pixels.set(n, colour);
    }

    /// Paints the pixel with linear index `n`; every other pixel keeps
    /// its colour.
    pub fn set_index(&mut self, n: u32, colour: Rgb8)
        requires
            old(self).wf(),
            n < old(self).spec_width() * old(self).spec_height(),
        ensures
            final(self).wf(),
            final(self).spec_width() == old(self).spec_width(),
            final(self).spec_height() == old(self).spec_height(),
            final(self).pixels() == old(self).pixels().update(n as int, colour),
    {
        self.pixels.set(n as usize, colour);
    }

    /// The colour of pixel (i, j).
    pub fn pixel(&self, i: u32, j: u32) -> (c: Rgb8)
        requires
            self.wf(),
            i < self.spec_width(),
            j < self.spec_height(),
        ensures
            c == self.pixels()[self.pixel_index(i as int, j as int)],
    {
        // the vector length carries the usize bound for the index arithmetic
        let _len: usize = self.pixels.len();
        proof {
            lemma_pixel_index_in_range(
                i as int,
                j as int,
                self.spec_width() as int,
                self.spec_height() as int,
            );
        }
        let n: usize = (j as usize) * (self.width as usize) + (i as usize);
        self.pixels[n]
    }

    /// The colour of the pixel with linear index `n`.
    pub fn pixel_at(&self, n: u32) -> (c: Rgb8)
        requires
            self.wf(),
            n < self.spec_width() * self.spec_height(),
        ensures
            c == self.pixels()[n as int],
    {
        self.pixels[n as usize]
    }

    /// Wraps a linear buffer of colours, one per pixel in row-major
    /// order, as a grid; refuses a buffer of the wrong length.
    pub fn from_linear(width: u32, height: u32, colours: Vec<Rgb8>) -> (r: Option<PixelGrid>)
        requires
            width * height <= u32::MAX,
        ensures
            r is Some <==> colours@.len() == width * height,
            r is Some ==> {
                &&& r->0.wf()
                &&& r->0.spec_width() == width
                &&& r->0.spec_height() == height
                &&& r->0.pixels() == colours@
            },
    {
        let n_pixels: usize = (width as usize) * (height as usize);
        if colours.len() != n_pixels {
            return None;
        }
        Some(PixelGrid { width, height, pixels: colours })
    }

    /// Assembles a grid from per-pixel events, in whatever order the
    /// workers produced them. Succeeds exactly when every pixel index
    /// is reported exactly once; each reported pixel then shows the
    /// colour its event carried.
    pub fn from_events(width: u32, height: u32, events: &Vec<PixelData>) -> (r: Option<
        PixelGrid,
    >)
        requires
            width * height <= u32::MAX,
        ensures
            r is Some <==> covers_exactly(events@, width * height),
            r is Some ==> {
                &&& r->0.wf()
                &&& r->0.spec_width() == width
                &&& r->0.spec_height() == height
                &&& forall|k: int|
                    0 <= k < events@.len() ==> r->0.pixels()[(#[trigger] events@[k]).index as int]
                        == events@[k].colour
            },
    {
        let n_pixels: usize = (width as usize) * (height as usize);
        if events.len() != n_pixels {
            return None;
        }
        let mut grid = PixelGrid::new(width, height);
        let mut seen: Vec<bool> = Vec::new();
        let mut m: usize = 0;
        while m < n_pixels
            invariant
                m <= n_pixels,
                seen@.len() == m,
                forall|v: int| 0 <= v < m ==> !(#[trigger] seen@[v]),
            decreases n_pixels - m,
        {
            seen.push(false);
            m = m + 1;
        }
        let mut k: usize = 0;
        while k < events.len()
            invariant
                k <= events@.len(),
                events@.len() == n_pixels,
                n_pixels == width * height,
                seen@.len() == n_pixels,
                grid.wf(),
                grid.spec_width() == width,
                grid.spec_height() == height,
                forall|k2: int| 0 <= k2 < k ==> (#[trigger] events@[k2]).index < n_pixels,
                forall|k1: int, k2: int|
                    0 <= k1 < k2 < k ==> events@[k1].index != events@[k2].index,
                forall|v: int|
                    0 <= v < n_pixels ==> ((#[trigger] seen@[v]) <==> exists|k2: int|
                        0 <= k2 < k && (#[trigger] events@[k2]).index == v),
                forall|k2: int|
                    0 <= k2 < k ==> grid.pixels()[(#[trigger] events@[k2]).index as int]
                        == events@[k2].colour,
            decreases events@.len() - k,
        {
            let idx: u32 = events[k].index;
            if idx as usize >= n_pixels {
                assert(!indices_in_range(events@, width * height));
                return None;
            }
            if seen[idx as usize] {
                assert(!indices_distinct(events@));
                return None;
            }
            assert(forall|k1: int|
                0 <= k1 < k ==> (#[trigger] events@[k1]).index != events@[k as int].index);
            seen.set(idx as usize, true);
            grid.set_index(idx, events[k].colour);
            k = k + 1;
            assert(forall|v: int|
                0 <= v < n_pixels && seen@[v] ==> exists|k2: int|
                    0 <= k2 < k && (#[trigger] events@[k2]).index == v) by {
                assert(forall|v: int|
                    0 <= v < n_pixels && v != idx && seen@[v] ==> exists|k2: int|
                        0 <= k2 < k && (#[trigger] events@[k2]).index == v);
                assert(events@[k - 1].index == idx as int);
            }
        }
        Some(grid)
    }
}

/// Pixel (i, j) of a `width`-by-`height` grid lies inside the linear
/// pixel buffer.
proof fn lemma_pixel_index_in_range(i: int, j: int, width: int, height: int)
    by (nonlinear_arith)
    requires
        0 <= i < width,
        0 <= j < height,
    ensures
        0 <= j * width + i < width * height,
{
}

/// The (column, row) coordinates of the pixel with linear row-major
/// index `n`, as the parallel renderer derives them.
pub fn linear_coords(n: u32, width: u32) -> (ij: (u32, u32))
    requires
        width > 0,
    ensures
        ij.0 == n % width,
        ij.1 == n / width,
        ij.0 < width,
        n == ij.1 * width + ij.0,
{
    let i: u32 = n % width;
    let j: u32 = n / width;
    assert(n == (n / width) * width + n % width) by (nonlinear_arith)
        requires
            width > 0,
    ;
    (i, j)
}

/// A linear pixel index inside the grid decomposes to a row inside the
/// grid as well.
pub proof fn lemma_linear_coords_in_range(n: int, width: int, height: int)
    by (nonlinear_arith)
    requires
        width > 0,
        0 <= n < width * height,
    ensures
        n / width < height,
{
}

} // verus!
