//! The live view of a render in progress: an RGBA byte buffer that
//! absorbs per-pixel events as workers deliver them, plus a count of
//! how many pixels have arrived.
//!
//! The observer that displays the buffer polls it between batches;
//! correctness of the render does not depend on when it looks, only on
//! each event landing at its own pixel's four bytes.

use vstd::prelude::*;

use crate::colour::PixelData;

verus! {

/// The buffer after one event has landed: the event's pixel shows its
/// colour at full opacity, every other byte is unchanged.
pub open spec fn write_pixel(buffer: Seq<u8>, event: PixelData) -> Seq<u8> {
    buffer.update(4 * event.index, event.colour.r).update(
        4 * event.index + 1,
        event.colour.g,
    ).update(4 * event.index + 2, event.colour.b).update(4 * event.index + 3, 255u8)
}

/// The buffer after a batch of events has landed, in order.
pub open spec fn write_batch(buffer: Seq<u8>, events: Seq<PixelData>) -> Seq<u8>
    decreases events.len(),
{
    if events.len() == 0 {
        buffer
    } else {
        write_batch(write_pixel(buffer, events[0]), events.skip(1))
    }
}

/// Landing a batch and then one more event is landing the extended
/// batch.
proof fn lemma_write_batch_push(buffer: Seq<u8>, events: Seq<PixelData>, event: PixelData)
    ensures
        write_batch(buffer, events.push(event)) == write_pixel(write_batch(buffer, events), event),
    decreases events.len(),
{
    let p = events.push(event);
    if events.len() == 0 {
        assert(p[0] == event);
        assert(p.skip(1) =~= Seq::<PixelData>::empty());
        assert(write_batch(write_pixel(buffer, event), p.skip(1)) == write_pixel(buffer, event));
        assert(write_batch(buffer, events) == buffer);
    } else {
        assert(p[0] == events[0]);
        assert(p.skip(1) =~= events.skip(1).push(event));
        lemma_write_batch_push(write_pixel(buffer, events[0]), events.skip(1), event);
        assert(write_batch(buffer, p) == write_batch(write_pixel(buffer, p[0]), p.skip(1)));
    }
}

/// An RGBA byte image of a render in progress, fed by per-pixel
/// events.
pub struct FrameBuffer {
    image_buffer: Vec<u8>,
    image_width: u32,
    image_height: u32,
    pixels_received: u32,
}

impl FrameBuffer {
    /// The RGBA bytes, four per pixel, in row-major pixel order.
    pub closed spec fn buffer(self) -> Seq<u8> {
        self.image_buffer@
    }

    pub closed spec fn spec_width(self) -> u32 {
        self.image_width
    }

    pub closed spec fn spec_height(self) -> u32 {
        self.image_height
    }

    /// How many pixel events have been absorbed so far.
    pub closed spec fn spec_pixels_received(self) -> u32 {
        self.pixels_received
    }

    pub open spec fn wf(self) -> bool {
        self.buffer().len() == 4 * self.spec_width() * self.spec_height()
    }

    /// A fresh, fully transparent buffer: no pixel has arrived yet.
    pub fn new(image_width: u32, image_height: u32) -> (fb: FrameBuffer)
        requires
            4 * image_width * image_height <= u32::MAX,
        ensures
            fb.wf(),
            fb.spec_width() == image_width,
            fb.spec_height() == image_height,
            fb.spec_pixels_received() == 0,
            forall|k: int| 0 <= k < fb.buffer().len() ==> (#[trigger] fb.buffer()[k]) == 0u8,
    {
        proof {
            assert((image_width as int) * (image_height as int) * 4 == 4 * (image_width as int)
                * (image_height as int)) by (nonlinear_arith);
        }
        let n_bytes: usize = (image_width as usize) * (image_height as usize) * 4;
        let mut image_buffer: Vec<u8> = Vec::new();
        let mut k: usize = 0;
        while k < n_bytes
            invariant
                k <= n_bytes,
                image_buffer@.len() == k,
                forall|m: int| 0 <= m < k ==> (#[trigger] image_buffer@[m]) == 0u8,
            decreases n_bytes - k,
        {
            image_buffer.push(0);
            k = k + 1;
        }
        FrameBuffer { image_buffer, image_width, image_height, pixels_received: 0 }
    }

    pub fn width(&self) -> (w: u32)
        ensures
            w == self.spec_width(),
    {
        self.image_width
    }

    pub fn height(&self) -> (h: u32)
        ensures
            h == self.spec_height(),
    {
        self.image_height
    }

    /// How many pixel events have been absorbed so far.
    pub fn pixels_received(&self) -> (n: u32)
        ensures
            n == self.spec_pixels_received(),
    {
        self.pixels_received
    }

    /// True once every pixel of the image has arrived; the observer
    /// stops repainting then.
    pub fn is_complete(&self) -> (r: bool)
        requires
            self.spec_width() * self.spec_height() <= u32::MAX,
        ensures
            r == (self.spec_pixels_received() >= self.spec_width() * self.spec_height()),
    {
        self.pixels_received >= self.image_width * self.image_height
    }

    /// Absorbs a batch of pixel events: each event paints its pixel's
    /// four bytes (colour plus full opacity), later events overwriting
    /// earlier ones at the same pixel, and the count grows by the
    /// batch size.
    pub fn update_image(&mut self, batch: &Vec<PixelData>)
        requires
            old(self).wf(),
            forall|k: int|
                0 <= k < batch@.len() ==> (#[trigger] batch@[k]).index < old(self).spec_width()
                    * old(self).spec_height(),
            old(self).spec_pixels_received() + batch@.len() <= u32::MAX,
        ensures
            final(self).wf(),
            final(self).spec_width() == old(self).spec_width(),
            final(self).spec_height() == old(self).spec_height(),
            final(self).buffer() == write_batch(old(self).buffer(), batch@),
            final(self).spec_pixels_received() == old(self).spec_pixels_received()
                + batch@.len(),
    {
        let mut k: usize = 0;
        while k < batch.len()
            invariant
                k <= batch@.len(),
                self.wf(),
                self.spec_width() == old(self).spec_width(),
                self.spec_height() == old(self).spec_height(),
                self.spec_pixels_received() == old(self).spec_pixels_received() + k,
                self.buffer() == write_batch(old(self).buffer(), batch@.take(k as int)),
                forall|m: int|
                    0 <= m < batch@.len() ==> (#[trigger] batch@[m]).index < self.spec_width()
                        * self.spec_height(),
                old(self).spec_pixels_received() + batch@.len() <= u32::MAX,
            decreases batch@.len() - k,
        {
            // the buffer length carries the usize bound for the byte positions
            let _len: usize = self.image_buffer.len();
            let data = batch[k];
            proof {
                lemma_pixel_bytes_in_range(
                    data.index as int,
                    self.spec_width() as int,
                    self.spec_height() as int,
                );
            }
            self.pixels_received = self.pixels_received + 1;
            let pos: usize = (data.index as usize) * 4;
            self.image_buffer.set(pos, data.colour.r);
            self.image_buffer.set(pos + 1, data.colour.g);
            self.image_buffer.set(pos + 2, data.colour.b);
            self.image_buffer.set(pos + 3, 255);
            proof {
                lemma_write_batch_push(old(self).buffer(), batch@.take(k as int), batch@[k as int]);
                assert(batch@.take(k as int).push(batch@[k as int]) =~= batch@.take(k + 1));
            }
            k = k + 1;
        }
        proof {
            assert(batch@.take(batch@.len() as int) =~= batch@);
        }
    }

    /// Hands the accumulated RGBA bytes to the observer.
    pub fn bytes(&self) -> (bytes: &Vec<u8>)
        ensures
            bytes@ == self.buffer(),
    {
        &self.image_buffer
    }
}

/// The four bytes of the pixel with linear index `n` lie inside the
/// RGBA buffer.
proof fn lemma_pixel_bytes_in_range(n: int, width: int, height: int)
    by (nonlinear_arith)
    requires
        0 <= n < width * height,
    ensures
        0 <= 4 * n && 4 * n + 3 < 4 * width * height,
{
}

} // verus!
