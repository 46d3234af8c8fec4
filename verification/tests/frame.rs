use ray_tracing::colour::PixelData;
use ray_tracing::colour::Rgb8;
use ray_tracing::frame::FrameBuffer;

#[test]
fn new_frame_buffer_is_transparent_black() {
    let fb = FrameBuffer::new(3, 2);
    assert_eq!(fb.width(), 3);
    assert_eq!(fb.height(), 2);
    assert_eq!(fb.pixels_received(), 0);
    assert_eq!(fb.bytes().len(), 24);
    assert!(fb.bytes().iter().all(|&b| b == 0));
}

#[test]
fn update_image_paints_four_bytes_per_event() {
    let mut fb = FrameBuffer::new(3, 2);
    let batch = vec![PixelData::new(4, Rgb8::new(10, 20, 30))];
    fb.update_image(&batch);
    assert_eq!(fb.pixels_received(), 1);
    let bytes = fb.bytes();
    assert_eq!(&bytes[16..20], &[10, 20, 30, 255]);
    // all other bytes are untouched
    for (pos, &b) in bytes.iter().enumerate() {
        if !(16..20).contains(&pos) {
            assert_eq!(b, 0);
        }
    }
}

#[test]
fn update_image_counts_every_event() {
    let mut fb = FrameBuffer::new(2, 2);
    fb.update_image(&vec![
        PixelData::new(0, Rgb8::new(1, 1, 1)),
        PixelData::new(2, Rgb8::new(2, 2, 2)),
    ]);
    fb.update_image(&vec![PixelData::new(1, Rgb8::new(3, 3, 3))]);
    assert_eq!(fb.pixels_received(), 3);
    assert!(!fb.is_complete());
    fb.update_image(&vec![PixelData::new(3, Rgb8::new(4, 4, 4))]);
    assert_eq!(fb.pixels_received(), 4);
    assert!(fb.is_complete());
}

#[test]
fn empty_batch_changes_nothing() {
    let mut fb = FrameBuffer::new(2, 2);
    fb.update_image(&Vec::new());
    assert_eq!(fb.pixels_received(), 0);
    assert!(fb.bytes().iter().all(|&b| b == 0));
}

#[test]
fn a_full_stream_fills_the_frame_and_the_grid_alike() {
    // the same event stream drives the live view and the final image
    let width = 3;
    let height = 2;
    let mut events = Vec::new();
    for n in [4u32, 1, 3, 0, 5, 2] {
        events.push(PixelData::new(n, Rgb8::new(n as u8, 0, 255 - n as u8)));
    }

    let mut fb = FrameBuffer::new(width, height);
    for e in &events {
        fb.update_image(&vec![*e]);
    }
    assert!(fb.is_complete());

    let grid = ray_tracing::grid::PixelGrid::from_events(width, height, &events).unwrap();
    for n in 0..6u32 {
        let c = grid.pixel_at(n);
        assert_eq!(c, Rgb8::new(n as u8, 0, 255 - n as u8));
        let bytes = fb.bytes();
        let pos = (n * 4) as usize;
        assert_eq!(&bytes[pos..pos + 4], &[c.r, c.g, c.b, 255]);
    }
}

#[test]
fn later_event_overwrites_earlier_one() {
    let mut fb = FrameBuffer::new(2, 1);
    fb.update_image(&vec![
        PixelData::new(1, Rgb8::new(1, 2, 3)),
        PixelData::new(1, Rgb8::new(7, 8, 9)),
    ]);
    assert_eq!(&fb.bytes()[4..8], &[7, 8, 9, 255]);
}
