use ray_tracing::colour::PixelData;
use ray_tracing::colour::Rgb8;
use ray_tracing::grid::linear_coords;
use ray_tracing::grid::PixelGrid;

#[test]
fn new_grid_is_black() {
    let g = PixelGrid::new(4, 3);
    assert_eq!(g.width(), 4);
    assert_eq!(g.height(), 3);
    for j in 0..3 {
        for i in 0..4 {
            assert_eq!(g.pixel(i, j), Rgb8::new(0, 0, 0));
        }
    }
}

#[test]
fn set_pixel_then_read_it_back() {
    let mut g = PixelGrid::new(4, 3);
    g.set_pixel(2, 1, Rgb8::new(10, 20, 30));
    assert_eq!(g.pixel(2, 1), Rgb8::new(10, 20, 30));
    // every other pixel is untouched
    for j in 0..3 {
        for i in 0..4 {
            if (i, j) != (2, 1) {
                assert_eq!(g.pixel(i, j), Rgb8::new(0, 0, 0));
            }
        }
    }
}

#[test]
fn set_index_is_row_major() {
    let mut g = PixelGrid::new(4, 3);
    // linear index 6 of a 4-wide grid is column 2 of row 1
    g.set_index(6, Rgb8::new(1, 2, 3));
    assert_eq!(g.pixel(2, 1), Rgb8::new(1, 2, 3));
    assert_eq!(g.pixel_at(6), Rgb8::new(1, 2, 3));
}

#[test]
fn linear_coords_decompose_row_major_indices() {
    assert_eq!(linear_coords(0, 4), (0, 0));
    assert_eq!(linear_coords(3, 4), (3, 0));
    assert_eq!(linear_coords(4, 4), (0, 1));
    assert_eq!(linear_coords(11, 4), (3, 2));
}

#[test]
fn from_linear_accepts_exactly_one_colour_per_pixel() {
    let mut colours = Vec::new();
    for n in 0..12 {
        colours.push(Rgb8::new(n as u8, 0, 0));
    }
    let g = PixelGrid::from_linear(4, 3, colours).unwrap();
    assert_eq!(g.pixel(1, 2), Rgb8::new(9, 0, 0));

    let short = vec![Rgb8::new(0, 0, 0); 11];
    assert!(PixelGrid::from_linear(4, 3, short).is_none());
}

#[test]
fn from_events_accepts_a_scrambled_complete_stream() {
    // 2x2 image delivered out of order
    let events = vec![
        PixelData::new(2, Rgb8::new(3, 3, 3)),
        PixelData::new(0, Rgb8::new(1, 1, 1)),
        PixelData::new(3, Rgb8::new(4, 4, 4)),
        PixelData::new(1, Rgb8::new(2, 2, 2)),
    ];
    let g = PixelGrid::from_events(2, 2, &events).unwrap();
    assert_eq!(g.pixel(0, 0), Rgb8::new(1, 1, 1));
    assert_eq!(g.pixel(1, 0), Rgb8::new(2, 2, 2));
    assert_eq!(g.pixel(0, 1), Rgb8::new(3, 3, 3));
    assert_eq!(g.pixel(1, 1), Rgb8::new(4, 4, 4));
}

#[test]
fn from_events_rejects_a_duplicated_pixel() {
    let events = vec![
        PixelData::new(0, Rgb8::new(1, 1, 1)),
        PixelData::new(1, Rgb8::new(2, 2, 2)),
        PixelData::new(1, Rgb8::new(9, 9, 9)),
        PixelData::new(3, Rgb8::new(4, 4, 4)),
    ];
    assert!(PixelGrid::from_events(2, 2, &events).is_none());
}

#[test]
fn from_events_rejects_a_missing_pixel() {
    let events = vec![
        PixelData::new(0, Rgb8::new(1, 1, 1)),
        PixelData::new(1, Rgb8::new(2, 2, 2)),
        PixelData::new(2, Rgb8::new(3, 3, 3)),
    ];
    assert!(PixelGrid::from_events(2, 2, &events).is_none());
}

#[test]
fn empty_image_accepts_exactly_the_empty_stream() {
    let g = PixelGrid::from_events(0, 0, &Vec::new()).unwrap();
    assert_eq!(g.width(), 0);
    assert_eq!(g.height(), 0);
    assert!(PixelGrid::from_events(0, 0, &vec![PixelData::new(0, Rgb8::new(1, 1, 1))]).is_none());
}

#[test]
fn single_pixel_image_takes_one_event() {
    let events = vec![PixelData::new(0, Rgb8::new(5, 6, 7))];
    let g = PixelGrid::from_events(1, 1, &events).unwrap();
    assert_eq!(g.pixel(0, 0), Rgb8::new(5, 6, 7));
}

#[test]
fn from_events_rejects_an_index_outside_the_image() {
    let events = vec![
        PixelData::new(0, Rgb8::new(1, 1, 1)),
        PixelData::new(1, Rgb8::new(2, 2, 2)),
        PixelData::new(2, Rgb8::new(3, 3, 3)),
        PixelData::new(4, Rgb8::new(5, 5, 5)),
    ];
    assert!(PixelGrid::from_events(2, 2, &events).is_none());
}
