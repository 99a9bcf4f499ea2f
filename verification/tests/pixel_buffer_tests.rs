use lobber::pixel_buffer::{PixelBuffer, Rgb};

fn red() -> Rgb {
    Rgb::new(255, 0, 0)
}

#[test]
fn new_buffer_has_two_pixel_rows_per_cell_and_is_black() {
    let pb = PixelBuffer::new(4, 3);
    assert_eq!(pb.width, 4);
    assert_eq!(pb.height, 6);
    assert_eq!((pb.width(), pb.height()), (4, 6));
    for y in 0..6 {
        for x in 0..4 {
            assert_eq!(pb.get(x, y), Rgb::black());
        }
    }
}

#[test]
fn rgb_new_keeps_channels() {
    let c = Rgb::new(1, 2, 3);
    assert_eq!((c.r, c.g, c.b), (1, 2, 3));
    assert_eq!(Rgb::black(), Rgb::new(0, 0, 0));
}

#[test]
fn read_after_write() {
    let mut pb = PixelBuffer::new(5, 2);
    pb.set(3, 2, red());
    assert_eq!(pb.get(3, 2), red());
    assert_eq!(pb.get(2, 3), Rgb::black());
    assert_eq!(pb.get(3, 1), Rgb::black());
    assert_eq!(pb.get(4, 2), Rgb::black());
}

#[test]
fn last_write_wins() {
    let mut pb = PixelBuffer::new(2, 1);
    pb.set(1, 1, red());
    pb.set(1, 1, Rgb::new(0, 9, 0));
    assert_eq!(pb.get(1, 1), Rgb::new(0, 9, 0));
}

#[test]
fn writes_commute() {
    let mut a = PixelBuffer::new(3, 2);
    let mut b = PixelBuffer::new(3, 2);
    a.set(0, 0, red());
    a.set(2, 3, Rgb::new(1, 1, 1));
    b.set(2, 3, Rgb::new(1, 1, 1));
    b.set(0, 0, red());
    for y in 0..4 {
        for x in 0..3 {
            assert_eq!(a.get(x, y), b.get(x, y));
        }
    }
}

#[test]
fn out_of_bounds_set_is_ignored_and_get_is_black() {
    let mut pb = PixelBuffer::new(2, 1);
    pb.set(2, 0, red());
    pb.set(0, 2, red());
    for y in 0..2 {
        for x in 0..2 {
            assert_eq!(pb.get(x, y), Rgb::black());
        }
    }
    pb.clear(red());
    assert_eq!(pb.get(5, 0), Rgb::black());
    assert_eq!(pb.get(0, 5), Rgb::black());
}

#[test]
fn clear_paints_everything() {
    let mut pb = PixelBuffer::new(3, 2);
    pb.set(1, 1, Rgb::new(7, 7, 7));
    pb.clear(red());
    for y in 0..4 {
        for x in 0..3 {
            assert_eq!(pb.get(x, y), red());
        }
    }
}

#[test]
fn fill_column_paints_inclusive_span() {
    let mut pb = PixelBuffer::new(3, 3);
    pb.fill_column(1, 2, 4, red());
    for y in 0..6 {
        for x in 0..3 {
            let expected = if x == 1 && (2..=4).contains(&y) { red() } else { Rgb::black() };
            assert_eq!(pb.get(x, y), expected);
        }
    }
}

#[test]
fn fill_column_paints_only_rows_inside_the_buffer() {
    let mut pb = PixelBuffer::new(2, 2);
    pb.fill_column(0, 10, 20, red());
    for y in 0..4 {
        assert_eq!(pb.get(0, y), Rgb::black());
    }
    pb.fill_column(0, 4, 4, red());
    for y in 0..4 {
        assert_eq!(pb.get(0, y), Rgb::black());
    }
    pb.fill_column(1, 2, 99, red());
    assert_eq!(pb.get(1, 1), Rgb::black());
    assert_eq!(pb.get(1, 2), red());
    assert_eq!(pb.get(1, 3), red());
}

#[test]
fn fill_column_on_empty_buffer_does_nothing() {
    let mut pb = PixelBuffer::new(3, 0);
    pb.fill_column(1, 0, 5, red());
    assert_eq!(pb.get(1, 0), Rgb::black());
    assert_eq!((pb.width(), pb.height()), (3, 0));
}

#[test]
fn fill_column_with_reversed_span_paints_nothing() {
    let mut pb = PixelBuffer::new(2, 2);
    pb.fill_column(0, 3, 1, red());
    for y in 0..4 {
        assert_eq!(pb.get(0, y), Rgb::black());
    }
}

#[test]
fn fill_column_outside_is_ignored() {
    let mut pb = PixelBuffer::new(2, 2);
    pb.fill_column(2, 0, 3, red());
    for y in 0..4 {
        for x in 0..2 {
            assert_eq!(pb.get(x, y), Rgb::black());
        }
    }
}

#[test]
fn halfblock_cell_pairs_upper_and_lower_pixel() {
    let mut pb = PixelBuffer::new(2, 2);
    pb.set(1, 2, red());
    pb.set(1, 3, Rgb::new(0, 0, 200));
    assert_eq!(pb.halfblock_cell(1, 1), (red(), Rgb::new(0, 0, 200)));
    assert_eq!(pb.halfblock_cell(1, 0), (Rgb::black(), Rgb::black()));
    assert_eq!(pb.halfblock_cell(0, 7), (Rgb::black(), Rgb::black()));
}
