use pixglyph::bitmap::Bitmap;
use pixglyph::canvas::Canvas;
use pixglyph::outline::{Builder, Segment};
use pixglyph::placement::{buffer_len, cell_index, pixel_box, PixelBox, PADDING};

type P = (i32, i32);

#[test]
fn builder_assembles_segments_in_order() {
    let mut b: Builder<P> = Builder::new((0, 0));
    b.move_to((1, 1));
    b.line_to((5, 1));
    b.quad_to((6, 3), (5, 5));
    b.curve_to((4, 6), (2, 6), (1, 5));
    b.close();
    let segs = b.into_segments();
    assert_eq!(
        segs,
        vec![
            Segment::Line((1, 1), (5, 1)),
            Segment::Quad((5, 1), (6, 3), (5, 5)),
            Segment::Cubic((5, 5), (4, 6), (2, 6), (1, 5)),
            Segment::Line((1, 5), (1, 1)),
        ]
    );
}

#[test]
fn builder_close_without_open_contour_adds_nothing() {
    let mut b: Builder<P> = Builder::new((0, 0));
    b.close();
    b.move_to((2, 2));
    b.line_to((3, 4));
    b.close();
    b.close();
    let segs = b.into_segments();
    assert_eq!(segs, vec![Segment::Line((2, 2), (3, 4)), Segment::Line((3, 4), (2, 2))]);
}

#[test]
fn builder_starts_at_origin_before_any_move() {
    let mut b: Builder<P> = Builder::new((7, 8));
    b.line_to((9, 9));
    assert_eq!(b.into_segments(), vec![Segment::Line((7, 8), (9, 9))]);
}

#[test]
fn builder_keeps_each_contour_closed_separately() {
    let mut b: Builder<P> = Builder::new((0, 0));
    b.move_to((0, 0));
    b.line_to((4, 0));
    b.line_to((4, 4));
    b.close();
    b.move_to((1, 1));
    b.line_to((1, 2));
    b.close();
    let segs = b.into_segments();
    assert_eq!(segs.len(), 5);
    assert_eq!(segs[2], Segment::Line((4, 4), (0, 0)));
    assert_eq!(segs[4], Segment::Line((1, 2), (1, 1)));
}

#[test]
fn pixel_box_dimensions() {
    let b = pixel_box(-3, 7, 2, 12);
    assert_eq!(b, PixelBox { left: -3, top: 2, width: 10, height: 10 });
}

#[test]
fn pixel_box_degenerate_is_empty() {
    let b = pixel_box(5, 2, 0, 3);
    assert_eq!(b.width, 0);
    assert_eq!(b.height, 3);
    let c = pixel_box(0, 0, 4, 4);
    assert_eq!(c.width * c.height, 0);
}

#[test]
fn pixel_box_extreme_bounds() {
    let b = pixel_box(i32::MIN, i32::MAX, i32::MAX, i32::MIN);
    assert_eq!(b.width, u32::MAX);
    assert_eq!(b.height, 0);
}

#[test]
fn pixel_box_whole_pixel_translation() {
    let a = pixel_box(3, 11, -4, 6);
    let b = pixel_box(3 + 5, 11 + 5, -4, 6);
    assert_eq!(b.left, a.left + 5);
    assert_eq!((b.width, b.height), (a.width, a.height));
}

#[test]
fn pixel_box_grows_with_wider_bounds() {
    let small = pixel_box(2, 6, 1, 4);
    let large = pixel_box(1, 9, 0, 4);
    assert!(large.width >= small.width);
    assert!(large.height >= small.height);
}

#[test]
fn buffer_len_adds_padding() {
    assert_eq!(buffer_len(3, 4), Some(12 + PADDING));
    assert_eq!(buffer_len(0, 9), Some(PADDING));
}

#[test]
fn cell_index_rules() {
    assert_eq!(cell_index(10, 3, 20), Some(13));
    assert_eq!(cell_index(10, -1, 20), Some(9));
    assert_eq!(cell_index(0, -1, 20), None);
    assert_eq!(cell_index(18, 2, 20), None);
    assert_eq!(cell_index(18, 1, 20), Some(19));
}

#[test]
fn canvas_layout_and_dropped_writes() {
    let mut c: Canvas<i64> = Canvas::new(3, 2, 0).unwrap();
    assert_eq!(c.pixel_count(), 6);
    assert_eq!(c.row_len(), 3);
    assert_eq!(c.rows(), 2);
    assert_eq!(c.slot(1, 2), Some(5));
    assert_eq!(c.slot(1, 5), Some(8));
    assert_eq!(c.slot(1, 7), None);
    assert_eq!(c.slot(0, -1), None);
    c.set(4, 7);
    c.set(100, 9);
    assert_eq!(c.get(4), 7);
    for i in 0 .. 6 + PADDING {
        if i != 4 {
            assert_eq!(c.get(i), 0);
        }
    }
}

#[test]
fn bitmap_empty_has_no_pixels() {
    let b = Bitmap::empty(4, -2);
    assert_eq!((b.left, b.top, b.width, b.height), (4, -2, 0, 0));
    assert!(b.coverage.is_empty());
}

#[test]
fn bitmap_from_coverage_checks_length() {
    assert!(Bitmap::from_coverage(0, 0, 2, 2, vec![0, 1, 2]).is_none());
    let b = Bitmap::from_coverage(1, 2, 2, 2, vec![0, 64, 128, 255]).unwrap();
    assert_eq!((b.left, b.top, b.width, b.height), (1, 2, 2, 2));
    assert_eq!(b.coverage_at(1, 0), Some(64));
    assert_eq!(b.coverage_at(0, 1), Some(128));
    assert_eq!(b.coverage_at(1, 1), Some(255));
    assert_eq!(b.coverage_at(2, 0), None);
    assert_eq!(b.coverage_at(0, 2), None);
}
