use piet_b::geom::Point;
use piet_b::layout::{build_layout, GlyphRecord, SectionMetrics, ShapedText, ShapingOutcome};
use piet_b::Error;

fn glyph(byte_index: usize, x: i64, y: i64) -> GlyphRecord {
    GlyphRecord { byte_index, x, y, width: 18, height: 20, section_index: 0 }
}

fn test_metrics() -> Vec<SectionMetrics> {
    vec![SectionMetrics { ascent: 16, descent: -4, height: 20, line_gap: 4 }]
}

fn hello_piet_layout() -> piet_b::layout::PietTextLayout {
    let mut glyphs = Vec::new();
    for (i, x) in [10i64, 30, 50, 70, 90, 110].iter().enumerate() {
        glyphs.push(glyph(i, *x, 36));
    }
    for (i, x) in [10i64, 30, 50, 70, 90].iter().enumerate() {
        glyphs.push(glyph(7 + i, *x, 12));
    }
    build_layout(
        b"Hello,\npiet.".to_vec(),
        7,
        ShapingOutcome::Shaped(ShapedText { width: 120, height: 48, glyphs }),
        test_metrics(),
        1,
    )
    .unwrap()
}

#[test]
fn point_at_a_glyph_centre_hits_that_glyph() {
    let layout = hello_piet_layout();
    // The glyph of byte 1 is centred at (30, 36) bottom-up, i.e.
    // (30, 12) in the layout's top-down space.
    let r = layout.hit_test_point(Point { x: 30, y: 12 });
    assert_eq!(r.byte_index, 1);
    assert!(r.is_inside);
}

#[test]
fn point_far_outside_all_glyphs_is_not_inside() {
    let layout = hello_piet_layout();
    let r = layout.hit_test_point(Point { x: -1000, y: -1000 });
    assert!(!r.is_inside);
    // The nearest glyph of the chosen (first) line is its leftmost.
    assert_eq!(r.byte_index, 0);
}

#[test]
fn point_below_every_line_falls_to_the_last_line() {
    let layout = hello_piet_layout();
    let r = layout.hit_test_point(Point { x: 10, y: 10_000 });
    assert!(!r.is_inside);
    // Nearest glyph on line 2 under x = 10 is its first, byte 7.
    assert_eq!(r.byte_index, 7);
}

#[test]
fn point_in_the_second_line_hits_second_line_glyphs() {
    let layout = hello_piet_layout();
    // Byte 9's glyph is centred at (50, 12) bottom-up = (50, 36) top-down.
    let r = layout.hit_test_point(Point { x: 50, y: 36 });
    assert_eq!(r.byte_index, 9);
    assert!(r.is_inside);
}

#[test]
fn equidistant_glyphs_resolve_to_the_first_encountered() {
    let layout = hello_piet_layout();
    // x = 20 on line 1 (top-down y = 12 - 11 = just above the glyphs):
    // pick a point equidistant from the centres at x = 10 and x = 30,
    // outside both rectangles.
    let r = layout.hit_test_point(Point { x: 20, y: -32 });
    assert!(!r.is_inside);
    assert_eq!(r.byte_index, 0);
}

#[test]
fn caret_for_offset_zero_sits_on_line_zero() {
    let layout = hello_piet_layout();
    let p = layout.hit_test_text_position(0).unwrap();
    assert_eq!(p.line_number, 0);
    // x is the left edge of the first glyph, at most its right edge.
    assert_eq!(p.point.x, 1);
    assert!(p.point.x <= 10 + 9);
    assert_eq!(p.point.y, 16);
}

#[test]
fn caret_for_an_offset_without_a_glyph_attaches_to_the_previous_glyph() {
    let layout = hello_piet_layout();
    // Byte 6 is the newline: no glyph; the caret attaches to the
    // trailing glyph of "Hello," (byte 5, centred at x = 110).
    let p = layout.hit_test_text_position(6).unwrap();
    assert_eq!(p.line_number, 0);
    assert_eq!(p.point.x, 101);
}

#[test]
fn caret_on_the_second_line_uses_its_offsets_and_baseline() {
    let layout = hello_piet_layout();
    let p = layout.hit_test_text_position(7).unwrap();
    assert_eq!(p.line_number, 1);
    assert_eq!(p.point.x, 1);
    // y_offset 24 plus baseline 16.
    assert_eq!(p.point.y, 40);
}

#[test]
fn caret_offset_is_clamped_to_the_text_length() {
    let layout = hello_piet_layout();
    let p = layout.hit_test_text_position(9999).unwrap();
    assert_eq!(p.line_number, 1);
    // Clamped to 12, attaching to the last glyph (byte 11, x = 90).
    assert_eq!(p.point.x, 81);
}

#[test]
fn caret_off_a_character_boundary_is_rejected() {
    // One two-byte character; offset 1 is inside it.
    let shaped = ShapedText { width: 20, height: 20, glyphs: vec![glyph(0, 10, 10)] };
    let layout = build_layout(
        vec![0xC3, 0xA9],
        1,
        ShapingOutcome::Shaped(shaped),
        test_metrics(),
        1,
    )
    .unwrap();
    let r = layout.hit_test_text_position(1);
    assert_eq!(r.unwrap_err(), Error::InvalidArgument);
    // The ends are always boundaries.
    assert!(layout.hit_test_text_position(0).is_ok());
    assert!(layout.hit_test_text_position(2).is_ok());
}

#[test]
fn queries_on_a_layout_without_lines_have_defaults() {
    let shaped = ShapedText { width: 10, height: 5, glyphs: Vec::new() };
    let layout =
        build_layout(b"  ".to_vec(), 1, ShapingOutcome::Shaped(shaped), test_metrics(), 1)
            .unwrap();
    let r = layout.hit_test_point(Point { x: 3, y: 3 });
    assert_eq!(r.byte_index, 0);
    assert!(!r.is_inside);
    let p = layout.hit_test_text_position(0).unwrap();
    assert_eq!(p.line_number, 0);
    assert_eq!(p.point, Point { x: 0, y: 0 });
}

#[test]
fn glyph_rect_flips_the_vertical_axis() {
    let layout = hello_piet_layout();
    let g = layout.glyphs[0];
    let r = layout.glyph_rect(&g);
    // Centre (10, 36) bottom-up in a 48-high layout: top-down centre
    // y = 12, so the 20-high rect spans 2..22.
    assert_eq!((r.x0, r.y0, r.x1, r.y1), (1, 2, 19, 22));
}
