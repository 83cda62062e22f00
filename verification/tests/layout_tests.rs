use piet_b::layout::{
    build_layout, GlyphRecord, SectionMetrics, ShapedText, ShapingOutcome,
};
use piet_b::text::{PietText, TextAlignment, TextAttribute};
use piet_b::Error;

fn glyph(byte_index: usize, x: i64, y: i64) -> GlyphRecord {
    GlyphRecord { byte_index, x, y, width: 18, height: 20, section_index: 0 }
}

fn test_metrics() -> Vec<SectionMetrics> {
    vec![SectionMetrics { ascent: 16, descent: -4, height: 20, line_gap: 4 }]
}

/// The oracle outcome for "Hello,\npiet." with the fixed test font:
/// six glyphs on the first line, five on the second (the newline has
/// no glyph), in device pixels with the vertical axis pointing up.
fn hello_piet_shaped() -> ShapedText {
    let mut glyphs = Vec::new();
    for (i, x) in [10i64, 30, 50, 70, 90, 110].iter().enumerate() {
        glyphs.push(glyph(i, *x, 36));
    }
    for (i, x) in [10i64, 30, 50, 70, 90].iter().enumerate() {
        glyphs.push(glyph(7 + i, *x, 12));
    }
    ShapedText { width: 120, height: 48, glyphs }
}

fn hello_piet_text() -> Vec<u8> {
    b"Hello,\npiet.".to_vec()
}

#[test]
fn hello_piet_has_two_lines_with_the_offset_after_the_newline() {
    let layout = build_layout(
        hello_piet_text(),
        7,
        ShapingOutcome::Shaped(hello_piet_shaped()),
        test_metrics(),
        1,
    )
    .unwrap();

    assert_eq!(layout.line_count(), 2);
    let l0 = layout.line_metric(0).unwrap();
    let l1 = layout.line_metric(1).unwrap();
    assert_eq!(l0.start_offset, 0);
    assert_eq!(l0.end_offset, 6);
    // Line 2 starts at the byte immediately following the newline.
    assert_eq!(l1.start_offset, 7);
    assert_eq!(l1.end_offset, 12);
    assert_eq!(layout.line_metric(2), None);
}

#[test]
fn line_metrics_accumulate_y_offsets_from_the_section_metrics() {
    let layout = build_layout(
        hello_piet_text(),
        7,
        ShapingOutcome::Shaped(hello_piet_shaped()),
        test_metrics(),
        1,
    )
    .unwrap();

    let l0 = layout.line_metric(0).unwrap();
    let l1 = layout.line_metric(1).unwrap();
    assert_eq!(l0.y_offset, 0);
    assert_eq!(l0.baseline, 16);
    assert_eq!(l0.height, 20);
    assert_eq!(l0.trailing_whitespace, 0);
    // The second line advances by the first line's height plus gap.
    assert_eq!(l1.y_offset, 24);
}

#[test]
fn line_text_returns_the_bytes_of_each_line() {
    let layout = build_layout(
        hello_piet_text(),
        7,
        ShapingOutcome::Shaped(hello_piet_shaped()),
        test_metrics(),
        1,
    )
    .unwrap();

    assert_eq!(layout.line_text(0).unwrap(), b"Hello,".to_vec());
    assert_eq!(layout.line_text(1).unwrap(), b"piet.".to_vec());
    assert_eq!(layout.line_text(2), None);
    assert_eq!(layout.text(), &hello_piet_text());
    assert_eq!(layout.trailing_whitespace_width(), 0);
}

#[test]
fn building_twice_with_identical_inputs_yields_identical_layouts() {
    let build = || {
        build_layout(
            hello_piet_text(),
            7,
            ShapingOutcome::Shaped(hello_piet_shaped()),
            test_metrics(),
            1,
        )
        .unwrap()
    };
    let a = build();
    let b = build();
    assert_eq!(a.size(), b.size());
    assert_eq!(a.line_count(), b.line_count());
    assert_eq!(a.line_metrics, b.line_metrics);
    assert_eq!(a.glyphs, b.glyphs);
    assert_eq!(a.image_bounds(), b.image_bounds());
}

#[test]
fn single_glyph_with_unbounded_width_yields_one_line_and_contained_bounds() {
    let text_factory = PietText::new(1);
    let builder = text_factory
        .new_text_layout(b"A".to_vec())
        .max_width(i64::MAX)
        .default_attribute(TextAttribute::FontFamily(
            text_factory.font_family(b"test-font".to_vec()).unwrap(),
        ));
    let shaped = ShapedText {
        width: 20,
        height: 20,
        glyphs: vec![GlyphRecord {
            byte_index: 0,
            x: 10,
            y: 10,
            width: 20,
            height: 20,
            section_index: 0,
        }],
    };
    let layout = builder
        .build(3, ShapingOutcome::Shaped(shaped), test_metrics())
        .unwrap();

    assert_eq!(layout.line_count(), 1);
    let bounds = layout.image_bounds();
    let size = layout.size();
    // Non-empty, and contained within the layout's size.
    assert!(bounds.x1 > bounds.x0 && bounds.y1 > bounds.y0);
    assert!(bounds.x0 >= 0 && bounds.y0 >= 0);
    assert!(bounds.x1 <= size.width && bounds.y1 <= size.height);
}

#[test]
fn image_bounds_is_the_union_of_flipped_glyph_rects() {
    let layout = build_layout(
        hello_piet_text(),
        7,
        ShapingOutcome::Shaped(hello_piet_shaped()),
        test_metrics(),
        1,
    )
    .unwrap();
    let b = layout.image_bounds();
    assert_eq!((b.x0, b.y0, b.x1, b.y1), (1, 2, 119, 46));
}

#[test]
fn device_coordinates_are_divided_by_the_scale_factor() {
    let shaped = ShapedText {
        width: 240,
        height: 96,
        glyphs: vec![
            GlyphRecord { byte_index: 0, x: 20, y: 72, width: 36, height: 40, section_index: 0 },
            GlyphRecord { byte_index: 1, x: 60, y: 72, width: 36, height: 40, section_index: 0 },
        ],
    };
    let layout = build_layout(b"ab".to_vec(), 1, ShapingOutcome::Shaped(shaped), test_metrics(), 2)
        .unwrap();
    assert_eq!(layout.size().width, 120);
    assert_eq!(layout.size().height, 48);
    assert_eq!(layout.glyphs[0].x, 10);
    assert_eq!(layout.glyphs[0].y, 36);
    assert_eq!(layout.glyphs[0].width, 18);
    assert_eq!(layout.glyphs[1].x, 30);
}

#[test]
fn empty_glyph_list_builds_a_layout_with_no_lines() {
    let shaped = ShapedText { width: 10, height: 5, glyphs: Vec::new() };
    let layout =
        build_layout(b"   ".to_vec(), 1, ShapingOutcome::Shaped(shaped), test_metrics(), 1)
            .unwrap();
    assert_eq!(layout.line_count(), 0);
    let b = layout.image_bounds();
    assert_eq!((b.x0, b.y0, b.x1, b.y1), (0, 0, 0, 0));
}

#[test]
fn font_not_ready_is_recoverable_and_distinct_from_backend_failure() {
    let r = build_layout(b"a".to_vec(), 1, ShapingOutcome::FontNotReady, test_metrics(), 1);
    assert_eq!(r.unwrap_err(), Error::FontNotReady);
    let r = build_layout(b"a".to_vec(), 1, ShapingOutcome::Failed, test_metrics(), 1);
    assert_eq!(r.unwrap_err(), Error::BackendError);
}

#[test]
fn malformed_oracle_data_is_rejected() {
    let metrics = test_metrics();
    let one = |g: GlyphRecord| ShapedText { width: 100, height: 100, glyphs: vec![g] };

    // A byte offset outside the text.
    let r = build_layout(
        b"a".to_vec(),
        1,
        ShapingOutcome::Shaped(one(glyph(5, 10, 10))),
        metrics.clone(),
        1,
    );
    assert_eq!(r.unwrap_err(), Error::InvalidArgument);

    // A section index that does not resolve.
    let bad = GlyphRecord { byte_index: 0, x: 10, y: 10, width: 18, height: 20, section_index: 9 };
    let r = build_layout(b"a".to_vec(), 1, ShapingOutcome::Shaped(one(bad)), metrics.clone(), 1);
    assert_eq!(r.unwrap_err(), Error::InvalidArgument);

    // Byte offsets that do not ascend strictly.
    let shaped = ShapedText {
        width: 100,
        height: 100,
        glyphs: vec![glyph(1, 10, 10), glyph(1, 30, 10)],
    };
    let r = build_layout(b"ab".to_vec(), 1, ShapingOutcome::Shaped(shaped), metrics.clone(), 1);
    assert_eq!(r.unwrap_err(), Error::InvalidArgument);

    // A scale factor below one.
    let r = build_layout(
        b"a".to_vec(),
        1,
        ShapingOutcome::Shaped(one(glyph(0, 10, 10))),
        metrics.clone(),
        0,
    );
    assert_eq!(r.unwrap_err(), Error::InvalidArgument);

    // A negative glyph coordinate.
    let r = build_layout(
        b"a".to_vec(),
        1,
        ShapingOutcome::Shaped(one(glyph(0, -10, 10))),
        metrics,
        1,
    );
    assert_eq!(r.unwrap_err(), Error::InvalidArgument);
}

#[test]
fn builder_collects_request_parameters() {
    let text_factory = PietText::new(2);
    assert_eq!(text_factory.scale_factor(), 2);
    let family = text_factory.font_family(b"serif".to_vec()).unwrap();
    assert_eq!(family.name, b"serif".to_vec());

    let builder = text_factory.new_text_layout(b"hi".to_vec());
    assert_eq!(builder.max_width, i64::MAX);
    assert_eq!(builder.alignment, TextAlignment::Start);
    assert_eq!(builder.size, 12);
    assert!(builder.font.is_none());

    let builder = builder
        .max_width(500)
        .alignment(TextAlignment::Center)
        .default_attribute(TextAttribute::FontSize(24))
        .default_attribute(TextAttribute::TextColor(piet_b::geom::Color {
            r: 1,
            g: 2,
            b: 3,
            a: 4,
        }))
        .default_attribute(TextAttribute::FontFamily(family));
    assert_eq!(builder.max_width, 500);
    assert_eq!(builder.alignment, TextAlignment::Center);
    assert_eq!(builder.size, 24);
    assert!(builder.font.is_some());

    let r = builder.range_attribute(0, 1, TextAttribute::FontSize(9));
    assert_eq!(r.unwrap_err(), Error::NotImplemented);
}

#[test]
fn building_without_a_font_is_rejected() {
    let text_factory = PietText::new(1);
    let builder = text_factory.new_text_layout(b"a".to_vec());
    let shaped = ShapedText { width: 10, height: 10, glyphs: Vec::new() };
    let r = builder.build(1, ShapingOutcome::Shaped(shaped), test_metrics());
    assert_eq!(r.unwrap_err(), Error::InvalidArgument);
}

#[test]
fn load_font_is_not_built() {
    let text_factory = PietText::new(1);
    let r = text_factory.load_font(&vec![0u8; 4]);
    assert_eq!(r.unwrap_err(), Error::NotImplemented);
}
