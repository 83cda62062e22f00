use piet_b::affine::Affine;
use piet_b::geom::{Color, Rect, Shape, Size};
use piet_b::scene::{
    Brush, Command, ImageFormat, InterpolationMode, Paint, Piet, TextureFormat,
};
use piet_b::Error;

fn viewport() -> Size {
    Size { width: 200, height: 100 }
}

fn red() -> Color {
    Color { r: 255, g: 0, b: 0, a: 255 }
}

#[test]
fn fill_enqueues_one_spawn_with_placement_and_clip() {
    let mut piet = Piet::new(viewport());
    let rect = Rect { x0: 10, y0: 20, x1: 50, y1: 60 };
    let brush = piet.solid_brush(red());
    piet.fill(Shape::Rect(rect), &brush).unwrap();

    assert_eq!(piet.live_count(), 1);
    let cmds = piet.pending_commands();
    assert_eq!(cmds.len(), 1);
    assert_eq!(
        cmds[0],
        Command::Spawn {
            handle: 0,
            size: Size { width: 40, height: 40 },
            paint: Paint::Solid(red()),
            // Centre (30, 40), flipped against viewport height 100.
            placement: Affine { a: 1, b: 0, c: 0, d: 1, e: 30, f: 60 },
            clip: None,
        }
    );
}

#[test]
fn fill_respects_current_clip_and_transform() {
    let mut piet = Piet::new(viewport());
    let clip = Rect { x0: 0, y0: 0, x1: 40, y1: 40 };
    piet.clip(Shape::Rect(clip));
    piet.transform(&Affine { a: 1, b: 0, c: 0, d: 1, e: 100, f: 0 });
    let brush = piet.solid_brush(red());
    piet.fill(Shape::Rect(Rect { x0: 0, y0: 0, x1: 20, y1: 20 }), &brush).unwrap();

    let cmds = piet.pending_commands();
    match cmds[0] {
        Command::Spawn { placement, clip: c, .. } => {
            assert_eq!(placement.e, 110);
            assert_eq!(placement.f, 90);
            assert_eq!(c, Some(clip));
        }
        _ => panic!("expected a spawn"),
    }
}

#[test]
fn rounded_rect_is_treated_as_its_rect() {
    let mut piet = Piet::new(viewport());
    let rect = Rect { x0: 0, y0: 0, x1: 10, y1: 10 };
    let brush = piet.solid_brush(red());
    piet.fill(Shape::RoundedRect { rect, radius: 3 }, &brush).unwrap();
    assert_eq!(piet.live_count(), 1);
}

#[test]
fn fill_of_unsupported_shape_enqueues_nothing() {
    let mut piet = Piet::new(viewport());
    let brush = piet.solid_brush(red());
    assert_eq!(piet.fill(Shape::Other, &brush), Err(Error::Unsupported));
    assert_eq!(piet.pending_commands().len(), 0);
    assert_eq!(piet.live_count(), 0);
}

#[test]
fn fill_then_transparent_clear_leaves_no_live_nodes() {
    let mut piet = Piet::new(viewport());
    let brush = piet.solid_brush(red());
    piet.fill(Shape::Rect(Rect { x0: 0, y0: 0, x1: 10, y1: 10 }), &brush).unwrap();
    assert_eq!(piet.live_count(), 1);

    piet.clear(None, Color { r: 0, g: 0, b: 0, a: 0 }).unwrap();
    assert_eq!(piet.live_count(), 0);
    let cmds = piet.pending_commands();
    assert_eq!(cmds.last(), Some(&Command::Despawn { handle: 0 }));
}

#[test]
fn clear_with_color_fills_the_viewport() {
    let mut piet = Piet::new(viewport());
    piet.clear(None, red()).unwrap();
    let cmds = piet.pending_commands();
    assert_eq!(cmds.len(), 1);
    match cmds[0] {
        Command::Spawn { size, paint, .. } => {
            assert_eq!(size, Size { width: 200, height: 100 });
            assert_eq!(paint, Paint::Solid(red()));
        }
        _ => panic!("expected a spawn"),
    }
    assert_eq!(piet.live_count(), 1);
}

#[test]
fn partial_clear_is_unsupported_and_changes_nothing() {
    let mut piet = Piet::new(viewport());
    let brush = piet.solid_brush(red());
    piet.fill(Shape::Rect(Rect { x0: 0, y0: 0, x1: 10, y1: 10 }), &brush).unwrap();
    let before = piet.pending_commands().len();

    let r = piet.clear(Some(Rect { x0: 0, y0: 0, x1: 5, y1: 5 }), red());
    assert_eq!(r, Err(Error::Unsupported));
    assert_eq!(piet.pending_commands().len(), before);
    assert_eq!(piet.live_count(), 1);
}

#[test]
fn stroke_fills_the_rect_grown_outward_by_width() {
    let mut piet = Piet::new(viewport());
    let brush = piet.solid_brush(red());
    piet.stroke(Shape::Rect(Rect { x0: 10, y0: 10, x1: 20, y1: 20 }), &brush, 2).unwrap();
    match piet.pending_commands()[0] {
        Command::Spawn { size, .. } => assert_eq!(size, Size { width: 14, height: 14 }),
        _ => panic!("expected a spawn"),
    }
}

#[test]
fn make_image_maps_formats_and_allocates_handles() {
    let mut piet = Piet::new(viewport());
    let buf = vec![0u8; 4];
    let img = piet.make_image(2, 2, &buf, ImageFormat::Grayscale).unwrap();
    assert_eq!(img.handle, 0);
    let img2 = piet.make_image(1, 1, &buf, ImageFormat::RgbaPremul).unwrap();
    assert_eq!(img2.handle, 1);

    let cmds = piet.pending_commands();
    assert_eq!(
        cmds[0],
        Command::AllocTexture {
            handle: 0,
            width: 2,
            height: 2,
            format: TextureFormat::R8Unorm,
            data_len: 4,
        }
    );
    match cmds[1] {
        Command::AllocTexture { format, .. } => assert_eq!(format, TextureFormat::Rgba32Uint),
        _ => panic!("expected a texture allocation"),
    }
}

#[test]
fn make_image_rejects_rgb() {
    let mut piet = Piet::new(viewport());
    let buf = vec![0u8; 3];
    assert_eq!(piet.make_image(1, 1, &buf, ImageFormat::Rgb), Err(Error::Unsupported));
    assert_eq!(piet.pending_commands().len(), 0);
}

#[test]
fn draw_image_spawns_an_image_node() {
    let mut piet = Piet::new(viewport());
    let buf = vec![0u8; 4];
    let img = piet.make_image(1, 1, &buf, ImageFormat::RgbaSeparate).unwrap();
    piet.draw_image(
        &img,
        Rect { x0: 0, y0: 0, x1: 10, y1: 10 },
        InterpolationMode::Bilinear,
    )
    .unwrap();
    match piet.pending_commands()[1] {
        Command::Spawn { paint, .. } => assert_eq!(paint, Paint::Image(img.handle)),
        _ => panic!("expected a spawn"),
    }
    assert_eq!(piet.live_count(), 1);
}

#[test]
fn unbuilt_operations_report_not_implemented() {
    let mut piet = Piet::new(viewport());
    let brush = piet.solid_brush(red());
    let rect = Rect { x0: 0, y0: 0, x1: 10, y1: 10 };
    let buf = vec![0u8; 4];
    let img = piet.make_image(1, 1, &buf, ImageFormat::Grayscale).unwrap();

    assert_eq!(piet.status(), Err(Error::NotImplemented));
    assert_eq!(piet.fill_even_odd(Shape::Rect(rect), &brush), Err(Error::NotImplemented));
    assert_eq!(piet.stroke_styled(Shape::Rect(rect), &brush, 1), Err(Error::NotImplemented));
    assert_eq!(
        piet.draw_image_area(&img, rect, rect, InterpolationMode::NearestNeighbor),
        Err(Error::NotImplemented)
    );
    assert!(piet.capture_image_area(rect).is_err());
    assert_eq!(piet.blurred_rect(rect, 2, &brush), Err(Error::NotImplemented));
    // Failures enqueue nothing beyond the one texture allocation.
    assert_eq!(piet.pending_commands().len(), 1);
}

#[test]
fn gradient_returns_the_grey_stand_in() {
    let piet = Piet::new(viewport());
    assert_eq!(
        piet.gradient(),
        Ok(Brush::Solid(Color { r: 0x80, g: 0x80, b: 0x80, a: 0xFF }))
    );
}

#[test]
fn commands_are_deferred_until_taken() {
    let mut piet = Piet::new(viewport());
    let brush = piet.solid_brush(red());
    piet.fill(Shape::Rect(Rect { x0: 0, y0: 0, x1: 10, y1: 10 }), &brush).unwrap();

    // Queued but not yet applied: visible as pending only.
    assert_eq!(piet.pending_commands().len(), 1);
    let drained = piet.take_commands();
    assert_eq!(drained.len(), 1);
    assert_eq!(piet.pending_commands().len(), 0);
    // Draining does not forget which nodes are live.
    assert_eq!(piet.live_count(), 1);
}

#[test]
fn save_and_restore_delegate_to_the_stack() {
    let mut piet = Piet::new(viewport());
    piet.save().unwrap();
    piet.clip(Shape::Rect(Rect { x0: 0, y0: 0, x1: 5, y1: 5 }));
    piet.transform(&Affine { a: 2, b: 0, c: 0, d: 2, e: 0, f: 0 });
    piet.restore().unwrap();
    assert_eq!(piet.current_transform(), Affine::identity());
    assert_eq!(piet.restore(), Err(Error::StackUnderflow));
    assert_eq!(piet.finish(), Ok(()));
}
