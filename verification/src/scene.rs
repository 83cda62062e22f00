//! The scene-graph adapter: the drawing contract over a deferred
//! command buffer.
//!
//! [`Piet`] turns draw calls into [`Command`]s against host-owned
//! retained nodes, using the transform/clip stack for placement. The
//! commands are queued, not applied: the host drains them with
//! [`Piet::take_commands`] at its own flush point, so nothing queued
//! during one call is visible to queries issued in the same call. The
//! adapter tracks the handles of the nodes it spawned, so `clear` can
//! despawn exactly what it created.

use crate::affine::{affine_of_model, compose_fits, in_i64, Affine};
use crate::geom::{Color, Point, Rect, Shape, Size};
use crate::layout::{wf, PietTextLayout};
use crate::stack::{
    place_fits, spec_compose_state, spec_place, spec_restore, spec_save, spec_set_clip,
    StackModel, TransformClipStack,
};
use crate::Error;
use vstd::prelude::*;

verus! {

/// A brush. Every brush of this backend resolves to a solid colour;
/// gradients are stood in for by a flat grey.
#[derive(Clone, Copy, Debug, PartialEq, Eq, Structural)]
pub enum Brush {
    Solid(Color),
}

/// Pixel formats accepted by `make_image`.
#[derive(Clone, Copy, Debug, PartialEq, Eq, Structural)]
pub enum ImageFormat {
    /// One byte per pixel.
    Grayscale,
    /// Three bytes per pixel; not supported by the host texture
    /// formats this backend uses.
    Rgb,
    /// Four bytes per pixel, straight alpha.
    RgbaSeparate,
    /// Four bytes per pixel, premultiplied alpha.
    RgbaPremul,
}

/// Host texture formats this backend allocates.
#[derive(Clone, Copy, Debug, PartialEq, Eq, Structural)]
pub enum TextureFormat {
    R8Unorm,
    Rgba32Uint,
}

/// Image interpolation. Accepted by `draw_image` but currently without
/// effect.
#[derive(Clone, Copy, Debug, PartialEq, Eq, Structural)]
pub enum InterpolationMode {
    NearestNeighbor,
    Bilinear,
}

/// A handle to a host texture created by `make_image`.
#[derive(Clone, Copy, Debug, PartialEq, Eq, Structural)]
pub struct PietImage {
    pub handle: u64,
}

/// What a spawned node is painted with.
#[derive(Clone, Copy, Debug, PartialEq, Eq, Structural)]
pub enum Paint {
    Solid(Color),
    Image(u64),
}

/// One deferred mutation of the host scene graph.
#[derive(Clone, Copy, Debug, PartialEq, Eq, Structural)]
pub enum Command {
    /// Create a node with the given attributes.
    Spawn { handle: u64, size: Size, paint: Paint, placement: Affine, clip: Option<Rect> },
    /// Reposition and resize an existing node (created elsewhere, e.g.
    /// a text layout's node).
    Update { handle: u64, size: Size, placement: Affine, clip: Option<Rect> },
    /// Remove a node.
    Despawn { handle: u64 },
    /// Allocate a host texture of `data_len` bytes of pixel data.
    AllocTexture { handle: u64, width: usize, height: usize, format: TextureFormat, data_len: usize },
}

/// Map a pixel format to the host texture format, exactly as this
/// backend supports it.
pub open spec fn spec_convert_image_format(f: ImageFormat) -> Result<TextureFormat, Error> {
    match f {
        ImageFormat::Grayscale => Ok(TextureFormat::R8Unorm),
        ImageFormat::Rgb => Err(Error::Unsupported),
        ImageFormat::RgbaSeparate => Ok(TextureFormat::Rgba32Uint),
        ImageFormat::RgbaPremul => Ok(TextureFormat::Rgba32Uint),
    }
}

pub fn convert_image_format(f: ImageFormat) -> (r: Result<TextureFormat, Error>)
    ensures
        r == spec_convert_image_format(f),
{
    match f {
        ImageFormat::Grayscale => Ok(TextureFormat::R8Unorm),
        ImageFormat::Rgb => Err(Error::Unsupported),
        ImageFormat::RgbaSeparate => Ok(TextureFormat::Rgba32Uint),
        ImageFormat::RgbaPremul => Ok(TextureFormat::Rgba32Uint),
    }
}

/// The drawing context: state stack, viewport, deferred command buffer
/// and the handles of the nodes this adapter spawned.
#[derive(Debug)]
pub struct Piet {
    pub stack: TransformClipStack,
    pub viewport: Size,
    pub commands: Vec<Command>,
    pub live: Vec<u64>,
    pub next_handle: u64,
}

/// The mathematical value of a [`Piet`].
pub ghost struct PietModel {
    pub stack: StackModel,
    pub viewport: Size,
    pub commands: Seq<Command>,
    pub live: Seq<u64>,
    pub next_handle: u64,
}

impl View for Piet {
    type V = PietModel;

    open spec fn view(&self) -> PietModel {
        PietModel {
            stack: self.stack@,
            viewport: self.viewport,
            commands: self.commands@,
            live: self.live@,
            next_handle: self.next_handle,
        }
    }
}

/// Spawning one node: the command carries the rectangle's size, the
/// paint, the world placement of the rectangle's centre and the current
/// clip; the new node becomes live and the handle counter advances.
pub open spec fn spec_spawn_node(p: PietModel, rect: Rect, paint: Paint) -> PietModel
    recommends
        rect.spec_wf(),
        p.next_handle < u64::MAX,
{
    let c = rect.spec_center();
    PietModel {
        stack: p.stack,
        viewport: p.viewport,
        commands: p.commands.push(
            Command::Spawn {
                handle: p.next_handle,
                size: Size {
                    width: rect.spec_width() as i64,
                    height: rect.spec_height() as i64,
                },
                paint,
                placement: affine_of_model(spec_place(p.stack, c.x as int, c.y as int)),
                clip: p.stack.cur.clip,
            },
        ),
        live: p.live.push(p.next_handle),
        next_handle: (p.next_handle + 1) as u64,
    }
}

/// `fill` on a rectangle with a solid colour.
pub open spec fn spec_fill(p: PietModel, rect: Rect, color: Color) -> PietModel {
    spec_spawn_node(p, rect, Paint::Solid(color))
}

/// `clear(None, color)`: despawn every node this adapter spawned, then,
/// unless the colour is fully transparent, fill the whole viewport with
/// it.
pub open spec fn spec_clear_all(p: PietModel, color: Color) -> PietModel {
    let cleared = PietModel {
        stack: p.stack,
        viewport: p.viewport,
        commands: p.commands + p.live.map_values(|h: u64| Command::Despawn { handle: h }),
        live: Seq::empty(),
        next_handle: p.next_handle,
    };
    if color == Color::spec_transparent() {
        cleared
    } else {
        spec_fill(cleared, viewport_rect(p.viewport), color)
    }
}

/// The full drawable area as a rectangle at the origin.
pub open spec fn viewport_rect(v: Size) -> Rect {
    Rect { x0: 0, y0: 0, x1: v.width, y1: v.height }
}

/// Overflow-freedom condition for spawning a node over `rect`: the
/// rectangle is well formed and its centre has a representable
/// placement.
pub open spec fn spawn_fits(p: PietModel, rect: Rect) -> bool {
    &&& rect.spec_wf()
    &&& place_fits(p.stack, rect.spec_center().x as int, rect.spec_center().y as int)
    &&& p.next_handle < u64::MAX
}

impl Piet {
    /// A fresh adapter for a drawable area of `viewport` logical units.
    /// The viewport height parameterizes the vertical flip of every
    /// placement.
    pub fn new(viewport: Size) -> (r: Piet)
        requires
            0 <= viewport.width,
            0 <= viewport.height,
        ensures
            r@.stack.cur.transform == crate::affine::spec_identity(),
            r@.stack.cur.clip is None,
            r@.stack.saved.len() == 0,
            r@.stack.height == viewport.height,
            r@.viewport == viewport,
            r@.commands.len() == 0,
            r@.live.len() == 0,
            r@.next_handle == 0,
    {
        Piet {
            stack: TransformClipStack::new(viewport.height),
            viewport,
            commands: Vec::new(),
            live: Vec::new(),
            next_handle: 0,
        }
    }

    /// The full drawable area.
    pub fn window_rect(&self) -> (r: Rect)
        ensures
            r == viewport_rect(self@.viewport),
    {
        Rect { x0: 0, y0: 0, x1: self.viewport.width, y1: self.viewport.height }
    }

    /// Every brush of this backend is a solid colour.
    pub fn solid_brush(&self, color: Color) -> (r: Brush)
        ensures
            r == Brush::Solid(color),
    {
        Brush::Solid(color)
    }

    /// Gradients are out of scope; the requested gradient is ignored
    /// and a flat grey stand-in is returned so callers keep working.
    pub fn gradient(&self) -> (r: Result<Brush, Error>)
        ensures
            r == Ok::<Brush, Error>(Brush::Solid(Color { r: 0x80, g: 0x80, b: 0x80, a: 0xFF })),
    {
        Ok(Brush::Solid(Color { r: 0x80, g: 0x80, b: 0x80, a: 0xFF }))
    }

    /// Deferred error reporting is not built in this backend.
    pub fn status(&mut self) -> (r: Result<(), Error>)
        ensures
            r == Err::<(), Error>(Error::NotImplemented),
            final (self)@ == old(self)@,
    {
        Err(Error::NotImplemented)
    }

    /// Nothing is buffered beyond the command queue; finishing a frame
    /// always succeeds and changes nothing.
    pub fn finish(&mut self) -> (r: Result<(), Error>)
        ensures
            r == Ok::<(), Error>(()),
            final (self)@ == old(self)@,
    {
        Ok(())
    }

    /// Push a copy of the current drawing state.
    pub fn save(&mut self) -> (r: Result<(), Error>)
        ensures
            r is Ok,
            final (self)@ == (PietModel { stack: spec_save(old(self)@.stack), ..old(self)@ }),
    {
        let r = self.stack.save();
        r
    }

    /// Pop and install the last saved state; `StackUnderflow` (with no
    /// state change at all) when nothing was saved.
    pub fn restore(&mut self) -> (r: Result<(), Error>)
        ensures
            old(self)@.stack.saved.len() == 0 ==> r == Err::<(), Error>(Error::StackUnderflow)
                && final (self)@ == old(self)@,
            old(self)@.stack.saved.len() > 0 ==> r == Ok::<(), Error>(()) && final (self)@ == (
            PietModel { stack: spec_restore(old(self)@.stack), ..old(self)@ }),
    {
        self.stack.restore()
    }

    /// Compose `delta` onto the accumulated transform.
    pub fn transform(&mut self, delta: &Affine)
        requires
            compose_fits(old(self)@.stack.cur.transform, delta@),
        ensures
            final (self)@ == (PietModel {
                stack: spec_compose_state(old(self)@.stack, delta@),
                ..old(self)@
            }),
    {
        self.stack.compose(delta);
    }

    /// The accumulated transform.
    pub fn current_transform(&self) -> (r: Affine)
        ensures
            r@ == self@.stack.cur.transform,
    {
        self.stack.current_transform()
    }

    /// Replace the current clip with the shape's rectangle. A shape
    /// without a rectangle is ignored, matching this backend's
    /// rectangle-only clipping.
    pub fn clip(&mut self, shape: Shape)
        ensures
            match shape.spec_as_rect() {
                Some(rect) => final (self)@ == (PietModel {
                    stack: spec_set_clip(old(self)@.stack, Some(rect)),
                    ..old(self)@
                }),
                None => final (self)@ == old(self)@,
            },
    {
        if let Some(rect) = shape.as_rect() {
            self.stack.set_clip(rect);
        }
    }

    /// Fill the shape's rectangle with the brush's solid colour:
    /// enqueue one spawn carrying size, colour, placement of the
    /// rectangle's centre, and the current clip. Shapes that are not
    /// rectangles fail with `Unsupported` and enqueue nothing.
    pub fn fill(&mut self, shape: Shape, brush: &Brush) -> (r: Result<(), Error>)
        requires
            shape.spec_as_rect() matches Some(rect) ==> spawn_fits(old(self)@, rect),
        ensures
            match shape.spec_as_rect() {
                Some(rect) => r == Ok::<(), Error>(()) && final (self)@ == spec_fill(
                    old(self)@,
                    rect,
                    brush->Solid_0,
                ),
                None => r == Err::<(), Error>(Error::Unsupported) && final (self)@ == old(self)@,
            },
    {
        match shape.as_rect() {
            Some(rect) => {
                let Brush::Solid(color) = *brush;
                self.spawn_node(rect, Paint::Solid(color));
                Ok(())
            },
            None => Err(Error::Unsupported),
        }
    }

    /// Approximate a stroke by filling the shape's rectangle grown
    /// outward by `width` on every side; a visual approximation, not a
    /// true outline. Shapes without a rectangle fail with
    /// `Unsupported` and enqueue nothing.
    pub fn stroke(&mut self, shape: Shape, brush: &Brush, width: i64) -> (r: Result<(), Error>)
        requires
            shape.spec_as_rect() matches Some(rect) ==> {
                &&& in_i64(rect.x0 - width)
                &&& in_i64(rect.y0 - width)
                &&& in_i64(rect.x1 + width)
                &&& in_i64(rect.y1 + width)
                &&& spawn_fits(old(self)@, rect.spec_inset(width as int))
            },
        ensures
            match shape.spec_as_rect() {
                Some(rect) => r == Ok::<(), Error>(()) && final (self)@ == spec_fill(
                    old(self)@,
                    rect.spec_inset(width as int),
                    brush->Solid_0,
                ),
                None => r == Err::<(), Error>(Error::Unsupported) && final (self)@ == old(self)@,
            },
    {
        match shape.as_rect() {
            Some(rect) => {
                let grown = rect.inset(width);
                self.fill(Shape::Rect(grown), brush)
            },
            None => Err(Error::Unsupported),
        }
    }

    /// Clear the scene: `region` must be `None` (partial clearing is
    /// not built; `Some` fails with `Unsupported` and changes
    /// nothing). Every node this adapter spawned is despawned; then,
    /// unless `color` is fully transparent, the whole viewport is
    /// filled with it.
    pub fn clear(&mut self, region: Option<Rect>, color: Color) -> (r: Result<(), Error>)
        requires
            region is None && color != Color::spec_transparent() ==> spawn_fits(
                PietModel { live: Seq::empty(), ..old(self)@ },
                viewport_rect(old(self)@.viewport),
            ),
        ensures
            region is Some ==> r == Err::<(), Error>(Error::Unsupported) && final (self)@ == old(
                self,
            )@,
            region is None ==> r == Ok::<(), Error>(()) && final (self)@ == spec_clear_all(
                old(self)@,
                color,
            ),
    {
        if region.is_some() {
            return Err(Error::Unsupported);
        }
        let n = self.live.len();
        let mut i: usize = 0;
        while i < n
            invariant
                0 <= i <= n,
                n == old(self)@.live.len(),
                self@.live == old(self)@.live,
                self@.stack == old(self)@.stack,
                self@.viewport == old(self)@.viewport,
                self@.next_handle == old(self)@.next_handle,
                self@.commands == old(self)@.commands + old(self)@.live.subrange(
                    0,
                    i as int,
                ).map_values(|h: u64| Command::Despawn { handle: h }),
            decreases n - i,
        {
            let h = self.live[i];
            self.commands.push(Command::Despawn { handle: h });
            proof {
                assert(self@.commands =~= old(self)@.commands + old(self)@.live.subrange(
                    0,
                    i + 1,
                ).map_values(|h: u64| Command::Despawn { handle: h }));
            }
            i = i + 1;
        }
        self.live = Vec::new();
        proof {
            assert(old(self)@.live.subrange(0, old(self)@.live.len() as int) =~= old(
                self,
            )@.live);
            assert(self@.live =~= Seq::<u64>::empty());
        }
        if !color.is_transparent() {
            let rect = self.window_rect();
            self.spawn_node(rect, Paint::Solid(color));
        }
        Ok(())
    }

    /// Reposition the layout's pre-allocated node: place its centre at
    /// `pt` plus half the layout's size, apply the current clip, and
    /// update its size. The layout's node is host-owned and is not
    /// added to this adapter's live set.
    pub fn draw_text(&mut self, layout: &PietTextLayout, pt: Point)
        requires
            wf(layout@),
            in_i64(pt.x + layout@.size.width / 2),
            in_i64(pt.y + layout@.size.height / 2),
            place_fits(
                old(self)@.stack,
                pt.x + layout@.size.width / 2,
                pt.y + layout@.size.height / 2,
            ),
        ensures
            final (self)@ == (PietModel {
                commands: old(self)@.commands.push(
                    Command::Update {
                        handle: layout@.entity,
                        size: layout@.size,
                        placement: affine_of_model(
                            spec_place(
                                old(self)@.stack,
                                pt.x + layout@.size.width / 2,
                                pt.y + layout@.size.height / 2,
                            ),
                        ),
                        clip: old(self)@.stack.cur.clip,
                    },
                ),
                ..old(self)@
            }),
    {
        let size = layout.size();
        let center = Point { x: pt.x + size.width / 2, y: pt.y + size.height / 2 };
        let placement = self.stack.place(center);
        self.commands.push(
            Command::Update {
                handle: layout.entity,
                size,
                placement,
                clip: self.stack.current_clip(),
            },
        );
    }

    /// Allocate a host texture from raw pixel data. Single-channel
    /// grayscale and interleaved RGBA are supported; other formats
    /// fail with `Unsupported` and enqueue nothing.
    pub fn make_image(
        &mut self,
        width: usize,
        height: usize,
        buf: &Vec<u8>,
        format: ImageFormat,
    ) -> (r: Result<PietImage, Error>)
        requires
            old(self)@.next_handle < u64::MAX,
        ensures
            match spec_convert_image_format(format) {
                Ok(tf) => r == Ok::<PietImage, Error>(
                    PietImage { handle: old(self)@.next_handle },
                ) && final (self)@ == (PietModel {
                    commands: old(self)@.commands.push(
                        Command::AllocTexture {
                            handle: old(self)@.next_handle,
                            width,
                            height,
                            format: tf,
                            data_len: buf@.len() as usize,
                        },
                    ),
                    next_handle: (old(self)@.next_handle + 1) as u64,
                    ..old(self)@
                }),
                Err(e) => r == Err::<PietImage, Error>(e) && final (self)@ == old(self)@,
            },
    {
        let tf = match convert_image_format(format) {
            Ok(tf) => tf,
            Err(e) => {
                return Err(e);
            },
        };
        let handle = self.next_handle;
        self.next_handle = self.next_handle + 1;
        self.commands.push(
            Command::AllocTexture { handle, width, height, format: tf, data_len: buf.len() },
        );
        Ok(PietImage { handle })
    }

    /// Spawn a node painted with the texture, placed at the centre of
    /// `dst`, with the current clip. `interpolation` is accepted but
    /// currently has no effect.
    pub fn draw_image(
        &mut self,
        image: &PietImage,
        dst: Rect,
        interpolation: InterpolationMode,
    ) -> (r: Result<(), Error>)
        requires
            spawn_fits(old(self)@, dst),
        ensures
            r is Ok,
            final (self)@ == spec_spawn_node(old(self)@, dst, Paint::Image(image.handle)),
    {
        let _ = interpolation;
        self.spawn_node(dst, Paint::Image(image.handle));
        Ok(())
    }

    /// Copying a sub-rectangle of an image is not built.
    pub fn draw_image_area(
        &mut self,
        image: &PietImage,
        src_rect: Rect,
        dst_rect: Rect,
        interpolation: InterpolationMode,
    ) -> (r: Result<(), Error>)
        ensures
            r == Err::<(), Error>(Error::NotImplemented),
            final (self)@ == old(self)@,
    {
        let _ = (image, src_rect, dst_rect, interpolation);
        Err(Error::NotImplemented)
    }

    /// Capturing a region of the rendered scene is not built.
    pub fn capture_image_area(&mut self, src_rect: Rect) -> (r: Result<PietImage, Error>)
        ensures
            r == Err::<PietImage, Error>(Error::NotImplemented),
            final (self)@ == old(self)@,
    {
        let _ = src_rect;
        Err(Error::NotImplemented)
    }

    /// Blurred rectangles are not built.
    pub fn blurred_rect(&mut self, rect: Rect, blur_radius: i64, brush: &Brush) -> (r: Result<
        (),
        Error,
    >)
        ensures
            r == Err::<(), Error>(Error::NotImplemented),
            final (self)@ == old(self)@,
    {
        let _ = (rect, blur_radius, brush);
        Err(Error::NotImplemented)
    }

    /// True even-odd filling is not built.
    pub fn fill_even_odd(&mut self, shape: Shape, brush: &Brush) -> (r: Result<(), Error>)
        ensures
            r == Err::<(), Error>(Error::NotImplemented),
            final (self)@ == old(self)@,
    {
        let _ = (shape, brush);
        Err(Error::NotImplemented)
    }

    /// Styled strokes are not built.
    pub fn stroke_styled(&mut self, shape: Shape, brush: &Brush, width: i64) -> (r: Result<
        (),
        Error,
    >)
        ensures
            r == Err::<(), Error>(Error::NotImplemented),
            final (self)@ == old(self)@,
    {
        let _ = (shape, brush, width);
        Err(Error::NotImplemented)
    }

    /// The queued commands, without draining them: what the host will
    /// see at the next flush.
    pub fn pending_commands(&self) -> (r: &Vec<Command>)
        ensures
            r@ == self@.commands,
    {
        &self.commands
    }

    /// How many nodes this adapter has spawned and not despawned.
    pub fn live_count(&self) -> (r: usize)
        ensures
            r == self@.live.len(),
    {
        self.live.len()
    }

    /// Drain the command buffer: the host applies the returned
    /// commands at its flush point.
    pub fn take_commands(&mut self) -> (r: Vec<Command>)
        ensures
            r@ == old(self)@.commands,
            final (self)@ == (PietModel { commands: Seq::empty(), ..old(self)@ }),
    {
        let mut out: Vec<Command> = Vec::new();
        core::mem::swap(&mut out, &mut self.commands);
        proof {
            assert(final (self)@.commands =~= Seq::<Command>::empty());
        }
        out
    }

    /// Enqueue one spawn and track the new node as live.
    fn spawn_node(&mut self, rect: Rect, paint: Paint)
        requires
            spawn_fits(old(self)@, rect),
        ensures
            final (self)@ == spec_spawn_node(old(self)@, rect, paint),
    {
        let center = rect.center();
        let placement = self.stack.place(center);
        let size = rect.size();
        let handle = self.next_handle;
        self.next_handle = self.next_handle + 1;
        self.commands.push(
            Command::Spawn {
                handle,
                size,
                paint,
                placement,
                clip: self.stack.current_clip(),
            },
        );
        self.live.push(handle);
    }
}

/// A fill followed by `clear(None, transparent)` leaves no live node
/// attributable to the adapter, and the clear despawns the very node
/// the fill spawned.
pub proof fn lemma_fill_then_clear(p: PietModel, rect: Rect, color: Color)
    ensures
        spec_clear_all(spec_fill(p, rect, color), Color::spec_transparent()).live.len() == 0,
        spec_clear_all(spec_fill(p, rect, color), Color::spec_transparent()).commands.last()
            == (Command::Despawn { handle: p.next_handle }),
{
    let after_fill = spec_fill(p, rect, color);
    let after_clear = spec_clear_all(after_fill, Color::spec_transparent());
    assert(after_fill.live == p.live.push(p.next_handle));
    let despawns = after_fill.live.map_values(|h: u64| Command::Despawn { handle: h });
    assert(despawns.len() == p.live.len() + 1);
    assert(despawns.last() == (Command::Despawn { handle: p.next_handle }));
    assert(after_clear.commands.last() == despawns.last());
}

} // verus!
