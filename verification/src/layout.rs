//! Text layout reconstruction.
//!
//! The external shaping oracle returns an overall size and a flat list
//! of positioned glyphs in device-pixel space, each tagged with the byte
//! offset of its source character and a section index. This module
//! converts the glyphs to scale-independent logical units, partitions
//! them into lines, reconstructs per-line typographic metrics from
//! per-section font metrics, and packages everything into an immutable
//! [`PietTextLayout`].
//!
//! The line partition is the documented heuristic of this backend: a new
//! line starts whenever a glyph's x-position is less than the preceding
//! glyph's x-position. It relies on monotonically increasing x within a
//! non-reordered line and is kept as an explicit, swappable strategy
//! rather than silently improved.
//!
//! Because lines are reconstructed from glyphs alone, a line can never
//! hold zero glyphs, so per-line metrics are always defined; text whose
//! shaping produced no glyphs at all (empty or whitespace-only) builds
//! a layout with zero lines, and the queries answer their documented
//! defaults on it.

use crate::geom::{Rect, Size};
use crate::Error;
use vstd::prelude::*;

verus! {

/// Largest coordinate, extent or font metric the layout engine accepts,
/// in device pixels or logical units. Keeping every input below this
/// bound makes all layout arithmetic free of overflow.
pub const COORD_MAX: i64 = 0x4000_0000;

/// Largest number of glyphs the layout engine accepts in one build.
pub const GLYPH_MAX: usize = 0x10_0000;

/// One positioned glyph. `(x, y)` is the glyph's centre in the shaping
/// oracle's space, whose vertical axis points up; `byte_index` indexes
/// the UTF-8 source text; `section_index` selects the font metrics the
/// glyph was shaped with.
#[derive(Clone, Copy, Debug, PartialEq, Eq, Structural)]
pub struct GlyphRecord {
    pub byte_index: usize,
    pub x: i64,
    pub y: i64,
    pub width: i64,
    pub height: i64,
    pub section_index: usize,
}

/// Scaled font metrics of one text section, in logical units.
#[derive(Clone, Copy, Debug, PartialEq, Eq, Structural)]
pub struct SectionMetrics {
    pub ascent: i64,
    pub descent: i64,
    pub height: i64,
    pub line_gap: i64,
}

/// Aggregated metrics of one reconstructed line. Byte offsets are into
/// the UTF-8 source text; `end_offset` is exclusive. `y_offset` is the
/// distance from the top of the layout to the top of the line.
#[derive(Clone, Copy, Debug, PartialEq, Eq, Structural)]
pub struct LineMetric {
    pub start_offset: usize,
    pub end_offset: usize,
    pub trailing_whitespace: usize,
    pub baseline: i64,
    pub height: i64,
    pub y_offset: i64,
}

/// The glyph index range `[start, end)` of one line.
#[derive(Clone, Copy, Debug, PartialEq, Eq, Structural)]
pub struct LineSpan {
    pub start: usize,
    pub end: usize,
}

/// The size and glyph list the shaping oracle produced, in device
/// pixels.
#[derive(Clone, Debug)]
pub struct ShapedText {
    pub width: i64,
    pub height: i64,
    pub glyphs: Vec<GlyphRecord>,
}

/// What came back from one shaping request.
#[derive(Clone, Debug)]
pub enum ShapingOutcome {
    /// Shaping succeeded.
    Shaped(ShapedText),
    /// The font asset is not loaded yet; the caller may retry on a
    /// later frame.
    FontNotReady,
    /// Any other shaping failure; fatal for this build.
    Failed,
}

/// The mathematical value of a [`ShapedText`].
pub ghost struct ShapedTextModel {
    pub width: int,
    pub height: int,
    pub glyphs: Seq<GlyphRecord>,
}

impl View for ShapedText {
    type V = ShapedTextModel;

    open spec fn view(&self) -> ShapedTextModel {
        ShapedTextModel {
            width: self.width as int,
            height: self.height as int,
            glyphs: self.glyphs@,
        }
    }
}

/// An immutable built text layout. `entity` is the handle of the host
/// scene node that was allocated for this layout before the build.
#[derive(Clone, Debug)]
pub struct PietTextLayout {
    pub entity: u64,
    pub text: Vec<u8>,
    pub glyphs: Vec<GlyphRecord>,
    pub line_metrics: Vec<LineMetric>,
    pub line_spans: Vec<LineSpan>,
    pub size: Size,
    pub image_bounds: Rect,
}

/// The mathematical value of a [`PietTextLayout`].
pub ghost struct LayoutModel {
    pub entity: u64,
    pub text: Seq<u8>,
    pub glyphs: Seq<GlyphRecord>,
    pub lines: Seq<LineMetric>,
    pub spans: Seq<LineSpan>,
    pub size: Size,
    pub image_bounds: Rect,
}

impl View for PietTextLayout {
    type V = LayoutModel;

    open spec fn view(&self) -> LayoutModel {
        LayoutModel {
            entity: self.entity,
            text: self.text@,
            glyphs: self.glyphs@,
            lines: self.line_metrics@,
            spans: self.line_spans@,
            size: self.size,
            image_bounds: self.image_bounds,
        }
    }
}

/// Bounds that every accepted glyph satisfies (in device pixels before
/// conversion, and hence also in logical units after).
pub open spec fn glyph_in_range(g: GlyphRecord) -> bool {
    &&& 0 <= g.x <= COORD_MAX
    &&& 0 <= g.y <= COORD_MAX
    &&& 0 <= g.width <= COORD_MAX
    &&& 0 <= g.height <= COORD_MAX
}

/// Bounds that every accepted section metric satisfies.
pub open spec fn section_in_range(s: SectionMetrics) -> bool {
    &&& 0 <= s.ascent <= COORD_MAX
    &&& -COORD_MAX <= s.descent <= COORD_MAX
    &&& 0 <= s.height <= COORD_MAX
    &&& 0 <= s.line_gap <= COORD_MAX
}

/// Well-formedness of a built layout: the invariants every layout
/// produced by a successful build has, and the ones the hit-testing
/// queries rely on.
///
/// - glyphs are sorted strictly ascending by byte index, each index
///   inside the text;
/// - the line spans partition the glyph sequence contiguously with no
///   gaps and no empty line;
/// - each line's byte range is derived from its first and last glyph
///   (`end_offset` exclusive);
/// - `y_offset` starts at zero and is monotonically non-decreasing,
///   each step at least the previous line's height;
/// - all coordinates and metrics are within the documented bounds.
pub open spec fn wf(l: LayoutModel) -> bool {
    &&& l.spans.len() == l.lines.len()
    &&& l.glyphs.len() <= GLYPH_MAX
    &&& (l.glyphs.len() > 0 <==> l.spans.len() > 0)
    &&& (forall|k: int|
        0 <= k < l.spans.len() ==> 0 <= #[trigger] l.spans[k].start < l.spans[k].end
            <= l.glyphs.len())
    &&& (l.spans.len() > 0 ==> l.spans[0].start == 0 && l.spans.last().end == l.glyphs.len())
    &&& (forall|k: int|
        0 < k < l.spans.len() ==> #[trigger] l.spans[k].start == l.spans[k - 1].end)
    &&& (forall|i: int|
        0 < i < l.glyphs.len() ==> #[trigger] l.glyphs[i - 1].byte_index < l.glyphs[i].byte_index)
    &&& (forall|i: int|
        0 <= i < l.glyphs.len() ==> #[trigger] l.glyphs[i].byte_index < l.text.len())
    &&& (forall|i: int| 0 <= i < l.glyphs.len() ==> glyph_in_range(#[trigger] l.glyphs[i]))
    &&& (forall|k: int|
        0 <= k < l.lines.len() ==> #[trigger] l.lines[k].start_offset == l.glyphs[l.spans[
            k].start as int].byte_index)
    &&& (forall|k: int|
        0 <= k < l.lines.len() ==> #[trigger] l.lines[k].end_offset == l.glyphs[l.spans[k].end
            - 1].byte_index + 1)
    &&& (forall|k: int|
        0 <= k < l.lines.len() ==> (#[trigger] l.lines[k]).trailing_whitespace == 0 && 0
            <= l.lines[k].baseline <= COORD_MAX && 0 <= l.lines[k].height <= COORD_MAX)
    &&& (l.lines.len() > 0 ==> l.lines[0].y_offset == 0)
    &&& (forall|k: int|
        0 < k < l.lines.len() ==> #[trigger] l.lines[k].y_offset >= l.lines[k - 1].y_offset
            + l.lines[k - 1].height)
    &&& (forall|k: int|
        0 <= k < l.lines.len() ==> 0 <= #[trigger] l.lines[k].y_offset <= 2 * (COORD_MAX as int)
            * (GLYPH_MAX as int))
    &&& 0 <= l.size.width <= COORD_MAX
    &&& 0 <= l.size.height <= COORD_MAX
}

/// One glyph converted from device pixels to logical units by the
/// device scale factor (integer division, rounding down).
pub open spec fn spec_scale_glyph(g: GlyphRecord, scale: int) -> GlyphRecord
    recommends
        scale >= 1,
        glyph_in_range(g),
{
    GlyphRecord {
        byte_index: g.byte_index,
        x: (g.x as int / scale) as i64,
        y: (g.y as int / scale) as i64,
        width: (g.width as int / scale) as i64,
        height: (g.height as int / scale) as i64,
        section_index: g.section_index,
    }
}

/// The first index `k >= j` that starts a new line: either the end of
/// the glyph list or a glyph whose x-position is less than its
/// predecessor's.
pub open spec fn next_break(gs: Seq<GlyphRecord>, j: int) -> int
    recommends
        1 <= j,
    decreases gs.len() - j,
{
    if j >= gs.len() {
        gs.len() as int
    } else if gs[j].x < gs[j - 1].x {
        j
    } else {
        next_break(gs, j + 1)
    }
}

/// `next_break` never goes backwards and never past the end.
pub proof fn lemma_next_break_range(gs: Seq<GlyphRecord>, j: int)
    requires
        1 <= j <= gs.len(),
    ensures
        j <= next_break(gs, j) <= gs.len(),
    decreases gs.len() - j,
{
    if j < gs.len() && !(gs[j].x < gs[j - 1].x) {
        lemma_next_break_range(gs, j + 1);
    }
}

/// The line partition heuristic: the spans of maximal runs of glyphs
/// whose x-positions never decrease, starting at glyph index `s`.
pub open spec fn spec_lines_from(gs: Seq<GlyphRecord>, s: int) -> Seq<LineSpan>
    recommends
        0 <= s,
    decreases gs.len() - s,
    via spec_lines_from_decreases
{
    if s < 0 || s >= gs.len() {
        Seq::empty()
    } else {
        let e = next_break(gs, s + 1);
        seq![LineSpan { start: s as usize, end: e as usize }] + spec_lines_from(gs, e)
    }
}

#[via_fn]
proof fn spec_lines_from_decreases(gs: Seq<GlyphRecord>, s: int) {
    if 0 <= s < gs.len() {
        lemma_next_break_range(gs, s + 1);
    }
}

/// The full line partition of a glyph list.
pub open spec fn spec_lines(gs: Seq<GlyphRecord>) -> Seq<LineSpan> {
    spec_lines_from(gs, 0)
}

/// Largest ascent among the sections of the glyphs in `[s, e)`.
pub open spec fn spec_line_ascent(
    gs: Seq<GlyphRecord>,
    sections: Seq<SectionMetrics>,
    s: int,
    e: int,
) -> int
    recommends
        0 <= s < e <= gs.len(),
    decreases e - s,
{
    let last = sections[gs[e - 1].section_index as int].ascent as int;
    if e - 1 <= s {
        last
    } else {
        let rest = spec_line_ascent(gs, sections, s, e - 1);
        if rest >= last {
            rest
        } else {
            last
        }
    }
}

/// Largest height among the sections of the glyphs in `[s, e)`.
pub open spec fn spec_line_height(
    gs: Seq<GlyphRecord>,
    sections: Seq<SectionMetrics>,
    s: int,
    e: int,
) -> int
    recommends
        0 <= s < e <= gs.len(),
    decreases e - s,
{
    let last = sections[gs[e - 1].section_index as int].height as int;
    if e - 1 <= s {
        last
    } else {
        let rest = spec_line_height(gs, sections, s, e - 1);
        if rest >= last {
            rest
        } else {
            last
        }
    }
}

/// Largest line gap among the sections of the glyphs in `[s, e)`.
pub open spec fn spec_line_gap(
    gs: Seq<GlyphRecord>,
    sections: Seq<SectionMetrics>,
    s: int,
    e: int,
) -> int
    recommends
        0 <= s < e <= gs.len(),
    decreases e - s,
{
    let last = sections[gs[e - 1].section_index as int].line_gap as int;
    if e - 1 <= s {
        last
    } else {
        let rest = spec_line_gap(gs, sections, s, e - 1);
        if rest >= last {
            rest
        } else {
            last
        }
    }
}

/// The vertical offset of line `k`: zero for the first line, advancing
/// by the previous line's height plus line gap.
pub open spec fn spec_y_offset(
    gs: Seq<GlyphRecord>,
    sections: Seq<SectionMetrics>,
    spans: Seq<LineSpan>,
    k: int,
) -> int
    recommends
        0 <= k <= spans.len(),
    decreases k,
{
    if k <= 0 {
        0
    } else {
        spec_y_offset(gs, sections, spans, k - 1) + spec_line_height(
            gs,
            sections,
            spans[k - 1].start as int,
            spans[k - 1].end as int,
        ) + spec_line_gap(gs, sections, spans[k - 1].start as int, spans[k - 1].end as int)
    }
}

/// The reconstructed metric of line `k`. The baseline is the largest
/// ascent of the line's sections; the height the largest height.
pub open spec fn spec_line_metric(
    gs: Seq<GlyphRecord>,
    sections: Seq<SectionMetrics>,
    spans: Seq<LineSpan>,
    k: int,
) -> LineMetric
    recommends
        0 <= k < spans.len(),
{
    let s = spans[k].start as int;
    let e = spans[k].end as int;
    LineMetric {
        start_offset: gs[s].byte_index,
        end_offset: (gs[e - 1].byte_index + 1) as usize,
        trailing_whitespace: 0,
        baseline: spec_line_ascent(gs, sections, s, e) as i64,
        height: spec_line_height(gs, sections, s, e) as i64,
        y_offset: spec_y_offset(gs, sections, spans, k) as i64,
    }
}

/// The rectangle a glyph covers, in the layout's top-down space:
/// centred at the glyph position with the vertical axis flipped against
/// the total layout height `h`. Integer halving rounds the low edge
/// down; the extent is preserved exactly.
pub open spec fn spec_glyph_rect(g: GlyphRecord, h: int) -> Rect
    recommends
        glyph_in_range(g),
{
    let x0 = g.x - g.width as int / 2;
    let y0 = (h - g.y) - g.height as int / 2;
    Rect {
        x0: x0 as i64,
        y0: y0 as i64,
        x1: (x0 + g.width) as i64,
        y1: (y0 + g.height) as i64,
    }
}

/// The union of the rectangles of the first `n` glyphs.
pub open spec fn spec_bounds_prefix(gs: Seq<GlyphRecord>, h: int, n: int) -> Rect
    recommends
        1 <= n <= gs.len(),
    decreases n,
{
    if n <= 1 {
        spec_glyph_rect(gs[0], h)
    } else {
        spec_bounds_prefix(gs, h, n - 1).spec_union(spec_glyph_rect(gs[n - 1], h))
    }
}

/// The union of every glyph's rectangle; the empty layout gets the
/// zero rectangle.
pub open spec fn spec_image_bounds(gs: Seq<GlyphRecord>, h: int) -> Rect {
    if gs.len() == 0 {
        Rect { x0: 0, y0: 0, x1: 0, y1: 0 }
    } else {
        spec_bounds_prefix(gs, h, gs.len() as int)
    }
}

/// What the layout engine accepts from the shaping oracle: a positive
/// scale factor, coordinates and metrics within bounds, a glyph count
/// within bounds, byte offsets strictly ascending and inside the text,
/// and section indices that resolve.
pub open spec fn inputs_ok(
    text: Seq<u8>,
    st: ShapedTextModel,
    sections: Seq<SectionMetrics>,
    scale: int,
) -> bool {
    &&& scale >= 1
    &&& text.len() <= usize::MAX
    &&& 0 <= st.width <= COORD_MAX
    &&& 0 <= st.height <= COORD_MAX
    &&& st.glyphs.len() <= GLYPH_MAX
    &&& (forall|i: int| 0 <= i < st.glyphs.len() ==> glyph_in_range(#[trigger] st.glyphs[i]))
    &&& (forall|i: int|
        0 <= i < st.glyphs.len() ==> #[trigger] st.glyphs[i].byte_index < text.len())
    &&& (forall|i: int|
        0 < i < st.glyphs.len() ==> #[trigger] st.glyphs[i - 1].byte_index
            < st.glyphs[i].byte_index)
    &&& (forall|i: int|
        0 <= i < st.glyphs.len() ==> #[trigger] st.glyphs[i].section_index < sections.len())
    &&& (forall|j: int| 0 <= j < sections.len() ==> section_in_range(#[trigger] sections[j]))
}

/// The layout a successful build produces.
pub open spec fn spec_build_ok(
    text: Seq<u8>,
    entity: u64,
    st: ShapedTextModel,
    sections: Seq<SectionMetrics>,
    scale: int,
) -> LayoutModel {
    let gs = st.glyphs.map_values(|g: GlyphRecord| spec_scale_glyph(g, scale));
    let spans = spec_lines(gs);
    let height = st.height / scale;
    LayoutModel {
        entity,
        text,
        glyphs: gs,
        lines: Seq::new(spans.len(), |k: int| spec_line_metric(gs, sections, spans, k)),
        spans,
        size: Size { width: (st.width / scale) as i64, height: height as i64 },
        image_bounds: spec_image_bounds(gs, height),
    }
}

/// What `build_layout` returns, for every combination of oracle outcome
/// and inputs.
pub open spec fn spec_build(
    text: Seq<u8>,
    entity: u64,
    outcome: ShapingOutcome,
    sections: Seq<SectionMetrics>,
    scale: int,
) -> Result<LayoutModel, Error> {
    match outcome {
        ShapingOutcome::FontNotReady => Err(Error::FontNotReady),
        ShapingOutcome::Failed => Err(Error::BackendError),
        ShapingOutcome::Shaped(st) => if inputs_ok(text, st@, sections, scale) {
            Ok(spec_build_ok(text, entity, st@, sections, scale))
        } else {
            Err(Error::InvalidArgument)
        },
    }
}

/// Structure of the line partition: the spans starting at `s` are
/// non-empty, contiguous, in order, start at `s` and end at the end of
/// the glyph list.
pub proof fn lemma_lines_from_props(gs: Seq<GlyphRecord>, s: int)
    requires
        0 <= s <= gs.len(),
        gs.len() <= usize::MAX,
    ensures
        spec_lines_from(gs, s).len() <= gs.len() - s,
        (s < gs.len()) <==> spec_lines_from(gs, s).len() > 0,
        s < gs.len() ==> spec_lines_from(gs, s)[0].start == s && spec_lines_from(
            gs,
            s,
        ).last().end == gs.len(),
        forall|k: int|
            0 <= k < spec_lines_from(gs, s).len() ==> s <= (#[trigger] spec_lines_from(gs, s)[k]).start
                < spec_lines_from(gs, s)[k].end <= gs.len(),
        forall|k: int|
            0 < k < spec_lines_from(gs, s).len() ==> (#[trigger] spec_lines_from(gs, s)[k]).start
                == spec_lines_from(gs, s)[k - 1].end,
    decreases gs.len() - s,
{
    if s < gs.len() {
        let e = next_break(gs, s + 1);
        lemma_next_break_range(gs, s + 1);
        lemma_lines_from_props(gs, e);
        let head = seq![LineSpan { start: s as usize, end: e as usize }];
        let tail = spec_lines_from(gs, e);
        let all = spec_lines_from(gs, s);
        assert(all == head + tail);
        assert(all[0] == head[0]);
        assert(head[0].start == s && head[0].end == e);
        assert forall|k: int| 0 < k < all.len() implies #[trigger] all[k] == tail[k - 1] by {}
        if tail.len() > 0 {
            assert(all.last() == tail[tail.len() - 1]);
            assert(all.last().end == gs.len());
        } else {
            assert(e == gs.len());
            assert(all.last() == head[0]);
        }
        assert forall|k: int|
            0 <= k < all.len() implies s <= (#[trigger] all[k]).start < all[k].end
            <= gs.len() by {
            if k == 0 {
                assert(all[k] == head[0]);
            } else {
                assert(all[k] == tail[k - 1]);
                assert(e <= tail[k - 1].start);
            }
        }
        assert forall|k: int|
            0 < k < all.len() implies (#[trigger] all[k]).start == all[k - 1].end by {
            assert(all[k] == tail[k - 1]);
            if k == 1 {
                assert(tail.len() > 0);
                assert(tail[0].start == e);
                assert(all[0].end == e);
            } else {
                assert(all[k - 1] == tail[k - 2]);
                assert(tail[k - 1].start == tail[k - 2].end);
            }
        }
    }
}

/// Predicate bundling what the aggregate-metric lemmas need: every
/// glyph's section resolves and every section's metrics are in range.
pub open spec fn sections_ok(gs: Seq<GlyphRecord>, sections: Seq<SectionMetrics>) -> bool {
    &&& (forall|i: int|
        0 <= i < gs.len() ==> #[trigger] gs[i].section_index < sections.len())
    &&& (forall|j: int| 0 <= j < sections.len() ==> section_in_range(#[trigger] sections[j]))
}

/// The per-line aggregates stay within the bounds of their inputs.
pub proof fn lemma_line_agg_bounds(
    gs: Seq<GlyphRecord>,
    sections: Seq<SectionMetrics>,
    s: int,
    e: int,
)
    requires
        sections_ok(gs, sections),
        0 <= s < e <= gs.len(),
    ensures
        0 <= spec_line_ascent(gs, sections, s, e) <= COORD_MAX,
        0 <= spec_line_height(gs, sections, s, e) <= COORD_MAX,
        0 <= spec_line_gap(gs, sections, s, e) <= COORD_MAX,
    decreases e - s,
{
    if e - 1 > s {
        lemma_line_agg_bounds(gs, sections, s, e - 1);
    }
}

/// Vertical offsets are bounded by the number of lines passed.
pub proof fn lemma_y_offset_bounds(
    gs: Seq<GlyphRecord>,
    sections: Seq<SectionMetrics>,
    spans: Seq<LineSpan>,
    k: int,
)
    requires
        sections_ok(gs, sections),
        0 <= k <= spans.len(),
        forall|j: int|
            0 <= j < spans.len() ==> 0 <= (#[trigger] spans[j]).start < spans[j].end <= gs.len(),
    ensures
        0 <= spec_y_offset(gs, sections, spans, k) <= k * (2 * (COORD_MAX as int)),
    decreases k,
{
    if k > 0 {
        lemma_y_offset_bounds(gs, sections, spans, k - 1);
        lemma_line_agg_bounds(gs, sections, spans[k - 1].start as int, spans[k - 1].end as int);
    }
}

/// A successful build yields a well-formed layout.
pub proof fn lemma_build_wf(
    text: Seq<u8>,
    entity: u64,
    st: ShapedTextModel,
    sections: Seq<SectionMetrics>,
    scale: int,
)
    requires
        inputs_ok(text, st, sections, scale),
    ensures
        wf(spec_build_ok(text, entity, st, sections, scale)),
{
    let l = spec_build_ok(text, entity, st, sections, scale);
    let gs = st.glyphs.map_values(|g: GlyphRecord| spec_scale_glyph(g, scale));
    let spans = spec_lines(gs);
    assert(gs.len() == st.glyphs.len());
    assert forall|i: int| 0 <= i < gs.len() implies glyph_in_range(#[trigger] gs[i]) by {
        let g = st.glyphs[i];
        vstd::arithmetic::div_mod::lemma_div_pos_is_pos(g.x as int, scale);
        vstd::arithmetic::div_mod::lemma_div_nonincreasing(g.x as int, scale);
        vstd::arithmetic::div_mod::lemma_div_pos_is_pos(g.y as int, scale);
        vstd::arithmetic::div_mod::lemma_div_nonincreasing(g.y as int, scale);
        vstd::arithmetic::div_mod::lemma_div_pos_is_pos(g.width as int, scale);
        vstd::arithmetic::div_mod::lemma_div_nonincreasing(g.width as int, scale);
        vstd::arithmetic::div_mod::lemma_div_pos_is_pos(g.height as int, scale);
        vstd::arithmetic::div_mod::lemma_div_nonincreasing(g.height as int, scale);
    }
    lemma_lines_from_props(gs, 0);
    assert(sections_ok(gs, sections));
    assert forall|k: int|
        0 <= k < l.lines.len() implies #[trigger] l.lines[k].end_offset == l.glyphs[l.spans[k].end
        - 1].byte_index + 1 by {
        let e = spans[k].end as int;
        assert(gs[e - 1].byte_index == st.glyphs[e - 1].byte_index);
        assert(st.glyphs[e - 1].byte_index < text.len());
    }
    assert forall|k: int| 0 <= k < l.lines.len() implies (#[trigger] l.lines[k])
        == spec_line_metric(gs, sections, spans, k) by {}
    assert forall|k: int|
        0 <= k < l.lines.len() implies (#[trigger] l.lines[k]).trailing_whitespace == 0 && 0
        <= l.lines[k].baseline <= COORD_MAX && 0 <= l.lines[k].height <= COORD_MAX by {
        lemma_line_agg_bounds(gs, sections, spans[k].start as int, spans[k].end as int);
        lemma_y_offset_bounds(gs, sections, spans, k);
    }
    assert forall|k: int|
        0 <= k < l.lines.len() implies 0 <= (#[trigger] l.lines[k]).y_offset <= 2 * (
    COORD_MAX as int) * (GLYPH_MAX as int) by {
        lemma_y_offset_bounds(gs, sections, spans, k);
        lemma_line_agg_bounds(gs, sections, spans[k].start as int, spans[k].end as int);
        assert(spec_y_offset(gs, sections, spans, k) <= k * (2 * (COORD_MAX as int)));
        assert(k <= GLYPH_MAX);
        assert(k * (2 * (COORD_MAX as int)) <= (GLYPH_MAX as int) * (2 * (COORD_MAX as int)))
            by (nonlinear_arith)
            requires
                0 <= k <= GLYPH_MAX as int,
        ;
    }
    if l.lines.len() > 0 {
        assert(l.lines[0].y_offset == 0);
    }
    assert forall|k: int|
        0 < k < l.lines.len() implies (#[trigger] l.lines[k]).y_offset >= l.lines[k - 1].y_offset
        + l.lines[k - 1].height by {
        lemma_line_agg_bounds(gs, sections, spans[k - 1].start as int, spans[k - 1].end as int);
        lemma_y_offset_bounds(gs, sections, spans, k - 1);
    }
    vstd::arithmetic::div_mod::lemma_div_pos_is_pos(st.width, scale);
    vstd::arithmetic::div_mod::lemma_div_nonincreasing(st.width, scale);
    vstd::arithmetic::div_mod::lemma_div_pos_is_pos(st.height, scale);
    vstd::arithmetic::div_mod::lemma_div_nonincreasing(st.height, scale);
}

/// One glyph converted to logical units; see [`spec_scale_glyph`].
fn scale_glyph(g: &GlyphRecord, scale: i64) -> (r: GlyphRecord)
    requires
        glyph_in_range(*g),
        scale >= 1,
    ensures
        r == spec_scale_glyph(*g, scale as int),
{
    GlyphRecord {
        byte_index: g.byte_index,
        x: g.x / scale,
        y: g.y / scale,
        width: g.width / scale,
        height: g.height / scale,
        section_index: g.section_index,
    }
}

/// Scan forward from `j` to the next line break; see [`next_break`].
fn find_break(gs: &Vec<GlyphRecord>, j: usize) -> (r: usize)
    requires
        1 <= j <= gs@.len(),
    ensures
        r == next_break(gs@, j as int),
        j <= r <= gs@.len(),
{
    let n = gs.len();
    let mut e = j;
    while e < n && gs[e].x >= gs[e - 1].x
        invariant
            1 <= j <= e <= n,
            n == gs@.len(),
            next_break(gs@, j as int) == next_break(gs@, e as int),
        decreases n - e,
    {
        e = e + 1;
    }
    proof {
        lemma_next_break_range(gs@, j as int);
    }
    e
}

/// Partition the glyph list into lines; see [`spec_lines`]. A new line
/// starts exactly where a glyph's x-position drops below its
/// predecessor's.
pub fn build_lines(gs: &Vec<GlyphRecord>) -> (r: Vec<LineSpan>)
    ensures
        r@ == spec_lines(gs@),
{
    let n = gs.len();
    let mut spans: Vec<LineSpan> = Vec::new();
    let mut s: usize = 0;
    while s < n
        invariant
            0 <= s <= n,
            n == gs@.len(),
            spec_lines(gs@) == spans@ + spec_lines_from(gs@, s as int),
        decreases n - s,
    {
        let e = find_break(gs, s + 1);
        spans.push(LineSpan { start: s, end: e });
        proof {
            assert(spans@ + spec_lines_from(gs@, e as int) =~= spec_lines(gs@));
        }
        s = e;
    }
    proof {
        assert(spans@ =~= spec_lines(gs@));
    }
    spans
}

/// Reconstruct the metric of every line; see [`spec_line_metric`].
fn line_metrics_for(
    gs: &Vec<GlyphRecord>,
    sections: &Vec<SectionMetrics>,
    spans: &Vec<LineSpan>,
) -> (r: Vec<LineMetric>)
    requires
        sections_ok(gs@, sections@),
        gs@.len() <= GLYPH_MAX,
        spans@.len() <= gs@.len(),
        forall|k: int|
            0 <= k < spans@.len() ==> 0 <= (#[trigger] spans@[k]).start < spans@[k].end
                <= gs@.len(),
        forall|i: int| 0 <= i < gs@.len() ==> (#[trigger] gs@[i]).byte_index < usize::MAX,
    ensures
        r@.len() == spans@.len(),
        forall|k: int|
            0 <= k < spans@.len() ==> #[trigger] r@[k] == spec_line_metric(
                gs@,
                sections@,
                spans@,
                k,
            ),
{
    let mut metrics: Vec<LineMetric> = Vec::new();
    let mut y: i64 = 0;
    let nspans = spans.len();
    let mut k: usize = 0;
    while k < nspans
        invariant
            0 <= k <= nspans,
            nspans == spans@.len(),
            sections_ok(gs@, sections@),
            gs@.len() <= GLYPH_MAX,
            spans@.len() <= gs@.len(),
            forall|j: int|
                0 <= j < spans@.len() ==> 0 <= (#[trigger] spans@[j]).start < spans@[j].end
                    <= gs@.len(),
            forall|i: int| 0 <= i < gs@.len() ==> (#[trigger] gs@[i]).byte_index < usize::MAX,
            metrics@.len() == k,
            forall|j: int|
                0 <= j < k ==> #[trigger] metrics@[j] == spec_line_metric(
                    gs@,
                    sections@,
                    spans@,
                    j,
                ),
            y == spec_y_offset(gs@, sections@, spans@, k as int),
        decreases nspans - k,
    {
        proof {
            lemma_y_offset_bounds(gs@, sections@, spans@, k as int);
        }
        let sp = spans[k];
        let first = gs[sp.start];
        let m0 = sections[first.section_index];
        let mut asc: i64 = m0.ascent;
        let mut hgt: i64 = m0.height;
        let mut gap: i64 = m0.line_gap;
        let mut j = sp.start + 1;
        while j < sp.end
            invariant
                sp.start < j <= sp.end,
                sp == spans@[k as int],
                0 <= k < spans@.len(),
                sp.end <= gs@.len(),
                sections_ok(gs@, sections@),
                asc == spec_line_ascent(gs@, sections@, sp.start as int, j as int),
                hgt == spec_line_height(gs@, sections@, sp.start as int, j as int),
                gap == spec_line_gap(gs@, sections@, sp.start as int, j as int),
            decreases sp.end - j,
        {
            let m = sections[gs[j].section_index];
            if m.ascent > asc {
                asc = m.ascent;
            }
            if m.height > hgt {
                hgt = m.height;
            }
            if m.line_gap > gap {
                gap = m.line_gap;
            }
            j = j + 1;
        }
        proof {
            lemma_line_agg_bounds(gs@, sections@, sp.start as int, sp.end as int);
        }
        let last = gs[sp.end - 1];
        metrics.push(
            LineMetric {
                start_offset: first.byte_index,
                end_offset: last.byte_index + 1,
                trailing_whitespace: 0,
                baseline: asc,
                height: hgt,
                y_offset: y,
            },
        );
        proof {
            lemma_y_offset_bounds(gs@, sections@, spans@, k as int);
            vstd::arithmetic::mul::lemma_mul_inequality(
                k as int,
                GLYPH_MAX as int,
                2 * (COORD_MAX as int),
            );
            assert(y + hgt + gap <= i64::MAX);
        }
        y = y + hgt + gap;
        k = k + 1;
        proof {
            lemma_y_offset_bounds(gs@, sections@, spans@, k as int);
        }
    }
    metrics
}

/// The covering rectangle of one glyph, in top-down space; see
/// [`spec_glyph_rect`].
pub fn glyph_rect_at(g: &GlyphRecord, layout_height: i64) -> (r: Rect)
    requires
        glyph_in_range(*g),
        0 <= layout_height <= COORD_MAX,
    ensures
        r == spec_glyph_rect(*g, layout_height as int),
{
    let x0 = g.x - g.width / 2;
    let y0 = (layout_height - g.y) - g.height / 2;
    Rect { x0, y0, x1: x0 + g.width, y1: y0 + g.height }
}

/// The union of every glyph's rectangle; see [`spec_image_bounds`].
fn compute_image_bounds(gs: &Vec<GlyphRecord>, layout_height: i64) -> (r: Rect)
    requires
        forall|i: int| 0 <= i < gs@.len() ==> glyph_in_range(#[trigger] gs@[i]),
        0 <= layout_height <= COORD_MAX,
    ensures
        r == spec_image_bounds(gs@, layout_height as int),
{
    let n = gs.len();
    if n == 0 {
        return Rect { x0: 0, y0: 0, x1: 0, y1: 0 };
    }
    let mut bounds = glyph_rect_at(&gs[0], layout_height);
    let mut i: usize = 1;
    while i < n
        invariant
            1 <= i <= n,
            n == gs@.len(),
            0 <= layout_height <= COORD_MAX,
            forall|j: int| 0 <= j < gs@.len() ==> glyph_in_range(#[trigger] gs@[j]),
            bounds == spec_bounds_prefix(gs@, layout_height as int, i as int),
        decreases n - i,
    {
        let gr = glyph_rect_at(&gs[i], layout_height);
        bounds = bounds.union(&gr);
        i = i + 1;
    }
    bounds
}

/// Check every input bound the layout engine relies on; see
/// [`inputs_ok`].
fn validate_inputs(
    text: &Vec<u8>,
    st: &ShapedText,
    sections: &Vec<SectionMetrics>,
    scale: i64,
) -> (r: bool)
    ensures
        r == inputs_ok(text@, st@, sections@, scale as int),
{
    if scale < 1 {
        return false;
    }
    if st.width < 0 || st.width > COORD_MAX || st.height < 0 || st.height > COORD_MAX {
        return false;
    }
    let nglyphs = st.glyphs.len();
    if nglyphs > GLYPH_MAX {
        return false;
    }
    let text_len = text.len();
    let nsections = sections.len();
    let mut i: usize = 0;
    while i < nglyphs
        invariant
            0 <= i <= nglyphs,
            nglyphs == st.glyphs@.len(),
            text_len == text@.len(),
            nsections == sections@.len(),
            forall|j: int| 0 <= j < i ==> glyph_in_range(#[trigger] st.glyphs@[j]),
            forall|j: int| 0 <= j < i ==> (#[trigger] st.glyphs@[j]).byte_index < text@.len(),
            forall|j: int|
                0 < j < i ==> (#[trigger] st.glyphs@[j - 1]).byte_index
                    < st.glyphs@[j].byte_index,
            forall|j: int|
                0 <= j < i ==> (#[trigger] st.glyphs@[j]).section_index < sections@.len(),
        decreases nglyphs - i,
    {
        let g = st.glyphs[i];
        if g.x < 0 || g.x > COORD_MAX || g.y < 0 || g.y > COORD_MAX {
            return false;
        }
        if g.width < 0 || g.width > COORD_MAX || g.height < 0 || g.height > COORD_MAX {
            return false;
        }
        if g.byte_index >= text_len {
            return false;
        }
        if g.section_index >= nsections {
            return false;
        }
        if i > 0 && st.glyphs[i - 1].byte_index >= g.byte_index {
            return false;
        }
        i = i + 1;
    }
    let mut j: usize = 0;
    while j < nsections
        invariant
            0 <= j <= nsections,
            nsections == sections@.len(),
            forall|m: int| 0 <= m < j ==> section_in_range(#[trigger] sections@[m]),
        decreases nsections - j,
    {
        let m = sections[j];
        if m.ascent < 0 || m.ascent > COORD_MAX {
            return false;
        }
        if m.descent < -COORD_MAX || m.descent > COORD_MAX {
            return false;
        }
        if m.height < 0 || m.height > COORD_MAX {
            return false;
        }
        if m.line_gap < 0 || m.line_gap > COORD_MAX {
            return false;
        }
        j = j + 1;
    }
    true
}

/// Build an immutable layout from one shaping outcome.
///
/// A `FontNotReady` outcome fails with `FontNotReady` (recoverable: the
/// caller retries on a later frame); any other oracle failure is
/// `BackendError`. A successful outcome whose data violates the input
/// bounds (see [`inputs_ok`]) fails with `InvalidArgument`. Otherwise
/// the build succeeds and returns exactly the layout of
/// [`spec_build_ok`], which is well formed.
pub fn build_layout(
    text: Vec<u8>,
    entity: u64,
    outcome: ShapingOutcome,
    sections: Vec<SectionMetrics>,
    scale: i64,
) -> (r: Result<PietTextLayout, Error>)
    ensures
        (r is Ok <==> spec_build(text@, entity, outcome, sections@, scale as int) is Ok),
        r is Ok ==> r->Ok_0@ == spec_build(text@, entity, outcome, sections@, scale as int)->Ok_0
            && wf(r->Ok_0@),
        r is Err ==> spec_build(text@, entity, outcome, sections@, scale as int) is Err && r->Err_0
            == spec_build(text@, entity, outcome, sections@, scale as int)->Err_0,
{
    let st = match outcome {
        ShapingOutcome::FontNotReady => {
            return Err(Error::FontNotReady);
        },
        ShapingOutcome::Failed => {
            return Err(Error::BackendError);
        },
        ShapingOutcome::Shaped(st) => st,
    };
    if !validate_inputs(&text, &st, &sections, scale) {
        return Err(Error::InvalidArgument);
    }
    let nglyphs = st.glyphs.len();
    let mut glyphs: Vec<GlyphRecord> = Vec::new();
    let mut i: usize = 0;
    while i < nglyphs
        invariant
            0 <= i <= nglyphs,
            nglyphs == st.glyphs@.len(),
            scale >= 1,
            forall|j: int| 0 <= j < nglyphs ==> glyph_in_range(#[trigger] st.glyphs@[j]),
            glyphs@.len() == i,
            forall|j: int|
                0 <= j < i ==> #[trigger] glyphs@[j] == spec_scale_glyph(
                    st.glyphs@[j],
                    scale as int,
                ),
        decreases nglyphs - i,
    {
        let g = scale_glyph(&st.glyphs[i], scale);
        glyphs.push(g);
        i = i + 1;
    }
    proof {
        assert(glyphs@ =~= st.glyphs@.map_values(
            |g: GlyphRecord| spec_scale_glyph(g, scale as int),
        ));
        lemma_lines_from_props(glyphs@, 0);
        assert forall|j: int| 0 <= j < glyphs@.len() implies glyph_in_range(
            #[trigger] glyphs@[j],
        ) && glyphs@[j].byte_index < usize::MAX by {
            let g = st.glyphs@[j];
            vstd::arithmetic::div_mod::lemma_div_pos_is_pos(g.x as int, scale as int);
            vstd::arithmetic::div_mod::lemma_div_nonincreasing(g.x as int, scale as int);
            vstd::arithmetic::div_mod::lemma_div_pos_is_pos(g.y as int, scale as int);
            vstd::arithmetic::div_mod::lemma_div_nonincreasing(g.y as int, scale as int);
            vstd::arithmetic::div_mod::lemma_div_pos_is_pos(g.width as int, scale as int);
            vstd::arithmetic::div_mod::lemma_div_nonincreasing(g.width as int, scale as int);
            vstd::arithmetic::div_mod::lemma_div_pos_is_pos(g.height as int, scale as int);
            vstd::arithmetic::div_mod::lemma_div_nonincreasing(g.height as int, scale as int);
        }
    }
    let spans = build_lines(&glyphs);
    let metrics = line_metrics_for(&glyphs, &sections, &spans);
    let width = st.width / scale;
    let height = st.height / scale;
    proof {
        vstd::arithmetic::div_mod::lemma_div_pos_is_pos(st.width as int, scale as int);
        vstd::arithmetic::div_mod::lemma_div_nonincreasing(st.width as int, scale as int);
        vstd::arithmetic::div_mod::lemma_div_pos_is_pos(st.height as int, scale as int);
        vstd::arithmetic::div_mod::lemma_div_nonincreasing(st.height as int, scale as int);
    }
    let image_bounds = compute_image_bounds(&glyphs, height);
    let layout = PietTextLayout {
        entity,
        text,
        glyphs,
        line_metrics: metrics,
        line_spans: spans,
        size: Size { width, height },
        image_bounds,
    };
    proof {
        let m = spec_build_ok(text@, entity, st@, sections@, scale as int);
        lemma_build_wf(text@, entity, st@, sections@, scale as int);
        assert(layout@.lines =~= m.lines);
        assert(layout@ == m);
    }
    Ok(layout)
}

/// Byte indices are non-decreasing across any distance, not just
/// between neighbours.
pub proof fn lemma_bytes_ascending(gs: Seq<GlyphRecord>, i: int, j: int)
    requires
        forall|m: int| 0 < m < gs.len() ==> #[trigger] gs[m - 1].byte_index < gs[m].byte_index,
        0 <= i <= j < gs.len(),
    ensures
        gs[i].byte_index <= gs[j].byte_index,
    decreases j - i,
{
    if i < j {
        lemma_bytes_ascending(gs, i, j - 1);
    }
}

impl PietTextLayout {
    /// The overall layout size in logical units.
    pub fn size(&self) -> (r: Size)
        ensures
            r == self@.size,
    {
        self.size
    }

    /// The union of every glyph's rectangle, in top-down space.
    pub fn image_bounds(&self) -> (r: Rect)
        ensures
            r == self@.image_bounds,
    {
        self.image_bounds
    }

    /// The UTF-8 source text.
    pub fn text(&self) -> (r: &Vec<u8>)
        ensures
            r@ == self@.text,
    {
        &self.text
    }

    /// Trailing whitespace is not measured by this backend.
    pub fn trailing_whitespace_width(&self) -> (r: i64)
        ensures
            r == 0,
    {
        0
    }

    /// How many lines the layout has.
    pub fn line_count(&self) -> (r: usize)
        ensures
            r == self@.lines.len(),
    {
        self.line_metrics.len()
    }

    /// The metric of line `line_number`, if it exists.
    pub fn line_metric(&self, line_number: usize) -> (r: Option<LineMetric>)
        ensures
            line_number < self@.lines.len() ==> r == Some(self@.lines[line_number as int]),
            line_number >= self@.lines.len() ==> r is None,
    {
        if line_number < self.line_metrics.len() {
            Some(self.line_metrics[line_number])
        } else {
            None
        }
    }

    /// The bytes of line `line_number`: the text between the line's
    /// start and end offsets. Trailing whitespace without glyphs is not
    /// included, since the line ranges are reconstructed from glyphs.
    pub fn line_text(&self, line_number: usize) -> (r: Option<Vec<u8>>)
        requires
            wf(self@),
        ensures
            line_number < self@.lines.len() ==> r is Some && r->0@ == self@.text.subrange(
                self@.lines[line_number as int].start_offset as int,
                self@.lines[line_number as int].end_offset as int,
            ),
            line_number >= self@.lines.len() ==> r is None,
    {
        if line_number >= self.line_metrics.len() {
            return None;
        }
        let m = self.line_metrics[line_number];
        proof {
            let k = line_number as int;
            let sp = self@.spans[k];
            lemma_bytes_ascending(self@.glyphs, sp.start as int, sp.end - 1);
        }
        let mut out: Vec<u8> = Vec::new();
        let mut i = m.start_offset;
        while i < m.end_offset
            invariant
                m.start_offset <= i <= m.end_offset,
                m.end_offset <= self@.text.len(),
                out@ == self@.text.subrange(m.start_offset as int, i as int),
                self@.text == self.text@,
            decreases m.end_offset - i,
        {
            out.push(self.text[i]);
            proof {
                assert(out@ =~= self@.text.subrange(m.start_offset as int, i + 1 as int));
            }
            i = i + 1;
        }
        Some(out)
    }

    /// The rectangle a glyph of this layout covers, in top-down space.
    pub fn glyph_rect(&self, glyph: &GlyphRecord) -> (r: Rect)
        requires
            glyph_in_range(*glyph),
            0 <= self@.size.height <= COORD_MAX,
        ensures
            r == spec_glyph_rect(*glyph, self@.size.height as int),
    {
        glyph_rect_at(glyph, self.size.height)
    }
}

/// Building is deterministic: two builds from identical inputs produce
/// layouts with equal size, equal line count and equal line metrics
/// (indeed equal in every part). Once the font is ready, retrying a
/// build with the same oracle outcome changes nothing.
pub proof fn lemma_build_idempotent(
    text: Seq<u8>,
    entity: u64,
    outcome: ShapingOutcome,
    sections: Seq<SectionMetrics>,
    scale: int,
    l1: LayoutModel,
    l2: LayoutModel,
)
    requires
        spec_build(text, entity, outcome, sections, scale) == Ok::<LayoutModel, Error>(l1),
        spec_build(text, entity, outcome, sections, scale) == Ok::<LayoutModel, Error>(l2),
    ensures
        l1.size == l2.size,
        l1.lines.len() == l2.lines.len(),
        l1.lines == l2.lines,
        l1 == l2,
{
}

} // verus!
