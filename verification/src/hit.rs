//! Hit testing: pure queries over a built text layout.
//!
//! `hit_test_point` maps a screen point to the byte offset of the
//! nearest glyph; `hit_test_text_position` maps a byte offset to the
//! caret point on its line. Both work on a well-formed layout (see
//! [`crate::layout::wf`]) and follow the documented strategies of this
//! backend: lines are chosen by vertical extent, a missing exact glyph
//! attaches the caret to the trailing edge of the previous glyph, and
//! ties between equally distant glyphs are resolved
//! first-encountered-wins.

use crate::geom::Point;
use crate::layout::{spec_glyph_rect, wf, GlyphRecord, LayoutModel, LineMetric, PietTextLayout};
use crate::Error;
use vstd::prelude::*;

verus! {

/// Largest point coordinate magnitude `hit_test_point` accepts; far
/// enough outside any layout, and small enough that squared distances
/// cannot overflow.
pub const POINT_MAX: i64 = 0x1_0000_0000_0000;

/// The answer of a point hit test: the byte offset of the glyph that
/// was hit or is nearest, and whether the point is inside that glyph.
#[derive(Clone, Copy, Debug, PartialEq, Eq, Structural)]
pub struct HitTestResult {
    pub byte_index: usize,
    pub is_inside: bool,
}

/// The answer of an offset hit test: the caret point and the line it
/// falls on.
#[derive(Clone, Copy, Debug, PartialEq, Eq, Structural)]
pub struct HitTestPosition {
    pub point: Point,
    pub line_number: usize,
}

/// Whether `i` is on a UTF-8 character boundary of `text`: at either
/// end, or at a byte that is not a continuation byte.
pub open spec fn spec_is_boundary(text: Seq<u8>, i: int) -> bool {
    i == 0 || i == text.len() || !(0x80 <= text[i] && text[i] < 0xC0)
}

/// The first line whose bottom (`y_offset + height`) reaches down to
/// `py`, or the last line if none does.
pub open spec fn spec_pick_line(lines: Seq<LineMetric>, py: int, k: int) -> int
    recommends
        0 <= k <= lines.len(),
        lines.len() > 0,
    decreases lines.len() - k,
{
    if k >= lines.len() {
        lines.len() - 1
    } else if py <= lines[k].y_offset + lines[k].height {
        k
    } else {
        spec_pick_line(lines, py, k + 1)
    }
}

/// The line a byte offset belongs to: the last line whose
/// `start_offset` is at most `idx`, or line 0 when the offset precedes
/// every line.
pub open spec fn spec_line_for_offset(lines: Seq<LineMetric>, idx: int) -> int
    decreases lines.len(),
{
    if lines.len() == 0 {
        0
    } else if lines.last().start_offset <= idx {
        lines.len() - 1
    } else {
        spec_line_for_offset(lines.drop_last(), idx)
    }
}

/// The first glyph in `[s, e)` whose rectangle contains `p`, if any.
pub open spec fn spec_find_containing(
    gs: Seq<GlyphRecord>,
    h: int,
    s: int,
    e: int,
    p: Point,
) -> Option<int>
    recommends
        0 <= s && e <= gs.len(),
    decreases e - s,
{
    if s >= e {
        None
    } else if spec_glyph_rect(gs[s], h).spec_contains(p) {
        Some(s)
    } else {
        spec_find_containing(gs, h, s + 1, e, p)
    }
}

/// Squared distance between a glyph's centre and `(px, py)`, both in
/// the oracle's bottom-up space.
pub open spec fn spec_dist2(g: GlyphRecord, px: int, py: int) -> int {
    (g.x - px) * (g.x - px) + (g.y - py) * (g.y - py)
}

/// The glyph in `[s, e)` with the smallest squared centre distance to
/// `(px, py)`; ties go to the first-encountered glyph.
pub open spec fn spec_nearest(gs: Seq<GlyphRecord>, s: int, e: int, px: int, py: int) -> int
    recommends
        0 <= s < e <= gs.len(),
    decreases e - s,
{
    if e - 1 <= s {
        s
    } else {
        let best = spec_nearest(gs, s, e - 1, px, py);
        if spec_dist2(gs[e - 1], px, py) < spec_dist2(gs[best], px, py) {
            e - 1
        } else {
            best
        }
    }
}

/// The caret glyph for offset `idx` in the line `[s, e)`: the last
/// glyph whose byte index is at most `idx`, or the line's first glyph
/// when every glyph starts after `idx`.
pub open spec fn spec_caret_glyph(gs: Seq<GlyphRecord>, s: int, e: int, idx: int) -> int
    recommends
        0 <= s < e <= gs.len(),
    decreases e - s,
{
    if e - 1 <= s {
        s
    } else if gs[e - 1].byte_index <= idx {
        e - 1
    } else {
        spec_caret_glyph(gs, s, e - 1, idx)
    }
}

/// What `hit_test_point` returns on a well-formed layout.
pub open spec fn spec_hit_test_point(l: LayoutModel, p: Point) -> HitTestResult {
    if l.lines.len() == 0 {
        HitTestResult { byte_index: 0, is_inside: false }
    } else {
        let n = spec_pick_line(l.lines, p.y as int, 0);
        let sp = l.spans[n];
        match spec_find_containing(
            l.glyphs,
            l.size.height as int,
            sp.start as int,
            sp.end as int,
            p,
        ) {
            Some(j) => HitTestResult { byte_index: l.glyphs[j].byte_index, is_inside: true },
            None => {
                let j = spec_nearest(
                    l.glyphs,
                    sp.start as int,
                    sp.end as int,
                    p.x as int,
                    l.size.height - p.y,
                );
                HitTestResult { byte_index: l.glyphs[j].byte_index, is_inside: false }
            },
        }
    }
}

/// What `hit_test_text_position` returns on a well-formed layout.
pub open spec fn spec_hit_test_text_position(l: LayoutModel, idx0: int) -> Result<
    HitTestPosition,
    Error,
> {
    let idx = if idx0 <= l.text.len() {
        idx0
    } else {
        l.text.len() as int
    };
    if !spec_is_boundary(l.text, idx) {
        Err(Error::InvalidArgument)
    } else if l.lines.len() == 0 {
        Ok(HitTestPosition { point: Point { x: 0, y: 0 }, line_number: 0 })
    } else {
        let n = spec_line_for_offset(l.lines, idx);
        let sp = l.spans[n];
        let j = spec_caret_glyph(l.glyphs, sp.start as int, sp.end as int, idx);
        let g = l.glyphs[j];
        Ok(
            HitTestPosition {
                point: Point {
                    x: (g.x - g.width as int / 2) as i64,
                    y: (l.lines[n].y_offset + l.lines[n].baseline) as i64,
                },
                line_number: n as usize,
            },
        )
    }
}

proof fn lemma_sq_bound(v: int, b: int)
    requires
        0 <= b,
        -b <= v <= b,
    ensures
        0 <= v * v <= b * b,
{
    assert(0 <= v * v <= b * b) by (nonlinear_arith)
        requires
            0 <= b && -b <= v <= b,
    ;
}

/// Squared centre distance of a glyph to a point, exactly.
fn dist2(g: &GlyphRecord, px: i64, py: i64) -> (r: i128)
    requires
        crate::layout::glyph_in_range(*g),
        -0x4_0000_0000_0000 <= px <= 0x4_0000_0000_0000,
        -0x4_0000_0000_0000 <= py <= 0x4_0000_0000_0000,
    ensures
        r == spec_dist2(*g, px as int, py as int),
{
    let dx: i128 = (g.x as i128) - (px as i128);
    let dy: i128 = (g.y as i128) - (py as i128);
    proof {
        lemma_sq_bound(dx as int, 0x8_0000_0000_0000);
        lemma_sq_bound(dy as int, 0x8_0000_0000_0000);
    }
    dx * dx + dy * dy
}

impl PietTextLayout {
    /// Map a screen point to the byte offset of the glyph it hits, or
    /// of the nearest glyph of the line it falls on.
    ///
    /// The line is the first one whose bottom reaches the point, the
    /// last line as a fallback; inside that line an exact rectangle
    /// hit wins, otherwise the glyph with the smallest squared centre
    /// distance, ties resolved first-encountered-wins. A layout
    /// without lines answers `{0, false}`.
    pub fn hit_test_point(&self, p: Point) -> (r: HitTestResult)
        requires
            wf(self@),
            -POINT_MAX <= p.x <= POINT_MAX,
            -POINT_MAX <= p.y <= POINT_MAX,
        ensures
            r == spec_hit_test_point(self@, p),
    {
        let n_lines = self.line_metrics.len();
        if n_lines == 0 {
            return HitTestResult { byte_index: 0, is_inside: false };
        }
        let mut k: usize = 0;
        let mut n: usize = n_lines - 1;
        let mut found = false;
        while k < n_lines && !found
            invariant
                0 <= k <= n_lines,
                n_lines == self@.lines.len(),
                n_lines > 0,
                wf(self@),
                !found ==> n == n_lines - 1 && spec_pick_line(self@.lines, p.y as int, 0)
                    == spec_pick_line(self@.lines, p.y as int, k as int),
                found ==> n < n_lines && n == spec_pick_line(self@.lines, p.y as int, 0),
            decreases n_lines - k + (if found { 0int } else { 1int }),
        {
            let m = self.line_metrics[k];
            if p.y <= m.y_offset + m.height {
                found = true;
                n = k;
            } else {
                k = k + 1;
            }
        }
        let sp = self.line_spans[n];
        let mut j = sp.start;
        while j < sp.end
            invariant
                sp.start <= j <= sp.end,
                sp == self@.spans[n as int],
                0 <= n < self@.spans.len(),
                self@.lines.len() > 0,
                n == spec_pick_line(self@.lines, p.y as int, 0),
                wf(self@),
                spec_find_containing(
                    self@.glyphs,
                    self@.size.height as int,
                    sp.start as int,
                    sp.end as int,
                    p,
                ) == spec_find_containing(
                    self@.glyphs,
                    self@.size.height as int,
                    j as int,
                    sp.end as int,
                    p,
                ),
            decreases sp.end - j,
        {
            let rect = crate::layout::glyph_rect_at(&self.glyphs[j], self.size.height);
            if rect.contains(p) {
                return HitTestResult { byte_index: self.glyphs[j].byte_index, is_inside: true };
            }
            j = j + 1;
        }
        let py_flipped = self.size.height - p.y;
        let mut best = sp.start;
        let mut best_d = dist2(&self.glyphs[sp.start], p.x, py_flipped);
        let mut i = sp.start + 1;
        while i < sp.end
            invariant
                sp.start < i <= sp.end,
                sp == self@.spans[n as int],
                0 <= n < self@.spans.len(),
                self@.lines.len() > 0,
                n == spec_pick_line(self@.lines, p.y as int, 0),
                wf(self@),
                -POINT_MAX <= p.x <= POINT_MAX,
                py_flipped == self@.size.height - p.y,
                -0x4_0000_0000_0000 <= py_flipped <= 0x4_0000_0000_0000,
                sp.start <= best < sp.end,
                best == spec_nearest(
                    self@.glyphs,
                    sp.start as int,
                    i as int,
                    p.x as int,
                    py_flipped as int,
                ),
                best_d == spec_dist2(self@.glyphs[best as int], p.x as int, py_flipped as int),
            decreases sp.end - i,
        {
            let d = dist2(&self.glyphs[i], p.x, py_flipped);
            if d < best_d {
                best = i;
                best_d = d;
            }
            i = i + 1;
        }
        HitTestResult { byte_index: self.glyphs[best].byte_index, is_inside: false }
    }

    /// Map a byte offset to the caret point on its line.
    ///
    /// The offset is clamped to the text length and must fall on a
    /// UTF-8 character boundary (`InvalidArgument` otherwise). The
    /// caret attaches to the glyph at the offset, or to the trailing
    /// edge of the previous glyph when the offset has no glyph of its
    /// own. A layout without lines answers the origin on line 0.
    pub fn hit_test_text_position(&self, idx: usize) -> (r: Result<HitTestPosition, Error>)
        requires
            wf(self@),
        ensures
            r == spec_hit_test_text_position(self@, idx as int),
    {
        let tlen = self.text.len();
        let idx = if idx > tlen {
            tlen
        } else {
            idx
        };
        if idx != 0 && idx != tlen {
            let b = self.text[idx];
            if 0x80 <= b && b < 0xC0 {
                return Err(Error::InvalidArgument);
            }
        }
        let n_lines = self.line_metrics.len();
        if n_lines == 0 {
            return Ok(HitTestPosition { point: Point { x: 0, y: 0 }, line_number: 0 });
        }
        proof {
            assert(self@.lines.subrange(0, n_lines as int) =~= self@.lines);
        }
        let mut k: usize = n_lines;
        let mut n: usize = 0;
        let mut found = false;
        while k > 0 && !found
            invariant
                0 <= k <= n_lines,
                n_lines == self@.lines.len(),
                wf(self@),
                !found ==> n == 0 && spec_line_for_offset(self@.lines, idx as int)
                    == spec_line_for_offset(self@.lines.subrange(0, k as int), idx as int),
                found ==> n < n_lines && n == spec_line_for_offset(self@.lines, idx as int),
            decreases k + (if found { 0int } else { 1int }),
        {
            let m = self.line_metrics[k - 1];
            if m.start_offset <= idx {
                found = true;
                n = k - 1;
                proof {
                    let pre = self@.lines.subrange(0, k as int);
                    assert(pre.last() == self@.lines[k - 1]);
                }
            } else {
                proof {
                    let pre = self@.lines.subrange(0, k as int);
                    assert(pre.last() == self@.lines[k - 1]);
                    assert(pre.drop_last() =~= self@.lines.subrange(0, k - 1));
                }
                k = k - 1;
            }
        }
        let sp = self.line_spans[n];
        let mut e = sp.end;
        while e > sp.start && self.glyphs[e - 1].byte_index > idx
            invariant
                sp.start <= e <= sp.end,
                sp == self@.spans[n as int],
                0 <= n < self@.spans.len(),
                wf(self@),
                spec_caret_glyph(self@.glyphs, sp.start as int, sp.end as int, idx as int) == (
                if e == sp.start {
                    sp.start as int
                } else {
                    spec_caret_glyph(self@.glyphs, sp.start as int, e as int, idx as int)
                }),
            decreases e,
        {
            e = e - 1;
        }
        let c = if e == sp.start {
            sp.start
        } else {
            e - 1
        };
        let g = self.glyphs[c];
        let m = self.line_metrics[n];
        Ok(
            HitTestPosition {
                point: Point { x: g.x - g.width / 2, y: m.y_offset + m.baseline },
                line_number: n,
            },
        )
    }
}


proof fn lemma_line_for_offset_zero(lines: Seq<LineMetric>)
    requires
        forall|k: int| 1 <= k < lines.len() ==> (#[trigger] lines[k]).start_offset > 0,
    ensures
        spec_line_for_offset(lines, 0) == 0,
    decreases lines.len(),
{
    if lines.len() > 0 && !(lines.last().start_offset <= 0) {
        assert forall|k: int|
            1 <= k < lines.drop_last().len() implies (#[trigger] lines.drop_last()[k]).start_offset
            > 0 by {
            assert(lines.drop_last()[k] == lines[k]);
        }
        lemma_line_for_offset_zero(lines.drop_last());
    }
}

proof fn lemma_caret_zero(gs: Seq<GlyphRecord>, e: int)
    requires
        1 <= e <= gs.len(),
        forall|m: int| 0 < m < gs.len() ==> (#[trigger] gs[m]).byte_index > gs[m - 1].byte_index,
    ensures
        spec_caret_glyph(gs, 0, e, 0) == 0,
    decreases e,
{
    if e > 1 {
        assert(gs[e - 1].byte_index > gs[e - 2].byte_index >= 0);
        lemma_caret_zero(gs, e - 1);
    }
}

/// The caret for offset 0 of a non-empty layout sits on line 0, at the
/// baseline of the first line, and its x-coordinate does not exceed the
/// first glyph's right edge.
pub proof fn lemma_caret_at_text_start(l: LayoutModel)
    requires
        wf(l),
        l.lines.len() > 0,
    ensures
        spec_hit_test_text_position(l, 0) is Ok,
        spec_hit_test_text_position(l, 0)->Ok_0.line_number == 0,
        spec_hit_test_text_position(l, 0)->Ok_0.point.y == l.lines[0].baseline,
        spec_hit_test_text_position(l, 0)->Ok_0.point.x <= l.glyphs[0].x + l.glyphs[0].width as int
            / 2,
{
    assert(spec_is_boundary(l.text, 0));
    assert forall|k: int| 1 <= k < l.lines.len() implies (#[trigger] l.lines[k]).start_offset
        > 0 by {
        let m = l.spans[k].start as int;
        assert(l.spans[k].start == l.spans[k - 1].end);
        assert(l.spans[k - 1].start < l.spans[k - 1].end);
        assert(m >= 1);
        assert(l.glyphs[m].byte_index > l.glyphs[m - 1].byte_index >= 0);
        assert(l.lines[k].start_offset == l.glyphs[m].byte_index);
    }
    lemma_line_for_offset_zero(l.lines);
    let sp = l.spans[0];
    assert(sp.start == 0);
    lemma_caret_zero(l.glyphs, sp.end as int);
    let g = l.glyphs[0];
    vstd::arithmetic::div_mod::lemma_div_pos_is_pos(g.width as int, 2);
    assert(l.lines[0].y_offset == 0);
}

} // verus!
