//! The layout engine: column widths, content extents, column edges, the
//! derived maximum scroll offsets, and scrollbar thumb geometry.

use vstd::prelude::*;
use vstd::arithmetic::div_mod::{
    lemma_div_nonincreasing, lemma_div_pos_is_pos, lemma_multiply_divide_le,
};
use crate::geom::{
    max_i64, max_spec, min_spec, Rect, DEFAULT_COL_WIDTH, HEADER_HEIGHT, H_SCROLLBAR_HEIGHT,
    MAX_ABS_POS, MAX_COL_WIDTH, MAX_CONTENT_W, MAX_COORD, MAX_SCROLL, MIN_COL_WIDTH,
    MIN_THUMB_SIZE, V_SCROLLBAR_WIDTH,
};
use crate::table::{Table, TableState};

verus! {

/// Total of a sequence of column widths.
pub open spec fn sum_widths(ws: Seq<i64>) -> int
    decreases ws.len(),
{
    if ws.len() == 0 {
        0
    } else {
        sum_widths(ws.drop_last()) + ws.last()
    }
}

/// The left edge of column `i` in content coordinates: the total width of
/// the columns before it.
pub open spec fn left_edge(ws: Seq<i64>, i: int) -> int {
    sum_widths(ws.take(i))
}

/// Extending a prefix by one element adds that element to its total.
pub proof fn lemma_sum_take_succ(ws: Seq<i64>, i: int)
    requires
        0 <= i < ws.len(),
    ensures
        sum_widths(ws.take(i + 1)) == sum_widths(ws.take(i)) + ws[i],
{
    assert(ws.take(i + 1).drop_last() =~= ws.take(i));
    assert(ws.take(i + 1).last() == ws[i]);
}

/// A sequence of well-formed column widths has a total between
/// `len * MIN_COL_WIDTH` and `len * MAX_COL_WIDTH`.
pub proof fn lemma_sum_in_range(ws: Seq<i64>)
    requires
        forall|i: int| 0 <= i < ws.len() ==> MIN_COL_WIDTH <= #[trigger] ws[i] <= MAX_COL_WIDTH,
    ensures
        ws.len() * MIN_COL_WIDTH <= sum_widths(ws) <= ws.len() * MAX_COL_WIDTH,
    decreases ws.len(),
{
    if ws.len() > 0 {
        assert(forall|i: int|
            0 <= i < ws.drop_last().len() ==> MIN_COL_WIDTH <= #[trigger] ws.drop_last()[i]
                <= MAX_COL_WIDTH);
        lemma_sum_in_range(ws.drop_last());
    }
}

/// The width columns are (re)initialized to: the fixed width when one is
/// configured, otherwise an even division of the viewport width, both
/// floored at `DEFAULT_COL_WIDTH`.
pub open spec fn spec_default_col_width(tbl: &Table, viewport_width: int) -> int {
    match tbl.col_width {
        Some(w) => max_spec(w as int, DEFAULT_COL_WIDTH as int),
        None => {
            let n = max_spec(tbl.columns@.len() as int, 1);
            if viewport_width <= 0 {
                DEFAULT_COL_WIDTH as int
            } else {
                max_spec(viewport_width / n, DEFAULT_COL_WIDTH as int)
            }
        },
    }
}

/// The column widths after the per-event reconciliation: untouched while
/// their count matches the column count, reset to the default width when it
/// does not (the column count changed between frames).
pub open spec fn spec_reconciled_widths(tbl: &Table, ws: Seq<i64>, viewport_width: int) -> Seq<
    i64,
> {
    if ws.len() == tbl.columns@.len() {
        ws
    } else {
        Seq::new(tbl.columns@.len(), |i: int| spec_default_col_width(tbl, viewport_width) as i64)
    }
}

/// Largest horizontal scroll offset: content width minus the track width,
/// floored at zero.
pub open spec fn spec_max_h_scroll(total_w: int, bounds: Rect) -> int {
    max_spec(total_w - (bounds.width - V_SCROLLBAR_WIDTH), 0)
}

/// Largest vertical scroll offset: content height minus the viewport height
/// above the horizontal scrollbar strip, floored at zero.
pub open spec fn spec_max_v_scroll(content_h: int, bounds: Rect) -> int {
    max_spec(content_h - (bounds.height - H_SCROLLBAR_HEIGHT), 0)
}

/// Size of a scrollbar thumb along its axis: the track size scaled by the
/// visible fraction of the content, floored at `MIN_THUMB_SIZE`.  `span` is
/// the scrollable content extent along the axis.
pub open spec fn spec_thumb_size(track: int, span: int) -> int {
    let base = if track <= 0 {
        0
    } else {
        (track * track) / max_spec(span, 1)
    };
    max_spec(base, MIN_THUMB_SIZE as int)
}

/// Offset of a thumb from the start of its track:
/// `(offset / max_scroll) * (track - thumb)` when there is room to scroll
/// and room for the thumb to travel, else zero.  The offset is read through
/// a clamp so that a stale offset beyond `max_scroll` cannot push the thumb
/// off its track.
pub open spec fn spec_thumb_rel(offset: int, track: int, thumb: int, max_scroll: int) -> int {
    if max_scroll > 0 && track > thumb {
        (min_spec(offset, max_scroll) * (track - thumb)) / max_scroll
    } else {
        0
    }
}

/// The on-screen rectangle of the horizontal scrollbar thumb, along the
/// bottom edge of the viewport.
pub open spec fn spec_h_thumb_rect(total_w: int, h_off: int, bounds: Rect) -> Rect {
    let track = bounds.width - V_SCROLLBAR_WIDTH;
    let thumb = spec_thumb_size(track, total_w);
    let rel = spec_thumb_rel(h_off, track, thumb, spec_max_h_scroll(total_w, bounds));
    Rect {
        x: (bounds.x + rel) as i64,
        y: (bounds.y + bounds.height - H_SCROLLBAR_HEIGHT + 2) as i64,
        width: thumb as i64,
        height: (H_SCROLLBAR_HEIGHT - 4) as i64,
    }
}

/// The on-screen rectangle of the vertical scrollbar thumb, along the right
/// edge of the viewport below the header band.
pub open spec fn spec_v_thumb_rect(content_h: int, v_off: int, bounds: Rect) -> Rect {
    let track = bounds.height - HEADER_HEIGHT - H_SCROLLBAR_HEIGHT;
    let thumb = spec_thumb_size(track, content_h - HEADER_HEIGHT);
    let rel = spec_thumb_rel(v_off, track, thumb, spec_max_v_scroll(content_h, bounds));
    Rect {
        x: (bounds.x + bounds.width - V_SCROLLBAR_WIDTH - 2) as i64,
        y: (bounds.y + HEADER_HEIGHT + rel) as i64,
        width: (V_SCROLLBAR_WIDTH - 4) as i64,
        height: thumb as i64,
    }
}

/// `(a * b) / d` computed without overflow, for a ratio `a / d` at most one.
fn mul_div_ratio(a: i64, b: i64, d: i64) -> (r: i64)
    requires
        0 <= a <= d,
        0 <= b,
        1 <= d,
    ensures
        r == (a * b) / (d as int),
        0 <= r <= b,
{
    proof {
        assert(0 <= (a as int) * (b as int) <= 0x7FFF_FFFF_FFFF_FFFFint * 0x7FFF_FFFF_FFFF_FFFFint)
            by (nonlinear_arith)
            requires
                0 <= a <= 0x7FFF_FFFF_FFFF_FFFFint,
                0 <= b <= 0x7FFF_FFFF_FFFF_FFFFint,
        ;
    }
    let prod: i128 = (a as i128) * (b as i128);
    let q: i128 = prod / (d as i128);
    proof {
        lemma_div_pos_is_pos(prod as int, d as int);
        assert(prod <= (d as int) * (b as int)) by (nonlinear_arith)
            requires
                0 <= a <= d,
                0 <= b,
                prod == (a as int) * (b as int),
        ;
        lemma_multiply_divide_le(prod as int, d as int, b as int);
    }
    q as i64
}

/// Runtime thumb size along one axis.
pub(crate) fn thumb_size(track: i64, span: i64) -> (s: i64)
    requires
        track <= MAX_COORD,
        0 <= span,
    ensures
        s == spec_thumb_size(track as int, span as int),
        MIN_THUMB_SIZE <= s <= MAX_COORD * MAX_COORD,
{
    if track <= 0 {
        MIN_THUMB_SIZE
    } else {
        proof {
            assert((track as int) * (track as int) <= MAX_COORD * MAX_COORD)
                by (nonlinear_arith)
                requires
                    0 < track <= MAX_COORD,
            ;
        }
        let sq: i64 = track * track;
        let d: i64 = max_i64(span, 1);
        let base: i64 = sq / d;
        proof {
            lemma_div_pos_is_pos(sq as int, d as int);
            lemma_div_nonincreasing(sq as int, d as int);
        }
        max_i64(base, MIN_THUMB_SIZE)
    }
}

/// Runtime thumb travel offset along one axis.
fn thumb_rel(offset: i64, track: i64, thumb: i64, max_scroll: i64) -> (r: i64)
    requires
        0 <= offset,
        track <= MAX_COORD,
        0 <= thumb,
        0 <= max_scroll,
    ensures
        r == spec_thumb_rel(offset as int, track as int, thumb as int, max_scroll as int),
        0 <= r,
        track > thumb ==> r <= track - thumb,
        track <= thumb ==> r == 0,
{
    if max_scroll > 0 && track > thumb {
        let eff: i64 = if offset <= max_scroll {
            offset
        } else {
            max_scroll
        };
        mul_div_ratio(eff, track - thumb, max_scroll)
    } else {
        0
    }
}

impl Table {
    /// Largest horizontal scroll offset for the current column widths.
    pub fn max_h_scroll(&self, state: &TableState, bounds: Rect) -> (m: i64)
        requires
            state.wf(),
            bounds.wf(),
        ensures
            m == spec_max_h_scroll(sum_widths(state.col_widths@), bounds),
            0 <= m <= MAX_SCROLL,
    {
        let total = self.total_content_width(state);
        max_i64(total - (bounds.width - V_SCROLLBAR_WIDTH), 0)
    }

    /// Largest vertical scroll offset for the logical row count.
    pub fn max_v_scroll(&self, bounds: Rect) -> (m: i64)
        requires
            self.wf(),
            bounds.wf(),
        ensures
            m == spec_max_v_scroll(self.spec_content_height(), bounds),
            0 <= m <= MAX_SCROLL,
    {
        let total = self.total_content_height();
        max_i64(total - (bounds.height - H_SCROLLBAR_HEIGHT), 0)
    }

    /// On-screen rectangle of the horizontal scrollbar thumb.
    pub fn h_scrollbar_thumb_rect(&self, bounds: Rect, h_scroll_offset: i64, state: &TableState)
        -> (r: Rect)
        requires
            state.wf(),
            bounds.wf(),
            0 <= h_scroll_offset <= MAX_SCROLL,
        ensures
            r == spec_h_thumb_rect(sum_widths(state.col_widths@), h_scroll_offset as int, bounds),
            -MAX_ABS_POS <= r.x <= MAX_ABS_POS,
            -MAX_ABS_POS <= r.y <= MAX_ABS_POS,
            0 <= r.width,
            0 <= r.height,
    {
        let total_w = self.total_content_width(state);
        let track = bounds.width - V_SCROLLBAR_WIDTH;
        let thumb = thumb_size(track, total_w);
        let max_scroll = max_i64(total_w - track, 0);
        let rel = thumb_rel(h_scroll_offset, track, thumb, max_scroll);
        Rect {
            x: bounds.x + rel,
            y: bounds.y + bounds.height - H_SCROLLBAR_HEIGHT + 2,
            width: thumb,
            height: H_SCROLLBAR_HEIGHT - 4,
        }
    }

    /// On-screen rectangle of the vertical scrollbar thumb.
    pub fn v_scrollbar_thumb_rect(&self, bounds: Rect, v_scroll_offset: i64) -> (r: Rect)
        requires
            self.wf(),
            bounds.wf(),
            0 <= v_scroll_offset <= MAX_SCROLL,
        ensures
            r == spec_v_thumb_rect(self.spec_content_height(), v_scroll_offset as int, bounds),
            -MAX_ABS_POS <= r.x <= MAX_ABS_POS,
            -MAX_ABS_POS <= r.y <= MAX_ABS_POS,
            0 <= r.width,
            0 <= r.height,
    {
        let total_h = self.total_content_height();
        let track = bounds.height - HEADER_HEIGHT - H_SCROLLBAR_HEIGHT;
        let thumb = thumb_size(track, total_h - HEADER_HEIGHT);
        let max_scroll = max_i64(total_h - (bounds.height - H_SCROLLBAR_HEIGHT), 0);
        let rel = thumb_rel(v_scroll_offset, track, thumb, max_scroll);
        Rect {
            x: bounds.x + bounds.width - V_SCROLLBAR_WIDTH - 2,
            y: bounds.y + HEADER_HEIGHT + rel,
            width: V_SCROLLBAR_WIDTH - 4,
            height: thumb,
        }
    }

    /// Default width for a freshly laid-out column.
    pub fn default_col_width(&self, viewport_width: i64) -> (w: i64)
        requires
            self.wf(),
            viewport_width <= MAX_COORD,
        ensures
            w == spec_default_col_width(self, viewport_width as int),
            DEFAULT_COL_WIDTH <= w <= MAX_COL_WIDTH,
    {
        if let Some(fixed) = self.col_width {
            return max_i64(fixed, DEFAULT_COL_WIDTH);
        }
        let cols = self.columns.len();
        let n: i64 = if cols == 0 {
            1
        } else {
            cols as i64
        };
        if viewport_width <= 0 {
            DEFAULT_COL_WIDTH
        } else {
            let q = viewport_width / n;
            proof {
                lemma_div_pos_is_pos(viewport_width as int, n as int);
                lemma_div_nonincreasing(viewport_width as int, n as int);
            }
            max_i64(q, DEFAULT_COL_WIDTH)
        }
    }

    /// Reconciles the stored column widths against the current column
    /// count: whenever the count no longer matches, every column is reset
    /// to the default width.  This is the only place where the widget heals
    /// layout-affecting configuration changes made by the host between
    /// frames.
    pub fn reconcile_widths(&self, state: &mut TableState, viewport_width: i64)
        requires
            self.wf(),
            old(state).wf(),
            viewport_width <= MAX_COORD,
        ensures
            final(state).col_widths@ == spec_reconciled_widths(
                self,
                old(state).col_widths@,
                viewport_width as int,
            ),
            final(state).col_widths@.len() == self.columns@.len(),
            final(state).scroll_offset_x == old(state).scroll_offset_x,
            final(state).scroll_offset_y == old(state).scroll_offset_y,
            final(state).drag_mode == old(state).drag_mode,
            final(state).wf(),
    {
        let cols = self.columns.len();
        if state.col_widths.len() != cols {
            let default = self.default_col_width(viewport_width);
            let mut ws: Vec<i64> = Vec::new();
            let mut i: usize = 0;
            while i < cols
                invariant
                    i <= cols,
                    cols == self.columns@.len(),
                    ws@.len() == i,
                    forall|j: int| 0 <= j < i ==> ws@[j] == default,
                decreases cols - i,
            {
                ws.push(default);
                i += 1;
            }
            proof {
                assert(ws@ =~= spec_reconciled_widths(
                    self,
                    old(state).col_widths@,
                    viewport_width as int,
                ));
            }
            state.col_widths = ws;
        }
    }

    /// Total content width: the sum of all column widths.
    pub fn total_content_width(&self, state: &TableState) -> (w: i64)
        requires
            state.wf(),
        ensures
            w == sum_widths(state.col_widths@),
            0 <= w <= MAX_CONTENT_W,
    {
        let ws = &state.col_widths;
        let n = ws.len();
        let mut total: i64 = 0;
        let mut i: usize = 0;
        proof {
            assert(ws@.take(0) =~= Seq::<i64>::empty());
        }
        while i < n
            invariant
                i <= n,
                n == ws@.len(),
                state.wf(),
                ws == state.col_widths,
                total == sum_widths(ws@.take(i as int)),
                0 <= total <= i * MAX_COL_WIDTH,
            decreases n - i,
        {
            proof {
                lemma_sum_take_succ(ws@, i as int);
                assert(forall|j: int|
                    0 <= j < ws@.take(i as int).len() ==> MIN_COL_WIDTH <= #[trigger] ws@.take(
                        i as int,
                    )[j] <= MAX_COL_WIDTH);
                lemma_sum_in_range(ws@.take(i as int));
            }
            total = total + ws[i];
            i += 1;
        }
        proof {
            assert(ws@.take(n as int) =~= ws@);
            lemma_sum_in_range(ws@);
        }
        total
    }

    /// Left edge of every column in content coordinates: entry `i` is the
    /// total width of the columns before column `i`.
    pub fn col_left_edges(&self, state: &TableState) -> (edges: Vec<i64>)
        requires
            state.wf(),
        ensures
            edges@.len() == state.col_widths@.len(),
            forall|i: int|
                0 <= i < edges@.len() ==> #[trigger] edges@[i] == left_edge(
                    state.col_widths@,
                    i,
                ),
    {
        let ws = &state.col_widths;
        let n = ws.len();
        let mut edges: Vec<i64> = Vec::new();
        let mut x: i64 = 0;
        let mut i: usize = 0;
        proof {
            assert(ws@.take(0) =~= Seq::<i64>::empty());
        }
        while i < n
            invariant
                i <= n,
                n == ws@.len(),
                state.wf(),
                ws == state.col_widths,
                edges@.len() == i,
                x == sum_widths(ws@.take(i as int)),
                0 <= x <= i * MAX_COL_WIDTH,
                forall|j: int| 0 <= j < i ==> #[trigger] edges@[j] == left_edge(ws@, j),
            decreases n - i,
        {
            edges.push(x);
            proof {
                lemma_sum_take_succ(ws@, i as int);
                assert(forall|j: int|
                    0 <= j < ws@.take(i as int).len() ==> MIN_COL_WIDTH <= #[trigger] ws@.take(
                        i as int,
                    )[j] <= MAX_COL_WIDTH);
                lemma_sum_in_range(ws@.take(i as int));
            }
            x = x + ws[i];
            i += 1;
        }
        edges
    }
}

} // verus!
