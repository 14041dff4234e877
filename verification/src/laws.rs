//! The laws the widget keeps, each proved from the mathematical models the
//! contracts are written over.
//!
//! Scroll-offset bounds after any event (every offset stays in
//! `[0, max_scroll]`) are stated directly in the `ensures` of
//! `Table::handle_event`; rendering determinism is the `ensures` of
//! `Table::draw` (its commands equal a function of table, state and
//! viewport alone, so re-rendering unchanged state reproduces them).  The
//! remaining laws are the proof functions here.

use vstd::prelude::*;
use vstd::arithmetic::div_mod::{
    lemma_div_is_ordered, lemma_div_multiples_vanish, lemma_div_nonincreasing,
    lemma_div_pos_is_pos,
};
use crate::events::{spec_drag_target, spec_resize_move};
use crate::geom::{
    max_spec, Point, Rect, DEFAULT_COL_WIDTH, MAX_COL_WIDTH, MAX_COORD, MIN_COL_WIDTH,
};
use crate::layout::{
    lemma_sum_in_range, spec_default_col_width, spec_max_h_scroll, spec_reconciled_widths,
    sum_widths,
};
use crate::render::{spec_row_cmds, spec_stripe_color, ColorId, DrawCmd};
use crate::table::{StateModel, Table};

verus! {

/// The default column width is always between `DEFAULT_COL_WIDTH` and
/// `MAX_COL_WIDTH`, whatever the viewport width and column count.
pub proof fn lemma_default_width_in_range(tbl: &Table, viewport_width: int)
    requires
        tbl.wf(),
        viewport_width <= MAX_COORD,
    ensures
        DEFAULT_COL_WIDTH <= spec_default_col_width(tbl, viewport_width) <= MAX_COL_WIDTH,
{
    match tbl.col_width {
        Some(w) => {},
        None => {
            let n = max_spec(tbl.columns@.len() as int, 1);
            if viewport_width > 0 {
                lemma_div_pos_is_pos(viewport_width, n);
                lemma_div_nonincreasing(viewport_width, n);
            }
        },
    }
}

/// Law: for every viewport size and column count, each reconciled column
/// width is at least `MIN_COL_WIDTH` and the widths total at least
/// `column_count * MIN_COL_WIDTH`.
pub proof fn lemma_col_widths_floor(tbl: &Table, m: StateModel, viewport_width: int)
    requires
        tbl.wf(),
        m.wf(),
        viewport_width <= MAX_COORD,
    ensures
        ({
            let ws = spec_reconciled_widths(tbl, m.widths, viewport_width);
            &&& forall|i: int|
                0 <= i < ws.len() ==> MIN_COL_WIDTH <= #[trigger] ws[i] <= MAX_COL_WIDTH
            &&& sum_widths(ws) >= ws.len() * MIN_COL_WIDTH
        }),
{
    let ws = spec_reconciled_widths(tbl, m.widths, viewport_width);
    if m.widths.len() != tbl.columns@.len() {
        lemma_default_width_in_range(tbl, viewport_width);
        assert(forall|i: int|
            0 <= i < ws.len() ==> MIN_COL_WIDTH <= #[trigger] ws[i] <= MAX_COL_WIDTH);
    }
    lemma_sum_in_range(ws);
}

/// Law: every well-formed interaction state keeps each column width at
/// least `MIN_COL_WIDTH`, so the widths total at least
/// `column_count * MIN_COL_WIDTH`.
pub proof fn lemma_state_widths_floor(m: StateModel)
    requires
        m.wf(),
    ensures
        forall|i: int| 0 <= i < m.widths.len() ==> #[trigger] m.widths[i] >= MIN_COL_WIDTH,
        sum_widths(m.widths) >= m.widths.len() * MIN_COL_WIDTH,
{
    lemma_sum_in_range(m.widths);
}

/// Law: a resize move never changes the width of any other column, never
/// changes the column count or the vertical offset, and never leaves the
/// horizontal offset above the maximum scroll of the new widths.
pub proof fn lemma_resize_isolation(
    tbl: &Table,
    m: StateModel,
    index: int,
    anchor_cursor_x: int,
    anchor_width: int,
    p: Point,
    bounds: Rect,
)
    requires
        tbl.wf(),
        m.wf(),
        0 <= index < m.widths.len(),
    ensures
        ({
            let r = spec_resize_move(tbl, m, index, anchor_cursor_x, anchor_width, p,
                bounds).state;
            &&& r.widths.len() == m.widths.len()
            &&& forall|j: int|
                0 <= j < m.widths.len() && j != index ==> #[trigger] r.widths[j] == m.widths[j]
            &&& r.scroll_x <= spec_max_h_scroll(sum_widths(r.widths), bounds)
            &&& 0 <= r.scroll_x
            &&& r.scroll_y == m.scroll_y
        }),
{
    let r = spec_resize_move(tbl, m, index, anchor_cursor_x, anchor_width, p, bounds).state;
    assert(forall|j: int|
        0 <= j < r.widths.len() ==> MIN_COL_WIDTH <= #[trigger] r.widths[j] <= MAX_COL_WIDTH);
    lemma_sum_in_range(r.widths);
}

/// Law: the stripe of absolute row index `R` is its parity alone — even
/// rows get stripe A (`RowEven`), odd rows stripe B (`RowOdd`) — and the
/// background a rendered row carries is exactly the stripe of
/// `row_offset + row`, independent of the scroll position.
pub proof fn lemma_stripe_parity(
    tbl: &Table,
    ws: Seq<i64>,
    scroll_x: int,
    bounds: Rect,
    row: int,
    row_y: int,
)
    requires
        0 <= row,
        0 <= tbl.row_offset,
    ensures
        spec_stripe_color(tbl.row_offset + row) == if (tbl.row_offset + row) % 2 == 0 {
            ColorId::RowEven
        } else {
            ColorId::RowOdd
        },
        spec_row_cmds(tbl, ws, scroll_x, bounds, row, row_y)[0] == (DrawCmd::FillRect {
            rect: Rect {
                x: bounds.x,
                y: row_y as i64,
                width: (bounds.width - crate::geom::V_SCROLLBAR_WIDTH) as i64,
                height: crate::geom::ROW_HEIGHT,
            },
            color: spec_stripe_color(tbl.row_offset + row),
        }),
{
}

/// Law: dragging a scrollbar thumb to or beyond either end of its travel
/// lands the offset exactly on the bound: a drag of at least the track's
/// free travel gives `max_scroll`, and one of at most its negation gives
/// `0`.
pub proof fn lemma_thumb_drag_extremes(
    anchor: int,
    delta: int,
    track: int,
    thumb: int,
    max_scroll: int,
)
    requires
        0 <= anchor <= max_scroll,
    ensures
        delta >= max_spec(track - thumb, 1) ==> spec_drag_target(anchor, delta, track, thumb,
            max_scroll) == max_scroll,
        delta <= -max_spec(track - thumb, 1) ==> spec_drag_target(anchor, delta, track, thumb,
            max_scroll) == 0,
{
    let denom = max_spec(track - thumb, 1);
    if delta >= denom {
        assert(denom * max_scroll <= delta * max_scroll) by (nonlinear_arith)
            requires
                0 < denom <= delta,
                0 <= max_scroll,
        ;
        lemma_div_is_ordered(denom * max_scroll, delta * max_scroll, denom);
        lemma_div_multiples_vanish(max_scroll, denom);
        assert((delta * max_scroll) / denom >= max_scroll);
    }
    if delta <= -denom {
        assert(denom * max_scroll <= (-delta) * max_scroll) by (nonlinear_arith)
            requires
                0 < denom <= -delta,
                0 <= max_scroll,
        ;
        lemma_div_is_ordered(denom * max_scroll, (-delta) * max_scroll, denom);
        lemma_div_multiples_vanish(max_scroll, denom);
        assert(((-delta) * max_scroll) / denom >= max_scroll);
    }
}

} // verus!
