//! The hit-tester: maps a cursor position to a semantic target.  Column
//! dividers are detected here; the scrollbar thumbs are hit-tested against
//! the rectangles the layout engine computes.  Divider detection takes
//! priority over thumb detection, since the header band sits above the
//! thumbs.

use vstd::prelude::*;
use crate::geom::{
    abs_spec, Point, Rect, COL_RESIZE_GRAB_ZONE, HEADER_HEIGHT, MAX_COL_WIDTH, MAX_COORD,
    MAX_SCROLL, MIN_COL_WIDTH,
};
use crate::layout::{left_edge, lemma_sum_in_range};
use crate::table::{DragMode, Table, TableState};

verus! {

/// The first column index at or after `i` whose divider (its right edge in
/// content coordinates) lies within the grab zone of `content_x`.
pub open spec fn divider_hit_from(ws: Seq<i64>, content_x: int, i: int) -> Option<int>
    decreases ws.len() - i,
{
    if i < 0 || i >= ws.len() {
        None
    } else if abs_spec(content_x - (left_edge(ws, i) + ws[i])) <= COL_RESIZE_GRAB_ZONE {
        Some(i)
    } else {
        divider_hit_from(ws, content_x, i + 1)
    }
}

/// The column divider under the cursor, if any: the cursor must lie in the
/// header band vertically, and within the grab zone of the divider's
/// on-screen position (its content position shifted by the horizontal
/// scroll).
pub open spec fn spec_divider_at_cursor(
    ws: Seq<i64>,
    h_scroll: int,
    bounds: Rect,
    cursor_x: int,
    cursor_y: int,
) -> Option<int> {
    if cursor_y < bounds.y || cursor_y > bounds.y + HEADER_HEIGHT {
        None
    } else {
        divider_hit_from(ws, cursor_x - bounds.x + h_scroll, 0)
    }
}

/// Whether the widget should show a column-resize cursor: either a resize
/// drag is in progress, or the cursor hovers over a divider.
pub open spec fn spec_wants_resize_cursor(
    st_widths: Seq<i64>,
    st_scroll_x: int,
    st_drag: DragMode,
    cursor: Option<Point>,
    bounds: Rect,
) -> bool {
    match st_drag {
        DragMode::ResizingColumn { .. } => true,
        _ => match cursor {
            Some(p) => spec_divider_at_cursor(
                st_widths,
                st_scroll_x,
                bounds,
                p.x as int,
                p.y as int,
            ) is Some,
            None => false,
        },
    }
}

impl Table {
    /// Finds the column divider within the grab zone of the cursor, lowest
    /// index first.
    pub fn divider_at_cursor(
        &self,
        state: &TableState,
        bounds: Rect,
        cursor_x: i64,
        cursor_y: i64,
    ) -> (r: Option<usize>)
        requires
            state.wf(),
            bounds.wf(),
            -MAX_COORD <= cursor_x <= MAX_COORD,
            -MAX_COORD <= cursor_y <= MAX_COORD,
        ensures
            match r {
                Some(i) => i < state.col_widths@.len() && spec_divider_at_cursor(
                    state.col_widths@,
                    state.scroll_offset_x as int,
                    bounds,
                    cursor_x as int,
                    cursor_y as int,
                ) == Some(i as int),
                None => spec_divider_at_cursor(
                    state.col_widths@,
                    state.scroll_offset_x as int,
                    bounds,
                    cursor_x as int,
                    cursor_y as int,
                ) is None,
            },
    {
        if cursor_y < bounds.y || cursor_y > bounds.y + HEADER_HEIGHT {
            return None;
        }
        let ws = &state.col_widths;
        let n = ws.len();
        let content_x: i64 = cursor_x - bounds.x + state.scroll_offset_x;
        let ghost cx = content_x as int;
        let edges = self.col_left_edges(state);
        let mut i: usize = 0;
        while i < n
            invariant
                i <= n,
                n == ws@.len(),
                state.wf(),
                ws == state.col_widths,
                cx == content_x as int,
                -0x2_0000_0000 <= content_x,
                content_x <= MAX_SCROLL + 0x2_0000_0000,
                edges@.len() == n,
                forall|j: int| 0 <= j < n ==> #[trigger] edges@[j] == left_edge(ws@, j),
                divider_hit_from(ws@, cx, 0) == divider_hit_from(ws@, cx, i as int),
                spec_divider_at_cursor(
                    ws@,
                    state.scroll_offset_x as int,
                    bounds,
                    cursor_x as int,
                    cursor_y as int,
                ) == divider_hit_from(ws@, cx, 0),
            decreases n - i,
        {
            proof {
                assert(forall|j: int|
                    0 <= j < ws@.take(i as int).len() ==> MIN_COL_WIDTH <= #[trigger] ws@.take(
                        i as int,
                    )[j] <= MAX_COL_WIDTH);
                lemma_sum_in_range(ws@.take(i as int));
                assert(edges@[i as int] == left_edge(ws@, i as int));
            }
            let divider_x: i64 = edges[i] + ws[i];
            let diff: i64 = content_x - divider_x;
            if -COL_RESIZE_GRAB_ZONE <= diff && diff <= COL_RESIZE_GRAB_ZONE {
                proof {
                    assert(abs_spec(cx - (left_edge(ws@, i as int) + ws@[i as int]))
                        <= COL_RESIZE_GRAB_ZONE);
                    assert(divider_hit_from(ws@, cx, i as int) == Some(i as int));
                }
                return Some(i);
            }
            proof {
                assert(abs_spec(cx - (left_edge(ws@, i as int) + ws@[i as int]))
                    > COL_RESIZE_GRAB_ZONE);
                assert(divider_hit_from(ws@, cx, i as int) == divider_hit_from(
                    ws@,
                    cx,
                    i as int + 1,
                ));
            }
            i += 1;
        }
        None
    }

    /// Reports the cursor-affordance hint for the current pointer position:
    /// `true` when the host should show a horizontal-resize cursor.
    pub fn wants_resize_cursor(&self, state: &TableState, cursor: Option<Point>, bounds: Rect)
        -> (r: bool)
        requires
            state.wf(),
            bounds.wf(),
            match cursor {
                Some(p) => p.wf(),
                None => true,
            },
        ensures
            r == spec_wants_resize_cursor(
                state.col_widths@,
                state.scroll_offset_x as int,
                state.drag_mode,
                cursor,
                bounds,
            ),
    {
        if let DragMode::ResizingColumn { .. } = state.drag_mode {
            return true;
        }
        if let Some(p) = cursor {
            let hit = self.divider_at_cursor(state, bounds, p.x, p.y);
            return hit.is_some();
        }
        false
    }
}

} // verus!
