//! The table view handed in by the host, and the widget-local interaction
//! state that persists across frames.
//!
//! Cells are stored column-major: a "row" is assembled by indexing the same
//! position across all columns and is never materialized on its own.  That
//! keeps column operations cheap and lets the host extend the loaded row
//! window without reshaping the data; it is the canonical access pattern of
//! this crate.

use vstd::prelude::*;
use crate::geom::{
    MAX_COLS, MAX_COL_WIDTH, MAX_CONTENT_H, MAX_COORD, MAX_SCROLL, MAX_TOTAL_ROWS, MIN_COL_WIDTH,
    HEADER_HEIGHT, ROW_HEIGHT,
};

verus! {

/// The immutable per-frame input: a table of string cells organized by
/// column, together with the logical extent of the full dataset.
///
/// `total_row_count` may exceed the number of loaded rows when the data is
/// paged; `row_offset` is the absolute index of the first loaded row, so the
/// even/odd row striping stays stable across page boundaries.
pub struct Table {
    pub headers: Vec<String>,
    pub columns: Vec<Vec<String>>,
    pub total_row_count: usize,
    pub row_offset: usize,
    pub col_width: Option<i64>,
}

impl Table {
    /// One header per column, and every count small enough that all pixel
    /// arithmetic of the widget stays inside `i64`.
    pub open spec fn wf(&self) -> bool {
        &&& self.headers@.len() == self.columns@.len()
        &&& self.columns@.len() <= MAX_COLS
        &&& self.total_row_count <= MAX_TOTAL_ROWS
        &&& self.row_offset <= MAX_TOTAL_ROWS
        &&& forall|c: int|
            0 <= c < self.columns@.len() ==> (#[trigger] self.columns@[c])@.len()
                <= MAX_TOTAL_ROWS
        &&& match self.col_width {
            Some(w) => w <= MAX_COL_WIDTH,
            None => true,
        }
    }

    /// Builds a view over the given cells.
    ///
    /// A header/column count mismatch is a programming-contract violation,
    /// not a runtime error path, so it is excluded here rather than checked:
    /// every verified caller has to establish the equality.
    pub fn new(
        headers: Vec<String>,
        columns: Vec<Vec<String>>,
        total_row_count: usize,
        row_offset: usize,
    ) -> (t: Table)
        requires
            headers@.len() == columns@.len(),
            columns@.len() <= MAX_COLS,
            total_row_count <= MAX_TOTAL_ROWS,
            row_offset <= MAX_TOTAL_ROWS,
            forall|c: int|
                0 <= c < columns@.len() ==> (#[trigger] columns@[c])@.len() <= MAX_TOTAL_ROWS,
        ensures
            t.wf(),
            t.headers == headers,
            t.columns == columns,
            t.total_row_count == total_row_count,
            t.row_offset == row_offset,
            t.col_width.is_none(),
    {
        Table { headers, columns, total_row_count, row_offset, col_width: None }
    }

    /// Configures a fixed column width; without it, columns divide the
    /// viewport width evenly.
    pub fn col_width(self, width: i64) -> (t: Table)
        requires
            width <= MAX_COL_WIDTH,
        ensures
            t == (Table { col_width: Some(width), ..self }),
    {
        Table { col_width: Some(width), ..self }
    }

    /// Number of columns.
    pub fn col_count(&self) -> (n: usize)
        ensures
            n == self.columns@.len(),
    {
        self.columns.len()
    }

    /// Number of rows actually loaded: the length of the first column, or
    /// zero when there are no columns.
    pub open spec fn spec_loaded_row_count(&self) -> int {
        if self.columns@.len() == 0 {
            0
        } else {
            self.columns@[0]@.len() as int
        }
    }

    /// Runtime count of the loaded rows.
    pub fn loaded_row_count(&self) -> (n: usize)
        ensures
            n == self.spec_loaded_row_count(),
    {
        if self.columns.len() == 0 {
            0
        } else {
            self.columns[0].len()
        }
    }

    /// Full height of the content if drawn without clipping: the header band
    /// plus every logical row, loaded or not, so scrollbars reflect the
    /// whole dataset even while it is paged in lazily.
    pub open spec fn spec_content_height(&self) -> int {
        HEADER_HEIGHT + self.total_row_count * ROW_HEIGHT
    }

    /// Runtime content height.
    pub fn total_content_height(&self) -> (h: i64)
        requires
            self.wf(),
        ensures
            h == self.spec_content_height(),
            HEADER_HEIGHT <= h <= MAX_CONTENT_H,
    {
        HEADER_HEIGHT + (self.total_row_count as i64) * ROW_HEIGHT
    }
}

/// The drag operation currently in progress, if any.  Exactly one mode is
/// active at a time, and a mode other than `Idle` can only be entered from
/// `Idle`; a release always returns to `Idle`.
#[derive(Clone, Copy, PartialEq, Eq, Structural, Debug)]
pub enum DragMode {
    /// No drag in progress.
    Idle,
    /// A column divider is being dragged: `index` is the column being
    /// resized, `anchor_cursor_x` the x position of the press, and
    /// `anchor_width` the column's width at the press.
    ResizingColumn { index: usize, anchor_cursor_x: i64, anchor_width: i64 },
    /// The vertical scrollbar thumb is being dragged; the anchors record the
    /// press position and the scroll offset at the press.
    DraggingVerticalThumb { anchor_cursor_y: i64, anchor_offset: i64 },
    /// The horizontal scrollbar thumb is being dragged.
    DraggingHorizontalThumb { anchor_cursor_x: i64, anchor_offset: i64 },
}

impl DragMode {
    /// The anchors a drag records stay inside the same pixel bounds as the
    /// inputs that produced them.
    pub open spec fn wf(self) -> bool {
        match self {
            DragMode::Idle => true,
            DragMode::ResizingColumn { index, anchor_cursor_x, anchor_width } => {
                &&& -MAX_COORD <= anchor_cursor_x <= MAX_COORD
                &&& MIN_COL_WIDTH <= anchor_width <= MAX_COL_WIDTH
            },
            DragMode::DraggingVerticalThumb { anchor_cursor_y, anchor_offset } => {
                &&& -MAX_COORD <= anchor_cursor_y <= MAX_COORD
                &&& 0 <= anchor_offset <= MAX_SCROLL
            },
            DragMode::DraggingHorizontalThumb { anchor_cursor_x, anchor_offset } => {
                &&& -MAX_COORD <= anchor_cursor_x <= MAX_COORD
                &&& 0 <= anchor_offset <= MAX_SCROLL
            },
        }
    }
}

/// The widget-local state: per-column pixel widths, the two scroll offsets,
/// and the drag mode.  Created once when the widget is first laid out and
/// mutated only by event handling.
pub struct TableState {
    pub col_widths: Vec<i64>,
    pub scroll_offset_x: i64,
    pub scroll_offset_y: i64,
    pub drag_mode: DragMode,
}

/// The mathematical value of a `TableState`: the same fields with the
/// widths as a sequence.
pub ghost struct StateModel {
    pub widths: Seq<i64>,
    pub scroll_x: i64,
    pub scroll_y: i64,
    pub drag: DragMode,
}

impl TableState {
    /// The state as a mathematical value.
    pub open spec fn model(&self) -> StateModel {
        StateModel {
            widths: self.col_widths@,
            scroll_x: self.scroll_offset_x,
            scroll_y: self.scroll_offset_y,
            drag: self.drag_mode,
        }
    }

    /// Well-formedness of the live state.
    pub open spec fn wf(&self) -> bool {
        self.model().wf()
    }
}

impl StateModel {
    /// Every width within `[MIN_COL_WIDTH, MAX_COL_WIDTH]`, a bounded column
    /// count, scroll offsets non-negative and below the largest possible
    /// content extent, and bounded drag anchors.
    pub open spec fn wf(self) -> bool {
        &&& self.widths.len() <= MAX_COLS
        &&& forall|i: int|
            0 <= i < self.widths.len() ==> MIN_COL_WIDTH <= #[trigger] self.widths[i]
                <= MAX_COL_WIDTH
        &&& 0 <= self.scroll_x <= MAX_SCROLL
        &&& 0 <= self.scroll_y <= MAX_SCROLL
        &&& self.drag.wf()
    }
}

impl Default for TableState {
    /// The state a widget starts from: no widths laid out yet, both offsets
    /// at zero, no drag in progress.
    fn default() -> (s: TableState)
        ensures
            s.wf(),
            s.col_widths@.len() == 0,
            s.scroll_offset_x == 0,
            s.scroll_offset_y == 0,
            s.drag_mode == DragMode::Idle,
    {
        TableState {
            col_widths: Vec::new(),
            scroll_offset_x: 0,
            scroll_offset_y: 0,
            drag_mode: DragMode::Idle,
        }
    }
}

} // verus!
