//! The clipped renderer: from the current state, the draw commands for
//! exactly the cells intersecting the viewport.
//!
//! The widget does not draw; it emits a sequence of plain commands
//! (rectangle fills, text placements, clip pushes and pops) that any
//! rendering backend can execute in order.  Text commands name their source
//! cell instead of carrying the string, so the host resolves the text from
//! the table it already owns; the text is drawn left-aligned in the given
//! rectangle, vertically centered, at `FONT_SIZE`.
//!
//! Row virtualization: only rows intersecting the viewport and within the
//! loaded data are emitted; rows beyond the loaded window are silently
//! skipped, which is the seam for external lazy loading.  Row backgrounds
//! alternate by absolute row index, so the striping is stable when the
//! loaded window shifts.  Each cell is culled individually against the
//! viewport's horizontal extent.

use vstd::prelude::*;
use crate::geom::{
    max_i64, max_spec, Rect, CELL_PADDING_X, HEADER_HEIGHT, H_SCROLLBAR_HEIGHT, MAX_COL_WIDTH,
    MAX_TOTAL_ROWS, MIN_COL_WIDTH, ROW_HEIGHT, V_SCROLLBAR_WIDTH,
};
use crate::layout::{
    left_edge, lemma_sum_in_range, lemma_sum_take_succ, spec_h_thumb_rect, spec_v_thumb_rect,
    sum_widths,
};
use crate::table::{StateModel, Table, TableState};

verus! {

/// One of the widget's palette colors; the host maps each to a concrete
/// color of its theme.
#[derive(Clone, Copy, PartialEq, Eq, Structural, Debug)]
pub enum ColorId {
    /// The panel behind the whole widget.
    PanelBackground,
    /// The header band.
    HeaderBackground,
    /// Divider and separator lines.
    Border,
    /// Background of rows with an even absolute index (stripe A).
    RowEven,
    /// Background of rows with an odd absolute index (stripe B).
    RowOdd,
    /// Header text (drawn bold).
    HeaderText,
    /// Body cell text (regular weight).
    BodyText,
    /// Scrollbar thumbs.
    ScrollbarThumb,
}

/// The cell a text command draws; the host resolves the string from its
/// own table.
#[derive(Clone, Copy, PartialEq, Eq, Structural, Debug)]
pub enum TextSource {
    /// `headers[col]`.
    Header { col: usize },
    /// `columns[col][row]`.
    Cell { col: usize, row: usize },
}

/// One draw command for the host's rendering backend.
#[derive(Clone, Copy, PartialEq, Eq, Structural, Debug)]
pub enum DrawCmd {
    /// Fill `rect` with the palette color.
    FillRect { rect: Rect, color: ColorId },
    /// Draw the text of `source` left-aligned and vertically centered in
    /// `rect`.
    DrawText { source: TextSource, rect: Rect, color: ColorId, bold: bool },
    /// Clip all commands up to the matching `PopClip` to `rect`.
    PushClip { rect: Rect },
    /// End the innermost clip region.
    PopClip,
}

/// Index of the first row intersecting the viewport.
pub open spec fn spec_first_visible_row(scroll_y: int) -> int {
    scroll_y / (ROW_HEIGHT as int)
}

/// Number of further rows that may intersect the viewport: one viewport's
/// worth of rows rounded up, plus one for the partial row at the boundary.
pub open spec fn spec_visible_row_count(bounds: Rect) -> int {
    (max_spec(bounds.height - HEADER_HEIGHT, 0) + (ROW_HEIGHT - 1)) / (ROW_HEIGHT as int) + 1
}

/// The stripe of absolute row index `abs_index`: even indices get stripe A
/// (`RowEven`), odd ones stripe B (`RowOdd`), regardless of `row_offset` or
/// scroll position.
pub open spec fn spec_stripe_color(abs_index: int) -> ColorId {
    if abs_index % 2 == 0 {
        ColorId::RowEven
    } else {
        ColorId::RowOdd
    }
}

/// The on-screen y of row `row`'s top edge.
pub open spec fn spec_row_y(scroll_y: int, bounds: Rect, row: int) -> int {
    bounds.y + HEADER_HEIGHT + row * ROW_HEIGHT - scroll_y
}

/// The on-screen x of column `c`'s left edge.
pub open spec fn spec_cell_x(ws: Seq<i64>, scroll_x: int, bounds: Rect, c: int) -> int {
    bounds.x - scroll_x + left_edge(ws, c)
}

/// Whether column `c`'s horizontal extent intersects the viewport.
pub open spec fn spec_col_visible(ws: Seq<i64>, scroll_x: int, bounds: Rect, c: int) -> bool {
    let cell_x = spec_cell_x(ws, scroll_x, bounds, c);
    cell_x + ws[c] >= bounds.x && cell_x <= bounds.x + (bounds.width - V_SCROLLBAR_WIDTH)
}

/// Commands for header cell `c`: a divider line at its left edge (except
/// for the first column) and its bold header text, or nothing when the
/// column is culled.
pub open spec fn spec_header_col_cmds(ws: Seq<i64>, scroll_x: int, bounds: Rect, c: int) -> Seq<
    DrawCmd,
> {
    let cell_x = spec_cell_x(ws, scroll_x, bounds, c);
    if spec_col_visible(ws, scroll_x, bounds, c) {
        let divider: Seq<DrawCmd> = if c > 0 {
            seq![
                DrawCmd::FillRect {
                    rect: Rect {
                        x: cell_x as i64,
                        y: bounds.y,
                        width: 1,
                        height: HEADER_HEIGHT,
                    },
                    color: ColorId::Border,
                },
            ]
        } else {
            Seq::empty()
        };
        divider + seq![
            DrawCmd::DrawText {
                source: TextSource::Header { col: c as usize },
                rect: Rect {
                    x: (cell_x + CELL_PADDING_X) as i64,
                    y: bounds.y,
                    width: (ws[c] - CELL_PADDING_X) as i64,
                    height: HEADER_HEIGHT,
                },
                color: ColorId::HeaderText,
                bold: true,
            },
        ]
    } else {
        Seq::empty()
    }
}

/// Commands for the first `c` header cells.
pub open spec fn spec_header_cmds_upto(ws: Seq<i64>, scroll_x: int, bounds: Rect, c: int) -> Seq<
    DrawCmd,
>
    decreases c,
{
    if c <= 0 {
        Seq::empty()
    } else {
        spec_header_cmds_upto(ws, scroll_x, bounds, c - 1) + spec_header_col_cmds(
            ws,
            scroll_x,
            bounds,
            c - 1,
        )
    }
}

/// Commands for cell `(row, c)` of the row band: a divider at the cell's
/// left edge (except for the first column), and the cell text where that
/// column has row `row` loaded; nothing when the column is culled.
pub open spec fn spec_row_cell_cmds(
    tbl: &Table,
    ws: Seq<i64>,
    scroll_x: int,
    bounds: Rect,
    row: int,
    row_y: int,
    c: int,
) -> Seq<DrawCmd> {
    let cell_x = spec_cell_x(ws, scroll_x, bounds, c);
    if spec_col_visible(ws, scroll_x, bounds, c) {
        let divider: Seq<DrawCmd> = if c > 0 {
            seq![
                DrawCmd::FillRect {
                    rect: Rect { x: cell_x as i64, y: row_y as i64, width: 1, height: ROW_HEIGHT },
                    color: ColorId::Border,
                },
            ]
        } else {
            Seq::empty()
        };
        let text: Seq<DrawCmd> = if row < (tbl.columns@[c])@.len() {
            seq![
                DrawCmd::DrawText {
                    source: TextSource::Cell { col: c as usize, row: row as usize },
                    rect: Rect {
                        x: (cell_x + CELL_PADDING_X) as i64,
                        y: row_y as i64,
                        width: (ws[c] - CELL_PADDING_X) as i64,
                        height: ROW_HEIGHT,
                    },
                    color: ColorId::BodyText,
                    bold: false,
                },
            ]
        } else {
            Seq::empty()
        };
        divider + text
    } else {
        Seq::empty()
    }
}

/// Commands for the first `c` cells of row `row`.
pub open spec fn spec_row_cells_upto(
    tbl: &Table,
    ws: Seq<i64>,
    scroll_x: int,
    bounds: Rect,
    row: int,
    row_y: int,
    c: int,
) -> Seq<DrawCmd>
    decreases c,
{
    if c <= 0 {
        Seq::empty()
    } else {
        spec_row_cells_upto(tbl, ws, scroll_x, bounds, row, row_y, c - 1) + spec_row_cell_cmds(
            tbl,
            ws,
            scroll_x,
            bounds,
            row,
            row_y,
            c - 1,
        )
    }
}

/// Commands for one visible row: its stripe background, its underline, and
/// its cells.
pub open spec fn spec_row_cmds(
    tbl: &Table,
    ws: Seq<i64>,
    scroll_x: int,
    bounds: Rect,
    row: int,
    row_y: int,
) -> Seq<DrawCmd> {
    let vw = bounds.width - V_SCROLLBAR_WIDTH;
    seq![
        DrawCmd::FillRect {
            rect: Rect { x: bounds.x, y: row_y as i64, width: vw as i64, height: ROW_HEIGHT },
            color: spec_stripe_color(tbl.row_offset + row),
        },
        DrawCmd::FillRect {
            rect: Rect {
                x: bounds.x,
                y: (row_y + ROW_HEIGHT - 1) as i64,
                width: vw as i64,
                height: 1,
            },
            color: ColorId::Border,
        },
    ] + spec_row_cells_upto(tbl, ws, scroll_x, bounds, row, row_y, tbl.columns@.len() as int)
}

/// Commands for the first `off` candidate rows of the row band.  A row
/// beyond the loaded data contributes nothing (and neither does any row
/// after it, since row indices increase).
pub open spec fn spec_rows_upto(
    tbl: &Table,
    ws: Seq<i64>,
    scroll_x: int,
    scroll_y: int,
    bounds: Rect,
    off: int,
) -> Seq<DrawCmd>
    decreases off,
{
    if off <= 0 {
        Seq::empty()
    } else {
        let prev = spec_rows_upto(tbl, ws, scroll_x, scroll_y, bounds, off - 1);
        let row = spec_first_visible_row(scroll_y) + off - 1;
        if row < tbl.spec_loaded_row_count() {
            prev + spec_row_cmds(tbl, ws, scroll_x, bounds, row, spec_row_y(scroll_y, bounds, row))
        } else {
            prev
        }
    }
}

/// Scrollbar thumbs, each drawn only when the content exceeds the viewport
/// along its axis.
pub open spec fn spec_thumb_cmds(
    tbl: &Table,
    ws: Seq<i64>,
    scroll_x: int,
    scroll_y: int,
    bounds: Rect,
) -> Seq<DrawCmd> {
    let v: Seq<DrawCmd> = if tbl.spec_content_height() > bounds.height {
        seq![
            DrawCmd::FillRect {
                rect: spec_v_thumb_rect(tbl.spec_content_height(), scroll_y, bounds),
                color: ColorId::ScrollbarThumb,
            },
        ]
    } else {
        Seq::empty()
    };
    let h: Seq<DrawCmd> = if sum_widths(ws) > bounds.width - V_SCROLLBAR_WIDTH {
        seq![
            DrawCmd::FillRect {
                rect: spec_h_thumb_rect(sum_widths(ws), scroll_x, bounds),
                color: ColorId::ScrollbarThumb,
            },
        ]
    } else {
        Seq::empty()
    };
    v + h
}

/// The full command sequence of one frame: background panel, header band
/// (clipped to the viewport minus the vertical scrollbar strip), the
/// header/body separator, the row band (clipped below the header and above
/// the horizontal scrollbar strip), then the thumbs.  A widget whose widths
/// have not been laid out yet draws nothing.
pub open spec fn spec_draw(tbl: &Table, m: StateModel, bounds: Rect) -> Seq<DrawCmd> {
    if m.widths.len() == 0 {
        Seq::empty()
    } else {
        let vw = bounds.width - V_SCROLLBAR_WIDTH;
        let header_clip = Rect { x: bounds.x, y: bounds.y, width: vw as i64, height: HEADER_HEIGHT };
        let rows_clip = Rect {
            x: bounds.x,
            y: (bounds.y + HEADER_HEIGHT) as i64,
            width: vw as i64,
            height: (bounds.height - HEADER_HEIGHT - H_SCROLLBAR_HEIGHT) as i64,
        };
        let separator = Rect {
            x: bounds.x,
            y: (bounds.y + HEADER_HEIGHT - 1) as i64,
            width: vw as i64,
            height: 1,
        };
        seq![
            DrawCmd::FillRect { rect: bounds, color: ColorId::PanelBackground },
            DrawCmd::PushClip { rect: bounds },
            DrawCmd::FillRect { rect: header_clip, color: ColorId::HeaderBackground },
            DrawCmd::PushClip { rect: header_clip },
        ] + spec_header_cmds_upto(m.widths, m.scroll_x as int, bounds, m.widths.len() as int)
            + seq![
            DrawCmd::PopClip,
            DrawCmd::FillRect { rect: separator, color: ColorId::Border },
            DrawCmd::PushClip { rect: rows_clip },
        ] + spec_rows_upto(
            tbl,
            m.widths,
            m.scroll_x as int,
            m.scroll_y as int,
            bounds,
            spec_visible_row_count(bounds) + 1,
        ) + seq![DrawCmd::PopClip]
            + spec_thumb_cmds(tbl, m.widths, m.scroll_x as int, m.scroll_y as int, bounds)
            + seq![DrawCmd::PopClip]
    }
}

/// Once the candidate row index reaches the loaded row count, further
/// candidates contribute no commands.
proof fn lemma_rows_upto_stable(
    tbl: &Table,
    ws: Seq<i64>,
    scroll_x: int,
    scroll_y: int,
    bounds: Rect,
    off: int,
    end: int,
)
    requires
        0 <= off <= end,
        scroll_y >= 0,
        spec_first_visible_row(scroll_y) + off >= tbl.spec_loaded_row_count(),
    ensures
        spec_rows_upto(tbl, ws, scroll_x, scroll_y, bounds, end) == spec_rows_upto(
            tbl,
            ws,
            scroll_x,
            scroll_y,
            bounds,
            off,
        ),
    decreases end - off,
{
    if off < end {
        lemma_rows_upto_stable(tbl, ws, scroll_x, scroll_y, bounds, off + 1, end);
    }
}

/// Runtime index of the first row intersecting the viewport.
pub fn first_visible_row(scroll_y: i64) -> (r: i64)
    requires
        0 <= scroll_y,
    ensures
        r == spec_first_visible_row(scroll_y as int),
        0 <= r <= scroll_y,
{
    proof {
        vstd::arithmetic::div_mod::lemma_div_pos_is_pos(scroll_y as int, ROW_HEIGHT as int);
        vstd::arithmetic::div_mod::lemma_div_nonincreasing(scroll_y as int, ROW_HEIGHT as int);
    }
    scroll_y / ROW_HEIGHT
}

/// Runtime count of further rows that may intersect the viewport.
pub fn visible_row_count(bounds: Rect) -> (r: i64)
    requires
        bounds.wf(),
    ensures
        r == spec_visible_row_count(bounds),
        1 <= r <= bounds.height + 2,
{
    let band: i64 = max_i64(bounds.height - HEADER_HEIGHT, 0);
    let q: i64 = (band + (ROW_HEIGHT - 1)) / ROW_HEIGHT;
    proof {
        vstd::arithmetic::div_mod::lemma_div_pos_is_pos(band + (ROW_HEIGHT - 1), ROW_HEIGHT as int);
        vstd::arithmetic::div_mod::lemma_div_nonincreasing(
            band + (ROW_HEIGHT - 1),
            ROW_HEIGHT as int,
        );
    }
    q + 1
}

impl Table {
    /// Emits the header band's per-column commands.
    fn emit_header_cells(&self, cmds: &mut Vec<DrawCmd>, state: &TableState, bounds: Rect)
        requires
            self.wf(),
            state.wf(),
            bounds.wf(),
            state.col_widths@.len() == self.columns@.len(),
        ensures
            final(cmds)@ == old(cmds)@ + spec_header_cmds_upto(
                state.col_widths@,
                state.scroll_offset_x as int,
                bounds,
                state.col_widths@.len() as int,
            ),
    {
        let ghost pre = cmds@;
        let ws = &state.col_widths;
        let n = ws.len();
        let vw: i64 = bounds.width - V_SCROLLBAR_WIDTH;
        let mut cell_x: i64 = bounds.x - state.scroll_offset_x;
        let mut c: usize = 0;
        proof {
            assert(ws@.take(0) =~= Seq::<i64>::empty());
            assert(pre + spec_header_cmds_upto(ws@, state.scroll_offset_x as int, bounds, 0)
                =~= pre);
        }
        while c < n
            invariant
                c <= n,
                n == ws@.len(),
                self.wf(),
                state.wf(),
                bounds.wf(),
                ws == state.col_widths,
                ws@.len() == self.columns@.len(),
                vw == bounds.width - V_SCROLLBAR_WIDTH,
                cell_x == spec_cell_x(ws@, state.scroll_offset_x as int, bounds, c as int),
                cmds@ == pre + spec_header_cmds_upto(
                    ws@,
                    state.scroll_offset_x as int,
                    bounds,
                    c as int,
                ),
            decreases n - c,
        {
            let ghost sx = state.scroll_offset_x as int;
            proof {
                assert(forall|j: int|
                    0 <= j < ws@.take(c as int).len() ==> MIN_COL_WIDTH <= #[trigger] ws@.take(
                        c as int,
                    )[j] <= MAX_COL_WIDTH);
                lemma_sum_in_range(ws@.take(c as int));
                lemma_sum_take_succ(ws@, c as int);
            }
            let w: i64 = ws[c];
            if cell_x + w >= bounds.x && cell_x <= bounds.x + vw {
                if c > 0 {
                    cmds.push(DrawCmd::FillRect {
                        rect: Rect { x: cell_x, y: bounds.y, width: 1, height: HEADER_HEIGHT },
                        color: ColorId::Border,
                    });
                }
                cmds.push(DrawCmd::DrawText {
                    source: TextSource::Header { col: c },
                    rect: Rect {
                        x: cell_x + CELL_PADDING_X,
                        y: bounds.y,
                        width: w - CELL_PADDING_X,
                        height: HEADER_HEIGHT,
                    },
                    color: ColorId::HeaderText,
                    bold: true,
                });
            }
            proof {
                assert(cmds@ =~= pre + spec_header_cmds_upto(ws@, sx, bounds, c as int + 1));
            }
            cell_x = cell_x + w;
            c += 1;
        }
    }

    /// Emits one visible row: stripe background, underline, and cells.
    fn emit_row(
        &self,
        cmds: &mut Vec<DrawCmd>,
        state: &TableState,
        bounds: Rect,
        row: i64,
        row_y: i64,
    )
        requires
            self.wf(),
            state.wf(),
            bounds.wf(),
            state.col_widths@.len() == self.columns@.len(),
            0 <= row <= MAX_TOTAL_ROWS,
            -0x40_0000_0000_0000 <= row_y <= 0x40_0000_0000_0000,
            row_y == spec_row_y(state.scroll_offset_y as int, bounds, row as int),
        ensures
            final(cmds)@ == old(cmds)@ + spec_row_cmds(
                self,
                state.col_widths@,
                state.scroll_offset_x as int,
                bounds,
                row as int,
                row_y as int,
            ),
    {
        let ghost pre = cmds@;
        let ws = &state.col_widths;
        let n = ws.len();
        let vw: i64 = bounds.width - V_SCROLLBAR_WIDTH;
        let abs_index: i64 = (self.row_offset as i64) + row;
        let stripe: ColorId = if abs_index % 2 == 0 {
            ColorId::RowEven
        } else {
            ColorId::RowOdd
        };
        cmds.push(DrawCmd::FillRect {
            rect: Rect { x: bounds.x, y: row_y, width: vw, height: ROW_HEIGHT },
            color: stripe,
        });
        cmds.push(DrawCmd::FillRect {
            rect: Rect { x: bounds.x, y: row_y + ROW_HEIGHT - 1, width: vw, height: 1 },
            color: ColorId::Border,
        });
        let ghost base = cmds@;
        let ghost sx = state.scroll_offset_x as int;
        let mut cell_x: i64 = bounds.x - state.scroll_offset_x;
        let mut c: usize = 0;
        proof {
            assert(ws@.take(0) =~= Seq::<i64>::empty());
            assert(base + spec_row_cells_upto(self, ws@, sx, bounds, row as int, row_y as int, 0)
                =~= base);
        }
        while c < n
            invariant
                c <= n,
                n == ws@.len(),
                self.wf(),
                state.wf(),
                bounds.wf(),
                ws == state.col_widths,
                ws@.len() == self.columns@.len(),
                vw == bounds.width - V_SCROLLBAR_WIDTH,
                sx == state.scroll_offset_x as int,
                0 <= row <= MAX_TOTAL_ROWS,
                -0x40_0000_0000_0000 <= row_y <= 0x40_0000_0000_0000,
                cell_x == spec_cell_x(ws@, sx, bounds, c as int),
                cmds@ == base + spec_row_cells_upto(
                    self,
                    ws@,
                    sx,
                    bounds,
                    row as int,
                    row_y as int,
                    c as int,
                ),
            decreases n - c,
        {
            proof {
                assert(forall|j: int|
                    0 <= j < ws@.take(c as int).len() ==> MIN_COL_WIDTH <= #[trigger] ws@.take(
                        c as int,
                    )[j] <= MAX_COL_WIDTH);
                lemma_sum_in_range(ws@.take(c as int));
                lemma_sum_take_succ(ws@, c as int);
            }
            let w: i64 = ws[c];
            if cell_x + w >= bounds.x && cell_x <= bounds.x + vw {
                if c > 0 {
                    cmds.push(DrawCmd::FillRect {
                        rect: Rect { x: cell_x, y: row_y, width: 1, height: ROW_HEIGHT },
                        color: ColorId::Border,
                    });
                }
                let col_data = &self.columns[c];
                let col_len: i64 = col_data.len() as i64;
                if row < col_len {
                    cmds.push(DrawCmd::DrawText {
                        source: TextSource::Cell { col: c, row: row as usize },
                        rect: Rect {
                            x: cell_x + CELL_PADDING_X,
                            y: row_y,
                            width: w - CELL_PADDING_X,
                            height: ROW_HEIGHT,
                        },
                        color: ColorId::BodyText,
                        bold: false,
                    });
                }
            }
            proof {
                assert(cmds@ =~= base + spec_row_cells_upto(
                    self,
                    ws@,
                    sx,
                    bounds,
                    row as int,
                    row_y as int,
                    c as int + 1,
                ));
            }
            cell_x = cell_x + w;
            c += 1;
        }
        proof {
            assert(cmds@ =~= pre + spec_row_cmds(
                self,
                ws@,
                sx,
                bounds,
                row as int,
                row_y as int,
            ));
        }
    }

    /// Emits every row of the row band that intersects the viewport and is
    /// loaded.
    fn emit_rows(&self, cmds: &mut Vec<DrawCmd>, state: &TableState, bounds: Rect)
        requires
            self.wf(),
            state.wf(),
            bounds.wf(),
            state.col_widths@.len() == self.columns@.len(),
        ensures
            final(cmds)@ == old(cmds)@ + spec_rows_upto(
                self,
                state.col_widths@,
                state.scroll_offset_x as int,
                state.scroll_offset_y as int,
                bounds,
                spec_visible_row_count(bounds) + 1,
            ),
    {
        let ghost pre = cmds@;
        let ghost sx = state.scroll_offset_x as int;
        let ghost sy = state.scroll_offset_y as int;
        let first: i64 = first_visible_row(state.scroll_offset_y);
        let count: i64 = visible_row_count(bounds);
        let loaded_usize: usize = self.loaded_row_count();
        let loaded: i64 = loaded_usize as i64;
        proof {
            if self.columns@.len() > 0 {
                assert((self.columns@[0])@.len() <= MAX_TOTAL_ROWS);
            }
        }
        let mut off: i64 = 0;
        while off <= count
            invariant_except_break
                0 <= off <= count + 1,
                self.wf(),
                state.wf(),
                bounds.wf(),
                state.col_widths@.len() == self.columns@.len(),
                sx == state.scroll_offset_x as int,
                sy == state.scroll_offset_y as int,
                first == spec_first_visible_row(sy),
                0 <= first <= state.scroll_offset_y,
                count == spec_visible_row_count(bounds),
                1 <= count <= bounds.height + 2,
                loaded == self.spec_loaded_row_count(),
                0 <= loaded <= MAX_TOTAL_ROWS,
                cmds@ == pre + spec_rows_upto(self, state.col_widths@, sx, sy, bounds, off as int),
            ensures
                cmds@ == pre + spec_rows_upto(
                    self,
                    state.col_widths@,
                    sx,
                    sy,
                    bounds,
                    spec_visible_row_count(bounds) + 1,
                ),
            decreases count + 1 - off,
        {
            let row: i64 = first + off;
            if row >= loaded {
                proof {
                    lemma_rows_upto_stable(
                        self,
                        state.col_widths@,
                        sx,
                        sy,
                        bounds,
                        off as int,
                        count as int + 1,
                    );
                }
                break;
            }
            let row_y: i64 = bounds.y + HEADER_HEIGHT + row * ROW_HEIGHT - state.scroll_offset_y;
            self.emit_row(cmds, state, bounds, row, row_y);
            off += 1;
        }
    }

    /// Renders one frame: the draw commands for exactly the content
    /// intersecting the viewport, in back-to-front order.
    ///
    /// Requires the widths to have been reconciled for this column count
    /// (the state invariant whenever rendering occurs); `handle_event`
    /// establishes it.
    pub fn draw(&self, state: &TableState, bounds: Rect) -> (cmds: Vec<DrawCmd>)
        requires
            self.wf(),
            state.wf(),
            bounds.wf(),
            state.col_widths@.len() == self.columns@.len(),
        ensures
            cmds@ == spec_draw(self, state.model(), bounds),
    {
        let mut cmds: Vec<DrawCmd> = Vec::new();
        if state.col_widths.len() == 0 {
            proof {
                assert(cmds@ =~= spec_draw(self, state.model(), bounds));
            }
            return cmds;
        }
        let vw: i64 = bounds.width - V_SCROLLBAR_WIDTH;
        let header_clip = Rect { x: bounds.x, y: bounds.y, width: vw, height: HEADER_HEIGHT };
        let rows_clip = Rect {
            x: bounds.x,
            y: bounds.y + HEADER_HEIGHT,
            width: vw,
            height: bounds.height - HEADER_HEIGHT - H_SCROLLBAR_HEIGHT,
        };
        let separator = Rect {
            x: bounds.x,
            y: bounds.y + HEADER_HEIGHT - 1,
            width: vw,
            height: 1,
        };
        cmds.push(DrawCmd::FillRect { rect: bounds, color: ColorId::PanelBackground });
        cmds.push(DrawCmd::PushClip { rect: bounds });
        cmds.push(DrawCmd::FillRect { rect: header_clip, color: ColorId::HeaderBackground });
        cmds.push(DrawCmd::PushClip { rect: header_clip });
        self.emit_header_cells(&mut cmds, state, bounds);
        cmds.push(DrawCmd::PopClip);
        cmds.push(DrawCmd::FillRect { rect: separator, color: ColorId::Border });
        cmds.push(DrawCmd::PushClip { rect: rows_clip });
        self.emit_rows(&mut cmds, state, bounds);
        cmds.push(DrawCmd::PopClip);
        let total_h: i64 = self.total_content_height();
        if total_h > bounds.height {
            let v_thumb = self.v_scrollbar_thumb_rect(bounds, state.scroll_offset_y);
            cmds.push(DrawCmd::FillRect { rect: v_thumb, color: ColorId::ScrollbarThumb });
        }
        let total_w: i64 = self.total_content_width(state);
        if total_w > vw {
            let h_thumb = self.h_scrollbar_thumb_rect(bounds, state.scroll_offset_x, state);
            cmds.push(DrawCmd::FillRect { rect: h_thumb, color: ColorId::ScrollbarThumb });
        }
        cmds.push(DrawCmd::PopClip);
        proof {
            assert(cmds@ =~= spec_draw(self, state.model(), bounds));
        }
        cmds
    }
}

} // verus!
