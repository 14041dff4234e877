//! The clipped renderer: command structure, row virtualization, stripe
//! parity, per-cell culling, and scrollbar thumbs.

use datagrid::events::GridEvent;
use datagrid::geom::{Point, Rect};
use datagrid::render::{visible_row_count, ColorId, DrawCmd, TextSource};
use datagrid::table::{Table, TableState};

fn make_table(cols: usize, rows: usize, total: usize, offset: usize) -> Table {
    let headers: Vec<String> = (0..cols).map(|c| format!("h{}", c)).collect();
    let columns: Vec<Vec<String>> = (0..cols)
        .map(|c| (0..rows).map(|r| format!("c{}r{}", c, r)).collect())
        .collect();
    Table::new(headers, columns, total, offset)
}

fn grid_bounds() -> Rect {
    Rect { x: 0, y: 0, width: 800, height: 600 }
}

fn reconciled_state(tbl: &Table) -> TableState {
    let mut st = TableState::default();
    tbl.handle_event(&mut st, GridEvent::LeftReleased, None, grid_bounds());
    st
}

fn stripes(cmds: &[DrawCmd]) -> Vec<ColorId> {
    let mut out = Vec::new();
    for cmd in cmds {
        if let DrawCmd::FillRect { color, .. } = cmd {
            if *color == ColorId::RowEven || *color == ColorId::RowOdd {
                out.push(*color);
            }
        }
    }
    out
}

#[test]
fn one_cell_frame_command_by_command() {
    let tbl = make_table(1, 1, 1, 0);
    let st = reconciled_state(&tbl);
    let b = grid_bounds();
    let cmds = tbl.draw(&st, b);
    // one 788-pixel column, one row, nothing scrollable
    let header_clip = Rect { x: 0, y: 0, width: 788, height: 32 };
    let rows_clip = Rect { x: 0, y: 32, width: 788, height: 556 };
    let expected = vec![
        DrawCmd::FillRect { rect: b, color: ColorId::PanelBackground },
        DrawCmd::PushClip { rect: b },
        DrawCmd::FillRect { rect: header_clip, color: ColorId::HeaderBackground },
        DrawCmd::PushClip { rect: header_clip },
        DrawCmd::DrawText {
            source: TextSource::Header { col: 0 },
            rect: Rect { x: 8, y: 0, width: 780, height: 32 },
            color: ColorId::HeaderText,
            bold: true,
        },
        DrawCmd::PopClip,
        DrawCmd::FillRect {
            rect: Rect { x: 0, y: 31, width: 788, height: 1 },
            color: ColorId::Border,
        },
        DrawCmd::PushClip { rect: rows_clip },
        DrawCmd::FillRect {
            rect: Rect { x: 0, y: 32, width: 788, height: 28 },
            color: ColorId::RowEven,
        },
        DrawCmd::FillRect {
            rect: Rect { x: 0, y: 59, width: 788, height: 1 },
            color: ColorId::Border,
        },
        DrawCmd::DrawText {
            source: TextSource::Cell { col: 0, row: 0 },
            rect: Rect { x: 8, y: 32, width: 780, height: 28 },
            color: ColorId::BodyText,
            bold: false,
        },
        DrawCmd::PopClip,
        DrawCmd::PopClip,
    ];
    assert_eq!(cmds, expected);
}

#[test]
fn stripe_parity_follows_absolute_index() {
    // the loaded window starts at absolute row 500000
    let tbl = make_table(2, 10, 1_000_000, 500_000);
    let st = reconciled_state(&tbl);
    let cmds = tbl.draw(&st, grid_bounds());
    let got = stripes(&cmds);
    let expected: Vec<ColorId> = (0..10)
        .map(|r| if (500_000 + r) % 2 == 0 { ColorId::RowEven } else { ColorId::RowOdd })
        .collect();
    assert_eq!(got, expected);
    assert_eq!(got[0], ColorId::RowEven);
    assert_eq!(got[1], ColorId::RowOdd);
}

#[test]
fn stripe_parity_shifts_with_row_offset() {
    // an odd row offset swaps the stripes of the same loaded window
    let tbl = make_table(2, 10, 1_000_000, 500_001);
    let st = reconciled_state(&tbl);
    let got = stripes(&tbl.draw(&st, grid_bounds()));
    assert_eq!(got[0], ColorId::RowOdd);
    assert_eq!(got[1], ColorId::RowEven);
}

#[test]
fn only_loaded_rows_are_drawn() {
    // two loaded rows of a million logical ones
    let tbl = make_table(2, 2, 1_000_000, 0);
    let st = reconciled_state(&tbl);
    let cmds = tbl.draw(&st, grid_bounds());
    assert_eq!(stripes(&cmds).len(), 2);
    let mut rows: Vec<usize> = Vec::new();
    for cmd in &cmds {
        if let DrawCmd::DrawText { source: TextSource::Cell { row, .. }, .. } = cmd {
            rows.push(*row);
        }
    }
    rows.sort();
    rows.dedup();
    assert_eq!(rows, vec![0, 1]);
}

#[test]
fn scrolled_out_columns_are_culled() {
    // 10 columns of 200 pixels, scrolled all the way right: only columns
    // whose extent still intersects the 788-pixel viewport remain
    let tbl = make_table(10, 1, 1, 0).col_width(200);
    let mut st = reconciled_state(&tbl);
    st.scroll_offset_x = 1212;
    let cmds = tbl.draw(&st, grid_bounds());
    let mut header_cols: Vec<usize> = Vec::new();
    for cmd in &cmds {
        if let DrawCmd::DrawText { source: TextSource::Header { col }, .. } = cmd {
            header_cols.push(*col);
        }
    }
    assert_eq!(header_cols, vec![6, 7, 8, 9]);
}

#[test]
fn thumbs_only_when_content_exceeds_viewport() {
    let count_thumbs = |cmds: &[DrawCmd]| {
        cmds.iter()
            .filter(|c| matches!(c, DrawCmd::FillRect { color: ColorId::ScrollbarThumb, .. }))
            .count()
    };
    // everything fits: no thumbs
    let small = make_table(2, 2, 2, 0);
    let st = reconciled_state(&small);
    assert_eq!(count_thumbs(&small.draw(&st, grid_bounds())), 0);
    // tall content: the vertical thumb only
    let tall = make_table(2, 10, 1000, 0);
    let st = reconciled_state(&tall);
    assert_eq!(count_thumbs(&tall.draw(&st, grid_bounds())), 1);
    // tall and wide content: both thumbs
    let both = make_table(10, 10, 1000, 0).col_width(200);
    let st = reconciled_state(&both);
    assert_eq!(count_thumbs(&both.draw(&st, grid_bounds())), 2);
}

#[test]
fn unlaid_out_widget_draws_nothing() {
    let tbl = make_table(3, 10, 10, 0);
    let st = TableState::default();
    assert!(tbl.draw(&st, grid_bounds()).is_empty());
    // a table with no columns stays empty even after reconciliation
    let empty = make_table(0, 0, 0, 0);
    let st = reconciled_state(&empty);
    assert!(empty.draw(&st, grid_bounds()).is_empty());
}

#[test]
fn rendering_is_deterministic() {
    let tbl = make_table(4, 10, 1_000_000, 500_000).col_width(80);
    let st = reconciled_state(&tbl);
    let first = tbl.draw(&st, grid_bounds());
    let second = tbl.draw(&st, grid_bounds());
    assert_eq!(first, second);
}

#[test]
fn visible_row_count_covers_viewport_plus_boundary() {
    // ceil((600 - 32) / 28) + 1 = 21 + 2? no: (568 + 27) / 28 = 21, + 1
    assert_eq!(visible_row_count(grid_bounds()), 22);
    let tiny = Rect { x: 0, y: 0, width: 100, height: 10 };
    assert_eq!(visible_row_count(tiny), 1);
}

#[test]
fn header_band_smaller_table_with_dividers() {
    let tbl = make_table(3, 1, 1, 0);
    let st = reconciled_state(&tbl);
    let cmds = tbl.draw(&st, grid_bounds());
    // dividers are drawn at the left edge of every column but the first:
    // one per header cell and one per body cell
    let dividers = cmds
        .iter()
        .filter(|c| {
            matches!(
                c,
                DrawCmd::FillRect { rect: Rect { width: 1, height: h, .. }, color: ColorId::Border }
                if *h == 32 || *h == 28
            )
        })
        .count();
    assert_eq!(dividers, 4);
}
