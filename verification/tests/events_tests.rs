//! The interaction state machine: wheel and keyboard scrolling, column
//! resizing, thumb dragging, and the per-event healing of stale state.

use datagrid::events::{GridEvent, GridKey, ScrollDelta};
use datagrid::geom::{Point, Rect};
use datagrid::render::{first_visible_row, DrawCmd, TextSource};
use datagrid::table::{DragMode, Table, TableState};

fn make_table(cols: usize, rows: usize, total: usize, offset: usize) -> Table {
    let headers: Vec<String> = (0..cols).map(|c| format!("h{}", c)).collect();
    let columns: Vec<Vec<String>> = (0..cols)
        .map(|c| (0..rows).map(|r| format!("c{}r{}", c, r)).collect())
        .collect();
    Table::new(headers, columns, total, offset)
}

fn grid_bounds() -> Rect {
    Rect { x: 0, y: 0, width: 800, height: 600 }
}

fn reconciled_state(tbl: &Table) -> TableState {
    let mut st = TableState::default();
    tbl.handle_event(&mut st, GridEvent::LeftReleased, None, grid_bounds());
    st
}

fn over() -> Option<Point> {
    Some(Point { x: 100, y: 100 })
}

#[test]
fn wheel_scenario_virtualized() {
    // viewport 800x600, 4 columns fixed at 80, a million logical rows,
    // 10 loaded at offset 500000
    let tbl = make_table(4, 10, 1_000_000, 500_000).col_width(80);
    let mut st = TableState::default();
    let ev = GridEvent::WheelScrolled { delta: ScrollDelta::Lines { x: 0, y: -3 } };
    let redraw = tbl.handle_event(&mut st, ev, over(), grid_bounds());
    assert!(redraw);
    // three lines of one row height each
    assert_eq!(st.scroll_offset_y, 84);
    assert_eq!(first_visible_row(st.scroll_offset_y), 3);
    // only the loaded rows 3..10 are rendered, not the million
    let cmds = tbl.draw(&st, grid_bounds());
    let mut rows: Vec<usize> = Vec::new();
    for cmd in &cmds {
        if let DrawCmd::DrawText { source: TextSource::Cell { row, .. }, .. } = cmd {
            if !rows.contains(row) {
                rows.push(*row);
            }
        }
    }
    rows.sort();
    assert_eq!(rows, vec![3, 4, 5, 6, 7, 8, 9]);
}

#[test]
fn resize_scenario() {
    // widths start at (800 - 12) / 3 = 262; the first divider is at 262
    let tbl = make_table(3, 10, 10, 0);
    let mut st = reconciled_state(&tbl);
    let press_at = Some(Point { x: 265, y: 16 });
    assert!(tbl.handle_event(&mut st, GridEvent::LeftPressed, press_at, grid_bounds()));
    assert!(matches!(
        st.drag_mode,
        DragMode::ResizingColumn { index: 0, anchor_cursor_x: 265, anchor_width: 262 }
    ));
    // a move of +20 pixels widens the column by exactly 20
    let mv = GridEvent::CursorMoved { position: Point { x: 285, y: 16 } };
    assert!(tbl.handle_event(&mut st, mv, press_at, grid_bounds()));
    assert_eq!(st.col_widths, vec![282, 262, 262]);
    // release returns to Idle and the width persists on the next render
    assert!(tbl.handle_event(&mut st, GridEvent::LeftReleased, press_at, grid_bounds()));
    assert!(matches!(st.drag_mode, DragMode::Idle));
    assert!(!tbl.handle_event(&mut st, GridEvent::LeftReleased, press_at, grid_bounds()));
    assert_eq!(st.col_widths, vec![282, 262, 262]);
}

#[test]
fn press_within_grab_zone_edges() {
    let tbl = make_table(3, 10, 10, 0);
    for (x, hits) in [(258, true), (266, true), (257, false), (267, false)] {
        let mut st = reconciled_state(&tbl);
        let p = Some(Point { x, y: 10 });
        tbl.handle_event(&mut st, GridEvent::LeftPressed, p, grid_bounds());
        assert_eq!(
            matches!(st.drag_mode, DragMode::ResizingColumn { .. }),
            hits,
            "press at {}",
            x
        );
    }
}

#[test]
fn press_outside_everything_stays_idle() {
    let tbl = make_table(3, 10, 10, 0);
    let mut st = reconciled_state(&tbl);
    let redraw = tbl.handle_event(
        &mut st,
        GridEvent::LeftPressed,
        Some(Point { x: 400, y: 300 }),
        grid_bounds(),
    );
    assert!(!redraw);
    assert!(matches!(st.drag_mode, DragMode::Idle));
}

#[test]
fn vertical_thumb_press_and_proportional_drag() {
    // 1000 rows: max_v = 27444, track 556, thumb 20
    let tbl = make_table(3, 10, 1000, 0);
    let mut st = reconciled_state(&tbl);
    let on_thumb = Some(Point { x: 790, y: 40 });
    assert!(tbl.handle_event(&mut st, GridEvent::LeftPressed, on_thumb, grid_bounds()));
    assert!(matches!(
        st.drag_mode,
        DragMode::DraggingVerticalThumb { anchor_cursor_y: 40, anchor_offset: 0 }
    ));
    // 100 pixels of travel over 556 - 20 = 536 scale to 100*27444/536
    let mv = GridEvent::CursorMoved { position: Point { x: 790, y: 140 } };
    assert!(tbl.handle_event(&mut st, mv, on_thumb, grid_bounds()));
    assert_eq!(st.scroll_offset_y, 5120);
    assert!(tbl.handle_event(&mut st, GridEvent::LeftReleased, on_thumb, grid_bounds()));
    assert!(matches!(st.drag_mode, DragMode::Idle));
    assert_eq!(st.scroll_offset_y, 5120);
}

#[test]
fn thumb_drag_extremes_land_exactly_on_bounds() {
    let tbl = make_table(3, 10, 1000, 0);
    let mut st = reconciled_state(&tbl);
    st.drag_mode = DragMode::DraggingVerticalThumb { anchor_cursor_y: 100, anchor_offset: 0 };
    let far_down = GridEvent::CursorMoved { position: Point { x: 790, y: 10_000_100 } };
    tbl.handle_event(&mut st, far_down, None, grid_bounds());
    assert_eq!(st.scroll_offset_y, 27444);
    let far_up = GridEvent::CursorMoved { position: Point { x: 790, y: -10_000_000 } };
    tbl.handle_event(&mut st, far_up, None, grid_bounds());
    assert_eq!(st.scroll_offset_y, 0);
}

#[test]
fn horizontal_thumb_drag() {
    // content 2000 wide: max_h = 1212, track 788, thumb 310
    let tbl = make_table(10, 10, 10, 0).col_width(200);
    let mut st = reconciled_state(&tbl);
    let on_thumb = Some(Point { x: 100, y: 592 });
    assert!(tbl.handle_event(&mut st, GridEvent::LeftPressed, on_thumb, grid_bounds()));
    assert!(matches!(
        st.drag_mode,
        DragMode::DraggingHorizontalThumb { anchor_cursor_x: 100, anchor_offset: 0 }
    ));
    // 239 pixels over 788 - 310 = 478 of travel: 239*1212/478 = 606
    let mv = GridEvent::CursorMoved { position: Point { x: 339, y: 592 } };
    tbl.handle_event(&mut st, mv, on_thumb, grid_bounds());
    assert_eq!(st.scroll_offset_x, 606);
    // far past the end of the track lands exactly on max_scroll
    let far = GridEvent::CursorMoved { position: Point { x: 1_000_000, y: 592 } };
    tbl.handle_event(&mut st, far, on_thumb, grid_bounds());
    assert_eq!(st.scroll_offset_x, 1212);
}

#[test]
fn resize_reclamps_horizontal_offset() {
    // shrinking a column can lower max_scroll below the current offset
    let tbl = make_table(10, 10, 10, 0).col_width(200);
    let mut st = reconciled_state(&tbl);
    st.scroll_offset_x = 1212;
    st.drag_mode = DragMode::ResizingColumn { index: 0, anchor_cursor_x: 0, anchor_width: 200 };
    let mv = GridEvent::CursorMoved { position: Point { x: -300, y: 16 } };
    tbl.handle_event(&mut st, mv, None, grid_bounds());
    // the width floors at 28; other columns are untouched
    assert_eq!(st.col_widths[0], 28);
    assert!(st.col_widths[1..].iter().all(|&w| w == 200));
    // new max_scroll is 2000 - 200 + 28 - 788 = 1040
    assert_eq!(st.scroll_offset_x, 1040);
}

#[test]
fn keyboard_navigation() {
    let tbl = make_table(3, 10, 1000, 0);
    let mut st = reconciled_state(&tbl);
    let b = grid_bounds();
    let key = |k: GridKey| GridEvent::KeyPressed { key: k };
    assert!(tbl.handle_event(&mut st, key(GridKey::End), over(), b));
    assert_eq!(st.scroll_offset_y, 27444);
    assert!(tbl.handle_event(&mut st, key(GridKey::Home), over(), b));
    assert_eq!(st.scroll_offset_y, 0);
    assert!(tbl.handle_event(&mut st, key(GridKey::ArrowDown), over(), b));
    assert_eq!(st.scroll_offset_y, 28);
    assert!(tbl.handle_event(&mut st, key(GridKey::ArrowUp), over(), b));
    assert_eq!(st.scroll_offset_y, 0);
    // one page is the viewport height minus the header: 588 - 32 = 556
    assert!(tbl.handle_event(&mut st, key(GridKey::PageDown), over(), b));
    assert_eq!(st.scroll_offset_y, 556);
    assert!(tbl.handle_event(&mut st, key(GridKey::PageUp), over(), b));
    assert_eq!(st.scroll_offset_y, 0);
    // clamped at the top: PageUp from 0 stays at 0
    assert!(tbl.handle_event(&mut st, key(GridKey::PageUp), over(), b));
    assert_eq!(st.scroll_offset_y, 0);
    // an unmapped key changes nothing but still reports a redraw
    assert!(tbl.handle_event(&mut st, key(GridKey::Other), over(), b));
    assert_eq!(st.scroll_offset_y, 0);
    // without the cursor over the widget, keys are ignored
    assert!(!tbl.handle_event(&mut st, key(GridKey::End), None, b));
    assert_eq!(st.scroll_offset_y, 0);
}

#[test]
fn horizontal_arrow_keys() {
    let tbl = make_table(10, 10, 10, 0).col_width(200);
    let mut st = reconciled_state(&tbl);
    let b = grid_bounds();
    tbl.handle_event(&mut st, GridEvent::KeyPressed { key: GridKey::ArrowRight }, over(), b);
    assert_eq!(st.scroll_offset_x, 28);
    tbl.handle_event(&mut st, GridEvent::KeyPressed { key: GridKey::ArrowLeft }, over(), b);
    assert_eq!(st.scroll_offset_x, 0);
    tbl.handle_event(&mut st, GridEvent::KeyPressed { key: GridKey::ArrowLeft }, over(), b);
    assert_eq!(st.scroll_offset_x, 0);
}

#[test]
fn wheel_dominant_axis() {
    let tbl = make_table(10, 10, 1000, 0).col_width(200);
    let b = grid_bounds();
    // |x| > |y|: the horizontal axis wins
    let mut st = reconciled_state(&tbl);
    let ev = GridEvent::WheelScrolled { delta: ScrollDelta::Lines { x: -2, y: -1 } };
    tbl.handle_event(&mut st, ev, over(), b);
    assert_eq!(st.scroll_offset_x, 56);
    assert_eq!(st.scroll_offset_y, 0);
    // a tie goes to the vertical axis
    let mut st = reconciled_state(&tbl);
    let ev = GridEvent::WheelScrolled { delta: ScrollDelta::Lines { x: -5, y: -5 } };
    tbl.handle_event(&mut st, ev, over(), b);
    assert_eq!(st.scroll_offset_x, 0);
    assert_eq!(st.scroll_offset_y, 140);
    // pixel deltas apply directly
    let mut st = reconciled_state(&tbl);
    let ev = GridEvent::WheelScrolled { delta: ScrollDelta::Pixels { x: -50, y: -10 } };
    tbl.handle_event(&mut st, ev, over(), b);
    assert_eq!(st.scroll_offset_x, 50);
    let ev = GridEvent::WheelScrolled { delta: ScrollDelta::Pixels { x: 0, y: -100 } };
    tbl.handle_event(&mut st, ev, over(), b);
    assert_eq!(st.scroll_offset_y, 100);
}

#[test]
fn wheel_ignored_outside_bounds_or_while_dragging() {
    let tbl = make_table(3, 10, 1000, 0);
    let b = grid_bounds();
    let ev = GridEvent::WheelScrolled { delta: ScrollDelta::Lines { x: 0, y: -3 } };
    // cursor off the widget
    let mut st = reconciled_state(&tbl);
    assert!(!tbl.handle_event(&mut st, ev, Some(Point { x: 10_000, y: 10 }), b));
    assert_eq!(st.scroll_offset_y, 0);
    // no cursor at all
    assert!(!tbl.handle_event(&mut st, ev, None, b));
    assert_eq!(st.scroll_offset_y, 0);
    // wheel during a drag is ignored
    st.drag_mode = DragMode::DraggingVerticalThumb { anchor_cursor_y: 40, anchor_offset: 0 };
    assert!(!tbl.handle_event(&mut st, ev, over(), b));
    assert_eq!(st.scroll_offset_y, 0);
}

#[test]
fn healing_clamps_stale_offsets_and_signals_redraw() {
    let tbl = make_table(3, 10, 1000, 0);
    let mut st = reconciled_state(&tbl);
    st.scroll_offset_y = 10_000_000;
    // a benign event heals the offset back to max_scroll and owes a redraw
    assert!(tbl.handle_event(&mut st, GridEvent::LeftReleased, None, grid_bounds()));
    assert_eq!(st.scroll_offset_y, 27444);
}

#[test]
fn offsets_stay_in_bounds_over_event_sequences() {
    let tbl = make_table(10, 10, 1000, 0).col_width(200);
    let b = grid_bounds();
    let mut st = TableState::default();
    let events = [
        GridEvent::WheelScrolled { delta: ScrollDelta::Lines { x: 0, y: -50 } },
        GridEvent::KeyPressed { key: GridKey::PageDown },
        GridEvent::WheelScrolled { delta: ScrollDelta::Pixels { x: -2_000, y: 0 } },
        GridEvent::LeftPressed,
        GridEvent::CursorMoved { position: Point { x: -900, y: 900 } },
        GridEvent::KeyPressed { key: GridKey::End },
        GridEvent::WheelScrolled { delta: ScrollDelta::Lines { x: 99, y: 0 } },
        GridEvent::LeftReleased,
        GridEvent::KeyPressed { key: GridKey::ArrowRight },
        GridEvent::WheelScrolled { delta: ScrollDelta::Pixels { x: 0, y: 40_000 } },
    ];
    for ev in events {
        tbl.handle_event(&mut st, ev, over(), b);
        let max_h = tbl.max_h_scroll(&st, b);
        let max_v = tbl.max_v_scroll(b);
        assert!(0 <= st.scroll_offset_x && st.scroll_offset_x <= max_h);
        assert!(0 <= st.scroll_offset_y && st.scroll_offset_y <= max_v);
    }
}

#[test]
fn extreme_row_count_stays_exact() {
    // the largest row count the widget accepts: 2^47 logical rows, none
    // loaded yet
    let total: usize = 0x8000_0000_0000;
    let tbl = make_table(1, 0, total, 0);
    let mut st = reconciled_state(&tbl);
    let b = grid_bounds();
    tbl.handle_event(&mut st, GridEvent::KeyPressed { key: GridKey::End }, over(), b);
    // 32 + 2^47 * 28 - (600 - 12)
    assert_eq!(st.scroll_offset_y, 32 + 28 * 0x8000_0000_0000i64 - 588);
    assert_eq!(st.scroll_offset_y, tbl.max_v_scroll(b));
    // nothing is loaded, so no row is drawn
    let cmds = tbl.draw(&st, b);
    assert!(!cmds.iter().any(|c| matches!(
        c,
        DrawCmd::DrawText { source: TextSource::Cell { .. }, .. }
    )));
}

#[test]
fn press_needs_idle_state() {
    let tbl = make_table(3, 10, 1000, 0);
    let mut st = reconciled_state(&tbl);
    st.drag_mode = DragMode::DraggingVerticalThumb { anchor_cursor_y: 40, anchor_offset: 0 };
    // a press over a divider while another drag is active changes nothing
    let p = Some(Point { x: 262, y: 10 });
    assert!(!tbl.handle_event(&mut st, GridEvent::LeftPressed, p, grid_bounds()));
    assert!(matches!(st.drag_mode, DragMode::DraggingVerticalThumb { .. }));
}

#[test]
fn cursor_affordance_hint() {
    let tbl = make_table(3, 10, 10, 0);
    let mut st = reconciled_state(&tbl);
    let b = grid_bounds();
    assert!(tbl.wants_resize_cursor(&st, Some(Point { x: 262, y: 10 }), b));
    assert!(!tbl.wants_resize_cursor(&st, Some(Point { x: 400, y: 300 }), b));
    assert!(!tbl.wants_resize_cursor(&st, None, b));
    // during a resize the hint holds wherever the cursor is
    st.drag_mode = DragMode::ResizingColumn { index: 0, anchor_cursor_x: 262, anchor_width: 262 };
    assert!(tbl.wants_resize_cursor(&st, Some(Point { x: 700, y: 500 }), b));
}
