//! The interaction state machine: one pure step per input event.
//!
//! `Table::handle_event` is callable synchronously from any host loop.  It
//! first reconciles the stored column widths against the current column
//! count and pulls both scroll offsets back into `[0, max_scroll]` (the
//! per-frame healing of external configuration changes), then applies the
//! event, and reports whether the rendered output may have changed.  The
//! whole transition is pinned down by the mathematical step function
//! `spec_step`.

use vstd::prelude::*;
use vstd::arithmetic::div_mod::lemma_div_pos_is_pos;
use crate::geom::{
    abs_spec, clamp_i64, clamp_spec, max_i64, max_spec, min_spec, Point, Rect, HEADER_HEIGHT,
    H_SCROLLBAR_HEIGHT, MAX_COL_WIDTH, MAX_COORD, MAX_SCROLL, MIN_COL_WIDTH, ROW_HEIGHT,
    V_SCROLLBAR_WIDTH,
};
use crate::hit::spec_divider_at_cursor;
use crate::layout::{
    spec_max_h_scroll, spec_max_v_scroll, spec_reconciled_widths, spec_thumb_size,
    spec_h_thumb_rect, spec_v_thumb_rect, sum_widths,
};
use crate::table::{DragMode, StateModel, Table, TableState};

verus! {

/// Scroll wheel movement.  Line-unit deltas approximate one "notch" per
/// line; pixel-unit deltas apply directly.
#[derive(Clone, Copy, PartialEq, Eq, Structural, Debug)]
pub enum ScrollDelta {
    Lines { x: i64, y: i64 },
    Pixels { x: i64, y: i64 },
}

/// A key the widget reacts to; anything else arrives as `Other`.
#[derive(Clone, Copy, PartialEq, Eq, Structural, Debug)]
pub enum GridKey {
    PageDown,
    PageUp,
    Home,
    End,
    ArrowDown,
    ArrowUp,
    ArrowRight,
    ArrowLeft,
    Other,
}

/// One input event, as the host hands it to the widget.
#[derive(Clone, Copy, PartialEq, Eq, Structural, Debug)]
pub enum GridEvent {
    /// The left mouse button went down.
    LeftPressed,
    /// The pointer moved to `position`.
    CursorMoved { position: Point },
    /// The left mouse button was released.
    LeftReleased,
    /// The scroll wheel turned.
    WheelScrolled { delta: ScrollDelta },
    /// A key went down.
    KeyPressed { key: GridKey },
}

impl GridEvent {
    /// Every coordinate carried by the event is a bounded pixel value.
    pub open spec fn wf(self) -> bool {
        match self {
            GridEvent::CursorMoved { position } => position.wf(),
            GridEvent::WheelScrolled { delta } => match delta {
                ScrollDelta::Lines { x, y } => -MAX_COORD <= x <= MAX_COORD && -MAX_COORD <= y
                    <= MAX_COORD,
                ScrollDelta::Pixels { x, y } => -MAX_COORD <= x <= MAX_COORD && -MAX_COORD <= y
                    <= MAX_COORD,
            },
            _ => true,
        }
    }
}

/// A step's outcome: the next state and whether a redraw is owed.
pub ghost struct StepResult {
    pub state: StateModel,
    pub redraw: bool,
}

/// The state after the per-event healing: widths reconciled against the
/// column count, both scroll offsets pulled back into `[0, max_scroll]`.
pub open spec fn spec_healed(tbl: &Table, m: StateModel, bounds: Rect) -> StateModel {
    let ws = spec_reconciled_widths(tbl, m.widths, bounds.width - V_SCROLLBAR_WIDTH);
    StateModel {
        widths: ws,
        scroll_x: clamp_spec(
            m.scroll_x as int,
            0,
            spec_max_h_scroll(sum_widths(ws), bounds),
        ) as i64,
        scroll_y: clamp_spec(
            m.scroll_y as int,
            0,
            spec_max_v_scroll(tbl.spec_content_height(), bounds),
        ) as i64,
        drag: m.drag,
    }
}

/// A press while `Idle` enters the drag mode chosen by the hit-test:
/// divider first, then the vertical thumb, then the horizontal thumb.
/// Anything else leaves the state alone.
pub open spec fn spec_press(tbl: &Table, m: StateModel, cursor: Option<Point>, bounds: Rect)
    -> StepResult {
    match cursor {
        None => StepResult { state: m, redraw: false },
        Some(p) => if m.drag != DragMode::Idle {
            StepResult { state: m, redraw: false }
        } else {
            match spec_divider_at_cursor(m.widths, m.scroll_x as int, bounds, p.x as int,
                p.y as int) {
                Some(i) => StepResult {
                    state: StateModel {
                        drag: DragMode::ResizingColumn {
                            index: i as usize,
                            anchor_cursor_x: p.x,
                            anchor_width: m.widths[i],
                        },
                        ..m
                    },
                    redraw: true,
                },
                None => {
                    let v_rect = spec_v_thumb_rect(
                        tbl.spec_content_height(),
                        m.scroll_y as int,
                        bounds,
                    );
                    let h_rect = spec_h_thumb_rect(sum_widths(m.widths), m.scroll_x as int,
                        bounds);
                    if v_rect.spec_contains(p) {
                        StepResult {
                            state: StateModel {
                                drag: DragMode::DraggingVerticalThumb {
                                    anchor_cursor_y: p.y,
                                    anchor_offset: m.scroll_y,
                                },
                                ..m
                            },
                            redraw: true,
                        }
                    } else if h_rect.spec_contains(p) {
                        StepResult {
                            state: StateModel {
                                drag: DragMode::DraggingHorizontalThumb {
                                    anchor_cursor_x: p.x,
                                    anchor_offset: m.scroll_x,
                                },
                                ..m
                            },
                            redraw: true,
                        }
                    } else {
                        StepResult { state: m, redraw: false }
                    }
                },
            }
        },
    }
}

/// The scroll offset a thumb drag lands on: the anchored offset shifted by
/// the drag distance scaled from track travel to content travel, clamped to
/// `[0, max_scroll]`.  A track with no room for the thumb to travel gets a
/// denominator of one instead of a division blow-up.
pub open spec fn spec_drag_target(
    anchor: int,
    delta: int,
    track: int,
    thumb: int,
    max_scroll: int,
) -> int {
    let denom = max_spec(track - thumb, 1);
    let quot = if delta >= 0 {
        (delta * max_scroll) / denom
    } else {
        -(((-delta) * max_scroll) / denom)
    };
    clamp_spec(anchor + quot, 0, max_scroll)
}

/// A pointer move while resizing column `index`: that column's width
/// becomes the anchored width shifted by the drag distance, floored at
/// `MIN_COL_WIDTH` (and capped at `MAX_COL_WIDTH` so pixel arithmetic stays
/// bounded); no other width changes, and the horizontal offset is pulled
/// down to the new maximum scroll so it never overshoots.  A stale column
/// index (the column count shrank mid-drag) makes the move a no-op.
pub open spec fn spec_resize_move(
    tbl: &Table,
    m: StateModel,
    index: int,
    anchor_cursor_x: int,
    anchor_width: int,
    p: Point,
    bounds: Rect,
) -> StepResult {
    if 0 <= index < m.widths.len() {
        let new_w = clamp_spec(
            anchor_width + (p.x - anchor_cursor_x),
            MIN_COL_WIDTH as int,
            MAX_COL_WIDTH as int,
        );
        let ws2 = m.widths.update(index, new_w as i64);
        let sx2 = min_spec(m.scroll_x as int, spec_max_h_scroll(sum_widths(ws2), bounds));
        StepResult {
            state: StateModel { widths: ws2, scroll_x: sx2 as i64, ..m },
            redraw: true,
        }
    } else {
        StepResult { state: m, redraw: false }
    }
}

/// A pointer move: a resize drag reshapes its column, a thumb drag scrolls
/// its axis, and without a drag in progress nothing happens.
pub open spec fn spec_move(tbl: &Table, m: StateModel, p: Point, bounds: Rect) -> StepResult {
    match m.drag {
        DragMode::ResizingColumn { index, anchor_cursor_x, anchor_width } => spec_resize_move(
            tbl,
            m,
            index as int,
            anchor_cursor_x as int,
            anchor_width as int,
            p,
            bounds,
        ),
        DragMode::DraggingVerticalThumb { anchor_cursor_y, anchor_offset } => {
            let track = bounds.height - HEADER_HEIGHT - H_SCROLLBAR_HEIGHT;
            let thumb = spec_thumb_size(track as int, tbl.spec_content_height() - HEADER_HEIGHT);
            let sy2 = spec_drag_target(
                anchor_offset as int,
                p.y - anchor_cursor_y,
                track as int,
                thumb,
                spec_max_v_scroll(tbl.spec_content_height(), bounds),
            );
            StepResult { state: StateModel { scroll_y: sy2 as i64, ..m }, redraw: true }
        },
        DragMode::DraggingHorizontalThumb { anchor_cursor_x, anchor_offset } => {
            let track = bounds.width - V_SCROLLBAR_WIDTH;
            let thumb = spec_thumb_size(track as int, sum_widths(m.widths));
            let sx2 = spec_drag_target(
                anchor_offset as int,
                p.x - anchor_cursor_x,
                track as int,
                thumb,
                spec_max_h_scroll(sum_widths(m.widths), bounds),
            );
            StepResult { state: StateModel { scroll_x: sx2 as i64, ..m }, redraw: true }
        },
        DragMode::Idle => StepResult { state: m, redraw: false },
    }
}

/// A release ends whatever drag is in progress.
pub open spec fn spec_release(m: StateModel) -> StepResult {
    if m.drag != DragMode::Idle {
        StepResult { state: StateModel { drag: DragMode::Idle, ..m }, redraw: true }
    } else {
        StepResult { state: m, redraw: false }
    }
}

/// A wheel turn while `Idle` with the cursor over the widget: the dominant
/// axis of the delta drives that axis's offset.  Line deltas scale by one
/// row height vertically and one minimum column width horizontally.
pub open spec fn spec_wheel(
    tbl: &Table,
    m: StateModel,
    delta: ScrollDelta,
    cursor: Option<Point>,
    bounds: Rect,
) -> StepResult {
    let over = match cursor {
        Some(p) => bounds.spec_contains(p),
        None => false,
    };
    if !(over && m.drag == DragMode::Idle) {
        StepResult { state: m, redraw: false }
    } else {
        let max_h = spec_max_h_scroll(sum_widths(m.widths), bounds);
        let max_v = spec_max_v_scroll(tbl.spec_content_height(), bounds);
        let state = match delta {
            ScrollDelta::Lines { x, y } => if abs_spec(x as int) > abs_spec(y as int) {
                StateModel {
                    scroll_x: clamp_spec(m.scroll_x - x * MIN_COL_WIDTH, 0, max_h) as i64,
                    ..m
                }
            } else {
                StateModel {
                    scroll_y: clamp_spec(m.scroll_y - y * ROW_HEIGHT, 0, max_v) as i64,
                    ..m
                }
            },
            ScrollDelta::Pixels { x, y } => if abs_spec(x as int) > abs_spec(y as int) {
                StateModel { scroll_x: clamp_spec(m.scroll_x - x, 0, max_h) as i64, ..m }
            } else {
                StateModel { scroll_y: clamp_spec(m.scroll_y - y, 0, max_v) as i64, ..m }
            },
        };
        StepResult { state, redraw: true }
    }
}

/// A key press with the cursor over the widget: paging, home/end, and
/// arrow-key scrolling, each clamped; other keys change nothing.
pub open spec fn spec_key(
    tbl: &Table,
    m: StateModel,
    key: GridKey,
    cursor: Option<Point>,
    bounds: Rect,
) -> StepResult {
    let over = match cursor {
        Some(p) => bounds.spec_contains(p),
        None => false,
    };
    if !over {
        StepResult { state: m, redraw: false }
    } else {
        let max_h = spec_max_h_scroll(sum_widths(m.widths), bounds);
        let max_v = spec_max_v_scroll(tbl.spec_content_height(), bounds);
        let page = bounds.height - H_SCROLLBAR_HEIGHT - HEADER_HEIGHT;
        let state = match key {
            GridKey::PageDown => StateModel {
                scroll_y: clamp_spec(m.scroll_y + page, 0, max_v) as i64,
                ..m
            },
            GridKey::PageUp => StateModel {
                scroll_y: clamp_spec(m.scroll_y - page, 0, max_v) as i64,
                ..m
            },
            GridKey::Home => StateModel { scroll_y: 0, ..m },
            GridKey::End => StateModel { scroll_y: max_v as i64, ..m },
            GridKey::ArrowDown => StateModel {
                scroll_y: clamp_spec(m.scroll_y + ROW_HEIGHT, 0, max_v) as i64,
                ..m
            },
            GridKey::ArrowUp => StateModel {
                scroll_y: clamp_spec(m.scroll_y - ROW_HEIGHT, 0, max_v) as i64,
                ..m
            },
            GridKey::ArrowRight => StateModel {
                scroll_x: clamp_spec(m.scroll_x + MIN_COL_WIDTH, 0, max_h) as i64,
                ..m
            },
            GridKey::ArrowLeft => StateModel {
                scroll_x: clamp_spec(m.scroll_x - MIN_COL_WIDTH, 0, max_h) as i64,
                ..m
            },
            GridKey::Other => m,
        };
        StepResult { state, redraw: true }
    }
}

/// The full transition one event makes: heal, then apply the event; a
/// redraw is owed when the event asks for one or the healing itself changed
/// the state.
pub open spec fn spec_step(
    tbl: &Table,
    m0: StateModel,
    event: GridEvent,
    cursor: Option<Point>,
    bounds: Rect,
) -> StepResult {
    let m = spec_healed(tbl, m0, bounds);
    let r = match event {
        GridEvent::LeftPressed => spec_press(tbl, m, cursor, bounds),
        GridEvent::CursorMoved { position } => spec_move(tbl, m, position, bounds),
        GridEvent::LeftReleased => spec_release(m),
        GridEvent::WheelScrolled { delta } => spec_wheel(tbl, m, delta, cursor, bounds),
        GridEvent::KeyPressed { key } => spec_key(tbl, m, key, cursor, bounds),
    };
    StepResult { state: r.state, redraw: r.redraw || m != m0 }
}

/// Runtime absolute value for bounded pixel deltas.
fn abs_i64(v: i64) -> (r: i64)
    requires
        -MAX_COORD <= v <= MAX_COORD,
    ensures
        r == abs_spec(v as int),
{
    if v < 0 {
        -v
    } else {
        v
    }
}

/// Runtime thumb-drag arithmetic, without overflow.
fn drag_offset(anchor: i64, delta: i64, track: i64, thumb: i64, max_scroll: i64) -> (r: i64)
    requires
        0 <= anchor <= MAX_SCROLL,
        -0x2_0000_0000 <= delta <= 0x2_0000_0000,
        -0x2_0000_0000 <= track <= 0x2_0000_0000,
        0 <= thumb <= MAX_COORD * MAX_COORD,
        0 <= max_scroll <= MAX_SCROLL,
    ensures
        r == spec_drag_target(anchor as int, delta as int, track as int, thumb as int,
            max_scroll as int),
        0 <= r <= max_scroll,
{
    let denom: i64 = max_i64(track - thumb, 1);
    proof {
        assert(0 <= (abs_spec(delta as int)) * (max_scroll as int) <= 0x2_0000_0000int
            * 0x20_0000_0000_0000int) by (nonlinear_arith)
            requires
                -0x2_0000_0000 <= delta <= 0x2_0000_0000,
                0 <= max_scroll <= 0x20_0000_0000_0000int,
        ;
    }
    let quot: i128 = if delta >= 0 {
        let q = ((delta as i128) * (max_scroll as i128)) / (denom as i128);
        proof {
            lemma_div_pos_is_pos((delta as int) * (max_scroll as int), denom as int);
        }
        q
    } else {
        let q = (((-delta) as i128) * (max_scroll as i128)) / (denom as i128);
        proof {
            lemma_div_pos_is_pos(((-delta) as int) * (max_scroll as int), denom as int);
        }
        -q
    };
    let target: i128 = (anchor as i128) + quot;
    let clamped: i128 = if target < 0 {
        0
    } else if target > (max_scroll as i128) {
        max_scroll as i128
    } else {
        target
    };
    clamped as i64
}

impl Table {
    /// Handles one input event: reconciles and clamps the stored state,
    /// applies the event, and reports whether the host must redraw.
    ///
    /// The new state is exactly `spec_step` of the old one, and both scroll
    /// offsets always come out within `[0, max_scroll]` for the current
    /// geometry.
    pub fn handle_event(
        &self,
        state: &mut TableState,
        event: GridEvent,
        cursor: Option<Point>,
        bounds: Rect,
    ) -> (redraw: bool)
        requires
            self.wf(),
            old(state).wf(),
            bounds.wf(),
            event.wf(),
            match cursor {
                Some(p) => p.wf(),
                None => true,
            },
        ensures
            final(state).model() == spec_step(self, old(state).model(), event, cursor,
                bounds).state,
            redraw == spec_step(self, old(state).model(), event, cursor, bounds).redraw,
            final(state).wf(),
            final(state).col_widths@.len() == self.columns@.len(),
            0 <= final(state).scroll_offset_x <= spec_max_h_scroll(
                sum_widths(final(state).col_widths@),
                bounds,
            ),
            0 <= final(state).scroll_offset_y <= spec_max_v_scroll(
                self.spec_content_height(),
                bounds,
            ),
    {
        let ghost m0 = old(state).model();
        let viewport_w: i64 = bounds.width - V_SCROLLBAR_WIDTH;

        // Healing: reconcile the widths, then pull the offsets into range.
        let widths_changed: bool = state.col_widths.len() != self.columns.len();
        self.reconcile_widths(state, viewport_w);
        let max_h: i64 = self.max_h_scroll(state, bounds);
        let max_v: i64 = self.max_v_scroll(bounds);
        let sx_healed: i64 = clamp_i64(state.scroll_offset_x, 0, max_h);
        let sy_healed: i64 = clamp_i64(state.scroll_offset_y, 0, max_v);
        let heal_changed: bool = widths_changed || sx_healed != state.scroll_offset_x
            || sy_healed != state.scroll_offset_y;
        state.scroll_offset_x = sx_healed;
        state.scroll_offset_y = sy_healed;
        let ghost m = state.model();
        proof {
            assert(m == spec_healed(self, m0, bounds));
            if widths_changed {
                assert(m.widths.len() != m0.widths.len());
            }
            assert(heal_changed == (m != m0));
        }

        let mut redraw: bool = false;
        match event {
            GridEvent::LeftPressed => {
                if let Some(p) = cursor {
                    let is_idle = match state.drag_mode {
                        DragMode::Idle => true,
                        _ => false,
                    };
                    if is_idle {
                        if let Some(i) = self.divider_at_cursor(state, bounds, p.x, p.y) {
                            let w = state.col_widths[i];
                            state.drag_mode = DragMode::ResizingColumn {
                                index: i,
                                anchor_cursor_x: p.x,
                                anchor_width: w,
                            };
                            redraw = true;
                        } else {
                            let v_thumb = self.v_scrollbar_thumb_rect(
                                bounds,
                                state.scroll_offset_y,
                            );
                            let h_thumb = self.h_scrollbar_thumb_rect(
                                bounds,
                                state.scroll_offset_x,
                                state,
                            );
                            if v_thumb.contains(p) {
                                state.drag_mode = DragMode::DraggingVerticalThumb {
                                    anchor_cursor_y: p.y,
                                    anchor_offset: state.scroll_offset_y,
                                };
                                redraw = true;
                            } else if h_thumb.contains(p) {
                                state.drag_mode = DragMode::DraggingHorizontalThumb {
                                    anchor_cursor_x: p.x,
                                    anchor_offset: state.scroll_offset_x,
                                };
                                redraw = true;
                            }
                        }
                    }
                }
                proof {
                    assert(state.model() == spec_press(self, m, cursor, bounds).state);
                    assert(redraw == spec_press(self, m, cursor, bounds).redraw);
                }
            },
            GridEvent::CursorMoved { position } => {
                match state.drag_mode {
                    DragMode::ResizingColumn { index, anchor_cursor_x, anchor_width } => {
                        if index < state.col_widths.len() {
                            let delta: i64 = position.x - anchor_cursor_x;
                            let new_w: i64 = clamp_i64(
                                anchor_width + delta,
                                MIN_COL_WIDTH,
                                MAX_COL_WIDTH,
                            );
                            state.col_widths.set(index, new_w);
                            let new_max_h: i64 = self.max_h_scroll(state, bounds);
                            if state.scroll_offset_x > new_max_h {
                                state.scroll_offset_x = new_max_h;
                            }
                            redraw = true;
                        }
                    },
                    DragMode::DraggingVerticalThumb { anchor_cursor_y, anchor_offset } => {
                        let track: i64 = bounds.height - HEADER_HEIGHT - H_SCROLLBAR_HEIGHT;
                        let content_h: i64 = self.total_content_height();
                        let thumb: i64 = crate::layout::thumb_size(
                            track,
                            content_h - HEADER_HEIGHT,
                        );
                        let delta: i64 = position.y - anchor_cursor_y;
                        state.scroll_offset_y = drag_offset(
                            anchor_offset,
                            delta,
                            track,
                            thumb,
                            max_v,
                        );
                        redraw = true;
                    },
                    DragMode::DraggingHorizontalThumb { anchor_cursor_x, anchor_offset } => {
                        let track: i64 = viewport_w;
                        let total_w: i64 = self.total_content_width(state);
                        let thumb: i64 = crate::layout::thumb_size(track, total_w);
                        let delta: i64 = position.x - anchor_cursor_x;
                        state.scroll_offset_x = drag_offset(
                            anchor_offset,
                            delta,
                            track,
                            thumb,
                            max_h,
                        );
                        redraw = true;
                    },
                    DragMode::Idle => {},
                }
                proof {
                    assert(state.model() == spec_move(self, m, position, bounds).state);
                    assert(redraw == spec_move(self, m, position, bounds).redraw);
                }
            },
            GridEvent::LeftReleased => {
                let is_idle = match state.drag_mode {
                    DragMode::Idle => true,
                    _ => false,
                };
                if !is_idle {
                    state.drag_mode = DragMode::Idle;
                    redraw = true;
                }
                proof {
                    assert(state.model() == spec_release(m).state);
                    assert(redraw == spec_release(m).redraw);
                }
            },
            GridEvent::WheelScrolled { delta } => {
                let over = match cursor {
                    Some(p) => bounds.contains(p),
                    None => false,
                };
                let is_idle = match state.drag_mode {
                    DragMode::Idle => true,
                    _ => false,
                };
                if over && is_idle {
                    match delta {
                        ScrollDelta::Lines { x, y } => {
                            if abs_i64(x) > abs_i64(y) {
                                state.scroll_offset_x = clamp_i64(
                                    state.scroll_offset_x - x * MIN_COL_WIDTH,
                                    0,
                                    max_h,
                                );
                            } else {
                                state.scroll_offset_y = clamp_i64(
                                    state.scroll_offset_y - y * ROW_HEIGHT,
                                    0,
                                    max_v,
                                );
                            }
                        },
                        ScrollDelta::Pixels { x, y } => {
                            if abs_i64(x) > abs_i64(y) {
                                state.scroll_offset_x = clamp_i64(
                                    state.scroll_offset_x - x,
                                    0,
                                    max_h,
                                );
                            } else {
                                state.scroll_offset_y = clamp_i64(
                                    state.scroll_offset_y - y,
                                    0,
                                    max_v,
                                );
                            }
                        },
                    }
                    redraw = true;
                }
                proof {
                    assert(state.model() == spec_wheel(self, m, delta, cursor, bounds).state);
                    assert(redraw == spec_wheel(self, m, delta, cursor, bounds).redraw);
                }
            },
            GridEvent::KeyPressed { key } => {
                let over = match cursor {
                    Some(p) => bounds.contains(p),
                    None => false,
                };
                if over {
                    let page: i64 = bounds.height - H_SCROLLBAR_HEIGHT - HEADER_HEIGHT;
                    match key {
                        GridKey::PageDown => {
                            state.scroll_offset_y = clamp_i64(
                                state.scroll_offset_y + page,
                                0,
                                max_v,
                            );
                        },
                        GridKey::PageUp => {
                            state.scroll_offset_y = clamp_i64(
                                state.scroll_offset_y - page,
                                0,
                                max_v,
                            );
                        },
                        GridKey::Home => {
                            state.scroll_offset_y = 0;
                        },
                        GridKey::End => {
                            state.scroll_offset_y = max_v;
                        },
                        GridKey::ArrowDown => {
                            state.scroll_offset_y = clamp_i64(
                                state.scroll_offset_y + ROW_HEIGHT,
                                0,
                                max_v,
                            );
                        },
                        GridKey::ArrowUp => {
                            state.scroll_offset_y = clamp_i64(
                                state.scroll_offset_y - ROW_HEIGHT,
                                0,
                                max_v,
                            );
                        },
                        GridKey::ArrowRight => {
                            state.scroll_offset_x = clamp_i64(
                                state.scroll_offset_x + MIN_COL_WIDTH,
                                0,
                                max_h,
                            );
                        },
                        GridKey::ArrowLeft => {
                            state.scroll_offset_x = clamp_i64(
                                state.scroll_offset_x - MIN_COL_WIDTH,
                                0,
                                max_h,
                            );
                        },
                        GridKey::Other => {},
                    }
                    redraw = true;
                }
                proof {
                    assert(state.model() == spec_key(self, m, key, cursor, bounds).state);
                    assert(redraw == spec_key(self, m, key, cursor, bounds).redraw);
                }
            },
        }
        redraw || heal_changed
    }
}

} // verus!
