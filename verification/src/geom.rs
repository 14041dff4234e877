//! Pixel geometry: points, rectangles, the widget's fixed dimensions, and
//! the size bounds under which all of the grid's arithmetic stays inside
//! 64-bit integers.

use vstd::prelude::*;

verus! {

/// Height of one data row, in pixels.
pub const ROW_HEIGHT: i64 = 28;
/// Height of the header band, in pixels.
pub const HEADER_HEIGHT: i64 = 32;
/// Left padding of the text inside a cell, in pixels.
pub const CELL_PADDING_X: i64 = 8;
/// Font size used for both header and body text, in pixels.
pub const FONT_SIZE: i64 = 13;
/// No column is ever narrower than this.
pub const MIN_COL_WIDTH: i64 = 28;
/// Columns that are laid out fresh are at least this wide.
pub const DEFAULT_COL_WIDTH: i64 = 80;
/// Width of the vertical scrollbar strip on the right edge.
pub const V_SCROLLBAR_WIDTH: i64 = 12;
/// Height of the horizontal scrollbar strip on the bottom edge.
pub const H_SCROLLBAR_HEIGHT: i64 = 12;
/// A press within this many pixels of a column boundary grabs the divider.
pub const COL_RESIZE_GRAB_ZONE: i64 = 4;
/// A scrollbar thumb never shrinks below this many pixels.
pub const MIN_THUMB_SIZE: i64 = 20;

/// Largest magnitude accepted for a cursor coordinate or a viewport
/// dimension (2^31 pixels).
pub const MAX_COORD: i64 = 0x8000_0000;
/// Largest column count the widget accepts (2^20 columns).
pub const MAX_COLS: usize = 0x10_0000;
/// A manual resize never widens a column beyond this (2^31 pixels).
pub const MAX_COL_WIDTH: i64 = 0x8000_0000;
/// Largest logical row count the widget accepts (2^47 rows).
pub const MAX_TOTAL_ROWS: u64 = 0x8000_0000_0000;
/// Upper bound on the total content width: `MAX_COLS * MAX_COL_WIDTH`.
pub const MAX_CONTENT_W: i64 = 0x8_0000_0000_0000;
/// Upper bound on the total content height:
/// `HEADER_HEIGHT + MAX_TOTAL_ROWS * ROW_HEIGHT` rounded up to a power of two.
pub const MAX_CONTENT_H: i64 = 0x10_0000_0000_0000;
/// Upper bound on either scroll offset (2^53): the largest maximum scroll
/// any well-formed content and viewport can produce, with slack.
pub const MAX_SCROLL: i64 = 0x20_0000_0000_0000;
/// Largest magnitude a rectangle position handed to a hit test may have
/// (2^48); scrollbar thumbs computed from extreme content sizes stay within
/// it.
pub const MAX_ABS_POS: i64 = 0x1_0000_0000_0000;

/// A cursor position, in absolute pixels.
#[derive(Clone, Copy, PartialEq, Eq, Structural, Debug)]
pub struct Point {
    pub x: i64,
    pub y: i64,
}

/// An axis-aligned rectangle, in absolute pixels.
#[derive(Clone, Copy, PartialEq, Eq, Structural, Debug)]
pub struct Rect {
    pub x: i64,
    pub y: i64,
    pub width: i64,
    pub height: i64,
}

impl Point {
    /// Both coordinates are small enough for the grid's arithmetic.
    pub open spec fn wf(self) -> bool {
        -MAX_COORD <= self.x <= MAX_COORD && -MAX_COORD <= self.y <= MAX_COORD
    }
}

impl Rect {
    /// The rectangle sits at a bounded position and has bounded,
    /// non-negative extents.
    pub open spec fn wf(self) -> bool {
        &&& -MAX_COORD <= self.x <= MAX_COORD
        &&& -MAX_COORD <= self.y <= MAX_COORD
        &&& 0 <= self.width <= MAX_COORD
        &&& 0 <= self.height <= MAX_COORD
    }

    /// Whether `p` lies inside the rectangle (edges on the left and top
    /// included, on the right and bottom excluded).
    pub open spec fn spec_contains(self, p: Point) -> bool {
        self.x <= p.x < self.x + self.width && self.y <= p.y < self.y + self.height
    }

    /// Runtime point-in-rectangle test.  The rectangle's position must be
    /// bounded, but its extents may be as large as the arithmetic allows, so
    /// that degenerate scrollbar thumbs can still be tested.
    pub fn contains(&self, p: Point) -> (r: bool)
        requires
            -MAX_ABS_POS <= self.x <= MAX_ABS_POS,
            -MAX_ABS_POS <= self.y <= MAX_ABS_POS,
            0 <= self.width,
            0 <= self.height,
            p.wf(),
        ensures
            r == self.spec_contains(p),
    {
        self.x <= p.x && p.x - self.x < self.width && self.y <= p.y && p.y - self.y < self.height
    }
}

/// The larger of two mathematical integers.
pub open spec fn max_spec(a: int, b: int) -> int {
    if a >= b {
        a
    } else {
        b
    }
}

/// The smaller of two mathematical integers.
pub open spec fn min_spec(a: int, b: int) -> int {
    if a <= b {
        a
    } else {
        b
    }
}

/// The absolute value of a mathematical integer.
pub open spec fn abs_spec(a: int) -> int {
    if a >= 0 {
        a
    } else {
        -a
    }
}

/// `v` pulled into `[lo, hi]`.
pub open spec fn clamp_spec(v: int, lo: int, hi: int) -> int {
    if v < lo {
        lo
    } else if v > hi {
        hi
    } else {
        v
    }
}

/// Runtime clamp on 64-bit pixel values.
pub fn clamp_i64(v: i64, lo: i64, hi: i64) -> (r: i64)
    requires
        lo <= hi,
    ensures
        r == clamp_spec(v as int, lo as int, hi as int),
{
    if v < lo {
        lo
    } else if v > hi {
        hi
    } else {
        v
    }
}

/// The larger of two pixel values.
pub fn max_i64(a: i64, b: i64) -> (r: i64)
    ensures
        r == if a >= b { a as int } else { b as int },
{
    if a >= b {
        a
    } else {
        b
    }
}

} // verus!
