//! A virtualized, interactive data-grid widget core.
//!
//! The crate renders a large two-dimensional table of string cells inside a
//! fixed viewport, drawing only the cells that are currently visible.  It
//! owns the layout arithmetic (column widths, content extents), the
//! hit-testing of the cursor against column dividers and scrollbar thumbs,
//! the interaction state machine (column resize, thumb drags, wheel and
//! keyboard scrolling), and the clipped renderer, which emits plain draw
//! commands for a host rendering backend to execute.
//!
//! All geometry is in whole pixels.  The host feeds the widget input events
//! one at a time and reads back a "redraw needed" signal; the widget never
//! performs any input or output itself.

use vstd::prelude::*;

pub mod geom;
pub mod table;
pub mod layout;
pub mod hit;
pub mod events;
pub mod render;
pub mod laws;

verus! {

/// The two panes a host application lays out around the grid: a code editor
/// and the data table itself.
pub enum PaneType {
    CodeEditor,
    DataTable,
}

} // verus!
