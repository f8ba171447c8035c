//! Presentation decisions that the per-frame refresh derives from the
//! state: where a listing slot sits in the display grid, which of the
//! three fixed color tiers an entry gets, and the mode indicator text.

use vstd::prelude::*;
use crate::state::VimMode;

verus! {

/// Listing slots are laid out in rows of this many columns.
pub const GRID_COLUMNS: usize = 10;

/// The column and row of the `i`-th listing slot in the display grid.
pub fn grid_cell(i: usize) -> (cell: (usize, usize))
    ensures
        cell.0 == i % GRID_COLUMNS,
        cell.1 == i / GRID_COLUMNS,
{
    (i % GRID_COLUMNS, i / GRID_COLUMNS)
}

/// The three fixed color tiers of an entry's visual.
#[derive(Clone, Copy, Debug, PartialEq, Eq, Structural)]
pub enum Highlight {
    /// The entry the selection rests on.
    Selected,
    /// An unselected directory.
    Directory,
    /// An unselected file.
    Plain,
}

/// Which tier the entry at `index` gets while `selected` is the selected
/// row: selection wins, then directories, then files.
pub open spec fn highlight_spec(index: int, selected: int, is_dir: bool) -> Highlight {
    if index == selected {
        Highlight::Selected
    } else if is_dir {
        Highlight::Directory
    } else {
        Highlight::Plain
    }
}

/// Decides the color tier of one entry's visual.
pub fn highlight_for(index: usize, selected: usize, is_dir: bool) -> (h: Highlight)
    ensures
        h == highlight_spec(index as int, selected as int, is_dir),
{
    if index == selected {
        Highlight::Selected
    } else if is_dir {
        Highlight::Directory
    } else {
        Highlight::Plain
    }
}

/// The text of the mode indicator.
pub open spec fn mode_label_spec(m: VimMode) -> Seq<char> {
    match m {
        VimMode::Normal => "-- NORMAL --"@,
        VimMode::Visual => "-- VISUAL --"@,
        VimMode::Command => ":"@,
    }
}

/// The mode indicator text shown at the bottom of the window.
pub fn mode_label(m: VimMode) -> (r: &'static str)
    ensures
        r@ == mode_label_spec(m),
{
    match m {
        VimMode::Normal => "-- NORMAL --",
        VimMode::Visual => "-- VISUAL --",
        VimMode::Command => ":",
    }
}

} // verus!
