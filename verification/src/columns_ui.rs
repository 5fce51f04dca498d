//! Placement of draggable items in a two-column layout.
//!
//! A location names the column an item sits in and its row from the top;
//! the widget that renders the columns and moves items around lives with
//! the caller, which only needs these locations and the item descriptions.

use vstd::prelude::*;

verus! {

/// What a draggable item shows: a label and a hover tooltip.
pub trait ColumnItem {
    /// Tooltip text of the item.
    fn tooltip(&self) -> String;

    /// Label of the item.
    fn name(&self) -> &str;
}

/// Which column an item is in, and its row from the top.
#[derive(Clone, Copy, Debug, PartialEq, Eq, Structural)]
pub struct ColumnLocation {
    first: bool,
    row: usize,
}

impl ColumnLocation {
    /// Whether the location lies in the first column.
    pub closed spec fn spec_first(&self) -> bool {
        self.first
    }

    /// The location's row from the top.
    pub closed spec fn spec_row(&self) -> int {
        self.row as int
    }

    /// A location in the given column and row.
    pub fn new(first: bool, row: usize) -> (r: ColumnLocation)
        ensures
            r.spec_first() == first,
            r.spec_row() == row as int,
    {
        ColumnLocation { first, row }
    }

    /// Whether this location lies in the first column.
    pub fn first(&self) -> (r: bool)
        ensures
            r == self.spec_first(),
    {
        self.first
    }

    /// This location's row from the top.
    pub fn row(&self) -> (r: usize)
        ensures
            r as int == self.spec_row(),
    {
        self.row
    }

    /// Move this location to the given row, keeping its column.
    pub fn set_row(&mut self, row: usize)
        ensures
            final(self).spec_first() == old(self).spec_first(),
            final(self).spec_row() == row as int,
    {
        self.row = row;
    }
}

} // verus!
