//! Rows: ordered cell values, aligned by position with a list of column names.

use vstd::prelude::*;
use crate::error::RowError;

verus! {

/// One row of cell values.
#[derive(Debug, Clone, PartialEq)]
pub struct Row<V>(pub Vec<V>);

impl<V> View for Row<V> {
    type V = Seq<V>;

    open spec fn view(&self) -> Seq<V> {
        self.0@
    }
}

impl<V> Row<V> {
    /// The cell at `index`, if the row is that long.
    pub fn get_value(&self, index: usize) -> (value: Option<&V>)
        ensures
            value == if index < self@.len() { Some(&self@[index as int]) } else { None },
    {
        if index < self.0.len() {
            Some(&self.0[index])
        } else {
            None
        }
    }

    /// Consumes the row and hands out its first cell; an empty row has none.
    pub fn take_first_value(self) -> (value: Result<V, RowError>)
        ensures
            value == first_value(self@),
    {
        let mut cells = self.0;
        if cells.len() == 0 {
            Err(RowError::Empty)
        } else {
            Ok(cells.swap_remove(0))
        }
    }
}

/// The first cell of a row, or the error that an empty row gives.
pub open spec fn first_value<V>(cells: Seq<V>) -> Result<V, RowError> {
    if cells.len() == 0 {
        Err(RowError::Empty)
    } else {
        Ok(cells[0])
    }
}

} // verus!
