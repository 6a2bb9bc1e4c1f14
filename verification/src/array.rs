//! Immutable columnar batches of rows.

use vstd::prelude::*;
use std::sync::Arc;
use crate::types::DataValue;

verus! {

/// An immutable, columnar batch of rows appended to a table in one
/// operation. Each element of `columns` is one column's values; every
/// column of a well-shaped chunk has the same length, but the storage
/// layer never validates that — shape conformance is its caller's task.
#[derive(Debug, PartialEq)]
pub struct DataChunk {
    columns: Vec<Vec<DataValue>>,
}

impl View for DataChunk {
    type V = Seq<Vec<DataValue>>;

    closed spec fn view(&self) -> Seq<Vec<DataValue>> {
        self.columns@
    }
}

impl DataChunk {
    pub fn new(columns: Vec<Vec<DataValue>>) -> (r: Self)
        ensures
            r@ == columns@,
    {
        DataChunk { columns }
    }

    /// The number of rows: the length of the first column, zero when the
    /// chunk has no columns.
    pub open spec fn spec_cardinality(self) -> nat {
        if self@.len() == 0 {
            0
        } else {
            self@[0]@.len()
        }
    }

    pub fn cardinality(&self) -> (r: usize)
        ensures
            r == self.spec_cardinality(),
    {
        if self.columns.len() == 0 {
            0
        } else {
            self.columns[0].len()
        }
    }

    /// The number of columns.
    pub fn column_count(&self) -> (r: usize)
        ensures
            r == self@.len(),
    {
        self.columns.len()
    }

    /// The value stored at `row` of column `col`.
    pub fn value_at(&self, col: usize, row: usize) -> (r: DataValue)
        requires
            col < self@.len(),
            row < self@[col as int]@.len(),
        ensures
            r == self@[col as int]@[row as int],
    {
        self.columns[col][row].clone()
    }
}

/// A chunk shared by reference: the table's chunk list and any reader may
/// hold the same batch without copying it.
pub type DataChunkRef = Arc<DataChunk>;

} // verus!
