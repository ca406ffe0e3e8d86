//! An ordered tuple of nullable typed values, as one row of a bulk stream.

use vstd::prelude::*;
use crate::schema::{accepts, ColumnType};
use crate::values::{SqlValue, ValueModel};

verus! {

/// The model of a row: the sequence of its value models, in column order.
pub open spec fn row_model(values: Seq<SqlValue>) -> Seq<ValueModel> {
    values.map_values(|v: SqlValue| v@)
}

/// Whether a row model is accepted by a column list: same arity, and every
/// value matches its column.
pub open spec fn row_accepted(cols: Seq<ColumnType>, row: Seq<ValueModel>) -> bool {
    row.len() == cols.len() && forall|i: int| 0 <= i < row.len() ==> accepts(cols[i], row[i])
}

/// One row to be streamed: values are pushed in column order and never
/// reordered.
#[derive(Clone, PartialEq, Eq, Debug)]
pub struct Row {
    values: Vec<SqlValue>,
}

impl View for Row {
    type V = Seq<ValueModel>;

    closed spec fn view(&self) -> Seq<ValueModel> {
        row_model(self.values@)
    }
}

impl Row {
    /// An empty row.
    pub fn new() -> (r: Row)
        ensures
            r@ == Seq::<ValueModel>::empty(),
    {
        let r = Row { values: Vec::new() };
        proof {
            assert(r@ =~= Seq::<ValueModel>::empty());
        }
        r
    }

    /// An empty row with room reserved for `capacity` values.
    pub fn with_capacity(capacity: usize) -> (r: Row)
        ensures
            r@ == Seq::<ValueModel>::empty(),
    {
        let r = Row { values: Vec::with_capacity(capacity) };
        proof {
            assert(r@ =~= Seq::<ValueModel>::empty());
        }
        r
    }

    /// Appends one value at the end of the row.
    pub fn push(&mut self, v: SqlValue)
        ensures
            final(self)@ == old(self)@.push(v@),
    {
        self.values.push(v);
        proof {
            assert(self@ =~= old(self)@.push(v@));
        }
    }

    /// Number of values in the row.
    pub fn len(&self) -> (n: usize)
        ensures
            n == self@.len(),
    {
        self.values.len()
    }

    /// Whether this row would be accepted against `columns`: same arity,
    /// and every value matches its column.
    pub fn matches_columns(&self, columns: &Vec<ColumnType>) -> (r: bool)
        ensures
            r == row_accepted(columns@, self@),
    {
        let n: usize = self.values.len();
        if n != columns.len() {
            return false;
        }
        let mut i: usize = 0;
        while i < n
            invariant
                n == self@.len(),
                n == columns@.len(),
                i <= n,
                forall|k: int| 0 <= k < i ==> accepts(columns@[k], self@[k]),
            decreases n - i,
        {
            if !crate::schema::value_matches_column(&columns[i], &self.values[i]) {
                return false;
            }
            i += 1;
        }
        true
    }

    /// The value at position `i`, unchanged since it was pushed.
    pub fn get(&self, i: usize) -> (v: &SqlValue)
        requires
            i < self@.len(),
        ensures
            v@ == self@[i as int],
    {
        &self.values[i]
    }
}

} // verus!
