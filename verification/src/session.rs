//! The bulk insert session: an ordered outbound stream of rows.
//!
//! A session is opened against one table and its column list, is mutated by
//! successive row sends, and is finalized exactly once.  Rows are committed
//! in the order sent; a row whose arity or types do not match the column
//! list is rejected and leaves the session unchanged; a send or a second
//! finalize after finalize fails fast.

use vstd::prelude::*;
use crate::row::{row_accepted, Row};
use crate::schema::{accepts, ColumnType};
use crate::values::ValueModel;

verus! {

/// Why a send or a finalize was refused.
///
/// `ColumnCountMismatch` and `ColumnTypeMismatch` report a row that does not
/// match the column list — the encoding errors of the stream.
/// `SessionFinalized` reports a call on a session that was already
/// finalized.
#[derive(Clone, Copy, PartialEq, Eq, Structural, Debug)]
pub enum SessionError {
    SessionFinalized,
    ColumnCountMismatch { expected: usize, found: usize },
    ColumnTypeMismatch { column: usize },
}

/// Index of the first value of `row` that its column refuses; meaningful
/// when the arities agree and some value is refused.
pub open spec fn first_rejected_column(cols: Seq<ColumnType>, row: Seq<ValueModel>) -> int
    decreases row.len(),
{
    if row.len() == 0 {
        0
    } else if !accepts(cols[0], row[0]) {
        0
    } else {
        1 + first_rejected_column(cols.drop_first(), row.drop_first())
    }
}

/// The error a send of `row` against `cols` reports when the row is not
/// accepted: the arity mismatch, else the first refused column.
pub open spec fn row_error(cols: Seq<ColumnType>, row: Seq<ValueModel>) -> SessionError {
    if row.len() != cols.len() {
        SessionError::ColumnCountMismatch {
            expected: cols.len() as usize,
            found: row.len() as usize,
        }
    } else {
        SessionError::ColumnTypeMismatch { column: first_rejected_column(cols, row) as usize }
    }
}

/// When all values before `i` are accepted and the value at `i` is refused,
/// `i` is the first refused column.
proof fn lemma_first_rejected(cols: Seq<ColumnType>, row: Seq<ValueModel>, i: int)
    requires
        row.len() == cols.len(),
        0 <= i < row.len(),
        forall|k: int| 0 <= k < i ==> accepts(cols[k], row[k]),
        !accepts(cols[i], row[i]),
    ensures
        first_rejected_column(cols, row) == i,
    decreases i,
{
    if i == 0 {
    } else {
        assert(accepts(cols[0], row[0]));
        let ctail = cols.drop_first();
        let rtail = row.drop_first();
        assert forall|k: int| 0 <= k < i - 1 implies accepts(ctail[k], rtail[k]) by {
            assert(accepts(cols[k + 1], row[k + 1]));
        }
        assert(!accepts(ctail[i - 1], rtail[i - 1]));
        lemma_first_rejected(ctail, rtail, i - 1);
    }
}

/// A bulk insert session: one table, a fixed column list, an ordered log of
/// the rows accepted so far, and a terminal flag set by finalize.
pub struct BulkSession {
    table: String,
    columns: Vec<ColumnType>,
    rows_sent: u64,
    finalized: bool,
    log: Ghost<Seq<Seq<ValueModel>>>,
}

impl BulkSession {
    /// The table the session was opened against.
    pub closed spec fn table_name(self) -> Seq<char> {
        self.table@
    }

    /// The column list the session validates rows against.
    pub closed spec fn col_types(self) -> Seq<ColumnType> {
        self.columns@
    }

    /// The rows accepted so far, in the order they were sent.
    pub closed spec fn sent(self) -> Seq<Seq<ValueModel>> {
        self.log@
    }

    /// How many rows were accepted so far.
    pub closed spec fn sent_count(self) -> u64 {
        self.rows_sent
    }

    /// Whether the session was finalized and is terminal.
    pub closed spec fn is_finalized(self) -> bool {
        self.finalized
    }

    /// The session invariant: the counter counts the log, and every logged
    /// row was accepted by the column list.
    pub closed spec fn inv(self) -> bool {
        &&& self.rows_sent as int == self.log@.len()
        &&& forall|i: int|
            0 <= i < self.log@.len() ==> row_accepted(self.columns@, self.log@[i])
    }

    /// Opens a fresh session against `table` with the given column list:
    /// nothing sent, not finalized.
    pub fn open(table: String, columns: Vec<ColumnType>) -> (s: BulkSession)
        ensures
            s.inv(),
            s.table_name() == table@,
            s.col_types() == columns@,
            s.sent() == Seq::<Seq<ValueModel>>::empty(),
            s.sent_count() == 0,
            !s.is_finalized(),
    {
        BulkSession {
            table,
            columns,
            rows_sent: 0,
            finalized: false,
            log: Ghost(Seq::empty()),
        }
    }

    /// Number of columns of the session's table.
    pub fn column_count(&self) -> (n: usize)
        ensures
            n == self.col_types().len(),
    {
        self.columns.len()
    }

    /// Executable view of [`BulkSession::sent_count`].
    pub fn rows_sent(&self) -> (n: u64)
        ensures
            n == self.sent_count(),
    {
        self.rows_sent
    }

    /// Executable view of [`BulkSession::is_finalized`].
    pub fn finalized(&self) -> (r: bool)
        ensures
            r == self.is_finalized(),
    {
        self.finalized
    }

    /// Appends one row to the outbound stream.
    ///
    /// An accepted row is logged at the end, in order; a refused row
    /// reports exactly why and changes nothing; after finalize every send
    /// fails fast, never silently succeeding.
    pub fn send(&mut self, row: &Row) -> (r: Result<(), SessionError>)
        requires
            old(self).inv(),
            old(self).sent_count() < u64::MAX,
        ensures
            final(self).inv(),
            final(self).table_name() == old(self).table_name(),
            final(self).col_types() == old(self).col_types(),
            old(self).is_finalized() ==> r == Err::<(), SessionError>(
                SessionError::SessionFinalized,
            ) && *final(self) == *old(self),
            !old(self).is_finalized() && row_accepted(old(self).col_types(), row@) ==> r
                == Ok::<(), SessionError>(()) && final(self).sent() == old(self).sent().push(row@)
                && final(self).sent_count() == old(self).sent_count() + 1
                && !final(self).is_finalized(),
            !old(self).is_finalized() && !row_accepted(old(self).col_types(), row@) ==> r
                == Err::<(), SessionError>(row_error(old(self).col_types(), row@)) && *final(self)
                == *old(self),
    {
        if self.finalized {
            return Err(SessionError::SessionFinalized);
        }
        let n: usize = row.len();
        let expected: usize = self.columns.len();
        if n != expected {
            return Err(SessionError::ColumnCountMismatch { expected, found: n });
        }
        let mut i: usize = 0;
        while i < n
            invariant
                *self == *old(self),
                old(self).inv(),
                !self.finalized,
                n == row@.len(),
                n == self.columns@.len(),
                i <= n,
                forall|k: int| 0 <= k < i ==> accepts(self.columns@[k], row@[k]),
            decreases n - i,
        {
            if !crate::schema::value_matches_column(&self.columns[i], row.get(i)) {
                proof {
                    lemma_first_rejected(self.columns@, row@, i as int);
                }
                return Err(SessionError::ColumnTypeMismatch { column: i });
            }
            i += 1;
        }
        self.rows_sent = self.rows_sent + 1;
        self.log = Ghost(self.log@.push(row@));
        proof {
            assert(row_accepted(old(self).col_types(), row@));
            assert forall|j: int| 0 <= j < self.log@.len() implies row_accepted(
                self.columns@,
                self.log@[j],
            ) by {
                if j < old(self).log@.len() {
                    assert(row_accepted(old(self).columns@, old(self).log@[j]));
                }
            }
        }
        Ok(())
    }

    /// Flushes the stream and makes the session terminal, reporting how many
    /// rows were committed: exactly the rows sent, in order.  On a session
    /// already finalized it fails and changes nothing.
    pub fn finalize(&mut self) -> (r: Result<u64, SessionError>)
        requires
            old(self).inv(),
        ensures
            final(self).inv(),
            final(self).table_name() == old(self).table_name(),
            final(self).col_types() == old(self).col_types(),
            final(self).sent() == old(self).sent(),
            final(self).sent_count() == old(self).sent_count(),
            old(self).is_finalized() ==> r == Err::<u64, SessionError>(
                SessionError::SessionFinalized,
            ) && *final(self) == *old(self),
            !old(self).is_finalized() ==> r == Ok::<u64, SessionError>(old(self).sent_count())
                && final(self).is_finalized()
                && old(self).sent_count() as int == old(self).sent().len(),
    {
        if self.finalized {
            return Err(SessionError::SessionFinalized);
        }
        self.finalized = true;
        Ok(self.rows_sent)
    }
}

/// Law: a session holds only rows its column list accepted — whatever was
/// committed has the table's arity and per-column types, value for value.
pub proof fn lemma_sent_rows_match_columns(s: BulkSession, i: int)
    requires
        s.inv(),
        0 <= i < s.sent().len(),
    ensures
        row_accepted(s.col_types(), s.sent()[i]),
{
}

/// The bulk load harness: opens a session against `table`, streams `rows`
/// in order, and finalizes.
///
/// It succeeds if and only if every row matches the column list, and then
/// reports exactly the number of rows given; on the first row refused it
/// stops with that row's error.
pub fn load_rows(table: String, columns: Vec<ColumnType>, rows: &Vec<Row>) -> (r: Result<
    u64,
    SessionError,
>)
    requires
        rows@.len() <= u64::MAX,
    ensures
        (forall|i: int| 0 <= i < rows@.len() ==> row_accepted(columns@, rows@[i]@)) ==> r
            == Ok::<u64, SessionError>(rows@.len() as u64),
        !(forall|i: int| 0 <= i < rows@.len() ==> row_accepted(columns@, rows@[i]@)) ==> (exists|
            j: int,
        |
            0 <= j < rows@.len() && !row_accepted(columns@, rows@[j]@) && (forall|k: int|
                0 <= k < j ==> row_accepted(columns@, rows@[k]@)) && r == Err::<u64, SessionError>(
                row_error(columns@, rows@[j]@),
            )),
{
    let ghost cols: Seq<ColumnType> = columns@;
    let mut session = BulkSession::open(table, columns);
    let mut i: usize = 0;
    while i < rows.len()
        invariant
            cols == columns@,
            session.inv(),
            !session.is_finalized(),
            session.col_types() == cols,
            rows@.len() <= u64::MAX,
            i <= rows@.len(),
            session.sent_count() == i,
            forall|k: int| 0 <= k < i ==> row_accepted(cols, rows@[k]@),
        decreases rows@.len() - i,
    {
        match session.send(&rows[i]) {
            Ok(_) => {},
            Err(e) => {
                proof {
                    let j: int = i as int;
                    assert(!row_accepted(cols, rows@[j]@));
                    assert(e == row_error(cols, rows@[j]@));
                }
                return Err(e);
            },
        }
        i += 1;
    }
    match session.finalize() {
        Ok(count) => Ok(count),
        Err(e) => Err(e),
    }
}

} // verus!
