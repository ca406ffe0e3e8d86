//! A single parameterized statement with positional parameters.
//!
//! The statement holds the SQL text and the typed values bound to `@P1`,
//! `@P2`, ... in order; binding appends, never reorders.  Execution itself
//! is the driver's work at the unverified edge.

use vstd::prelude::*;
use crate::values::{SqlValue, ValueModel};

verus! {

/// A parameterized command: SQL text plus its positional parameters.
#[derive(Clone, PartialEq, Eq, Debug)]
pub struct ScalarStatement {
    sql: String,
    params: Vec<SqlValue>,
}

impl ScalarStatement {
    /// The statement's SQL text.
    pub closed spec fn text(self) -> Seq<char> {
        self.sql@
    }

    /// The models of the bound parameters, in positional order.
    pub closed spec fn param_models(self) -> Seq<ValueModel> {
        self.params@.map_values(|v: SqlValue| v@)
    }

    /// A statement with no parameters bound yet.
    pub fn new(sql: String) -> (r: ScalarStatement)
        ensures
            r.text() == sql@,
            r.param_models() == Seq::<ValueModel>::empty(),
    {
        let r = ScalarStatement { sql, params: Vec::new() };
        proof {
            assert(r.param_models() =~= Seq::<ValueModel>::empty());
        }
        r
    }

    /// Binds one more positional parameter, after all bound so far.
    pub fn bind(&mut self, v: SqlValue)
        ensures
            final(self).text() == old(self).text(),
            final(self).param_models() == old(self).param_models().push(v@),
    {
        self.params.push(v);
        proof {
            assert(self.param_models() =~= old(self).param_models().push(v@));
        }
    }

    /// Number of parameters bound.
    pub fn param_count(&self) -> (n: usize)
        ensures
            n == self.param_models().len(),
    {
        self.params.len()
    }

    /// The parameter at position `i`, unchanged since it was bound.
    pub fn param_at(&self, i: usize) -> (v: &SqlValue)
        requires
            i < self.param_models().len(),
        ensures
            v@ == self.param_models()[i as int],
    {
        &self.params[i]
    }

    /// The SQL text, unchanged since construction.
    pub fn sql_text(&self) -> (s: &str)
        ensures
            s@ == self.text(),
    {
        self.sql.as_str()
    }
}

} // verus!
