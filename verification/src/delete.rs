//! The `DELETE` statement builder.

use vstd::prelude::*;

use crate::clauses::where_clause;
use crate::text::{join_strs, views_of};

verus! {

/// Builder for a `DELETE` statement: target table and `WHERE` fragments.
///
/// All text is held as owned copies of the caller's fragments; an absent
/// clause is a collection of length zero.
#[derive(Debug)]
pub struct Delete {
    pub table: String,
    pub conditions: Vec<String>,
}

/// The mathematical state of a `Delete` builder.
pub struct DeleteView {
    pub table: Seq<char>,
    pub conditions: Seq<Seq<char>>,
}

impl View for Delete {
    type V = DeleteView;

    open spec fn view(&self) -> DeleteView {
        DeleteView { table: self.table@, conditions: views_of(self.conditions@) }
    }
}

/// The full text a `Delete` builder renders to.
pub open spec fn render_delete(v: DeleteView) -> Seq<char> {
    "DELETE FROM "@ + v.table + where_clause(v.conditions) + ";"@
}

impl Delete {
    /// Construct a new `DELETE` query builder
    pub fn new(table: &str) -> (r: Self)
        ensures
            r@.table == table@,
            r@.conditions == Seq::<Seq<char>>::empty(),
    {
        let r = Delete { table: table.to_owned(), conditions: Vec::new() };
        proof {
            assert(r@.conditions =~= Seq::<Seq<char>>::empty());
        }
        r
    }

    /// Filter result set based on conditions (`WHERE` clause)
    pub fn filter(self, expr: &str) -> (r: Self)
        ensures
            r@.table == self@.table,
            r@.conditions == self@.conditions.push(expr@),
    {
        let mut conditions = self.conditions;
        conditions.push(expr.to_owned());
        let r = Delete { table: self.table, conditions };
        proof {
            assert(r@.conditions =~= self@.conditions.push(expr@));
        }
        r
    }

    /// Generate SQL query (`String`) from subsequent method calls
    pub fn build(&self) -> (r: String)
        ensures
            r@ == render_delete(self@),
    {
        let mut query = "DELETE FROM ".to_owned();
        query.append(self.table.as_str());
        if self.conditions.len() > 0 {
            query.append(" WHERE ");
            let joined = join_strs(&self.conditions, " AND ");
            query.append(joined.as_str());
        }
        query.append(";");
        proof {
            assert(query@ =~= render_delete(self@));
        }
        query
    }
}

} // verus!
