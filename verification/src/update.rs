//! The `UPDATE` statement builder.

use vstd::prelude::*;

use crate::clauses::{assignment_strs, assignments_of, returning_clause, where_clause};
use crate::pairs::{keys_unique, pair_views, put_pair, set_pair};
use crate::text::{join_strs, spec_join, views_of};

verus! {

/// Builder for an `UPDATE` statement: target table, field/value mapping,
/// `WHERE` fragments and `RETURNING` fields.
///
/// The mapping is kept as a list of pairs with pairwise-distinct field names;
/// `set` replaces the value of an existing field in place. An absent clause
/// is a collection of length zero.
#[derive(Debug)]
pub struct Update {
    pub table: String,
    pub values: Vec<(String, String)>,
    pub conditions: Vec<String>,
    pub returns: Vec<String>,
}

/// The mathematical state of an `Update` builder.
pub struct UpdateView {
    pub table: Seq<char>,
    pub values: Seq<(Seq<char>, Seq<char>)>,
    pub conditions: Seq<Seq<char>>,
    pub returns: Seq<Seq<char>>,
}

impl View for Update {
    type V = UpdateView;

    open spec fn view(&self) -> UpdateView {
        UpdateView {
            table: self.table@,
            values: pair_views(self.values@),
            conditions: views_of(self.conditions@),
            returns: views_of(self.returns@),
        }
    }
}

/// The full text an `Update` builder renders to. The `SET` assignments are
/// joined with the literal token ` AND `, not a comma: this reproduces the
/// established textual contract of the statement exactly, even though it is
/// not valid SQL.
pub open spec fn render_update(v: UpdateView) -> Seq<char> {
    "UPDATE "@ + v.table + " SET "@ + spec_join(assignments_of(v.values), " AND "@)
        + where_clause(v.conditions) + returning_clause(v.returns) + ";"@
}

impl Update {
    /// The field names recorded so far are pairwise distinct.
    pub open spec fn wf(&self) -> bool {
        keys_unique(self@.values)
    }

    /// Construct a new `UPDATE` query builder
    pub fn new(table: &str) -> (r: Self)
        ensures
            r@.table == table@,
            r@.values == Seq::<(Seq<char>, Seq<char>)>::empty(),
            r@.conditions == Seq::<Seq<char>>::empty(),
            r@.returns == Seq::<Seq<char>>::empty(),
            r.wf(),
    {
        let r = Update {
            table: table.to_owned(),
            values: Vec::new(),
            conditions: Vec::new(),
            returns: Vec::new(),
        };
        proof {
            assert(r@.values =~= Seq::<(Seq<char>, Seq<char>)>::empty());
            assert(r@.conditions =~= Seq::<Seq<char>>::empty());
            assert(r@.returns =~= Seq::<Seq<char>>::empty());
        }
        r
    }

    /// Set a field value
    pub fn set(self, field: &str, value: &str) -> (r: Self)
        requires
            self.wf(),
        ensures
            r@.table == self@.table,
            r@.values == set_pair(self@.values, field@, value@),
            r@.conditions == self@.conditions,
            r@.returns == self@.returns,
            r.wf(),
    {
        let mut values = self.values;
        put_pair(&mut values, field, value);
        Update { table: self.table, values, conditions: self.conditions, returns: self.returns }
    }

    /// Add returning field
    pub fn returning(self, field: &str) -> (r: Self)
        ensures
            r@.table == self@.table,
            r@.values == self@.values,
            r@.conditions == self@.conditions,
            r@.returns == self@.returns.push(field@),
    {
        let mut rets = self.returns;
        rets.push(field.to_owned());
        let r = Update {
            table: self.table,
            values: self.values,
            conditions: self.conditions,
            returns: rets,
        };
        proof {
            assert(r@.returns =~= self@.returns.push(field@));
        }
        r
    }

    /// Filter result set based on conditions (`WHERE` clause)
    pub fn filter(self, expr: &str) -> (r: Self)
        ensures
            r@.table == self@.table,
            r@.values == self@.values,
            r@.conditions == self@.conditions.push(expr@),
            r@.returns == self@.returns,
    {
        let mut conditions = self.conditions;
        conditions.push(expr.to_owned());
        let r = Update {
            table: self.table,
            values: self.values,
            conditions,
            returns: self.returns,
        };
        proof {
            assert(r@.conditions =~= self@.conditions.push(expr@));
        }
        r
    }

    /// Generate SQL query (`String`) from subsequent method calls
    ///
    /// At least one field must have been set: the `SET` assignment list of an
    /// `UPDATE` is never empty.
    pub fn build(&self) -> (r: String)
        requires
            self@.values.len() >= 1,
        ensures
            r@ == render_update(self@),
    {
        let mut query = "UPDATE ".to_owned();
        query.append(self.table.as_str());
        let assignments = assignment_strs(&self.values);
        proof {
            assert(views_of(assignments@).len() == assignments@.len());
        }
        query.append(" SET ");
        let joined_assignments = join_strs(&assignments, " AND ");
        query.append(joined_assignments.as_str());
        if self.conditions.len() > 0 {
            query.append(" WHERE ");
            let joined_conditions = join_strs(&self.conditions, " AND ");
            query.append(joined_conditions.as_str());
        }
        if self.returns.len() > 0 {
            query.append(" RETURNING ");
            let joined_returns = join_strs(&self.returns, ", ");
            query.append(joined_returns.as_str());
        }
        query.append(";");
        proof {
            assert(query@ =~= render_update(self@));
        }
        query
    }
}

} // verus!
