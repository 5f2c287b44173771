//! The `INSERT` statement builder.

use vstd::prelude::*;

use crate::clauses::{keys_of, returning_clause, split_pairs, vals_of};
use crate::pairs::{keys_unique, pair_views, put_pair, set_pair};
use crate::text::{join_strs, spec_join, views_of};

verus! {

/// Builder for an `INSERT` statement: target table, field/value mapping and
/// `RETURNING` fields.
///
/// The mapping is kept as a list of pairs with pairwise-distinct field names;
/// `set` replaces the value of an existing field in place. An absent clause
/// is a collection of length zero.
#[derive(Debug)]
pub struct Insert {
    pub table: String,
    pub values: Vec<(String, String)>,
    pub returns: Vec<String>,
}

/// The mathematical state of an `Insert` builder.
pub struct InsertView {
    pub table: Seq<char>,
    pub values: Seq<(Seq<char>, Seq<char>)>,
    pub returns: Seq<Seq<char>>,
}

impl View for Insert {
    type V = InsertView;

    open spec fn view(&self) -> InsertView {
        InsertView {
            table: self.table@,
            values: pair_views(self.values@),
            returns: views_of(self.returns@),
        }
    }
}

/// The full text an `Insert` builder renders to: the column list and the
/// value list are the two projections of the same pair list, so the value at
/// any position belongs to the column at that position.
pub open spec fn render_insert(v: InsertView) -> Seq<char> {
    "INSERT INTO "@ + v.table + " ("@ + spec_join(keys_of(v.values), ", "@) + ") VALUES ("@
        + spec_join(vals_of(v.values), ", "@) + ")"@ + returning_clause(v.returns) + ";"@
}

impl Insert {
    /// The field names recorded so far are pairwise distinct.
    pub open spec fn wf(&self) -> bool {
        keys_unique(self@.values)
    }

    /// Construct a new `INSERT` query builder
    pub fn new(table: &str) -> (r: Self)
        ensures
            r@.table == table@,
            r@.values == Seq::<(Seq<char>, Seq<char>)>::empty(),
            r@.returns == Seq::<Seq<char>>::empty(),
            r.wf(),
    {
        let r = Insert { table: table.to_owned(), values: Vec::new(), returns: Vec::new() };
        proof {
            assert(r@.values =~= Seq::<(Seq<char>, Seq<char>)>::empty());
            assert(r@.returns =~= Seq::<Seq<char>>::empty());
        }
        r
    }

    /// Set a field value
    pub fn set(self, field: &str, value: &str) -> (r: Self)
        requires
            self.wf(),
        ensures
            r@.table == self@.table,
            r@.values == set_pair(self@.values, field@, value@),
            r@.returns == self@.returns,
            r.wf(),
    {
        let mut values = self.values;
        put_pair(&mut values, field, value);
        Insert { table: self.table, values, returns: self.returns }
    }

    /// Add returning field
    pub fn returning(self, field: &str) -> (r: Self)
        ensures
            r@.table == self@.table,
            r@.values == self@.values,
            r@.returns == self@.returns.push(field@),
    {
        let mut rets = self.returns;
        rets.push(field.to_owned());
        let r = Insert { table: self.table, values: self.values, returns: rets };
        proof {
            assert(r@.returns =~= self@.returns.push(field@));
        }
        r
    }

    /// Generate SQL query (`String`) from subsequent method calls
    ///
    /// At least one field must have been set: the column and value lists of
    /// an `INSERT` are never empty.
    pub fn build(&self) -> (r: String)
        requires
            self@.values.len() >= 1,
        ensures
            r@ == render_insert(self@),
    {
        let mut query = "INSERT INTO ".to_owned();
        query.append(self.table.as_str());
        let (columns, values) = split_pairs(&self.values);
        proof {
            assert(views_of(columns@).len() == columns@.len());
            assert(views_of(values@).len() == values@.len());
        }
        query.append(" (");
        let joined_columns = join_strs(&columns, ", ");
        query.append(joined_columns.as_str());
        query.append(") VALUES (");
        let joined_values = join_strs(&values, ", ");
        query.append(joined_values.as_str());
        query.append(")");
        if self.returns.len() > 0 {
            query.append(" RETURNING ");
            let joined_returns = join_strs(&self.returns, ", ");
            query.append(joined_returns.as_str());
        }
        query.append(";");
        proof {
            assert(query@ =~= render_insert(self@));
        }
        query
    }
}

} // verus!
